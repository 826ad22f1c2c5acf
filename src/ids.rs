//! Identifiers that other parts of the compiler hand out and that the tree
//! stores and forwards without reading them.
use crate::pool::NodeId;
use vstd::prelude::*;

verus! {

/// A type variable of the inference engine.
#[derive(Debug, Clone, Copy, PartialEq, Eq, Structural)]
pub struct Variable {
    pub id: u32,
}

/// A resolved name: the module it lives in and its identifier there.
#[derive(Debug, Clone, Copy, PartialEq, Eq, Structural)]
pub struct Symbol {
    pub module: u32,
    pub ident: u32,
}

/// The tag of a built-in operation.
#[derive(Debug, Clone, Copy, PartialEq, Eq, Structural)]
pub struct LowLevel {
    pub op: u8,
}

/// How a call was written in the source (plain application, or through an operator).
#[derive(Debug, Clone, Copy, PartialEq, Eq, Structural)]
pub struct CalledVia {
    pub syntax: u16,
}

/// Whether a closure refers to itself.
#[derive(Debug, Clone, Copy, PartialEq, Eq, Structural)]
pub enum Recursive {
    NotRecursive,
    Recursive,
    TailRecursive,
}

/// Element of the pattern pool, which the pattern checker owns; the tree only
/// keeps handles into it.
#[derive(Debug, Clone, Copy, PartialEq, Eq, Structural)]
pub struct Pattern2 {
    pub node: u32,
}

/// Element of the type pool, which the type checker owns; the tree only keeps
/// handles into it.
#[derive(Debug, Clone, Copy, PartialEq, Eq, Structural)]
pub struct Type2 {
    pub node: u32,
}

pub type PatternId = NodeId<Pattern2>;

pub type TypeId = NodeId<Type2>;

} // verus!
