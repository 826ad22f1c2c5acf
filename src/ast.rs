use crate::ids::{
    CalledVia, LowLevel, Pattern2, PatternId, Recursive, Symbol, Type2, TypeId, Variable,
};
use crate::inline_str::SmallStr;
use crate::pool::{NodeId, PoolStr, PoolVec, ShallowClone};
use vstd::prelude::*;

verus! {

/// The one recoverable failure of the pooled tree: the index space of handles is used up.
#[derive(Debug, Clone, Copy, PartialEq, Eq, PartialOrd, Ord, Structural)]
pub enum Problem {
    RanOutOfNodeIds,
}

pub type Res<T> = Result<T, Problem>;

/// The base in which an integer literal was written, as the parser reports it.
#[derive(Debug, Clone, Copy, PartialEq, Eq, Structural)]
pub enum Base {
    Decimal,
    Octal,
    Hex,
    Binary,
}

/// The base in which an integer literal was written, as the tree keeps it.
#[derive(Debug, Copy, Clone, PartialEq, Eq, Structural)]
pub enum IntStyle {
    Decimal,
    Octal,
    Hex,
    Binary,
}

pub open spec fn style_of_base(base: Base) -> IntStyle {
    match base {
        Base::Decimal => IntStyle::Decimal,
        Base::Octal => IntStyle::Octal,
        Base::Hex => IntStyle::Hex,
        Base::Binary => IntStyle::Binary,
    }
}

impl IntStyle {
    pub fn from_base(base: Base) -> (r: Self)
        ensures
            r == style_of_base(base),
    {
        match base {
            Base::Decimal => IntStyle::Decimal,
            Base::Octal => IntStyle::Octal,
            Base::Hex => IntStyle::Hex,
            Base::Binary => IntStyle::Binary,
        }
    }
}

/// An integer literal that fits in 64 bits, with its width and signedness.
#[derive(Debug, Copy, Clone, PartialEq, Eq, Structural)]
pub enum IntVal {
    I64(i64),
    U64(u64),
    I32(i32),
    U32(u32),
    I16(i16),
    U16(u16),
    I8(i8),
    U8(u8),
}

/// A floating-point literal, kept as the IEEE 754 bit pattern of its value.
#[derive(Debug, Copy, Clone, PartialEq, Eq, Structural)]
pub enum FloatVal {
    F64(u64),
    F32(u32),
}

pub type ExprId = NodeId<Expr2>;

/// One expression of the tree, in a node of `NODE_BYTES` bytes: a one-byte tag
/// and a payload of at most 31 bytes. Whatever does not fit is held in another
/// pool and reached by handle.
#[derive(Debug)]
pub enum Expr2 {
    /// An integer literal that fits in 64 bits.
    SmallInt { number: IntVal, var: Variable, style: IntStyle, text: PoolStr },
    /// A negative integer literal that needs 128 bits.
    I128 { number: i128, var: Variable, style: IntStyle, text: PoolStr },
    /// A nonnegative integer literal that needs 128 bits.
    U128 { number: u128, var: Variable, style: IntStyle, text: PoolStr },
    /// A floating-point literal.
    Float { number: FloatVal, var: Variable },
    /// A string literal short enough to be stored inline.
    SmallStr(SmallStr),
    /// A longer string literal, held in the pool's string storage.
    Str(PoolStr),
    /// A lookup of a name.
    Var(Symbol),
    List { list_var: Variable, elem_var: Variable, elems: PoolVec<Expr2> },
    If {
        cond_var: Variable,
        expr_var: Variable,
        branches: PoolVec<(Expr2, Expr2)>,
        final_else: NodeId<Expr2>,
    },
    When {
        cond_var: Variable,
        expr_var: Variable,
        branches: PoolVec<WhenBranch>,
        cond: NodeId<Expr2>,
    },
    LetRec { defs: PoolVec<FunctionDef>, body_var: Variable, body_id: NodeId<Expr2> },
    LetFunction { def: NodeId<FunctionDef>, body_var: Variable, body_id: NodeId<Expr2> },
    LetValue { def_id: NodeId<ValueDef>, body_id: NodeId<Expr2>, body_var: Variable },
    Call {
        args: PoolVec<(Variable, NodeId<Expr2>)>,
        expr: NodeId<Expr2>,
        expr_var: Variable,
        fn_var: Variable,
        closure_var: Variable,
        called_via: CalledVia,
    },
    RunLowLevel { op: LowLevel, args: PoolVec<(Variable, NodeId<Expr2>)>, ret_var: Variable },
    Closure {
        args: PoolVec<(Variable, NodeId<Pattern2>)>,
        name: Symbol,
        body: NodeId<Expr2>,
        function_type: Variable,
        recursive: Recursive,
        extra: NodeId<ClosureExtra>,
    },
    Record { record_var: Variable, fields: PoolVec<(PoolStr, Variable, NodeId<Expr2>)> },
    /// The empty record.
    EmptyRecord,
    /// The lookup of one field of a record, `(expr).foo`.
    Access {
        field: PoolStr,
        expr: NodeId<Expr2>,
        record_var: Variable,
        ext_var: Variable,
        field_var: Variable,
    },
    /// A field accessor used as a function, `.foo`.
    Accessor {
        function_var: Variable,
        closure_var: Variable,
        field: PoolStr,
        record_var: Variable,
        ext_var: Variable,
        field_var: Variable,
    },
    Update {
        symbol: Symbol,
        updates: PoolVec<(PoolStr, Variable, ExprId)>,
        record_var: Variable,
        ext_var: Variable,
    },
    GlobalTag {
        name: PoolStr,
        variant_var: Variable,
        ext_var: Variable,
        arguments: PoolVec<(Variable, NodeId<Expr2>)>,
    },
    PrivateTag {
        name: Symbol,
        variant_var: Variable,
        ext_var: Variable,
        arguments: PoolVec<(Variable, NodeId<Expr2>)>,
    },
    /// An expression known to be ill-formed: building it never fails, and
    /// evaluating it aborts.
    RuntimeError,
}

/// The named and unnamed type variables that an annotation brings into scope.
#[derive(Debug)]
pub struct Rigids {
    pub named: PoolVec<(PoolStr, Variable)>,
    pub unnamed: PoolVec<Variable>,
}

impl ShallowClone for Rigids {
    fn shallow_clone(&self) -> (r: Self) {
        Rigids { named: self.named.shallow_clone(), unnamed: self.unnamed.shallow_clone() }
    }
}

/// A definition of a value: its pattern, the annotation if there is one, and
/// the variable of its inferred type.
#[derive(Debug)]
pub struct ValueDef {
    pub pattern: PatternId,
    pub expr_type: Option<(TypeId, Rigids)>,
    pub expr_var: Variable,
}

impl ShallowClone for ValueDef {
    fn shallow_clone(&self) -> (r: Self) {
        ValueDef {
            pattern: self.pattern,
            expr_type: match &self.expr_type {
                Some((id, rigids)) => Some((*id, rigids.shallow_clone())),
                None => None,
            },
            expr_var: self.expr_var,
        }
    }
}

/// A definition of a function, with or without a type annotation.
#[derive(Debug)]
pub enum FunctionDef {
    WithAnnotation {
        name: Symbol,
        arguments: PoolVec<(Pattern2, Type2)>,
        rigids: NodeId<Rigids>,
        return_type: TypeId,
    },
    NoAnnotation { name: Symbol, arguments: PoolVec<(Pattern2, Variable)>, return_var: Variable },
}

impl ShallowClone for FunctionDef {
    fn shallow_clone(&self) -> (r: Self) {
        match self {
            FunctionDef::WithAnnotation { name, arguments, rigids, return_type } => {
                FunctionDef::WithAnnotation {
                    name: *name,
                    arguments: arguments.shallow_clone(),
                    rigids: *rigids,
                    return_type: *return_type,
                }
            },
            FunctionDef::NoAnnotation { name, arguments, return_var } => {
                FunctionDef::NoAnnotation {
                    name: *name,
                    arguments: arguments.shallow_clone(),
                    return_var: *return_var,
                }
            },
        }
    }
}

/// What a closure needs beyond its node: the fields that do not fit in `NODE_BYTES`.
#[derive(Debug)]
pub struct ClosureExtra {
    pub return_type: Variable,
    pub captured_symbols: PoolVec<(Symbol, Variable)>,
    pub closure_type: Variable,
    pub closure_ext_var: Variable,
}

/// One branch of a `when`: its patterns, its body and its guard, if any.
#[derive(Debug)]
pub struct WhenBranch {
    pub patterns: PoolVec<Pattern2>,
    pub body: NodeId<Expr2>,
    pub guard: Option<NodeId<Expr2>>,
}

} // verus!
