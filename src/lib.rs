//! Arena-pooled expression nodes of fixed size, and a read-only view over the
//! memory of an evaluated program that decodes its result.
use vstd::prelude::*;

pub mod ast;
pub mod ids;
pub mod inline_str;
pub mod memory;
pub mod pool;
pub mod repl_app;

