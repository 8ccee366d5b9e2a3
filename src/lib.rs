//! Continuation-passing builders for literal and macro-invocation syntax nodes.
use vstd::prelude::*;

pub mod ast;
pub mod interned;
pub mod invoke;
pub mod lit;
pub mod mac;
