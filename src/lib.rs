use vstd::prelude::*;

pub mod arith;
pub mod words;
pub mod ident;

verus! {

pub use crate::arith::add;

} // verus!
