use vstd::prelude::*;

pub mod calc;
pub mod eval;
pub mod format;
pub mod input;
pub mod text;

verus! {

} // verus!
