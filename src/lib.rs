//! A personal expense store: an ordered table of expenses that can be
//! extended, searched, pruned, and framed as comma-separated text.

use vstd::prelude::*;

pub mod codec;
pub mod expense;
pub mod laws;
pub mod report;
pub mod text;

verus! {

} // verus!
