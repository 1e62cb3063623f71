use vstd::prelude::*;

pub mod app;
pub mod document;
pub mod search;
pub mod text;
pub mod workspace;

verus! {

} // verus!
