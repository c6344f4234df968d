//! Merits: named, rated entries of a sheet that the rules here carry along
//! and never read.
use vstd::prelude::*;

verus! {

/// A merit and the number of dots the character has in it.
#[derive(Clone, Debug)]
pub struct Merit {
    pub name: String,
    pub value: usize,
}

} // verus!
