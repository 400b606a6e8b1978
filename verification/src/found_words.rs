//! A shorter record of a found word, without the range of the random numbers.

use vstd::prelude::*;

verus! {

/// A word that the search found, with the time it was found at and the two random numbers
/// that matched.
#[derive(Clone, Debug, PartialEq, Eq)]
pub struct Word {
    pub time_found: String,
    pub word: String,
    pub chance_num_one: String,
    pub chance_num_two: String,
}

} // verus!
