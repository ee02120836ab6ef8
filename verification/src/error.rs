//! The one error of the library.

use vstd::prelude::*;

verus! {

/// A delivery that failed, with a message for a human reader.
#[derive(Debug)]
pub struct Error {
    pub message: String,
}

} // verus!
