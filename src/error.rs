use vstd::prelude::*;

verus! {

/// A wrong number of symbolic arguments: `length` given, `expected` wanted.
#[derive(Debug, Clone, PartialEq, Eq)]
pub struct ArgumentErrorLength {
    pub length: usize,
    pub expected: u32,
}

/// An input that the helpers around the library could not accept.
#[derive(Debug, Clone, PartialEq, Eq)]
pub enum UtilsError {
    InvalidInput(String),
}

} // verus!
