//! Reading an optional value that is expected to be there.

use vstd::prelude::*;

verus! {

/// The value that was asked for is not there.
#[derive(Clone, Copy, Debug, PartialEq, Eq, Structural)]
pub struct EmptyValue;

/// Turns an absent value into an error.
pub trait OptionGet<T> {
    /// The value held, or `EmptyValue` where there is none.
    fn get(self) -> Result<T, EmptyValue>;
}

impl<T> OptionGet<T> for Option<T> {
    fn get(self) -> (r: Result<T, EmptyValue>)
        ensures
            r == (match self {
                Some(v) => Ok::<T, EmptyValue>(v),
                None => Err::<T, EmptyValue>(EmptyValue),
            }),
    {
        match self {
            Some(v) => Ok(v),
            None => Err(EmptyValue),
        }
    }
}

} // verus!
