//! Unwrapping results that are known to hold a value.

use vstd::prelude::*;

verus! {

pub trait ResultExt<R, E>: Sized {
    /// The value held, if the result holds one.
    spec fn reported(&self) -> Option<R>;

    /// Takes the value out of a result that holds one.
    fn report(self) -> (r: R)
        requires
            self.reported() is Some,
        ensures
            self.reported() == Some(r),
    ;
}

impl<R, E> ResultExt<R, E> for Result<R, E> {
    open spec fn reported(&self) -> Option<R> {
        match self {
            Ok(v) => Some(*v),
            Err(_) => None,
        }
    }

    fn report(self) -> (r: R) {
        match self {
            Ok(v) => v,
            Err(_) => unreached(),
        }
    }
}

} // verus!
