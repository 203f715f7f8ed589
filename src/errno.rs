use vstd::prelude::*;

verus! {

/// An operating-system error code, as the platform's `errno` reports it.
#[derive(Clone, Copy, Debug, PartialEq, Eq, Structural)]
pub struct Errno(pub i32);

impl Errno {
    /// Wraps the error code that the failing call left behind.
    pub fn new(code: i32) -> (e: Errno)
        ensures
            e == Errno(code),
    {
        Errno(code)
    }

    /// The raw error code.
    pub fn get_raw(&self) -> (r: i32)
        ensures
            r == self.0,
    {
        self.0
    }
}

} // verus!
