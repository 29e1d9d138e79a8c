//! The error carried out of every fallible native call.

use vstd::prelude::*;

verus! {

/// An opaque "native call failed" error carrying the underlying status
/// code.  Status codes signal failure by being negative, so a
/// `WinError` always holds a negative code.
#[derive(Clone, Copy, PartialEq, Eq, Structural, Debug)]
pub struct WinError {
    hresult: i32,
}

impl WinError {
    /// The status code this error carries.
    pub closed spec fn hresult_spec(&self) -> i32 {
        self.hresult
    }

    /// Wrap a failing status code.
    pub fn new(hresult: i32) -> (e: WinError)
        requires
            hresult < 0,
        ensures
            e.hresult_spec() == hresult,
    {
        WinError { hresult }
    }

    /// Read back the carried status code.
    pub fn hresult(&self) -> (hr: i32)
        ensures
            hr == self.hresult_spec(),
    {
        self.hresult
    }

    /// Classify a status code: nonnegative codes are successes, and a
    /// negative code becomes the error that carries it.
    pub fn from_hresult(hr: i32) -> (r: Result<(), WinError>)
        ensures
            r is Ok <==> hr >= 0,
            r matches Err(e) ==> e.hresult_spec() == hr,
    {
        if hr >= 0 {
            Ok(())
        } else {
            Err(WinError { hresult: hr })
        }
    }
}

} // verus!
