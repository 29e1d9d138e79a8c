//! Plain-old-data formats shared with the native API.

use vstd::prelude::*;

verus! {

/// The native boolean's true value.
pub const WIN_TRUE: i32 = 1;

/// The native boolean's false value.
pub const WIN_FALSE: i32 = 0;

/// A 3D box given by its corner coordinates.
#[derive(Copy, Clone, PartialEq, Eq, Structural, Debug)]
pub struct Box3u {
    pub left: u32,
    pub top: u32,
    pub front: u32,
    pub right: u32,
    pub bottom: u32,
    pub back: u32,
}

/// Video memory information reported for an adapter, in bytes.
#[derive(Copy, Clone, PartialEq, Eq, Structural, Debug)]
pub struct VideoMemInfo {
    /// How much memory the application may use.
    pub budget: u64,
    /// How much is currently in use.
    pub current_usage: u64,
    /// How much of the reservation can still be claimed.
    pub available_for_reservation: u64,
    /// How much is currently reserved.
    pub current_reservation: u64,
}

/// A native boolean value: an integer that is either [`WIN_TRUE`] or
/// [`WIN_FALSE`].
#[derive(Copy, Clone, PartialEq, Eq, Structural, Hash, Debug)]
pub struct Bool {
    inner: i32,
}

impl Bool {
    /// The raw native value.
    pub closed spec fn raw_spec(&self) -> i32 {
        self.inner
    }

    /// Whether the value stands for true.
    pub open spec fn is_true_spec(&self) -> bool {
        self.raw_spec() == WIN_TRUE
    }

    /// Wrap a native boolean, which must be one of the two canonical
    /// values.
    pub fn from_win_bool(b: i32) -> (r: Bool)
        requires
            b == WIN_TRUE || b == WIN_FALSE,
        ensures
            r.raw_spec() == b,
    {
        Bool { inner: b }
    }

    /// The wrapped native value.
    pub fn to_win_bool(self) -> (b: i32)
        ensures
            b == self.raw_spec(),
    {
        self.inner
    }

    /// Whether the value stands for true.
    pub fn is_true(self) -> (r: bool)
        ensures
            r == self.is_true_spec(),
    {
        self.inner == WIN_TRUE
    }

    /// The native boolean for a Rust `bool`.
    pub fn from_bool(v: bool) -> (r: Bool)
        ensures
            r.is_true_spec() == v,
            r.raw_spec() == if v {
                WIN_TRUE
            } else {
                WIN_FALSE
            },
    {
        if v {
            Bool { inner: WIN_TRUE }
        } else {
            Bool { inner: WIN_FALSE }
        }
    }
}

/// Cut a possibly NUL-terminated wide-character slice down to its
/// string content: the longest prefix containing no NUL unit.
pub fn from_wchar_slice(chars: &[u16]) -> (r: Vec<u16>)
    ensures
        r@.len() <= chars@.len(),
        r@ == chars@.take(r@.len() as int),
        forall|j: int| 0 <= j < r@.len() ==> chars@[j] != 0,
        r@.len() == chars@.len() || chars@[r@.len() as int] == 0,
{
    let mut out: Vec<u16> = Vec::new();
    let len = chars.len();
    let mut i: usize = 0;
    while i < len
        invariant
            i <= len,
            len == chars@.len(),
            out@.len() == i,
            out@ == chars@.take(i as int),
            forall|j: int| 0 <= j < i ==> chars@[j] != 0,
        decreases len - i,
    {
        let c = chars[i];
        if c == 0 {
            return out;
        }
        out.push(c);
        assert(out@ =~= chars@.take(i + 1));
        i = i + 1;
    }
    out
}

} // verus!
