//! File descriptors as arguments. A call never takes a descriptor over: it
//! receives a [`BorrowedFd`], which is made from an [`OwnedFd`] by an explicit
//! borrow, cannot outlive it, and offers nothing but its raw value.

use vstd::prelude::*;

verus! {

/// A descriptor that its holder is responsible for. This library neither
/// opens nor closes one.
#[derive(Debug, PartialEq, Eq)]
pub struct OwnedFd {
    raw: i32,
}

impl View for OwnedFd {
    type V = i32;

    closed spec fn view(&self) -> i32 {
        self.raw
    }
}

impl OwnedFd {
    /// Takes responsibility for the descriptor `raw`.
    pub fn from_raw(raw: i32) -> (fd: OwnedFd)
        ensures
            fd@ == raw,
    {
        OwnedFd { raw }
    }

    /// Lends the descriptor for as long as `self` is borrowed.
    pub fn as_fd(&self) -> (fd: BorrowedFd<'_>)
        ensures
            fd@ == self@,
    {
        BorrowedFd { owner: self }
    }

    /// Gives the descriptor back to the caller.
    pub fn into_raw(self) -> (raw: i32)
        ensures
            raw == self@,
    {
        self.raw
    }
}

/// A descriptor on loan from an [`OwnedFd`].
#[derive(Clone, Copy, Debug)]
pub struct BorrowedFd<'fd> {
    owner: &'fd OwnedFd,
}

impl<'fd> View for BorrowedFd<'fd> {
    type V = i32;

    closed spec fn view(&self) -> i32 {
        self.owner@
    }
}

impl<'fd> BorrowedFd<'fd> {
    /// The descriptor's number.
    pub fn as_raw(&self) -> (raw: i32)
        ensures
            raw == self@,
    {
        self.owner.raw
    }
}

} // verus!
