//! Native handles, held as plain addresses.
//!
//! The library never looks behind a handle. It carries one from the call that
//! produced it to the call that takes it.

use vstd::prelude::*;

verus! {

/// A top-level window, named by the address the windowing layer gave out.
/// The window belongs to that layer; the handle is only borrowed.
#[derive(Clone, Copy, Debug, PartialEq, Eq, Structural)]
pub struct WindowHandle {
    pub addr: usize,
}

/// A loaded icon. An icon handle is never null: the only way to make one is
/// `IconHandle::new`, which refuses the null address.
#[derive(Clone, Copy, Debug, PartialEq, Eq, Structural)]
pub struct IconHandle {
    raw: usize,
}

impl IconHandle {
    /// The address of the icon.
    pub closed spec fn addr(self) -> usize {
        self.raw
    }

    /// The address is not null.
    #[verifier::type_invariant]
    pub closed spec fn valid(self) -> bool {
        self.raw != 0
    }

    /// What `valid` means, for use outside this module.
    pub proof fn lemma_valid(self)
        ensures
            self.valid() <==> self.addr() != 0,
    {
    }

    /// Handles are their addresses: two with the same address are the same.
    pub proof fn lemma_same_addr(self, other: IconHandle)
        requires
            self.addr() == other.addr(),
        ensures
            self == other,
    {
    }

    /// Wraps the address of a loaded icon. The null address is no icon.
    pub fn new(addr: usize) -> (handle: Option<IconHandle>)
        ensures
            handle is Some <==> addr != 0,
            handle matches Some(h) ==> h.addr() == addr && h.valid(),
    {
        if addr == 0 {
            None
        } else {
            Some(IconHandle { raw: addr })
        }
    }

    /// The address of the icon, to hand to the shell. It is never null.
    pub fn get(&self) -> (addr: usize)
        ensures
            addr == self.addr(),
            addr != 0,
    {
        proof {
            use_type_invariant(self);
        }
        self.raw
    }
}

} // verus!
