//! The root-scoped context of an application: the one place where its clipboard
//! handle lives.

use vstd::prelude::*;

verus! {

/// The slot that holds the handle of an application, once one is registered.
///
/// Every part of the application reaches the handle through this slot, so all
/// of them see the one handle and what was done to it.
pub struct RootContext<H> {
    handle: Option<H>,
}

impl<H> View for RootContext<H> {
    type V = Option<H>;

    /// The handle that is registered, if any.
    closed spec fn view(&self) -> Option<H> {
        self.handle
    }
}

/// The handle that a lookup finds in a slot, where `fresh` is what it would
/// register in an empty one.
pub open spec fn acquired<H>(slot: Option<H>, fresh: H) -> H {
    match slot {
        Some(registered) => registered,
        None => fresh,
    }
}

impl<H> RootContext<H> {
    /// The context of an application that has not touched the clipboard yet.
    pub fn new() -> (root: RootContext<H>)
        ensures
            root@ is None,
    {
        RootContext { handle: None }
    }

    /// Whether a handle is registered.
    pub fn is_registered(&self) -> (registered: bool)
        ensures
            registered == (self@ is Some),
    {
        self.handle.is_some()
    }

    /// The registered handle, if there is one. What the caller does to it stays
    /// registered.
    pub fn lookup(&mut self) -> (found: Option<&mut H>)
        ensures
            match old(self)@ {
                Some(registered) => found matches Some(handle) && *handle == registered
                    && final(self)@ == Some(*final(handle)),
                None => found is None && final(self)@ is None,
            },
    {
        self.handle.as_mut()
    }

    /// Looks the handle up, and registers `fresh` first where the slot is empty.
    ///
    /// The handle returned is the one that was registered, or `fresh` where none
    /// was. It stays registered, with whatever the caller does to it.
    pub fn lookup_or_register(&mut self, fresh: H) -> (handle: &mut H)
        ensures
            *handle == acquired(old(self)@, fresh),
            final(self)@ == Some(*final(handle)),
    {
        self.handle.get_or_insert(fresh)
    }

    /// Registers `handle`, in place of the one registered before, if any.
    pub fn register(&mut self, handle: H) -> (registered: &mut H)
        ensures
            *registered == handle,
            final(self)@ == Some(*final(registered)),
    {
        self.handle.insert(handle)
    }
}

/// Two lookups find the one handle: whatever the first lookup found or
/// registered, and whatever its caller made of it since (`used`), the next
/// lookup finds exactly that, and never what it would have registered itself.
pub proof fn lemma_lookups_share_the_handle<H>(slot: Option<H>, first: H, used: H, second: H)
    ensures
        acquired(Some(acquired(slot, first)), second) == acquired(slot, first),
        acquired(Some(used), second) == used,
{
}

} // verus!
