//! The handle of a browser application that looks for the browser's clipboard
//! object once, when the handle is made.

use crate::browser::{Pending, ReadText, WriteText};
use crate::hooks::use_clipboard::ClipboardError;
use vstd::prelude::*;

verus! {

/// The steps that an operation may take on a browser handle: it waits for the
/// request where the browser's clipboard object was found, and is done with
/// `NotAvailable` where it was not.
pub open spec fn browser_step_allows<T, Q>(found: bool, request: Q, step: Pending<T, Q>) -> bool {
    if found {
        step == Pending::<T, Q>::Wait(request)
    } else {
        step == Pending::<T, Q>::Done(Err(ClipboardError::NotAvailable))
    }
}

/// A handle on the browser's clipboard object, where the browser had one when
/// the handle was made.
pub struct UseClipboardWasm {
    found: bool,
}

impl View for UseClipboardWasm {
    type V = bool;

    /// Whether the browser's clipboard object was found.
    closed spec fn view(&self) -> bool {
        self.found
    }
}

impl UseClipboardWasm {
    /// A handle for an application that found the browser's clipboard object,
    /// or did not.
    pub fn new(found: bool) -> (handle: UseClipboardWasm)
        ensures
            handle@ == found,
    {
        UseClipboardWasm { found }
    }

    /// Reads the clipboard's text: the caller waits for a read of the browser,
    /// whose reply becomes the result through [`crate::browser::read_outcome`].
    /// Without a clipboard object the read is done at once, with `NotAvailable`.
    pub fn get(&self) -> (step: Pending<String, ReadText>)
        ensures
            browser_step_allows(self@, ReadText, step),
    {
        if self.found {
            Pending::Wait(ReadText)
        } else {
            Pending::Done(Err(ClipboardError::NotAvailable))
        }
    }

    /// Replaces the clipboard's text: the caller waits for a write of the text
    /// to the browser, whose reply becomes the result through
    /// [`crate::browser::write_outcome`]. Without a clipboard object the write
    /// is done at once, with `NotAvailable`. The handle is left as it was.
    pub fn set(&mut self, contents: String) -> (step: Pending<(), WriteText>)
        ensures
            final(self)@ == old(self)@,
            browser_step_allows(old(self)@, WriteText(contents), step),
    {
        if self.found {
            Pending::Wait(WriteText(contents))
        } else {
            Pending::Done(Err(ClipboardError::NotAvailable))
        }
    }
}

} // verus!
