//! One handle over the desktop and the browser handle.

use crate::browser::{Pending, ReadText, WriteText};
use crate::hooks::use_clipboard_desktop::{
    native_read_allows, native_write_allows, UseClipboardDesktop,
};
use crate::hooks::use_clipboard_wasm::{browser_step_allows, UseClipboardWasm};
use crate::provider::ProviderKind;
use vstd::prelude::*;

verus! {

/// Where the application runs.
#[derive(Debug, PartialEq, Eq, Clone, Copy, Structural)]
pub enum Runtime {
    /// As a native process.
    Desktop,
    /// Inside a browser, which has a clipboard object for it or has none.
    Browser { clipboard_found: bool },
}

/// What a handle is, as far as its operations depend on it.
pub enum KindState {
    /// A desktop handle, and the provider it asks, if it has one.
    Desktop(Option<ProviderKind>),
    /// A browser handle, and whether it found the browser's clipboard object.
    Wasm(bool),
}

/// The state of a handle that was just made for the runtime: a desktop handle
/// on the platform's clipboard or on none, or a browser handle that knows
/// whether the clipboard object was found.
pub open spec fn made_for(runtime: Runtime, state: KindState) -> bool {
    match runtime {
        Runtime::Desktop => state matches KindState::Desktop(provider) && provider != Some(
            ProviderKind::Wayland,
        ),
        Runtime::Browser { clipboard_found } => state == KindState::Wasm(clipboard_found),
    }
}

/// The handle through which an application reads and writes the clipboard.
pub enum UseClipboard {
    /// The clipboard of the operating system.
    Desktop(UseClipboardDesktop),
    /// The clipboard of the browser.
    Wasm(UseClipboardWasm),
}

impl View for UseClipboard {
    type V = KindState;

    open spec fn view(&self) -> KindState {
        match self {
            UseClipboard::Desktop(clipboard) => KindState::Desktop(clipboard@),
            UseClipboard::Wasm(clipboard) => KindState::Wasm(clipboard@),
        }
    }
}

impl UseClipboard {
    /// Makes the handle for a runtime. A desktop handle opens the platform's
    /// clipboard, and is made without a provider where that fails.
    pub fn new(runtime: Runtime) -> (handle: UseClipboard)
        ensures
            made_for(runtime, handle@),
    {
        match runtime {
            Runtime::Desktop => UseClipboard::Desktop(UseClipboardDesktop::new()),
            Runtime::Browser { clipboard_found } => UseClipboard::Wasm(
                UseClipboardWasm::new(clipboard_found),
            ),
        }
    }

    /// Replaces the clipboard's text, as far as the handle can by itself: a
    /// desktop handle is done at once, a browser handle steps as
    /// [`browser_step_allows`]. The handle's state is left as it was.
    pub fn set(&mut self, value: String) -> (step: Pending<(), WriteText>)
        ensures
            final(self)@ == old(self)@,
            match old(self)@ {
                KindState::Desktop(provider) => step matches Pending::Done(result)
                    && native_write_allows(provider, result),
                KindState::Wasm(found) => browser_step_allows(
                    found,
                    WriteText(value),
                    step,
                ),
            },
    {
        match self {
            UseClipboard::Desktop(clipboard) => Pending::Done(clipboard.set(value)),
            UseClipboard::Wasm(clipboard) => clipboard.set(value),
        }
    }

    /// Reads the clipboard's text, as far as the handle can by itself: a desktop
    /// handle is done at once, a browser handle steps as
    /// [`browser_step_allows`]. The handle's state is left as it was.
    pub fn get(&mut self) -> (step: Pending<String, ReadText>)
        ensures
            final(self)@ == old(self)@,
            match old(self)@ {
                KindState::Desktop(provider) => step matches Pending::Done(result)
                    && native_read_allows(provider, result),
                KindState::Wasm(found) => browser_step_allows(
                    found,
                    ReadText,
                    step,
                ),
            },
    {
        match self {
            UseClipboard::Desktop(clipboard) => Pending::Done(clipboard.get()),
            UseClipboard::Wasm(clipboard) => clipboard.get(),
        }
    }
}

} // verus!
