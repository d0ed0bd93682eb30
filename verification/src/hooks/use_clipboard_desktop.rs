//! The handle of a native application.

pub use crate::hooks::use_clipboard::ClipboardError;
use crate::hooks::use_clipboard_kind::{made_for, Runtime, UseClipboard};
use crate::provider::{read_outcome, write_outcome, NativeProvider, ProviderKind};
use crate::root::{acquired, RootContext};
use vstd::prelude::*;

verus! {

/// The results that a native read may report: `NotAvailable` and nothing else
/// without a provider; with one, a text or `FailedToRead`.
pub open spec fn native_read_allows(
    provider: Option<ProviderKind>,
    result: Result<String, ClipboardError>,
) -> bool {
    match provider {
        None => result == Err::<String, _>(ClipboardError::NotAvailable),
        Some(_) => result is Ok || result == Err::<String, _>(ClipboardError::FailedToRead),
    }
}

/// The results that a native write may report: `NotAvailable` and nothing else
/// without a provider; with one, success or `FailedToSet`.
pub open spec fn native_write_allows(
    provider: Option<ProviderKind>,
    result: Result<(), ClipboardError>,
) -> bool {
    match provider {
        None => result == Err::<(), _>(ClipboardError::NotAvailable),
        Some(_) => result is Ok || result == Err::<(), _>(ClipboardError::FailedToSet),
    }
}

/// The handle of a native application: the operating system's clipboard, where
/// one could be reached.
pub struct UseClipboardDesktop {
    clipboard: Option<NativeProvider>,
}

impl View for UseClipboardDesktop {
    type V = Option<ProviderKind>;

    /// Which kind of provider the handle asks, if it has one.
    open spec fn view(&self) -> Option<ProviderKind> {
        match self.held() {
            Some(provider) => Some(provider.kind()),
            None => None,
        }
    }
}

impl UseClipboardDesktop {
    /// The provider that the handle asks, if it has one.
    pub closed spec fn held(&self) -> Option<NativeProvider> {
        self.clipboard
    }

    /// A handle on the given provider; without one, every operation reports
    /// `NotAvailable`.
    pub fn with_provider(provider: Option<NativeProvider>) -> (handle: UseClipboardDesktop)
        ensures
            handle.held() == provider,
    {
        UseClipboardDesktop { clipboard: provider }
    }

    /// A handle on the platform's default clipboard. Whether the platform has
    /// one shows only in the attempt: where it has none the handle is made all
    /// the same, without a provider.
    pub fn new() -> (handle: UseClipboardDesktop)
        ensures
            handle@ != Some(ProviderKind::Wayland),
    {
        UseClipboardDesktop::with_provider(NativeProvider::open())
    }

    /// Which provider the handle asks, if it has one.
    pub fn provider(&self) -> (kind: Option<ProviderKind>)
        ensures
            kind == self@,
    {
        match &self.clipboard {
            Some(provider) => Some(provider.kind()),
            None => None,
        }
    }

    /// Reads the clipboard's text from the provider.
    ///
    /// Without a provider the read reports `NotAvailable`. With one, it reports
    /// the text that the provider gave, or `FailedToRead` where the provider
    /// failed. The handle keeps its provider.
    pub fn get(&mut self) -> (result: Result<String, ClipboardError>)
        ensures
            final(self)@ == old(self)@,
            native_read_allows(old(self)@, result),
    {
        match &mut self.clipboard {
            Some(provider) => read_outcome(provider.get_contents()),
            None => Err(ClipboardError::NotAvailable),
        }
    }

    /// Hands the text to the provider.
    ///
    /// Without a provider the write reports `NotAvailable`. With one, it
    /// succeeds, or reports `FailedToSet` where the provider failed. The handle
    /// keeps its provider.
    pub fn set(&mut self, contents: String) -> (result: Result<(), ClipboardError>)
        ensures
            final(self)@ == old(self)@,
            native_write_allows(old(self)@, result),
    {
        match &mut self.clipboard {
            Some(provider) => write_outcome(provider.set_contents(contents)),
            None => Err(ClipboardError::NotAvailable),
        }
    }
}

/// The clipboard handle of the application.
///
/// The first call makes the handle for the runtime and registers it in the root
/// context. Every later call finds that handle, whatever the runtime given: the
/// handle returned is the one [`acquired`] from the context, which takes this
/// very handle where it was empty. What the caller does to the handle stays
/// registered.
pub fn use_clipboard(root: &mut RootContext<UseClipboard>, runtime: Runtime) -> (handle:
    &mut UseClipboard)
    ensures
        *handle == acquired(old(root)@, *handle),
        old(root)@ is None ==> made_for(runtime, handle@),
        final(root)@ == Some(*final(handle)),
{
    if !root.is_registered() {
        root.register(UseClipboard::new(runtime));
    }
    root.lookup().unwrap()
}

} // verus!
