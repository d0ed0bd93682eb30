//! The native clipboard providers of `copypasta`, and the calls into them.

use crate::hooks::use_clipboard::ClipboardError;
use copypasta::ClipboardProvider;
use vstd::prelude::*;

verus! {

/// The clipboard of the running platform, a `copypasta::ClipboardContext`.
///
/// The context's type depends on the platform and takes a parameter bound by a
/// trait of `copypasta`, which Verus cannot be told of. The value is therefore
/// kept out of the verifier's sight: nothing is known of it but that it exists.
#[verifier::external_body]
pub struct PlatformClipboard {
    context: copypasta::ClipboardContext,
}

/// The Wayland clipboard of `copypasta`. It is made from the display of a window
/// that the application owns, so only the application can construct one.
#[verifier::external_type_specification]
#[verifier::external_body]
pub struct ExWaylandClipboard(copypasta::wayland_clipboard::Clipboard);

/// Which clipboard a provider is.
#[derive(Debug, PartialEq, Eq, Clone, Copy, Structural)]
pub enum ProviderKind {
    /// The clipboard that the platform offers by default.
    Platform,
    /// A Wayland clipboard bound to a display of the application.
    Wayland,
}

/// A clipboard that the operating system supplies.
pub enum NativeProvider {
    /// The clipboard that the platform offers by default.
    Platform(PlatformClipboard),
    /// A Wayland clipboard bound to a display of the application.
    Wayland(copypasta::wayland_clipboard::Clipboard),
}

/// Calls `copypasta::ClipboardContext::new`, which connects to the clipboard of
/// the session. Whether a clipboard can be reached depends on the machine, so
/// nothing is claimed of the result; a failed connection is `None`.
#[verifier::external_body]
fn platform_open() -> (clipboard: Option<PlatformClipboard>) {
    match copypasta::ClipboardContext::new() {
        Ok(context) => Some(PlatformClipboard { context }),
        Err(_) => None,
    }
}

/// Calls `ClipboardProvider::get_contents` on the platform's context. The text
/// is whatever the session holds at that moment, so nothing is claimed of the
/// result; the provider's error is dropped.
#[verifier::external_body]
fn platform_get_contents(clipboard: &mut PlatformClipboard) -> (answer: Result<String, ()>) {
    clipboard.context.get_contents().map_err(|_| ())
}

/// Calls `ClipboardProvider::set_contents` on the platform's context. Nothing is
/// claimed of the result; the provider's error is dropped.
#[verifier::external_body]
fn platform_set_contents(clipboard: &mut PlatformClipboard, contents: String) -> (answer: Result<
    (),
    (),
>) {
    clipboard.context.set_contents(contents).map_err(|_| ())
}

/// Calls `ClipboardProvider::get_contents` on a Wayland clipboard. Nothing is
/// claimed of the result; the provider's error is dropped.
#[verifier::external_body]
fn wayland_get_contents(clipboard: &mut copypasta::wayland_clipboard::Clipboard) -> (answer:
    Result<String, ()>) {
    clipboard.get_contents().map_err(|_| ())
}

/// Calls `ClipboardProvider::set_contents` on a Wayland clipboard. Nothing is
/// claimed of the result; the provider's error is dropped.
#[verifier::external_body]
fn wayland_set_contents(
    clipboard: &mut copypasta::wayland_clipboard::Clipboard,
    contents: String,
) -> (answer: Result<(), ()>) {
    clipboard.set_contents(contents).map_err(|_| ())
}

impl NativeProvider {
    /// Which clipboard this is.
    pub open spec fn spec_kind(&self) -> ProviderKind {
        match self {
            NativeProvider::Platform(_) => ProviderKind::Platform,
            NativeProvider::Wayland(_) => ProviderKind::Wayland,
        }
    }

    /// Which clipboard this is.
    #[verifier::when_used_as_spec(spec_kind)]
    pub fn kind(&self) -> (kind: ProviderKind)
        ensures
            kind == self.spec_kind(),
    {
        match self {
            NativeProvider::Platform(_) => ProviderKind::Platform,
            NativeProvider::Wayland(_) => ProviderKind::Wayland,
        }
    }

    /// Opens the platform's default clipboard. `None` where the platform has no
    /// usable clipboard, which only the attempt can tell.
    pub fn open() -> (provider: Option<NativeProvider>)
        ensures
            provider matches Some(p) ==> p.kind() == ProviderKind::Platform,
    {
        match platform_open() {
            Some(clipboard) => Some(NativeProvider::Platform(clipboard)),
            None => None,
        }
    }

    /// Reads the clipboard's text. The provider stays the kind it was.
    pub fn get_contents(&mut self) -> (answer: Result<String, ()>)
        ensures
            final(self).kind() == old(self).kind(),
    {
        match self {
            NativeProvider::Platform(clipboard) => platform_get_contents(clipboard),
            NativeProvider::Wayland(clipboard) => wayland_get_contents(clipboard),
        }
    }

    /// Replaces the clipboard's text. The provider stays the kind it was.
    pub fn set_contents(&mut self, contents: String) -> (answer: Result<(), ()>)
        ensures
            final(self).kind() == old(self).kind(),
    {
        match self {
            NativeProvider::Platform(clipboard) => platform_set_contents(clipboard, contents),
            NativeProvider::Wayland(clipboard) => wayland_set_contents(clipboard, contents),
        }
    }
}

/// The result that a read reports for what a provider answered.
pub open spec fn read_answer_result(answer: Result<String, ()>) -> Result<String, ClipboardError> {
    match answer {
        Ok(text) => Ok(text),
        Err(_) => Err(ClipboardError::FailedToRead),
    }
}

/// The result that a write reports for what a provider answered.
pub open spec fn write_answer_result(answer: Result<(), ()>) -> Result<(), ClipboardError> {
    match answer {
        Ok(_) => Ok(()),
        Err(_) => Err(ClipboardError::FailedToSet),
    }
}

/// Turns a provider's answer to a read into the read's result: the text that the
/// provider gave, or `FailedToRead` where it failed.
pub fn read_outcome(answer: Result<String, ()>) -> (result: Result<String, ClipboardError>)
    ensures
        result == read_answer_result(answer),
{
    match answer {
        Ok(text) => Ok(text),
        Err(_) => Err(ClipboardError::FailedToRead),
    }
}

/// Turns a provider's answer to a write into the write's result: success, or
/// `FailedToSet` where the provider failed.
pub fn write_outcome(answer: Result<(), ()>) -> (result: Result<(), ClipboardError>)
    ensures
        result == write_answer_result(answer),
{
    match answer {
        Ok(_) => Ok(()),
        Err(_) => Err(ClipboardError::FailedToSet),
    }
}

/// Where a provider takes a text and then gives it back, the write succeeds and
/// the read reports that text. Whether a provider gives back what it took is
/// the operating system's to say.
pub proof fn lemma_provider_text_is_reported(text: String)
    ensures
        write_answer_result(Ok(())) == Ok::<(), ClipboardError>(()),
        read_answer_result(Ok(text)) == Ok::<String, ClipboardError>(text),
{
}

} // verus!
