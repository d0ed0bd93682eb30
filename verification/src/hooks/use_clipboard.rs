//! The clipboard handle and the errors that its operations report.

use crate::browser::{read_reply_result, ReadReply, ReadText, Step, WriteText};
use crate::hooks::use_clipboard_desktop::{
    native_read_allows, native_write_allows, UseClipboardDesktop,
};
use crate::provider::ProviderKind;
use crate::root::{acquired, RootContext};
use vstd::prelude::*;

verus! {

/// Why a clipboard operation failed.
#[derive(Debug, PartialEq, Eq, Clone, Copy, Structural)]
pub enum ClipboardError {
    /// The provider was reached, and the read failed.
    FailedToRead,
    /// The provider was reached, and the write failed.
    FailedToSet,
    /// There is no provider: none could be set up, or none has answered yet.
    NotAvailable,
}

/// The text of a read's result, for contracts that speak of characters.
pub open spec fn text_of(result: Result<String, ClipboardError>) -> Result<
    Seq<char>,
    ClipboardError,
> {
    match result {
        Ok(text) => Ok(text@),
        Err(error) => Err(error),
    }
}

/// What the cached handle answers to a read: the text it holds, or
/// `NotAvailable` while it holds none.
pub open spec fn cached_read(cache: Option<Seq<char>>) -> Result<Seq<char>, ClipboardError> {
    match cache {
        Some(text) => Ok(text),
        None => Err(ClipboardError::NotAvailable),
    }
}

/// The cache once a text has been set: that text, whatever was cached before.
pub open spec fn cache_after_set(cache: Option<Seq<char>>, text: Seq<char>) -> Option<Seq<char>> {
    Some(text)
}

/// The cache once a refresh has ended with the given reply: the text that the
/// browser gave, or what the cache held where the browser gave none.
pub open spec fn refreshed_cache(cache: Option<Seq<char>>, reply: ReadReply) -> Option<Seq<char>> {
    match read_reply_result(reply) {
        Ok(text) => Some(text@),
        Err(_) => cache,
    }
}

/// How a refresh ended, for the diagnostic log: well where the browser gave a
/// text, else with the error that a read would have reported.
pub open spec fn refresh_ended(reply: ReadReply) -> Result<(), ClipboardError> {
    match read_reply_result(reply) {
        Ok(_) => Ok(()),
        Err(error) => Err(error),
    }
}

/// The cached handle reads its own writes: before it has seen any text a read
/// reports `NotAvailable`, and once a text is set a read reports that text,
/// whatever the cache held before and whether or not the browser has taken the
/// write. A refresh that fails takes nothing away: the read still reports the
/// text that was set.
pub proof fn lemma_cache_reads_its_write(before: Option<Seq<char>>, text: Seq<char>, reply: ReadReply)
    ensures
        cached_read(None) == Err::<Seq<char>, _>(ClipboardError::NotAvailable),
        cached_read(cache_after_set(before, text)) == Ok::<_, ClipboardError>(text),
        read_reply_result(reply) is Err ==> cached_read(
            refreshed_cache(cache_after_set(before, text), reply),
        ) == Ok::<_, ClipboardError>(text),
{
}

/// The handle of a browser application whose callers cannot wait: it answers
/// from the last text it has seen, and lets the browser catch up behind it.
pub struct WasmClipboardSync {
    clipboard_cache: Option<String>,
}

impl View for WasmClipboardSync {
    type V = Option<Seq<char>>;

    /// The cached text, if any.
    closed spec fn view(&self) -> Option<Seq<char>> {
        match self.clipboard_cache {
            Some(text) => Some(text@),
            None => None,
        }
    }
}

impl WasmClipboardSync {
    /// A handle that has seen no text yet.
    pub fn new() -> (handle: WasmClipboardSync)
        ensures
            handle@ is None,
    {
        WasmClipboardSync { clipboard_cache: None }
    }

    /// Answers a read from the cache and asks for a refresh.
    ///
    /// The result is the cached text, or `NotAvailable` while there is none. The
    /// request is to be started in the background and its reply handed to
    /// [`WasmClipboardSync::refreshed`], so that the next read sees it. The
    /// cache itself is left as it is.
    pub fn get(&mut self) -> (answer: (Result<String, ClipboardError>, ReadText))
        ensures
            final(self)@ == old(self)@,
            text_of(answer.0) == cached_read(old(self)@),
            answer.1 == ReadText,
    {
        let cached = match &self.clipboard_cache {
            Some(text) => Ok(text.clone()),
            None => Err(ClipboardError::NotAvailable),
        };
        (cached, ReadText)
    }

    /// Caches the text and asks for it to be written through.
    ///
    /// The write succeeds at once, whatever becomes of the request: a write of
    /// the same text, to be started in the background, whose reply is reported
    /// to nobody.
    pub fn set(&mut self, contents: String) -> (answer: (Result<(), ClipboardError>, WriteText))
        ensures
            final(self)@ == cache_after_set(old(self)@, contents@),
            answer.0 == Ok::<(), ClipboardError>(()),
            answer.1 == WriteText(contents),
    {
        self.clipboard_cache = Some(contents.clone());
        (Ok(()), WriteText(contents))
    }

    /// Takes the reply to a refresh: the browser's text replaces the cache; a
    /// failed refresh leaves the cache as it was.
    ///
    /// No caller of the handle ever sees a failed refresh. What is returned is
    /// for the application's diagnostic log: how the refresh ended.
    pub fn refreshed(&mut self, reply: ReadReply) -> (ended: Result<(), ClipboardError>)
        ensures
            final(self)@ == refreshed_cache(old(self)@, reply),
            ended == refresh_ended(reply),
    {
        match crate::browser::read_outcome(reply) {
            Ok(text) => {
                self.clipboard_cache = Some(text);
                Ok(())
            },
            Err(error) => Err(error),
        }
    }
}

/// The handle of a browser application whose callers wait for the browser. It
/// holds nothing: every operation is the browser's to answer.
pub struct WasmClipboardAsync;

impl WasmClipboardAsync {
    /// The request that a read makes of the browser. Its reply becomes the
    /// read's result through [`crate::browser::read_outcome`].
    pub fn get(&mut self) -> (request: ReadText)
        ensures
            request == ReadText,
    {
        ReadText
    }

    /// The request that a write makes of the browser. Its reply becomes the
    /// write's result through [`crate::browser::write_outcome`].
    pub fn set(&mut self, contents: String) -> (request: WriteText)
        ensures
            request == WriteText(contents),
    {
        WriteText(contents)
    }
}

/// The variant of the handle that an application runs with.
#[derive(Debug, PartialEq, Eq, Clone, Copy, Structural)]
pub enum ClipboardTarget {
    /// A native process, on the clipboard of the operating system.
    Native,
    /// A browser application whose callers cannot wait.
    WasmSync,
    /// A browser application whose callers wait for the browser.
    WasmAsync,
}

/// What a handle is, as far as its operations depend on it.
pub enum HandleState {
    /// A native handle, and the provider it asks, if it has one.
    Native(Option<ProviderKind>),
    /// A cached browser handle, and the text it holds, if any.
    WasmSync(Option<Seq<char>>),
    /// A waiting browser handle.
    WasmAsync,
}

/// The state of a handle that was just made for the target, before any
/// operation: a native handle on the platform's clipboard or on none, a cached
/// handle that holds no text, or a waiting handle.
pub open spec fn fresh_for(target: ClipboardTarget, state: HandleState) -> bool {
    match target {
        ClipboardTarget::Native => state matches HandleState::Native(provider) && provider != Some(
            ProviderKind::Wayland,
        ),
        ClipboardTarget::WasmSync => state == HandleState::WasmSync(None),
        ClipboardTarget::WasmAsync => state == HandleState::WasmAsync,
    }
}

/// The steps that a read may take on a handle in the given state.
///
/// A native handle is done at once, with a result that
/// [`native_read_allows`]. A cached handle is done at once with the cached text
/// or `NotAvailable`, and starts a read of the browser. A waiting handle waits
/// for a read of the browser.
pub open spec fn read_step_allows(state: HandleState, step: Step<String, ReadText>) -> bool {
    match state {
        HandleState::Native(provider) => step matches Step::Done(result) && native_read_allows(
            provider,
            result,
        ),
        HandleState::WasmSync(cache) => step matches Step::DoneAndStart(result, request) && text_of(
            result,
        ) == cached_read(cache) && request == ReadText,
        HandleState::WasmAsync => step == Step::<String, _>::Wait(ReadText),
    }
}

/// The steps that a write of `contents` may take on a handle in the given state.
///
/// A native handle is done at once, with a result that
/// [`native_write_allows`]. A cached handle is done at once, successfully, and
/// starts a write of the same text to the browser. A waiting handle waits for
/// that write.
pub open spec fn write_step_allows(
    state: HandleState,
    contents: String,
    step: Step<(), WriteText>,
) -> bool {
    match state {
        HandleState::Native(provider) => step matches Step::Done(result) && native_write_allows(
            provider,
            result,
        ),
        HandleState::WasmSync(_) => step == Step::DoneAndStart(
            Ok::<(), ClipboardError>(()),
            WriteText(contents),
        ),
        HandleState::WasmAsync => step == Step::<(), _>::Wait(WriteText(contents)),
    }
}

/// The state that a write of `text` leaves a handle in: a cached handle holds
/// the text, any other handle is as it was.
pub open spec fn state_after_set(state: HandleState, text: Seq<char>) -> HandleState {
    match state {
        HandleState::WasmSync(cache) => HandleState::WasmSync(cache_after_set(cache, text)),
        other => other,
    }
}

/// The state that the reply to a background read leaves a handle in: a cached
/// handle takes the browser's text, any other handle is as it was.
pub open spec fn state_after_refresh(state: HandleState, reply: ReadReply) -> HandleState {
    match state {
        HandleState::WasmSync(cache) => HandleState::WasmSync(refreshed_cache(cache, reply)),
        other => other,
    }
}

/// The handle through which an application reads and writes the clipboard.
pub enum UseClipboard {
    /// The clipboard of the operating system.
    Native(UseClipboardDesktop),
    /// The browser's clipboard, answered from a cache.
    WasmSync(WasmClipboardSync),
    /// The browser's clipboard, waited for.
    WasmAsync(WasmClipboardAsync),
}

impl View for UseClipboard {
    type V = HandleState;

    open spec fn view(&self) -> HandleState {
        match self {
            UseClipboard::Native(native) => HandleState::Native(native@),
            UseClipboard::WasmSync(cached) => HandleState::WasmSync(cached@),
            UseClipboard::WasmAsync(_) => HandleState::WasmAsync,
        }
    }
}

impl UseClipboard {
    /// Makes the handle for a target. A native handle opens the platform's
    /// clipboard, and is made without a provider where that fails.
    pub fn for_target(target: ClipboardTarget) -> (handle: UseClipboard)
        ensures
            fresh_for(target, handle@),
    {
        match target {
            ClipboardTarget::Native => UseClipboard::Native(UseClipboardDesktop::new()),
            ClipboardTarget::WasmSync => UseClipboard::WasmSync(WasmClipboardSync::new()),
            ClipboardTarget::WasmAsync => UseClipboard::WasmAsync(WasmClipboardAsync),
        }
    }

    /// Reads the clipboard's text, as far as the handle can by itself.
    ///
    /// The step is one that [`read_step_allows`] for the handle's state, and the
    /// state is left as it was.
    pub fn get(&mut self) -> (step: Step<String, ReadText>)
        ensures
            final(self)@ == old(self)@,
            read_step_allows(old(self)@, step),
    {
        match self {
            UseClipboard::Native(clipboard) => Step::Done(clipboard.get()),
            UseClipboard::WasmSync(clipboard) => {
                let (result, request) = clipboard.get();
                Step::DoneAndStart(result, request)
            },
            UseClipboard::WasmAsync(clipboard) => Step::Wait(clipboard.get()),
        }
    }

    /// Replaces the clipboard's text, as far as the handle can by itself.
    ///
    /// The step is one that [`write_step_allows`] for the handle's state. A
    /// cached handle holds the text from now on; any other handle is left as it
    /// was.
    pub fn set(&mut self, contents: String) -> (step: Step<(), WriteText>)
        ensures
            final(self)@ == state_after_set(old(self)@, contents@),
            write_step_allows(old(self)@, contents, step),
    {
        match self {
            UseClipboard::Native(clipboard) => Step::Done(clipboard.set(contents)),
            UseClipboard::WasmSync(clipboard) => {
                let (result, request) = clipboard.set(contents);
                Step::DoneAndStart(result, request)
            },
            UseClipboard::WasmAsync(clipboard) => Step::Wait(clipboard.set(contents)),
        }
    }

    /// Takes the reply to a read that a step started in the background. A cached
    /// handle takes the browser's text into its cache; a failed read, and a
    /// reply to any other handle, changes nothing.
    ///
    /// No caller of the handle ever sees a failed refresh. What is returned is
    /// for the application's diagnostic log: how the refresh ended.
    pub fn refreshed(&mut self, reply: ReadReply) -> (ended: Result<(), ClipboardError>)
        ensures
            final(self)@ == state_after_refresh(old(self)@, reply),
            ended == refresh_ended(reply),
    {
        match self {
            UseClipboard::WasmSync(clipboard) => clipboard.refreshed(reply),
            _ => match crate::browser::read_outcome(reply) {
                Ok(_) => Ok(()),
                Err(error) => Err(error),
            },
        }
    }
}

/// The clipboard handle of the application.
///
/// The first call makes the handle for the target and registers it in the root
/// context. Every later call finds that handle, in the state in which its last
/// user left it, whatever the target given: the handle returned is the one
/// [`acquired`] from the context, which takes this very handle where it was
/// empty. What the caller does to the handle stays registered.
pub fn use_clipboard(root: &mut RootContext<UseClipboard>, target: ClipboardTarget) -> (handle:
    &mut UseClipboard)
    ensures
        *handle == acquired(old(root)@, *handle),
        old(root)@ is None ==> fresh_for(target, handle@),
        final(root)@ == Some(*final(handle)),
{
    if !root.is_registered() {
        root.register(UseClipboard::for_target(target));
    }
    root.lookup().unwrap()
}

} // verus!
