//! What the library asks of the browser's clipboard, and what it makes of the
//! answers.
//!
//! The browser answers later, through a deferred result that only the embedding
//! application can wait for. The library therefore never calls the browser: an
//! operation hands out a request ([`ReadText`] or [`WriteText`]), the
//! application carries it out and hands back a [`ReadReply`] or a
//! [`WriteReply`].

use crate::hooks::use_clipboard::ClipboardError;
use vstd::prelude::*;

verus! {

/// The request to read the text of the browser's clipboard.
#[derive(Debug, PartialEq, Eq, Clone, Copy)]
pub struct ReadText;

/// The request to replace the text of the browser's clipboard with this one.
#[derive(Debug, PartialEq, Eq)]
pub struct WriteText(pub String);

/// How a [`ReadText`] ended.
#[derive(Debug, PartialEq, Eq)]
pub enum ReadReply {
    /// There is no browser window to ask.
    NoWindow,
    /// The browser rejected the read.
    Rejected,
    /// The read resolved to a value that is not a string.
    NotText,
    /// The read resolved to this text.
    Text(String),
}

/// How a [`WriteText`] ended.
#[derive(Debug, PartialEq, Eq, Clone, Copy)]
pub enum WriteReply {
    /// There is no browser window to ask.
    NoWindow,
    /// The browser rejected the write.
    Rejected,
    /// The browser took the text.
    Written,
}

/// How far an operation got on a handle that either answers at once or leaves
/// the answer to the browser.
#[derive(Debug, PartialEq, Eq)]
pub enum Pending<T, Q> {
    /// The operation is over, with this result.
    Done(Result<T, ClipboardError>),
    /// The result is the browser's to give: the caller carries out the request,
    /// waits, and turns the reply into the result with [`read_outcome`] or
    /// [`write_outcome`].
    Wait(Q),
}

/// How far an operation got on a handle that may also answer at once and let
/// the browser catch up.
#[derive(Debug, PartialEq, Eq)]
pub enum Step<T, Q> {
    /// The operation is over, with this result.
    Done(Result<T, ClipboardError>),
    /// The operation is over for the caller, with this result. The request is to
    /// be started in the background; nobody waits for it.
    DoneAndStart(Result<T, ClipboardError>, Q),
    /// The result is the browser's to give: the caller carries out the request,
    /// waits, and turns the reply into the result with [`read_outcome`] or
    /// [`write_outcome`].
    Wait(Q),
}

impl<T, Q> Step<T, Q> {
    /// What a step comes to for a caller that cannot wait: its result, and the
    /// request to start in the background, if any. A step that would have to
    /// wait comes to `NotAvailable`, and its request is not made.
    pub open spec fn spec_without_waiting(self) -> (Result<T, ClipboardError>, Option<Q>) {
        match self {
            Step::Done(result) => (result, None),
            Step::DoneAndStart(result, request) => (result, Some(request)),
            Step::Wait(_) => (Err(ClipboardError::NotAvailable), None),
        }
    }

    /// Ends the step for a caller that cannot wait.
    ///
    /// A step that is done gives its result, with the request that is to be
    /// started in the background where it has one. A step that would have to
    /// wait gives `NotAvailable`: no provider answers this caller, and the
    /// request is not made.
    #[verifier::when_used_as_spec(spec_without_waiting)]
    pub fn without_waiting(self) -> (answer: (Result<T, ClipboardError>, Option<Q>))
        ensures
            answer == self.spec_without_waiting(),
    {
        match self {
            Step::Done(result) => (result, None),
            Step::DoneAndStart(result, request) => (result, Some(request)),
            Step::Wait(_) => (Err(ClipboardError::NotAvailable), None),
        }
    }
}

/// The result that a read reports for a reply of the browser.
pub open spec fn read_reply_result(reply: ReadReply) -> Result<String, ClipboardError> {
    match reply {
        ReadReply::NoWindow => Err(ClipboardError::NotAvailable),
        ReadReply::Rejected => Err(ClipboardError::FailedToRead),
        ReadReply::NotText => Err(ClipboardError::FailedToRead),
        ReadReply::Text(text) => Ok(text),
    }
}

/// The result that a write reports for a reply of the browser.
pub open spec fn write_reply_result(reply: WriteReply) -> Result<(), ClipboardError> {
    match reply {
        WriteReply::NoWindow => Err(ClipboardError::NotAvailable),
        WriteReply::Rejected => Err(ClipboardError::FailedToSet),
        WriteReply::Written => Ok(()),
    }
}

/// Turns the browser's reply to a read into the read's result: the text where
/// the browser gave one, `NotAvailable` without a window, `FailedToRead` for a
/// rejected read and for a value that is no string.
pub fn read_outcome(reply: ReadReply) -> (result: Result<String, ClipboardError>)
    ensures
        result == read_reply_result(reply),
{
    match reply {
        ReadReply::Text(text) => Ok(text),
        ReadReply::NoWindow => Err(ClipboardError::NotAvailable),
        _ => Err(ClipboardError::FailedToRead),
    }
}

/// Turns the browser's reply to a write into the write's result: success where
/// the browser took the text, `NotAvailable` without a window, `FailedToSet`
/// for a rejected write.
pub fn write_outcome(reply: WriteReply) -> (result: Result<(), ClipboardError>)
    ensures
        result == write_reply_result(reply),
{
    match reply {
        WriteReply::Written => Ok(()),
        WriteReply::NoWindow => Err(ClipboardError::NotAvailable),
        WriteReply::Rejected => Err(ClipboardError::FailedToSet),
    }
}

/// Where the browser takes a text and then gives it back, the write succeeds and
/// the read reports that text. Whether the browser gives back what it took is
/// the browser's to say.
pub proof fn lemma_browser_text_is_reported(text: String)
    ensures
        write_reply_result(WriteReply::Written) == Ok::<(), ClipboardError>(()),
        read_reply_result(ReadReply::Text(text)) == Ok::<String, ClipboardError>(text),
{
}

} // verus!
