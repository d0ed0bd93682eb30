use dioxus_clipboard::browser::{ReadReply, ReadText, Step, WriteText};
use dioxus_clipboard::hooks::use_clipboard::{
    ClipboardError, ClipboardTarget, UseClipboard, WasmClipboardAsync, WasmClipboardSync,
};

#[test]
fn cache_is_not_available_before_any_operation() {
    let mut clipboard = WasmClipboardSync::new();
    assert_eq!(clipboard.get(), (Err(ClipboardError::NotAvailable), ReadText));
}

#[test]
fn cache_reads_its_own_write() {
    let mut clipboard = WasmClipboardSync::new();
    let (result, request) = clipboard.set("X".to_string());
    assert_eq!(result, Ok(()));
    assert_eq!(request, WriteText("X".to_string()));
    assert_eq!(clipboard.get(), (Ok("X".to_string()), ReadText));
}

#[test]
fn cache_keeps_the_last_write() {
    let mut clipboard = WasmClipboardSync::new();
    clipboard.set("first".to_string());
    clipboard.set("second".to_string());
    assert_eq!(clipboard.get().0, Ok("second".to_string()));
}

#[test]
fn repeated_reads_of_the_cache_agree() {
    let mut clipboard = WasmClipboardSync::new();
    clipboard.set("same".to_string());
    let first = clipboard.get().0;
    let second = clipboard.get().0;
    assert_eq!(first, Ok("same".to_string()));
    assert_eq!(first, second);
}

#[test]
fn refresh_shows_in_the_next_read() {
    let mut clipboard = WasmClipboardSync::new();
    clipboard.refreshed(ReadReply::Text("from the browser".to_string()));
    assert_eq!(clipboard.get().0, Ok("from the browser".to_string()));
}

#[test]
fn refresh_replaces_a_written_text() {
    let mut clipboard = WasmClipboardSync::new();
    clipboard.set("mine".to_string());
    clipboard.refreshed(ReadReply::Text("theirs".to_string()));
    assert_eq!(clipboard.get().0, Ok("theirs".to_string()));
}

#[test]
fn failed_refresh_leaves_the_cache() {
    let mut clipboard = WasmClipboardSync::new();
    clipboard.refreshed(ReadReply::Rejected);
    assert_eq!(clipboard.get().0, Err(ClipboardError::NotAvailable));
    clipboard.set("kept".to_string());
    clipboard.refreshed(ReadReply::Rejected);
    assert_eq!(clipboard.get().0, Ok("kept".to_string()));
    clipboard.refreshed(ReadReply::NoWindow);
    assert_eq!(clipboard.get().0, Ok("kept".to_string()));
    clipboard.refreshed(ReadReply::NotText);
    assert_eq!(clipboard.get().0, Ok("kept".to_string()));
}

#[test]
fn waiting_handle_asks_the_browser() {
    let mut clipboard = WasmClipboardAsync;
    assert_eq!(clipboard.get(), ReadText);
    assert_eq!(clipboard.set("X".to_string()), WriteText("X".to_string()));
}

#[test]
fn cached_handle_steps() {
    let mut clipboard = UseClipboard::for_target(ClipboardTarget::WasmSync);
    assert_eq!(
        clipboard.get(),
        Step::DoneAndStart(Err(ClipboardError::NotAvailable), ReadText)
    );
    assert_eq!(
        clipboard.set("X".to_string()),
        Step::DoneAndStart(Ok(()), WriteText("X".to_string()))
    );
    assert_eq!(
        clipboard.get(),
        Step::DoneAndStart(Ok("X".to_string()), ReadText)
    );
    clipboard.refreshed(ReadReply::Text("Y".to_string()));
    assert_eq!(
        clipboard.get(),
        Step::DoneAndStart(Ok("Y".to_string()), ReadText)
    );
}

#[test]
fn waiting_handle_steps() {
    let mut clipboard = UseClipboard::for_target(ClipboardTarget::WasmAsync);
    assert_eq!(clipboard.get(), Step::Wait(ReadText));
    assert_eq!(
        clipboard.set("X".to_string()),
        Step::Wait(WriteText("X".to_string()))
    );
    clipboard.refreshed(ReadReply::Text("ignored".to_string()));
    assert_eq!(clipboard.get(), Step::Wait(ReadText));
}

#[test]
fn refresh_tells_how_it_ended() {
    let mut clipboard = WasmClipboardSync::new();
    assert_eq!(clipboard.refreshed(ReadReply::Text("X".to_string())), Ok(()));
    assert_eq!(clipboard.refreshed(ReadReply::Rejected), Err(ClipboardError::FailedToRead));
    assert_eq!(clipboard.refreshed(ReadReply::NotText), Err(ClipboardError::FailedToRead));
    assert_eq!(clipboard.refreshed(ReadReply::NoWindow), Err(ClipboardError::NotAvailable));
    assert_eq!(clipboard.get().0, Ok("X".to_string()));

    let mut waiting = UseClipboard::for_target(ClipboardTarget::WasmAsync);
    assert_eq!(waiting.refreshed(ReadReply::Text("X".to_string())), Ok(()));
    assert_eq!(waiting.refreshed(ReadReply::Rejected), Err(ClipboardError::FailedToRead));
}

#[test]
fn caller_that_cannot_wait_gets_the_done_result() {
    let done: Step<String, ReadText> = Step::Done(Ok("X".to_string()));
    assert_eq!(done.without_waiting(), (Ok("X".to_string()), None));
    let failed: Step<(), WriteText> = Step::Done(Err(ClipboardError::FailedToSet));
    assert_eq!(failed.without_waiting(), (Err(ClipboardError::FailedToSet), None));
}

#[test]
fn caller_that_cannot_wait_starts_the_background_request() {
    let step: Step<(), WriteText> = Step::DoneAndStart(Ok(()), WriteText("X".to_string()));
    assert_eq!(step.without_waiting(), (Ok(()), Some(WriteText("X".to_string()))));
    let mut clipboard = UseClipboard::for_target(ClipboardTarget::WasmSync);
    clipboard.set("X".to_string());
    assert_eq!(clipboard.get().without_waiting(), (Ok("X".to_string()), Some(ReadText)));
}

#[test]
fn caller_that_cannot_wait_is_not_available_on_a_waiting_handle() {
    let mut clipboard = UseClipboard::for_target(ClipboardTarget::WasmAsync);
    assert_eq!(clipboard.get().without_waiting(), (Err(ClipboardError::NotAvailable), None));
    assert_eq!(
        clipboard.set("X".to_string()).without_waiting(),
        (Err(ClipboardError::NotAvailable), None)
    );
}
