use dioxus_clipboard::browser::{ReadReply, ReadText, Step, WriteText};
use dioxus_clipboard::hooks::use_clipboard::{
    use_clipboard, ClipboardError, ClipboardTarget, UseClipboard,
};
use dioxus_clipboard::root::RootContext;

#[test]
fn new_context_holds_no_handle() {
    let mut root: RootContext<UseClipboard> = RootContext::new();
    assert!(!root.is_registered());
    assert!(root.lookup().is_none());
    assert!(!root.is_registered());
}

#[test]
fn first_lookup_registers_the_handle_of_the_target() {
    let mut root = RootContext::new();
    let handle = use_clipboard(&mut root, ClipboardTarget::WasmSync);
    assert!(matches!(handle, UseClipboard::WasmSync(_)));
    assert!(root.is_registered());

    let mut root = RootContext::new();
    assert!(matches!(use_clipboard(&mut root, ClipboardTarget::WasmAsync), UseClipboard::WasmAsync(_)));

    let mut root = RootContext::new();
    assert!(matches!(use_clipboard(&mut root, ClipboardTarget::Native), UseClipboard::Native(_)));
}

#[test]
fn two_lookups_share_one_state() {
    let mut root = RootContext::new();
    let first = use_clipboard(&mut root, ClipboardTarget::WasmSync);
    assert_eq!(
        first.set("X".to_string()),
        Step::DoneAndStart(Ok(()), WriteText("X".to_string()))
    );
    let second = use_clipboard(&mut root, ClipboardTarget::WasmSync);
    assert_eq!(
        second.get(),
        Step::DoneAndStart(Ok("X".to_string()), ReadText)
    );
    second.refreshed(ReadReply::Text("Y".to_string()));
    let third = use_clipboard(&mut root, ClipboardTarget::WasmSync);
    assert_eq!(third.get(), Step::DoneAndStart(Ok("Y".to_string()), ReadText));
}

#[test]
fn later_lookup_ignores_its_target() {
    let mut root = RootContext::new();
    use_clipboard(&mut root, ClipboardTarget::WasmSync).set("X".to_string());
    let handle = use_clipboard(&mut root, ClipboardTarget::WasmAsync);
    assert!(matches!(handle, UseClipboard::WasmSync(_)));
    assert_eq!(handle.get(), Step::DoneAndStart(Ok("X".to_string()), ReadText));
    let handle = use_clipboard(&mut root, ClipboardTarget::Native);
    assert!(matches!(handle, UseClipboard::WasmSync(_)));
}

#[test]
fn lookup_or_register_keeps_the_registered_handle() {
    let mut root: RootContext<u32> = RootContext::new();
    assert_eq!(*root.lookup_or_register(1), 1);
    assert_eq!(*root.lookup_or_register(2), 1);
    *root.lookup_or_register(3) += 10;
    assert_eq!(root.lookup(), Some(&mut 11));
    assert_eq!(*root.register(5), 5);
    assert_eq!(*root.lookup_or_register(6), 5);
}

#[test]
fn fresh_cached_handle_from_the_context_is_not_available() {
    let mut root = RootContext::new();
    let handle = use_clipboard(&mut root, ClipboardTarget::WasmSync);
    assert_eq!(
        handle.get(),
        Step::DoneAndStart(Err(ClipboardError::NotAvailable), ReadText)
    );
}
