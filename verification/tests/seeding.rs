use dioxus_clipboard::browser::Step;
use dioxus_clipboard::hooks::use_clipboard::{use_clipboard, ClipboardTarget, UseClipboard};
use dioxus_clipboard::integrations::window_handle::{create_native_clipboard, provide_native_clipboard};
use dioxus_clipboard::provider::ProviderKind;
use dioxus_clipboard::root::RootContext;

#[test]
fn seeded_provider_is_the_one_that_lookups_find() {
    if let Some(provider) = create_native_clipboard(None) {
        let kind = provider.kind();
        let mut root = RootContext::new();
        provide_native_clipboard(&mut root, provider);
        assert!(root.is_registered());
        match use_clipboard(&mut root, ClipboardTarget::WasmSync) {
            UseClipboard::Native(clipboard) => assert_eq!(clipboard.provider(), Some(kind)),
            _ => panic!("the seeded handle is native"),
        }
    }
}

#[test]
fn seeding_replaces_a_registered_handle() {
    if let Some(provider) = create_native_clipboard(None) {
        let mut root = RootContext::new();
        use_clipboard(&mut root, ClipboardTarget::WasmSync).set("X".to_string());
        provide_native_clipboard(&mut root, provider);
        let handle = use_clipboard(&mut root, ClipboardTarget::WasmSync);
        assert!(matches!(handle, UseClipboard::Native(_)));
        assert!(matches!(handle.get(), Step::Done(_)));
        match handle {
            UseClipboard::Native(clipboard) => {
                assert_eq!(clipboard.provider(), Some(ProviderKind::Platform))
            }
            _ => panic!("the seeded handle is native"),
        }
    }
}
