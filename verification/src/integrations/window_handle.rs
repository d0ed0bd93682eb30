//! A clipboard for an application that owns its window, which matters on
//! Wayland: there the clipboard belongs to the display of a window, and only the
//! application can make it.

use crate::hooks::use_clipboard::UseClipboard;
use crate::hooks::use_clipboard_desktop::UseClipboardDesktop;
use crate::provider::{NativeProvider, ProviderKind};
use crate::root::RootContext;
use vstd::prelude::*;

verus! {

/// The provider for an application that may have made a Wayland clipboard from
/// its display.
///
/// With a Wayland clipboard the provider is that clipboard. Without one it is
/// the platform's default clipboard, or nothing where the platform has none.
pub fn create_native_clipboard(wayland: Option<copypasta::wayland_clipboard::Clipboard>) -> (provider:
    Option<NativeProvider>)
    ensures
        match wayland {
            Some(clipboard) => provider == Some(NativeProvider::Wayland(clipboard)),
            None => provider matches Some(p) ==> p.kind() == ProviderKind::Platform,
        },
{
    match wayland {
        Some(clipboard) => Some(NativeProvider::Wayland(clipboard)),
        None => NativeProvider::open(),
    }
}

/// Registers a native handle on the given provider in the root context, in place
/// of the handle registered before, if any: afterwards the one registered handle
/// is native and holds the very provider given.
///
/// Seeded before the first lookup, the context never opens the platform's
/// clipboard: every lookup finds the handle on this provider.
pub fn provide_native_clipboard(root: &mut RootContext<UseClipboard>, provider: NativeProvider)
    ensures
        final(root)@ matches Some(UseClipboard::Native(native)) && native.held() == Some(provider),
{
    root.register(UseClipboard::Native(UseClipboardDesktop::with_provider(Some(provider))));
}

} // verus!
