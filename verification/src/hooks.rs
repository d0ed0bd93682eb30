//! The clipboard handles.

pub mod use_clipboard;
pub mod use_clipboard_desktop;
pub mod use_clipboard_kind;
pub mod use_clipboard_wasm;
