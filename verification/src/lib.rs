//! Clipboard access behind one handle, for applications that run either as a
//! native desktop process or inside a browser.
//!
//! The crate holds the decisions: which error a failed operation reports, what
//! the cached browser variant answers, and which handle an application sees.
//! Talking to the browser, and keeping the one handle of an application alive,
//! is left to the code that embeds it.

pub mod browser;
pub mod hooks;
pub mod integrations;
pub mod provider;
pub mod root;
