//! Providers that the application brings along.

pub mod window_handle;
