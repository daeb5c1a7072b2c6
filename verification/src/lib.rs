//! Plugin lifecycle of an extensible host: listing and installing plugins,
//! registering the extensions that loaded shared objects provide, and an event
//! bus that tells listeners what happened.
//!
//! The library decides and keeps the books; it performs no I/O. Cloning a
//! repository, reading a file, opening a shared object or waiting on a task is
//! the host's part: the host reports what happened, and the library answers
//! with the next thing to do.

pub mod datasource;
pub mod event_handler;
pub mod lifecycle;
pub mod local_settings;
pub mod manifest;
pub mod plugin_hub;
pub mod plugin_manager;
