//! Verified core of a bridge between a native host process and embedded
//! web views.
//!
//! Host-side code offers operations that the script of a page can call,
//! and the script of a page hears of events on the host. This crate holds
//! the rules of that exchange, each with a contract that Verus proves:
//!
//! - `runtime` says what the bridge asks of a windowing engine, and `wry`
//!   is an engine that keeps it;
//! - `window` holds a window before and after an engine has realized it,
//!   and the handle that an application works with;
//! - `manager` holds the attached windows, the salts and the listeners, and
//!   says where a message from a page goes;
//! - `salt` and `event` are the registries behind the manager, `hooks` the
//!   shapes of what a page sends, `script` the text of what it is sent;
//! - `init` works out the files of a new application.
//!
//! The crate does no I/O and starts no thread. A host carries values to it
//! and carries out what it answers.

pub mod config;
pub mod error;
pub mod event;
pub mod hooks;
pub mod init;
pub mod json;
pub mod manager;
pub mod runtime;
pub mod salt;
pub mod script;
pub mod table;
pub mod text;
pub mod webview;
pub mod window;
pub mod wry;
