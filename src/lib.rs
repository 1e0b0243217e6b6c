//! Orchestration core of a local desktop-automation daemon: the line protocol,
//! the capability registry, the element cache, the clipboard history, the key
//! combination parser, the sticky fallback executor and the request dispatcher.

pub mod cache;
pub mod clients;
pub mod clipboard;
pub mod config;
pub mod detection;
pub mod dispatch;
pub mod element;
pub mod fallback;
pub mod json;
pub mod keys;
pub mod protocol;
pub mod session;
pub mod text;
