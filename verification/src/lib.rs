//! Core state machine of a full-screen terminal client for composing
//! HTTP-style requests: panel focus, modal overlays, header CRUD, and
//! per-tab request-body content.
//!
//! Everything here is plain data and transitions over it; terminal
//! rendering, networking and persistence live outside the library and
//! talk to it through ordinary values.

pub mod app;
pub mod body;
pub mod cursor;
pub mod cycle;
pub mod editor;
pub mod headers;
pub mod history_view;
pub mod keys;
pub mod lines;
pub mod method;
pub mod output;
pub mod overlay;
pub mod records;
pub mod tabs;
pub mod text;
