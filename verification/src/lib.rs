//! Context-based Chinese/English input mode selection.
//!
//! The library decides, from the text line around the caret, whether the
//! input method should be in Chinese or English mode, and decides when a
//! change in the foreground text state is a caret relocation worth acting on
//! (as opposed to ordinary typing).
pub mod ime;
pub mod text;
pub mod context;
pub mod classifier;
pub mod watcher;
pub mod adapter;
pub mod ime_switch;
pub mod numbers;
pub mod app;
pub mod config;
pub mod diagnostics;
pub mod logger;
pub mod capture;
pub mod tray;
pub mod daemon;
pub mod service;
