//! The decision core of a small tabbed web-browser shell.
//!
//! Everything here is plain data and pure decisions: the surrounding
//! program owns the widgets and the rendering engine, feeds events in and
//! carries the returned effects out.

pub mod address;
pub mod browser;
pub mod config;
pub mod model;
pub mod navigation;
pub mod policy;
pub mod progress;
pub mod tab;
pub mod text;
