//! Support for `egui`.

pub mod clipboard;
