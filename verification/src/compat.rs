//! Support for other libraries.

pub mod egui;
