//! The window: its data, its input, its messages and the decisions it makes.

pub mod cursor;
pub mod data;
pub mod frame;
pub mod input;
pub mod settings;
pub mod stage;
pub mod state;
pub mod command;
pub mod message;
pub mod window_message;
pub mod sync;
pub mod window_loop;
