//! Host-side driver library for a multi-board keyboard controller that speaks a
//! framed system-exclusive protocol.

pub mod constants;
pub mod error;
pub mod sysex;
pub mod commands;
pub mod driver;
pub mod text;
pub mod keymap;
pub mod device;
