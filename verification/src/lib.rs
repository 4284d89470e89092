//! Verified formatting and decision logic of an interactive system
//! diagnostics console: byte sizes, usage bars, the menu and the report
//! screens, built from plain values that the host program gathers.

pub mod text;
pub mod units;
pub mod paint;
pub mod bar;
pub mod menu;
pub mod layout;
pub mod system;
pub mod cpu;
pub mod memory;
pub mod gpu;
pub mod storage;
pub mod network;
pub mod tasks;
pub mod debug;
pub mod console;
