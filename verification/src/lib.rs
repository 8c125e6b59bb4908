//! SpoolCtl: the decisions behind a small tool for the Windows print spooler.

pub mod autostart;
pub mod cli;
pub mod clock;
pub mod control;
pub mod elevate;
pub mod gui;
pub mod host;
pub mod lines;
pub mod log;
pub mod ncd;
pub mod number;
pub mod order;
pub mod os;
pub mod paths;
pub mod print_notify;
pub mod queue;
pub mod settings;
pub mod shell;
pub mod single_instance;
pub mod spooler;
pub mod text;
pub mod theme;
pub mod tray;
pub mod watchdog;
pub mod wide;
pub mod win32;
