//! Verified core of the Qliphoth native runtime: element tree, windows,
//! event queue, timers, focus, clipboard bookkeeping and CSS value grammar.
use vstd::prelude::*;

pub mod event;
pub mod table;
pub mod framebuffer;
pub mod clipboard;
pub mod text;
pub mod runtime;
pub mod dispatch;
pub mod timing;
pub mod teardown;
pub mod input;
pub mod clipboard_ops;
pub mod css;
pub mod widgets;
pub mod wayland;
pub mod x11;
pub mod laws;
pub mod meaning;

