//! Decision logic of a small Windows IME-mode indicator: which input mode the
//! foreground application is in, where the indicator goes, how long it stays
//! on screen, and how keyboard and timer events drive it.

pub mod app;
pub mod caret;
pub mod control;
pub mod ime;
pub mod startup;
