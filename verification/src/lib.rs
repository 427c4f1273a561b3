//! Core logic of a tray-icon launcher: the visibility state machine that
//! governs a single popup window, the monitor-geometry arithmetic that places
//! it near the bottom-right screen corner, and the dispatch rules that route
//! tray and menu events. The host windowing toolkit performs the actual
//! drawing, event delivery and process control; everything it is told to do
//! is decided here.

pub mod commands;
pub mod dispatch;
pub mod geometry;
pub mod vis;
pub mod window;
