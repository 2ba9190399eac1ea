//! Oculus: a viewer for structured tracing logs streamed over TCP.
//!
//! The library holds the viewer's logic: how events are filtered, counted,
//! buffered and published to the user interface, how streams are registered
//! and opened, and how log lines are laid out for display.
#![allow(unused_imports)]

pub mod data;
pub mod event;
pub mod backend;
pub mod frontend;
pub mod text;
pub mod egui_app;
pub mod precompute;
pub mod data_task;
pub mod single_view;
pub mod frontend2;

