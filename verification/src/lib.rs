//! The decision core of a status bar that draws with Cairo into a software
//! surface: what every window event, timer tick and shared-memory notification
//! changes, and which outside work has to follow.

pub mod action;
pub mod app;
pub mod back_buffer;
pub mod calls;
pub mod conduct;
pub mod event;
pub mod frame;
pub mod geometry;
pub mod history;
pub mod notifier;
pub mod pointer;
pub mod run;
pub mod startup;
pub mod state;
pub mod ticker;
