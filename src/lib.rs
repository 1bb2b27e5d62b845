//! Composing and firing a single HTTP request from a terminal: a text-input
//! widget, a selectable method list, and the event-driven state machine that
//! ties them to an asynchronous request dispatcher.
pub mod action;
pub mod app;
pub mod cli;
pub mod event;
pub mod http;
pub mod input;
pub mod list;
pub mod method;
mod text;
