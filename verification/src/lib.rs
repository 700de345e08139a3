//! A terminal client for inspecting and managing stub mappings on a remote
//! mock-HTTP server. This crate is the verified core: the command/event
//! dispatch engine that turns user input, timer ticks, background task
//! completions and inter-component side effects into state transitions across
//! independent functional modules, together with the functional models that
//! the screens render. Terminal rendering, HTTP calls and configuration
//! persistence live outside the core and talk to it through plain values.

pub mod app;
pub mod configuration;
pub mod connection_edit_screen;
pub mod connection_screen;
pub mod contract;
pub mod event_manager;
pub mod main_screen;
pub mod model;
pub mod server;
pub mod stub;
pub mod wire_mock;
