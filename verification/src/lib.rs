//! Interactive control core of a terminal viewer for a local secret store.
//!
//! Raw input is read as [`actions::Action`] values, which drive a
//! three-axis view state machine and a guard that keeps background secret
//! operations from being issued twice for the same entry.
pub mod actions;
pub mod app;
pub mod components;
pub mod event;
pub mod events;
pub mod dedup;
pub mod input;
pub mod request;
pub mod text;
pub mod utils;
