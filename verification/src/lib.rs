//! Verified core of a terminal dashboard for a managed cluster: the event
//! model, key command interpreter, application state machine, log record
//! handling, and the adaptive layout engine that computes panel regions and
//! border glyphs for every frame.

pub mod app;
pub mod config;
pub mod event;
pub mod layout;
pub mod log;
pub mod text;
