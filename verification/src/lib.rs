//! A dual-panel file manager's state, rules and parsers.
pub mod text;
pub mod backend;
pub mod local_backend;
pub mod listing;
pub mod file_operation;
pub mod config;
pub mod background_op;
pub mod context;
pub mod messages_enum;
pub mod keys;
pub mod event_handler;
pub mod laws;
pub mod view;
