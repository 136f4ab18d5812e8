//! Configuration stores and request dispatch rules for a browser frontend.
//!
//! The crate holds the decisions of a small home-automation backend: the
//! resource stores for settings, shortcuts, dashboards and groups, the MIME
//! resolver, and the rules by which an HTTP request is answered. Every
//! function runs on plain values; reading files, talking to sockets and
//! passing messages between workers is left to the program around it.

pub mod text;
pub mod mime_type_mapper;
pub mod settings;
pub mod services;
pub mod console;
pub mod web_handler;
