//! Core logic of a chat-completion backend: the session protocol that drives
//! one client connection (frame decoding, command dispatch, liveness), the
//! orchestration of a streamed completion into a persisted message, and the
//! validation rules of the surrounding request handlers.
pub mod billing;
pub mod cards;
pub mod files;
pub mod frame;
pub mod ids;
pub mod invites;
pub mod json;
pub mod model;
pub mod session;
pub mod text;
pub mod uid;
pub mod users;
pub mod wire;
