//! Decision logic of a streaming speech-recognition WebSocket server.
pub mod asr;
pub mod auth;
pub mod config;
pub mod logging;
pub mod model;
pub mod paths;
pub mod protocol;
pub mod session;
pub mod span;
pub mod text;
pub mod ws_handler;
