//! Decision core of a remote-desktop client: connection establishment,
//! login and credential resolution, media pipeline accounting, input
//! encoding and error classification, each with a contract that Verus
//! proves.
//!
//! Sockets, codecs, the clipboard and the configuration files belong to
//! the application. It reports what happened and is told what to do next.

pub mod audio;
pub mod auth;
pub mod clipboard;
pub mod config;
pub mod connect;
pub mod errors;
pub mod handshake;
pub mod input;
pub mod json;
pub mod login;
pub mod message;
pub mod options;
pub mod password;
pub mod peer_id;
pub mod relay;
pub mod request;
pub mod rendezvous;
pub mod strmap;
pub mod text;
pub mod toggles;
pub mod video;
