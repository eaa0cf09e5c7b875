//! Gateway between a desktop UI and language-model backends.
//!
//! The crate normalizes two backend shapes — a locally running inference
//! daemon and a remote OpenAI-compatible HTTP service — into one contract:
//! a chat turn goes out as a planned request, the reply is classified by a
//! fixed priority of extraction strategies (with a documented fallback for
//! the local daemon), and the result is delivered to the UI as an ordered
//! sequence of framed events.  The crate also models the daemon supervisor
//! (probe, spawn, poll until ready, guarded by a single-flight flag) and the
//! model-pull progress protocol (newline-delimited JSON records).
//!
//! Everything that decides or computes lives here, verified; the surrounding
//! process — HTTP transport, process spawning, timers, the UI shell — drives
//! these functions from outside.

pub mod config;
pub mod think;
pub mod endpoints;
pub mod handles;
pub mod json;
pub mod chat;
pub mod models;
pub mod supervisor;
pub mod singleflight;
pub mod stream;
pub mod pull;
