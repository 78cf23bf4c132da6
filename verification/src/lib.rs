//! A multi-source screen-recording library.
//!
//! The library coordinates a recording lifecycle over several display
//! encoders and an optional webcam encoder: it guards start/pause/resume/stop
//! against re-entry, plans the encoder subprocess invocations, validates the
//! media artifacts a session leaves behind, and lays the usable clips out in
//! a grid composited by a single external encode pass.
//!
//! All decisions are made here and verified; subprocess spawning, file
//! probing and the settle-interval sleeps are left to the embedding
//! application, which feeds their outcomes back as plain values.

pub mod artifacts;
pub mod capture;
pub mod combiner;
pub mod lifecycle;
pub mod listing;
pub mod models;
pub mod sources;
pub mod text;
