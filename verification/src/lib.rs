//! A single-stream internet-radio playback engine.
//!
//! The crate holds the parts of the engine that decide something: the station
//! directory, the rules of the playback state machine, the volume scale, the
//! framing of in-band stream metadata, and the bounded byte buffer that sits
//! between the network and the decoder. Every function carries a contract
//! that Verus proves. What is taken on trust of `stream_download`,
//! `icy_metadata` and the standard library is marked `external_body` where it
//! stands, and says in its comment what it claims.
//!
//! The engine decides and its caller acts: opening the stream, decoding it
//! and driving the audio device stay with the application around this crate.

pub mod radios;
pub mod buffer;
pub mod metadata;
pub mod player;
pub mod commands;
pub mod tray;
