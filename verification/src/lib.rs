//! Client side of a small chat protocol.
//!
//! - [`wire`]: the frames exchanged with the server, and the codec between
//!   a frame and its JSON text.
//! - [`chat`]: the session, that is the roster, the history and the input
//!   field, and what each event makes of them.
//! - [`roster`]: how a list of names becomes the roster.
//! - [`text`]: trimming and comparing text.
//! - [`json`]: the boundary to `serde_json`, which parses and prints.
//!
//! The library performs no input or output. An event goes in, and out come
//! the next state and what the caller is to do: the frame to send, whether
//! to draw again.

pub mod chat;
pub mod json;
pub mod roster;
pub mod text;
pub mod wire;
