//! Client-side logic of a small encrypted voice-chat protocol: packet framing,
//! the session key store, the connection handshake, and the sample-buffer
//! handling of the audio path.

pub mod audio;
pub mod connect;
pub mod connection;
pub mod util;
pub mod record;
