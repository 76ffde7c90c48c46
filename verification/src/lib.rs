//! A song catalogue shared between peers: the console commands, the answers a peer gives
//! to song requests, and the framing of the protocol that carries them.
pub mod catalog;
pub mod command;
pub mod event;
pub mod protocol;
pub mod song;
pub mod song_id;
pub mod text;

pub use song::{EventType, GetMode, Song, SongRequest, SongResponse};
pub use protocol::{SongCodec, SongProtocol};
