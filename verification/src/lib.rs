//! Core of a background audio-playback engine.
//!
//! The library holds the verified logic of the player: the ordered playlist
//! with cyclic navigation, the engine state machine that services commands,
//! the FIFO action channel that carries them, and the request-validation
//! rules of the control surface. Device output, file enumeration and the
//! network front end are external collaborators: the engine describes the
//! device operation to perform and consumes plain values describing what
//! the file system holds.

pub mod api;
pub mod channel;
pub mod cmd;
pub mod control;
pub mod dto;
pub mod music;
pub mod player;
pub mod playlist;
pub mod single_app;

pub use channel::{ActionChannel, PlayAction};
pub use cmd::{PauseArgs, PlayArgs, PlayTargetGroup, SubCommand};
pub use dto::{AudioRequestModel, RequestAction};
pub use music::{Metadata, Music, MusicState};
pub use player::{AudioSession, AudioSource, DeviceOp, PlayMode, Player, PlayerStatus};
pub use playlist::{PathInfo, Playlist};
pub use single_app::{check_app_registered, register_app, unregister_app, AppRegistry};
