//! Playback control for a desktop media player: the command codec, the bus
//! slot shared between threads, the worker's state machine and the
//! coordinator that decides when a worker is started, told or joined.

pub mod local;
pub mod player;
pub mod streamer;
