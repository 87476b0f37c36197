//! A verified core for a real-time video playback pipeline.
//!
//! The crate models the frame production and delivery path of a player:
//! decoded pictures become [`frame::Frame`] values, a single-slot
//! [`slot::FrameBuffer`] hands the freshest frame from the producer to any
//! number of consumers, [`clock::PlaybackClock`] converts stream timestamps
//! into presentation deadlines, [`decode::decode_step`] drives the demux and
//! decode loop as a state machine over plain events, and
//! [`player::VideoPlayer`] ties the session lifecycle together.
//!
//! Everything that performs I/O (opening a source, demuxing, the GPU surface)
//! lives outside this crate and talks to it through plain values.

pub mod clock;
pub mod decode;
pub mod frame;
pub mod player;
pub mod probe;
pub mod slot;
pub mod timing;
