//! Animated GIF playback: decoding a byte stream into timed RGBA frames, and
//! the per-instance state machine that steps through them on a timer, counts
//! down the loops that remain and reports the end of a finite animation.
//!
//! - [`stream`], [`canvas`] and [`decode`] turn the bytes of a file into
//!   frames.
//! - [`asset`] holds the frames of one animation and the images registered
//!   for them.
//! - [`clock`] is the timer, [`player`] the state of one instance and the
//!   step it takes on a tick, [`timeline`] what holds of a player over many
//!   ticks.
//! - [`driver`] is what the host does for an instance on every tick, and
//!   [`instance`] says which instances go when an animation has completed.

pub mod asset;
pub mod canvas;
pub mod clock;
pub mod decode;
pub mod driver;
pub mod instance;
pub mod player;
pub mod stream;
pub mod timeline;
