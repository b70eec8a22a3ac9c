//! A streaming audio playback engine: a gain stage, a speed transformer,
//! a bounded frame queue and the session state machine that ties them
//! together, with the framing of interleaved samples and the command-line
//! grammar of the player around it. Volume and speed are fixed-point
//! values in thousandths (1000 stands for 1.0).

use vstd::prelude::*;

pub mod error;
pub mod params;
pub mod gain;
pub mod retime;
pub mod ring;
pub mod session;
pub mod cli;
pub mod pcm;
