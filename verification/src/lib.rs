//! Core library of a terminal player for tracker and chiptune music.
//!
//! The crate holds the verified logic of the player: the value model for
//! metadata, the player state machine and the audio engine's decisions, the
//! song index, and the text components of the user interface.  Everything
//! that touches a device, the terminal, the filesystem or a thread lives in
//! the surrounding application, which drives this library with plain values.

pub mod audio_player;
pub mod engine;
pub mod fft;
pub mod fifo;
pub mod gui;
pub mod indexer;
pub mod media_keys;
pub mod player;
pub mod resampler;
pub mod rustplay;
pub mod song;
pub mod text;
pub mod value;

use vstd::prelude::*;

verus! {

/// Where the spectrum visualizer is drawn.
#[derive(Clone, Copy, Debug, PartialEq, Eq, Structural)]
pub enum VisualizerPos {
    Off,
    Right,
    Below,
}

/// The player's start-up settings: the songs to queue and the visualizer's
/// shape.  `default` mirrors an all-zero record; the command line supplies
/// the documented defaults.
#[derive(Debug, Clone)]
pub struct Args {
    pub songs: Vec<String>,
    /// Lowest frequency the visualizer shows.
    pub min_freq: u32,
    /// Highest frequency the visualizer shows.
    pub max_freq: u32,
    pub visualizer: VisualizerPos,
    /// How much the spectrum input is folded down.
    pub fft_div: usize,
    /// Height of the visualizer in rows.
    pub visualizer_height: usize,
    pub no_term: bool,
    pub no_color: bool,
}

impl Default for Args {
    fn default() -> (r: Args)
        ensures
            r.songs@.len() == 0,
            r.min_freq == 0,
            r.max_freq == 0,
            r.visualizer == VisualizerPos::Off,
            r.fft_div == 0,
            r.visualizer_height == 0,
            !r.no_term,
            !r.no_color,
    {
        Args {
            songs: Vec::new(),
            min_freq: 0,
            max_freq: 0,
            visualizer: VisualizerPos::Off,
            fft_div: 0,
            visualizer_height: 0,
            no_term: false,
            no_color: false,
        }
    }
}

/// Milliseconds of playback represented by `samples` interleaved stereo
/// samples at `freq` Hz: `samples * 1000 / (freq * 2)`.
///
/// The audio callback and the fast-forward path both advance the shared
/// play clock by this amount.
pub open spec fn spec_tick_ms(samples: usize, freq: u32) -> int
    recommends
        freq > 0,
{
    samples * 1000 / (freq * 2)
}

/// Compute the clock advance for a block of interleaved stereo samples.
pub fn tick_ms(samples: usize, freq: u32) -> (ms: usize)
    requires
        freq > 0,
        samples * 1000 <= usize::MAX,
    ensures
        ms == spec_tick_ms(samples, freq),
{
    (((samples as u64) * 1000) / ((freq as u64) * 2)) as usize
}

} // verus!
