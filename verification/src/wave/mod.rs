//! Rolling windows, spectra, frequency bands and recording sessions.

use vstd::prelude::*;

pub mod bands;
pub mod export;
pub mod read;
pub mod record;
pub mod window;

verus! {

/// Number of samples that each rolling window holds.
pub const WAVE_BUFF_LEN: usize = 1024;

/// Number of channels that the amplifier streams.
pub const WAVE_BUFFS_NUM: usize = 6;

/// Sampling rate of the amplifier, in Hz.
pub const SAMPLING_RATE: u32 = 250;

} // verus!
