//! Descriptive metadata of an opened audio file.

use vstd::prelude::*;

verus! {

/// A snapshot of the format the decoder reports for an open file.
/// Immutable once returned; querying again re-reads the decoder's
/// current state and may differ.
#[derive(Clone, Copy, PartialEq, Eq, Structural, Debug)]
pub struct AIFFFormat {
    /// Total number of sample frames in the file.
    pub samples: u64,
    /// Number of audio channels.
    pub channels: i32,
    /// Sampling rate, in whole sample frames per second. The decoder
    /// reports a fractional rate; seek arithmetic reads only its
    /// integer part, which is what this field holds.
    pub sampling_rate: u64,
    /// Bits per decoded sample.
    pub bits_per_sample: i32,
    /// Segment (sample frame) size, in bytes.
    pub segment_size: i32,
}

} // verus!
