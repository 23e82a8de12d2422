//! The one audio format of a recording.

use vstd::prelude::*;

verus! {

/// Channels of a recording.
pub const CHANNEL_COUNT: u16 = 1;

/// Samples per second of a recording.
pub const SAMPLE_RATE_HZ: u32 = 16000;

/// Bits of one sample; samples are signed integers.
pub const BITS_PER_SAMPLE: u16 = 16;

/// Descriptor of the audio data: used alike for capture and for the file.
#[derive(Clone, Copy, Debug, PartialEq, Eq, Structural)]
pub struct AudioFormat {
    pub channel_count: u16,
    pub sample_rate_hz: u32,
    pub bits_per_sample: u16,
}

impl AudioFormat {
    /// Mono, 16 kHz, 16 bits: the only format that is recorded.
    pub open spec fn is_standard(&self) -> bool {
        &&& self.channel_count == 1
        &&& self.sample_rate_hz == 16000
        &&& self.bits_per_sample == 16
    }

    /// The recording format.
    pub open spec fn standard() -> AudioFormat {
        AudioFormat { channel_count: 1, sample_rate_hz: 16000, bits_per_sample: 16 }
    }

    /// Bytes that one sample takes in a file.
    pub open spec fn spec_bytes_per_sample(&self) -> nat {
        (self.bits_per_sample / 8) as nat
    }

    /// The recording format.
    pub fn new() -> (f: Self)
        ensures
            f.is_standard(),
            f == AudioFormat::standard(),
    {
        AudioFormat {
            channel_count: CHANNEL_COUNT,
            sample_rate_hz: SAMPLE_RATE_HZ,
            bits_per_sample: BITS_PER_SAMPLE,
        }
    }

    /// Whether this is the recording format.
    pub fn check_standard(&self) -> (b: bool)
        ensures
            b == self.is_standard(),
    {
        self.channel_count == CHANNEL_COUNT && self.sample_rate_hz == SAMPLE_RATE_HZ
            && self.bits_per_sample == BITS_PER_SAMPLE
    }

    /// Bytes that one sample takes in a file.
    pub fn bytes_per_sample(&self) -> (n: u16)
        ensures
            n == self.spec_bytes_per_sample(),
            self.is_standard() ==> n == 2,
    {
        self.bits_per_sample / 8
    }
}

} // verus!
