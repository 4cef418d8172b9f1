//! Stream configurations and the WAV header specification derived from
//! them.

use vstd::prelude::*;
use crate::format::SampleFormat;

verus! {

/// The negotiated parameters of one stream session: sample rate in Hz,
/// channel count, and sample format. Immutable once captured for a
/// session.
#[derive(Clone, Copy, Debug, PartialEq, Eq, Structural)]
pub struct StreamConfig {
    pub sample_rate: u32,
    pub channels: u16,
    pub format: SampleFormat,
}

impl StreamConfig {
    /// A configuration is valid when its rate and channel count are
    /// positive.
    pub open spec fn valid(self) -> bool {
        self.sample_rate > 0 && self.channels > 0
    }
}

/// The header specification of a WAV recording: derived one-to-one from
/// the stream configuration the recording captures.
#[derive(Clone, Copy, Debug, PartialEq, Eq, Structural)]
pub struct WavSpec {
    pub channels: u16,
    pub sample_rate: u32,
    pub bits_per_sample: u16,
    pub float: bool,
}

/// The WAV header a configuration determines: channel count and rate
/// carried over, bit depth = byte width of the format times eight, and
/// the float class exactly when the source format is floating point.
pub open spec fn spec_wav_spec_of(c: StreamConfig) -> WavSpec {
    WavSpec {
        channels: c.channels,
        sample_rate: c.sample_rate,
        bits_per_sample: (c.format.spec_sample_bytes() * 8) as u16,
        float: c.format.spec_is_float(),
    }
}

/// Derives the WAV header specification from a stream configuration.
pub fn wav_spec_of(c: &StreamConfig) -> (w: WavSpec)
    ensures
        w == spec_wav_spec_of(*c),
{
    WavSpec {
        channels: c.channels,
        sample_rate: c.sample_rate,
        bits_per_sample: c.format.sample_size() * 8,
        float: c.format.is_float(),
    }
}

/// Law: for every configuration, the derived WAV bit depth equals the
/// source format's byte width times eight, and the header is in the
/// float class exactly when the source format is floating point.
pub proof fn lemma_wav_spec_bit_depth(c: StreamConfig)
    ensures
        spec_wav_spec_of(c).bits_per_sample == c.format.spec_sample_bytes() * 8,
        spec_wav_spec_of(c).float <==> c.format is F32,
        spec_wav_spec_of(c).channels == c.channels,
        spec_wav_spec_of(c).sample_rate == c.sample_rate,
{
}

} // verus!
