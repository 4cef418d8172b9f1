//! The playback engine's verified core: the tone's phase accumulator
//! and the frame fill that duplicates one mono value across channels.

use vstd::prelude::*;

verus! {

/// The phase accumulator of the synthesized tone: advances by one per
/// frame and wraps every `sample_rate` frames, so it never drifts over
/// long runs. The waveform value of a phase is computed outside this
/// core; the accumulator pins which phase each frame gets.
#[derive(Clone, Copy, Debug, PartialEq, Eq, Structural)]
pub struct ToneGenerator {
    pub sample_rate: u32,
    pub phase: u32,
}

impl ToneGenerator {
    /// The phase always lies below the (positive) sample rate.
    pub open spec fn wf(self) -> bool {
        self.sample_rate > 0 && self.phase < self.sample_rate
    }

    /// A generator at phase zero for one stream session.
    pub fn new(sample_rate: u32) -> (g: ToneGenerator)
        requires
            sample_rate > 0,
        ensures
            g.wf(),
            g.sample_rate == sample_rate,
            g.phase == 0,
    {
        ToneGenerator { sample_rate, phase: 0 }
    }

    /// Advances the accumulator one frame and yields the new phase:
    /// one past the old phase, wrapped to zero at the sample rate.
    pub fn advance(&mut self) -> (p: u32)
        requires
            old(self).wf(),
        ensures
            final(self).wf(),
            final(self).sample_rate == old(self).sample_rate,
            final(self).phase == (old(self).phase + 1) % (old(self).sample_rate as int),
            p == final(self).phase,
    {
        let next: u32 = if self.phase + 1 == self.sample_rate {
            proof {
                assert((self.phase + 1) % (self.sample_rate as int) == 0) by (nonlinear_arith)
                    requires
                        self.phase + 1 == self.sample_rate,
                        self.sample_rate > 0,
                ;
            }
            0
        } else {
            proof {
                assert((self.phase + 1) % (self.sample_rate as int) == self.phase + 1)
                    by (nonlinear_arith)
                    requires
                        0 <= self.phase + 1 < self.sample_rate,
                ;
            }
            self.phase + 1
        };
        self.phase = next;
        next
    }
}

/// Law: the accumulator is periodic — advancing a phase by a whole
/// sample rate's worth of frames lands on the same phase, so the tone
/// repeats exactly once per second's worth of frames.
pub proof fn lemma_phase_wraps(phase: u32, sample_rate: u32)
    requires
        sample_rate > 0,
        phase < sample_rate,
    ensures
        (phase + sample_rate) % (sample_rate as int) == phase,
{
    assert((phase + sample_rate) % (sample_rate as int) == phase) by (nonlinear_arith)
        requires
            sample_rate > 0,
            phase < sample_rate,
    ;
}

/// Fills an output buffer from one mono value per frame: every channel
/// of frame `f` carries `values[f]`, with no panning. Samples are bit
/// patterns of the stream's sample type.
pub fn interleave_frames(values: &Vec<u32>, channels: u16) -> (buf: Vec<u32>)
    requires
        channels > 0,
        values@.len() * channels <= usize::MAX,
    ensures
        buf@.len() == values@.len() * channels,
        forall|j: int|
            0 <= j < buf@.len() ==> #[trigger] buf@[j] == values@[j / (channels as int)],
{
    let n: usize = values.len();
    let ch: usize = channels as usize;
    let total: usize = n * ch;
    let mut buf: Vec<u32> = Vec::new();
    let mut idx: usize = 0;
    while idx < total
        invariant
            n == values@.len(),
            ch == channels as usize,
            ch > 0,
            total == n * ch,
            idx <= total,
            buf@.len() == idx,
            forall|j: int|
                0 <= j < idx ==> #[trigger] buf@[j] == values@[j / (ch as int)],
        decreases total - idx,
    {
        proof {
            assert(idx / ch < n) by (nonlinear_arith)
                requires
                    idx < n * ch,
                    ch > 0,
            ;
        }
        let frame: usize = idx / ch;
        buf.push(values[frame]);
        idx = idx + 1;
    }
    buf
}

} // verus!
