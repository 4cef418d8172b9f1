//! The recording session: an exclusively-owned file writer shared in
//! turn between the real-time callback path and the finalizer, with
//! ordered, lossy-on-contention writes and exactly-once finalization.

use vstd::prelude::*;
use crate::config::{spec_wav_spec_of, wav_spec_of, StreamConfig, WavSpec};

verus! {

/// One live recording: the output path, the WAV header derived from
/// the captured stream configuration, the writer (present until
/// finalization takes it), and whether the input stream is still
/// attached. Samples are held as the raw bit patterns of the source
/// representation, in delivery order.
#[derive(Debug)]
pub struct RecordingSession {
    pub path: String,
    pub wav: WavSpec,
    pub writer: Option<Vec<u32>>,
    pub stream_live: bool,
}

/// A completed recording: everything the writer held when it was
/// finalized, under the header derived at session start.
#[derive(Debug)]
pub struct FinalizedRecording {
    pub path: String,
    pub wav: WavSpec,
    pub samples: Vec<u32>,
}

/// One occurrence the engine reacts to while a session runs: a sample
/// buffer delivered by the callback thread (with the outcome of its
/// non-blocking lock attempt), or the stop signal.
pub enum RecordEvent {
    Buffer { samples: Vec<u32>, lock_won: bool },
    Stop,
}

/// The mathematical state of a session: the sample sequence the writer
/// holds, whether the stream is attached, and whether the writer is
/// still present.
pub ghost struct SessionModel {
    pub samples: Seq<u32>,
    pub live: bool,
    pub writer_present: bool,
}

/// The mathematical form of one delivered buffer.
pub ghost struct BufferDelivery {
    pub samples: Seq<u32>,
    pub lock_won: bool,
}

/// What one buffer delivery does to a session: while the stream is
/// live and the callback's lock attempt won, the samples are appended
/// in order; on a lost lock attempt they are dropped; after the stream
/// is detached they never reach the writer.
pub open spec fn deliver(m: SessionModel, b: BufferDelivery) -> SessionModel {
    if m.live && b.lock_won {
        SessionModel { samples: m.samples + b.samples, ..m }
    } else {
        m
    }
}

/// The session after a whole sequence of buffer deliveries.
pub open spec fn deliver_all(m: SessionModel, bs: Seq<BufferDelivery>) -> SessionModel
    decreases bs.len(),
{
    if bs.len() == 0 {
        m
    } else {
        deliver_all(deliver(m, bs[0]), bs.drop_first())
    }
}

/// The samples that reach the writer out of a delivery sequence: the
/// buffers whose lock attempt won, concatenated in delivery order.
pub open spec fn delivered_samples(bs: Seq<BufferDelivery>) -> Seq<u32>
    decreases bs.len(),
{
    if bs.len() == 0 {
        Seq::empty()
    } else {
        (if bs[0].lock_won {
            bs[0].samples
        } else {
            Seq::empty()
        }) + delivered_samples(bs.drop_first())
    }
}

/// Every sample of a delivery sequence, contended or not, in order.
pub open spec fn all_samples(bs: Seq<BufferDelivery>) -> Seq<u32>
    decreases bs.len(),
{
    if bs.len() == 0 {
        Seq::empty()
    } else {
        bs[0].samples + all_samples(bs.drop_first())
    }
}

/// What finalization does to a session: it takes the writer, exactly
/// once; the samples leave with it.
pub open spec fn spec_finalize(m: SessionModel) -> SessionModel {
    SessionModel { samples: Seq::empty(), live: m.live, writer_present: false }
}

impl RecordingSession {
    /// While the stream is attached, the writer has not been taken.
    pub open spec fn wf(self) -> bool {
        self.stream_live ==> self.writer is Some
    }

    /// The samples the writer currently holds.
    pub open spec fn written(self) -> Seq<u32> {
        match self.writer {
            Some(w) => w@,
            None => Seq::empty(),
        }
    }

    /// The mathematical state of this session.
    pub open spec fn model(self) -> SessionModel {
        SessionModel {
            samples: self.written(),
            live: self.stream_live,
            writer_present: self.writer is Some,
        }
    }

    /// Opens a session for one recording: an empty writer under the
    /// WAV header derived from the captured configuration, with the
    /// stream attached.
    pub fn new(config: &StreamConfig, path: String) -> (s: RecordingSession)
        ensures
            s.wf(),
            s.wav == spec_wav_spec_of(*config),
            s.path == path,
            s.stream_live,
            s.writer is Some,
            s.written() == Seq::<u32>::empty(),
    {
        RecordingSession {
            path,
            wav: wav_spec_of(config),
            writer: Some(Vec::new()),
            stream_live: true,
        }
    }

    /// One buffer delivery from the callback thread. `lock_won` is the
    /// outcome of the callback's non-blocking lock attempt: when it
    /// lost, the buffer is dropped rather than blocking the real-time
    /// thread. A buffer delivered after the stream was detached never
    /// reaches the writer.
    pub fn append_buffer(&mut self, buf: &Vec<u32>, lock_won: bool)
        requires
            old(self).wf(),
        ensures
            final(self).wf(),
            final(self).wav == old(self).wav,
            final(self).path == old(self).path,
            final(self).stream_live == old(self).stream_live,
            final(self).model() == deliver(
                old(self).model(),
                BufferDelivery { samples: buf@, lock_won },
            ),
            old(self).stream_live && lock_won ==> final(self).written()
                == old(self).written() + buf@,
            !(old(self).stream_live && lock_won) ==> *final(self) == *old(self),
    {
        if self.stream_live && lock_won {
            let mut w: Vec<u32> = self.writer.take().unwrap();
            let n: usize = buf.len();
            let mut i: usize = 0;
            while i < n
                invariant
                    n == buf@.len(),
                    i <= n,
                    w@ == old(self).written() + buf@.take(i as int),
                decreases n - i,
            {
                w.push(buf[i]);
                proof {
                    assert(old(self).written() + buf@.take(i + 1)
                        =~= (old(self).written() + buf@.take(i as int)).push(buf@[i as int]));
                }
                i = i + 1;
            }
            proof {
                assert(buf@.take(n as int) =~= buf@);
            }
            self.writer = Some(w);
        }
    }

    /// Detaches the live input stream: after this, no further callback
    /// delivery reaches the writer. The writer and its contents are
    /// untouched.
    pub fn detach_stream(&mut self)
        requires
            old(self).wf(),
            old(self).stream_live,
        ensures
            final(self).wf(),
            !final(self).stream_live,
            final(self).wav == old(self).wav,
            final(self).path == old(self).path,
            final(self).writer == old(self).writer,
            final(self).written() == old(self).written(),
            final(self).model() == (SessionModel { live: false, ..old(self).model() }),
    {
        self.stream_live = false;
    }

    /// Finalizes the recording: takes the writer and everything it
    /// holds, exactly once. Strictly ordered after stream teardown. A
    /// session whose writer was already taken yields nothing and is
    /// left untouched, so no session is ever finalized twice.
    pub fn finalize(&mut self) -> (r: Option<FinalizedRecording>)
        requires
            old(self).wf(),
            !old(self).stream_live,
        ensures
            final(self).wf(),
            !final(self).stream_live,
            final(self).wav == old(self).wav,
            final(self).path == old(self).path,
            final(self).model() == spec_finalize(old(self).model()),
            (r is Some) == (old(self).writer is Some),
            r matches Some(f) ==> f.wav == old(self).wav
                && f.path == old(self).path
                && f.samples@ == old(self).written()
                && final(self).writer is None,
            old(self).writer is None ==> *final(self) == *old(self),
    {
        match self.writer.take() {
            Some(w) => {
                let path: String = self.path.clone();
                Some(FinalizedRecording { path, wav: self.wav, samples: w })
            },
            None => None,
        }
    }
}

/// The engine's one decision step while a `record` call runs: a buffer
/// delivery is write-attempted and the session stays live; the stop
/// signal tears the stream down and then — strictly after — finalizes,
/// handing the completed recording back. Only the stop event completes
/// the session.
pub fn record_step(s: &mut RecordingSession, event: RecordEvent) -> (done: Option<FinalizedRecording>)
    requires
        old(s).wf(),
        old(s).stream_live,
    ensures
        final(s).wf(),
        final(s).wav == old(s).wav,
        final(s).path == old(s).path,
        match event {
            RecordEvent::Buffer { samples, lock_won } => done is None
                && final(s).stream_live
                && (final(s).model() == deliver(
                    old(s).model(),
                    BufferDelivery { samples: samples@, lock_won },
                ))
                && (lock_won ==> final(s).written() == old(s).written() + samples@)
                && (!lock_won ==> final(s).written() == old(s).written()),
            RecordEvent::Stop => !final(s).stream_live
                && final(s).writer is None
                && (done matches Some(f)
                    && f.wav == old(s).wav
                    && f.path == old(s).path
                    && f.samples@ == old(s).written()),
        },
{
    match event {
        RecordEvent::Buffer { samples, lock_won } => {
            s.append_buffer(&samples, lock_won);
            None
        },
        RecordEvent::Stop => {
            s.detach_stream();
            s.finalize()
        },
    }
}

/// Law: buffer deliveries alone never end a session — however many
/// arrive, the stream stays live and the writer stays where it was, so
/// a recording on which no stop is signalled is never finalized.
pub proof fn lemma_no_stop_never_finalizes(m: SessionModel, bs: Seq<BufferDelivery>)
    requires
        m.live,
    ensures
        deliver_all(m, bs).live,
        deliver_all(m, bs).writer_present == m.writer_present,
    decreases bs.len(),
{
    if bs.len() > 0 {
        lemma_no_stop_never_finalizes(deliver(m, bs[0]), bs.drop_first());
    }
}

/// Law: over any delivery sequence, exactly the buffers whose lock
/// attempt won reach the writer, appended in delivery order after what
/// the writer already held.
pub proof fn lemma_delivery_order(m: SessionModel, bs: Seq<BufferDelivery>)
    requires
        m.live,
    ensures
        deliver_all(m, bs).samples == m.samples + delivered_samples(bs),
    decreases bs.len(),
{
    if bs.len() == 0 {
        assert(m.samples + delivered_samples(bs) =~= m.samples);
    } else {
        let m1 = deliver(m, bs[0]);
        lemma_delivery_order(m1, bs.drop_first());
        assert(m.samples + delivered_samples(bs)
            =~= m1.samples + delivered_samples(bs.drop_first()));
    }
}

/// Law: in an unobstructed session — every lock attempt won — the
/// writer ends with exactly the samples the callback delivered, all of
/// them, in delivery order.
pub proof fn lemma_unobstructed_round_trip(m: SessionModel, bs: Seq<BufferDelivery>)
    requires
        m.live,
        forall|k: int| 0 <= k < bs.len() ==> (#[trigger] bs[k]).lock_won,
    ensures
        deliver_all(m, bs).samples == m.samples + all_samples(bs),
    decreases bs.len(),
{
    lemma_delivery_order(m, bs);
    lemma_delivered_is_all_when_unobstructed(bs);
}

/// When every lock attempt wins, nothing is dropped.
proof fn lemma_delivered_is_all_when_unobstructed(bs: Seq<BufferDelivery>)
    requires
        forall|k: int| 0 <= k < bs.len() ==> (#[trigger] bs[k]).lock_won,
    ensures
        delivered_samples(bs) == all_samples(bs),
    decreases bs.len(),
{
    if bs.len() > 0 {
        assert(forall|k: int| 0 <= k < bs.drop_first().len()
            ==> (#[trigger] bs.drop_first()[k]).lock_won);
        lemma_delivered_is_all_when_unobstructed(bs.drop_first());
    }
}

/// Law: finalization is exactly-once — it leaves no writer behind, and
/// finalizing an already-finalized session is a no-op that yields
/// nothing (the writer it would take is no longer present).
pub proof fn lemma_finalize_at_most_once(m: SessionModel)
    ensures
        !spec_finalize(m).writer_present,
        spec_finalize(spec_finalize(m)) == spec_finalize(m),
{
}

} // verus!
