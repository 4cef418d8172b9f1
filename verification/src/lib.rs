//! Verified core of a desktop audio capture/playback engine.
//!
//! The library models the engine's logic on plain values: device
//! enumeration and selection with a device/config pairing invariant,
//! sample-format dispatch over a closed enumeration, WAV header
//! derivation, a one-shot stop signal, and the recording-session
//! protocol (ordered, lossy-on-contention writes and exactly-once
//! finalization). The platform audio backend and the file system are
//! driven by a thin unverified shell that feeds this library plain
//! values and carries out its decisions.

pub mod config;
pub mod devices;
pub mod errors;
pub mod format;
pub mod playback;
pub mod recording;
pub mod stop;

use vstd::prelude::*;

use crate::config::spec_wav_spec_of;
use crate::devices::AudioDevices;
use crate::format::{dispatch, spec_dispatch, StreamPath};
use crate::playback::ToneGenerator;
use crate::recording::RecordingSession;
use crate::stop::StopSignal;

verus! {

/// Sets up a playback pass over the registry's current output side:
/// the tone's phase accumulator at the negotiated sample rate, and the
/// typed stream path the dispatcher selects for the negotiated sample
/// format. Everything after this — building the platform stream on
/// that path and rendering the waveform — happens outside the core.
pub fn prepare_playback(d: &AudioDevices) -> (r: (ToneGenerator, StreamPath))
    requires
        d.wf(),
    ensures
        r.0.wf(),
        r.0.sample_rate == d.output_config.sample_rate,
        r.0.phase == 0,
        r.1 == spec_dispatch(d.output_config.format),
{
    let tone: ToneGenerator = ToneGenerator::new(d.output_config.sample_rate);
    let path: StreamPath = dispatch(d.output_config.format);
    (tone, path)
}

/// Sets up a recording pass over the registry's current input side: a
/// fresh session whose WAV header is derived from the negotiated input
/// configuration, the typed stream path for its sample format, and a
/// fresh one-shot stop signal for this session alone. The platform
/// stream and the file at `path` are opened outside the core.
pub fn prepare_recording(d: &AudioDevices, path: String) -> (r: (RecordingSession, StreamPath, StopSignal))
    requires
        d.wf(),
    ensures
        r.0.wf(),
        r.0.stream_live,
        r.0.wav == spec_wav_spec_of(d.input_config),
        r.0.path == path,
        r.0.written() == Seq::<u32>::empty(),
        r.1 == spec_dispatch(d.input_config.format),
        r.2.wf(),
        !r.2.fired,
        !r.2.consumed,
{
    let session: RecordingSession = RecordingSession::new(&d.input_config, path);
    let stream_path: StreamPath = dispatch(d.input_config.format);
    let stop: StopSignal = StopSignal::new();
    (session, stream_path, stop)
}

} // verus!
