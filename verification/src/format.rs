//! The closed sample-format enumeration and the dispatcher that maps a
//! runtime format tag to its statically-typed stream path.

use vstd::prelude::*;
use crate::errors::AudioError;

verus! {

/// A sample representation the engine supports: 8/16/32-bit signed
/// integer or 32-bit floating point. The enumeration is closed, so
/// dispatch over it is total by construction.
#[derive(Clone, Copy, Debug, PartialEq, Eq, Structural)]
pub enum SampleFormat {
    I8,
    I16,
    I32,
    F32,
}

/// The typed processing path a stream is built with: one distinct path
/// per supported sample representation.
#[derive(Clone, Copy, Debug, PartialEq, Eq, Structural)]
pub enum StreamPath {
    PcmI8,
    PcmI16,
    PcmI32,
    PcmF32,
}

impl SampleFormat {
    /// Bytes that one sample of this format occupies.
    pub open spec fn spec_sample_bytes(self) -> u16 {
        match self {
            SampleFormat::I8 => 1,
            SampleFormat::I16 => 2,
            SampleFormat::I32 => 4,
            SampleFormat::F32 => 4,
        }
    }

    /// Whether this format is a floating-point representation.
    pub open spec fn spec_is_float(self) -> bool {
        self is F32
    }

    /// Bytes that one sample of this format occupies.
    pub fn sample_size(&self) -> (n: u16)
        ensures
            n == self.spec_sample_bytes(),
    {
        match self {
            SampleFormat::I8 => 1,
            SampleFormat::I16 => 2,
            SampleFormat::I32 => 4,
            SampleFormat::F32 => 4,
        }
    }

    /// Whether this format is a floating-point representation.
    pub fn is_float(&self) -> (r: bool)
        ensures
            r == self.spec_is_float(),
    {
        match self {
            SampleFormat::F32 => true,
            _ => false,
        }
    }

    /// Recognizes a format from its bit depth and number class. Exactly
    /// the four supported descriptors are accepted; every other
    /// descriptor is refused before any stream is constructed.
    pub fn from_descriptor(bits_per_sample: u16, is_float: bool) -> (r: Result<SampleFormat, AudioError>)
        ensures
            r == spec_format_of_descriptor(bits_per_sample, is_float),
            r matches Ok(f) ==> f.spec_sample_bytes() * 8 == bits_per_sample
                && f.spec_is_float() == is_float,
    {
        match (bits_per_sample, is_float) {
            (8, false) => Ok(SampleFormat::I8),
            (16, false) => Ok(SampleFormat::I16),
            (32, false) => Ok(SampleFormat::I32),
            (32, true) => Ok(SampleFormat::F32),
            _ => Err(AudioError::UnsupportedSampleFormat),
        }
    }
}

/// The format, if any, whose bit depth and number class match the
/// descriptor.
pub open spec fn spec_format_of_descriptor(bits_per_sample: u16, is_float: bool) -> Result<SampleFormat, AudioError> {
    if bits_per_sample == 8 && !is_float {
        Ok(SampleFormat::I8)
    } else if bits_per_sample == 16 && !is_float {
        Ok(SampleFormat::I16)
    } else if bits_per_sample == 32 && !is_float {
        Ok(SampleFormat::I32)
    } else if bits_per_sample == 32 && is_float {
        Ok(SampleFormat::F32)
    } else {
        Err(AudioError::UnsupportedSampleFormat)
    }
}

/// The path the dispatcher selects for each format tag.
pub open spec fn spec_dispatch(f: SampleFormat) -> StreamPath {
    match f {
        SampleFormat::I8 => StreamPath::PcmI8,
        SampleFormat::I16 => StreamPath::PcmI16,
        SampleFormat::I32 => StreamPath::PcmI32,
        SampleFormat::F32 => StreamPath::PcmF32,
    }
}

impl StreamPath {
    /// Bytes of the sample type this path is instantiated at.
    pub open spec fn spec_sample_bytes(self) -> u16 {
        match self {
            StreamPath::PcmI8 => 1,
            StreamPath::PcmI16 => 2,
            StreamPath::PcmI32 => 4,
            StreamPath::PcmF32 => 4,
        }
    }

    /// Whether the sample type this path is instantiated at is floating
    /// point.
    pub open spec fn spec_is_float(self) -> bool {
        self is PcmF32
    }
}

/// Selects the statically-typed stream path for a format tag. Total
/// over the closed enumeration: no tag can reach stream construction
/// without a path.
pub fn dispatch(f: SampleFormat) -> (p: StreamPath)
    ensures
        p == spec_dispatch(f),
{
    match f {
        SampleFormat::I8 => StreamPath::PcmI8,
        SampleFormat::I16 => StreamPath::PcmI16,
        SampleFormat::I32 => StreamPath::PcmI32,
        SampleFormat::F32 => StreamPath::PcmF32,
    }
}

/// Law: the dispatcher is injective — distinct format tags select
/// distinct processing paths — and each selected path is correctly
/// typed: it carries exactly the sample width and number class of the
/// tag it was selected for.
pub proof fn lemma_dispatch_distinct_and_typed(f1: SampleFormat, f2: SampleFormat)
    ensures
        f1 != f2 ==> spec_dispatch(f1) != spec_dispatch(f2),
        spec_dispatch(f1).spec_sample_bytes() == f1.spec_sample_bytes(),
        spec_dispatch(f1).spec_is_float() == f1.spec_is_float(),
{
}

} // verus!
