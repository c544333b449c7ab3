//! Picks the one stream configuration that the codec works at from what a
//! device supports: 48 kHz, 32-bit float samples, buffers of one frame.

use crate::frame::{FRAME_SAMPLES, OPUS_SR_HZ};
use vstd::prelude::*;

verus! {

/// One range of configurations that a device supports.
#[derive(Clone, Copy, Debug, PartialEq, Eq, Structural)]
pub struct ConfigRange {
    pub channels: u16,
    /// Whether samples are 32-bit floats.
    pub float_samples: bool,
    pub min_sample_rate: u32,
    pub max_sample_rate: u32,
}

/// The configuration to open a stream with.
#[derive(Clone, Copy, Debug, PartialEq, Eq, Structural)]
pub struct StreamSetup {
    pub channels: u16,
    pub sample_rate: u32,
    /// Frames per buffer.
    pub buffer_size: u32,
}

/// Why no configuration was picked.
#[derive(Clone, Copy, Debug, PartialEq, Eq, Structural)]
pub enum DeviceError {
    /// The input device has no 48 kHz mono float configuration.
    NoMonoInput,
    /// The output device has no 48 kHz stereo float configuration.
    NoStereoOutput,
}

impl DeviceError {
    /// The error in words.
    pub fn message(&self) -> (text: &'static str)
        ensures
            *self == DeviceError::NoMonoInput ==> text@ == "mic lacks 48 kHz mono-f32"@,
            *self == DeviceError::NoStereoOutput ==> text@ == "speaker lacks 48 kHz stereo-f32"@,
    {
        match self {
            DeviceError::NoMonoInput => "mic lacks 48 kHz mono-f32",
            DeviceError::NoStereoOutput => "speaker lacks 48 kHz stereo-f32",
        }
    }
}

/// The two streams of the pipeline.
#[derive(Clone, Copy, Debug, PartialEq, Eq, Structural)]
pub enum DeviceProfile {
    MonoIn48,
    StereoOut48,
}

/// Whether a range offers float samples at 48 kHz on `channels` channels.
pub open spec fn suits(range: ConfigRange, channels: u16) -> bool {
    &&& range.channels == channels
    &&& range.float_samples
    &&& range.min_sample_rate <= OPUS_SR_HZ <= range.max_sample_rate
}

/// Whether any of the ranges suits.
pub open spec fn any_suits(supported: Seq<ConfigRange>, channels: u16) -> bool {
    exists|i: int| 0 <= i < supported.len() && suits(#[trigger] supported[i], channels)
}

/// The configuration on `channels` channels.
pub open spec fn setup_for(channels: u16) -> StreamSetup {
    StreamSetup { channels, sample_rate: OPUS_SR_HZ, buffer_size: FRAME_SAMPLES as u32 }
}

/// The position of the first range that suits.
pub fn first_suitable(supported: &[ConfigRange], channels: u16) -> (found: Option<usize>)
    ensures
        found matches Some(i) ==> i < supported@.len() && suits(supported@[i as int], channels)
            && forall|j: int| 0 <= j < i ==> !suits(#[trigger] supported@[j], channels),
        found is None ==> !any_suits(supported@, channels),
{
    let mut i: usize = 0;
    while i < supported.len()
        invariant
            i <= supported.len(),
            forall|j: int| 0 <= j < i ==> !suits(#[trigger] supported@[j], channels),
        decreases supported.len() - i,
    {
        let r = &supported[i];
        if r.channels == channels && r.float_samples && r.min_sample_rate <= OPUS_SR_HZ
            && r.max_sample_rate >= OPUS_SR_HZ {
            return Some(i);
        }
        i += 1;
    }
    None
}

/// The capture configuration: mono, if the device supports it.
pub fn input_config(supported: &[ConfigRange]) -> (r: Result<StreamSetup, DeviceError>)
    ensures
        any_suits(supported@, 1) ==> r == Ok::<_, DeviceError>(setup_for(1)),
        !any_suits(supported@, 1) ==> r == Err::<StreamSetup, _>(DeviceError::NoMonoInput),
{
    match first_suitable(supported, 1) {
        Some(_) => Ok(
            StreamSetup { channels: 1, sample_rate: OPUS_SR_HZ, buffer_size: FRAME_SAMPLES as u32 },
        ),
        None => Err(DeviceError::NoMonoInput),
    }
}

/// The playback configuration: stereo, if the device supports it.
pub fn output_config(supported: &[ConfigRange]) -> (r: Result<StreamSetup, DeviceError>)
    ensures
        any_suits(supported@, 2) ==> r == Ok::<_, DeviceError>(setup_for(2)),
        !any_suits(supported@, 2) ==> r == Err::<StreamSetup, _>(DeviceError::NoStereoOutput),
{
    match first_suitable(supported, 2) {
        Some(_) => Ok(
            StreamSetup { channels: 2, sample_rate: OPUS_SR_HZ, buffer_size: FRAME_SAMPLES as u32 },
        ),
        None => Err(DeviceError::NoStereoOutput),
    }
}

impl DeviceProfile {
    /// The configuration of this profile's stream on a device that supports
    /// `supported`.
    pub fn open(&self, supported: &[ConfigRange]) -> (r: Result<StreamSetup, DeviceError>)
        ensures
            *self == DeviceProfile::MonoIn48 ==> {
                &&& any_suits(supported@, 1) ==> r == Ok::<_, DeviceError>(setup_for(1))
                &&& !any_suits(supported@, 1) ==> r == Err::<StreamSetup, _>(
                    DeviceError::NoMonoInput,
                )
            },
            *self == DeviceProfile::StereoOut48 ==> {
                &&& any_suits(supported@, 2) ==> r == Ok::<_, DeviceError>(setup_for(2))
                &&& !any_suits(supported@, 2) ==> r == Err::<StreamSetup, _>(
                    DeviceError::NoStereoOutput,
                )
            },
    {
        match self {
            DeviceProfile::MonoIn48 => input_config(supported),
            DeviceProfile::StereoOut48 => output_config(supported),
        }
    }
}

} // verus!
