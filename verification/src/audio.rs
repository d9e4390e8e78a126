//! Audio input: the choice of a device from the enumerated names, the fixed
//! format of captured audio, and the valve in front of the outbound queue.
//!
//! Enumerating devices and driving a device belong to the caller; what is
//! decided about their results is decided here.

use vstd::prelude::*;
use vstd::string::*;

verus! {

/// Sample rate of captured audio, in Hz.
pub const SAMPLE_RATE: u32 = 48000;

/// Channels of captured audio.
pub const CHANNELS: u16 = 1;

/// Why no input device could be used.
#[derive(Debug, Clone, Copy, PartialEq, Eq, Structural)]
pub enum AudioError {
    /// The host reported no input device.
    NoInputDevices,
    /// The index names no device of the enumeration.
    InvalidDeviceIndex,
}

impl AudioError {
    /// The message of the error.
    pub fn message(&self) -> (text: &'static str)
        ensures
            text@ == match self {
                AudioError::NoInputDevices => "No input devices found"@,
                AudioError::InvalidDeviceIndex => "Invalid device index"@,
            },
    {
        match self {
            AudioError::NoInputDevices => "No input devices found",
            AudioError::InvalidDeviceIndex => "Invalid device index",
        }
    }
}

/// The names as plain values.
pub open spec fn names(devices: Seq<String>) -> Seq<Seq<char>> {
    Seq::new(devices.len(), |i: int| devices[i]@)
}

/// The enumerated input devices, which must be at least one.
pub fn list_audio_devices(found: Vec<String>) -> (devices: Result<Vec<String>, AudioError>)
    ensures
        found@.len() == 0 ==> devices == Err::<Vec<String>, AudioError>(AudioError::NoInputDevices),
        found@.len() > 0 ==> devices == Ok::<Vec<String>, AudioError>(found),
{
    if found.len() == 0 {
        Err(AudioError::NoInputDevices)
    } else {
        Ok(found)
    }
}

/// The name of the device at `index` of the enumeration.
pub fn get_device_name(devices: &Vec<String>, index: usize) -> (name: Result<String, AudioError>)
    ensures
        devices@.len() == 0 ==> name == Err::<String, AudioError>(AudioError::NoInputDevices),
        0 < devices@.len() <= index ==> name == Err::<String, AudioError>(
            AudioError::InvalidDeviceIndex,
        ),
        index < devices@.len() ==> name is Ok && name->Ok_0@ == devices@[index as int]@,
{
    if devices.len() == 0 {
        Err(AudioError::NoInputDevices)
    } else if index >= devices.len() {
        Err(AudioError::InvalidDeviceIndex)
    } else {
        Ok(devices[index].clone())
    }
}

/// The 16 bits of a sample as an unsigned number, in two's complement.
pub open spec fn sample_bits(sample: i16) -> nat {
    if sample >= 0 {
        sample as nat
    } else {
        (sample + 65536) as nat
    }
}

/// The samples as bytes, two for each sample, the low byte first.
pub open spec fn pcm16_le(samples: Seq<i16>) -> Seq<u8> {
    Seq::new(
        2 * samples.len(),
        |i: int|
            if i % 2 == 0 {
                (sample_bits(samples[i / 2]) % 256) as u8
            } else {
                (sample_bits(samples[i / 2]) / 256) as u8
            },
    )
}

/// Encodes samples as little-endian 16-bit PCM.
pub fn pcm16_le_bytes(samples: &Vec<i16>) -> (bytes: Vec<u8>)
    ensures
        bytes@ == pcm16_le(samples@),
{
    let n = samples.len();
    let mut bytes: Vec<u8> = Vec::new();
    let mut i: usize = 0;
    while i < n
        invariant
            i <= n,
            n == samples@.len(),
            bytes@.len() == 2 * i,
            forall|j: int| 0 <= j < 2 * i ==> bytes@[j] == #[trigger] pcm16_le(samples@)[j],
        decreases n - i,
    {
        let sample = samples[i];
        let bits: u32 = if sample >= 0 {
            sample as u32
        } else {
            (sample as i32 + 65536) as u32
        };
        bytes.push((bits % 256) as u8);
        bytes.push((bits / 256) as u8);
        i += 1;
    }
    assert(bytes@ =~= pcm16_le(samples@));
    bytes
}

/// The valve between the device callback and the outbound queue. Frames pass
/// unless capture is paused or the queue was found closed; a closed queue
/// stays closed.
#[derive(Debug, Clone, Copy, PartialEq, Eq, Structural)]
pub struct FrameValve {
    pub channel_closed: bool,
}

impl FrameValve {
    /// A valve in front of an open queue.
    pub fn new() -> (valve: Self)
        ensures
            !valve.channel_closed,
    {
        FrameValve { channel_closed: false }
    }

    /// Whether a frame that arrives now is converted and queued.
    pub fn admits(&self, paused: bool) -> (pass: bool)
        ensures
            pass == (!paused && !self.channel_closed),
    {
        !paused && !self.channel_closed
    }

    /// Records whether queueing a frame succeeded.
    pub fn record_send(&mut self, delivered: bool)
        ensures
            final(self).channel_closed == (old(self).channel_closed || !delivered),
    {
        if !delivered {
            self.channel_closed = true;
        }
    }
}

/// Whether a capture worker keeps its device stream alive: until the
/// application quits or the worker is told to stop.
pub fn keep_capturing(should_stop: bool, worker_stop: bool) -> (keep: bool)
    ensures
        keep == (!should_stop && !worker_stop),
{
    !should_stop && !worker_stop
}

} // verus!
