//! Negotiation of an audio queue's spec.
//!
//! The caller asks for a frequency, a sample format and a channel count, and
//! says which of the three the native layer may change. The native layer
//! answers with the spec it obtained. A field that may not change must come
//! back as it was asked for, else the request has failed. A queue starts
//! paused.

use vstd::prelude::*;

verus! {

/// A native audio sample format code.
#[derive(Debug, Clone, Copy, PartialEq, Eq, Structural)]
pub struct AudioFormat(pub u16);

/// Native flag: the frequency may change.
pub const ALLOW_FREQUENCY_CHANGE: i32 = 1;

/// Native flag: the sample format may change.
pub const ALLOW_FORMAT_CHANGE: i32 = 2;

/// Native flag: the channel count may change.
pub const ALLOW_CHANNELS_CHANGE: i32 = 4;

/// What the caller asks of the default audio device in queue mode.
#[derive(Debug, Clone, Copy, PartialEq, Eq, Structural)]
pub struct DefaultAudioQueueRequest {
    pub frequency: i32,
    pub format: AudioFormat,
    pub channels: u8,
    pub samples: u16,
    pub allow_frequency_change: bool,
    pub allow_format_change: bool,
    pub allow_channels_change: bool,
}

/// The spec that the native layer obtained.
#[derive(Debug, Clone, Copy, PartialEq, Eq, Structural)]
pub struct ObtainedSpec {
    pub frequency: i32,
    pub format: AudioFormat,
    pub channels: u8,
    pub silence: u8,
    pub samples: u16,
    pub size: u32,
}

/// Why an audio queue could not be opened.
#[derive(Debug, Clone, Copy, PartialEq, Eq, Structural)]
pub enum AudioError {
    /// The native layer gave no device.
    OpenFailed,
    /// The frequency changed although that was not allowed.
    FrequencyChanged,
    /// The sample format changed although that was not allowed.
    FormatChanged,
    /// The channel count changed although that was not allowed.
    ChannelsChanged,
}

/// The change-permission mask that the native open call takes.
pub open spec fn spec_change_flags(r: DefaultAudioQueueRequest) -> i32 {
    ((if r.allow_frequency_change {
        ALLOW_FREQUENCY_CHANGE
    } else {
        0
    }) + (if r.allow_format_change {
        ALLOW_FORMAT_CHANGE
    } else {
        0
    }) + (if r.allow_channels_change {
        ALLOW_CHANNELS_CHANGE
    } else {
        0
    })) as i32
}

/// The obtained spec differs from the request only where it may.
pub open spec fn respects_request(r: DefaultAudioQueueRequest, o: ObtainedSpec) -> bool {
    &&& (!r.allow_frequency_change ==> o.frequency == r.frequency)
    &&& (!r.allow_format_change ==> o.format == r.format)
    &&& (!r.allow_channels_change ==> o.channels == r.channels)
}

/// The permission mask of a request.
pub fn change_flags(request: &DefaultAudioQueueRequest) -> (r: i32)
    ensures
        r == spec_change_flags(*request),
{
    let mut changes: i32 = 0;
    if request.allow_frequency_change {
        changes = changes + ALLOW_FREQUENCY_CHANGE;
    }
    if request.allow_format_change {
        changes = changes + ALLOW_FORMAT_CHANGE;
    }
    if request.allow_channels_change {
        changes = changes + ALLOW_CHANNELS_CHANGE;
    }
    changes
}

/// An open audio device in queue mode, with the spec it was opened with.
#[derive(Debug)]
pub struct AudioQueue {
    device: u32,
    obtained: ObtainedSpec,
    paused: bool,
}

impl AudioQueue {
    pub closed spec fn spec_device(&self) -> u32 {
        self.device
    }

    pub closed spec fn spec_obtained(&self) -> ObtainedSpec {
        self.obtained
    }

    pub closed spec fn spec_paused(&self) -> bool {
        self.paused
    }

    /// The outcome of opening a queue: `device` is the id that the native
    /// open call returned (0 when it failed) and `obtained` the spec it
    /// filled in. On success the queue is paused.
    pub fn from_open(request: &DefaultAudioQueueRequest, device: u32, obtained: &ObtainedSpec) -> (r:
        Result<AudioQueue, AudioError>)
        ensures
            device == 0 ==> r == Err::<AudioQueue, AudioError>(AudioError::OpenFailed),
            device != 0 && !request.allow_frequency_change && obtained.frequency
                != request.frequency ==> r == Err::<AudioQueue, AudioError>(
                AudioError::FrequencyChanged,
            ),
            device != 0 && respects_frequency(*request, *obtained)
                && !request.allow_format_change && obtained.format != request.format ==> r
                == Err::<AudioQueue, AudioError>(AudioError::FormatChanged),
            device != 0 && respects_frequency(*request, *obtained) && respects_format(
                *request,
                *obtained,
            ) && !request.allow_channels_change && obtained.channels != request.channels ==> r
                == Err::<AudioQueue, AudioError>(AudioError::ChannelsChanged),
            r is Ok <==> device != 0 && respects_request(*request, *obtained),
            r is Ok ==> r->Ok_0.spec_device() == device && r->Ok_0.spec_obtained() == *obtained
                && r->Ok_0.spec_paused(),
    {
        if device == 0 {
            Err(AudioError::OpenFailed)
        } else if !request.allow_frequency_change && obtained.frequency != request.frequency {
            Err(AudioError::FrequencyChanged)
        } else if !request.allow_format_change && obtained.format.0 != request.format.0 {
            Err(AudioError::FormatChanged)
        } else if !request.allow_channels_change && obtained.channels != request.channels {
            Err(AudioError::ChannelsChanged)
        } else {
            Ok(AudioQueue { device, obtained: *obtained, paused: true })
        }
    }

    /// The native device id.
    pub fn device_id(&self) -> (r: u32)
        ensures
            r == self.spec_device(),
    {
        self.device
    }

    /// The frequency the device plays at.
    pub fn frequency(&self) -> (r: i32)
        ensures
            r == self.spec_obtained().frequency,
    {
        self.obtained.frequency
    }

    /// The sample format the device plays.
    pub fn format(&self) -> (r: AudioFormat)
        ensures
            r == self.spec_obtained().format,
    {
        self.obtained.format
    }

    /// The channel count the device plays.
    pub fn channels(&self) -> (r: u8)
        ensures
            r == self.spec_obtained().channels,
    {
        self.obtained.channels
    }

    /// The value of a silent sample, as the native layer gave it.
    pub fn silence(&self) -> (r: u8)
        ensures
            r == self.spec_obtained().silence,
    {
        self.obtained.silence
    }

    /// Samples per buffer.
    pub fn sample_count(&self) -> (r: usize)
        ensures
            r == self.spec_obtained().samples,
    {
        self.obtained.samples as usize
    }

    /// Bytes per buffer, as the native layer gave it.
    pub fn buffer_size(&self) -> (r: usize)
        ensures
            r == self.spec_obtained().size,
    {
        self.obtained.size as usize
    }

    /// Whether the queue is paused.
    pub fn is_paused(&self) -> (r: bool)
        ensures
            r == self.spec_paused(),
    {
        self.paused
    }

    /// Records that the queue was paused or resumed.
    pub fn set_paused(&mut self, paused: bool)
        ensures
            final(self).spec_paused() == paused,
            final(self).spec_device() == old(self).spec_device(),
            final(self).spec_obtained() == old(self).spec_obtained(),
    {
        self.paused = paused;
    }
}

/// The frequency came back as asked, or it was allowed to change.
pub open spec fn respects_frequency(r: DefaultAudioQueueRequest, o: ObtainedSpec) -> bool {
    !r.allow_frequency_change ==> o.frequency == r.frequency
}

/// The format came back as asked, or it was allowed to change.
pub open spec fn respects_format(r: DefaultAudioQueueRequest, o: ObtainedSpec) -> bool {
    !r.allow_format_change ==> o.format == r.format
}

/// A queue that opened without leave to change its frequency, but with leave
/// to change its format, plays at the frequency asked for, whatever format
/// the native layer settled on.
pub proof fn lemma_fixed_frequency_kept(
    request: DefaultAudioQueueRequest,
    device: u32,
    obtained: ObtainedSpec,
)
    requires
        !request.allow_frequency_change,
        request.allow_format_change,
        device != 0,
        respects_request(request, obtained),
    ensures
        obtained.frequency == request.frequency,
{
}

} // verus!
