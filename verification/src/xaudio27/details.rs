//! The records that the legacy interface hands to the host: what a device
//! and what a voice report about themselves.
use crate::status::Guid;
use crate::udk_log::utf16;
use crate::xaudio2::XAudio2VoiceDetails;
use vstd::prelude::*;

verus! {

/// Format tag of uncompressed audio.
pub const WAVE_FORMAT_PCM: u16 = 1;

/// The basic description of an audio format.
#[derive(Clone, Copy, Debug, PartialEq, Eq, Structural)]
pub struct WaveFormatEx {
    pub wFormatTag: u16,
    pub nChannels: u16,
    pub nSamplesPerSec: u32,
    pub nAvgBytesPerSec: u32,
    pub nBlockAlign: u16,
    pub wBitsPerSample: u16,
    pub cbSize: u16,
}

/// The extended description of an audio format.
#[derive(Clone, Copy, Debug, PartialEq, Eq, Structural)]
pub struct WaveFormatExtensible {
    pub Format: WaveFormatEx,
    pub wValidBitsPerSample: u16,
    pub dwChannelMask: u32,
    pub SubFormat: Guid,
}

/// What the legacy engine reports about an audio device.
#[derive(Clone, Copy, Debug)]
pub struct XAudio27DeviceDetails {
    pub DeviceID: [u16; 256],
    pub DisplayName: [u16; 256],
    pub Role: u32,
    pub OutputFormat: WaveFormatExtensible,
}

/// What a legacy voice reports about itself.
#[derive(Clone, Copy, Debug, PartialEq, Eq, Structural)]
pub struct XAudio27VoiceDetails {
    /// Flags the voice was created with.
    pub CreationFlags: u32,
    /// Channels in the voice's input audio.
    pub InputChannels: u32,
    /// Sample rate of the voice's input audio.
    pub InputSampleRate: u32,
}

/// The format in which nothing is set.
pub open spec fn spec_empty_format() -> WaveFormatExtensible {
    WaveFormatExtensible {
        Format: WaveFormatEx {
            wFormatTag: 0,
            nChannels: 0,
            nSamplesPerSec: 0,
            nAvgBytesPerSec: 0,
            nBlockAlign: 0,
            wBitsPerSample: 0,
            cbSize: 0,
        },
        wValidBitsPerSample: 0,
        dwChannelMask: 0,
        SubFormat: Guid(0),
    }
}

/// The format of the one device that the shim presents: 16-bit stereo at
/// 48 kHz.
pub open spec fn spec_device_format() -> WaveFormatExtensible {
    WaveFormatExtensible {
        Format: WaveFormatEx {
            wFormatTag: WAVE_FORMAT_PCM,
            nChannels: 2,
            nSamplesPerSec: 48000,
            nAvgBytesPerSec: 96000,
            nBlockAlign: 4,
            wBitsPerSample: 16,
            cbSize: 22,
        },
        wValidBitsPerSample: 16,
        dwChannelMask: 0x3,
        SubFormat: Guid(0),
    }
}

/// A wide string laid into a field of `n` units: the string, then zeros.
pub open spec fn padded(src: Seq<u16>, n: nat) -> Seq<u16> {
    Seq::new(
        n,
        |i: int|
            if i < src.len() {
                src[i]
            } else {
                0u16
            },
    )
}

/// Lays a wide string into an array of `N` units, zeros behind it. The
/// string must leave room for at least one zero.
pub fn wstr_array<const N: usize>(src: &[u16]) -> (a: [u16; N])
    requires
        src@.len() < N,
    ensures
        a@ == padded(src@, N as nat),
{
    let mut a: [u16; N] = [0u16;N];
    let mut i: usize = 0;
    while i < src.len()
        invariant
            i <= src@.len(),
            src@.len() < N,
            a@.len() == N,
            forall|k: int| 0 <= k < i ==> a@[k] == src@[k],
            forall|k: int| i <= k < N ==> a@[k] == 0u16,
        decreases src@.len() - i,
    {
        a[i] = src[i];
        i += 1;
    }
    assert(a@ =~= padded(src@, N as nat));
    a
}

impl Default for XAudio27DeviceDetails {
    /// The record in which every field is zero.
    fn default() -> (d: XAudio27DeviceDetails)
        ensures
            d.DeviceID@ == padded(Seq::empty(), 256),
            d.DisplayName@ == padded(Seq::empty(), 256),
            d.Role == 0,
            d.OutputFormat == spec_empty_format(),
    {
        let d = XAudio27DeviceDetails {
            DeviceID: [0u16;256],
            DisplayName: [0u16;256],
            Role: 0,
            OutputFormat: WaveFormatExtensible {
                Format: WaveFormatEx {
                    wFormatTag: 0,
                    nChannels: 0,
                    nSamplesPerSec: 0,
                    nAvgBytesPerSec: 0,
                    nBlockAlign: 0,
                    wBitsPerSample: 0,
                    cbSize: 0,
                },
                wValidBitsPerSample: 0,
                dwChannelMask: 0,
                SubFormat: Guid(0),
            },
        };
        assert(d.DeviceID@ =~= padded(Seq::empty(), 256));
        assert(d.DisplayName@ =~= padded(Seq::empty(), 256));
        d
    }
}

/// What a voice of the current implementation reports, in the form that the
/// legacy interface has: the flags that are active now have no place in it.
pub open spec fn spec_voice_details(details: XAudio2VoiceDetails) -> XAudio27VoiceDetails {
    XAudio27VoiceDetails {
        CreationFlags: details.creation_flags,
        InputChannels: details.input_channels,
        InputSampleRate: details.input_sample_rate,
    }
}

/// Translates the details of a current voice for the host.
#[verifier::when_used_as_spec(spec_voice_details)]
pub fn voice_details(details: XAudio2VoiceDetails) -> (r: XAudio27VoiceDetails)
    ensures
        r == spec_voice_details(details),
{
    XAudio27VoiceDetails {
        CreationFlags: details.creation_flags,
        InputChannels: details.input_channels,
        InputSampleRate: details.input_sample_rate,
    }
}

/// The identifier of the one device that the shim presents.
pub open spec fn device_id() -> Seq<u16> {
    utf16("ABC1234"@)
}

/// The display name of the one device that the shim presents.
pub open spec fn device_display_name() -> Seq<u16> {
    utf16("Virtual Audio Device"@)
}

} // verus!
