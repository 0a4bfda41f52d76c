//! The calls that the shim makes into the current XAudio2 implementation,
//! written down as plain data. Whoever owns the real objects carries a call
//! out and reports what came back.
use crate::status::{Guid, HResult, S_OK};
use vstd::prelude::*;

verus! {

/// Processor on which the current engine runs by default.
pub const XAUDIO2_DEFAULT_PROCESSOR: u32 = 1;

/// Version of the platform interface that the current engine is created for.
pub const NTDDI_WIN10: u32 = 0x0A00_0000;

/// Trace bit: log errors.
pub const XAUDIO2_LOG_ERRORS: u32 = 1;

/// Trace bit: log warnings.
pub const XAUDIO2_LOG_WARNINGS: u32 = 2;

/// Stream category under which the mastering voice is opened.
pub const AUDIO_CATEGORY_GAME_MEDIA: i32 = 7;

/// The creation flags of a source voice that the current interface still knows.
pub const SOURCE_VOICE_FLAG_MASK: u32 = 0x0E;

/// An object of the current implementation, named by its address.
#[derive(Clone, Copy, Debug, PartialEq, Eq, Structural)]
pub struct NativeRef(pub usize);

/// One send of a voice, as the current interface takes it.
#[derive(Clone, Copy, Debug, PartialEq, Eq, Structural)]
pub struct XAudio2SendDescriptor {
    pub flags: u32,
    pub output_voice: Option<NativeRef>,
}

/// What a voice of the current implementation reports about itself.
#[derive(Clone, Copy, Debug, PartialEq, Eq, Structural)]
pub struct XAudio2VoiceDetails {
    pub creation_flags: u32,
    pub active_flags: u32,
    pub input_channels: u32,
    pub input_sample_rate: u32,
}

/// Debug settings of the current engine.
#[derive(Clone, Copy, Debug, PartialEq, Eq, Structural)]
pub struct XAudio2DebugConfiguration {
    pub trace_mask: u32,
    pub break_mask: u32,
    pub log_thread_id: bool,
    pub log_fileline: bool,
    pub log_function_name: bool,
    pub log_timing: bool,
}

/// A call into the current implementation. Addresses of parameter blocks are
/// handed on as they came: their layout is the same on both sides. Numbers
/// with a fraction travel as their bit pattern.
#[derive(Clone, Copy, Debug, PartialEq, Eq, Structural)]
pub enum XAudio2Call {
    CreateFX { clsid: Guid, effect: usize, init_data: Option<usize>, init_data_byte_size: u32 },
    CreateEngine { flags: u32, processor: u32, ntddi_version: u32 },
    SetDebugConfiguration { engine: NativeRef, configuration: XAudio2DebugConfiguration },
    CreateMasteringVoice {
        engine: NativeRef,
        input_channels: u32,
        input_sample_rate: u32,
        flags: u32,
        device_id: Option<usize>,
        effect_chain: Option<usize>,
        stream_category: i32,
    },
    StartEngine { engine: NativeRef },
    StopEngine { engine: NativeRef },
    CommitChanges { engine: NativeRef, operation_set: u32 },
    GetPerformanceData { engine: NativeRef, perf_data: usize },
    GetVoiceDetails { voice: NativeRef },
    SetEffectChain { voice: NativeRef, effect_chain: Option<usize> },
    EnableEffect { voice: NativeRef, effect_index: u32, operation_set: u32 },
    DisableEffect { voice: NativeRef, effect_index: u32, operation_set: u32 },
    GetEffectState { voice: NativeRef, effect_index: u32, enabled: usize },
    SetEffectParameters {
        voice: NativeRef,
        effect_index: u32,
        parameters: usize,
        parameters_byte_size: u32,
        operation_set: u32,
    },
    GetEffectParameters {
        voice: NativeRef,
        effect_index: u32,
        parameters: usize,
        parameters_byte_size: u32,
    },
    SetFilterParameters { voice: NativeRef, parameters: usize, operation_set: u32 },
    GetFilterParameters { voice: NativeRef, parameters: usize },
    SetVolume { voice: NativeRef, volume_bits: u32, operation_set: u32 },
    GetVolume { voice: NativeRef, volume: usize },
    SetChannelVolumes { voice: NativeRef, channels: u32, volumes: usize, operation_set: u32 },
    GetChannelVolumes { voice: NativeRef, channels: u32, volumes: usize },
    SetOutputMatrix {
        voice: NativeRef,
        destination: Option<NativeRef>,
        source_channels: u32,
        destination_channels: u32,
        level_matrix: usize,
        operation_set: u32,
    },
    DestroyVoice { voice: NativeRef },
    Start { voice: NativeRef, flags: u32, operation_set: u32 },
    Stop { voice: NativeRef, flags: u32, operation_set: u32 },
    SubmitSourceBuffer { voice: NativeRef, buffer: usize, buffer_wma: Option<usize> },
    FlushSourceBuffers { voice: NativeRef },
    Discontinuity { voice: NativeRef },
    ExitLoop { voice: NativeRef, operation_set: u32 },
    GetState { voice: NativeRef, voice_state: usize, flags: u32 },
    SetFrequencyRatio { voice: NativeRef, ratio_bits: u32, operation_set: u32 },
    GetFrequencyRatio { voice: NativeRef, ratio: usize },
    SetSourceSampleRate { voice: NativeRef, new_sample_rate: u32 },
}

/// An absent pointer is written as address zero by the host.
pub open spec fn spec_nullable(address: usize) -> Option<usize> {
    if address == 0 {
        None
    } else {
        Some(address)
    }
}

/// Turns a pointer of the host, where zero means "absent", into an optional
/// address.
#[verifier::when_used_as_spec(spec_nullable)]
pub fn nullable(address: usize) -> (r: Option<usize>)
    ensures
        r == spec_nullable(address),
{
    if address == 0 {
        None
    } else {
        Some(address)
    }
}

/// The status that the host sees for an outcome of the current
/// implementation: success as `S_OK`, a failure as its own code.
pub open spec fn spec_legacy_status(outcome: Result<(), HResult>) -> HResult {
    match outcome {
        Ok(_) => HResult(S_OK),
        Err(code) => code,
    }
}

/// Reports an outcome of the current implementation in the convention of the
/// legacy interface.
#[verifier::when_used_as_spec(spec_legacy_status)]
pub fn legacy_status(outcome: Result<(), HResult>) -> (r: HResult)
    ensures
        r == spec_legacy_status(outcome),
{
    match outcome {
        Ok(_) => HResult(S_OK),
        Err(code) => code,
    }
}

} // verus!
