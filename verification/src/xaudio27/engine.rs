//! The engine object of the legacy interface, over an engine of the
//! current implementation.
use crate::status::{Guid, HResult, E_NOTIMPL, S_OK};
use crate::udk_log::{is_plain_text, lemma_utf16_of_plain_text, to_wide_c_string, utf16};
use crate::xaudio27::details::{
    device_display_name, device_id, padded, spec_device_format, wstr_array, WaveFormatEx,
    WaveFormatExtensible, XAudio27DeviceDetails, WAVE_FORMAT_PCM,
};
use crate::xaudio27::dispatch::Dispatch;
use crate::xaudio27::sends::{
    sends_view, spec_translate_send_list, translate_send_list, XAudio27SendDescriptor,
    XAudio27VoiceSends,
};
use crate::xaudio27::table::{Shape, Slot};
use crate::xaudio27::voice::unsupported;
use crate::xaudio2::{
    nullable, spec_nullable, NativeRef, XAudio2Call, XAudio2DebugConfiguration,
    XAudio2SendDescriptor, AUDIO_CATEGORY_GAME_MEDIA, NTDDI_WIN10, SOURCE_VOICE_FLAG_MASK,
    XAUDIO2_DEFAULT_PROCESSOR, XAUDIO2_LOG_ERRORS, XAUDIO2_LOG_WARNINGS,
};
use vstd::prelude::*;

verus! {

/// Role mask of the one device that the shim presents: every role.
pub const DEVICE_ROLE: u32 = 0xF;

/// The creation of a source voice by the current implementation.
#[derive(Clone, Debug)]
pub struct CreateSourceVoiceCall {
    pub engine: NativeRef,
    pub source_format: usize,
    pub flags: u32,
    pub max_frequency_ratio_bits: u32,
    pub callback: Option<usize>,
    pub send_list: Option<Vec<XAudio2SendDescriptor>>,
    pub effect_chain: Option<usize>,
}

/// The creation of a submix voice by the current implementation.
#[derive(Clone, Debug)]
pub struct CreateSubmixVoiceCall {
    pub engine: NativeRef,
    pub input_channels: u32,
    pub input_sample_rate: u32,
    pub flags: u32,
    pub processing_stage: u32,
    pub send_list: Option<Vec<XAudio2SendDescriptor>>,
    pub effect_chain: Option<usize>,
}

/// The send list that a voice is created with: none when the host named no
/// send, else the translated sends.
pub open spec fn send_argument(sends: Option<Seq<XAudio27SendDescriptor>>) -> Option<
    Seq<XAudio2SendDescriptor>,
> {
    let translated = spec_translate_send_list(sends);
    if translated.len() == 0 {
        None
    } else {
        Some(translated)
    }
}

/// The view of an optional list of sends.
pub open spec fn send_list_view(sends: Option<Vec<XAudio2SendDescriptor>>) -> Option<
    Seq<XAudio2SendDescriptor>,
> {
    match sends {
        None => None,
        Some(list) => Some(list@),
    }
}

fn translated_sends(send_list: Option<&XAudio27VoiceSends>) -> (r: Option<Vec<XAudio2SendDescriptor>>)
    ensures
        send_list_view(r) == send_argument(sends_view(send_list)),
{
    let sends = translate_send_list(send_list);
    if sends.len() == 0 {
        None
    } else {
        Some(sends)
    }
}

/// The debug settings that the current engine gets when it is created:
/// errors and warnings are traced, with file, line and function.
pub open spec fn spec_debug_settings() -> XAudio2DebugConfiguration {
    XAudio2DebugConfiguration {
        trace_mask: XAUDIO2_LOG_ERRORS | XAUDIO2_LOG_WARNINGS,
        break_mask: 0,
        log_thread_id: false,
        log_fileline: true,
        log_function_name: true,
        log_timing: false,
    }
}

/// Lays a plain text into a name field of the device record.
fn name_field(text: &str) -> (a: [u16; 256])
    requires
        is_plain_text(text@),
        text@.len() < 255,
    ensures
        a@ == padded(utf16(text@), 256),
{
    proof {
        lemma_utf16_of_plain_text(text@);
    }
    match to_wide_c_string(text) {
        Some(units) => {
            let a: [u16; 256] = wstr_array(units.as_slice());
            assert(a@ =~= padded(utf16(text@), 256));
            a
        },
        // A plain text always has a wide form.
        None => [0u16;256],
    }
}

/// The entries of the legacy engine, in table order behind those of
/// `IUnknown`.
pub trait IXAudio27 {
    /// The engine of the current implementation that this one wraps.
    spec fn inner(&self) -> NativeRef;

    /// There is exactly one device.
    fn GetDeviceCount(&self, count: &mut u32) -> (r: HResult)
        ensures
            *final(count) == 1,
            r == HResult(S_OK),
    ;

    /// Whatever the index, the details are those of the one device that
    /// the shim presents.
    fn GetDeviceDetails(&self, index: u32, details: &mut XAudio27DeviceDetails) -> (r: HResult)
        ensures
            r == HResult(S_OK),
            final(details).DeviceID@ == padded(device_id(), 256),
            final(details).DisplayName@ == padded(device_display_name(), 256),
            final(details).Role == DEVICE_ROLE,
            final(details).OutputFormat == spec_device_format(),
    ;

    /// The current engine is ready from its creation on and has no such
    /// entry.
    fn Initialize(&self, flags: u32, processor: u32) -> (r: Dispatch)
        ensures
            r == unsupported(Shape::Engine, Slot::Initialize, true),
    ;

    fn RegisterForCallbacks(&self, callbacks: usize) -> (r: Dispatch)
        ensures
            r == unsupported(Shape::Engine, Slot::RegisterForCallbacks, true),
    ;

    fn UnregisterForCallbacks(&self, callbacks: usize) -> (r: Dispatch)
        ensures
            r == unsupported(Shape::Engine, Slot::UnregisterForCallbacks, true),
    ;

    /// Of the flags only those that the current interface knows are handed
    /// on. The sends are translated entry for entry; an empty list is no
    /// list. Format, callback and effect chain go on as they are.
    fn CreateSourceVoice(
        &self,
        source_format: usize,
        flags: u32,
        max_frequency_ratio_bits: u32,
        callback: usize,
        send_list: Option<&XAudio27VoiceSends>,
        effect_chain: usize,
    ) -> (r: CreateSourceVoiceCall)
        ensures
            r.engine == self.inner(),
            r.source_format == source_format,
            r.flags == flags & SOURCE_VOICE_FLAG_MASK,
            r.max_frequency_ratio_bits == max_frequency_ratio_bits,
            r.callback == spec_nullable(callback),
            send_list_view(r.send_list) == send_argument(sends_view(send_list)),
            r.effect_chain == spec_nullable(effect_chain),
    ;

    /// The sends are translated entry for entry; an empty list is no list.
    /// Everything else goes on as it is.
    fn CreateSubmixVoice(
        &self,
        input_channels: u32,
        input_sample_rate: u32,
        flags: u32,
        processing_stage: u32,
        send_list: Option<&XAudio27VoiceSends>,
        effect_chain: usize,
    ) -> (r: CreateSubmixVoiceCall)
        ensures
            r.engine == self.inner(),
            r.input_channels == input_channels,
            r.input_sample_rate == input_sample_rate,
            r.flags == flags,
            r.processing_stage == processing_stage,
            send_list_view(r.send_list) == send_argument(sends_view(send_list)),
            r.effect_chain == spec_nullable(effect_chain),
    ;

    /// The mastering voice is opened on the default device as game media;
    /// the device index of the host has no meaning any more.
    fn CreateMasteringVoice(
        &self,
        input_channels: u32,
        input_sample_rate: u32,
        flags: u32,
        device_index: u32,
        effect_chain: usize,
    ) -> (r: Dispatch)
        ensures
            r == Dispatch::Forward(
                XAudio2Call::CreateMasteringVoice {
                    engine: self.inner(),
                    input_channels,
                    input_sample_rate,
                    flags,
                    device_id: None,
                    effect_chain: spec_nullable(effect_chain),
                    stream_category: AUDIO_CATEGORY_GAME_MEDIA,
                },
            ),
    ;

    fn StartEngine(&self) -> (r: Dispatch)
        ensures
            r == Dispatch::Forward(XAudio2Call::StartEngine { engine: self.inner() }),
    ;

    fn StopEngine(&self) -> (r: Dispatch)
        ensures
            r == Dispatch::Forward(XAudio2Call::StopEngine { engine: self.inner() }),
    ;

    fn CommitChanges(&self, operation_set: u32) -> (r: Dispatch)
        ensures
            r == Dispatch::Forward(
                XAudio2Call::CommitChanges { engine: self.inner(), operation_set },
            ),
    ;

    fn GetPerformanceData(&self, perf_data_out: usize) -> (r: Dispatch)
        ensures
            r == Dispatch::Forward(
                XAudio2Call::GetPerformanceData { engine: self.inner(), perf_data: perf_data_out },
            ),
    ;

    fn SetDebugConfiguration(&self, debug_configuration: usize, reserved: usize) -> (r: Dispatch)
        ensures
            r == unsupported(Shape::Engine, Slot::SetDebugConfiguration, true),
    ;
}

/// The legacy engine over an engine of the current implementation.
#[derive(Clone, Copy, Debug, PartialEq, Eq, Structural)]
pub struct XAudio27Wrapper(pub NativeRef);

impl XAudio27Wrapper {
    /// The call that creates the engine to wrap: no flags, the default
    /// processor, for the current platform interface.
    pub fn creation_call() -> (r: XAudio2Call)
        ensures
            r == (XAudio2Call::CreateEngine {
                flags: 0,
                processor: XAUDIO2_DEFAULT_PROCESSOR,
                ntddi_version: NTDDI_WIN10,
            }),
    {
        XAudio2Call::CreateEngine {
            flags: 0,
            processor: XAUDIO2_DEFAULT_PROCESSOR,
            ntddi_version: NTDDI_WIN10,
        }
    }

    /// Wraps the engine that the current implementation created, or hands
    /// on the code with which the creation failed.
    pub fn new(created: Result<NativeRef, HResult>) -> (r: Result<XAudio27Wrapper, HResult>)
        ensures
            r == (match created {
                Ok(engine) => Ok::<XAudio27Wrapper, HResult>(XAudio27Wrapper(engine)),
                Err(code) => Err::<XAudio27Wrapper, HResult>(code),
            }),
    {
        match created {
            Ok(engine) => Ok(XAudio27Wrapper(engine)),
            Err(code) => Err(code),
        }
    }

    /// The call that gives a newly wrapped engine its debug settings. What
    /// the engine answers to it does not matter.
    pub fn debug_configuration_call(&self) -> (r: XAudio2Call)
        ensures
            r == (XAudio2Call::SetDebugConfiguration {
                engine: self.0,
                configuration: spec_debug_settings(),
            }),
    {
        XAudio2Call::SetDebugConfiguration {
            engine: self.0,
            configuration: XAudio2DebugConfiguration {
                trace_mask: XAUDIO2_LOG_ERRORS | XAUDIO2_LOG_WARNINGS,
                break_mask: 0,
                log_thread_id: false,
                log_fileline: true,
                log_function_name: true,
                log_timing: false,
            },
        }
    }
}

impl IXAudio27 for XAudio27Wrapper {
    open spec fn inner(&self) -> NativeRef {
        self.0
    }

    fn GetDeviceCount(&self, count: &mut u32) -> (r: HResult) {
        *count = 1;
        HResult(S_OK)
    }

    fn GetDeviceDetails(&self, index: u32, details: &mut XAudio27DeviceDetails) -> (r: HResult) {
        proof {
            reveal_strlit("ABC1234");
            reveal_strlit("Virtual Audio Device");
        }
        let device_id_field = name_field("ABC1234");
        let display_name_field = name_field("Virtual Audio Device");
        *details = XAudio27DeviceDetails {
            DeviceID: device_id_field,
            DisplayName: display_name_field,
            Role: DEVICE_ROLE,
            OutputFormat: WaveFormatExtensible {
                Format: WaveFormatEx {
                    wFormatTag: WAVE_FORMAT_PCM,
                    nChannels: 2,
                    nSamplesPerSec: 48000,
                    nAvgBytesPerSec: 48000 * 2,
                    nBlockAlign: 2 * 2,
                    wBitsPerSample: 16,
                    cbSize: 22,
                },
                wValidBitsPerSample: 16,
                dwChannelMask: 0x3,
                SubFormat: Guid(0),
            },
        };
        HResult(S_OK)
    }

    fn Initialize(&self, flags: u32, processor: u32) -> (r: Dispatch) {
        // Not present in newer versions of XAudio.
        Dispatch::Unsupported {
            shape: Shape::Engine,
            slot: Slot::Initialize,
            status: Some(HResult(E_NOTIMPL)),
        }
    }

    fn RegisterForCallbacks(&self, callbacks: usize) -> (r: Dispatch) {
        Dispatch::Unsupported {
            shape: Shape::Engine,
            slot: Slot::RegisterForCallbacks,
            status: Some(HResult(E_NOTIMPL)),
        }
    }

    fn UnregisterForCallbacks(&self, callbacks: usize) -> (r: Dispatch) {
        Dispatch::Unsupported {
            shape: Shape::Engine,
            slot: Slot::UnregisterForCallbacks,
            status: Some(HResult(E_NOTIMPL)),
        }
    }

    fn CreateSourceVoice(
        &self,
        source_format: usize,
        flags: u32,
        max_frequency_ratio_bits: u32,
        callback: usize,
        send_list: Option<&XAudio27VoiceSends>,
        effect_chain: usize,
    ) -> (r: CreateSourceVoiceCall) {
        CreateSourceVoiceCall {
            engine: self.0,
            source_format,
            flags: flags & SOURCE_VOICE_FLAG_MASK,
            max_frequency_ratio_bits,
            callback: nullable(callback),
            send_list: translated_sends(send_list),
            effect_chain: nullable(effect_chain),
        }
    }

    fn CreateSubmixVoice(
        &self,
        input_channels: u32,
        input_sample_rate: u32,
        flags: u32,
        processing_stage: u32,
        send_list: Option<&XAudio27VoiceSends>,
        effect_chain: usize,
    ) -> (r: CreateSubmixVoiceCall) {
        CreateSubmixVoiceCall {
            engine: self.0,
            input_channels,
            input_sample_rate,
            flags,
            processing_stage,
            send_list: translated_sends(send_list),
            effect_chain: nullable(effect_chain),
        }
    }

    fn CreateMasteringVoice(
        &self,
        input_channels: u32,
        input_sample_rate: u32,
        flags: u32,
        device_index: u32,
        effect_chain: usize,
    ) -> (r: Dispatch) {
        Dispatch::Forward(
            XAudio2Call::CreateMasteringVoice {
                engine: self.0,
                input_channels,
                input_sample_rate,
                flags,
                device_id: None,
                effect_chain: nullable(effect_chain),
                stream_category: AUDIO_CATEGORY_GAME_MEDIA,
            },
        )
    }

    fn StartEngine(&self) -> (r: Dispatch) {
        Dispatch::Forward(XAudio2Call::StartEngine { engine: self.0 })
    }

    fn StopEngine(&self) -> (r: Dispatch) {
        Dispatch::Forward(XAudio2Call::StopEngine { engine: self.0 })
    }

    fn CommitChanges(&self, operation_set: u32) -> (r: Dispatch) {
        Dispatch::Forward(XAudio2Call::CommitChanges { engine: self.0, operation_set })
    }

    fn GetPerformanceData(&self, perf_data_out: usize) -> (r: Dispatch) {
        Dispatch::Forward(XAudio2Call::GetPerformanceData { engine: self.0, perf_data: perf_data_out })
    }

    fn SetDebugConfiguration(&self, debug_configuration: usize, reserved: usize) -> (r: Dispatch) {
        Dispatch::Unsupported {
            shape: Shape::Engine,
            slot: Slot::SetDebugConfiguration,
            status: Some(HResult(E_NOTIMPL)),
        }
    }
}

/// Of the creation flags of a source voice, no bit outside the mask of the
/// current interface is ever handed on, and the bits inside it are kept.
pub proof fn lemma_source_voice_flags_are_masked(flags: u32)
    ensures
        (flags & SOURCE_VOICE_FLAG_MASK) & !SOURCE_VOICE_FLAG_MASK == 0,
        (flags & SOURCE_VOICE_FLAG_MASK) & SOURCE_VOICE_FLAG_MASK == flags & SOURCE_VOICE_FLAG_MASK,
        flags & !SOURCE_VOICE_FLAG_MASK == 0 ==> flags & SOURCE_VOICE_FLAG_MASK == flags,
{
    assert((flags & 0x0Eu32) & !0x0Eu32 == 0) by (bit_vector);
    assert((flags & 0x0Eu32) & 0x0Eu32 == flags & 0x0Eu32) by (bit_vector);
    assert(flags & !0x0Eu32 == 0 ==> flags & 0x0Eu32 == flags) by (bit_vector);
}

} // verus!
