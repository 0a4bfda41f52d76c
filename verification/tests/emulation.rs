use udk_shim::dinput8::{
    directinput8_create, DirectInputRequest, CLSCTX_INPROC_SERVER, CLSID_DIRECTINPUT8,
    IID_IDIRECTINPUT8A, IID_IDIRECTINPUT8W,
};
use udk_shim::dll::{hash_is_known, Arch, UDK_KNOWN_HASH_X86_64};
use udk_shim::status::{Guid, HResult, E_FAIL, E_NOINTERFACE, E_NOTIMPL, S_OK};
use udk_shim::xaudio2::{
    NativeRef, XAudio2Call, XAudio2DebugConfiguration, XAudio2SendDescriptor, XAudio2VoiceDetails,
};
use udk_shim::xaudio27::details::{
    voice_details, wstr_array, WaveFormatEx, WaveFormatExtensible, XAudio27DeviceDetails,
    XAudio27VoiceDetails,
};
use udk_shim::xaudio27::dispatch::{teardown, Dispatch, TeardownStep};
use udk_shim::xaudio27::engine::{IXAudio27, XAudio27Wrapper};
use udk_shim::xaudio27::sends::{
    translate_send_list, translate_voice, XAudio27SendDescriptor, XAudio27VoiceSends,
    XAudio27VoiceWrapper,
};
use udk_shim::xaudio27::table::{Shape, Slot};
use udk_shim::xaudio27::voice::{
    Created, IXAudio27SourceVoice, IXAudio27Voice, XAudio27MasteringVoiceWrapper,
    XAudio27SourceVoiceWrapper, XAudio27SubmixVoiceWrapper,
};

const ENGINE: XAudio27Wrapper = XAudio27Wrapper(NativeRef(0x1000));

fn stub(shape: Shape, slot: Slot) -> Dispatch {
    Dispatch::Unsupported { shape, slot, status: Some(HResult(E_NOTIMPL)) }
}

fn silent_stub(shape: Shape, slot: Slot) -> Dispatch {
    Dispatch::Unsupported { shape, slot, status: None }
}

/// Stands in for the current implementation: a mastering voice that
/// remembers what it was created with.
fn native_mastering_voice(call: XAudio2Call) -> (NativeRef, XAudio2VoiceDetails) {
    match call {
        XAudio2Call::CreateMasteringVoice { input_channels, input_sample_rate, flags, .. } => (
            NativeRef(0x2000),
            XAudio2VoiceDetails {
                creation_flags: flags,
                active_flags: 0x80,
                input_channels,
                input_sample_rate,
            },
        ),
        other => panic!("not a creation: {:?}", other),
    }
}

#[test]
fn mastering_voice_reports_what_it_was_created_with() {
    assert!(hash_is_known(Arch::X86_64, &UDK_KNOWN_HASH_X86_64));
    let call = match ENGINE.CreateMasteringVoice(2, 48000, 0, 0, 0) {
        Dispatch::Forward(call) => call,
        other => panic!("not forwarded: {:?}", other),
    };
    assert_eq!(
        call,
        XAudio2Call::CreateMasteringVoice {
            engine: NativeRef(0x1000),
            input_channels: 2,
            input_sample_rate: 48000,
            flags: 0,
            device_id: None,
            effect_chain: None,
            stream_category: 7,
        }
    );
    let (native, details) = native_mastering_voice(call);
    let created = XAudio27MasteringVoiceWrapper::created(Ok(native));
    assert_eq!(created.status, HResult(S_OK));
    let voice = created.object.unwrap();
    assert_eq!(
        voice.GetVoiceDetails(),
        Dispatch::Forward(XAudio2Call::GetVoiceDetails { voice: native })
    );
    let reported = voice_details(details);
    assert_eq!(
        reported,
        XAudio27VoiceDetails { CreationFlags: 0, InputChannels: 2, InputSampleRate: 48000 }
    );
}

#[test]
fn mastering_voice_keeps_device_index_out_and_effect_chain_in() {
    assert_eq!(
        ENGINE.CreateMasteringVoice(6, 44100, 0x8, 3, 0xABC0),
        Dispatch::Forward(XAudio2Call::CreateMasteringVoice {
            engine: NativeRef(0x1000),
            input_channels: 6,
            input_sample_rate: 44100,
            flags: 0x8,
            device_id: None,
            effect_chain: Some(0xABC0),
            stream_category: 7,
        })
    );
}

#[test]
fn failed_creation_hands_no_object_out() {
    assert_eq!(
        XAudio27MasteringVoiceWrapper::created(Err(HResult(E_FAIL))),
        Created { status: HResult(E_FAIL), object: None }
    );
    assert_eq!(
        XAudio27SourceVoiceWrapper::created(Err(HResult(-2003435519))),
        Created { status: HResult(-2003435519), object: None }
    );
    assert_eq!(
        XAudio27SubmixVoiceWrapper::created(Ok(NativeRef(5))),
        Created { status: HResult(S_OK), object: Some(XAudio27SubmixVoiceWrapper(NativeRef(5))) }
    );
}

#[test]
fn wrapped_voice_is_found_again_behind_its_handle() {
    for address in [1usize, 0x2000, usize::MAX] {
        let native = NativeRef(address);
        assert_eq!(translate_voice(Some(XAudio27VoiceWrapper::wrap(native))), Some(native));
        assert_eq!(XAudio27VoiceWrapper::wrap(native).inner(), native);
        let source = XAudio27SourceVoiceWrapper::created(Ok(native)).object.unwrap();
        assert_eq!(translate_voice(Some(source.as_voice())), Some(native));
        let submix = XAudio27SubmixVoiceWrapper::created(Ok(native)).object.unwrap();
        assert_eq!(translate_voice(Some(submix.as_voice())), Some(native));
        let mastering = XAudio27MasteringVoiceWrapper::created(Ok(native)).object.unwrap();
        assert_eq!(translate_voice(Some(mastering.as_voice())), Some(native));
    }
    assert_eq!(translate_voice(None), None);
}

#[test]
fn send_without_destination_stays_in_the_list() {
    let sends = XAudio27VoiceSends {
        pSends: vec![
            XAudio27SendDescriptor {
                Flags: 0,
                pOutputVoice: Some(XAudio27VoiceWrapper(NativeRef(0x10))),
            },
            XAudio27SendDescriptor { Flags: 0x80, pOutputVoice: None },
            XAudio27SendDescriptor {
                Flags: 0x80,
                pOutputVoice: Some(XAudio27VoiceWrapper(NativeRef(0x30))),
            },
        ],
    };
    assert_eq!(sends.SendCount(), 3);
    assert_eq!(
        translate_send_list(Some(&sends)),
        vec![
            XAudio2SendDescriptor { flags: 0, output_voice: Some(NativeRef(0x10)) },
            XAudio2SendDescriptor { flags: 0x80, output_voice: None },
            XAudio2SendDescriptor { flags: 0x80, output_voice: Some(NativeRef(0x30)) },
        ]
    );
    let lone = XAudio27VoiceSends {
        pSends: vec![XAudio27SendDescriptor { Flags: 0, pOutputVoice: None }],
    };
    assert_eq!(
        translate_send_list(Some(&lone)),
        vec![XAudio2SendDescriptor { flags: 0, output_voice: None }]
    );
    assert_eq!(translate_send_list(None), vec![]);
    assert_eq!(translate_send_list(Some(&XAudio27VoiceSends { pSends: vec![] })), vec![]);
}

#[test]
fn source_voice_is_created_with_the_flags_that_are_still_valid() {
    let sends = XAudio27VoiceSends {
        pSends: vec![XAudio27SendDescriptor { Flags: 0, pOutputVoice: None }],
    };
    let call = ENGINE.CreateSourceVoice(0x500, 0xFFFF_FFFF, 0x4000_0000, 0x600, Some(&sends), 0);
    assert_eq!(call.engine, NativeRef(0x1000));
    assert_eq!(call.source_format, 0x500);
    assert_eq!(call.flags, 0x0E);
    assert_eq!(call.max_frequency_ratio_bits, 0x4000_0000);
    assert_eq!(call.callback, Some(0x600));
    assert_eq!(
        call.send_list,
        Some(vec![XAudio2SendDescriptor { flags: 0, output_voice: None }])
    );
    assert_eq!(call.effect_chain, None);
    let plain = ENGINE.CreateSourceVoice(0x500, 0x19, 0, 0, None, 0x700);
    assert_eq!(plain.flags, 0x08);
    assert_eq!(plain.callback, None);
    assert_eq!(plain.send_list, None);
    assert_eq!(plain.effect_chain, Some(0x700));
    assert_eq!(ENGINE.CreateSourceVoice(0, 0x11, 0, 0, None, 0).flags, 0);
}

#[test]
fn submix_voice_is_created_with_translated_sends() {
    let sends = XAudio27VoiceSends {
        pSends: vec![XAudio27SendDescriptor {
            Flags: 0x80,
            pOutputVoice: Some(XAudio27VoiceWrapper(NativeRef(0x44))),
        }],
    };
    let call = ENGINE.CreateSubmixVoice(2, 44100, 0xFF, 3, Some(&sends), 0x800);
    assert_eq!(call.engine, NativeRef(0x1000));
    assert_eq!(call.input_channels, 2);
    assert_eq!(call.input_sample_rate, 44100);
    assert_eq!(call.flags, 0xFF);
    assert_eq!(call.processing_stage, 3);
    assert_eq!(
        call.send_list,
        Some(vec![XAudio2SendDescriptor { flags: 0x80, output_voice: Some(NativeRef(0x44)) }])
    );
    assert_eq!(call.effect_chain, Some(0x800));
    let empty = XAudio27VoiceSends { pSends: vec![] };
    assert_eq!(ENGINE.CreateSubmixVoice(1, 8000, 0, 0, Some(&empty), 0).send_list, None);
}

#[test]
fn engine_presents_one_synthetic_device() {
    let mut count = 0;
    assert_eq!(ENGINE.GetDeviceCount(&mut count), HResult(S_OK));
    assert_eq!(count, 1);
    for index in [0u32, 1, 99] {
        let mut details = XAudio27DeviceDetails::default();
        assert_eq!(ENGINE.GetDeviceDetails(index, &mut details), HResult(S_OK));
        let id: Vec<u16> = "ABC1234".encode_utf16().collect();
        assert_eq!(&details.DeviceID[..7], &id[..]);
        assert!(details.DeviceID[7..].iter().all(|&unit| unit == 0));
        let name: Vec<u16> = "Virtual Audio Device".encode_utf16().collect();
        assert_eq!(&details.DisplayName[..20], &name[..]);
        assert!(details.DisplayName[20..].iter().all(|&unit| unit == 0));
        assert_eq!(details.Role, 0xF);
        assert_eq!(
            details.OutputFormat,
            WaveFormatExtensible {
                Format: WaveFormatEx {
                    wFormatTag: 1,
                    nChannels: 2,
                    nSamplesPerSec: 48000,
                    nAvgBytesPerSec: 96000,
                    nBlockAlign: 4,
                    wBitsPerSample: 16,
                    cbSize: 22,
                },
                wValidBitsPerSample: 16,
                dwChannelMask: 0x3,
                SubFormat: Guid(0),
            }
        );
    }
}

#[test]
fn default_device_details_are_all_zero() {
    let details = XAudio27DeviceDetails::default();
    assert!(details.DeviceID.iter().all(|&unit| unit == 0));
    assert!(details.DisplayName.iter().all(|&unit| unit == 0));
    assert_eq!(details.Role, 0);
    assert_eq!(details.OutputFormat.Format.nChannels, 0);
    assert_eq!(details.OutputFormat.SubFormat, Guid(0));
}

#[test]
fn wide_string_is_laid_into_an_array_with_zeros_behind() {
    let a: [u16; 4] = wstr_array(&[7, 8, 9]);
    assert_eq!(a, [7, 8, 9, 0]);
    let b: [u16; 4] = wstr_array(&[]);
    assert_eq!(b, [0, 0, 0, 0]);
    let c: [u16; 3] = wstr_array(&[5]);
    assert_eq!(c, [5, 0, 0]);
}

#[test]
fn voice_details_lose_the_active_flags_only() {
    assert_eq!(
        voice_details(XAudio2VoiceDetails {
            creation_flags: 0x0C,
            active_flags: 0x04,
            input_channels: 6,
            input_sample_rate: 44100,
        }),
        XAudio27VoiceDetails { CreationFlags: 0x0C, InputChannels: 6, InputSampleRate: 44100 }
    );
}

#[test]
fn engine_calls_without_backing_are_stubs() {
    assert_eq!(ENGINE.Initialize(0, 1), stub(Shape::Engine, Slot::Initialize));
    assert_eq!(ENGINE.RegisterForCallbacks(0x10), stub(Shape::Engine, Slot::RegisterForCallbacks));
    assert_eq!(
        ENGINE.UnregisterForCallbacks(0x10),
        stub(Shape::Engine, Slot::UnregisterForCallbacks)
    );
    assert_eq!(
        ENGINE.SetDebugConfiguration(0x20, 0),
        stub(Shape::Engine, Slot::SetDebugConfiguration)
    );
}

#[test]
fn engine_calls_with_backing_are_forwarded() {
    let engine = NativeRef(0x1000);
    assert_eq!(ENGINE.StartEngine(), Dispatch::Forward(XAudio2Call::StartEngine { engine }));
    assert_eq!(ENGINE.StopEngine(), Dispatch::Forward(XAudio2Call::StopEngine { engine }));
    assert_eq!(
        ENGINE.CommitChanges(7),
        Dispatch::Forward(XAudio2Call::CommitChanges { engine, operation_set: 7 })
    );
    assert_eq!(
        ENGINE.GetPerformanceData(0x900),
        Dispatch::Forward(XAudio2Call::GetPerformanceData { engine, perf_data: 0x900 })
    );
    assert_eq!(
        ENGINE.debug_configuration_call(),
        XAudio2Call::SetDebugConfiguration {
            engine,
            configuration: XAudio2DebugConfiguration {
                trace_mask: 3,
                break_mask: 0,
                log_thread_id: false,
                log_fileline: true,
                log_function_name: true,
                log_timing: false,
            },
        }
    );
}

#[test]
fn output_matrix_names_the_unwrapped_destination() {
    let source = XAudio27SourceVoiceWrapper(NativeRef(0x10));
    let submix = XAudio27SubmixVoiceWrapper(NativeRef(0x20));
    let mastering = XAudio27MasteringVoiceWrapper(NativeRef(0x30));
    assert_eq!(
        source.SetOutputMatrix(Some(submix.as_voice()), 2, 6, 0x400, 1),
        Dispatch::Forward(XAudio2Call::SetOutputMatrix {
            voice: NativeRef(0x10),
            destination: Some(NativeRef(0x20)),
            source_channels: 2,
            destination_channels: 6,
            level_matrix: 0x400,
            operation_set: 1,
        })
    );
    assert_eq!(
        submix.SetOutputMatrix(None, 1, 2, 0x400, 0),
        Dispatch::Forward(XAudio2Call::SetOutputMatrix {
            voice: NativeRef(0x20),
            destination: None,
            source_channels: 1,
            destination_channels: 2,
            level_matrix: 0x400,
            operation_set: 0,
        })
    );
    assert_eq!(
        mastering.SetOutputMatrix(Some(submix.as_voice()), 2, 2, 0x400, 0),
        stub(Shape::MasteringVoice, Slot::SetOutputMatrix)
    );
}

#[test]
fn output_voices_cannot_be_set() {
    let sends = XAudio27VoiceSends { pSends: vec![] };
    assert_eq!(
        XAudio27MasteringVoiceWrapper(NativeRef(1)).SetOutputVoices(Some(&sends)),
        Dispatch::Reply(HResult(E_FAIL))
    );
    assert_eq!(
        XAudio27SubmixVoiceWrapper(NativeRef(1)).SetOutputVoices(Some(&sends)),
        stub(Shape::SubmixVoice, Slot::SetOutputVoices)
    );
    assert_eq!(
        XAudio27SourceVoiceWrapper(NativeRef(1)).SetOutputVoices(None),
        stub(Shape::SourceVoice, Slot::SetOutputVoices)
    );
}

#[test]
fn voice_calls_without_backing_are_stubs() {
    let voice = XAudio27SourceVoiceWrapper(NativeRef(0x10));
    let other = XAudio27VoiceWrapper(NativeRef(0x20));
    assert_eq!(
        voice.SetOutputFilterParameters(other, 0x100, 0),
        stub(Shape::SourceVoice, Slot::SetOutputFilterParameters)
    );
    assert_eq!(
        voice.GetOutputFilterParameters(other, 0x100),
        silent_stub(Shape::SourceVoice, Slot::GetOutputFilterParameters)
    );
    assert_eq!(
        voice.GetOutputMatrix(Some(other), 2, 2, 0x100),
        silent_stub(Shape::SourceVoice, Slot::GetOutputMatrix)
    );
    let mastering = XAudio27MasteringVoiceWrapper(NativeRef(0x30));
    assert_eq!(
        mastering.SetOutputFilterParameters(other, 0x100, 0),
        stub(Shape::MasteringVoice, Slot::SetOutputFilterParameters)
    );
    let submix = XAudio27SubmixVoiceWrapper(NativeRef(0x40));
    assert_eq!(
        submix.GetOutputMatrix(None, 2, 2, 0),
        silent_stub(Shape::SubmixVoice, Slot::GetOutputMatrix)
    );
}

#[test]
fn voice_calls_with_backing_are_forwarded() {
    let voice = NativeRef(0x40);
    let submix = XAudio27SubmixVoiceWrapper(voice);
    assert_eq!(
        submix.SetEffectChain(0),
        Dispatch::Forward(XAudio2Call::SetEffectChain { voice, effect_chain: None })
    );
    assert_eq!(
        submix.SetEffectChain(0x50),
        Dispatch::Forward(XAudio2Call::SetEffectChain { voice, effect_chain: Some(0x50) })
    );
    assert_eq!(
        submix.EnableEffect(1, 2),
        Dispatch::Forward(XAudio2Call::EnableEffect { voice, effect_index: 1, operation_set: 2 })
    );
    assert_eq!(
        submix.DisableEffect(1, 2),
        Dispatch::Forward(XAudio2Call::DisableEffect { voice, effect_index: 1, operation_set: 2 })
    );
    assert_eq!(
        submix.GetEffectState(3, 0x60),
        Dispatch::Forward(XAudio2Call::GetEffectState { voice, effect_index: 3, enabled: 0x60 })
    );
    assert_eq!(
        submix.SetEffectParameters(1, 0x70, 16, 4),
        Dispatch::Forward(XAudio2Call::SetEffectParameters {
            voice,
            effect_index: 1,
            parameters: 0x70,
            parameters_byte_size: 16,
            operation_set: 4,
        })
    );
    assert_eq!(
        submix.GetEffectParameters(1, 0x70, 16),
        Dispatch::Forward(XAudio2Call::GetEffectParameters {
            voice,
            effect_index: 1,
            parameters: 0x70,
            parameters_byte_size: 16,
        })
    );
    assert_eq!(
        submix.SetFilterParameters(0x80, 5),
        Dispatch::Forward(XAudio2Call::SetFilterParameters {
            voice,
            parameters: 0x80,
            operation_set: 5,
        })
    );
    assert_eq!(
        submix.GetFilterParameters(0x80),
        Dispatch::Forward(XAudio2Call::GetFilterParameters { voice, parameters: 0x80 })
    );
    assert_eq!(
        submix.SetVolume(0x3F80_0000, 6),
        Dispatch::Forward(XAudio2Call::SetVolume {
            voice,
            volume_bits: 0x3F80_0000,
            operation_set: 6,
        })
    );
    assert_eq!(
        submix.GetVolume(0x90),
        Dispatch::Forward(XAudio2Call::GetVolume { voice, volume: 0x90 })
    );
    assert_eq!(
        submix.SetChannelVolumes(2, 0xA0, 7),
        Dispatch::Forward(XAudio2Call::SetChannelVolumes {
            voice,
            channels: 2,
            volumes: 0xA0,
            operation_set: 7,
        })
    );
    assert_eq!(
        submix.GetChannelVolumes(2, 0xA0),
        Dispatch::Forward(XAudio2Call::GetChannelVolumes { voice, channels: 2, volumes: 0xA0 })
    );
}

#[test]
fn source_voice_playback_is_forwarded() {
    let voice = NativeRef(0x10);
    let source = XAudio27SourceVoiceWrapper(voice);
    assert_eq!(
        source.Start(0, 1),
        Dispatch::Forward(XAudio2Call::Start { voice, flags: 0, operation_set: 1 })
    );
    assert_eq!(
        source.Stop(0x20, 1),
        Dispatch::Forward(XAudio2Call::Stop { voice, flags: 0x20, operation_set: 1 })
    );
    assert_eq!(
        source.SubmitSourceBuffer(0x100, 0),
        Dispatch::Forward(XAudio2Call::SubmitSourceBuffer {
            voice,
            buffer: 0x100,
            buffer_wma: None,
        })
    );
    assert_eq!(
        source.SubmitSourceBuffer(0x100, 0x200),
        Dispatch::Forward(XAudio2Call::SubmitSourceBuffer {
            voice,
            buffer: 0x100,
            buffer_wma: Some(0x200),
        })
    );
    assert_eq!(
        source.FlushSourceBuffers(),
        Dispatch::Forward(XAudio2Call::FlushSourceBuffers { voice })
    );
    assert_eq!(source.Discontinuity(), Dispatch::Forward(XAudio2Call::Discontinuity { voice }));
    assert_eq!(
        source.ExitLoop(3),
        Dispatch::Forward(XAudio2Call::ExitLoop { voice, operation_set: 3 })
    );
    assert_eq!(
        source.GetState(0x300),
        Dispatch::Forward(XAudio2Call::GetState { voice, voice_state: 0x300, flags: 0 })
    );
    assert_eq!(
        source.SetFrequencyRatio(0x3F00_0000, 2),
        Dispatch::Forward(XAudio2Call::SetFrequencyRatio {
            voice,
            ratio_bits: 0x3F00_0000,
            operation_set: 2,
        })
    );
    assert_eq!(
        source.GetFrequencyRatio(0x400),
        Dispatch::Forward(XAudio2Call::GetFrequencyRatio { voice, ratio: 0x400 })
    );
    assert_eq!(
        source.SetSourceSampleRate(22050),
        Dispatch::Forward(XAudio2Call::SetSourceSampleRate { voice, new_sample_rate: 22050 })
    );
}

#[test]
fn voice_is_destroyed_before_its_record_is_freed() {
    let steps = vec![
        TeardownStep::DestroyInner(XAudio2Call::DestroyVoice { voice: NativeRef(0x10) }),
        TeardownStep::FreeRecord,
    ];
    assert_eq!(XAudio27SourceVoiceWrapper(NativeRef(0x10)).DestroyVoice(), steps);
    assert_eq!(XAudio27SubmixVoiceWrapper(NativeRef(0x10)).DestroyVoice(), steps);
    assert_eq!(XAudio27MasteringVoiceWrapper(NativeRef(0x10)).DestroyVoice(), steps);
    assert_eq!(teardown(NativeRef(0x10)), steps);
}

#[test]
fn input_object_is_created_for_the_two_known_interfaces() {
    for iid in [IID_IDIRECTINPUT8A, IID_IDIRECTINPUT8W] {
        assert_eq!(
            directinput8_create(0x400000, 0x0800, Some(Guid(iid)), None),
            Ok(DirectInputRequest {
                clsid: Guid(CLSID_DIRECTINPUT8),
                iid: Guid(iid),
                outer: None,
                context: CLSCTX_INPROC_SERVER,
                initialize: true,
            })
        );
        assert_eq!(
            directinput8_create(0x400000, 0x0800, Some(Guid(iid)), Some(0x10)),
            Ok(DirectInputRequest {
                clsid: Guid(CLSID_DIRECTINPUT8),
                iid: Guid(iid),
                outer: Some(0x10),
                context: 1,
                initialize: false,
            })
        );
    }
    assert_eq!(IID_IDIRECTINPUT8A, 0xbf798030_483a_4da2_aa99_5d64ed369700);
    assert_eq!(IID_IDIRECTINPUT8W, 0xbf798031_483a_4da2_aa99_5d64ed369700);
    assert_eq!(CLSID_DIRECTINPUT8, 0x25e609e4_b259_11cf_bfc7_444553540000);
}

#[test]
fn input_object_is_refused_for_any_other_interface() {
    assert_eq!(
        directinput8_create(0, 0x0800, Some(Guid(IID_IDIRECTINPUT8A + 2)), None),
        Err(HResult(E_NOINTERFACE))
    );
    assert_eq!(directinput8_create(0, 0x0800, Some(Guid(0)), None), Err(HResult(E_NOINTERFACE)));
    assert_eq!(directinput8_create(0, 0x0800, None, None), Err(HResult(E_NOINTERFACE)));
}
