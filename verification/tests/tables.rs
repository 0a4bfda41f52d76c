use udk_shim::xaudio27::table::{dispatch_table, slot_index, Shape, Slot, VOICE_SLOTS};

const VOICE: [Slot; 19] = [
    Slot::GetVoiceDetails,
    Slot::SetOutputVoices,
    Slot::SetEffectChain,
    Slot::EnableEffect,
    Slot::DisableEffect,
    Slot::GetEffectState,
    Slot::SetEffectParameters,
    Slot::GetEffectParameters,
    Slot::SetFilterParameters,
    Slot::GetFilterParameters,
    Slot::SetOutputFilterParameters,
    Slot::GetOutputFilterParameters,
    Slot::SetVolume,
    Slot::GetVolume,
    Slot::SetChannelVolumes,
    Slot::GetChannelVolumes,
    Slot::SetOutputMatrix,
    Slot::GetOutputMatrix,
    Slot::DestroyVoice,
];

const SHAPES: [Shape; 5] = [
    Shape::Engine,
    Shape::SourceVoice,
    Shape::SubmixVoice,
    Shape::MasteringVoice,
    Shape::Callbacks,
];

#[test]
fn engine_table_follows_the_legacy_interface() {
    assert_eq!(
        dispatch_table(Shape::Engine),
        vec![
            Slot::QueryInterface,
            Slot::AddRef,
            Slot::Release,
            Slot::GetDeviceCount,
            Slot::GetDeviceDetails,
            Slot::Initialize,
            Slot::RegisterForCallbacks,
            Slot::UnregisterForCallbacks,
            Slot::CreateSourceVoice,
            Slot::CreateSubmixVoice,
            Slot::CreateMasteringVoice,
            Slot::StartEngine,
            Slot::StopEngine,
            Slot::CommitChanges,
            Slot::GetPerformanceData,
            Slot::SetDebugConfiguration,
        ]
    );
}

#[test]
fn voice_tables_follow_the_legacy_interface() {
    assert_eq!(VOICE_SLOTS, 19);
    assert_eq!(dispatch_table(Shape::SubmixVoice), VOICE.to_vec());
    assert_eq!(dispatch_table(Shape::MasteringVoice), VOICE.to_vec());
    let source = dispatch_table(Shape::SourceVoice);
    assert_eq!(source.len(), 29);
    assert_eq!(&source[..19], &VOICE[..]);
    assert_eq!(
        &source[19..],
        &[
            Slot::Start,
            Slot::Stop,
            Slot::SubmitSourceBuffer,
            Slot::FlushSourceBuffers,
            Slot::Discontinuity,
            Slot::ExitLoop,
            Slot::GetState,
            Slot::SetFrequencyRatio,
            Slot::GetFrequencyRatio,
            Slot::SetSourceSampleRate,
        ]
    );
}

#[test]
fn callback_table_follows_the_legacy_interface() {
    assert_eq!(
        dispatch_table(Shape::Callbacks),
        vec![Slot::OnProcessingPassStart, Slot::OnProcessingPassEnd, Slot::OnCriticalError]
    );
}

#[test]
fn every_entry_is_found_at_its_position() {
    for shape in SHAPES {
        let table = dispatch_table(shape);
        for (i, slot) in table.iter().enumerate() {
            assert_eq!(slot_index(shape, *slot), Some(i));
        }
        assert_eq!(dispatch_table(shape), table);
    }
}

#[test]
fn entries_of_other_interfaces_have_no_position() {
    assert_eq!(slot_index(Shape::Engine, Slot::DestroyVoice), None);
    assert_eq!(slot_index(Shape::SubmixVoice, Slot::Start), None);
    assert_eq!(slot_index(Shape::MasteringVoice, Slot::QueryInterface), None);
    assert_eq!(slot_index(Shape::Callbacks, Slot::GetVoiceDetails), None);
    assert_eq!(slot_index(Shape::SourceVoice, Slot::OnCriticalError), None);
    assert_eq!(slot_index(Shape::SourceVoice, Slot::SetSourceSampleRate), Some(28));
    assert_eq!(slot_index(Shape::Engine, Slot::GetDeviceCount), Some(3));
}

#[test]
fn voices_are_told_from_other_shapes() {
    assert!(Shape::SourceVoice.is_voice());
    assert!(Shape::SubmixVoice.is_voice());
    assert!(Shape::MasteringVoice.is_voice());
    assert!(!Shape::Engine.is_voice());
    assert!(!Shape::Callbacks.is_voice());
}
