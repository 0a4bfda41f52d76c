//! What the shim does with a call that the host makes through a dispatch
//! table, and the diagnostic that marks an entry without backing.
use crate::status::HResult;
use crate::xaudio27::table::{Shape, Slot};
use crate::xaudio2::{NativeRef, XAudio2Call};
use vstd::prelude::*;
use vstd::string::*;

verus! {

/// What becomes of a call into an emulated object.
#[derive(Clone, Copy, Debug, PartialEq, Eq, Structural)]
pub enum Dispatch {
    /// The call goes on to the wrapped object of the current
    /// implementation; what that answers is the answer to the host.
    Forward(XAudio2Call),
    /// The shim answers with this status; the wrapped object is not
    /// reached and nothing is logged.
    Reply(HResult),
    /// The entry has no backing in the current implementation: a diagnostic
    /// that names the entry is logged and the call does nothing. An entry
    /// that reports a status reports `status`.
    Unsupported { shape: Shape, slot: Slot, status: Option<HResult> },
}

/// One step of taking an emulated voice down.
#[derive(Clone, Copy, Debug, PartialEq, Eq, Structural)]
pub enum TeardownStep {
    /// Let the current implementation destroy the wrapped voice.
    DestroyInner(XAudio2Call),
    /// Free the record that the host's handle points to.
    FreeRecord,
}

/// The steps that take an emulated voice down, in their order: the wrapped
/// voice goes first, the record that wraps it after it.
pub open spec fn teardown_steps(voice: NativeRef) -> Seq<TeardownStep> {
    seq![TeardownStep::DestroyInner(XAudio2Call::DestroyVoice { voice }), TeardownStep::FreeRecord]
}

/// Lists the steps that take an emulated voice down.
pub fn teardown(voice: NativeRef) -> (r: Vec<TeardownStep>)
    ensures
        r@ == teardown_steps(voice),
{
    let mut steps: Vec<TeardownStep> = Vec::new();
    steps.push(TeardownStep::DestroyInner(XAudio2Call::DestroyVoice { voice }));
    steps.push(TeardownStep::FreeRecord);
    assert(steps@ =~= teardown_steps(voice));
    steps
}

impl Shape {
    /// Name of the legacy interface that objects of the shape answer.
    pub open spec fn spec_interface_name(&self) -> Seq<char> {
        match self {
            Shape::Engine => "IXAudio27"@,
            Shape::SourceVoice => "IXAudio27SourceVoice"@,
            Shape::SubmixVoice => "IXAudio27SubmixVoice"@,
            Shape::MasteringVoice => "IXAudio27MasteringVoice"@,
            Shape::Callbacks => "IXAudio27Callbacks"@,
        }
    }

    /// Name of the legacy interface that objects of the shape answer.
    pub fn interface_name(&self) -> (r: &'static str)
        ensures
            r@ == self.spec_interface_name(),
    {
        match self {
            Shape::Engine => "IXAudio27",
            Shape::SourceVoice => "IXAudio27SourceVoice",
            Shape::SubmixVoice => "IXAudio27SubmixVoice",
            Shape::MasteringVoice => "IXAudio27MasteringVoice",
            Shape::Callbacks => "IXAudio27Callbacks",
        }
    }
}

impl Slot {
    /// Name of the entry in the legacy interface.
    pub open spec fn spec_name(&self) -> Seq<char> {
        match self {
            Slot::QueryInterface => "QueryInterface"@,
            Slot::AddRef => "AddRef"@,
            Slot::Release => "Release"@,
            Slot::GetDeviceCount => "GetDeviceCount"@,
            Slot::GetDeviceDetails => "GetDeviceDetails"@,
            Slot::Initialize => "Initialize"@,
            Slot::RegisterForCallbacks => "RegisterForCallbacks"@,
            Slot::UnregisterForCallbacks => "UnregisterForCallbacks"@,
            Slot::CreateSourceVoice => "CreateSourceVoice"@,
            Slot::CreateSubmixVoice => "CreateSubmixVoice"@,
            Slot::CreateMasteringVoice => "CreateMasteringVoice"@,
            Slot::StartEngine => "StartEngine"@,
            Slot::StopEngine => "StopEngine"@,
            Slot::CommitChanges => "CommitChanges"@,
            Slot::GetPerformanceData => "GetPerformanceData"@,
            Slot::SetDebugConfiguration => "SetDebugConfiguration"@,
            Slot::GetVoiceDetails => "GetVoiceDetails"@,
            Slot::SetOutputVoices => "SetOutputVoices"@,
            Slot::SetEffectChain => "SetEffectChain"@,
            Slot::EnableEffect => "EnableEffect"@,
            Slot::DisableEffect => "DisableEffect"@,
            Slot::GetEffectState => "GetEffectState"@,
            Slot::SetEffectParameters => "SetEffectParameters"@,
            Slot::GetEffectParameters => "GetEffectParameters"@,
            Slot::SetFilterParameters => "SetFilterParameters"@,
            Slot::GetFilterParameters => "GetFilterParameters"@,
            Slot::SetOutputFilterParameters => "SetOutputFilterParameters"@,
            Slot::GetOutputFilterParameters => "GetOutputFilterParameters"@,
            Slot::SetVolume => "SetVolume"@,
            Slot::GetVolume => "GetVolume"@,
            Slot::SetChannelVolumes => "SetChannelVolumes"@,
            Slot::GetChannelVolumes => "GetChannelVolumes"@,
            Slot::SetOutputMatrix => "SetOutputMatrix"@,
            Slot::GetOutputMatrix => "GetOutputMatrix"@,
            Slot::DestroyVoice => "DestroyVoice"@,
            Slot::Start => "Start"@,
            Slot::Stop => "Stop"@,
            Slot::SubmitSourceBuffer => "SubmitSourceBuffer"@,
            Slot::FlushSourceBuffers => "FlushSourceBuffers"@,
            Slot::Discontinuity => "Discontinuity"@,
            Slot::ExitLoop => "ExitLoop"@,
            Slot::GetState => "GetState"@,
            Slot::SetFrequencyRatio => "SetFrequencyRatio"@,
            Slot::GetFrequencyRatio => "GetFrequencyRatio"@,
            Slot::SetSourceSampleRate => "SetSourceSampleRate"@,
            Slot::OnProcessingPassStart => "OnProcessingPassStart"@,
            Slot::OnProcessingPassEnd => "OnProcessingPassEnd"@,
            Slot::OnCriticalError => "OnCriticalError"@,
        }
    }

    /// Name of the entry in the legacy interface.
    pub fn name(&self) -> (r: &'static str)
        ensures
            r@ == self.spec_name(),
    {
        match self {
            Slot::QueryInterface => "QueryInterface",
            Slot::AddRef => "AddRef",
            Slot::Release => "Release",
            Slot::GetDeviceCount => "GetDeviceCount",
            Slot::GetDeviceDetails => "GetDeviceDetails",
            Slot::Initialize => "Initialize",
            Slot::RegisterForCallbacks => "RegisterForCallbacks",
            Slot::UnregisterForCallbacks => "UnregisterForCallbacks",
            Slot::CreateSourceVoice => "CreateSourceVoice",
            Slot::CreateSubmixVoice => "CreateSubmixVoice",
            Slot::CreateMasteringVoice => "CreateMasteringVoice",
            Slot::StartEngine => "StartEngine",
            Slot::StopEngine => "StopEngine",
            Slot::CommitChanges => "CommitChanges",
            Slot::GetPerformanceData => "GetPerformanceData",
            Slot::SetDebugConfiguration => "SetDebugConfiguration",
            Slot::GetVoiceDetails => "GetVoiceDetails",
            Slot::SetOutputVoices => "SetOutputVoices",
            Slot::SetEffectChain => "SetEffectChain",
            Slot::EnableEffect => "EnableEffect",
            Slot::DisableEffect => "DisableEffect",
            Slot::GetEffectState => "GetEffectState",
            Slot::SetEffectParameters => "SetEffectParameters",
            Slot::GetEffectParameters => "GetEffectParameters",
            Slot::SetFilterParameters => "SetFilterParameters",
            Slot::GetFilterParameters => "GetFilterParameters",
            Slot::SetOutputFilterParameters => "SetOutputFilterParameters",
            Slot::GetOutputFilterParameters => "GetOutputFilterParameters",
            Slot::SetVolume => "SetVolume",
            Slot::GetVolume => "GetVolume",
            Slot::SetChannelVolumes => "SetChannelVolumes",
            Slot::GetChannelVolumes => "GetChannelVolumes",
            Slot::SetOutputMatrix => "SetOutputMatrix",
            Slot::GetOutputMatrix => "GetOutputMatrix",
            Slot::DestroyVoice => "DestroyVoice",
            Slot::Start => "Start",
            Slot::Stop => "Stop",
            Slot::SubmitSourceBuffer => "SubmitSourceBuffer",
            Slot::FlushSourceBuffers => "FlushSourceBuffers",
            Slot::Discontinuity => "Discontinuity",
            Slot::ExitLoop => "ExitLoop",
            Slot::GetState => "GetState",
            Slot::SetFrequencyRatio => "SetFrequencyRatio",
            Slot::GetFrequencyRatio => "GetFrequencyRatio",
            Slot::SetSourceSampleRate => "SetSourceSampleRate",
            Slot::OnProcessingPassStart => "OnProcessingPassStart",
            Slot::OnProcessingPassEnd => "OnProcessingPassEnd",
            Slot::OnCriticalError => "OnCriticalError",
        }
    }
}

/// The diagnostic for a call of an entry without backing: it names the
/// interface and the entry.
pub open spec fn stub_text(shape: Shape, slot: Slot) -> Seq<char> {
    "HOOK: unimplemented: "@ + shape.spec_interface_name() + "::"@ + slot.spec_name()
}

/// Writes the diagnostic for a call of an entry without backing.
pub fn stub_message(shape: Shape, slot: Slot) -> (r: String)
    ensures
        r@ == stub_text(shape, slot),
{
    let mut text = String::from_str("HOOK: unimplemented: ");
    text.append(shape.interface_name());
    text.append("::");
    text.append(slot.name());
    text
}

} // verus!
