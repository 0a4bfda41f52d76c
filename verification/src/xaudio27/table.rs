//! The dispatch tables of the legacy interfaces: for each shape of object
//! that the host holds, the entries of its table in the order in which the
//! host expects them. The order is part of the interface: the host calls an
//! entry by its position.
use vstd::prelude::*;

verus! {

/// Number of entries that every voice table begins with.
pub const VOICE_SLOTS: usize = 19;

/// The shapes of object that the host reaches through a dispatch table.
#[derive(Clone, Copy, Debug, PartialEq, Eq, Structural)]
pub enum Shape {
    /// The engine object.
    Engine,
    /// A voice that takes audio from the host.
    SourceVoice,
    /// A voice that mixes other voices.
    SubmixVoice,
    /// The voice that feeds the audio device.
    MasteringVoice,
    /// The sink for the engine's notifications, which the host supplies.
    Callbacks,
}

/// The entries of the legacy dispatch tables.
#[derive(Clone, Copy, Debug, PartialEq, Eq, Structural)]
pub enum Slot {
    QueryInterface,
    AddRef,
    Release,
    GetDeviceCount,
    GetDeviceDetails,
    Initialize,
    RegisterForCallbacks,
    UnregisterForCallbacks,
    CreateSourceVoice,
    CreateSubmixVoice,
    CreateMasteringVoice,
    StartEngine,
    StopEngine,
    CommitChanges,
    GetPerformanceData,
    SetDebugConfiguration,
    GetVoiceDetails,
    SetOutputVoices,
    SetEffectChain,
    EnableEffect,
    DisableEffect,
    GetEffectState,
    SetEffectParameters,
    GetEffectParameters,
    SetFilterParameters,
    GetFilterParameters,
    SetOutputFilterParameters,
    GetOutputFilterParameters,
    SetVolume,
    GetVolume,
    SetChannelVolumes,
    GetChannelVolumes,
    SetOutputMatrix,
    GetOutputMatrix,
    DestroyVoice,
    Start,
    Stop,
    SubmitSourceBuffer,
    FlushSourceBuffers,
    Discontinuity,
    ExitLoop,
    GetState,
    SetFrequencyRatio,
    GetFrequencyRatio,
    SetSourceSampleRate,
    OnProcessingPassStart,
    OnProcessingPassEnd,
    OnCriticalError,
}

/// The entries that every voice answers, in table order.
pub open spec fn voice_slots() -> Seq<Slot> {
    seq![
        Slot::GetVoiceDetails,
        Slot::SetOutputVoices,
        Slot::SetEffectChain,
        Slot::EnableEffect,
        Slot::DisableEffect,
        Slot::GetEffectState,
        Slot::SetEffectParameters,
        Slot::GetEffectParameters,
        Slot::SetFilterParameters,
        Slot::GetFilterParameters,
        Slot::SetOutputFilterParameters,
        Slot::GetOutputFilterParameters,
        Slot::SetVolume,
        Slot::GetVolume,
        Slot::SetChannelVolumes,
        Slot::GetChannelVolumes,
        Slot::SetOutputMatrix,
        Slot::GetOutputMatrix,
        Slot::DestroyVoice,
    ]
}

/// The entries that only a source voice answers, in table order.
pub open spec fn source_voice_slots() -> Seq<Slot> {
    seq![
        Slot::Start,
        Slot::Stop,
        Slot::SubmitSourceBuffer,
        Slot::FlushSourceBuffers,
        Slot::Discontinuity,
        Slot::ExitLoop,
        Slot::GetState,
        Slot::SetFrequencyRatio,
        Slot::GetFrequencyRatio,
        Slot::SetSourceSampleRate,
    ]
}

/// The entries of the engine's table, in table order.
pub open spec fn engine_slots() -> Seq<Slot> {
    seq![
        Slot::QueryInterface,
        Slot::AddRef,
        Slot::Release,
        Slot::GetDeviceCount,
        Slot::GetDeviceDetails,
        Slot::Initialize,
        Slot::RegisterForCallbacks,
        Slot::UnregisterForCallbacks,
        Slot::CreateSourceVoice,
        Slot::CreateSubmixVoice,
        Slot::CreateMasteringVoice,
        Slot::StartEngine,
        Slot::StopEngine,
        Slot::CommitChanges,
        Slot::GetPerformanceData,
        Slot::SetDebugConfiguration,
    ]
}

/// The entries of the notification sink's table, in table order.
pub open spec fn callback_slots() -> Seq<Slot> {
    seq![
        Slot::OnProcessingPassStart,
        Slot::OnProcessingPassEnd,
        Slot::OnCriticalError,
    ]
}

/// The dispatch table of a shape: its entries in the order of the legacy
/// interface.
pub open spec fn slots(shape: Shape) -> Seq<Slot> {
    match shape {
        Shape::Engine => engine_slots(),
        Shape::SourceVoice => voice_slots() + source_voice_slots(),
        Shape::SubmixVoice => voice_slots(),
        Shape::MasteringVoice => voice_slots(),
        Shape::Callbacks => callback_slots(),
    }
}

impl Shape {
    /// Whether objects of the shape are voices.
    pub open spec fn spec_is_voice(&self) -> bool {
        *self is SourceVoice || *self is SubmixVoice || *self is MasteringVoice
    }

    /// Whether objects of the shape are voices.
    #[verifier::when_used_as_spec(spec_is_voice)]
    pub fn is_voice(&self) -> (r: bool)
        ensures
            r == self.spec_is_voice(),
    {
        match self {
            Shape::SourceVoice | Shape::SubmixVoice | Shape::MasteringVoice => true,
            Shape::Engine | Shape::Callbacks => false,
        }
    }
}

fn push_voice_slots(t: &mut Vec<Slot>)
    ensures
        final(t)@ == old(t)@ + voice_slots(),
{
    t.push(Slot::GetVoiceDetails);
    t.push(Slot::SetOutputVoices);
    t.push(Slot::SetEffectChain);
    t.push(Slot::EnableEffect);
    t.push(Slot::DisableEffect);
    t.push(Slot::GetEffectState);
    t.push(Slot::SetEffectParameters);
    t.push(Slot::GetEffectParameters);
    t.push(Slot::SetFilterParameters);
    t.push(Slot::GetFilterParameters);
    t.push(Slot::SetOutputFilterParameters);
    t.push(Slot::GetOutputFilterParameters);
    t.push(Slot::SetVolume);
    t.push(Slot::GetVolume);
    t.push(Slot::SetChannelVolumes);
    t.push(Slot::GetChannelVolumes);
    t.push(Slot::SetOutputMatrix);
    t.push(Slot::GetOutputMatrix);
    t.push(Slot::DestroyVoice);
    assert(t@ =~= old(t)@ + voice_slots());
}

/// Builds the dispatch table of a shape. The table is the same on every
/// call: it is built once and never changed.
pub fn dispatch_table(shape: Shape) -> (t: Vec<Slot>)
    ensures
        t@ == slots(shape),
{
    let mut t: Vec<Slot> = Vec::new();
    match shape {
        Shape::Engine => {
            t.push(Slot::QueryInterface);
            t.push(Slot::AddRef);
            t.push(Slot::Release);
            t.push(Slot::GetDeviceCount);
            t.push(Slot::GetDeviceDetails);
            t.push(Slot::Initialize);
            t.push(Slot::RegisterForCallbacks);
            t.push(Slot::UnregisterForCallbacks);
            t.push(Slot::CreateSourceVoice);
            t.push(Slot::CreateSubmixVoice);
            t.push(Slot::CreateMasteringVoice);
            t.push(Slot::StartEngine);
            t.push(Slot::StopEngine);
            t.push(Slot::CommitChanges);
            t.push(Slot::GetPerformanceData);
            t.push(Slot::SetDebugConfiguration);
            assert(t@ =~= engine_slots());
        },
        Shape::SourceVoice => {
            push_voice_slots(&mut t);
            let ghost head = t@;
            t.push(Slot::Start);
            t.push(Slot::Stop);
            t.push(Slot::SubmitSourceBuffer);
            t.push(Slot::FlushSourceBuffers);
            t.push(Slot::Discontinuity);
            t.push(Slot::ExitLoop);
            t.push(Slot::GetState);
            t.push(Slot::SetFrequencyRatio);
            t.push(Slot::GetFrequencyRatio);
            t.push(Slot::SetSourceSampleRate);
            assert(t@ =~= head + source_voice_slots());
        },
        Shape::SubmixVoice => {
            push_voice_slots(&mut t);
        },
        Shape::MasteringVoice => {
            push_voice_slots(&mut t);
        },
        Shape::Callbacks => {
            t.push(Slot::OnProcessingPassStart);
            t.push(Slot::OnProcessingPassEnd);
            t.push(Slot::OnCriticalError);
            assert(t@ =~= callback_slots());
        },
    }
    t
}

/// The position of an entry among those that every voice answers.
pub open spec fn voice_position(slot: Slot) -> Option<nat> {
    match slot {
        Slot::GetVoiceDetails => Some(0),
        Slot::SetOutputVoices => Some(1),
        Slot::SetEffectChain => Some(2),
        Slot::EnableEffect => Some(3),
        Slot::DisableEffect => Some(4),
        Slot::GetEffectState => Some(5),
        Slot::SetEffectParameters => Some(6),
        Slot::GetEffectParameters => Some(7),
        Slot::SetFilterParameters => Some(8),
        Slot::GetFilterParameters => Some(9),
        Slot::SetOutputFilterParameters => Some(10),
        Slot::GetOutputFilterParameters => Some(11),
        Slot::SetVolume => Some(12),
        Slot::GetVolume => Some(13),
        Slot::SetChannelVolumes => Some(14),
        Slot::GetChannelVolumes => Some(15),
        Slot::SetOutputMatrix => Some(16),
        Slot::GetOutputMatrix => Some(17),
        Slot::DestroyVoice => Some(18),
        _ => None,
    }
}

/// The position of an entry in the table of a shape, if the table has it.
pub open spec fn position(shape: Shape, slot: Slot) -> Option<nat> {
    match shape {
        Shape::Engine => match slot {
            Slot::QueryInterface => Some(0),
            Slot::AddRef => Some(1),
            Slot::Release => Some(2),
            Slot::GetDeviceCount => Some(3),
            Slot::GetDeviceDetails => Some(4),
            Slot::Initialize => Some(5),
            Slot::RegisterForCallbacks => Some(6),
            Slot::UnregisterForCallbacks => Some(7),
            Slot::CreateSourceVoice => Some(8),
            Slot::CreateSubmixVoice => Some(9),
            Slot::CreateMasteringVoice => Some(10),
            Slot::StartEngine => Some(11),
            Slot::StopEngine => Some(12),
            Slot::CommitChanges => Some(13),
            Slot::GetPerformanceData => Some(14),
            Slot::SetDebugConfiguration => Some(15),
            _ => None,
        },
        Shape::SourceVoice => match slot {
            Slot::Start => Some(19),
            Slot::Stop => Some(20),
            Slot::SubmitSourceBuffer => Some(21),
            Slot::FlushSourceBuffers => Some(22),
            Slot::Discontinuity => Some(23),
            Slot::ExitLoop => Some(24),
            Slot::GetState => Some(25),
            Slot::SetFrequencyRatio => Some(26),
            Slot::GetFrequencyRatio => Some(27),
            Slot::SetSourceSampleRate => Some(28),
            _ => voice_position(slot),
        },
        Shape::SubmixVoice => voice_position(slot),
        Shape::MasteringVoice => voice_position(slot),
        Shape::Callbacks => match slot {
            Slot::OnProcessingPassStart => Some(0),
            Slot::OnProcessingPassEnd => Some(1),
            Slot::OnCriticalError => Some(2),
            _ => None,
        },
    }
}

fn voice_slot_index(slot: Slot) -> (r: Option<usize>)
    ensures
        (match r {
            Some(i) => voice_position(slot) == Some(i as nat),
            None => voice_position(slot) is None,
        }),
{
    match slot {
        Slot::GetVoiceDetails => Some(0),
        Slot::SetOutputVoices => Some(1),
        Slot::SetEffectChain => Some(2),
        Slot::EnableEffect => Some(3),
        Slot::DisableEffect => Some(4),
        Slot::GetEffectState => Some(5),
        Slot::SetEffectParameters => Some(6),
        Slot::GetEffectParameters => Some(7),
        Slot::SetFilterParameters => Some(8),
        Slot::GetFilterParameters => Some(9),
        Slot::SetOutputFilterParameters => Some(10),
        Slot::GetOutputFilterParameters => Some(11),
        Slot::SetVolume => Some(12),
        Slot::GetVolume => Some(13),
        Slot::SetChannelVolumes => Some(14),
        Slot::GetChannelVolumes => Some(15),
        Slot::SetOutputMatrix => Some(16),
        Slot::GetOutputMatrix => Some(17),
        Slot::DestroyVoice => Some(18),
        _ => None,
    }
}

/// Finds the position of an entry in the table of a shape.
pub fn slot_index(shape: Shape, slot: Slot) -> (r: Option<usize>)
    ensures
        (match r {
            Some(i) => position(shape, slot) == Some(i as nat) && i < slots(shape).len()
                && slots(shape)[i as int] == slot,
            None => position(shape, slot) is None && !slots(shape).contains(slot),
        }),
{
    proof {
        lemma_position_is_index(shape, slot);
    }
    match shape {
        Shape::Engine => match slot {
            Slot::QueryInterface => Some(0),
            Slot::AddRef => Some(1),
            Slot::Release => Some(2),
            Slot::GetDeviceCount => Some(3),
            Slot::GetDeviceDetails => Some(4),
            Slot::Initialize => Some(5),
            Slot::RegisterForCallbacks => Some(6),
            Slot::UnregisterForCallbacks => Some(7),
            Slot::CreateSourceVoice => Some(8),
            Slot::CreateSubmixVoice => Some(9),
            Slot::CreateMasteringVoice => Some(10),
            Slot::StartEngine => Some(11),
            Slot::StopEngine => Some(12),
            Slot::CommitChanges => Some(13),
            Slot::GetPerformanceData => Some(14),
            Slot::SetDebugConfiguration => Some(15),
            _ => None,
        },
        Shape::SourceVoice => match slot {
            Slot::Start => Some(19),
            Slot::Stop => Some(20),
            Slot::SubmitSourceBuffer => Some(21),
            Slot::FlushSourceBuffers => Some(22),
            Slot::Discontinuity => Some(23),
            Slot::ExitLoop => Some(24),
            Slot::GetState => Some(25),
            Slot::SetFrequencyRatio => Some(26),
            Slot::GetFrequencyRatio => Some(27),
            Slot::SetSourceSampleRate => Some(28),
            _ => voice_slot_index(slot),
        },
        Shape::SubmixVoice => voice_slot_index(slot),
        Shape::MasteringVoice => voice_slot_index(slot),
        Shape::Callbacks => match slot {
            Slot::OnProcessingPassStart => Some(0),
            Slot::OnProcessingPassEnd => Some(1),
            Slot::OnCriticalError => Some(2),
            _ => None,
        },
    }
}

/// An entry stands in a table at exactly the position that `position`
/// gives: the tables hold no entry twice, and an entry without a position
/// is not in the table.
pub proof fn lemma_position_is_index(shape: Shape, slot: Slot)
    ensures
        (match position(shape, slot) {
            Some(i) => i < slots(shape).len() && slots(shape)[i as int] == slot,
            None => !slots(shape).contains(slot),
        }),
        forall|i: int|
            0 <= i < slots(shape).len() && slots(shape)[i] == slot ==> position(shape, slot)
                == Some(i as nat),
{
    let table = slots(shape);
    assert forall|i: int| 0 <= i < table.len() implies position(shape, #[trigger] table[i])
        == Some(i as nat) by {
        lemma_table_positions(shape, i);
    }
    if position(shape, slot) is None {
        if table.contains(slot) {
            let i = choose|i: int| 0 <= i < table.len() && table[i] == slot;
            assert(position(shape, table[i]) == Some(i as nat));
        }
    } else {
        lemma_position_in_table(shape, slot);
    }
}

proof fn lemma_table_positions(shape: Shape, i: int)
    requires
        0 <= i < slots(shape).len(),
    ensures
        position(shape, slots(shape)[i]) == Some(i as nat),
{
    lemma_table_lengths();
    if shape is SourceVoice && i >= 19 {
        assert(slots(shape)[i] == source_voice_slots()[i - 19]);
    } else if shape is SourceVoice {
        assert(slots(shape)[i] == voice_slots()[i]);
    }
}

proof fn lemma_position_in_table(shape: Shape, slot: Slot)
    requires
        position(shape, slot) is Some,
    ensures
        position(shape, slot)->0 < slots(shape).len(),
        slots(shape)[position(shape, slot)->0 as int] == slot,
{
    lemma_table_lengths();
    let i = position(shape, slot)->0 as int;
    if shape is SourceVoice && i >= 19 {
        assert(slots(shape)[i] == source_voice_slots()[i - 19]);
    } else if shape is SourceVoice {
        assert(slots(shape)[i] == voice_slots()[i]);
    }
}

/// The tables have the sizes that the legacy interfaces fix.
pub proof fn lemma_table_lengths()
    ensures
        slots(Shape::Engine).len() == 16,
        slots(Shape::SourceVoice).len() == 29,
        slots(Shape::SubmixVoice).len() == 19,
        slots(Shape::MasteringVoice).len() == 19,
        slots(Shape::Callbacks).len() == 3,
        voice_slots().len() == VOICE_SLOTS,
{
}

/// The table of every voice begins with the same entries in the same
/// order, so a handle to any voice can be read as a handle to a plain
/// voice.
pub proof fn lemma_voice_tables_share_a_prefix(shape: Shape)
    requires
        shape.spec_is_voice(),
    ensures
        slots(shape).len() >= VOICE_SLOTS,
        slots(shape).subrange(0, VOICE_SLOTS as int) == voice_slots(),
{
    lemma_table_lengths();
    assert(slots(shape).subrange(0, VOICE_SLOTS as int) =~= voice_slots());
}

} // verus!
