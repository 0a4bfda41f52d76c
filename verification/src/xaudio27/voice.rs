//! The voices of the legacy interface. Each wraps one voice of the current
//! implementation and turns every call of the host into what has to happen
//! to that voice.
use crate::status::{HResult, E_FAIL, E_NOTIMPL, S_OK};
use crate::xaudio27::dispatch::{teardown, teardown_steps, Dispatch, TeardownStep};
use crate::xaudio27::sends::{
    spec_translate_voice, translate_voice, XAudio27VoiceSends, XAudio27VoiceWrapper,
};
use crate::xaudio27::table::{Shape, Slot};
use crate::xaudio2::{nullable, spec_nullable, NativeRef, XAudio2Call};
use vstd::prelude::*;

verus! {

/// How a voice of the given shape answers a request for new output voices.
/// A mastering voice has no outputs to set and says so; the other voices
/// have no backing for the request.
pub open spec fn set_output_voices_reply(shape: Shape) -> Dispatch {
    if shape is MasteringVoice {
        Dispatch::Reply(HResult(E_FAIL))
    } else {
        Dispatch::Unsupported { shape, slot: Slot::SetOutputVoices, status: Some(HResult(E_NOTIMPL)) }
    }
}

/// How a voice of the given shape answers a new output matrix: a mastering
/// voice has no backing for it; the other voices hand it on, with the
/// destination unwrapped.
pub open spec fn set_output_matrix_reply(
    shape: Shape,
    voice: NativeRef,
    dest_voice: Option<XAudio27VoiceWrapper>,
    source_channels: u32,
    dest_channels: u32,
    level_matrix: usize,
    operation_set: u32,
) -> Dispatch {
    if shape is MasteringVoice {
        Dispatch::Unsupported { shape, slot: Slot::SetOutputMatrix, status: Some(HResult(E_NOTIMPL)) }
    } else {
        Dispatch::Forward(
            XAudio2Call::SetOutputMatrix {
                voice,
                destination: spec_translate_voice(dest_voice),
                source_channels,
                destination_channels: dest_channels,
                level_matrix,
                operation_set,
            },
        )
    }
}

/// The answer of an entry without backing.
pub open spec fn unsupported(shape: Shape, slot: Slot, reports_status: bool) -> Dispatch {
    Dispatch::Unsupported {
        shape,
        slot,
        status: if reports_status {
            Some(HResult(E_NOTIMPL))
        } else {
            None
        },
    }
}

/// The notifications of the legacy engine, which the host receives.
pub trait IXAudio27Callbacks {
    fn OnProcessingPassStart(&self);

    fn OnProcessingPassEnd(&self);

    fn OnCriticalError(&self, error: HResult);
}

/// The entries that every legacy voice answers, in table order. Parameter
/// blocks are named by their address and handed on untouched; numbers with
/// a fraction travel as their bit pattern.
pub trait IXAudio27Voice {
    /// The voice of the current implementation that this one wraps.
    spec fn inner(&self) -> NativeRef;

    /// The shape of the voice, which fixes its dispatch table.
    spec fn shape(&self) -> Shape;

    /// The details come from the wrapped voice and are translated on the
    /// way back.
    fn GetVoiceDetails(&self) -> (r: Dispatch)
        ensures
            r == Dispatch::Forward(XAudio2Call::GetVoiceDetails { voice: self.inner() }),
    ;

    fn SetOutputVoices(&self, send_list: Option<&XAudio27VoiceSends>) -> (r: Dispatch)
        ensures
            r == set_output_voices_reply(self.shape()),
    ;

    fn SetEffectChain(&self, effect_chain: usize) -> (r: Dispatch)
        ensures
            r == Dispatch::Forward(
                XAudio2Call::SetEffectChain {
                    voice: self.inner(),
                    effect_chain: spec_nullable(effect_chain),
                },
            ),
    ;

    fn EnableEffect(&self, effect_index: u32, operation_set: u32) -> (r: Dispatch)
        ensures
            r == Dispatch::Forward(
                XAudio2Call::EnableEffect { voice: self.inner(), effect_index, operation_set },
            ),
    ;

    fn DisableEffect(&self, effect_index: u32, operation_set: u32) -> (r: Dispatch)
        ensures
            r == Dispatch::Forward(
                XAudio2Call::DisableEffect { voice: self.inner(), effect_index, operation_set },
            ),
    ;

    fn GetEffectState(&self, effect_index: u32, enabled_out: usize) -> (r: Dispatch)
        ensures
            r == Dispatch::Forward(
                XAudio2Call::GetEffectState {
                    voice: self.inner(),
                    effect_index,
                    enabled: enabled_out,
                },
            ),
    ;

    fn SetEffectParameters(
        &self,
        effect_index: u32,
        parameters: usize,
        parameters_len: u32,
        operation_set: u32,
    ) -> (r: Dispatch)
        ensures
            r == Dispatch::Forward(
                XAudio2Call::SetEffectParameters {
                    voice: self.inner(),
                    effect_index,
                    parameters,
                    parameters_byte_size: parameters_len,
                    operation_set,
                },
            ),
    ;

    fn GetEffectParameters(&self, effect_index: u32, parameters_out: usize, parameters_len: u32) -> (r:
        Dispatch)
        ensures
            r == Dispatch::Forward(
                XAudio2Call::GetEffectParameters {
                    voice: self.inner(),
                    effect_index,
                    parameters: parameters_out,
                    parameters_byte_size: parameters_len,
                },
            ),
    ;

    fn SetFilterParameters(&self, parameters: usize, operation_set: u32) -> (r: Dispatch)
        ensures
            r == Dispatch::Forward(
                XAudio2Call::SetFilterParameters { voice: self.inner(), parameters, operation_set },
            ),
    ;

    fn GetFilterParameters(&self, parameters: usize) -> (r: Dispatch)
        ensures
            r == Dispatch::Forward(
                XAudio2Call::GetFilterParameters { voice: self.inner(), parameters },
            ),
    ;

    fn SetOutputFilterParameters(
        &self,
        dest_voice: XAudio27VoiceWrapper,
        parameters: usize,
        operation_set: u32,
    ) -> (r: Dispatch)
        ensures
            r == unsupported(self.shape(), Slot::SetOutputFilterParameters, true),
    ;

    fn GetOutputFilterParameters(&self, dest_voice: XAudio27VoiceWrapper, parameters: usize) -> (r:
        Dispatch)
        ensures
            r == unsupported(self.shape(), Slot::GetOutputFilterParameters, false),
    ;

    fn SetVolume(&self, volume_bits: u32, operation_set: u32) -> (r: Dispatch)
        ensures
            r == Dispatch::Forward(
                XAudio2Call::SetVolume { voice: self.inner(), volume_bits, operation_set },
            ),
    ;

    fn GetVolume(&self, volume: usize) -> (r: Dispatch)
        ensures
            r == Dispatch::Forward(XAudio2Call::GetVolume { voice: self.inner(), volume }),
    ;

    fn SetChannelVolumes(&self, channels: u32, volumes: usize, operation_set: u32) -> (r: Dispatch)
        ensures
            r == Dispatch::Forward(
                XAudio2Call::SetChannelVolumes {
                    voice: self.inner(),
                    channels,
                    volumes,
                    operation_set,
                },
            ),
    ;

    fn GetChannelVolumes(&self, channels: u32, volumes: usize) -> (r: Dispatch)
        ensures
            r == Dispatch::Forward(
                XAudio2Call::GetChannelVolumes { voice: self.inner(), channels, volumes },
            ),
    ;

    fn SetOutputMatrix(
        &self,
        dest_voice: Option<XAudio27VoiceWrapper>,
        source_channels: u32,
        dest_channels: u32,
        level_matrix: usize,
        operation_set: u32,
    ) -> (r: Dispatch)
        ensures
            r == set_output_matrix_reply(
                self.shape(),
                self.inner(),
                dest_voice,
                source_channels,
                dest_channels,
                level_matrix,
                operation_set,
            ),
    ;

    fn GetOutputMatrix(
        &self,
        dest_voice: Option<XAudio27VoiceWrapper>,
        source_channels: u32,
        dest_channels: u32,
        level_matrix: usize,
    ) -> (r: Dispatch)
        ensures
            r == unsupported(self.shape(), Slot::GetOutputMatrix, false),
    ;

    /// The wrapped voice is destroyed first, the record that wraps it is
    /// freed after it.
    fn DestroyVoice(&self) -> (r: Vec<TeardownStep>)
        ensures
            r@ == teardown_steps(self.inner()),
    ;
}

/// The legacy mastering voice: a voice without entries of its own.
pub trait IXAudio27MasteringVoice: IXAudio27Voice {

}

/// The legacy submix voice: a voice without entries of its own.
pub trait IXAudio27SubmixVoice: IXAudio27Voice {

}

/// The legacy source voice: a voice with entries for playback behind those
/// of every voice.
pub trait IXAudio27SourceVoice: IXAudio27Voice {
    fn Start(&self, flags: u32, operation_set: u32) -> (r: Dispatch)
        ensures
            r == Dispatch::Forward(XAudio2Call::Start { voice: self.inner(), flags, operation_set }),
    ;

    fn Stop(&self, flags: u32, operation_set: u32) -> (r: Dispatch)
        ensures
            r == Dispatch::Forward(XAudio2Call::Stop { voice: self.inner(), flags, operation_set }),
    ;

    fn SubmitSourceBuffer(&self, buffer: usize, buffer_wma: usize) -> (r: Dispatch)
        ensures
            r == Dispatch::Forward(
                XAudio2Call::SubmitSourceBuffer {
                    voice: self.inner(),
                    buffer,
                    buffer_wma: spec_nullable(buffer_wma),
                },
            ),
    ;

    fn FlushSourceBuffers(&self) -> (r: Dispatch)
        ensures
            r == Dispatch::Forward(XAudio2Call::FlushSourceBuffers { voice: self.inner() }),
    ;

    fn Discontinuity(&self) -> (r: Dispatch)
        ensures
            r == Dispatch::Forward(XAudio2Call::Discontinuity { voice: self.inner() }),
    ;

    fn ExitLoop(&self, operation_set: u32) -> (r: Dispatch)
        ensures
            r == Dispatch::Forward(XAudio2Call::ExitLoop { voice: self.inner(), operation_set }),
    ;

    /// The state is asked for without flags.
    fn GetState(&self, voice_state: usize) -> (r: Dispatch)
        ensures
            r == Dispatch::Forward(
                XAudio2Call::GetState { voice: self.inner(), voice_state, flags: 0 },
            ),
    ;

    fn SetFrequencyRatio(&self, ratio_bits: u32, operation_set: u32) -> (r: Dispatch)
        ensures
            r == Dispatch::Forward(
                XAudio2Call::SetFrequencyRatio { voice: self.inner(), ratio_bits, operation_set },
            ),
    ;

    fn GetFrequencyRatio(&self, ratio: usize) -> (r: Dispatch)
        ensures
            r == Dispatch::Forward(XAudio2Call::GetFrequencyRatio { voice: self.inner(), ratio }),
    ;

    fn SetSourceSampleRate(&self, new_sample_rate: u32) -> (r: Dispatch)
        ensures
            r == Dispatch::Forward(
                XAudio2Call::SetSourceSampleRate { voice: self.inner(), new_sample_rate },
            ),
    ;
}

/// What the creation of an emulated object came to: the status for the
/// host and, on success, the object whose handle the host receives.
#[derive(Clone, Copy, Debug, PartialEq, Eq, Structural)]
pub struct Created<W> {
    pub status: HResult,
    pub object: Option<W>,
}

/// The legacy mastering voice over a mastering voice of the current
/// implementation.
#[derive(Clone, Copy, Debug, PartialEq, Eq, Structural)]
pub struct XAudio27MasteringVoiceWrapper(pub NativeRef);

impl XAudio27MasteringVoiceWrapper {
    /// What the creation of a mastering voice came to, given what the current
    /// implementation answered: a voice that it created is wrapped and
    /// reported with success; its failure is reported under its own code and
    /// wraps nothing.
    pub open spec fn spec_created(outcome: Result<NativeRef, HResult>) -> Created<XAudio27MasteringVoiceWrapper> {
        match outcome {
            Ok(inner) => Created { status: HResult(S_OK), object: Some(XAudio27MasteringVoiceWrapper(inner)) },
            Err(code) => Created { status: code, object: None },
        }
    }

    /// Finishes the creation of a mastering voice.
    #[verifier::when_used_as_spec(spec_created)]
    pub fn created(outcome: Result<NativeRef, HResult>) -> (r: Created<XAudio27MasteringVoiceWrapper>)
        ensures
            r == XAudio27MasteringVoiceWrapper::spec_created(outcome),
    {
        match outcome {
            Ok(inner) => Created { status: HResult(S_OK), object: Some(XAudio27MasteringVoiceWrapper(inner)) },
            Err(code) => Created { status: code, object: None },
        }
    }

    /// The handle under which the voice is named in the calls of other
    /// voices.
    pub open spec fn spec_as_voice(&self) -> XAudio27VoiceWrapper {
        XAudio27VoiceWrapper(self.0)
    }

    /// The handle under which the voice is named in the calls of other
    /// voices.
    #[verifier::when_used_as_spec(spec_as_voice)]
    pub fn as_voice(&self) -> (r: XAudio27VoiceWrapper)
        ensures
            r == self.spec_as_voice(),
    {
        XAudio27VoiceWrapper(self.0)
    }
}

impl IXAudio27Voice for XAudio27MasteringVoiceWrapper {
    open spec fn inner(&self) -> NativeRef {
        self.0
    }

    open spec fn shape(&self) -> Shape {
        Shape::MasteringVoice
    }

    fn GetVoiceDetails(&self) -> (r: Dispatch) {
        Dispatch::Forward(XAudio2Call::GetVoiceDetails { voice: self.0 })
    }

    fn SetOutputVoices(&self, send_list: Option<&XAudio27VoiceSends>) -> (r: Dispatch) {
        // Invalid for mastering voices.
        Dispatch::Reply(HResult(E_FAIL))
    }

    fn SetEffectChain(&self, effect_chain: usize) -> (r: Dispatch) {
        Dispatch::Forward(
            XAudio2Call::SetEffectChain { voice: self.0, effect_chain: nullable(effect_chain) },
        )
    }

    fn EnableEffect(&self, effect_index: u32, operation_set: u32) -> (r: Dispatch) {
        Dispatch::Forward(XAudio2Call::EnableEffect { voice: self.0, effect_index, operation_set })
    }

    fn DisableEffect(&self, effect_index: u32, operation_set: u32) -> (r: Dispatch) {
        Dispatch::Forward(XAudio2Call::DisableEffect { voice: self.0, effect_index, operation_set })
    }

    fn GetEffectState(&self, effect_index: u32, enabled_out: usize) -> (r: Dispatch) {
        Dispatch::Forward(
            XAudio2Call::GetEffectState { voice: self.0, effect_index, enabled: enabled_out },
        )
    }

    fn SetEffectParameters(
        &self,
        effect_index: u32,
        parameters: usize,
        parameters_len: u32,
        operation_set: u32,
    ) -> (r: Dispatch) {
        Dispatch::Forward(
            XAudio2Call::SetEffectParameters {
                voice: self.0,
                effect_index,
                parameters,
                parameters_byte_size: parameters_len,
                operation_set,
            },
        )
    }

    fn GetEffectParameters(&self, effect_index: u32, parameters_out: usize, parameters_len: u32) -> (r:
        Dispatch) {
        Dispatch::Forward(
            XAudio2Call::GetEffectParameters {
                voice: self.0,
                effect_index,
                parameters: parameters_out,
                parameters_byte_size: parameters_len,
            },
        )
    }

    fn SetFilterParameters(&self, parameters: usize, operation_set: u32) -> (r: Dispatch) {
        Dispatch::Forward(
            XAudio2Call::SetFilterParameters { voice: self.0, parameters, operation_set },
        )
    }

    fn GetFilterParameters(&self, parameters: usize) -> (r: Dispatch) {
        Dispatch::Forward(XAudio2Call::GetFilterParameters { voice: self.0, parameters })
    }

    fn SetOutputFilterParameters(
        &self,
        dest_voice: XAudio27VoiceWrapper,
        parameters: usize,
        operation_set: u32,
    ) -> (r: Dispatch) {
        Dispatch::Unsupported {
            shape: Shape::MasteringVoice,
            slot: Slot::SetOutputFilterParameters,
            status: Some(HResult(E_NOTIMPL)),
        }
    }

    fn GetOutputFilterParameters(&self, dest_voice: XAudio27VoiceWrapper, parameters: usize) -> (r:
        Dispatch) {
        Dispatch::Unsupported {
            shape: Shape::MasteringVoice,
            slot: Slot::GetOutputFilterParameters,
            status: None,
        }
    }

    fn SetVolume(&self, volume_bits: u32, operation_set: u32) -> (r: Dispatch) {
        Dispatch::Forward(XAudio2Call::SetVolume { voice: self.0, volume_bits, operation_set })
    }

    fn GetVolume(&self, volume: usize) -> (r: Dispatch) {
        Dispatch::Forward(XAudio2Call::GetVolume { voice: self.0, volume })
    }

    fn SetChannelVolumes(&self, channels: u32, volumes: usize, operation_set: u32) -> (r: Dispatch) {
        Dispatch::Forward(
            XAudio2Call::SetChannelVolumes { voice: self.0, channels, volumes, operation_set },
        )
    }

    fn GetChannelVolumes(&self, channels: u32, volumes: usize) -> (r: Dispatch) {
        Dispatch::Forward(XAudio2Call::GetChannelVolumes { voice: self.0, channels, volumes })
    }

    fn SetOutputMatrix(
        &self,
        dest_voice: Option<XAudio27VoiceWrapper>,
        source_channels: u32,
        dest_channels: u32,
        level_matrix: usize,
        operation_set: u32,
    ) -> (r: Dispatch) {
        Dispatch::Unsupported {
            shape: Shape::MasteringVoice,
            slot: Slot::SetOutputMatrix,
            status: Some(HResult(E_NOTIMPL)),
        }
    }

    fn GetOutputMatrix(
        &self,
        dest_voice: Option<XAudio27VoiceWrapper>,
        source_channels: u32,
        dest_channels: u32,
        level_matrix: usize,
    ) -> (r: Dispatch) {
        Dispatch::Unsupported { shape: Shape::MasteringVoice, slot: Slot::GetOutputMatrix, status: None }
    }

    fn DestroyVoice(&self) -> (r: Vec<TeardownStep>) {
        teardown(self.0)
    }
}

impl IXAudio27MasteringVoice for XAudio27MasteringVoiceWrapper {

}

/// The legacy submix voice over a submix voice of the current
/// implementation.
#[derive(Clone, Copy, Debug, PartialEq, Eq, Structural)]
pub struct XAudio27SubmixVoiceWrapper(pub NativeRef);

impl XAudio27SubmixVoiceWrapper {
    /// What the creation of a submix voice came to, given what the current
    /// implementation answered: a voice that it created is wrapped and
    /// reported with success; its failure is reported under its own code and
    /// wraps nothing.
    pub open spec fn spec_created(outcome: Result<NativeRef, HResult>) -> Created<XAudio27SubmixVoiceWrapper> {
        match outcome {
            Ok(inner) => Created { status: HResult(S_OK), object: Some(XAudio27SubmixVoiceWrapper(inner)) },
            Err(code) => Created { status: code, object: None },
        }
    }

    /// Finishes the creation of a submix voice.
    #[verifier::when_used_as_spec(spec_created)]
    pub fn created(outcome: Result<NativeRef, HResult>) -> (r: Created<XAudio27SubmixVoiceWrapper>)
        ensures
            r == XAudio27SubmixVoiceWrapper::spec_created(outcome),
    {
        match outcome {
            Ok(inner) => Created { status: HResult(S_OK), object: Some(XAudio27SubmixVoiceWrapper(inner)) },
            Err(code) => Created { status: code, object: None },
        }
    }

    /// The handle under which the voice is named in the calls of other
    /// voices.
    pub open spec fn spec_as_voice(&self) -> XAudio27VoiceWrapper {
        XAudio27VoiceWrapper(self.0)
    }

    /// The handle under which the voice is named in the calls of other
    /// voices.
    #[verifier::when_used_as_spec(spec_as_voice)]
    pub fn as_voice(&self) -> (r: XAudio27VoiceWrapper)
        ensures
            r == self.spec_as_voice(),
    {
        XAudio27VoiceWrapper(self.0)
    }
}

impl IXAudio27Voice for XAudio27SubmixVoiceWrapper {
    open spec fn inner(&self) -> NativeRef {
        self.0
    }

    open spec fn shape(&self) -> Shape {
        Shape::SubmixVoice
    }

    fn GetVoiceDetails(&self) -> (r: Dispatch) {
        Dispatch::Forward(XAudio2Call::GetVoiceDetails { voice: self.0 })
    }

    fn SetOutputVoices(&self, send_list: Option<&XAudio27VoiceSends>) -> (r: Dispatch) {
        Dispatch::Unsupported {
            shape: Shape::SubmixVoice,
            slot: Slot::SetOutputVoices,
            status: Some(HResult(E_NOTIMPL)),
        }
    }

    fn SetEffectChain(&self, effect_chain: usize) -> (r: Dispatch) {
        Dispatch::Forward(
            XAudio2Call::SetEffectChain { voice: self.0, effect_chain: nullable(effect_chain) },
        )
    }

    fn EnableEffect(&self, effect_index: u32, operation_set: u32) -> (r: Dispatch) {
        Dispatch::Forward(XAudio2Call::EnableEffect { voice: self.0, effect_index, operation_set })
    }

    fn DisableEffect(&self, effect_index: u32, operation_set: u32) -> (r: Dispatch) {
        Dispatch::Forward(XAudio2Call::DisableEffect { voice: self.0, effect_index, operation_set })
    }

    fn GetEffectState(&self, effect_index: u32, enabled_out: usize) -> (r: Dispatch) {
        Dispatch::Forward(
            XAudio2Call::GetEffectState { voice: self.0, effect_index, enabled: enabled_out },
        )
    }

    fn SetEffectParameters(
        &self,
        effect_index: u32,
        parameters: usize,
        parameters_len: u32,
        operation_set: u32,
    ) -> (r: Dispatch) {
        Dispatch::Forward(
            XAudio2Call::SetEffectParameters {
                voice: self.0,
                effect_index,
                parameters,
                parameters_byte_size: parameters_len,
                operation_set,
            },
        )
    }

    fn GetEffectParameters(&self, effect_index: u32, parameters_out: usize, parameters_len: u32) -> (r:
        Dispatch) {
        Dispatch::Forward(
            XAudio2Call::GetEffectParameters {
                voice: self.0,
                effect_index,
                parameters: parameters_out,
                parameters_byte_size: parameters_len,
            },
        )
    }

    fn SetFilterParameters(&self, parameters: usize, operation_set: u32) -> (r: Dispatch) {
        Dispatch::Forward(
            XAudio2Call::SetFilterParameters { voice: self.0, parameters, operation_set },
        )
    }

    fn GetFilterParameters(&self, parameters: usize) -> (r: Dispatch) {
        Dispatch::Forward(XAudio2Call::GetFilterParameters { voice: self.0, parameters })
    }

    fn SetOutputFilterParameters(
        &self,
        dest_voice: XAudio27VoiceWrapper,
        parameters: usize,
        operation_set: u32,
    ) -> (r: Dispatch) {
        Dispatch::Unsupported {
            shape: Shape::SubmixVoice,
            slot: Slot::SetOutputFilterParameters,
            status: Some(HResult(E_NOTIMPL)),
        }
    }

    fn GetOutputFilterParameters(&self, dest_voice: XAudio27VoiceWrapper, parameters: usize) -> (r:
        Dispatch) {
        Dispatch::Unsupported {
            shape: Shape::SubmixVoice,
            slot: Slot::GetOutputFilterParameters,
            status: None,
        }
    }

    fn SetVolume(&self, volume_bits: u32, operation_set: u32) -> (r: Dispatch) {
        Dispatch::Forward(XAudio2Call::SetVolume { voice: self.0, volume_bits, operation_set })
    }

    fn GetVolume(&self, volume: usize) -> (r: Dispatch) {
        Dispatch::Forward(XAudio2Call::GetVolume { voice: self.0, volume })
    }

    fn SetChannelVolumes(&self, channels: u32, volumes: usize, operation_set: u32) -> (r: Dispatch) {
        Dispatch::Forward(
            XAudio2Call::SetChannelVolumes { voice: self.0, channels, volumes, operation_set },
        )
    }

    fn GetChannelVolumes(&self, channels: u32, volumes: usize) -> (r: Dispatch) {
        Dispatch::Forward(XAudio2Call::GetChannelVolumes { voice: self.0, channels, volumes })
    }

    fn SetOutputMatrix(
        &self,
        dest_voice: Option<XAudio27VoiceWrapper>,
        source_channels: u32,
        dest_channels: u32,
        level_matrix: usize,
        operation_set: u32,
    ) -> (r: Dispatch) {
        let destination = translate_voice(dest_voice);
        Dispatch::Forward(
            XAudio2Call::SetOutputMatrix {
                voice: self.0,
                destination,
                source_channels,
                destination_channels: dest_channels,
                level_matrix,
                operation_set,
            },
        )
    }

    fn GetOutputMatrix(
        &self,
        dest_voice: Option<XAudio27VoiceWrapper>,
        source_channels: u32,
        dest_channels: u32,
        level_matrix: usize,
    ) -> (r: Dispatch) {
        Dispatch::Unsupported { shape: Shape::SubmixVoice, slot: Slot::GetOutputMatrix, status: None }
    }

    fn DestroyVoice(&self) -> (r: Vec<TeardownStep>) {
        teardown(self.0)
    }
}

impl IXAudio27SubmixVoice for XAudio27SubmixVoiceWrapper {

}

/// The legacy source voice over a source voice of the current
/// implementation.
#[derive(Clone, Copy, Debug, PartialEq, Eq, Structural)]
pub struct XAudio27SourceVoiceWrapper(pub NativeRef);

impl XAudio27SourceVoiceWrapper {
    /// What the creation of a source voice came to, given what the current
    /// implementation answered: a voice that it created is wrapped and
    /// reported with success; its failure is reported under its own code and
    /// wraps nothing.
    pub open spec fn spec_created(outcome: Result<NativeRef, HResult>) -> Created<XAudio27SourceVoiceWrapper> {
        match outcome {
            Ok(inner) => Created { status: HResult(S_OK), object: Some(XAudio27SourceVoiceWrapper(inner)) },
            Err(code) => Created { status: code, object: None },
        }
    }

    /// Finishes the creation of a source voice.
    #[verifier::when_used_as_spec(spec_created)]
    pub fn created(outcome: Result<NativeRef, HResult>) -> (r: Created<XAudio27SourceVoiceWrapper>)
        ensures
            r == XAudio27SourceVoiceWrapper::spec_created(outcome),
    {
        match outcome {
            Ok(inner) => Created { status: HResult(S_OK), object: Some(XAudio27SourceVoiceWrapper(inner)) },
            Err(code) => Created { status: code, object: None },
        }
    }

    /// The handle under which the voice is named in the calls of other
    /// voices.
    pub open spec fn spec_as_voice(&self) -> XAudio27VoiceWrapper {
        XAudio27VoiceWrapper(self.0)
    }

    /// The handle under which the voice is named in the calls of other
    /// voices.
    #[verifier::when_used_as_spec(spec_as_voice)]
    pub fn as_voice(&self) -> (r: XAudio27VoiceWrapper)
        ensures
            r == self.spec_as_voice(),
    {
        XAudio27VoiceWrapper(self.0)
    }
}

impl IXAudio27Voice for XAudio27SourceVoiceWrapper {
    open spec fn inner(&self) -> NativeRef {
        self.0
    }

    open spec fn shape(&self) -> Shape {
        Shape::SourceVoice
    }

    fn GetVoiceDetails(&self) -> (r: Dispatch) {
        Dispatch::Forward(XAudio2Call::GetVoiceDetails { voice: self.0 })
    }

    fn SetOutputVoices(&self, send_list: Option<&XAudio27VoiceSends>) -> (r: Dispatch) {
        Dispatch::Unsupported {
            shape: Shape::SourceVoice,
            slot: Slot::SetOutputVoices,
            status: Some(HResult(E_NOTIMPL)),
        }
    }

    fn SetEffectChain(&self, effect_chain: usize) -> (r: Dispatch) {
        Dispatch::Forward(
            XAudio2Call::SetEffectChain { voice: self.0, effect_chain: nullable(effect_chain) },
        )
    }

    fn EnableEffect(&self, effect_index: u32, operation_set: u32) -> (r: Dispatch) {
        Dispatch::Forward(XAudio2Call::EnableEffect { voice: self.0, effect_index, operation_set })
    }

    fn DisableEffect(&self, effect_index: u32, operation_set: u32) -> (r: Dispatch) {
        Dispatch::Forward(XAudio2Call::DisableEffect { voice: self.0, effect_index, operation_set })
    }

    fn GetEffectState(&self, effect_index: u32, enabled_out: usize) -> (r: Dispatch) {
        Dispatch::Forward(
            XAudio2Call::GetEffectState { voice: self.0, effect_index, enabled: enabled_out },
        )
    }

    fn SetEffectParameters(
        &self,
        effect_index: u32,
        parameters: usize,
        parameters_len: u32,
        operation_set: u32,
    ) -> (r: Dispatch) {
        Dispatch::Forward(
            XAudio2Call::SetEffectParameters {
                voice: self.0,
                effect_index,
                parameters,
                parameters_byte_size: parameters_len,
                operation_set,
            },
        )
    }

    fn GetEffectParameters(&self, effect_index: u32, parameters_out: usize, parameters_len: u32) -> (r:
        Dispatch) {
        Dispatch::Forward(
            XAudio2Call::GetEffectParameters {
                voice: self.0,
                effect_index,
                parameters: parameters_out,
                parameters_byte_size: parameters_len,
            },
        )
    }

    fn SetFilterParameters(&self, parameters: usize, operation_set: u32) -> (r: Dispatch) {
        Dispatch::Forward(
            XAudio2Call::SetFilterParameters { voice: self.0, parameters, operation_set },
        )
    }

    fn GetFilterParameters(&self, parameters: usize) -> (r: Dispatch) {
        Dispatch::Forward(XAudio2Call::GetFilterParameters { voice: self.0, parameters })
    }

    fn SetOutputFilterParameters(
        &self,
        dest_voice: XAudio27VoiceWrapper,
        parameters: usize,
        operation_set: u32,
    ) -> (r: Dispatch) {
        Dispatch::Unsupported {
            shape: Shape::SourceVoice,
            slot: Slot::SetOutputFilterParameters,
            status: Some(HResult(E_NOTIMPL)),
        }
    }

    fn GetOutputFilterParameters(&self, dest_voice: XAudio27VoiceWrapper, parameters: usize) -> (r:
        Dispatch) {
        Dispatch::Unsupported {
            shape: Shape::SourceVoice,
            slot: Slot::GetOutputFilterParameters,
            status: None,
        }
    }

    fn SetVolume(&self, volume_bits: u32, operation_set: u32) -> (r: Dispatch) {
        Dispatch::Forward(XAudio2Call::SetVolume { voice: self.0, volume_bits, operation_set })
    }

    fn GetVolume(&self, volume: usize) -> (r: Dispatch) {
        Dispatch::Forward(XAudio2Call::GetVolume { voice: self.0, volume })
    }

    fn SetChannelVolumes(&self, channels: u32, volumes: usize, operation_set: u32) -> (r: Dispatch) {
        Dispatch::Forward(
            XAudio2Call::SetChannelVolumes { voice: self.0, channels, volumes, operation_set },
        )
    }

    fn GetChannelVolumes(&self, channels: u32, volumes: usize) -> (r: Dispatch) {
        Dispatch::Forward(XAudio2Call::GetChannelVolumes { voice: self.0, channels, volumes })
    }

    fn SetOutputMatrix(
        &self,
        dest_voice: Option<XAudio27VoiceWrapper>,
        source_channels: u32,
        dest_channels: u32,
        level_matrix: usize,
        operation_set: u32,
    ) -> (r: Dispatch) {
        let destination = translate_voice(dest_voice);
        Dispatch::Forward(
            XAudio2Call::SetOutputMatrix {
                voice: self.0,
                destination,
                source_channels,
                destination_channels: dest_channels,
                level_matrix,
                operation_set,
            },
        )
    }

    fn GetOutputMatrix(
        &self,
        dest_voice: Option<XAudio27VoiceWrapper>,
        source_channels: u32,
        dest_channels: u32,
        level_matrix: usize,
    ) -> (r: Dispatch) {
        Dispatch::Unsupported { shape: Shape::SourceVoice, slot: Slot::GetOutputMatrix, status: None }
    }

    fn DestroyVoice(&self) -> (r: Vec<TeardownStep>) {
        teardown(self.0)
    }
}

impl IXAudio27SourceVoice for XAudio27SourceVoiceWrapper {
    fn Start(&self, flags: u32, operation_set: u32) -> (r: Dispatch) {
        Dispatch::Forward(XAudio2Call::Start { voice: self.0, flags, operation_set })
    }

    fn Stop(&self, flags: u32, operation_set: u32) -> (r: Dispatch) {
        Dispatch::Forward(XAudio2Call::Stop { voice: self.0, flags, operation_set })
    }

    fn SubmitSourceBuffer(&self, buffer: usize, buffer_wma: usize) -> (r: Dispatch) {
        Dispatch::Forward(
            XAudio2Call::SubmitSourceBuffer {
                voice: self.0,
                buffer,
                buffer_wma: nullable(buffer_wma),
            },
        )
    }

    fn FlushSourceBuffers(&self) -> (r: Dispatch) {
        Dispatch::Forward(XAudio2Call::FlushSourceBuffers { voice: self.0 })
    }

    fn Discontinuity(&self) -> (r: Dispatch) {
        Dispatch::Forward(XAudio2Call::Discontinuity { voice: self.0 })
    }

    fn ExitLoop(&self, operation_set: u32) -> (r: Dispatch) {
        Dispatch::Forward(XAudio2Call::ExitLoop { voice: self.0, operation_set })
    }

    fn GetState(&self, voice_state: usize) -> (r: Dispatch) {
        Dispatch::Forward(XAudio2Call::GetState { voice: self.0, voice_state, flags: 0 })
    }

    fn SetFrequencyRatio(&self, ratio_bits: u32, operation_set: u32) -> (r: Dispatch) {
        Dispatch::Forward(XAudio2Call::SetFrequencyRatio { voice: self.0, ratio_bits, operation_set })
    }

    fn GetFrequencyRatio(&self, ratio: usize) -> (r: Dispatch) {
        Dispatch::Forward(XAudio2Call::GetFrequencyRatio { voice: self.0, ratio })
    }

    fn SetSourceSampleRate(&self, new_sample_rate: u32) -> (r: Dispatch) {
        Dispatch::Forward(XAudio2Call::SetSourceSampleRate { voice: self.0, new_sample_rate })
    }
}

/// A voice that was wrapped is found again behind its handle: unwrapping
/// the handle of an emulated voice of any kind gives the voice of the
/// current implementation that it was created over.
pub proof fn lemma_created_voice_round_trip(inner: NativeRef)
    ensures
        XAudio27SourceVoiceWrapper::spec_created(Ok(inner)).object matches Some(voice)
            && spec_translate_voice(Some(voice.spec_as_voice())) == Some(inner),
        XAudio27SubmixVoiceWrapper::spec_created(Ok(inner)).object matches Some(voice)
            && spec_translate_voice(Some(voice.spec_as_voice())) == Some(inner),
        XAudio27MasteringVoiceWrapper::spec_created(Ok(inner)).object matches Some(voice)
            && spec_translate_voice(Some(voice.spec_as_voice())) == Some(inner),
{
}

} // verus!
