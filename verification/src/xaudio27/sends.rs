//! Voice handles that travel inside other calls: the destination of an
//! output matrix and the destinations named by a send list. The host names a
//! voice by the handle it was given; the current implementation wants the
//! voice that the handle wraps.
use crate::xaudio2::{NativeRef, XAudio2SendDescriptor};
use vstd::prelude::*;

verus! {

/// A handle to a legacy voice of any kind, as the host passes it back: the
/// record behind the handle holds the voice of the current implementation.
#[derive(Clone, Copy, Debug, PartialEq, Eq, Structural)]
pub struct XAudio27VoiceWrapper(pub NativeRef);

/// One send of a legacy voice.
#[derive(Clone, Copy, Debug, PartialEq, Eq, Structural)]
pub struct XAudio27SendDescriptor {
    /// Either 0 or the flag that asks for a filter on the send.
    pub Flags: u32,
    /// This send's destination voice, which may be absent.
    pub pOutputVoice: Option<XAudio27VoiceWrapper>,
}

/// The sends of a legacy voice, in the host's order.
#[derive(Clone, Debug)]
pub struct XAudio27VoiceSends {
    pub pSends: Vec<XAudio27SendDescriptor>,
}

impl View for XAudio27VoiceSends {
    type V = Seq<XAudio27SendDescriptor>;

    /// The sends as a sequence.
    open spec fn view(&self) -> Seq<XAudio27SendDescriptor> {
        self.pSends@
    }
}

impl XAudio27VoiceWrapper {
    /// The handle to the record that wraps `inner`.
    pub open spec fn spec_wrap(inner: NativeRef) -> XAudio27VoiceWrapper {
        XAudio27VoiceWrapper(inner)
    }

    /// The voice of the current implementation behind the handle.
    pub open spec fn spec_inner(&self) -> NativeRef {
        self.0
    }

    /// Wraps a voice of the current implementation.
    #[verifier::when_used_as_spec(spec_wrap)]
    pub fn wrap(inner: NativeRef) -> (w: XAudio27VoiceWrapper)
        ensures
            w == XAudio27VoiceWrapper::spec_wrap(inner),
    {
        XAudio27VoiceWrapper(inner)
    }

    /// The voice of the current implementation behind the handle.
    #[verifier::when_used_as_spec(spec_inner)]
    pub fn inner(&self) -> (r: NativeRef)
        ensures
            r == self.spec_inner(),
    {
        self.0
    }
}

impl XAudio27VoiceSends {
    /// Number of sends.
    pub fn SendCount(&self) -> (n: usize)
        ensures
            n == self@.len(),
    {
        self.pSends.len()
    }
}

/// The voice of the current implementation that a legacy handle stands
/// for; an absent handle stands for an absent voice.
pub open spec fn spec_translate_voice(voice: Option<XAudio27VoiceWrapper>) -> Option<NativeRef> {
    match voice {
        Some(wrapper) => Some(wrapper.spec_inner()),
        None => None,
    }
}

/// Unwraps a legacy voice handle.
#[verifier::when_used_as_spec(spec_translate_voice)]
pub fn translate_voice(voice: Option<XAudio27VoiceWrapper>) -> (r: Option<NativeRef>)
    ensures
        r == spec_translate_voice(voice),
        r is None <==> voice is None,
{
    match voice {
        Some(wrapper) => Some(wrapper.inner()),
        None => None,
    }
}

/// One legacy send in the form of the current interface: the same flags,
/// the destination unwrapped.
pub open spec fn spec_translate_send(send: XAudio27SendDescriptor) -> XAudio2SendDescriptor {
    XAudio2SendDescriptor {
        flags: send.Flags,
        output_voice: spec_translate_voice(send.pOutputVoice),
    }
}

/// A legacy send list in the form of the current interface: entry for
/// entry, in the same order. No list at all is an empty list.
pub open spec fn spec_translate_send_list(sends: Option<Seq<XAudio27SendDescriptor>>) -> Seq<
    XAudio2SendDescriptor,
> {
    match sends {
        None => Seq::empty(),
        Some(list) => Seq::new(list.len(), |i: int| spec_translate_send(list[i])),
    }
}

/// The view of an optional send list.
pub open spec fn sends_view(sends: Option<&XAudio27VoiceSends>) -> Option<
    Seq<XAudio27SendDescriptor>,
> {
    match sends {
        None => None,
        Some(list) => Some(list@),
    }
}

/// Translates a send list of the host for the current implementation.
/// Every entry is kept, also one without a destination, which stays
/// without one.
pub fn translate_send_list(sends: Option<&XAudio27VoiceSends>) -> (r: Vec<XAudio2SendDescriptor>)
    ensures
        r@ == spec_translate_send_list(sends_view(sends)),
        r@.len() == (match sends {
            Some(list) => list@.len(),
            None => 0,
        }),
        forall|i: int|
            #![trigger r@[i]]
            0 <= i < r@.len() ==> r@[i].flags == sends->0@[i].Flags && (r@[i].output_voice is None
                <==> sends->0@[i].pOutputVoice is None),
{
    let mut sends_out: Vec<XAudio2SendDescriptor> = Vec::new();
    match sends {
        None => {
            assert(sends_out@ =~= spec_translate_send_list(None));
        },
        Some(list) => {
            let n = list.pSends.len();
            let mut i: usize = 0;
            while i < n
                invariant
                    i <= n,
                    n == list@.len(),
                    sends_out@.len() == i,
                    forall|k: int|
                        0 <= k < i ==> sends_out@[k] == spec_translate_send(list@[k]),
                decreases n - i,
            {
                let send = list.pSends[i];
                sends_out.push(
                    XAudio2SendDescriptor {
                        flags: send.Flags,
                        output_voice: translate_voice(send.pOutputVoice),
                    },
                );
                i += 1;
            }
            assert(sends_out@ =~= spec_translate_send_list(Some(list@)));
        },
    }
    sends_out
}

/// Wrapping a voice of the current implementation and unwrapping the handle
/// again gives the voice that was wrapped.
pub proof fn lemma_wrap_unwrap(inner: NativeRef)
    ensures
        spec_translate_voice(Some(XAudio27VoiceWrapper::spec_wrap(inner))) == Some(inner),
        XAudio27VoiceWrapper::spec_wrap(inner).spec_inner() == inner,
{
}

/// A translated send list is as long as the host's list, and an entry
/// without a destination has none after translation either.
pub proof fn lemma_send_list_keeps_every_entry(list: Seq<XAudio27SendDescriptor>, i: int)
    requires
        0 <= i < list.len(),
    ensures
        spec_translate_send_list(Some(list)).len() == list.len(),
        spec_translate_send_list(Some(list))[i].flags == list[i].Flags,
        list[i].pOutputVoice is None ==> spec_translate_send_list(
            Some(list),
        )[i].output_voice is None,
        list[i].pOutputVoice matches Some(wrapper) ==> spec_translate_send_list(
            Some(list),
        )[i].output_voice == Some(wrapper.spec_inner()),
{
}

} // verus!
