//! A compatibility shim that lets a host built against the XAudio 2.7
//! interface run on the current XAudio2 implementation.
//!
//! The crate holds the decisions of the shim: which host image is trusted,
//! where hooks go, what each legacy call turns into. Everything that touches
//! process memory or the operating system stays with the caller, which hands
//! in plain values and carries out the actions it gets back.
#![allow(non_snake_case)]
#![allow(non_camel_case_types)]

pub mod dinput8;
pub mod dll;
pub mod hook;
pub mod status;
pub mod udk_log;
pub mod udk_offsets;
pub mod udk_xaudio;
pub mod xaudio2;
pub mod xaudio27;

use crate::dll::ImageCache;
use crate::udk_offsets::OffsetTable;
use crate::udk_xaudio::{
    hooks_after_init, init_reply, Hooks, InitError, InitEvent, InitRequest, Replacements,
};
use vstd::prelude::*;

verus! {

/// Runs once the host has finished its own start-up, and again after each
/// thing that had to happen outside: takes the setup of the hooks of the
/// audio emulation one step further.
pub fn post_udk_init(
    cache: &ImageCache,
    table: &OffsetTable,
    hooks: &mut Hooks,
    replacements: Replacements,
    event: InitEvent,
) -> (r: Result<InitRequest, InitError>)
    requires
        cache.wf(),
    ensures
        r == init_reply(cache@, *table, old(hooks)@, replacements, event),
        final(hooks)@ == hooks_after_init(cache@, *table, old(hooks)@, replacements, event),
        r matches Ok(InitRequest::Commit(_)) ==> final(hooks)@.all_enabled(),
{
    udk_xaudio::init(cache, table, hooks, replacements, event)
}

} // verus!
