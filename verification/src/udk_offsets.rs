//! Where the points of interest lie in the host's image: offsets from the
//! image's base, one table for each supported build of the host.
use crate::dll::Arch;
use vstd::prelude::*;

verus! {

/// Offset of the host's log object in the 64-bit build.
pub const DEBUG_LOG_OFFSET_X86_64: usize = 0x0355_1720;

/// Offset of the host's log function in the 64-bit build.
pub const DEBUG_FN_OFFSET_X86_64: usize = 0x0024_6A20;

/// Offset of the host's log object in the 32-bit build.
pub const DEBUG_LOG_OFFSET_X86: usize = 0x029A_31A8;

/// Offset of the host's log function in the 32-bit build.
pub const DEBUG_FN_OFFSET_X86: usize = 0x0021_C500;

/// Offset of the host's copy of the engine-creation function.
pub const UDK_XAUDIO2CREATE_OFFSET: usize = 0x0170_F4D0;

/// Offset of the slot that holds the address of the effect-creation entry.
pub const UDK_CREATEFX_PTR_OFFSET: usize = 0x024B_E8B0;

/// The points of the host's image that the shim reaches for.
#[derive(Clone, Copy, Debug, PartialEq, Eq, Structural)]
pub enum LogicalName {
    /// The host's log object.
    DebugLog,
    /// The host's log function.
    DebugFn,
    /// The host's copy of the engine-creation function.
    XAudio2Create,
    /// The slot that holds the address of the effect-creation entry.
    CreateFxPtr,
}

/// A table from logical names to offsets from the image's base. A name may
/// be without an entry.
#[derive(Clone, Copy, Debug, PartialEq, Eq, Structural)]
pub struct OffsetTable {
    pub debug_log: Option<usize>,
    pub debug_fn: Option<usize>,
    pub xaudio2_create: Option<usize>,
    pub createfx_ptr: Option<usize>,
}

impl View for OffsetTable {
    type V = Map<LogicalName, usize>;

    /// The table as a finite map.
    open spec fn view(&self) -> Map<LogicalName, usize> {
        Map::new(
            |name: LogicalName| self.spec_offset(name) is Some,
            |name: LogicalName| self.spec_offset(name)->0,
        )
    }
}

impl OffsetTable {
    /// The offset entered for a name, if there is one.
    pub open spec fn spec_offset(&self, name: LogicalName) -> Option<usize> {
        match name {
            LogicalName::DebugLog => self.debug_log,
            LogicalName::DebugFn => self.debug_fn,
            LogicalName::XAudio2Create => self.xaudio2_create,
            LogicalName::CreateFxPtr => self.createfx_ptr,
        }
    }

    /// The table of a supported host build.
    pub open spec fn spec_for_arch(arch: Arch) -> OffsetTable {
        match arch {
            Arch::X86 => OffsetTable {
                debug_log: Some(DEBUG_LOG_OFFSET_X86),
                debug_fn: Some(DEBUG_FN_OFFSET_X86),
                xaudio2_create: Some(UDK_XAUDIO2CREATE_OFFSET),
                createfx_ptr: Some(UDK_CREATEFX_PTR_OFFSET),
            },
            Arch::X86_64 => OffsetTable {
                debug_log: Some(DEBUG_LOG_OFFSET_X86_64),
                debug_fn: Some(DEBUG_FN_OFFSET_X86_64),
                xaudio2_create: Some(UDK_XAUDIO2CREATE_OFFSET),
                createfx_ptr: Some(UDK_CREATEFX_PTR_OFFSET),
            },
        }
    }

    /// A table without entries.
    pub fn empty() -> (t: OffsetTable)
        ensures
            t@ == Map::<LogicalName, usize>::empty(),
            forall|name: LogicalName| t.spec_offset(name) is None,
    {
        let t = OffsetTable { debug_log: None, debug_fn: None, xaudio2_create: None, createfx_ptr: None };
        assert(t@ =~= Map::<LogicalName, usize>::empty());
        t
    }

    /// The table of a supported host build.
    #[verifier::when_used_as_spec(spec_for_arch)]
    pub fn for_arch(arch: Arch) -> (t: OffsetTable)
        ensures
            t == OffsetTable::spec_for_arch(arch),
            forall|name: LogicalName| t.spec_offset(name) is Some,
    {
        match arch {
            Arch::X86 => OffsetTable {
                debug_log: Some(DEBUG_LOG_OFFSET_X86),
                debug_fn: Some(DEBUG_FN_OFFSET_X86),
                xaudio2_create: Some(UDK_XAUDIO2CREATE_OFFSET),
                createfx_ptr: Some(UDK_CREATEFX_PTR_OFFSET),
            },
            Arch::X86_64 => OffsetTable {
                debug_log: Some(DEBUG_LOG_OFFSET_X86_64),
                debug_fn: Some(DEBUG_FN_OFFSET_X86_64),
                xaudio2_create: Some(UDK_XAUDIO2CREATE_OFFSET),
                createfx_ptr: Some(UDK_CREATEFX_PTR_OFFSET),
            },
        }
    }

    /// The offset entered for a name, if there is one.
    #[verifier::when_used_as_spec(spec_offset)]
    pub fn offset(&self, name: LogicalName) -> (r: Option<usize>)
        ensures
            r == self.spec_offset(name),
            r is Some <==> self@.dom().contains(name),
            r matches Some(offset) ==> self@[name] == offset,
    {
        match name {
            LogicalName::DebugLog => self.debug_log,
            LogicalName::DebugFn => self.debug_fn,
            LogicalName::XAudio2Create => self.xaudio2_create,
            LogicalName::CreateFxPtr => self.createfx_ptr,
        }
    }
}

} // verus!
