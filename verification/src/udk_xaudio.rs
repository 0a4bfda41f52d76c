//! The two entry points that the host is redirected to: creation of an
//! effect by identifier, and creation of the engine.
use crate::dll::{
    attach_outcome, identity_verdict, known_hash, range_in_file, record_after, Arch, HostImage,
    ImageCache, ModuleInfo,
};
use crate::hook::{
    spec_locate, HookAction, HookError, HookHandle, HookState, HookView, PatchState, PatchView,
    PointerPatch, SlotWrite, POINTER_SLOT_SPAN,
};
use crate::status::{Guid, HResult, E_NOINTERFACE, S_OK};
use crate::udk_log::LogType;
use crate::udk_offsets::{LogicalName, OffsetTable};
use crate::xaudio27::engine::{spec_debug_settings, XAudio27Wrapper};
use crate::xaudio2::{NativeRef, XAudio2Call};
use vstd::prelude::*;

verus! {

/// Identifier of the equalizer effect in the legacy effect library.
pub const OLD_FXEQ: u128 = 0xA90BC001_E897_E897_7439_4355_0000_0000;

/// Identifier of the mastering limiter in the legacy effect library.
pub const OLD_FXMASTERINGLIMITER: u128 = 0xA90BC001_E897_E897_7439_4355_0000_0001;

/// Identifier of the reverb effect in the legacy effect library.
pub const OLD_FXREVERB: u128 = 0xA90BC001_E897_E897_7439_4355_0000_0002;

/// Identifier of the echo effect in the legacy effect library.
pub const OLD_FXECHO: u128 = 0xA90BC001_E897_E897_7439_4355_0000_0003;

/// Identifier of the equalizer effect in the current effect library.
pub const FXEQ: u128 = 0xF5E01117_D6C4_485A_A3F5_6951_96F3_DBFA;

/// Identifier of the mastering limiter in the current effect library.
pub const FXMASTERINGLIMITER: u128 = 0xC4137916_2BE1_46FD_8599_4415_36F4_9856;

/// Identifier of the reverb effect in the current effect library.
pub const FXREVERB: u128 = 0x7D9ACA56_CB68_4807_B632_B137_352E_8596;

/// Identifier of the echo effect in the current effect library.
pub const FXECHO: u128 = 0x5039D740_F736_449A_84D3_A562_0255_7B87;

/// The identifier translation table: the current identifier of each legacy
/// effect. Entries are exact; an identifier that is not listed has none.
pub open spec fn effect_translation(legacy: Guid) -> Option<Guid> {
    if legacy.0 == OLD_FXEQ {
        Some(Guid(FXEQ))
    } else if legacy.0 == OLD_FXMASTERINGLIMITER {
        Some(Guid(FXMASTERINGLIMITER))
    } else if legacy.0 == OLD_FXREVERB {
        Some(Guid(FXREVERB))
    } else if legacy.0 == OLD_FXECHO {
        Some(Guid(FXECHO))
    } else {
        None
    }
}

/// Looks a legacy effect identifier up in the translation table.
pub fn translate_effect(legacy: Guid) -> (r: Option<Guid>)
    ensures
        r == effect_translation(legacy),
{
    if legacy.0 == OLD_FXEQ {
        Some(Guid(FXEQ))
    } else if legacy.0 == OLD_FXMASTERINGLIMITER {
        Some(Guid(FXMASTERINGLIMITER))
    } else if legacy.0 == OLD_FXREVERB {
        Some(Guid(FXREVERB))
    } else if legacy.0 == OLD_FXECHO {
        Some(Guid(FXECHO))
    } else {
        None
    }
}

/// What becomes of a call that the host made through a hook.
#[derive(Clone, Copy, Debug, PartialEq, Eq, Structural)]
pub enum HookReply {
    /// The call goes on to the current implementation, whose outcome is the
    /// answer.
    Forward(XAudio2Call),
    /// The call ends here with this status; the current implementation is not
    /// reached.
    Fail(HResult),
}

/// What the effect-creation entry does with a request.
pub open spec fn createfx_reply(uuid: Guid, p_effect: usize) -> HookReply {
    match effect_translation(uuid) {
        Some(clsid) => HookReply::Forward(
            XAudio2Call::CreateFX {
                clsid,
                effect: p_effect,
                init_data: None,
                init_data_byte_size: 0,
            },
        ),
        None => HookReply::Fail(HResult(E_NOINTERFACE)),
    }
}

/// Runs in place of the legacy effect library's creation entry. A known
/// legacy identifier is forwarded under its current identifier, without
/// initialisation data; any other identifier fails with "no such interface"
/// and nothing is forwarded.
pub fn createfx_hook(uuid: Guid, p_effect: usize) -> (r: HookReply)
    ensures
        r == createfx_reply(uuid, p_effect),
        effect_translation(uuid) is None <==> r is Fail,
{
    match translate_effect(uuid) {
        Some(clsid) => HookReply::Forward(
            XAudio2Call::CreateFX {
                clsid,
                effect: p_effect,
                init_data: None,
                init_data_byte_size: 0,
            },
        ),
        None => HookReply::Fail(HResult(E_NOINTERFACE)),
    }
}

/// Every legacy effect identifier of the table is forwarded under exactly
/// its mapped identifier, and two different legacy identifiers never share
/// one.
pub proof fn lemma_effect_translation_is_exact(a: Guid, b: Guid)
    requires
        effect_translation(a) is Some,
    ensures
        createfx_reply(a, 0) matches HookReply::Forward(XAudio2Call::CreateFX { clsid, .. })
            && Some(clsid) == effect_translation(a),
        effect_translation(a) == effect_translation(b) ==> a == b,
{
}

/// What the engine-creation entry hands back to the host.
#[derive(Clone, Copy, Debug, PartialEq, Eq, Structural)]
pub struct EngineCreation {
    /// The status that the host sees.
    pub status: HResult,
    /// The emulated engine whose handle the host receives.
    pub object: Option<XAudio27Wrapper>,
    /// The call that gives the new engine its debug settings, to be made
    /// before the host receives the handle. What the engine answers to it
    /// does not matter.
    pub configure: Option<XAudio2Call>,
    /// The kind under which the success is announced in the host's log.
    pub log: Option<LogType>,
}

/// What the engine-creation entry does, given what the current
/// implementation answered to the creation of its engine.
pub open spec fn engine_creation(created: Result<NativeRef, HResult>) -> EngineCreation {
    match created {
        Ok(engine) => EngineCreation {
            status: HResult(S_OK),
            object: Some(XAudio27Wrapper(engine)),
            configure: Some(
                XAudio2Call::SetDebugConfiguration {
                    engine,
                    configuration: spec_debug_settings(),
                },
            ),
            log: Some(LogType::Init),
        },
        Err(code) => EngineCreation { status: code, object: None, configure: None, log: None },
    }
}

/// Runs in place of the host's engine-creation function, once the current
/// implementation has been asked for an engine. An engine that was created
/// is wrapped, given its debug settings, handed to the host with success,
/// and announced in the log; a failure reaches the host under its own code.
/// The host's flags and processor choice play no part.
pub fn xaudio2create_hook(created: Result<NativeRef, HResult>, flags: u32, processor: u32) -> (r:
    EngineCreation)
    ensures
        r == engine_creation(created),
{
    match XAudio27Wrapper::new(created) {
        Ok(object) => EngineCreation {
            status: HResult(S_OK),
            object: Some(object),
            configure: Some(object.debug_configuration_call()),
            log: Some(LogType::Init),
        },
        Err(code) => EngineCreation { status: code, object: None, configure: None, log: None },
    }
}

/// The line that announces the emulated engine in the host's log.
pub fn engine_created_message() -> (r: &'static str)
    ensures
        r@ == "Hooked XAudio2Create and loaded XAudio 2.7 detours"@,
{
    "Hooked XAudio2Create and loaded XAudio 2.7 detours"
}

/// The hooks that the shim declares: the interception of the host's
/// engine-creation function and the patch of the effect-creation slot.
#[derive(Clone, Copy, Debug, PartialEq, Eq, Structural)]
pub struct Hooks {
    pub xaudio2_create: HookHandle,
    pub createfx: PointerPatch,
}

/// The addresses of the functions that run in place of the host's.
#[derive(Clone, Copy, Debug, PartialEq, Eq, Structural)]
pub struct Replacements {
    pub xaudio2create_hook: usize,
    pub createfx_hook: usize,
}

/// What happened outside since the last step of initialisation.
#[derive(Clone, Copy, Debug, PartialEq, Eq, Structural)]
pub enum InitEvent {
    /// Initialisation begins.
    Begin,
    /// The interception primitive answered for the target it was asked to
    /// prepare: the address through which the original stays callable, or
    /// nothing if it rejected the target.
    DetourPrepared(Option<usize>),
    /// Whether the memory of the slot could be made writable.
    SlotWritable(bool),
    /// The diversion that the plan asked for could not be made.
    DiversionFailed,
}

/// What has to happen outside before the next step of initialisation.
#[derive(Clone, Copy, Debug, PartialEq, Eq, Structural)]
pub enum InitRequest {
    /// Prepare the interception of the engine-creation function, without
    /// diverting it yet.
    PrepareDetour { target: usize, replacement: usize },
    /// Make the memory of the effect-creation slot writable.
    MakeWritable { address: usize, span: usize },
    /// Everything is settled: carry the plan out.
    Commit(InitPlan),
}

/// Why the hooks could not be set up. Each of these is final: nothing is
/// diverted.
#[derive(Clone, Copy, Debug, PartialEq, Eq, Structural)]
pub enum InitError {
    /// No host image has been recorded.
    ImageNotLocated,
    /// The engine-creation hook could not be installed.
    XAudio2Create(HookError),
    /// The effect-creation slot could not be patched.
    CreateFx(HookError),
}

/// What is left to do once the hooks are set up, in this order: divert the
/// engine-creation function, then write the effect-creation slot.
#[derive(Clone, Copy, Debug, PartialEq, Eq, Structural)]
pub struct InitPlan {
    pub divert: HookAction,
    pub write: SlotWrite,
}

/// What the declared hooks stand for.
pub struct HooksView {
    pub xaudio2_create: HookView,
    pub createfx: PatchView,
}

impl HooksView {
    /// The hooks before initialisation: nothing installed, nothing patched.
    pub open spec fn fresh() -> HooksView {
        HooksView { xaudio2_create: HookView::fresh(), createfx: PatchView::fresh() }
    }

    /// Whether every declared hook diverts the host.
    pub open spec fn all_enabled(self) -> bool {
        self.xaudio2_create.state is Enabled && self.createfx.state is Applied
    }

    /// Whether no declared hook diverts the host or is prepared to.
    pub open spec fn none_installed(self) -> bool {
        self.xaudio2_create.state is Uninitialized && self.createfx.state is Pending
    }
}

impl View for Hooks {
    type V = HooksView;

    open spec fn view(&self) -> HooksView {
        HooksView { xaudio2_create: self.xaudio2_create@, createfx: self.createfx@ }
    }
}

impl Hooks {
    /// The hooks before initialisation.
    pub fn new() -> (r: Hooks)
        ensures
            r@ == HooksView::fresh(),
    {
        Hooks { xaudio2_create: HookHandle::new(), createfx: PointerPatch::new() }
    }
}

impl InitError {
    /// A line about the error for the operator.
    pub fn message(&self) -> (r: &'static str)
        ensures
            r@ == (match self {
                InitError::ImageNotLocated => "The host image has not been located"@,
                InitError::XAudio2Create(_) => "Failed to setup InitializeHardware hook"@,
                InitError::CreateFx(_) => "failed to adjust memory protection for CreateFX"@,
            }),
    {
        match self {
            InitError::ImageNotLocated => "The host image has not been located",
            InitError::XAudio2Create(_) => "Failed to setup InitializeHardware hook",
            InitError::CreateFx(_) => "failed to adjust memory protection for CreateFX",
        }
    }
}

/// What the next step of initialisation answers: the request to carry out
/// before the step after it, or the error that ends the setup.
///
/// Nothing is asked of the outside before what precedes it has gone well:
/// the slot's memory is touched only after the interception has been
/// prepared, and nothing is diverted before the slot is writable. The
/// beginning settles what the library can settle alone: the image, and
/// that both targets lie in it and are not hooked yet.
pub open spec fn init_reply(
    record: Option<HostImage>,
    table: OffsetTable,
    hooks: HooksView,
    replacements: Replacements,
    event: InitEvent,
) -> Result<InitRequest, InitError> {
    match event {
        InitEvent::DiversionFailed => if hooks.all_enabled() {
            Err(InitError::XAudio2Create(HookError::DiversionFailed))
        } else {
            Err(InitError::XAudio2Create(HookError::NotInstalled))
        },
        _ => match record {
            None => Err(InitError::ImageNotLocated),
            Some(image) => match event {
                InitEvent::Begin => match hooks.xaudio2_create.install_outcome(
                    image,
                    table,
                    LogicalName::XAudio2Create,
                    Some(0),
                ) {
                    Err(e) => Err(InitError::XAudio2Create(e)),
                    Ok(target) => match hooks.createfx.apply_outcome(
                        image,
                        table,
                        LogicalName::CreateFxPtr,
                        true,
                    ) {
                        Err(e) => Err(InitError::CreateFx(e)),
                        Ok(_) => Ok(
                            InitRequest::PrepareDetour {
                                target,
                                replacement: replacements.xaudio2create_hook,
                            },
                        ),
                    },
                },
                InitEvent::DetourPrepared(prepared) => match hooks.xaudio2_create.install_outcome(
                    image,
                    table,
                    LogicalName::XAudio2Create,
                    prepared,
                ) {
                    Err(e) => Err(InitError::XAudio2Create(e)),
                    Ok(_) => match hooks.createfx.apply_outcome(
                        image,
                        table,
                        LogicalName::CreateFxPtr,
                        true,
                    ) {
                        Err(e) => Err(InitError::CreateFx(e)),
                        Ok(address) => Ok(
                            InitRequest::MakeWritable { address, span: POINTER_SLOT_SPAN },
                        ),
                    },
                },
                InitEvent::SlotWritable(writable) => match hooks.xaudio2_create.state {
                    HookState::Uninitialized => Err(
                        InitError::XAudio2Create(HookError::NotInstalled),
                    ),
                    HookState::Enabled => Err(
                        InitError::XAudio2Create(HookError::AlreadyInstalled),
                    ),
                    HookState::Initialized => match hooks.createfx.apply_outcome(
                        image,
                        table,
                        LogicalName::CreateFxPtr,
                        writable,
                    ) {
                        Err(e) => Err(InitError::CreateFx(e)),
                        Ok(address) => Ok(
                            InitRequest::Commit(
                                InitPlan {
                                    divert: HookAction::Divert {
                                        target: hooks.xaudio2_create.target,
                                        replacement: hooks.xaudio2_create.replacement,
                                    },
                                    write: SlotWrite {
                                        address,
                                        span: POINTER_SLOT_SPAN,
                                        value: replacements.createfx_hook,
                                    },
                                },
                            ),
                        ),
                    },
                },
                InitEvent::DiversionFailed => Err(InitError::ImageNotLocated),
            },
        },
    }
}

/// The hooks after a step of initialisation.
///
/// A prepared interception is entered in the books; with a writable slot
/// both hooks are entered as enabled. An error leaves the hooks as they
/// were, but for two: a slot that cannot be patched gives the prepared
/// interception up, and a diversion that failed puts both hooks back, so
/// that a setup that ended in an error never leaves a hook in the books.
pub open spec fn hooks_after_init(
    record: Option<HostImage>,
    table: OffsetTable,
    hooks: HooksView,
    replacements: Replacements,
    event: InitEvent,
) -> HooksView {
    match (event, init_reply(record, table, hooks, replacements, event), record) {
        (InitEvent::DetourPrepared(prepared), Ok(_), Some(image)) => HooksView {
            xaudio2_create: hooks.xaudio2_create.after_install(
                image,
                table,
                LogicalName::XAudio2Create,
                replacements.xaudio2create_hook,
                prepared,
            ),
            createfx: hooks.createfx,
        },
        (InitEvent::SlotWritable(writable), Ok(_), Some(image)) => HooksView {
            xaudio2_create: hooks.xaudio2_create.after_enable(),
            createfx: hooks.createfx.after_apply(
                image,
                table,
                LogicalName::CreateFxPtr,
                replacements.createfx_hook,
                writable,
            ),
        },
        (InitEvent::SlotWritable(_), Err(InitError::CreateFx(_)), _) => HooksView {
            xaudio2_create: HookView::fresh(),
            createfx: hooks.createfx,
        },
        (InitEvent::DiversionFailed, Err(InitError::XAudio2Create(HookError::DiversionFailed)), _) =>
            HooksView::fresh(),
        _ => hooks,
    }
}

/// Takes the setup of the hooks one step further. `event` says what
/// happened outside since the last step; the answer is what has to happen
/// next, or the error that ends the setup. The steps come in this order:
/// `Begin`, `DetourPrepared`, `SlotWritable`, and `DiversionFailed` only if
/// the plan could not be carried out.
pub fn init(
    cache: &ImageCache,
    table: &OffsetTable,
    hooks: &mut Hooks,
    replacements: Replacements,
    event: InitEvent,
) -> (r: Result<InitRequest, InitError>)
    requires
        cache.wf(),
    ensures
        r == init_reply(cache@, *table, old(hooks)@, replacements, event),
        final(hooks)@ == hooks_after_init(cache@, *table, old(hooks)@, replacements, event),
        r matches Ok(InitRequest::Commit(_)) ==> final(hooks)@.all_enabled(),
{
    if let InitEvent::DiversionFailed = event {
        if hooks.xaudio2_create.is_enabled() && hooks.createfx.is_applied() {
            hooks.xaudio2_create = HookHandle::new();
            hooks.createfx = PointerPatch::new();
            return Err(InitError::XAudio2Create(HookError::DiversionFailed));
        }
        return Err(InitError::XAudio2Create(HookError::NotInstalled));
    }
    let image = match cache.image() {
        None => {
            return Err(InitError::ImageNotLocated);
        },
        Some(image) => image,
    };
    match event {
        InitEvent::Begin => {
            let mut xaudio2_create = hooks.xaudio2_create;
            if let Err(e) = xaudio2_create.install(
                &image,
                table,
                LogicalName::XAudio2Create,
                replacements.xaudio2create_hook,
                Some(0),
            ) {
                return Err(InitError::XAudio2Create(e));
            }
            let mut createfx = hooks.createfx;
            if let Err(e) = createfx.apply(
                &image,
                table,
                LogicalName::CreateFxPtr,
                replacements.createfx_hook,
                true,
            ) {
                return Err(InitError::CreateFx(e));
            }
            Ok(
                InitRequest::PrepareDetour {
                    target: xaudio2_create.target(),
                    replacement: replacements.xaudio2create_hook,
                },
            )
        },
        InitEvent::DetourPrepared(prepared) => {
            let mut xaudio2_create = hooks.xaudio2_create;
            if let Err(e) = xaudio2_create.install(
                &image,
                table,
                LogicalName::XAudio2Create,
                replacements.xaudio2create_hook,
                prepared,
            ) {
                return Err(InitError::XAudio2Create(e));
            }
            let mut createfx = hooks.createfx;
            let write = match createfx.apply(
                &image,
                table,
                LogicalName::CreateFxPtr,
                replacements.createfx_hook,
                true,
            ) {
                Err(e) => {
                    return Err(InitError::CreateFx(e));
                },
                Ok(write) => write,
            };
            hooks.xaudio2_create = xaudio2_create;
            Ok(InitRequest::MakeWritable { address: write.address, span: POINTER_SLOT_SPAN })
        },
        InitEvent::SlotWritable(writable) => {
            match hooks.xaudio2_create.state() {
                HookState::Uninitialized => {
                    return Err(InitError::XAudio2Create(HookError::NotInstalled));
                },
                HookState::Enabled => {
                    return Err(InitError::XAudio2Create(HookError::AlreadyInstalled));
                },
                HookState::Initialized => {},
            }
            let mut createfx = hooks.createfx;
            let write = match createfx.apply(
                &image,
                table,
                LogicalName::CreateFxPtr,
                replacements.createfx_hook,
                writable,
            ) {
                Err(e) => {
                    hooks.xaudio2_create = HookHandle::new();
                    return Err(InitError::CreateFx(e));
                },
                Ok(write) => write,
            };
            let mut xaudio2_create = hooks.xaudio2_create;
            let divert = match xaudio2_create.enable() {
                Err(e) => {
                    return Err(InitError::XAudio2Create(e));
                },
                Ok(divert) => divert,
            };
            hooks.xaudio2_create = xaudio2_create;
            hooks.createfx = createfx;
            Ok(InitRequest::Commit(InitPlan { divert, write }))
        },
        InitEvent::DiversionFailed => Err(InitError::ImageNotLocated),
    }
}

/// A host whose code section does not have the known digest is never
/// attached to, and without a recorded image no hook is installed or
/// enabled: every step of initialisation ends in an error, asks nothing of
/// the outside, and enters no hook in the books, whatever the loader, the
/// offset table and the outside primitives say.
pub proof fn lemma_unknown_host_gets_no_hook(
    arch: Arch,
    len: nat,
    section: Option<(u32, u32)>,
    digest: Seq<u8>,
    module: Option<ModuleInfo>,
    table: OffsetTable,
    hooks: HooksView,
    replacements: Replacements,
    event: InitEvent,
)
    requires
        digest != known_hash(arch),
    ensures
        identity_verdict(arch, len, section, digest) is Err,
        attach_outcome(None, module, identity_verdict(arch, len, section, digest)) is Err,
        record_after(
            None,
            attach_outcome(None, module, identity_verdict(arch, len, section, digest)),
        ) is None,
        init_reply(None, table, hooks, replacements, event) is Err,
        !(event is DiversionFailed) ==> hooks_after_init(None, table, hooks, replacements, event)
            == hooks,
        hooks.none_installed() ==> hooks_after_init(
            None,
            table,
            hooks,
            replacements,
            event,
        ).none_installed(),
{
}

/// A host whose code section has the known digest is attached to, and the
/// steps of initialisation then lead to every declared hook enabled: the
/// beginning asks for the interception to be prepared, the prepared
/// interception for the slot to be made writable, and the writable slot for
/// the plan to be carried out. This holds where the loader gave a module
/// that fits the address space, the table's offsets lie inside it, and the
/// outside primitives accepted both targets.
pub proof fn lemma_known_host_gets_every_hook(
    arch: Arch,
    len: nat,
    range: (u32, u32),
    info: ModuleInfo,
    table: OffsetTable,
    replacements: Replacements,
    original: usize,
)
    requires
        range_in_file(range, len),
        info.base + info.size_of_image <= usize::MAX,
        spec_locate(
            HostImage { base: info.base, size: info.size_of_image as usize },
            table,
            LogicalName::XAudio2Create,
            1,
        ) is Ok,
        spec_locate(
            HostImage { base: info.base, size: info.size_of_image as usize },
            table,
            LogicalName::CreateFxPtr,
            POINTER_SLOT_SPAN,
        ) is Ok,
    ensures
        identity_verdict(arch, len, Some(range), known_hash(arch)) is Ok,
        record_after(None, attach_outcome(None, Some(info), Ok(()))) == Some(
            HostImage { base: info.base, size: info.size_of_image as usize },
        ),
        ({
            let record = Some(HostImage { base: info.base, size: info.size_of_image as usize });
            let begun = hooks_after_init(
                record,
                table,
                HooksView::fresh(),
                replacements,
                InitEvent::Begin,
            );
            let prepared = hooks_after_init(
                record,
                table,
                begun,
                replacements,
                InitEvent::DetourPrepared(Some(original)),
            );
            let settled = hooks_after_init(
                record,
                table,
                prepared,
                replacements,
                InitEvent::SlotWritable(true),
            );
            &&& init_reply(record, table, HooksView::fresh(), replacements, InitEvent::Begin)
                is Ok
            &&& init_reply(
                record,
                table,
                begun,
                replacements,
                InitEvent::DetourPrepared(Some(original)),
            ) is Ok
            &&& init_reply(record, table, prepared, replacements, InitEvent::SlotWritable(true))
                matches Ok(InitRequest::Commit(_))
            &&& settled.all_enabled()
        }),
{
}

/// A target that the interception primitive rejects ends the setup at that
/// step: the answer is the error, no request is handed out, so the slot's
/// memory is never touched, and the hooks stay as they were.
pub proof fn lemma_rejected_target_ends_the_setup(
    record: Option<HostImage>,
    table: OffsetTable,
    hooks: HooksView,
    replacements: Replacements,
)
    ensures
        init_reply(record, table, hooks, replacements, InitEvent::DetourPrepared(None)) is Err,
        hooks_after_init(record, table, hooks, replacements, InitEvent::DetourPrepared(None))
            == hooks,
{
}

/// A setup that ends in an error leaves no declared hook enabled, if none
/// was enabled when the step began or the step reports a failed diversion.
pub proof fn lemma_failed_setup_leaves_no_hook(
    record: Option<HostImage>,
    table: OffsetTable,
    hooks: HooksView,
    replacements: Replacements,
    event: InitEvent,
)
    requires
        init_reply(record, table, hooks, replacements, event) is Err,
        !(hooks.xaudio2_create.state is Enabled) && !(hooks.createfx.state is Applied)
            || event is DiversionFailed,
        event is DiversionFailed ==> hooks.all_enabled(),
    ensures
        !(hooks_after_init(record, table, hooks, replacements, event).xaudio2_create.state
            is Enabled),
        !(hooks_after_init(record, table, hooks, replacements, event).createfx.state is Applied),
{
}

} // verus!
