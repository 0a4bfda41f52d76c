use udk_shim::dll::{record_image, Arch, HostImage, ImageCache, ModuleInfo};
use udk_shim::hook::{
    locate, HookAction, HookError, HookHandle, HookState, PatchState, PointerPatch, SlotWrite,
    POINTER_SLOT_SPAN,
};
use udk_shim::post_udk_init;
use udk_shim::udk_offsets::{
    LogicalName, OffsetTable, DEBUG_FN_OFFSET_X86, DEBUG_FN_OFFSET_X86_64, DEBUG_LOG_OFFSET_X86,
    DEBUG_LOG_OFFSET_X86_64, UDK_CREATEFX_PTR_OFFSET, UDK_XAUDIO2CREATE_OFFSET,
};
use udk_shim::udk_xaudio::{
    init, Hooks, InitError, InitEvent, InitPlan, InitRequest, Replacements,
};

const BASE: usize = 0x4000_0000;

fn host() -> HostImage {
    HostImage::new(BASE, 0x0400_0000).unwrap()
}

fn located() -> ImageCache {
    let mut cache = ImageCache::new();
    let module = Some(ModuleInfo { base: BASE, size_of_image: 0x0400_0000 });
    assert_eq!(record_image(&mut cache, module, Ok(())), Ok(()));
    cache
}

fn replacements() -> Replacements {
    Replacements { xaudio2create_hook: 0x7000_1000, createfx_hook: 0x7000_2000 }
}

const TARGET: usize = BASE + 0x0170_F4D0;
const SLOT: usize = BASE + 0x024B_E8B0;

/// Runs the steps of initialisation up to the one that waits for the
/// slot's answer.
fn prepared_hooks(cache: &ImageCache, table: &OffsetTable) -> Hooks {
    let mut hooks = Hooks::new();
    init(cache, table, &mut hooks, replacements(), InitEvent::Begin).unwrap();
    init(cache, table, &mut hooks, replacements(), InitEvent::DetourPrepared(Some(0x6000_0000)))
        .unwrap();
    hooks
}

#[test]
fn offset_tables_hold_the_offsets_of_each_build() {
    let x64 = OffsetTable::for_arch(Arch::X86_64);
    assert_eq!(x64.offset(LogicalName::DebugLog), Some(0x0355_1720));
    assert_eq!(x64.offset(LogicalName::DebugFn), Some(0x0024_6A20));
    assert_eq!(x64.offset(LogicalName::XAudio2Create), Some(0x0170_F4D0));
    assert_eq!(x64.offset(LogicalName::CreateFxPtr), Some(0x024B_E8B0));
    let x86 = OffsetTable::for_arch(Arch::X86);
    assert_eq!(x86.offset(LogicalName::DebugLog), Some(0x029a_31a8));
    assert_eq!(x86.offset(LogicalName::DebugFn), Some(0x21c500));
    assert_eq!(x86.offset(LogicalName::XAudio2Create), Some(0x0170_F4D0));
    assert_eq!(x86.offset(LogicalName::CreateFxPtr), Some(0x024B_E8B0));
    assert_eq!(DEBUG_LOG_OFFSET_X86_64, 0x0355_1720);
    assert_eq!(DEBUG_FN_OFFSET_X86_64, 0x0024_6A20);
    assert_eq!(DEBUG_LOG_OFFSET_X86, 0x029a_31a8);
    assert_eq!(DEBUG_FN_OFFSET_X86, 0x0021_c500);
    assert_eq!(UDK_XAUDIO2CREATE_OFFSET, 0x0170_F4D0);
    assert_eq!(UDK_CREATEFX_PTR_OFFSET, 0x024B_E8B0);
    let none = OffsetTable::empty();
    for name in [
        LogicalName::DebugLog,
        LogicalName::DebugFn,
        LogicalName::XAudio2Create,
        LogicalName::CreateFxPtr,
    ] {
        assert_eq!(none.offset(name), None);
    }
}

#[test]
fn logical_names_resolve_to_base_plus_offset() {
    let table = OffsetTable::for_arch(Arch::X86_64);
    assert_eq!(locate(&host(), &table, LogicalName::XAudio2Create, 1), Ok(BASE + 0x0170_F4D0));
    assert_eq!(
        locate(&host(), &table, LogicalName::CreateFxPtr, POINTER_SLOT_SPAN),
        Ok(BASE + 0x024B_E8B0)
    );
    assert_eq!(
        locate(&host(), &OffsetTable::empty(), LogicalName::XAudio2Create, 1),
        Err(HookError::NoSuchOffset)
    );
    let small = HostImage::new(BASE, 0x0170_F4D0).unwrap();
    assert_eq!(locate(&small, &table, LogicalName::XAudio2Create, 1), Err(HookError::OutsideImage));
    let tight = HostImage::new(BASE, 0x024B_E8B0 + 7).unwrap();
    assert_eq!(
        locate(&tight, &table, LogicalName::CreateFxPtr, POINTER_SLOT_SPAN),
        Err(HookError::OutsideImage)
    );
    let exact = HostImage::new(BASE, 0x024B_E8B0 + 8).unwrap();
    assert_eq!(
        locate(&exact, &table, LogicalName::CreateFxPtr, POINTER_SLOT_SPAN),
        Ok(BASE + 0x024B_E8B0)
    );
}

#[test]
fn hook_goes_from_uninitialized_to_initialized_to_enabled() {
    let table = OffsetTable::for_arch(Arch::X86_64);
    let mut hook = HookHandle::new();
    assert_eq!(hook.state(), HookState::Uninitialized);
    assert_eq!(hook.original(), None);
    assert_eq!(hook.install(&host(), &table, LogicalName::XAudio2Create, 0x77, Some(0x99)), Ok(()));
    assert_eq!(hook.state(), HookState::Initialized);
    assert_eq!(hook.target(), BASE + 0x0170_F4D0);
    assert_eq!(hook.replacement(), 0x77);
    assert_eq!(hook.original(), Some(0x99));
    assert!(!hook.is_enabled());
    assert_eq!(
        hook.enable(),
        Ok(HookAction::Divert { target: BASE + 0x0170_F4D0, replacement: 0x77 })
    );
    assert_eq!(hook.state(), HookState::Enabled);
    assert!(hook.is_enabled());
    assert_eq!(hook.original(), Some(0x99));
    assert_eq!(hook.disable(), Ok(HookAction::Restore { target: BASE + 0x0170_F4D0 }));
    assert_eq!(hook.state(), HookState::Initialized);
    assert_eq!(hook.original(), Some(0x99));
}

#[test]
fn enabling_and_disabling_twice_changes_nothing_the_second_time() {
    let table = OffsetTable::for_arch(Arch::X86_64);
    let mut hook = HookHandle::new();
    hook.install(&host(), &table, LogicalName::XAudio2Create, 0x77, Some(0x99)).unwrap();
    assert_eq!(hook.disable(), Ok(HookAction::Nothing));
    assert_eq!(hook.state(), HookState::Initialized);
    hook.enable().unwrap();
    let enabled = hook;
    assert_eq!(hook.enable(), Ok(HookAction::Nothing));
    assert_eq!(hook, enabled);
    hook.disable().unwrap();
    let disabled = hook;
    assert_eq!(hook.disable(), Ok(HookAction::Nothing));
    assert_eq!(hook, disabled);
}

#[test]
fn uninitialized_hook_only_takes_install() {
    let mut hook = HookHandle::new();
    assert_eq!(hook.enable(), Err(HookError::NotInstalled));
    assert_eq!(hook.disable(), Err(HookError::NotInstalled));
    assert_eq!(hook, HookHandle::new());
    assert_eq!(hook.destroy(), HookAction::Nothing);
}

#[test]
fn failed_install_leaves_the_handle_uninitialized() {
    let table = OffsetTable::for_arch(Arch::X86_64);
    let mut hook = HookHandle::new();
    assert_eq!(
        hook.install(&host(), &OffsetTable::empty(), LogicalName::XAudio2Create, 1, Some(2)),
        Err(HookError::NoSuchOffset)
    );
    let small = HostImage::new(BASE, 0x1000).unwrap();
    assert_eq!(
        hook.install(&small, &table, LogicalName::XAudio2Create, 1, Some(2)),
        Err(HookError::OutsideImage)
    );
    assert_eq!(
        hook.install(&host(), &table, LogicalName::XAudio2Create, 1, None),
        Err(HookError::Rejected)
    );
    assert_eq!(hook, HookHandle::new());
    hook.install(&host(), &table, LogicalName::XAudio2Create, 1, Some(2)).unwrap();
    let installed = hook;
    assert_eq!(
        hook.install(&host(), &table, LogicalName::XAudio2Create, 3, Some(4)),
        Err(HookError::AlreadyInstalled)
    );
    assert_eq!(hook, installed);
}

#[test]
fn enabled_hook_is_disabled_when_destroyed() {
    let table = OffsetTable::for_arch(Arch::X86_64);
    let mut hook = HookHandle::new();
    hook.install(&host(), &table, LogicalName::XAudio2Create, 1, Some(2)).unwrap();
    assert_eq!(hook.destroy(), HookAction::Nothing);
    hook.enable().unwrap();
    assert_eq!(hook.destroy(), HookAction::Restore { target: BASE + 0x0170_F4D0 });
}

#[test]
fn pointer_slot_is_patched_once() {
    let table = OffsetTable::for_arch(Arch::X86_64);
    let mut patch = PointerPatch::new();
    assert_eq!(patch.state(), PatchState::Pending);
    assert!(!patch.is_applied());
    assert_eq!(
        patch.apply(&host(), &table, LogicalName::CreateFxPtr, 0x7000, false),
        Err(HookError::ProtectionFailed)
    );
    assert_eq!(patch, PointerPatch::new());
    assert_eq!(
        patch.apply(&host(), &OffsetTable::empty(), LogicalName::CreateFxPtr, 0x7000, true),
        Err(HookError::NoSuchOffset)
    );
    assert_eq!(
        patch.apply(&host(), &table, LogicalName::CreateFxPtr, 0x7000, true),
        Ok(SlotWrite { address: BASE + 0x024B_E8B0, span: 8, value: 0x7000 })
    );
    assert!(patch.is_applied());
    let applied = patch;
    assert_eq!(
        patch.apply(&host(), &table, LogicalName::CreateFxPtr, 0x8000, true),
        Err(HookError::AlreadyInstalled)
    );
    assert_eq!(patch, applied);
}

#[test]
fn initialization_enables_every_declared_hook() {
    let table = OffsetTable::for_arch(Arch::X86_64);
    let cache = located();
    let mut hooks = Hooks::new();
    assert_eq!(
        post_udk_init(&cache, &table, &mut hooks, replacements(), InitEvent::Begin),
        Ok(InitRequest::PrepareDetour { target: TARGET, replacement: 0x7000_1000 })
    );
    assert_eq!(hooks, Hooks::new());
    assert_eq!(
        post_udk_init(
            &cache,
            &table,
            &mut hooks,
            replacements(),
            InitEvent::DetourPrepared(Some(0x6000_0000))
        ),
        Ok(InitRequest::MakeWritable { address: SLOT, span: 8 })
    );
    assert_eq!(hooks.xaudio2_create.state(), HookState::Initialized);
    assert_eq!(hooks.createfx.state(), PatchState::Pending);
    assert_eq!(
        post_udk_init(&cache, &table, &mut hooks, replacements(), InitEvent::SlotWritable(true)),
        Ok(InitRequest::Commit(InitPlan {
            divert: HookAction::Divert { target: TARGET, replacement: 0x7000_1000 },
            write: SlotWrite { address: SLOT, span: 8, value: 0x7000_2000 },
        }))
    );
    assert_eq!(hooks.xaudio2_create.state(), HookState::Enabled);
    assert_eq!(hooks.xaudio2_create.target(), TARGET);
    assert_eq!(hooks.xaudio2_create.original(), Some(0x6000_0000));
    assert_eq!(hooks.createfx.state(), PatchState::Applied);
}

#[test]
fn initialization_without_a_located_image_installs_nothing() {
    let table = OffsetTable::for_arch(Arch::X86_64);
    let cache = ImageCache::new();
    for event in [
        InitEvent::Begin,
        InitEvent::DetourPrepared(Some(1)),
        InitEvent::DetourPrepared(None),
        InitEvent::SlotWritable(true),
        InitEvent::SlotWritable(false),
    ] {
        let mut hooks = Hooks::new();
        assert_eq!(
            init(&cache, &table, &mut hooks, replacements(), event),
            Err(InitError::ImageNotLocated)
        );
        assert_eq!(hooks, Hooks::new());
        assert_eq!(
            post_udk_init(&cache, &table, &mut hooks, replacements(), event),
            Err(InitError::ImageNotLocated)
        );
        assert_eq!(hooks, Hooks::new());
    }
    let mut hooks = Hooks::new();
    assert_eq!(
        init(&cache, &table, &mut hooks, replacements(), InitEvent::DiversionFailed),
        Err(InitError::XAudio2Create(HookError::NotInstalled))
    );
    assert_eq!(hooks, Hooks::new());
}

#[test]
fn rejected_target_ends_the_setup_before_the_slot_is_touched() {
    let table = OffsetTable::for_arch(Arch::X86_64);
    let cache = located();
    let mut hooks = Hooks::new();
    init(&cache, &table, &mut hooks, replacements(), InitEvent::Begin).unwrap();
    let reply = init(&cache, &table, &mut hooks, replacements(), InitEvent::DetourPrepared(None));
    assert_eq!(reply, Err(InitError::XAudio2Create(HookError::Rejected)));
    assert_eq!(reply.unwrap_err().message(), "Failed to setup InitializeHardware hook");
    assert_eq!(hooks, Hooks::new());
    assert!(!hooks.xaudio2_create.is_enabled());
    assert!(!hooks.createfx.is_applied());
    assert_eq!(
        init(&cache, &table, &mut hooks, replacements(), InitEvent::SlotWritable(true)),
        Err(InitError::XAudio2Create(HookError::NotInstalled))
    );
    assert_eq!(hooks, Hooks::new());
}

#[test]
fn slot_that_stays_protected_gives_the_prepared_hook_up() {
    let table = OffsetTable::for_arch(Arch::X86_64);
    let cache = located();
    let mut hooks = prepared_hooks(&cache, &table);
    let reply = init(&cache, &table, &mut hooks, replacements(), InitEvent::SlotWritable(false));
    assert_eq!(reply, Err(InitError::CreateFx(HookError::ProtectionFailed)));
    assert_eq!(
        reply.unwrap_err().message(),
        "failed to adjust memory protection for CreateFX"
    );
    assert_eq!(hooks, Hooks::new());
}

#[test]
fn failed_diversion_puts_both_hooks_back() {
    let table = OffsetTable::for_arch(Arch::X86_64);
    let cache = located();
    let mut hooks = prepared_hooks(&cache, &table);
    assert_eq!(
        init(&cache, &table, &mut hooks, replacements(), InitEvent::DiversionFailed),
        Err(InitError::XAudio2Create(HookError::NotInstalled))
    );
    assert_eq!(hooks, prepared_hooks(&cache, &table));
    init(&cache, &table, &mut hooks, replacements(), InitEvent::SlotWritable(true)).unwrap();
    assert!(hooks.xaudio2_create.is_enabled());
    assert!(hooks.createfx.is_applied());
    assert_eq!(
        init(&cache, &table, &mut hooks, replacements(), InitEvent::DiversionFailed),
        Err(InitError::XAudio2Create(HookError::DiversionFailed))
    );
    assert_eq!(hooks, Hooks::new());
}

#[test]
fn targets_outside_the_table_or_the_image_end_the_setup_at_its_beginning() {
    let cache = located();
    let mut hooks = Hooks::new();
    let mut partial = OffsetTable::for_arch(Arch::X86_64);
    partial.createfx_ptr = None;
    assert_eq!(
        init(&cache, &partial, &mut hooks, replacements(), InitEvent::Begin),
        Err(InitError::CreateFx(HookError::NoSuchOffset))
    );
    assert_eq!(
        init(&cache, &OffsetTable::empty(), &mut hooks, replacements(), InitEvent::Begin),
        Err(InitError::XAudio2Create(HookError::NoSuchOffset))
    );
    let mut small = ImageCache::new();
    let module = Some(ModuleInfo { base: BASE, size_of_image: 0x0200_0000 });
    assert_eq!(record_image(&mut small, module, Ok(())), Ok(()));
    let table = OffsetTable::for_arch(Arch::X86_64);
    assert_eq!(
        init(&small, &table, &mut hooks, replacements(), InitEvent::Begin),
        Err(InitError::CreateFx(HookError::OutsideImage))
    );
    assert_eq!(
        init(&small, &table, &mut hooks, replacements(), InitEvent::DetourPrepared(Some(1))),
        Err(InitError::CreateFx(HookError::OutsideImage))
    );
    assert_eq!(hooks, Hooks::new());
}

#[test]
fn initialization_runs_once() {
    let table = OffsetTable::for_arch(Arch::X86_64);
    let cache = located();
    let mut hooks = prepared_hooks(&cache, &table);
    init(&cache, &table, &mut hooks, replacements(), InitEvent::SlotWritable(true)).unwrap();
    let done = hooks;
    for event in [
        InitEvent::Begin,
        InitEvent::DetourPrepared(Some(2)),
        InitEvent::SlotWritable(true),
    ] {
        assert_eq!(
            init(&cache, &table, &mut hooks, replacements(), event),
            Err(InitError::XAudio2Create(HookError::AlreadyInstalled))
        );
        assert_eq!(hooks, done);
    }
}

#[test]
fn initialization_errors_have_a_line_for_the_operator() {
    assert_eq!(
        InitError::XAudio2Create(HookError::Rejected).message(),
        "Failed to setup InitializeHardware hook"
    );
    assert_eq!(
        InitError::CreateFx(HookError::ProtectionFailed).message(),
        "failed to adjust memory protection for CreateFX"
    );
    assert_eq!(InitError::ImageNotLocated.message(), "The host image has not been located");
}
