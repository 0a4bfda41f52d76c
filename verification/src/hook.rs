//! Hooks into the host: the handle of a call interception and the one-time
//! patch of a function-pointer slot. The handles keep the books; whoever
//! holds the interception primitive carries out the actions they hand back.
use crate::dll::HostImage;
use crate::udk_offsets::{LogicalName, OffsetTable};
use vstd::prelude::*;

verus! {

/// Number of bytes that a function-pointer slot is made writable over.
pub const POINTER_SLOT_SPAN: usize = 8;

/// Why a hook could not be installed or switched.
#[derive(Clone, Copy, Debug, PartialEq, Eq, Structural)]
pub enum HookError {
    /// The offset table has no entry for the logical name.
    NoSuchOffset,
    /// The address falls outside the mapped image.
    OutsideImage,
    /// The interception primitive did not accept the address.
    Rejected,
    /// The memory that holds the slot could not be made writable.
    ProtectionFailed,
    /// The hook was installed before.
    AlreadyInstalled,
    /// The hook has not been installed.
    NotInstalled,
    /// The interception primitive could not divert the prepared target.
    DiversionFailed,
}

/// The absolute address of a logical name: its offset from the table, laid
/// onto the image, with `span` bytes from there inside the image.
pub open spec fn spec_locate(
    image: HostImage,
    table: OffsetTable,
    name: LogicalName,
    span: usize,
) -> Result<usize, HookError> {
    match table.spec_offset(name) {
        None => Err(HookError::NoSuchOffset),
        Some(offset) => match image.spec_resolve(offset, span) {
            None => Err(HookError::OutsideImage),
            Some(address) => Ok(address),
        },
    }
}

/// Resolves a logical name against the located image.
pub fn locate(image: &HostImage, table: &OffsetTable, name: LogicalName, span: usize) -> (r: Result<
    usize,
    HookError,
>)
    requires
        image.wf(),
    ensures
        r == spec_locate(*image, *table, name, span),
        r matches Ok(address) ==> span > 0 ==> image.spec_contains(address),
{
    match table.offset(name) {
        None => Err(HookError::NoSuchOffset),
        Some(offset) => match image.resolve(offset, span) {
            None => Err(HookError::OutsideImage),
            Some(address) => Ok(address),
        },
    }
}

/// The states of an interception point.
#[derive(Clone, Copy, Debug, PartialEq, Eq, Structural)]
pub enum HookState {
    /// Nothing is known about the target yet.
    Uninitialized,
    /// The interception is prepared; calls still reach the original.
    Initialized,
    /// Calls to the target are diverted to the replacement.
    Enabled,
}

/// What the interception primitive has to do after a change of state.
#[derive(Clone, Copy, Debug, PartialEq, Eq, Structural)]
pub enum HookAction {
    /// Nothing: the hook already was in the state asked for.
    Nothing,
    /// Divert calls at `target` to `replacement`.
    Divert { target: usize, replacement: usize },
    /// Let calls at `target` reach the original again.
    Restore { target: usize },
}

/// What a hook handle stands for: the state of the interception, the
/// address of the target, the replacement that runs in its place, and the
/// address that the interception primitive gave for the original.
pub struct HookView {
    pub state: HookState,
    pub target: usize,
    pub replacement: usize,
    pub original: usize,
}

impl HookView {
    /// A hook that has not been installed.
    pub open spec fn fresh() -> HookView {
        HookView { state: HookState::Uninitialized, target: 0, replacement: 0, original: 0 }
    }

    /// Address through which the original function can be called: there
    /// from the moment the hook is installed, enabled or not.
    pub open spec fn callable_original(self) -> Option<usize> {
        if self.state is Uninitialized {
            None
        } else {
            Some(self.original)
        }
    }

    /// What installing does: the error, or the target that the hook is
    /// prepared at. A hook is installed once; the target is resolved before
    /// the primitive's answer is looked at.
    pub open spec fn install_outcome(
        self,
        image: HostImage,
        table: OffsetTable,
        name: LogicalName,
        prepared: Option<usize>,
    ) -> Result<usize, HookError> {
        if !(self.state is Uninitialized) {
            Err(HookError::AlreadyInstalled)
        } else {
            match spec_locate(image, table, name, 1) {
                Err(e) => Err(e),
                Ok(target) => if prepared is None {
                    Err(HookError::Rejected)
                } else {
                    Ok(target)
                },
            }
        }
    }

    /// The hook after an attempt to install it.
    pub open spec fn after_install(
        self,
        image: HostImage,
        table: OffsetTable,
        name: LogicalName,
        replacement: usize,
        prepared: Option<usize>,
    ) -> HookView {
        match self.install_outcome(image, table, name, prepared) {
            Ok(target) => HookView {
                state: HookState::Initialized,
                target,
                replacement,
                original: prepared->0,
            },
            Err(_) => self,
        }
    }

    /// What a request to enable answers: an error on a hook that is not
    /// installed, the diversion to make on one that is installed and not
    /// enabled, nothing to do on one that is enabled.
    pub open spec fn enable_reply(self) -> Result<HookAction, HookError> {
        match self.state {
            HookState::Uninitialized => Err(HookError::NotInstalled),
            HookState::Initialized => Ok(
                HookAction::Divert { target: self.target, replacement: self.replacement },
            ),
            HookState::Enabled => Ok(HookAction::Nothing),
        }
    }

    /// The hook after a request to enable.
    pub open spec fn after_enable(self) -> HookView {
        if self.state is Uninitialized {
            self
        } else {
            HookView { state: HookState::Enabled, ..self }
        }
    }

    /// What a request to disable answers: an error on a hook that is not
    /// installed, the restoration to make on one that is enabled, nothing to
    /// do on one that is installed and not enabled.
    pub open spec fn disable_reply(self) -> Result<HookAction, HookError> {
        match self.state {
            HookState::Uninitialized => Err(HookError::NotInstalled),
            HookState::Initialized => Ok(HookAction::Nothing),
            HookState::Enabled => Ok(HookAction::Restore { target: self.target }),
        }
    }

    /// The hook after a request to disable.
    pub open spec fn after_disable(self) -> HookView {
        if self.state is Uninitialized {
            self
        } else {
            HookView { state: HookState::Initialized, ..self }
        }
    }

    /// What has to happen before the hook is given up: an enabled hook is
    /// disabled first.
    pub open spec fn destroy_action(self) -> HookAction {
        if self.state is Enabled {
            HookAction::Restore { target: self.target }
        } else {
            HookAction::Nothing
        }
    }
}

/// One interception point.
#[derive(Clone, Copy, Debug, PartialEq, Eq, Structural)]
pub struct HookHandle {
    state: HookState,
    target: usize,
    replacement: usize,
    original: usize,
}

impl View for HookHandle {
    type V = HookView;

    closed spec fn view(&self) -> HookView {
        HookView {
            state: self.state,
            target: self.target,
            replacement: self.replacement,
            original: self.original,
        }
    }
}

impl HookHandle {
    /// A hook that has not been installed.
    pub fn new() -> (h: HookHandle)
        ensures
            h@ == HookView::fresh(),
    {
        HookHandle { state: HookState::Uninitialized, target: 0, replacement: 0, original: 0 }
    }

    /// The state of the hook.
    pub fn state(&self) -> (r: HookState)
        ensures
            r == self@.state,
    {
        self.state
    }

    /// Absolute address of the intercepted function.
    pub fn target(&self) -> (r: usize)
        ensures
            r == self@.target,
    {
        self.target
    }

    /// Address of the function that runs in place of the target.
    pub fn replacement(&self) -> (r: usize)
        ensures
            r == self@.replacement,
    {
        self.replacement
    }

    /// Whether calls to the target are diverted.
    pub fn is_enabled(&self) -> (r: bool)
        ensures
            r == (self@.state is Enabled),
    {
        match self.state {
            HookState::Enabled => true,
            _ => false,
        }
    }

    /// Prepares the interception of the function that `name` stands for,
    /// without diverting anything yet. `prepared` is the answer of the
    /// interception primitive for the resolved target: the address through
    /// which the original stays callable, or nothing if it refused the
    /// target. On an error the handle stays as it was.
    pub fn install(
        &mut self,
        image: &HostImage,
        table: &OffsetTable,
        name: LogicalName,
        replacement: usize,
        prepared: Option<usize>,
    ) -> (r: Result<(), HookError>)
        requires
            image.wf(),
        ensures
            final(self)@ == old(self)@.after_install(*image, *table, name, replacement, prepared),
            (match old(self)@.install_outcome(*image, *table, name, prepared) {
                Ok(target) => r is Ok && image.spec_contains(target),
                Err(e) => r == Err::<(), HookError>(e),
            }),
    {
        match self.state {
            HookState::Uninitialized => {},
            _ => {
                return Err(HookError::AlreadyInstalled);
            },
        }
        let target = match locate(image, table, name, 1) {
            Err(e) => {
                return Err(e);
            },
            Ok(target) => target,
        };
        match prepared {
            None => Err(HookError::Rejected),
            Some(original) => {
                self.state = HookState::Initialized;
                self.target = target;
                self.replacement = replacement;
                self.original = original;
                Ok(())
            },
        }
    }

    /// Asks for calls to the target to be diverted. On an installed hook
    /// that is not enabled this hands back the diversion to make; on an
    /// enabled hook it changes nothing and asks for nothing.
    pub fn enable(&mut self) -> (r: Result<HookAction, HookError>)
        ensures
            r == old(self)@.enable_reply(),
            final(self)@ == old(self)@.after_enable(),
    {
        match self.state {
            HookState::Uninitialized => Err(HookError::NotInstalled),
            HookState::Initialized => {
                self.state = HookState::Enabled;
                Ok(HookAction::Divert { target: self.target, replacement: self.replacement })
            },
            HookState::Enabled => Ok(HookAction::Nothing),
        }
    }

    /// Asks for calls to the target to reach the original again. On an
    /// enabled hook this hands back the restoration to make; on a hook that
    /// is installed and not enabled it changes nothing and asks for nothing.
    pub fn disable(&mut self) -> (r: Result<HookAction, HookError>)
        ensures
            r == old(self)@.disable_reply(),
            final(self)@ == old(self)@.after_disable(),
    {
        match self.state {
            HookState::Uninitialized => Err(HookError::NotInstalled),
            HookState::Initialized => Ok(HookAction::Nothing),
            HookState::Enabled => {
                self.state = HookState::Initialized;
                Ok(HookAction::Restore { target: self.target })
            },
        }
    }

    /// Address through which the original function can be called. It is
    /// there from the moment the hook is installed, enabled or not.
    pub fn original(&self) -> (r: Option<usize>)
        ensures
            r == self@.callable_original(),
    {
        match self.state {
            HookState::Uninitialized => None,
            _ => Some(self.original),
        }
    }

    /// Gives the hook up. An enabled hook is disabled first, so that no
    /// redirection is left behind in the host's code.
    pub fn destroy(self) -> (r: HookAction)
        ensures
            r == self@.destroy_action(),
    {
        match self.state {
            HookState::Enabled => HookAction::Restore { target: self.target },
            _ => HookAction::Nothing,
        }
    }
}

/// The states of the patch of a function-pointer slot.
#[derive(Clone, Copy, Debug, PartialEq, Eq, Structural)]
pub enum PatchState {
    /// The slot still holds what the host put there.
    Pending,
    /// The slot holds the address of the replacement.
    Applied,
}

/// The write that patches a slot: make the `span` bytes at `address`
/// writable, store `value` there, and put the protection back.
#[derive(Clone, Copy, Debug, PartialEq, Eq, Structural)]
pub struct SlotWrite {
    pub address: usize,
    pub span: usize,
    pub value: usize,
}

/// What a pointer patch stands for: its state, the address of the slot and
/// the address that the slot holds once the patch is applied.
pub struct PatchView {
    pub state: PatchState,
    pub address: usize,
    pub value: usize,
}

impl PatchView {
    /// A patch that has not been applied.
    pub open spec fn fresh() -> PatchView {
        PatchView { state: PatchState::Pending, address: 0, value: 0 }
    }

    /// What applying does: the error, or the address of the slot to write.
    /// A slot is patched once; it is resolved first, and its memory must
    /// then have been made writable.
    pub open spec fn apply_outcome(
        self,
        image: HostImage,
        table: OffsetTable,
        name: LogicalName,
        writable: bool,
    ) -> Result<usize, HookError> {
        if self.state is Applied {
            Err(HookError::AlreadyInstalled)
        } else {
            match spec_locate(image, table, name, POINTER_SLOT_SPAN) {
                Err(e) => Err(e),
                Ok(address) => if writable {
                    Ok(address)
                } else {
                    Err(HookError::ProtectionFailed)
                },
            }
        }
    }

    /// The patch after an attempt to apply it.
    pub open spec fn after_apply(
        self,
        image: HostImage,
        table: OffsetTable,
        name: LogicalName,
        replacement: usize,
        writable: bool,
    ) -> PatchView {
        match self.apply_outcome(image, table, name, writable) {
            Ok(address) => PatchView { state: PatchState::Applied, address, value: replacement },
            Err(_) => self,
        }
    }
}

/// The patch of one function-pointer slot in the host's data. It is applied
/// once and never taken back.
#[derive(Clone, Copy, Debug, PartialEq, Eq, Structural)]
pub struct PointerPatch {
    state: PatchState,
    address: usize,
    value: usize,
}

impl View for PointerPatch {
    type V = PatchView;

    closed spec fn view(&self) -> PatchView {
        PatchView { state: self.state, address: self.address, value: self.value }
    }
}

impl PointerPatch {
    /// A patch that has not been applied.
    pub fn new() -> (p: PointerPatch)
        ensures
            p@ == PatchView::fresh(),
    {
        PointerPatch { state: PatchState::Pending, address: 0, value: 0 }
    }

    /// The state of the patch.
    pub fn state(&self) -> (r: PatchState)
        ensures
            r == self@.state,
    {
        self.state
    }

    /// Whether the slot holds the replacement.
    pub fn is_applied(&self) -> (r: bool)
        ensures
            r == (self@.state is Applied),
    {
        match self.state {
            PatchState::Applied => true,
            PatchState::Pending => false,
        }
    }

    /// Patches the slot that `name` stands for with the address
    /// `replacement`. `writable` says whether the memory of the resolved
    /// slot could be made writable. The write is handed back for the caller
    /// to make; a second patch of the same slot is refused. On an error the
    /// patch stays as it was.
    pub fn apply(
        &mut self,
        image: &HostImage,
        table: &OffsetTable,
        name: LogicalName,
        replacement: usize,
        writable: bool,
    ) -> (r: Result<SlotWrite, HookError>)
        requires
            image.wf(),
        ensures
            final(self)@ == old(self)@.after_apply(*image, *table, name, replacement, writable),
            (match old(self)@.apply_outcome(*image, *table, name, writable) {
                Ok(address) => r == Ok::<SlotWrite, HookError>(
                    SlotWrite { address, span: POINTER_SLOT_SPAN, value: replacement },
                ) && image.spec_contains(address),
                Err(e) => r == Err::<SlotWrite, HookError>(e),
            }),
    {
        match self.state {
            PatchState::Applied => {
                return Err(HookError::AlreadyInstalled);
            },
            PatchState::Pending => {},
        }
        let address = match locate(image, table, name, POINTER_SLOT_SPAN) {
            Err(e) => {
                return Err(e);
            },
            Ok(address) => address,
        };
        if !writable {
            return Err(HookError::ProtectionFailed);
        }
        self.state = PatchState::Applied;
        self.address = address;
        self.value = replacement;
        Ok(SlotWrite { address, span: POINTER_SLOT_SPAN, value: replacement })
    }
}

/// The toggles are idempotent and undo each other: a second request to
/// enable, or to disable, asks for nothing and changes nothing; disabling an
/// enabled hook gives the installed hook back; and the original stays
/// callable through all of it.
pub proof fn lemma_toggles_are_idempotent(hook: HookView)
    requires
        !(hook.state is Uninitialized),
    ensures
        hook.after_enable().enable_reply() == Ok::<HookAction, HookError>(HookAction::Nothing),
        hook.after_enable().after_enable() == hook.after_enable(),
        hook.after_disable().disable_reply() == Ok::<HookAction, HookError>(HookAction::Nothing),
        hook.after_disable().after_disable() == hook.after_disable(),
        hook.after_enable().after_disable() == hook.after_disable(),
        hook.after_enable().callable_original() == hook.callable_original(),
        hook.after_disable().callable_original() == hook.callable_original(),
        hook.callable_original() is Some,
{
}

/// No request but `install` moves a hook out of the uninitialized state.
pub proof fn lemma_uninitialized_hook_only_takes_install(hook: HookView)
    requires
        hook.state is Uninitialized,
    ensures
        hook.enable_reply() is Err,
        hook.disable_reply() is Err,
        hook.after_enable() == hook,
        hook.after_disable() == hook,
        hook.callable_original() is None,
        hook.destroy_action() == HookAction::Nothing,
{
}

} // verus!
