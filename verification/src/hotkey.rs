//! The low-level keyboard hook: which key events raise the toggle signal, and
//! the lifecycle of the single hook handle.

use vstd::prelude::*;

verus! {

/// Hook code that tells a hook procedure to process the event.
pub const HC_ACTION: i32 = 0;

/// Hook kind of a low-level keyboard hook.
pub const WH_KEYBOARD_LL: i32 = 13;

/// Message identifier of a key press.
pub const WM_KEYDOWN: u32 = 0x0100;

/// Message identifier that ends a message loop.
pub const WM_QUIT: u32 = 0x0012;

/// First message identifier that applications may define for themselves.
pub const WM_USER: u32 = 0x0400;

/// Thread message that asks the owner of the hook to toggle its window.
pub const WM_TOGGLE_VISIBILITY: u32 = WM_USER + 1;

/// Virtual-key code of the Control key.
pub const VK_CONTROL: i32 = 0x11;

/// Virtual-key code of the comma key.
pub const VK_OEM_COMMA: u32 = 0xBC;

/// What a hook procedure does for one keyboard event, in order.
#[derive(Clone, Copy, Debug, PartialEq, Eq, Structural)]
pub enum HookAction {
    /// Post a thread message with this identifier and no payload to the
    /// thread that installed the hook.
    PostThreadMessage(u32),
    /// Hand the event to the next hook in the chain.
    CallNextHook,
}

/// A key is down when the most significant bit of its polled state is set.
pub open spec fn key_is_down(key_state: i16) -> bool {
    key_state < 0
}

/// The event is a press of the comma key that the hook has to process.
pub open spec fn is_hotkey_candidate_spec(code: i32, message: u32, vk_code: u32) -> bool {
    code == HC_ACTION && message == WM_KEYDOWN && vk_code == VK_OEM_COMMA
}

/// The event is the hotkey chord: a comma press while Control is held.
pub open spec fn is_hotkey(code: i32, message: u32, vk_code: u32, control_state: i16) -> bool {
    is_hotkey_candidate_spec(code, message, vk_code) && key_is_down(control_state)
}

/// The actions owed for one keyboard event.
pub open spec fn hook_actions(code: i32, message: u32, vk_code: u32, control_state: i16) -> Seq<
    HookAction,
> {
    if is_hotkey(code, message, vk_code, control_state) {
        seq![HookAction::PostThreadMessage(WM_TOGGLE_VISIBILITY), HookAction::CallNextHook]
    } else {
        seq![HookAction::CallNextHook]
    }
}

/// How often `action` occurs in `actions`.
pub open spec fn occurrences(actions: Seq<HookAction>, action: HookAction) -> nat
    decreases actions.len(),
{
    if actions.len() == 0 {
        0
    } else {
        let rest = occurrences(actions.drop_last(), action);
        if actions.last() == action {
            rest + 1
        } else {
            rest
        }
    }
}

/// Tells whether a polled key state reports the key as held.
pub fn control_held(key_state: i16) -> (held: bool)
    ensures
        held == key_is_down(key_state),
{
    assert((key_state & -32768i16 != 0) == (key_state < 0)) by (bit_vector);
    key_state & -32768i16 != 0
}

/// Tells whether the state of the Control key decides what the event does:
/// only for such an event does the caller have to poll the key.
pub fn is_hotkey_candidate(code: i32, message: u32, vk_code: u32) -> (candidate: bool)
    ensures
        candidate == is_hotkey_candidate_spec(code, message, vk_code),
{
    code == HC_ACTION && message == WM_KEYDOWN && vk_code == VK_OEM_COMMA
}

/// Decides what the hook procedure does for one keyboard event.
///
/// `control_state` is the polled state of the Control key; it is read only
/// for a hotkey candidate.
pub fn low_level_keyboard_proc(
    code: i32,
    message: u32,
    vk_code: u32,
    control_state: i16,
) -> (actions: Vec<HookAction>)
    ensures
        actions@ == hook_actions(code, message, vk_code, control_state),
{
    let mut actions: Vec<HookAction> = Vec::new();
    if is_hotkey_candidate(code, message, vk_code) && control_held(control_state) {
        actions.push(HookAction::PostThreadMessage(WM_TOGGLE_VISIBILITY));
    }
    actions.push(HookAction::CallNextHook);
    assert(actions@ =~= hook_actions(code, message, vk_code, control_state));
    actions
}

/// Every keyboard event is handed to the next hook exactly once, as the last
/// thing done for it, whether or not it is the hotkey.
pub proof fn lemma_forwards_exactly_once(code: i32, message: u32, vk_code: u32, control_state: i16)
    ensures
        occurrences(
            hook_actions(code, message, vk_code, control_state),
            HookAction::CallNextHook,
        ) == 1,
        hook_actions(code, message, vk_code, control_state).last() == HookAction::CallNextHook,
{
    let actions = hook_actions(code, message, vk_code, control_state);
    reveal_with_fuel(occurrences, 3);
    if is_hotkey(code, message, vk_code, control_state) {
        assert(actions.drop_last() =~= seq![
            HookAction::PostThreadMessage(WM_TOGGLE_VISIBILITY),
        ]);
        assert(actions.drop_last().drop_last() =~= Seq::<HookAction>::empty());
    } else {
        assert(actions.drop_last() =~= Seq::<HookAction>::empty());
    }
}

/// A press of the comma key with Control held raises the toggle signal
/// exactly once; the same key without Control, any other key, any other
/// message and any event that the hook is told to pass on raise none. No
/// other message is ever posted.
pub proof fn lemma_hotkey_specificity(
    code: i32,
    message: u32,
    vk_code: u32,
    control_state: i16,
    posted: u32,
)
    ensures
        occurrences(
            hook_actions(code, message, vk_code, control_state),
            HookAction::PostThreadMessage(WM_TOGGLE_VISIBILITY),
        ) == if code == HC_ACTION && message == WM_KEYDOWN && vk_code == VK_OEM_COMMA
            && control_state < 0 {
            1nat
        } else {
            0nat
        },
        posted != WM_TOGGLE_VISIBILITY ==> occurrences(
            hook_actions(code, message, vk_code, control_state),
            HookAction::PostThreadMessage(posted),
        ) == 0,
{
    let actions = hook_actions(code, message, vk_code, control_state);
    reveal_with_fuel(occurrences, 3);
    if is_hotkey(code, message, vk_code, control_state) {
        assert(actions.drop_last() =~= seq![
            HookAction::PostThreadMessage(WM_TOGGLE_VISIBILITY),
        ]);
        assert(actions.drop_last().drop_last() =~= Seq::<HookAction>::empty());
    } else {
        assert(actions.drop_last() =~= Seq::<HookAction>::empty());
    }
}

/// What the owner of the hook asks of the operating system.
#[derive(Clone, Copy, Debug, PartialEq, Eq, Structural)]
pub enum HookCommand {
    /// Register the hook procedure and report the handle that comes back.
    Register,
    /// Remove the hook with this handle.
    Unregister(usize),
    /// Nothing.
    Nothing,
}

/// The one place that holds the handle of the installed hook.
#[derive(Clone, Copy, Debug, PartialEq, Eq, Structural)]
pub struct HookSlot {
    handle: usize,
}

/// The handle value that stands for no hook.
pub const INVALID_HOOK: usize = 0;

/// A handle names a hook unless it is one of the two values that the
/// operating system keeps for "none": zero and all bits set.
pub open spec fn is_valid_hook(handle: usize) -> bool {
    handle != INVALID_HOOK && handle != usize::MAX
}

impl View for HookSlot {
    type V = Option<usize>;

    /// The handle of the installed hook, if one is installed.
    closed spec fn view(&self) -> Option<usize> {
        if is_valid_hook(self.handle) {
            Some(self.handle)
        } else {
            None
        }
    }
}

/// What installing asks for: a registration, unless a hook is installed.
pub open spec fn install_command(slot: Option<usize>) -> HookCommand {
    if slot is None {
        HookCommand::Register
    } else {
        HookCommand::Nothing
    }
}

/// The slot after the operating system answered a registration with
/// `handle`: an empty slot takes a valid handle; nothing else changes it.
pub open spec fn slot_after_registration(slot: Option<usize>, handle: usize) -> Option<usize> {
    if slot is None && is_valid_hook(handle) {
        Some(handle)
    } else {
        slot
    }
}

/// What is owed once the operating system answered a registration with
/// `handle`: a valid handle that the slot cannot take is given back.
pub open spec fn registration_command(slot: Option<usize>, handle: usize) -> HookCommand {
    if slot is Some && is_valid_hook(handle) && slot != Some(handle) {
        HookCommand::Unregister(handle)
    } else {
        HookCommand::Nothing
    }
}

/// What uninstalling asks for: the removal of the installed hook, if any.
pub open spec fn uninstall_command(slot: Option<usize>) -> HookCommand {
    match slot {
        Some(handle) => HookCommand::Unregister(handle),
        None => HookCommand::Nothing,
    }
}

/// Tells whether a handle names a hook.
pub fn is_valid(handle: usize) -> (valid: bool)
    ensures
        valid == is_valid_hook(handle),
{
    handle != INVALID_HOOK && handle != usize::MAX
}

impl HookSlot {
    /// A slot with no hook installed.
    pub fn new() -> (slot: HookSlot)
        ensures
            slot@ is None,
    {
        HookSlot { handle: INVALID_HOOK }
    }

    /// Whether a hook is installed.
    pub fn is_installed(&self) -> (installed: bool)
        ensures
            installed == (self@ is Some),
    {
        is_valid(self.handle)
    }

    /// The handle of the installed hook, if one is installed.
    pub fn handle(&self) -> (handle: Option<usize>)
        ensures
            handle == self@,
            handle matches Some(installed) ==> is_valid_hook(installed),
    {
        if is_valid(self.handle) {
            Some(self.handle)
        } else {
            None
        }
    }

    /// Takes in the answer of the operating system to a registration:
    /// `handle` is what it returned, [`INVALID_HOOK`] where it refused. A
    /// refusal leaves the hotkey disabled and nothing else amiss.
    pub fn hook_registered(&mut self, handle: usize) -> (command: HookCommand)
        ensures
            final(self)@ == slot_after_registration(old(self)@, handle),
            command == registration_command(old(self)@, handle),
    {
        if !is_valid(handle) {
            HookCommand::Nothing
        } else if !is_valid(self.handle) {
            self.handle = handle;
            HookCommand::Nothing
        } else if self.handle == handle {
            HookCommand::Nothing
        } else {
            HookCommand::Unregister(handle)
        }
    }
}

/// Installs the hook: asks for a registration unless a hook is installed.
/// The caller reports the handle to [`HookSlot::hook_registered`].
pub fn install_hook(slot: &HookSlot) -> (command: HookCommand)
    ensures
        command == install_command(slot@),
{
    if slot.is_installed() {
        HookCommand::Nothing
    } else {
        HookCommand::Register
    }
}

/// Uninstalls the hook: empties the slot and asks for the removal of the
/// hook that was in it. Does nothing where none is installed.
pub fn uninstall_hook(slot: &mut HookSlot) -> (command: HookCommand)
    ensures
        final(slot)@ is None,
        command == uninstall_command(old(slot)@),
{
    let command = match slot.handle() {
        Some(handle) => HookCommand::Unregister(handle),
        None => HookCommand::Nothing,
    };
    slot.handle = INVALID_HOOK;
    command
}

/// The hooks that the operating system holds for the process after it has
/// carried out `command`; a registration makes it hold `granted`, unless it
/// refuses, which a `granted` that names no hook stands for.
pub open spec fn registered_after(
    registered: Set<usize>,
    command: HookCommand,
    granted: usize,
) -> Set<usize> {
    match command {
        HookCommand::Register => if is_valid_hook(granted) {
            registered.insert(granted)
        } else {
            registered
        },
        HookCommand::Unregister(handle) => registered.remove(handle),
        HookCommand::Nothing => registered,
    }
}

/// The slot and the registered hooks after one whole install, in which the
/// operating system answers a registration with `granted`.
pub open spec fn installed(slot: Option<usize>, registered: Set<usize>, granted: usize) -> (
    Option<usize>,
    Set<usize>,
) {
    if install_command(slot) == HookCommand::Register {
        let asked = registered_after(registered, HookCommand::Register, granted);
        (
            slot_after_registration(slot, granted),
            registered_after(asked, registration_command(slot, granted), granted),
        )
    } else {
        (slot, registered)
    }
}

/// The slot and the registered hooks after an uninstall.
pub open spec fn uninstalled(slot: Option<usize>, registered: Set<usize>) -> (
    Option<usize>,
    Set<usize>,
) {
    (None, registered_after(registered, uninstall_command(slot), INVALID_HOOK))
}

/// The slot and the registered hooks after one install for each entry of
/// `grants`, in order.
pub open spec fn installed_repeatedly(
    slot: Option<usize>,
    registered: Set<usize>,
    grants: Seq<usize>,
) -> (Option<usize>, Set<usize>)
    decreases grants.len(),
{
    if grants.len() == 0 {
        (slot, registered)
    } else {
        let before = installed_repeatedly(slot, registered, grants.drop_last());
        installed(before.0, before.1, grants.last())
    }
}

/// The slot accounts for every hook of the process: the registered hooks
/// are the one in the slot, or none.
pub open spec fn slot_accounts_for(slot: Option<usize>, registered: Set<usize>) -> bool {
    &&& slot matches Some(handle) ==> is_valid_hook(handle)
    &&& registered == match slot {
        Some(handle) => set![handle],
        None => Set::<usize>::empty(),
    }
}

/// Installing is idempotent: once a hook is installed, a further install
/// asks nothing of the operating system and changes nothing, so two installs
/// in a row leave exactly one hook registered.
pub proof fn lemma_install_idempotent(first: usize, second: usize)
    requires
        is_valid_hook(first),
    ensures
        installed(None, Set::empty(), first) == (Some(first), set![first]),
        install_command(Some(first)) == HookCommand::Nothing,
        installed(Some(first), set![first], second) == (Some(first), set![first]),
        set![first].len() == 1,
{
    assert(Set::<usize>::empty().insert(first) =~= set![first]);
}

/// Whatever the operating system answers, an install keeps the slot in
/// account of the registered hooks: never more than one is registered.
pub proof fn lemma_install_keeps_account(
    slot: Option<usize>,
    registered: Set<usize>,
    granted: usize,
)
    requires
        slot_accounts_for(slot, registered),
    ensures
        slot_accounts_for(
            installed(slot, registered, granted).0,
            installed(slot, registered, granted).1,
        ),
        slot is Some ==> installed(slot, registered, granted) == (slot, registered),
        installed(slot, registered, granted).1.len() <= 1,
        installed(slot, registered, granted).1.finite(),
{
    let after = installed(slot, registered, granted);
    if slot is None && is_valid_hook(granted) {
        assert(after.1 =~= set![granted]);
    } else {
        assert(after.1 =~= registered);
    }
}

/// An uninstall after any number of installs, redundant or not, removes the
/// hook altogether: the slot is empty and no hook is registered.
pub proof fn lemma_uninstall_removes(grants: Seq<usize>)
    ensures
        slot_accounts_for(
            installed_repeatedly(None, Set::empty(), grants).0,
            installed_repeatedly(None, Set::empty(), grants).1,
        ),
        uninstalled(
            installed_repeatedly(None, Set::empty(), grants).0,
            installed_repeatedly(None, Set::empty(), grants).1,
        ) == (None::<usize>, Set::<usize>::empty()),
        uninstall_command(None) == HookCommand::Nothing,
    decreases grants.len(),
{
    let start: Set<usize> = Set::empty();
    if grants.len() > 0 {
        lemma_uninstall_removes(grants.drop_last());
        let before = installed_repeatedly(None, start, grants.drop_last());
        lemma_install_keeps_account(before.0, before.1, grants.last());
    }
    let after = installed_repeatedly(None, start, grants);
    assert(uninstalled(after.0, after.1).1 =~= Set::<usize>::empty());
}


} // verus!
