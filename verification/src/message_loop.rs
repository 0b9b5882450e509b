//! The native message pump that owns the hook, and the window toggle that
//! the hotkey and the tray menu both lead to.

use crate::hotkey::{
    uninstall_command, uninstall_hook, HookCommand, HookSlot, WM_QUIT, WM_TOGGLE_VISIBILITY,
};
use crate::text::same_text;
use vstd::prelude::*;

verus! {

/// What the pump does with one retrieved message.
#[derive(Clone, Copy, Debug, PartialEq, Eq, Structural)]
pub enum PumpStep {
    /// Leave the loop and uninstall the hook.
    Quit,
    /// Toggle the visibility of the main window, then go on.
    ToggleWindow,
    /// Go on with the next message.
    Ignore,
}

/// The step owed for a message, where `retrieved` is what the retrieval
/// returned (zero once the quit message has been taken off the queue).
pub open spec fn pump_step_spec(retrieved: i32, message: u32) -> PumpStep {
    if retrieved == 0 || message == WM_QUIT {
        PumpStep::Quit
    } else if message == WM_TOGGLE_VISIBILITY {
        PumpStep::ToggleWindow
    } else {
        PumpStep::Ignore
    }
}

/// Decides what the pump does with one retrieved message. The pump hosts no
/// window procedure: every message but the two it knows is dropped.
pub fn pump_step(retrieved: i32, message: u32) -> (step: PumpStep)
    ensures
        step == pump_step_spec(retrieved, message),
{
    if retrieved == 0 || message == WM_QUIT {
        PumpStep::Quit
    } else if message == WM_TOGGLE_VISIBILITY {
        PumpStep::ToggleWindow
    } else {
        PumpStep::Ignore
    }
}

/// Handles one retrieved message on the thread that owns the hook: the hook
/// lives exactly as long as the pump runs, so the step that ends the pump
/// also uninstalls the hook, and no other step touches it.
pub fn on_message(slot: &mut HookSlot, retrieved: i32, message: u32) -> (outcome: (
    PumpStep,
    HookCommand,
))
    ensures
        outcome.0 == pump_step_spec(retrieved, message),
        outcome.0 == PumpStep::Quit ==> final(slot)@ is None && outcome.1 == uninstall_command(
            old(slot)@,
        ),
        outcome.0 != PumpStep::Quit ==> final(slot)@ == old(slot)@ && outcome.1
            == HookCommand::Nothing,
{
    let step = pump_step(retrieved, message);
    match step {
        PumpStep::Quit => (step, uninstall_hook(slot)),
        _ => (step, HookCommand::Nothing),
    }
}

/// What is known of the main window when it is to be toggled.
#[derive(Clone, Copy, Debug, PartialEq, Eq, Structural)]
pub enum WindowProbe {
    /// There is no main window, or not yet.
    Missing,
    /// The window is on screen.
    Visible,
    /// The window is hidden.
    Hidden,
    /// The window exists, but would not say whether it is visible.
    Unknown,
}

/// One request to the main window.
#[derive(Clone, Copy, Debug, PartialEq, Eq, Structural)]
pub enum WindowCommand {
    Show,
    SetFocus,
    Hide,
}

/// The requests that toggle the window: a visible window is hidden, any
/// other is shown and focused, and a missing one is left alone.
pub open spec fn toggle_commands(probe: WindowProbe) -> Seq<WindowCommand> {
    match probe {
        WindowProbe::Missing => seq![],
        WindowProbe::Visible => seq![WindowCommand::Hide],
        _ => seq![WindowCommand::Show, WindowCommand::SetFocus],
    }
}

/// Whether the window is on screen once the requests were carried out, as
/// far as that is known.
pub open spec fn visible_after(commands: Seq<WindowCommand>) -> Option<bool> {
    if commands.len() == 0 {
        None
    } else if commands[0] == WindowCommand::Hide {
        Some(false)
    } else {
        Some(true)
    }
}

/// Says how to toggle the visibility of the main window.
pub fn toggle_window(probe: WindowProbe) -> (commands: Vec<WindowCommand>)
    ensures
        commands@ == toggle_commands(probe),
{
    let mut commands: Vec<WindowCommand> = Vec::new();
    match probe {
        WindowProbe::Missing => {},
        WindowProbe::Visible => {
            commands.push(WindowCommand::Hide);
        },
        _ => {
            commands.push(WindowCommand::Show);
            commands.push(WindowCommand::SetFocus);
        },
    }
    assert(commands@ =~= toggle_commands(probe));
    commands
}

/// Toggling inverts the visibility of a window whose visibility is known,
/// and never touches a window that does not exist.
pub proof fn lemma_toggle_inverts(probe: WindowProbe)
    ensures
        probe == WindowProbe::Visible ==> visible_after(toggle_commands(probe)) == Some(false),
        probe == WindowProbe::Hidden ==> visible_after(toggle_commands(probe)) == Some(true),
        probe == WindowProbe::Missing ==> toggle_commands(probe).len() == 0,
{
}

/// An entry of the tray menu.
#[derive(Clone, Copy, Debug, PartialEq, Eq, Structural)]
pub enum MenuAction {
    /// End the process.
    Quit,
    /// Show the notification that explains the key bindings.
    Help,
    /// Toggle the visibility of the main window.
    ToggleVisibility,
    /// An identifier that the menu does not have.
    Unrecognized,
}

/// The menu entry with the given identifier.
pub open spec fn menu_action_spec(id: Seq<char>) -> MenuAction {
    if id == "quit"@ {
        MenuAction::Quit
    } else if id == "help"@ {
        MenuAction::Help
    } else if id == "toggle_visibility"@ {
        MenuAction::ToggleVisibility
    } else {
        MenuAction::Unrecognized
    }
}

/// Finds the menu entry that an event of the tray menu names.
pub fn menu_action(id: &str) -> (action: MenuAction)
    ensures
        action == menu_action_spec(id@),
{
    if same_text(id, "quit") {
        MenuAction::Quit
    } else if same_text(id, "help") {
        MenuAction::Help
    } else if same_text(id, "toggle_visibility") {
        MenuAction::ToggleVisibility
    } else {
        MenuAction::Unrecognized
    }
}

} // verus!
