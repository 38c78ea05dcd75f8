//! What the main window does on the events of the tray menu, the tray icon
//! and the window's close button.

use crate::text::same_text;
use vstd::prelude::*;

verus! {

/// Identifier of the menu item that shows the window.
pub const MENU_SHOW: &'static str = "show";

/// Identifier of the menu item that ends the application.
pub const MENU_QUIT: &'static str = "quit";

/// A request to the window and tray controller.
#[derive(Clone, Copy, Debug, PartialEq, Eq, Structural)]
pub enum WindowCommand {
    /// Show the main window and give it the focus.
    Raise,
    /// Hide the main window; the application keeps running in the tray.
    Hide,
    /// End the process.
    Exit,
}

/// The answer to a request to close the main window.
#[derive(Clone, Copy, Debug, PartialEq, Eq, Structural)]
pub struct CloseResponse {
    /// Whether the close is refused.
    pub prevent_close: bool,
    /// What the window does instead.
    pub command: WindowCommand,
}

/// The command of the menu item `id`, as a specification.
pub open spec fn menu_choice(id: Seq<char>) -> Option<WindowCommand> {
    if id == MENU_SHOW@ {
        Some(WindowCommand::Raise)
    } else if id == MENU_QUIT@ {
        Some(WindowCommand::Exit)
    } else {
        None
    }
}

/// The command of the tray menu item `id`: the "show" item raises the
/// window, the "quit" item ends the process, any other item does nothing.
pub fn menu_command(id: &str) -> (command: Option<WindowCommand>)
    ensures
        command == menu_choice(id@),
{
    if same_text(id, MENU_SHOW) {
        Some(WindowCommand::Raise)
    } else if same_text(id, MENU_QUIT) {
        Some(WindowCommand::Exit)
    } else {
        None
    }
}

/// The command of a left click on the tray icon: it hides a visible window
/// and raises a hidden one. `visible` is `None` where the window could not
/// tell, which counts as hidden.
pub fn tray_click_command(visible: Option<bool>) -> (command: WindowCommand)
    ensures
        command == if visible == Some(true) {
            WindowCommand::Hide
        } else {
            WindowCommand::Raise
        },
{
    match visible {
        Some(true) => WindowCommand::Hide,
        _ => WindowCommand::Raise,
    }
}

/// The answer to the close button: the close is refused and the window is
/// hidden instead.
pub fn close_request_response() -> (response: CloseResponse)
    ensures
        response == (CloseResponse { prevent_close: true, command: WindowCommand::Hide }),
{
    CloseResponse { prevent_close: true, command: WindowCommand::Hide }
}

} // verus!
