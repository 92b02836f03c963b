//! What the tray window does with the messages it receives.
use vstd::prelude::*;

verus! {

/// `WM_APP + 1`: the message the tray icon sends to its window.
pub const TRAY_CALLBACK_MESSAGE: u32 = 0x8001;
/// The menu command of the tray menu's Exit item.
pub const TRAY_EXIT_COMMAND_ID: usize = 1001;
pub const WM_DESTROY: u32 = 0x0002;
pub const WM_COMMAND: u32 = 0x0111;
pub const WM_RBUTTONUP: u32 = 0x0205;

/// What the tray window does with a message.
#[derive(Debug, Clone, Copy, PartialEq, Eq, Structural)]
pub enum TrayAction {
    /// Show the tray menu, then answer 0.
    ShowMenu,
    /// Destroy the tray window, then answer 0.
    DestroyWindow,
    /// Post the quit message, then answer 0.
    PostQuit,
    /// Answer 0.
    Handled,
    /// Leave the message to the default window procedure.
    Default,
}

/// A right-click on the icon shows the menu; the menu's Exit command destroys
/// the window; destroying the window ends the message loop; other tray and
/// command messages are answered with 0; the rest go to the default procedure.
pub fn tray_message_action(message: u32, wparam: usize, lparam: isize) -> (action: TrayAction)
    ensures
        message == TRAY_CALLBACK_MESSAGE ==> action == (if lparam as u32 == WM_RBUTTONUP {
            TrayAction::ShowMenu
        } else {
            TrayAction::Handled
        }),
        message == WM_COMMAND ==> action == (if wparam == TRAY_EXIT_COMMAND_ID {
            TrayAction::DestroyWindow
        } else {
            TrayAction::Handled
        }),
        message == WM_DESTROY ==> action == TrayAction::PostQuit,
        message != TRAY_CALLBACK_MESSAGE && message != WM_COMMAND && message != WM_DESTROY
            ==> action == TrayAction::Default,
{
    if message == TRAY_CALLBACK_MESSAGE {
        if lparam as u32 == WM_RBUTTONUP {
            TrayAction::ShowMenu
        } else {
            TrayAction::Handled
        }
    } else if message == WM_COMMAND {
        if wparam == TRAY_EXIT_COMMAND_ID {
            TrayAction::DestroyWindow
        } else {
            TrayAction::Handled
        }
    } else if message == WM_DESTROY {
        TrayAction::PostQuit
    } else {
        TrayAction::Default
    }
}

} // verus!
