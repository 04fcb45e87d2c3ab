//! What the tray tells the reminder, and how clicks on the tray icon and its
//! menu are read.

use vstd::prelude::*;
use crate::text::same_text;

verus! {

/// The identifier of the menu entry that brings the window back.
pub const SHOW_MENU_ID: &'static str = "show";

/// The identifier of the menu entry that ends the process.
pub const QUIT_MENU_ID: &'static str = "quit";

/// The two things the tray can ask of the reminder.
#[derive(Clone, Copy, Debug, PartialEq, Eq, Structural)]
pub enum TrayEvent {
    /// Bring the window back.
    ShowWindow,
    /// End the process.
    Quit,
}

/// A button of the pointing device.
#[derive(Clone, Copy, Debug, PartialEq, Eq, Structural)]
pub enum MouseButton {
    Left,
    Right,
    Middle,
}

/// Something that happened to the tray icon.
#[derive(Clone, Copy, Debug, PartialEq, Eq, Structural)]
pub enum IconEvent {
    Click(MouseButton),
    DoubleClick(MouseButton),
    /// The pointer entered, moved over or left the icon.
    Hover,
}

/// What the tray reports: a click on a menu entry, named by its identifier,
/// or a click on the icon itself.
#[derive(Debug)]
pub enum TrayMessage {
    MenuClick(String),
    IconClick,
}

/// What a click on the menu entry `id` asks for. Entries other than the two
/// known ones ask for nothing.
pub open spec fn menu_event(id: Seq<char>) -> Option<TrayEvent> {
    if id == SHOW_MENU_ID@ {
        Some(TrayEvent::ShowWindow)
    } else if id == QUIT_MENU_ID@ {
        Some(TrayEvent::Quit)
    } else {
        None
    }
}

/// Whether `event` counts as a click on the icon: a click or a double click
/// with the left button. The other buttons are left to the system, which
/// shows the menu.
pub open spec fn is_icon_click(event: IconEvent) -> bool {
    event == IconEvent::Click(MouseButton::Left) || event == IconEvent::DoubleClick(
        MouseButton::Left,
    )
}

/// What `message` asks for.
pub open spec fn message_event(message: TrayMessage) -> Option<TrayEvent> {
    match message {
        TrayMessage::MenuClick(id) => menu_event(id@),
        TrayMessage::IconClick => Some(TrayEvent::ShowWindow),
    }
}

/// Reads a click on the menu entry `id`.
pub fn read_menu_click(id: &str) -> (event: Option<TrayEvent>)
    ensures
        event == menu_event(id@),
{
    if same_text(id, SHOW_MENU_ID) {
        Some(TrayEvent::ShowWindow)
    } else if same_text(id, QUIT_MENU_ID) {
        Some(TrayEvent::Quit)
    } else {
        None
    }
}

/// Reads something that happened to the icon: a message where it counts as
/// a click, nothing otherwise.
pub fn read_icon_event(event: IconEvent) -> (message: Option<TrayMessage>)
    ensures
        is_icon_click(event) ==> message == Some(TrayMessage::IconClick),
        !is_icon_click(event) ==> message is None,
{
    match event {
        IconEvent::Click(MouseButton::Left) => Some(TrayMessage::IconClick),
        IconEvent::DoubleClick(MouseButton::Left) => Some(TrayMessage::IconClick),
        _ => None,
    }
}

impl Clone for TrayMessage {
    fn clone(&self) -> (copy: TrayMessage)
        ensures
            copy == *self,
    {
        match self {
            TrayMessage::MenuClick(id) => TrayMessage::MenuClick(id.clone()),
            TrayMessage::IconClick => TrayMessage::IconClick,
        }
    }
}

impl TrayMessage {
    /// What this message asks for, if anything.
    pub fn event(&self) -> (event: Option<TrayEvent>)
        ensures
            event == message_event(*self),
    {
        match self {
            TrayMessage::MenuClick(id) => read_menu_click(id.as_str()),
            TrayMessage::IconClick => Some(TrayEvent::ShowWindow),
        }
    }
}

} // verus!
