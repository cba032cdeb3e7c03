//! The menu that picks the device to flash, and the question that follows
//! it.

use vstd::prelude::*;
use crate::menu::{Key, Selection};

verus! {

/// What follows a key in the list of devices.
#[derive(Clone, Copy, Debug, PartialEq, Eq, Structural)]
pub enum DriveMenuAction {
    /// Draw the list again and wait for the next key.
    Stay,
    /// Ask whether the device with this index is to be flashed.
    Confirm { device: usize },
    /// Leave the menu.
    Leave,
}

/// What follows a key under the question whether to flash the chosen device.
#[derive(Clone, Copy, Debug, PartialEq, Eq, Structural)]
pub enum ConfirmAction {
    /// Draw the question again and wait for the next key.
    Stay,
    /// Go on to flashing, and end the program after it.
    Flash,
    /// End the program.
    Exit,
}

/// What a key means in the list of devices, by the place of the cursor.
pub open spec fn drive_menu_action(selection: Selection, key: Key) -> DriveMenuAction {
    match key {
        Key::Enter => DriveMenuAction::Confirm { device: selection.selected },
        Key::Escape | Key::Quit => DriveMenuAction::Leave,
        _ => DriveMenuAction::Stay,
    }
}

/// What a key means under the question, whose first entry is yes and whose
/// second is no.
pub open spec fn confirm_action(selection: Selection, key: Key) -> ConfirmAction {
    match key {
        Key::Enter => if selection.selected == 0 {
            ConfirmAction::Flash
        } else if selection.selected == 1 {
            ConfirmAction::Exit
        } else {
            ConfirmAction::Stay
        },
        _ => ConfirmAction::Stay,
    }
}

/// One key in the list of devices, which is not empty. Up and down move
/// the cursor, enter picks the device under it, escape and `q` leave.
pub fn menu(selection: &mut Selection, key: Key) -> (action: DriveMenuAction)
    requires
        old(selection).wf(),
        old(selection).len > 0,
    ensures
        *final(selection) == old(selection).moved(key),
        final(selection).wf(),
        action == drive_menu_action(*old(selection), key),
        action matches DriveMenuAction::Confirm { device } ==> device < old(selection).len,
{
    selection.press(key);
    match key {
        Key::Enter => DriveMenuAction::Confirm { device: selection.selected },
        Key::Escape => DriveMenuAction::Leave,
        Key::Quit => DriveMenuAction::Leave,
        _ => DriveMenuAction::Stay,
    }
}

/// One key under the question whether to flash the chosen device.
pub fn confirm(selection: &mut Selection, key: Key) -> (action: ConfirmAction)
    requires
        old(selection).wf(),
    ensures
        *final(selection) == old(selection).moved(key),
        final(selection).wf(),
        action == confirm_action(*old(selection), key),
{
    selection.press(key);
    match key {
        Key::Enter => {
            if selection.selected == 0 {
                ConfirmAction::Flash
            } else if selection.selected == 1 {
                ConfirmAction::Exit
            } else {
                ConfirmAction::Stay
            }
        },
        _ => ConfirmAction::Stay,
    }
}

} // verus!
