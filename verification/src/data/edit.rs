//! Editing commands a tab or extension popup can carry out.

use vstd::prelude::*;

use crate::codes;

verus! {

/// An editing command applied to the focused content.
#[derive(Debug, Clone, Copy, PartialEq, Eq, Structural)]
pub enum ChromeEditAction {
    Undo,
    Redo,
    Cut,
    Copy,
    Paste,
    SelectAll,
}

/// Wire code of an edit action.
pub open spec fn edit_action_code(action: ChromeEditAction) -> u8 {
    match action {
        ChromeEditAction::Undo => codes::EDIT_ACTION_UNDO,
        ChromeEditAction::Redo => codes::EDIT_ACTION_REDO,
        ChromeEditAction::Cut => codes::EDIT_ACTION_CUT,
        ChromeEditAction::Copy => codes::EDIT_ACTION_COPY,
        ChromeEditAction::Paste => codes::EDIT_ACTION_PASTE,
        ChromeEditAction::SelectAll => codes::EDIT_ACTION_SELECT_ALL,
    }
}

/// Wire code of an edit action.
pub fn edit_action_to_ffi(action: ChromeEditAction) -> (code: u8)
    ensures
        code == edit_action_code(action),
{
    match action {
        ChromeEditAction::Undo => codes::EDIT_ACTION_UNDO,
        ChromeEditAction::Redo => codes::EDIT_ACTION_REDO,
        ChromeEditAction::Cut => codes::EDIT_ACTION_CUT,
        ChromeEditAction::Copy => codes::EDIT_ACTION_COPY,
        ChromeEditAction::Paste => codes::EDIT_ACTION_PASTE,
        ChromeEditAction::SelectAll => codes::EDIT_ACTION_SELECT_ALL,
    }
}

/// Distinct edit actions have distinct codes.
pub proof fn lemma_edit_action_codes_injective(a: ChromeEditAction, b: ChromeEditAction)
    ensures
        edit_action_code(a) == edit_action_code(b) ==> a == b,
{
}

} // verus!
