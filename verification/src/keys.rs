//! The keys that edit text.
use vstd::prelude::*;
use winit::keyboard::KeyCode;

verus! {

/// `winit::keyboard::KeyCode`, the physical keys that a window reports.
/// The declaration hands Verus the enum with its variants, so that the code
/// below tells the keys apart itself.
#[verifier::external_type_specification]
pub struct ExKeyCode(KeyCode);

/// An editing command that a key press stands for.
#[derive(Clone, Copy, Debug, PartialEq, Eq, Structural)]
pub enum EditKey {
    Backspace,
    Delete,
    Left,
    Right,
    Home,
    End,
}

/// The editing command that the key `key` stands for, if it is an editing
/// key: backspace, forward delete, the left and right arrows, home and end.
pub open spec fn edit_key_of(key: KeyCode) -> Option<EditKey> {
    match key {
        KeyCode::Backspace => Some(EditKey::Backspace),
        KeyCode::Delete => Some(EditKey::Delete),
        KeyCode::ArrowLeft => Some(EditKey::Left),
        KeyCode::ArrowRight => Some(EditKey::Right),
        KeyCode::Home => Some(EditKey::Home),
        KeyCode::End => Some(EditKey::End),
        _ => None,
    }
}

/// The editing command that the key `key` stands for.
pub fn classify(key: KeyCode) -> (r: Option<EditKey>)
    ensures
        r == edit_key_of(key),
{
    match key {
        KeyCode::Backspace => Some(EditKey::Backspace),
        KeyCode::Delete => Some(EditKey::Delete),
        KeyCode::ArrowLeft => Some(EditKey::Left),
        KeyCode::ArrowRight => Some(EditKey::Right),
        KeyCode::Home => Some(EditKey::Home),
        KeyCode::End => Some(EditKey::End),
        _ => None,
    }
}

} // verus!
