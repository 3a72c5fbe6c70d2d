//! Input events as the editor sees them: a key press with its modifier set,
//! or any other kind of event (resize, mouse, paste, ...), which the editor
//! ignores. The process edge that reads events from the device translates
//! into these plain values.

use vstd::prelude::*;

verus! {

/// The set of modifier keys held during a key press.
#[derive(Copy, Clone, Debug, PartialEq, Eq)]
pub struct Modifiers {
    pub control: bool,
    pub shift: bool,
    pub alt: bool,
    pub superkey: bool,
    pub hyper: bool,
    pub meta: bool,
}

impl Modifiers {
    /// The modifier set that holds control and nothing else.
    pub open spec fn control_only() -> Modifiers {
        Modifiers {
            control: true,
            shift: false,
            alt: false,
            superkey: false,
            hyper: false,
            meta: false,
        }
    }

    /// Builds the modifier set with no key held.
    pub fn none() -> (m: Modifiers)
        ensures
            m == (Modifiers {
                control: false,
                shift: false,
                alt: false,
                superkey: false,
                hyper: false,
                meta: false,
            }),
    {
        Modifiers {
            control: false,
            shift: false,
            alt: false,
            superkey: false,
            hyper: false,
            meta: false,
        }
    }

    /// Builds the modifier set that holds control and nothing else.
    pub fn control() -> (m: Modifiers)
        ensures
            m == Modifiers::control_only(),
    {
        Modifiers {
            control: true,
            shift: false,
            alt: false,
            superkey: false,
            hyper: false,
            meta: false,
        }
    }
}

/// What a key press carries besides its modifiers.
#[derive(Copy, Clone, Debug, PartialEq, Eq)]
pub enum KeyCode {
    /// A character key.
    Char(char),
    /// Any non-character key (arrows, function keys, ...).
    Other,
}

/// A single key press.
#[derive(Copy, Clone, Debug, PartialEq, Eq)]
pub struct KeyEvent {
    pub code: KeyCode,
    pub modifiers: Modifiers,
}

/// One input event from the device.
#[derive(Copy, Clone, Debug, PartialEq, Eq)]
pub enum Event {
    /// A key press.
    Key(KeyEvent),
    /// Any other event kind (resize, mouse, paste, ...); always ignored.
    Other,
}

} // verus!
