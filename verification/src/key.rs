//! Hardware keys and key events, and the mapping from raw input-device
//! key codes to keys.

use vstd::prelude::*;

verus! {

/// A physical key on the handheld.
#[derive(Debug, Clone, Copy, PartialEq, Eq, Structural)]
pub enum Key {
    Up,
    Down,
    Left,
    Right,
    A,
    B,
    X,
    Y,
    Start,
    Select,
    L,
    R,
    Menu,
    L2,
    R2,
    Power,
    VolDown,
    VolUp,
    LidClose,
    Unknown,
}

/// A key event as delivered by the input device.
#[derive(Debug, Clone, Copy, PartialEq, Eq, Structural)]
pub enum KeyEvent {
    Pressed(Key),
    Released(Key),
    Autorepeat(Key),
}

impl KeyEvent {
    pub open spec fn key(self) -> Key {
        match self {
            KeyEvent::Pressed(k) => k,
            KeyEvent::Released(k) => k,
            KeyEvent::Autorepeat(k) => k,
        }
    }
}

/// The key a raw event-device key code stands for.
pub open spec fn key_of_code(code: u16) -> Key {
    if code == 103 {
        Key::Up
    } else if code == 108 {
        Key::Down
    } else if code == 105 {
        Key::Left
    } else if code == 106 {
        Key::Right
    } else if code == 57 {
        Key::A
    } else if code == 29 {
        Key::B
    } else if code == 42 {
        Key::X
    } else if code == 56 {
        Key::Y
    } else if code == 28 {
        Key::Start
    } else if code == 97 {
        Key::Select
    } else if code == 18 {
        Key::L
    } else if code == 20 {
        Key::R
    } else if code == 1 {
        Key::Menu
    } else if code == 15 {
        Key::L2
    } else if code == 14 {
        Key::R2
    } else if code == 116 {
        Key::Power
    } else if code == 114 {
        Key::VolDown
    } else if code == 115 {
        Key::VolUp
    } else {
        Key::Unknown
    }
}

/// Exec twin of [`key_of_code`].
fn key_from_code(code: u16) -> (k: Key)
    ensures
        k == key_of_code(code),
{
    if code == 103 {
        Key::Up
    } else if code == 108 {
        Key::Down
    } else if code == 105 {
        Key::Left
    } else if code == 106 {
        Key::Right
    } else if code == 57 {
        Key::A
    } else if code == 29 {
        Key::B
    } else if code == 42 {
        Key::X
    } else if code == 56 {
        Key::Y
    } else if code == 28 {
        Key::Start
    } else if code == 97 {
        Key::Select
    } else if code == 18 {
        Key::L
    } else if code == 20 {
        Key::R
    } else if code == 1 {
        Key::Menu
    } else if code == 15 {
        Key::L2
    } else if code == 14 {
        Key::R2
    } else if code == 116 {
        Key::Power
    } else if code == 114 {
        Key::VolDown
    } else if code == 115 {
        Key::VolUp
    } else {
        Key::Unknown
    }
}

impl From<u16> for Key {
    /// Maps the event-device key codes of the handheld's buttons onto keys;
    /// every unassigned code maps to `Key::Unknown`.
    fn from(code: u16) -> (k: Key) {
        key_from_code(code)
    }
}

impl vstd::std_specs::convert::FromSpecImpl<u16> for Key {
    open spec fn obeys_from_spec() -> bool {
        true
    }

    open spec fn from_spec(code: u16) -> Key {
        key_of_code(code)
    }
}

/// Raw event-device event kinds; only key events carry input.
pub const EVENT_TYPE_KEY: u16 = 1;

/// Classifies one raw input-device event. Events that are not key events,
/// stale key events, and the impossible value range all yield nothing, so the
/// poll loop keeps waiting.
pub fn classify_event(event_type: u16, code: u16, value: i32, stale: bool) -> (r: Option<KeyEvent>)
    ensures
        r == if event_type == EVENT_TYPE_KEY && !stale && 0 <= value <= 2 {
            if value == 0 {
                Some(KeyEvent::Released(key_of_code(code)))
            } else if value == 1 {
                Some(KeyEvent::Pressed(key_of_code(code)))
            } else {
                Some(KeyEvent::Autorepeat(key_of_code(code)))
            }
        } else {
            None::<KeyEvent>
        },
{
    if event_type != EVENT_TYPE_KEY || stale {
        return None;
    }
    let key = key_from_code(code);
    if value == 0 {
        Some(KeyEvent::Released(key))
    } else if value == 1 {
        Some(KeyEvent::Pressed(key))
    } else if value == 2 {
        Some(KeyEvent::Autorepeat(key))
    } else {
        None
    }
}

/// Watches the lid switch: reports a key event only when the observed state
/// differs from the remembered one.
pub struct LidSwitchPoller {
    pub is_lid_open: bool,
}

impl LidSwitchPoller {
    pub fn new(is_lid_open: bool) -> (p: LidSwitchPoller)
        ensures
            p.is_lid_open == is_lid_open,
    {
        LidSwitchPoller { is_lid_open }
    }

    /// Feeds one observation of the lid switch. A change to open reports a
    /// release, a change to closed reports a press; no change reports nothing.
    pub fn poll(&mut self, is_lid_open: bool) -> (r: Option<KeyEvent>)
        ensures
            final(self).is_lid_open == is_lid_open,
            r == if is_lid_open == old(self).is_lid_open {
                None::<KeyEvent>
            } else if is_lid_open {
                Some(KeyEvent::Released(Key::LidClose))
            } else {
                Some(KeyEvent::Pressed(Key::LidClose))
            },
    {
        if is_lid_open != self.is_lid_open {
            self.is_lid_open = is_lid_open;
            if is_lid_open {
                Some(KeyEvent::Released(Key::LidClose))
            } else {
                Some(KeyEvent::Pressed(Key::LidClose))
            }
        } else {
            None
        }
    }
}

} // verus!
