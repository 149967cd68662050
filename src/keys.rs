use vstd::prelude::*;
use crate::event::{InputEvent, EV_KEY};

verus! {

/// Offset between the kernel's scancodes and the layout library's keycodes.
pub const KEYCODE_OFFSET: u32 = 8;

/// Scancode of the numlock key, which may be held down at startup.
pub const NUMLOCK_SCANCODE: u16 = 69;

/// Whether a key goes up or down.
#[derive(Clone, Copy, Debug, PartialEq, Eq)]
pub enum KeyDirection {
    Up,
    Down,
}

/// The direction that an event value stands for: 0 is a release, 1 a press,
/// anything else (an auto-repeat) none.
pub open spec fn direction_of(value: u32) -> Option<KeyDirection> {
    if value == 0 {
        Some(KeyDirection::Up)
    } else if value == 1 {
        Some(KeyDirection::Down)
    } else {
        None
    }
}

/// Maps an event value to the direction that drives the layout state.
pub fn c_uint_to_key_direction(num: u32) -> (r: Option<KeyDirection>)
    ensures
        r == direction_of(num),
{
    match num {
        0 => Some(KeyDirection::Up),
        1 => Some(KeyDirection::Down),
        _ => None,
    }
}

/// The layout keycode of a kernel scancode.
pub fn keycode_of(code: u16) -> (r: u32)
    ensures
        r == code as u32 + KEYCODE_OFFSET,
{
    code as u32 + KEYCODE_OFFSET
}

/// The layout keycode of the numlock key.
pub fn numlock_keycode() -> (r: u32)
    ensures
        r == NUMLOCK_SCANCODE as u32 + KEYCODE_OFFSET,
{
    keycode_of(NUMLOCK_SCANCODE)
}

/// What a key event asks of the two state machines.
#[derive(Clone, Copy, Debug, PartialEq, Eq)]
pub struct KeyPlan {
    /// The layout keycode of the key.
    pub keycode: u32,
    /// The layout state update to make, if any.
    pub direction: Option<KeyDirection>,
    /// Whether the key's symbol goes to the compose state machine and text may
    /// be emitted.
    pub press: bool,
}

/// The plan for an event: none for an event that is not a key event.
pub open spec fn plan_of(ev: InputEvent) -> Option<KeyPlan> {
    if ev.type_ != EV_KEY {
        None
    } else {
        Some(
            KeyPlan {
                keycode: (ev.code as u32 + KEYCODE_OFFSET) as u32,
                direction: direction_of(ev.value),
                press: ev.value == 1,
            },
        )
    }
}

/// Decides what an event does: events of other types are ignored; a key event
/// updates the layout state on release and press, and a press alone goes on
/// to the compose state machine.
pub fn plan_event(ev: &InputEvent) -> (r: Option<KeyPlan>)
    ensures
        r == plan_of(*ev),
{
    if ev.type_ != EV_KEY {
        return None;
    }
    Some(
        KeyPlan {
            keycode: keycode_of(ev.code),
            direction: c_uint_to_key_direction(ev.value),
            press: ev.value == 1,
        },
    )
}

/// Releases and auto-repeats never reach the compose state machine; a release
/// only updates the layout state, and an auto-repeat does not even do that.
pub proof fn lemma_release_and_repeat_skip_compose(ev: InputEvent)
    requires
        ev.value != 1,
    ensures
        plan_of(ev) matches Some(p) ==> !p.press,
        plan_of(ev) matches Some(p) ==> (p.direction == if ev.value == 0 {
            Some(KeyDirection::Up)
        } else {
            None::<KeyDirection>
        }),
{
}

/// A press and a release of the same key ask the layout state for a matched
/// pair of updates, down then up on the same keycode, and only the press goes
/// on to the compose state machine.
pub proof fn lemma_press_release_pair_is_balanced(press: InputEvent, release: InputEvent)
    requires
        press.type_ == EV_KEY,
        release.type_ == EV_KEY,
        press.code == release.code,
        press.value == 1,
        release.value == 0,
    ensures
        plan_of(press) matches Some(p) && p.direction == Some(KeyDirection::Down) && p.press,
        plan_of(release) matches Some(r) && r.direction == Some(KeyDirection::Up) && !r.press,
        plan_of(press)->0.keycode == plan_of(release)->0.keycode,
{
}

} // verus!
