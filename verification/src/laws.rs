//! The classification and accumulation laws of the capture loop, stated
//! over the loop's step and run model and proved once and for all.

use vstd::prelude::*;
use crate::attr::KeyCode;
use crate::capture::{Event, KeyEvent, run, step};

verus! {

/// A key event with an empty modifier set and the Down arrow as its code
/// sets the keycode to "DOWN" and leaves the modifier exactly as it was.
pub proof fn down_arrow_names_down(modifier: Seq<char>, keycode: Seq<char>, key: KeyEvent)
    requires
        key.modifiers.spec_is_empty(),
        key.code == KeyCode::Down,
    ensures
        step(modifier, keycode, Event::Key(key)).1 == "DOWN"@,
        step(modifier, keycode, Event::Key(key)).0 == modifier,
{
}

/// Any key event whose code is Enter or the Right arrow sets the keycode
/// to "ENTER".
pub proof fn enter_or_right_names_enter(modifier: Seq<char>, keycode: Seq<char>, key: KeyEvent)
    requires
        key.code == KeyCode::Enter || key.code == KeyCode::Right,
    ensures
        step(modifier, keycode, Event::Key(key)).1 == "ENTER"@,
{
}

/// Any key event whose code is Escape or the Left arrow sets the keycode
/// to "ESC".
pub proof fn esc_or_left_names_esc(modifier: Seq<char>, keycode: Seq<char>, key: KeyEvent)
    requires
        key.code == KeyCode::Esc || key.code == KeyCode::Left,
    ensures
        step(modifier, keycode, Event::Key(key)).1 == "ESC"@,
{
}

/// Any key event held with exactly the Control key, whatever its key
/// code, sets the modifier to "CONTROL".
pub proof fn control_names_control(modifier: Seq<char>, keycode: Seq<char>, key: KeyEvent)
    requires
        key.modifiers.spec_is_control_only(),
    ensures
        step(modifier, keycode, Event::Key(key)).0 == "CONTROL"@,
{
}

/// Any key event held with a non-empty modifier set other than exactly
/// Control sets the modifier to "UNKNOWN".
pub proof fn other_modifiers_name_unknown(modifier: Seq<char>, keycode: Seq<char>, key: KeyEvent)
    requires
        !key.modifiers.spec_is_empty(),
        !key.modifiers.spec_is_control_only(),
    ensures
        step(modifier, keycode, Event::Key(key)).0 == "UNKNOWN"@,
{
}

/// A printable character pressed with no modifier sets the keycode to
/// that one-character string and leaves the modifier exactly as it was.
pub proof fn plain_char_names_itself(modifier: Seq<char>, keycode: Seq<char>, key: KeyEvent, c: char)
    requires
        key.modifiers.spec_is_empty(),
        key.code == KeyCode::Char(c),
    ensures
        step(modifier, keycode, Event::Key(key)).1 == seq![c],
        step(modifier, keycode, Event::Key(key)).0 == modifier,
{
}

/// Key codes alone never finish a capture: while the accumulated modifier
/// is still empty, a queue in which no key event carries a modifier runs
/// out without completing, whatever key codes it delivers.
pub proof fn no_modifier_no_capture(modifier: Seq<char>, keycode: Seq<char>, events: Seq<Event>)
    requires
        modifier.len() == 0,
        forall|i: int|
            0 <= i < events.len() ==> match #[trigger] events[i] {
                Event::Key(key) => key.modifiers.spec_is_empty(),
                Event::Other => true,
            },
    ensures
        run(modifier, keycode, events) is None,
    decreases events.len(),
{
    if events.len() > 0 {
        let next = step(modifier, keycode, events[0]);
        assert(next.0 == modifier);
        assert forall|i: int|
            0 <= i < events.drop_first().len() implies match #[trigger] events.drop_first()[i] {
            Event::Key(key) => key.modifiers.spec_is_empty(),
            Event::Other => true,
        } by {
            assert(events.drop_first()[i] == events[i + 1]);
        }
        no_modifier_no_capture(next.0, next.1, events.drop_first());
    }
}

} // verus!
