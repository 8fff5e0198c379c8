//! The capture loop's state: a `(modifier, keycode)` pair accumulated
//! across incoming terminal events until both halves have been observed.

use vstd::prelude::*;
use crate::attr::{KeyCode, Modifiers, ValidKeyCodes, key_name, modifier_name};

verus! {

/// A key press: its key code and the modifier keys held with it.
#[derive(Clone, Copy, Debug, PartialEq, Eq, Structural)]
pub struct KeyEvent {
    pub code: KeyCode,
    pub modifiers: Modifiers,
}

/// One terminal input event: a key press, or any other kind of event
/// (a resize, a mouse movement, ...), which the capture loop ignores.
#[derive(Clone, Copy, Debug, PartialEq, Eq, Structural)]
pub enum Event {
    Key(KeyEvent),
    Other,
}

/// The normalized result of a capture: the name of the last observed
/// modifier set and the name of the last observed key code. Either field
/// is empty until an event has supplied it.
#[derive(Debug)]
pub struct KeyCapture {
    pub modifier: String,
    pub keycode: String,
}

/// What one event does to the accumulated `(modifier, keycode)` pair:
/// a non-key event changes nothing; a key event overwrites the modifier
/// when its modifier set is non-empty and the keycode when its code is
/// not the null code. The two halves are tracked independently, so they
/// may come from different events.
pub open spec fn step(modifier: Seq<char>, keycode: Seq<char>, event: Event) -> (Seq<
    char,
>, Seq<char>) {
    match event {
        Event::Key(key) => (
            if !key.modifiers.spec_is_empty() {
                modifier_name(key.modifiers)
            } else {
                modifier
            },
            if key.code != KeyCode::Null {
                key_name(key.code)
            } else {
                keycode
            },
        ),
        Event::Other => (modifier, keycode),
    }
}

/// A capture is complete once both the modifier and the keycode have been
/// observed at least once.
pub open spec fn captured(modifier: Seq<char>, keycode: Seq<char>) -> bool {
    modifier.len() >= 1 && keycode.len() >= 1
}

/// The capture loop run over a queue of incoming events, starting from an
/// already-accumulated pair: the pair as of the first event after which
/// the capture is complete, or `None` when the queue runs out first.
pub open spec fn run(modifier: Seq<char>, keycode: Seq<char>, events: Seq<Event>) -> Option<
    (Seq<char>, Seq<char>),
>
    decreases events.len(),
{
    if events.len() == 0 {
        None
    } else {
        let next = step(modifier, keycode, events[0]);
        if captured(next.0, next.1) {
            Some(next)
        } else {
            run(next.0, next.1, events.drop_first())
        }
    }
}

impl KeyCapture {
    /// Both halves observed.
    pub open spec fn complete(self) -> bool {
        captured(self.modifier@, self.keycode@)
    }

    /// A fresh capture: both fields empty.
    pub fn new() -> (r: KeyCapture)
        ensures
            r.modifier@ == Seq::<char>::empty(),
            r.keycode@ == Seq::<char>::empty(),
    {
        KeyCapture { modifier: String::new(), keycode: String::new() }
    }

    /// Folds one incoming event into the accumulated pair.
    pub fn process_event(&mut self, event: &Event)
        ensures
            final(self).modifier@ == step(old(self).modifier@, old(self).keycode@, *event).0,
            final(self).keycode@ == step(old(self).modifier@, old(self).keycode@, *event).1,
    {
        match event {
            Event::Key(key) => {
                if !key.modifiers.is_empty() {
                    self.modifier = ValidKeyCodes::from_val(
                        ValidKeyCodes::KeyModifiers(key.modifiers),
                    );
                }
                if key.code != KeyCode::Null {
                    self.keycode = ValidKeyCodes::from_val(ValidKeyCodes::KeyCode(key.code));
                }
            },
            Event::Other => {},
        }
    }

    /// Whether the capture loop may stop: both fields non-empty.
    pub fn is_complete(&self) -> (r: bool)
        ensures
            r == self.complete(),
    {
        !self.modifier.as_str().is_empty() && !self.keycode.as_str().is_empty()
    }
}

/// The model of a returned capture.
pub open spec fn capture_view(r: Option<KeyCapture>) -> Option<(Seq<char>, Seq<char>)> {
    match r {
        Some(capture) => Some((capture.modifier@, capture.keycode@)),
        None => None,
    }
}

/// Runs the capture loop over a finite queue of injected events, starting
/// from a fresh (empty, empty) pair: returns the capture as of the first
/// event that completes it, or `None` when no prefix of the queue does.
pub fn capture_from_events(events: &Vec<Event>) -> (r: Option<KeyCapture>)
    ensures
        capture_view(r) == run(Seq::<char>::empty(), Seq::<char>::empty(), events@),
{
    let mut data = KeyCapture::new();
    let mut i: usize = 0;
    proof {
        assert(events@.skip(0) =~= events@);
    }
    while i < events.len()
        invariant
            0 <= i <= events@.len(),
            !captured(data.modifier@, data.keycode@),
            run(Seq::<char>::empty(), Seq::<char>::empty(), events@) == run(
                data.modifier@,
                data.keycode@,
                events@.skip(i as int),
            ),
        decreases events@.len() - i,
    {
        proof {
            assert(events@.skip(i as int)[0] == events@[i as int]);
            assert(events@.skip(i as int).drop_first() =~= events@.skip(i as int + 1));
        }
        data.process_event(&events[i]);
        if data.is_complete() {
            return Some(data);
        }
        i = i + 1;
    }
    None
}

} // verus!
