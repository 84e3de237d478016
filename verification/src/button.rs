//! A single button of the row.

use vstd::prelude::*;
use crate::keys::{toggle_key, InputEvent, spec_key_report, spec_key_value};

verus! {

/// What a button shows: a fixed label, or an icon named by its resource.
#[derive(Clone, Copy, Debug)]
pub enum ButtonImage {
    Text(&'static str),
    Svg(&'static str),
}

/// A button: its picture, the key it stands for, whether a contact presses it
/// and whether its picture is out of date.
#[derive(Clone, Copy, Debug)]
pub struct Button {
    pub image: ButtonImage,
    pub changed: bool,
    pub active: bool,
    pub action: u16,
}

impl Button {
    /// The button after `set_active(active)`.
    pub open spec fn spec_set_active(self, active: bool) -> Button {
        if self.active != active {
            Button { active, changed: true, ..self }
        } else {
            self
        }
    }

    /// The records that `set_active(active)` emits.
    pub open spec fn spec_emitted(self, active: bool) -> Seq<InputEvent> {
        if self.active != active {
            spec_key_report(self.action, spec_key_value(active))
        } else {
            Seq::empty()
        }
    }

    /// The button with its picture brought up to date.
    pub open spec fn spec_settled(self) -> Button {
        Button { changed: false, ..self }
    }

    /// A released, up-to-date button that shows `text`.
    pub fn new_text(text: &'static str, action: u16) -> (b: Button)
        ensures
            b == (Button { image: ButtonImage::Text(text), changed: false, active: false, action }),
    {
        Button { action, active: false, changed: false, image: ButtonImage::Text(text) }
    }

    /// A released, up-to-date button that shows the icon named `name`.
    pub fn new_svg(name: &'static str, action: u16) -> (b: Button)
        ensures
            b == (Button { image: ButtonImage::Svg(name), changed: false, active: false, action }),
    {
        Button { action, active: false, changed: false, image: ButtonImage::Svg(name) }
    }

    /// Presses or releases the button. Where the state really changes, the
    /// button is marked for repainting and one key report goes out; where it
    /// does not, nothing happens.
    pub fn set_active(&mut self, sink: &mut Vec<InputEvent>, active: bool)
        ensures
            *final(self) == old(self).spec_set_active(active),
            final(sink)@ == old(sink)@ + old(self).spec_emitted(active),
    {
        if self.active != active {
            self.active = active;
            self.changed = true;
            toggle_key(sink, self.action, if active { 1 } else { 0 });
        } else {
            assert(sink@ =~= old(sink)@ + old(self).spec_emitted(active));
        }
    }
}

/// Asking twice for the same state changes the button once and emits one
/// report: the second request changes nothing and emits nothing.
pub proof fn lemma_set_active_idempotent(b: Button, active: bool)
    ensures
        b.spec_set_active(active).spec_set_active(active) == b.spec_set_active(active),
        b.spec_set_active(active).spec_emitted(active) == Seq::<InputEvent>::empty(),
        b.spec_emitted(active) + b.spec_set_active(active).spec_emitted(active) == b.spec_emitted(
            active,
        ),
        b.active != active ==> b.spec_emitted(active).len() == 2,
{
    assert(b.spec_emitted(active) + Seq::<InputEvent>::empty() =~= b.spec_emitted(active));
}

} // verus!
