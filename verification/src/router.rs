//! The touch router: one context that owns both layers, the live contacts and
//! the redraw flag, and a step function from an input event to the next state
//! and the key reports that go out.

use std::collections::HashMap;
use vstd::prelude::*;
use vstd::std_specs::hash::group_hash_axioms;
use crate::button::Button;
use crate::keys::{is_layer_key, spec_layer_key, InputEvent};
use crate::layer::{spec_dirty, spec_repaint, Frame, FunctionLayer};
use crate::layout::{
    button_hit, hit_column, spec_button_hit, spec_full_clip, spec_hit_column, thickness_fits,
    SUBPIXELS,
};
use crate::names::{names_touch_bar, spec_contains, spec_marker};

verus! {

/// The two layers that can be shown.
#[derive(Clone, Copy, Debug, PartialEq, Eq, Structural)]
pub enum LayerType {
    Function,
    Special,
}

/// Which layer shows while the layer key is released, and which while it is held.
#[derive(Clone, Copy, Debug, PartialEq, Eq, Structural)]
pub struct UiConfig {
    pub primary_layer: LayerType,
    pub secondary_layer: LayerType,
}

/// The configuration as a whole.
#[derive(Clone, Copy, Debug, PartialEq, Eq, Structural)]
pub struct Config {
    pub ui: UiConfig,
}

/// What a live contact presses: fixed when the contact lands.
#[derive(Clone, Copy, Debug, PartialEq, Eq, Structural)]
pub struct Binding {
    pub layer: LayerType,
    pub button: u32,
}

/// A normalised input event. Devices are told apart by a number that the
/// caller gives them; a device's name comes as UTF-8 bytes; positions are
/// fixed-point pixels of the canvas with sixteen fractional bits, `x` along
/// the row and `y` across it.
#[derive(Debug)]
pub enum Event {
    DeviceAdded { device: u64, name: Vec<u8> },
    Key { code: u32, pressed: bool },
    TouchDown { device: u64, slot: u32, x: u32, y: u32 },
    TouchMotion { device: u64, slot: u32, x: u32, y: u32 },
    TouchUp { device: u64, slot: u32 },
    Other,
}

impl Event {
    /// The contact that a touch event speaks of.
    pub open spec fn contact(self) -> Option<u32> {
        match self {
            Event::TouchDown { slot, .. } => Some(slot),
            Event::TouchMotion { slot, .. } => Some(slot),
            Event::TouchUp { slot, .. } => Some(slot),
            _ => None,
        }
    }
}

/// The router's state as plain mathematical values.
pub struct State {
    pub config: UiConfig,
    pub width: u16,
    pub height: u16,
    pub function: Seq<Button>,
    pub special: Seq<Button>,
    pub active_layer: LayerType,
    pub needs_complete_redraw: bool,
    pub digitizer: Option<u64>,
    pub touches: Map<u32, Binding>,
}

impl State {
    /// The buttons of layer `l`.
    pub open spec fn layer(self, l: LayerType) -> Seq<Button> {
        match l {
            LayerType::Function => self.function,
            LayerType::Special => self.special,
        }
    }

    /// The state with the buttons of layer `l` replaced.
    pub open spec fn with_layer(self, l: LayerType, buttons: Seq<Button>) -> State {
        match l {
            LayerType::Function => State { function: buttons, ..self },
            LayerType::Special => State { special: buttons, ..self },
        }
    }

    /// Both layers have a size that the layout accepts, and every live
    /// contact is bound to a button that exists.
    pub open spec fn inv(self) -> bool {
        &&& 2 <= self.function.len() <= u32::MAX
        &&& 2 <= self.special.len() <= u32::MAX
        &&& forall|slot: u32| #[trigger]
            self.touches.contains_key(slot) ==> self.touches[slot].button < self.layer(
                self.touches[slot].layer,
            ).len()
    }

    /// The state after button `b` was asked to be `active`.
    pub open spec fn press(self, b: Binding, active: bool) -> State {
        let buttons = self.layer(b.layer);
        self.with_layer(
            b.layer,
            buttons.update(b.button as int, buttons[b.button as int].spec_set_active(active)),
        )
    }

    /// Whether touch events of `device` count: it is the touch strip, and the
    /// backlight is on.
    pub open spec fn accepts_touch(self, device: u64, backlight: u32) -> bool {
        self.digitizer == Some(device) && backlight != 0
    }

    /// The button that a landing contact hits on the active layer, if any.
    pub open spec fn landing(self, x: u32, y: u32) -> Option<Binding> {
        match spec_hit_column(
            self.layer(self.active_layer).len() as int,
            self.width * SUBPIXELS,
            self.height * SUBPIXELS,
            x as int,
            y as int,
        ) {
            Some(button) => Some(Binding { layer: self.active_layer, button }),
            None => None,
        }
    }

    /// Whether the point lies on the button that `b` names.
    pub open spec fn on_button(self, b: Binding, x: u32, y: u32) -> bool {
        spec_button_hit(
            self.layer(b.layer).len() as int,
            b.button as int,
            self.width * SUBPIXELS,
            self.height * SUBPIXELS,
            x as int,
            y as int,
        )
    }

    /// The button that an event asks to press or release, with the state it
    /// asks for; `None` where the event touches no button.
    pub open spec fn target(self, backlight: u32, ev: Event) -> Option<(Binding, bool)> {
        match ev {
            Event::TouchDown { device, slot, x, y } => {
                if self.accepts_touch(device, backlight) {
                    match self.landing(x, y) {
                        Some(b) => Some((b, true)),
                        None => None,
                    }
                } else {
                    None
                }
            },
            Event::TouchMotion { device, slot, x, y } => {
                if self.accepts_touch(device, backlight) && self.touches.contains_key(slot) {
                    Some((self.touches[slot], self.on_button(self.touches[slot], x, y)))
                } else {
                    None
                }
            },
            Event::TouchUp { device, slot } => {
                if self.accepts_touch(device, backlight) && self.touches.contains_key(slot) {
                    Some((self.touches[slot], false))
                } else {
                    None
                }
            },
            _ => None,
        }
    }

    /// The live contacts after an event that touches button `b`.
    pub open spec fn tracked_after(self, ev: Event, b: Binding) -> Map<u32, Binding> {
        match ev {
            Event::TouchDown { device, slot, x, y } => self.touches.insert(slot, b),
            Event::TouchUp { device, slot } => self.touches.remove(slot),
            _ => self.touches,
        }
    }

    /// The state after the layer key went down (`pressed`) or up: the layer
    /// that the configuration names for that edge shows; where that is a
    /// change, a complete redraw is due and all live contacts are dropped.
    pub open spec fn switch(self, pressed: bool) -> State {
        let new_layer = if pressed {
            self.config.secondary_layer
        } else {
            self.config.primary_layer
        };
        if self.active_layer != new_layer {
            State {
                active_layer: new_layer,
                needs_complete_redraw: true,
                touches: Map::empty(),
                ..self
            }
        } else {
            self
        }
    }

    /// The state after one event.
    pub open spec fn step(self, backlight: u32, ev: Event) -> State {
        match ev {
            Event::DeviceAdded { device, name } => {
                if spec_contains(name@, spec_marker()) {
                    State { digitizer: Some(device), ..self }
                } else {
                    self
                }
            },
            Event::Key { code, pressed } => {
                if code == spec_layer_key() {
                    self.switch(pressed)
                } else {
                    self
                }
            },
            _ => match self.target(backlight, ev) {
                Some((b, active)) => State {
                    touches: self.tracked_after(ev, b),
                    ..self.press(b, active)
                },
                None => self,
            },
        }
    }

    /// The key reports that one event sends out.
    pub open spec fn output(self, backlight: u32, ev: Event) -> Seq<InputEvent> {
        match self.target(backlight, ev) {
            Some((b, active)) => self.layer(b.layer)[b.button as int].spec_emitted(active),
            None => Seq::empty(),
        }
    }

    /// Whether a redraw is due: a complete one, or some button of the active
    /// layer is out of date.
    pub open spec fn redraw_due(self) -> bool {
        let buttons = self.layer(self.active_layer);
        self.needs_complete_redraw || exists|i: int| 0 <= i < buttons.len() && buttons[i].changed
    }

    /// The state after a redraw: every button of the active layer is up to
    /// date and no complete redraw is due.
    pub open spec fn redrawn(self) -> State {
        State {
            needs_complete_redraw: false,
            ..self.with_layer(
                self.active_layer,
                self.layer(self.active_layer).map_values(|b: Button| b.spec_settled()),
            )
        }
    }
}

/// The context of the event loop: configuration, canvas size, both layers,
/// the layer that shows, whether a complete redraw is due, the device
/// recognised as the touch strip, and the live contacts.
pub struct Touchbar {
    pub config: UiConfig,
    pub width: u16,
    pub height: u16,
    pub function: FunctionLayer,
    pub special: FunctionLayer,
    pub active_layer: LayerType,
    pub needs_complete_redraw: bool,
    pub digitizer: Option<u64>,
    pub touches: HashMap<u32, Binding>,
}

impl View for Touchbar {
    type V = State;

    open spec fn view(&self) -> State {
        State {
            config: self.config,
            width: self.width,
            height: self.height,
            function: self.function.buttons@,
            special: self.special.buttons@,
            active_layer: self.active_layer,
            needs_complete_redraw: self.needs_complete_redraw,
            digitizer: self.digitizer,
            touches: self.touches@,
        }
    }
}

impl Touchbar {
    /// A context at start: the primary layer shows, a complete redraw is due,
    /// no touch strip is known and no contact is live.
    pub fn new(
        config: Config,
        width: u16,
        height: u16,
        function: FunctionLayer,
        special: FunctionLayer,
    ) -> (bar: Touchbar)
        requires
            function.wf(),
            special.wf(),
        ensures
            bar@ == (State {
                config: config.ui,
                width,
                height,
                function: function.buttons@,
                special: special.buttons@,
                active_layer: config.ui.primary_layer,
                needs_complete_redraw: true,
                digitizer: None,
                touches: Map::empty(),
            }),
            bar@.inv(),
    {
        broadcast use group_hash_axioms;

        Touchbar {
            config: config.ui,
            width,
            height,
            function,
            special,
            active_layer: config.ui.primary_layer,
            needs_complete_redraw: true,
            digitizer: None,
            touches: HashMap::new(),
        }
    }

    /// The number of buttons of layer `l`.
    pub fn layer_len(&self, l: LayerType) -> (n: usize)
        ensures
            n == self@.layer(l).len(),
    {
        match l {
            LayerType::Function => self.function.buttons.len(),
            LayerType::Special => self.special.buttons.len(),
        }
    }

    /// Whether touch events of `device` count.
    pub fn accepts_touch(&self, device: u64, backlight: u32) -> (r: bool)
        ensures
            r == self@.accepts_touch(device, backlight),
    {
        match self.digitizer {
            Some(d) => d == device && backlight != 0,
            None => false,
        }
    }

    /// Asks the button that `b` names to be `active`.
    fn press(&mut self, b: Binding, active: bool, sink: &mut Vec<InputEvent>)
        requires
            b.button < old(self)@.layer(b.layer).len(),
        ensures
            final(self)@ == old(self)@.press(b, active),
            final(self).touches == old(self).touches,
            final(sink)@ == old(sink)@ + old(self)@.layer(b.layer)[b.button as int].spec_emitted(
                active,
            ),
    {
        match b.layer {
            LayerType::Function => {
                self.function.buttons[b.button as usize].set_active(sink, active);
                assert(self@.function =~= old(self)@.press(b, active).function);
            },
            LayerType::Special => {
                self.special.buttons[b.button as usize].set_active(sink, active);
                assert(self@.special =~= old(self)@.press(b, active).special);
            },
        }
    }

    /// Switches to the layer that the configuration names for this edge of
    /// the layer key.
    pub fn switch_layer(&mut self, pressed: bool)
        ensures
            final(self)@ == old(self)@.switch(pressed),
    {
        let new_layer = if pressed {
            self.config.secondary_layer
        } else {
            self.config.primary_layer
        };
        if self.active_layer != new_layer {
            self.active_layer = new_layer;
            self.needs_complete_redraw = true;
            self.touches.clear();
        }
    }

    /// Takes one input event: updates the state and appends to `sink` the
    /// key reports that the event sends out.
    pub fn handle_event(&mut self, event: &Event, backlight: u32, sink: &mut Vec<InputEvent>)
        requires
            old(self)@.inv(),
        ensures
            final(self)@ == old(self)@.step(backlight, *event),
            final(self)@.inv(),
            final(sink)@ == old(sink)@ + old(self)@.output(backlight, *event),
    {
        broadcast use group_hash_axioms;

        match event {
            Event::DeviceAdded { device, name } => {
                if names_touch_bar(name.as_slice()) {
                    self.digitizer = Some(*device);
                }
                assert(sink@ =~= old(sink)@ + Seq::<InputEvent>::empty());
            },
            Event::Key { code, pressed } => {
                if is_layer_key(*code) {
                    self.switch_layer(*pressed);
                }
                assert(sink@ =~= old(sink)@ + Seq::<InputEvent>::empty());
            },
            Event::TouchDown { device, slot, x, y } => {
                if !self.accepts_touch(*device, backlight) {
                    assert(sink@ =~= old(sink)@ + Seq::<InputEvent>::empty());
                    return ;
                }
                let num = self.layer_len(self.active_layer);
                match hit_column(num as u32, self.width, self.height, *x, *y) {
                    Some(button) => {
                        let b = Binding { layer: self.active_layer, button };
                        self.touches.insert(*slot, b);
                        self.press(b, true, sink);
                    },
                    None => {
                        assert(sink@ =~= old(sink)@ + Seq::<InputEvent>::empty());
                    },
                }
            },
            Event::TouchMotion { device, slot, x, y } => {
                if !self.accepts_touch(*device, backlight) {
                    assert(sink@ =~= old(sink)@ + Seq::<InputEvent>::empty());
                    return ;
                }
                let bound: Option<Binding> = match self.touches.get(slot) {
                    Some(b) => Some(*b),
                    None => None,
                };
                match bound {
                    Some(b) => {
                        let num = self.layer_len(b.layer);
                        let hit = button_hit(num as u32, b.button, self.width, self.height, *x, *y);
                        self.press(b, hit, sink);
                    },
                    None => {
                        assert(sink@ =~= old(sink)@ + Seq::<InputEvent>::empty());
                    },
                }
            },
            Event::TouchUp { device, slot } => {
                if !self.accepts_touch(*device, backlight) {
                    assert(sink@ =~= old(sink)@ + Seq::<InputEvent>::empty());
                    return ;
                }
                match self.touches.remove(slot) {
                    Some(b) => {
                        self.press(b, false, sink);
                    },
                    None => {
                        assert(self.touches@ =~= old(self).touches@);
                        assert(sink@ =~= old(sink)@ + Seq::<InputEvent>::empty());
                    },
                }
            },
            Event::Other => {
                assert(sink@ =~= old(sink)@ + Seq::<InputEvent>::empty());
            },
        }
    }

    /// Plans the redraw that is due, if any, and marks it as done.
    pub fn redraw(&mut self) -> (frame: Option<Frame>)
        requires
            old(self)@.inv(),
            thickness_fits(old(self).height as int),
        ensures
            frame.is_some() == old(self)@.redraw_due(),
            final(self)@ == (if old(self)@.redraw_due() {
                old(self)@.redrawn()
            } else {
                old(self)@
            }),
            final(self)@.inv(),
            frame matches Some(f) ==> {
                &&& f.clear == old(self)@.needs_complete_redraw
                &&& f.repaint@ == spec_repaint(
                    old(self)@.layer(old(self)@.active_layer),
                    old(self)@.needs_complete_redraw,
                )
                &&& f.clips@ == spec_dirty(
                    old(self)@.layer(old(self)@.active_layer),
                    old(self)@.width,
                    old(self)@.height,
                    old(self)@.needs_complete_redraw,
                )
            },
    {
        let complete = self.needs_complete_redraw;
        let width = self.width;
        let height = self.height;
        match self.active_layer {
            LayerType::Function => {
                if complete || self.function.any_changed() {
                    let f = self.function.draw(width, height, complete);
                    self.needs_complete_redraw = false;
                    Some(f)
                } else {
                    None
                }
            },
            LayerType::Special => {
                if complete || self.special.any_changed() {
                    let f = self.special.draw(width, height, complete);
                    self.needs_complete_redraw = false;
                    Some(f)
                } else {
                    None
                }
            },
        }
    }
}

/// A motion event never rebinds a contact: however far the contact moves,
/// the live contacts and what each is bound to stay as they were.
pub proof fn lemma_motion_keeps_bindings(s: State, backlight: u32, ev: Event)
    requires
        ev is TouchMotion,
    ensures
        s.step(backlight, ev).touches == s.touches,
        s.step(backlight, ev).active_layer == s.active_layer,
{
}

/// Once a contact is bound, no event but a landing of the same contact gives
/// it another binding: after any other event it is bound as before, or gone.
pub proof fn lemma_binding_stable(s: State, backlight: u32, ev: Event, slot: u32)
    requires
        s.touches.contains_key(slot),
        !(ev is TouchDown && ev.contact() == Some(slot)),
    ensures
        s.step(backlight, ev).touches.contains_key(slot) ==> s.step(backlight, ev).touches[slot]
            == s.touches[slot],
{
}

/// A contact that lands on no button is not tracked, changes nothing and
/// sends nothing, and neither does any later motion or release of it.
pub proof fn lemma_missed_contact_ignored(
    s: State,
    backlight: u32,
    device: u64,
    slot: u32,
    x: u32,
    y: u32,
    later_backlight: u32,
    later: Event,
)
    requires
        !s.touches.contains_key(slot),
        s.landing(x, y) is None,
        later is TouchMotion || later is TouchUp,
        later.contact() == Some(slot),
    ensures
        s.step(backlight, Event::TouchDown { device, slot, x, y }) == s,
        s.output(backlight, Event::TouchDown { device, slot, x, y }) == Seq::<InputEvent>::empty(),
        s.step(later_backlight, later) == s,
        s.output(later_backlight, later) == Seq::<InputEvent>::empty(),
{
}

/// An edge of the layer key that changes the layer makes a redraw due whose
/// only dirty rectangle is the whole canvas; an edge that changes nothing
/// leaves the state as it was, and with equal primary and secondary layers no
/// edge changes anything once that layer shows. Either way the buttons keep
/// their state and nothing is sent.
pub proof fn lemma_switch_redraws(s: State, backlight: u32, pressed: bool)
    ensures
        ({
            let ev = Event::Key { code: spec_layer_key(), pressed };
            let next = s.step(backlight, ev);
            &&& next.active_layer != s.active_layer ==> {
                &&& next.redraw_due()
                &&& spec_dirty(
                    next.layer(next.active_layer),
                    next.width,
                    next.height,
                    next.needs_complete_redraw,
                ) == seq![spec_full_clip(s.width as int, s.height as int)]
            }
            &&& next.active_layer == s.active_layer ==> next == s
            &&& s.config.primary_layer == s.config.secondary_layer && s.active_layer
                == s.config.primary_layer ==> next == s
            &&& next.function == s.function
            &&& next.special == s.special
            &&& s.output(backlight, ev) == Seq::<InputEvent>::empty()
        }),
{
}

/// Every event keeps the state well formed.
pub proof fn lemma_step_keeps_inv(s: State, backlight: u32, ev: Event)
    requires
        s.inv(),
    ensures
        s.step(backlight, ev).inv(),
{
    let next = s.step(backlight, ev);
    assert forall|slot: u32| #[trigger] next.touches.contains_key(slot) implies next.touches[slot].button
        < next.layer(next.touches[slot].layer).len() by {
        if s.touches.contains_key(slot) {
            assert(s.touches[slot].button < s.layer(s.touches[slot].layer).len());
        }
    }
}

} // verus!
