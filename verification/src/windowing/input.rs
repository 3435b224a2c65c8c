//! The input state of one window: what is held down now, and what happened
//! since the current iteration began.

use crate::ieee::{Float32, Float64};
use crate::windowing::action::{AxisMotion, Gesture, KeyAction, KeyActionState, MouseAction};
use crate::windowing::event::{
    AxisId, DeviceId, ElementState, KeyEvent, MouseButton, PhysicalPosition, Touch,
};
use crate::windowing::held_keys::{
    clone_code_set, codes_in, holds_code, insert_code, new_code_set, remove_code,
};
use crate::windowing::keyboard::{KeyCode, LogicalKey, Modifiers, NamedKey, PhysicalKey};
use ahash::AHashSet;
use vstd::prelude::*;

verus! {

/// What an [`InputState`] holds, as mathematical values.
#[verifier::ext_equal]
pub struct InputStateView {
    pub cursor_pos: Option<PhysicalPosition<Float32>>,
    pub cursor_pos_prev: Option<PhysicalPosition<Float32>>,
    pub mouse_actions: Seq<MouseAction>,
    pub mouse_left_held: bool,
    pub mouse_right_held: bool,
    pub mouse_middle_held: bool,
    pub mouse_back_held: bool,
    pub mouse_forward_held: bool,
    /// Set by a button press, cleared by a release, a cursor move and a
    /// reset.
    pub not_moved_since_press: bool,
    pub key_actions: Seq<KeyAction>,
    pub keys_held_physical: Set<KeyCode>,
    pub keys_held_logical: Set<NamedKey>,
    pub modifiers: Modifiers,
    pub gestures: Seq<Gesture>,
    pub touches: Seq<Touch>,
    pub axis_motions: Seq<AxisMotion>,
}

/// Two optional positions are equal: both absent, or both present with
/// coordinates that are equal numbers.
pub open spec fn same_position(
    a: Option<PhysicalPosition<Float32>>,
    b: Option<PhysicalPosition<Float32>>,
) -> bool {
    match (a, b) {
        (None, None) => true,
        (Some(p), Some(q)) => p.x.is_ieee_eq(q.x) && p.y.is_ieee_eq(q.y),
        _ => false,
    }
}

/// The values of the motions that concern `axis` (and `device_id`, where one
/// is given), in the order of the motions.
pub open spec fn axis_values(
    motions: Seq<AxisMotion>,
    axis: AxisId,
    device_id: Option<DeviceId>,
) -> Seq<Float64>
    decreases motions.len(),
{
    if motions.len() == 0 {
        Seq::empty()
    } else if motions.last().concerns(axis, device_id) {
        axis_values(motions.drop_last(), axis, device_id).push(motions.last().value)
    } else {
        axis_values(motions.drop_last(), axis, device_id)
    }
}

/// The key action that a key event is recorded as.
pub open spec fn key_action_of(event: KeyEvent) -> KeyAction {
    KeyAction {
        physical_key: event.physical_key,
        logical_key: event.logical_key,
        state: KeyActionState::of_event(event.state, event.repeat),
    }
}

impl InputStateView {
    /// The state of a window that has seen no input.
    pub open spec fn initial() -> InputStateView {
        InputStateView {
            cursor_pos: None,
            cursor_pos_prev: None,
            mouse_actions: Seq::empty(),
            mouse_left_held: false,
            mouse_right_held: false,
            mouse_middle_held: false,
            mouse_back_held: false,
            mouse_forward_held: false,
            not_moved_since_press: false,
            key_actions: Seq::empty(),
            keys_held_physical: Set::empty(),
            keys_held_logical: Set::empty(),
            modifiers: Modifiers::none(),
            gestures: Seq::empty(),
            touches: Seq::empty(),
            axis_motions: Seq::empty(),
        }
    }

    /// The state at the start of the next iteration: the cursor position
    /// becomes the previous one and the records of the iteration are dropped.
    /// What is held, and the modifiers, stay.
    pub open spec fn reset(self) -> InputStateView {
        InputStateView {
            cursor_pos_prev: self.cursor_pos,
            mouse_actions: Seq::empty(),
            key_actions: Seq::empty(),
            not_moved_since_press: false,
            gestures: Seq::empty(),
            touches: Seq::empty(),
            axis_motions: Seq::empty(),
            ..self
        }
    }

    /// The physical keys held after a key event: a press of a key with a code
    /// adds the code, a release takes it out, a key without a code changes
    /// nothing.
    pub open spec fn physical_after(self, event: KeyEvent) -> Set<KeyCode> {
        match event.physical_key {
            PhysicalKey::Code(key_code) => match event.state {
                ElementState::Pressed => self.keys_held_physical.insert(key_code),
                ElementState::Released => self.keys_held_physical.remove(key_code),
            },
            PhysicalKey::Unidentified(_) => self.keys_held_physical,
        }
    }

    /// The named keys held after a key event, by the same rule.
    pub open spec fn logical_after(self, event: KeyEvent) -> Set<NamedKey> {
        match event.logical_key {
            LogicalKey::Named(named_key) => match event.state {
                ElementState::Pressed => self.keys_held_logical.insert(named_key),
                ElementState::Released => self.keys_held_logical.remove(named_key),
            },
            _ => self.keys_held_logical,
        }
    }

    /// The state after a key event: one more key action, and the two held
    /// sets brought up to date independently.
    pub open spec fn keyboard_input(self, event: KeyEvent) -> InputStateView {
        InputStateView {
            key_actions: self.key_actions.push(key_action_of(event)),
            keys_held_physical: self.physical_after(event),
            keys_held_logical: self.logical_after(event),
            ..self
        }
    }

    /// The state with the held flag of `button` set to `value`; a button
    /// without a flag changes nothing.
    pub open spec fn with_button(self, button: MouseButton, value: bool) -> InputStateView {
        match button {
            MouseButton::Left => InputStateView { mouse_left_held: value, ..self },
            MouseButton::Right => InputStateView { mouse_right_held: value, ..self },
            MouseButton::Middle => InputStateView { mouse_middle_held: value, ..self },
            MouseButton::Back => InputStateView { mouse_back_held: value, ..self },
            MouseButton::Forward => InputStateView { mouse_forward_held: value, ..self },
            MouseButton::Other(_) => self,
        }
    }

    /// The state after a mouse button event.
    pub open spec fn mouse_input(self, state: ElementState, button: MouseButton) -> InputStateView {
        let pressed = state == ElementState::Pressed;
        InputStateView {
            mouse_actions: self.mouse_actions.push(MouseAction { button, state }),
            not_moved_since_press: pressed,
            ..self.with_button(button, pressed)
        }
    }

    pub open spec fn gesture(self, gesture: Gesture) -> InputStateView {
        InputStateView { gestures: self.gestures.push(gesture), ..self }
    }

    pub open spec fn touch(self, touch: Touch) -> InputStateView {
        InputStateView { touches: self.touches.push(touch), ..self }
    }

    pub open spec fn axis_motion(self, axis_motion: AxisMotion) -> InputStateView {
        InputStateView { axis_motions: self.axis_motions.push(axis_motion), ..self }
    }

    /// The state after a cursor sample. A position inside the frame is
    /// recorded and ends "not moved since press"; a sample outside the frame
    /// (`None`) leaves no current position. The previous position is not
    /// touched.
    pub open spec fn cursor_moved(self, position: Option<PhysicalPosition<Float32>>) -> InputStateView {
        match position {
            Some(_) => InputStateView {
                cursor_pos: position,
                not_moved_since_press: false,
                ..self
            },
            None => InputStateView { cursor_pos: None, ..self },
        }
    }

    pub open spec fn modifiers_changed(self, modifiers: Modifiers) -> InputStateView {
        InputStateView { modifiers, ..self }
    }

    /// The state after a run of key events.
    pub open spec fn after_keys(self, events: Seq<KeyEvent>) -> InputStateView
        decreases events.len(),
    {
        if events.len() == 0 {
            self
        } else {
            self.after_keys(events.drop_last()).keyboard_input(events.last())
        }
    }

    pub open spec fn is_button_held(self, button: MouseButton) -> bool {
        match button {
            MouseButton::Left => self.mouse_left_held,
            MouseButton::Right => self.mouse_right_held,
            MouseButton::Middle => self.mouse_middle_held,
            MouseButton::Back => self.mouse_back_held,
            MouseButton::Forward => self.mouse_forward_held,
            MouseButton::Other(_) => false,
        }
    }

    /// The current and the previous cursor position, where both exist: the
    /// two samples whose difference is the cursor's relative movement.
    pub open spec fn cursor_pos_rel(self) -> Option<
        (PhysicalPosition<Float32>, PhysicalPosition<Float32>),
    > {
        match (self.cursor_pos, self.cursor_pos_prev) {
            (Some(pos), Some(pos_prev)) => Some((pos, pos_prev)),
            _ => None,
        }
    }

    /// Both coordinates of each cursor position that the state holds are
    /// numbers, not NaNs.
    pub open spec fn holds_numbers(self) -> bool {
        &&& self.cursor_pos matches Some(pos) ==> !pos.x.is_nan() && !pos.y.is_nan()
        &&& self.cursor_pos_prev matches Some(pos) ==> !pos.x.is_nan() && !pos.y.is_nan()
    }

    pub open spec fn was_cursor_moving(self) -> bool {
        !same_position(self.cursor_pos, self.cursor_pos_prev)
    }

    pub open spec fn has_cursor_not_moved(self) -> bool {
        self.not_moved_since_press && !self.was_cursor_moving()
    }

    /// Some key action of the iteration has this physical key and this edge.
    pub open spec fn was_key_operated_physical(
        self,
        physical_key: PhysicalKey,
        state: KeyActionState,
    ) -> bool {
        exists|i: int|
            0 <= i < self.key_actions.len() && (#[trigger] self.key_actions[i]).matches_physical(
                physical_key,
                state,
            )
    }

    /// Some key action of the iteration has this logical key and this edge.
    pub open spec fn was_key_operated_logical(
        self,
        logical_key: LogicalKey,
        state: KeyActionState,
    ) -> bool {
        exists|i: int|
            0 <= i < self.key_actions.len() && (#[trigger] self.key_actions[i]).matches_logical(
                logical_key,
                state,
            )
    }

    /// Some axis motion of the iteration concerns `axis` (and `device_id`,
    /// where one is given).
    pub open spec fn was_axis_moving(self, axis: AxisId, device_id: Option<DeviceId>) -> bool {
        exists|i: int|
            0 <= i < self.axis_motions.len() && (#[trigger] self.axis_motions[i]).concerns(
                axis,
                device_id,
            )
    }
}

/// The event is one of the key with the code `key_code`.
pub open spec fn is_event_of(event: KeyEvent, key_code: KeyCode) -> bool {
    event.physical_key == PhysicalKey::Code(key_code)
}

/// Whether the key is down after a run of key events: as the last event of
/// the key left it, or as it was (`held`) if the run holds none.
pub open spec fn held_after(held: bool, events: Seq<KeyEvent>, key_code: KeyCode) -> bool
    decreases events.len(),
{
    if events.len() == 0 {
        held
    } else if is_event_of(events.last(), key_code) {
        events.last().state == ElementState::Pressed
    } else {
        held_after(held, events.drop_last(), key_code)
    }
}

/// How many events of the run are first presses of the key: key-down events
/// that are not repeats.
pub open spec fn presses(events: Seq<KeyEvent>, key_code: KeyCode) -> nat
    decreases events.len(),
{
    if events.len() == 0 {
        0
    } else {
        presses(events.drop_last(), key_code) + if is_event_of(events.last(), key_code)
            && events.last().state == ElementState::Pressed && !events.last().repeat {
            1nat
        } else {
            0nat
        }
    }
}

/// How many events of the run are releases of the key.
pub open spec fn releases(events: Seq<KeyEvent>, key_code: KeyCode) -> nat
    decreases events.len(),
{
    if events.len() == 0 {
        0
    } else {
        releases(events.drop_last(), key_code) + if is_event_of(events.last(), key_code)
            && events.last().state == ElementState::Released {
            1nat
        } else {
            0nat
        }
    }
}

/// The run reports the key as a keyboard does, starting from a key that is
/// up: a first press comes only while the key is up, a repeat and a release
/// only while it is down.
pub open spec fn reports_in_turn(events: Seq<KeyEvent>, key_code: KeyCode) -> bool
    decreases events.len(),
{
    if events.len() == 0 {
        true
    } else {
        let down = held_after(false, events.drop_last(), key_code);
        &&& reports_in_turn(events.drop_last(), key_code)
        &&& is_event_of(events.last(), key_code) ==> match events.last().state {
            ElementState::Pressed => down == events.last().repeat,
            ElementState::Released => down,
        }
    }
}

/// After any run of key events, a key is held exactly if its last event in
/// the run was a key-down, whatever the other keys did; a key without an
/// event is held as before. Every event is recorded as one key action, in
/// order, with the edge that its state and repeat flag give: a key-down on a
/// held key is a `Repeating` edge where the host flags the repeat and a
/// `Pressed` edge where it does not.
pub proof fn lemma_held_follows_last_event(
    state: InputStateView,
    events: Seq<KeyEvent>,
    key_code: KeyCode,
)
    ensures
        state.after_keys(events).keys_held_physical.contains(key_code) == held_after(
            state.keys_held_physical.contains(key_code),
            events,
            key_code,
        ),
        state.after_keys(events).key_actions == state.key_actions + events.map_values(
            |event: KeyEvent| key_action_of(event),
        ),
    decreases events.len(),
{
    let recorded = |event: KeyEvent| key_action_of(event);
    if events.len() > 0 {
        lemma_held_follows_last_event(state, events.drop_last(), key_code);
        assert(events.map_values(recorded) == events.drop_last().map_values(recorded).push(
            key_action_of(events.last()),
        ));
        assert(state.after_keys(events).key_actions == state.key_actions + events.map_values(
            recorded,
        ));
    }
}

/// A new iteration begins with a cursor that has not moved: the reset makes
/// the current position the previous one. A position that is no number
/// equals nothing, itself included, so the positions have to be numbers.
pub proof fn lemma_cursor_rests_after_reset(state: InputStateView)
    requires
        state.holds_numbers(),
    ensures
        !state.reset().was_cursor_moving(),
        !state.reset().has_cursor_not_moved(),
        state.reset().holds_numbers(),
{
}

/// The key actions of an iteration are the key events that came since the
/// reset that began it, one action for each event, in their order.
pub proof fn lemma_key_actions_are_those_since_reset(state: InputStateView, events: Seq<KeyEvent>)
    ensures
        state.reset().after_keys(events).key_actions == events.map_values(
            |event: KeyEvent| key_action_of(event),
        ),
{
    lemma_held_follows_last_event(state.reset(), events, KeyCode(0));
    assert(state.reset().key_actions + events.map_values(|event: KeyEvent| key_action_of(event))
        == events.map_values(|event: KeyEvent| key_action_of(event)));
}

/// For a key that starts up and is reported in turn, the first presses
/// outnumber the releases by one while the key is held and equal them while
/// it is not: the held state is the parity of presses minus releases.
pub proof fn lemma_held_is_net_presses(
    state: InputStateView,
    events: Seq<KeyEvent>,
    key_code: KeyCode,
)
    requires
        !state.keys_held_physical.contains(key_code),
        reports_in_turn(events, key_code),
    ensures
        presses(events, key_code) - releases(events, key_code) == if state.after_keys(
            events,
        ).keys_held_physical.contains(key_code) {
            1int
        } else {
            0int
        },
    decreases events.len(),
{
    lemma_held_follows_last_event(state, events, key_code);
    if events.len() > 0 {
        lemma_held_follows_last_event(state, events.drop_last(), key_code);
        lemma_held_is_net_presses(state, events.drop_last(), key_code);
    }
}

/// The key codes that the numbers in `codes` stand for.
pub open spec fn key_codes(codes: Set<u32>) -> Set<KeyCode> {
    Set::new(|key_code: KeyCode| codes.contains(key_code.0))
}

/// The named keys that the numbers in `codes` stand for.
pub open spec fn named_keys(codes: Set<u32>) -> Set<NamedKey> {
    Set::new(|named_key: NamedKey| codes.contains(named_key.0))
}

/// Aggregates the input of one window: what is held down, which persists
/// from iteration to iteration, and the lists of what happened in the
/// current iteration.
#[derive(Debug, PartialEq)]
pub struct InputState {
    cursor_pos: Option<PhysicalPosition<Float32>>,
    cursor_pos_prev: Option<PhysicalPosition<Float32>>,
    mouse_actions: Vec<MouseAction>,
    mouse_left_held: bool,
    mouse_right_held: bool,
    mouse_middle_held: bool,
    mouse_back_held: bool,
    mouse_forward_held: bool,
    has_cursor_not_moved: bool,
    key_actions: Vec<KeyAction>,
    keys_held_physical: AHashSet<u32>,
    keys_held_logical: AHashSet<u32>,
    modifiers: Modifiers,
    gestures: Vec<Gesture>,
    touches: Vec<Touch>,
    axis_motions: Vec<AxisMotion>,
}

impl View for InputState {
    type V = InputStateView;

    closed spec fn view(&self) -> InputStateView {
        InputStateView {
            cursor_pos: self.cursor_pos,
            cursor_pos_prev: self.cursor_pos_prev,
            mouse_actions: self.mouse_actions@,
            mouse_left_held: self.mouse_left_held,
            mouse_right_held: self.mouse_right_held,
            mouse_middle_held: self.mouse_middle_held,
            mouse_back_held: self.mouse_back_held,
            mouse_forward_held: self.mouse_forward_held,
            not_moved_since_press: self.has_cursor_not_moved,
            key_actions: self.key_actions@,
            keys_held_physical: key_codes(codes_in(self.keys_held_physical)),
            keys_held_logical: named_keys(codes_in(self.keys_held_logical)),
            modifiers: self.modifiers,
            gestures: self.gestures@,
            touches: self.touches@,
            axis_motions: self.axis_motions@,
        }
    }
}

impl Default for InputState {
    fn default() -> (r: Self)
        ensures
            r@ == InputStateView::initial(),
    {
        InputState {
            cursor_pos: None,
            cursor_pos_prev: None,
            mouse_actions: Vec::new(),
            mouse_left_held: false,
            mouse_right_held: false,
            mouse_middle_held: false,
            mouse_back_held: false,
            mouse_forward_held: false,
            has_cursor_not_moved: false,
            key_actions: Vec::new(),
            keys_held_physical: new_code_set(),
            keys_held_logical: new_code_set(),
            modifiers: Modifiers::default(),
            gestures: Vec::new(),
            touches: Vec::new(),
            axis_motions: Vec::new(),
        }
    }
}

impl Clone for InputState {
    fn clone(&self) -> (r: Self)
        ensures
            r@ == self@,
    {
        InputState {
            cursor_pos: self.cursor_pos,
            cursor_pos_prev: self.cursor_pos_prev,
            mouse_actions: self.mouse_actions.clone(),
            mouse_left_held: self.mouse_left_held,
            mouse_right_held: self.mouse_right_held,
            mouse_middle_held: self.mouse_middle_held,
            mouse_back_held: self.mouse_back_held,
            mouse_forward_held: self.mouse_forward_held,
            has_cursor_not_moved: self.has_cursor_not_moved,
            key_actions: self.key_actions.clone(),
            keys_held_physical: clone_code_set(&self.keys_held_physical),
            keys_held_logical: clone_code_set(&self.keys_held_logical),
            modifiers: self.modifiers,
            gestures: self.gestures.clone(),
            touches: self.touches.clone(),
            axis_motions: self.axis_motions.clone(),
        }
    }
}

impl InputState {
    pub fn cursor_pos(&self) -> (r: Option<PhysicalPosition<Float32>>)
        ensures
            r == self@.cursor_pos,
    {
        self.cursor_pos
    }

    pub fn cursor_pos_prev(&self) -> (r: Option<PhysicalPosition<Float32>>)
        ensures
            r == self@.cursor_pos_prev,
    {
        self.cursor_pos_prev
    }

    /// The current and the previous cursor position, where both exist. The
    /// relative movement of the cursor is the first minus the second,
    /// coordinate by coordinate.
    pub fn cursor_pos_rel(&self) -> (r: Option<
        (PhysicalPosition<Float32>, PhysicalPosition<Float32>),
    >)
        ensures
            r == self@.cursor_pos_rel(),
    {
        match (self.cursor_pos, self.cursor_pos_prev) {
            (Some(pos), Some(pos_prev)) => Some((pos, pos_prev)),
            _ => None,
        }
    }

    /// The mouse button actions of the current iteration.
    pub fn mouse_actions(&self) -> (r: &[MouseAction])
        ensures
            r@ == self@.mouse_actions,
    {
        self.mouse_actions.as_slice()
    }

    /// Whether the given mouse button is down.
    pub fn is_button_held(&self, button: MouseButton) -> (r: bool)
        ensures
            r == self@.is_button_held(button),
    {
        match button {
            MouseButton::Left => self.mouse_left_held,
            MouseButton::Right => self.mouse_right_held,
            MouseButton::Middle => self.mouse_middle_held,
            MouseButton::Back => self.mouse_back_held,
            MouseButton::Forward => self.mouse_forward_held,
            MouseButton::Other(_) => false,
        }
    }

    /// The key actions of the current iteration.
    pub fn key_actions(&self) -> (r: &[KeyAction])
        ensures
            r@ == self@.key_actions,
    {
        self.key_actions.as_slice()
    }

    /// Whether the given named key is down.
    pub fn is_key_held_logical(&self, named_key: &NamedKey) -> (r: bool)
        ensures
            r == self@.keys_held_logical.contains(*named_key),
    {
        holds_code(&self.keys_held_logical, named_key.0)
    }

    /// Whether the key with the given code is down.
    pub fn is_key_held_physical(&self, key_code: &KeyCode) -> (r: bool)
        ensures
            r == self@.keys_held_physical.contains(*key_code),
    {
        holds_code(&self.keys_held_physical, key_code.0)
    }

    /// Whether the given physical key had the given edge in the current
    /// iteration.
    pub fn was_key_operated_physical(&self, physical_key: &PhysicalKey, state: KeyActionState) -> (r:
        bool)
        ensures
            r == self@.was_key_operated_physical(*physical_key, state),
    {
        let mut i: usize = 0;
        while i < self.key_actions.len()
            invariant
                i <= self.key_actions.len(),
                forall|j: int|
                    0 <= j < i ==> !(#[trigger] self.key_actions@[j]).matches_physical(
                        *physical_key,
                        state,
                    ),
            decreases self.key_actions.len() - i,
        {
            if self.key_actions[i].is_physical(physical_key, state) {
                assert(self@.key_actions[i as int].matches_physical(*physical_key, state));
                return true;
            }
            i += 1;
        }
        false
    }

    /// Whether the given logical key had the given edge in the current
    /// iteration.
    pub fn was_key_operated_logical(&self, logical_key: &LogicalKey, state: KeyActionState) -> (r:
        bool)
        ensures
            r == self@.was_key_operated_logical(*logical_key, state),
    {
        let mut i: usize = 0;
        while i < self.key_actions.len()
            invariant
                i <= self.key_actions.len(),
                forall|j: int|
                    0 <= j < i ==> !(#[trigger] self.key_actions@[j]).matches_logical(
                        *logical_key,
                        state,
                    ),
            decreases self.key_actions.len() - i,
        {
            if self.key_actions[i].is_logical(logical_key, state) {
                assert(self@.key_actions[i as int].matches_logical(*logical_key, state));
                return true;
            }
            i += 1;
        }
        false
    }

    /// Whether the given physical key was pressed in the current iteration.
    pub fn was_key_pressed_physical(&self, physical_key: &PhysicalKey) -> (r: bool)
        ensures
            r == self@.was_key_operated_physical(*physical_key, KeyActionState::Pressed),
    {
        self.was_key_operated_physical(physical_key, KeyActionState::Pressed)
    }

    /// Whether the given logical key was pressed in the current iteration.
    pub fn was_key_pressed_logical(&self, logical_key: &LogicalKey) -> (r: bool)
        ensures
            r == self@.was_key_operated_logical(*logical_key, KeyActionState::Pressed),
    {
        self.was_key_operated_logical(logical_key, KeyActionState::Pressed)
    }

    /// Whether the given physical key repeated in the current iteration.
    pub fn was_key_repeating_physical(&self, physical_key: &PhysicalKey) -> (r: bool)
        ensures
            r == self@.was_key_operated_physical(*physical_key, KeyActionState::Repeating),
    {
        self.was_key_operated_physical(physical_key, KeyActionState::Repeating)
    }

    /// Whether the given logical key repeated in the current iteration.
    pub fn was_key_repeating_logical(&self, logical_key: &LogicalKey) -> (r: bool)
        ensures
            r == self@.was_key_operated_logical(*logical_key, KeyActionState::Repeating),
    {
        self.was_key_operated_logical(logical_key, KeyActionState::Repeating)
    }

    /// Whether the given physical key was released in the current iteration.
    pub fn was_key_released_physical(&self, physical_key: &PhysicalKey) -> (r: bool)
        ensures
            r == self@.was_key_operated_physical(*physical_key, KeyActionState::Released),
    {
        self.was_key_operated_physical(physical_key, KeyActionState::Released)
    }

    /// Whether the given logical key was released in the current iteration.
    pub fn was_key_released_logical(&self, logical_key: &LogicalKey) -> (r: bool)
        ensures
            r == self@.was_key_operated_logical(*logical_key, KeyActionState::Released),
    {
        self.was_key_operated_logical(logical_key, KeyActionState::Released)
    }

    /// Whether the cursor position differs from the one at the start of the
    /// iteration.
    pub fn was_cursor_moving(&self) -> (r: bool)
        ensures
            r == self@.was_cursor_moving(),
    {
        match (self.cursor_pos, self.cursor_pos_prev) {
            (None, None) => false,
            (Some(pos), Some(pos_prev)) => !(pos.x.ieee_eq(pos_prev.x) && pos.y.ieee_eq(pos_prev.y)),
            _ => true,
        }
    }

    /// Whether the cursor has stayed where it was since a mouse button went
    /// down. Tells a click from a drag.
    pub fn has_cursor_not_moved(&self) -> (r: bool)
        ensures
            r == self@.has_cursor_not_moved(),
    {
        self.has_cursor_not_moved && !self.was_cursor_moving()
    }

    pub fn modifiers(&self) -> (r: Modifiers)
        ensures
            r == self@.modifiers,
    {
        self.modifiers
    }

    /// The gestures of the current iteration.
    pub fn gestures(&self) -> (r: &[Gesture])
        ensures
            r@ == self@.gestures,
    {
        self.gestures.as_slice()
    }

    /// The touches of the current iteration.
    pub fn touches(&self) -> (r: &[Touch])
        ensures
            r@ == self@.touches,
    {
        self.touches.as_slice()
    }

    /// The axis motions of the current iteration.
    pub fn axis_motions(&self) -> (r: &[AxisMotion])
        ensures
            r@ == self@.axis_motions,
    {
        self.axis_motions.as_slice()
    }

    /// The values of this iteration's motions on `axis`, of `device_id` alone
    /// where one is given, in the order in which they came. Their sum is the
    /// motion on the axis.
    pub fn axis_motion_for(&self, axis: AxisId, device_id: Option<DeviceId>) -> (r: Vec<Float64>)
        ensures
            r@ == axis_values(self@.axis_motions, axis, device_id),
    {
        let mut values: Vec<Float64> = Vec::new();
        let mut i: usize = 0;
        while i < self.axis_motions.len()
            invariant
                i <= self.axis_motions.len(),
                values@ == axis_values(self.axis_motions@.take(i as int), axis, device_id),
            decreases self.axis_motions.len() - i,
        {
            assert(self.axis_motions@.take(i + 1).drop_last() == self.axis_motions@.take(i as int));
            if self.axis_motions[i].is_on(axis, device_id) {
                values.push(self.axis_motions[i].value);
            }
            i += 1;
        }
        assert(self.axis_motions@.take(i as int) == self.axis_motions@);
        values
    }

    /// Whether `axis` moved in the current iteration, on `device_id` where
    /// one is given.
    pub fn was_axis_moving(&self, axis: AxisId, device_id: Option<DeviceId>) -> (r: bool)
        ensures
            r == self@.was_axis_moving(axis, device_id),
    {
        let mut i: usize = 0;
        while i < self.axis_motions.len()
            invariant
                i <= self.axis_motions.len(),
                forall|j: int|
                    0 <= j < i ==> !(#[trigger] self.axis_motions@[j]).concerns(axis, device_id),
            decreases self.axis_motions.len() - i,
        {
            if self.axis_motions[i].is_on(axis, device_id) {
                assert(self@.axis_motions[i as int].concerns(axis, device_id));
                return true;
            }
            i += 1;
        }
        false
    }

    fn set_button_value(&mut self, button: MouseButton, value: bool)
        ensures
            final(self)@ == old(self)@.with_button(button, value),
    {
        match button {
            MouseButton::Left => self.mouse_left_held = value,
            MouseButton::Right => self.mouse_right_held = value,
            MouseButton::Middle => self.mouse_middle_held = value,
            MouseButton::Back => self.mouse_back_held = value,
            MouseButton::Forward => self.mouse_forward_held = value,
            MouseButton::Other(_) => (),
        };
    }

    /// Starts a new iteration.
    ///
    /// The records of the finished iteration are dropped and the cursor
    /// position becomes the previous position. Held keys, held buttons and
    /// the modifiers are kept.
    pub fn reset(&mut self)
        ensures
            final(self)@ == old(self)@.reset(),
            final(self)@.mouse_actions.len() == 0,
            final(self)@.key_actions.len() == 0,
            final(self)@.gestures.len() == 0,
            final(self)@.touches.len() == 0,
            final(self)@.axis_motions.len() == 0,
            final(self)@.keys_held_physical == old(self)@.keys_held_physical,
            final(self)@.keys_held_logical == old(self)@.keys_held_logical,
            forall|button: MouseButton|
                final(self)@.is_button_held(button) == old(self)@.is_button_held(button),
            final(self)@.modifiers == old(self)@.modifiers,
    {
        self.cursor_pos_prev = self.cursor_pos;
        self.mouse_actions.clear();
        self.key_actions.clear();
        self.has_cursor_not_moved = false;
        self.gestures.clear();
        self.touches.clear();
        self.axis_motions.clear();
    }

    /// Records a key event: appends the key action and brings the two held
    /// sets up to date.
    pub fn handle_keyboard_input(&mut self, event: &KeyEvent)
        ensures
            final(self)@ == old(self)@.keyboard_input(*event),
    {
        self.key_actions.push(
            KeyAction {
                physical_key: event.physical_key,
                logical_key: event.logical_key.clone(),
                state: match event.state {
                    ElementState::Pressed => if event.repeat {
                        KeyActionState::Repeating
                    } else {
                        KeyActionState::Pressed
                    },
                    ElementState::Released => KeyActionState::Released,
                },
            },
        );

        if let PhysicalKey::Code(key_code) = event.physical_key {
            match event.state {
                ElementState::Pressed => insert_code(&mut self.keys_held_physical, key_code.0),
                ElementState::Released => remove_code(&mut self.keys_held_physical, key_code.0),
            }
        }

        if let LogicalKey::Named(named_key) = &event.logical_key {
            match event.state {
                ElementState::Pressed => insert_code(&mut self.keys_held_logical, named_key.0),
                ElementState::Released => remove_code(&mut self.keys_held_logical, named_key.0),
            }
        }
    }

    /// Records a mouse button event: sets the button's held flag, appends the
    /// action and starts or ends "not moved since press".
    pub fn handle_mouse_input(&mut self, state: ElementState, button: MouseButton)
        ensures
            final(self)@ == old(self)@.mouse_input(state, button),
    {
        let condition = state.is_pressed();

        self.set_button_value(button, condition);
        self.mouse_actions.push(MouseAction { button, state });
        self.has_cursor_not_moved = condition;
    }

    pub fn handle_gesture(&mut self, gesture: Gesture)
        ensures
            final(self)@ == old(self)@.gesture(gesture),
    {
        self.gestures.push(gesture);
    }

    pub fn handle_touch(&mut self, touch: Touch)
        ensures
            final(self)@ == old(self)@.touch(touch),
    {
        self.touches.push(touch);
    }

    pub fn handle_axis_motion(&mut self, axis_motion: AxisMotion)
        ensures
            final(self)@ == old(self)@.axis_motion(axis_motion),
    {
        self.axis_motions.push(axis_motion);
    }

    /// Records a cursor sample: the position where it lies inside the window
    /// frame, `None` where it lies outside.
    pub fn handle_cursor_moved(&mut self, position: Option<PhysicalPosition<Float32>>)
        ensures
            final(self)@ == old(self)@.cursor_moved(position),
    {
        match position {
            Some(_) => {
                self.cursor_pos = position;
                self.has_cursor_not_moved = false;
            },
            None => {
                self.cursor_pos = None;
            },
        }
    }

    /// Overwrites the modifier snapshot.
    pub fn handle_modifiers_changed(&mut self, modifiers: Modifiers)
        ensures
            final(self)@ == old(self)@.modifiers_changed(modifiers),
    {
        self.modifiers = modifiers;
    }
}

} // verus!
