//! The buffered input state: the keyboard and the table of gamepad slots.

use vstd::prelude::*;

pub mod gamepad;
pub mod keyboard;

use crate::input::gamepad::{get_gamepad_mut, GamepadButton, GamepadState, GamepadView};
use crate::input::keyboard::{Key, KeyboardState, KeyboardView};
use crate::platform::Event;
use crate::{Context, ContextView};

verus! {

/// What the input state means: the keyboard, and for each gamepad slot the
/// state of the gamepad in it, or `None` where the slot is empty.
#[verifier::ext_equal]
pub struct InputView {
    /// The keyboard.
    pub keyboard: KeyboardView,
    /// The gamepad slots, by index.
    pub pads: Seq<Option<GamepadView>>,
}

/// What one gamepad slot means.
pub open spec fn slot_view(slot: Option<GamepadState>) -> Option<GamepadView> {
    match slot {
        Some(pad) => Some(pad@),
        None => None,
    }
}

impl InputView {
    /// The input state at start-up: an idle keyboard and no gamepad slot.
    pub open spec fn initial() -> InputView {
        InputView { keyboard: KeyboardView::idle(), pads: Seq::empty() }
    }

    /// The gamepad in slot `index`, or `None` if the slot is empty or the
    /// index is beyond the table.
    pub open spec fn gamepad(self, index: usize) -> Option<GamepadView> {
        if index < self.pads.len() {
            self.pads[index as int]
        } else {
            None
        }
    }

    /// A frame begins for the keyboard and for every connected gamepad.
    pub open spec fn begin_frame(self) -> InputView {
        InputView {
            keyboard: self.keyboard.begin_frame(),
            pads: Seq::new(
                self.pads.len(),
                |i: int|
                    match self.pads[i] {
                        Some(pad) => Some(pad.begin_frame()),
                        None => None,
                    },
            ),
        }
    }

    /// One captured event is applied. An event for a gamepad slot in which
    /// no gamepad is connected changes nothing.
    pub open spec fn apply_event(self, event: Event) -> InputView {
        match event {
            Event::KeyDown(key) => InputView { keyboard: self.keyboard.set_key_down(key), ..self },
            Event::KeyUp(key) => InputView { keyboard: self.keyboard.set_key_up(key), ..self },
            Event::GamepadButtonDown { gamepad_index, button } => match self.gamepad(
                gamepad_index,
            ) {
                Some(pad) => self.change_gamepad(gamepad_index, pad.set_button_down(button)),
                None => self,
            },
            Event::GamepadButtonUp { gamepad_index, button } => match self.gamepad(gamepad_index) {
                Some(pad) => self.change_gamepad(gamepad_index, pad.set_button_up(button)),
                None => self,
            },
            Event::GamepadAxisMoved { gamepad_index, axis, position } => match self.gamepad(
                gamepad_index,
            ) {
                Some(pad) => self.change_gamepad(
                    gamepad_index,
                    pad.set_axis_position(axis, position),
                ),
                None => self,
            },
        }
    }

    /// The events are applied one after the other, the first one first.
    pub open spec fn apply_events(self, events: Seq<Event>) -> InputView
        decreases events.len(),
    {
        if events.len() == 0 {
            self
        } else {
            self.apply_event(events.first()).apply_events(events.drop_first())
        }
    }
}

/// The input state of the engine.
pub struct InputContext {
    /// The keyboard.
    pub keyboard: KeyboardState,
    /// The gamepad slots. A gamepad keeps its slot for as long as it is
    /// connected; the slot of a gamepad that left is empty until it is reused.
    pub pads: Vec<Option<GamepadState>>,
}

impl View for InputContext {
    type V = InputView;

    open spec fn view(&self) -> InputView {
        InputView {
            keyboard: self.keyboard@,
            pads: Seq::new(self.pads@.len(), |i: int| slot_view(self.pads@[i])),
        }
    }
}

impl InputContext {
    /// The input state at start-up.
    pub fn new() -> (input: InputContext)
        ensures
            input@ == InputView::initial(),
    {
        let input = InputContext { keyboard: KeyboardState::new(), pads: Vec::new() };
        assert(input@.pads =~= Seq::empty());
        input
    }
}

/// Begins a frame: for the keyboard and for every connected gamepad, what is
/// down now becomes what the frame's presses and releases are measured
/// against. To be called once per frame, before the frame's events are
/// applied.
pub fn begin_frame(ctx: &mut Context)
    ensures
        final(ctx)@ == (ContextView { input: old(ctx)@.input.begin_frame(), ..old(ctx)@ }),
{
    ctx.input.keyboard.begin_frame();
    let mut i: usize = 0;
    while i < ctx.input.pads.len()
        invariant
            i <= ctx@.input.pads.len(),
            ctx@.events == old(ctx)@.events,
            ctx@.input.keyboard == old(ctx)@.input.keyboard.begin_frame(),
            ctx@.input.pads.len() == old(ctx)@.input.pads.len(),
            forall|j: int|
                0 <= j < i ==> ctx@.input.pads[j] == old(ctx)@.input.begin_frame().pads[j],
            forall|j: int|
                i <= j < ctx@.input.pads.len() ==> ctx@.input.pads[j] == old(ctx)@.input.pads[j],
        decreases ctx.input.pads.len() - i,
    {
        if let Some(pad) = get_gamepad_mut(ctx, i) {
            pad.begin_frame();
        }
        i += 1;
    }
    assert(ctx@.input.pads =~= old(ctx)@.input.begin_frame().pads);
}

/// Applies one captured event to the input state.
pub fn apply_event(ctx: &mut Context, event: Event)
    ensures
        final(ctx)@ == (ContextView { input: old(ctx)@.input.apply_event(event), ..old(ctx)@ }),
{
    match event {
        Event::KeyDown(key) => keyboard::set_key_down(ctx, key),
        Event::KeyUp(key) => keyboard::set_key_up(ctx, key),
        Event::GamepadButtonDown { gamepad_index, button } => {
            if let Some(pad) = get_gamepad_mut(ctx, gamepad_index) {
                pad.set_button_down(button);
            }
        },
        Event::GamepadButtonUp { gamepad_index, button } => {
            if let Some(pad) = get_gamepad_mut(ctx, gamepad_index) {
                pad.set_button_up(button);
            }
        },
        Event::GamepadAxisMoved { gamepad_index, axis, position } => {
            if let Some(pad) = get_gamepad_mut(ctx, gamepad_index) {
                pad.set_axis_position(axis, position);
            }
        },
    }
}

/// Applying events neither connects nor disconnects a gamepad, and leaves
/// untouched what the frame's presses and releases are measured against.
pub proof fn lemma_events_keep_frame_start(input: InputView, events: Seq<Event>)
    ensures
        input.apply_events(events).keyboard.previous_keys == input.keyboard.previous_keys,
        input.apply_events(events).pads.len() == input.pads.len(),
        input.apply_events(events).occupied_slots() == input.occupied_slots(),
        forall|index: usize| #[trigger]
            input.is_gamepad_connected(index) ==> {
                let before = input.gamepad(index)->0;
                let after = input.apply_events(events).gamepad(index)->0;
                &&& input.apply_events(events).is_gamepad_connected(index)
                &&& after.previous_buttons == before.previous_buttons
                &&& after.platform_id == before.platform_id
            },
    decreases events.len(),
{
    if events.len() == 0 {
        assert(input.apply_events(events).occupied_slots() =~= input.occupied_slots());
    } else {
        let next = input.apply_event(events.first());
        lemma_events_keep_frame_start(next, events.drop_first());
        let last = input.apply_events(events);
        assert(last == next.apply_events(events.drop_first()));
        assert forall|index: usize|
            input.is_gamepad_connected(index) == #[trigger] next.is_gamepad_connected(index) by {}
        assert forall|index: usize| #[trigger] input.is_gamepad_connected(index) implies {
            let before = input.gamepad(index)->0;
            let after = last.gamepad(index)->0;
            &&& last.is_gamepad_connected(index)
            &&& after.previous_buttons == before.previous_buttons
            &&& after.platform_id == before.platform_id
        } by {
            assert(next.is_gamepad_connected(index));
        }
        assert(last.occupied_slots() =~= input.occupied_slots()) by {
            assert forall|index: usize|
                last.occupied_slots().contains(index) == input.occupied_slots().contains(
                    index,
                ) by {
                assert(next.is_gamepad_connected(index) == input.is_gamepad_connected(index));
                assert(next.occupied_slots().contains(index) == next.is_gamepad_connected(index));
            }
        }
    }
}

/// Beginning a frame neither connects nor disconnects a gamepad, and changes
/// nothing that is down; afterwards nothing is pressed or released.
pub proof fn lemma_begin_frame_keeps_current(input: InputView)
    ensures
        input.begin_frame().keyboard.current_keys == input.keyboard.current_keys,
        input.begin_frame().keyboard.previous_keys == input.keyboard.current_keys,
        input.begin_frame().pads.len() == input.pads.len(),
        input.begin_frame().occupied_slots() == input.occupied_slots(),
        forall|index: usize| #[trigger]
            input.is_gamepad_connected(index) ==> {
                let before = input.gamepad(index)->0;
                let after = input.begin_frame().gamepad(index)->0;
                &&& input.begin_frame().is_gamepad_connected(index)
                &&& after.current_buttons == before.current_buttons
                &&& after.previous_buttons == before.current_buttons
                &&& after.axes == before.axes
                &&& after.platform_id == before.platform_id
            },
{
    let after = input.begin_frame();
    assert(after.occupied_slots() =~= input.occupied_slots()) by {
        assert forall|index: usize|
            after.occupied_slots().contains(index) == input.occupied_slots().contains(index) by {
            assert(after.is_gamepad_connected(index) == (after.gamepad(index) is Some));
            assert(input.is_gamepad_connected(index) == (input.gamepad(index) is Some));
        }
    }
}

/// Over a frame, that is a frame's beginning followed by the frame's events:
/// what the presses and releases are measured against at the end is what was
/// down at the end of the frame before, never a state from the middle of the
/// frame.
pub proof fn lemma_frame_compares_with_last_frame(
    before: InputView,
    events: Seq<Event>,
    index: usize,
)
    ensures
        ({
            let after = before.begin_frame().apply_events(events);
            &&& after.keyboard.previous_keys == before.keyboard.current_keys
            &&& after.is_gamepad_connected(index) == before.is_gamepad_connected(index)
            &&& before.is_gamepad_connected(index) ==> after.gamepad(index)->0.previous_buttons
                == before.gamepad(index)->0.current_buttons
        }),
{
    let started = before.begin_frame();
    let after = started.apply_events(events);
    lemma_begin_frame_keeps_current(before);
    lemma_events_keep_frame_start(started, events);
    assert(before.occupied_slots().contains(index) == before.is_gamepad_connected(index));
    assert(started.occupied_slots().contains(index) == started.is_gamepad_connected(index));
    assert(after.occupied_slots().contains(index) == after.is_gamepad_connected(index));
}

/// Over a frame, that is a frame's beginning followed by the frame's events:
/// a button that is pressed at the end is down at the end, and was not down
/// at the end of the frame before; a button that is released at the end is
/// up at the end, and was down at the end of the frame before.
pub proof fn lemma_frame_edges(
    before: InputView,
    events: Seq<Event>,
    index: usize,
    button: GamepadButton,
)
    ensures
        ({
            let after = before.begin_frame().apply_events(events);
            &&& after.is_gamepad_button_pressed(index, button) ==> {
                &&& after.is_gamepad_button_down(index, button)
                &&& !before.is_gamepad_button_down(index, button)
            }
            &&& after.is_gamepad_button_released(index, button) ==> {
                &&& !after.is_gamepad_button_down(index, button)
                &&& before.is_gamepad_button_down(index, button)
            }
        }),
{
    lemma_frame_compares_with_last_frame(before, events, index);
}

/// Over a frame, for the keyboard: a key that is pressed at the end is down
/// at the end, and was not down at the end of the frame before; a key that
/// is released at the end is up at the end, and was down at the end of the
/// frame before.
pub proof fn lemma_frame_key_edges(before: InputView, events: Seq<Event>, key: Key)
    ensures
        ({
            let after = before.begin_frame().apply_events(events);
            &&& after.keyboard.is_key_pressed(key) ==> {
                &&& after.keyboard.is_key_down(key)
                &&& !before.keyboard.is_key_down(key)
            }
            &&& after.keyboard.is_key_released(key) ==> {
                &&& !after.keyboard.is_key_down(key)
                &&& before.keyboard.is_key_down(key)
            }
        }),
{
    lemma_frame_compares_with_last_frame(before, events, 0);
}

} // verus!
