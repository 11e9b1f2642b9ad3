//! Gamepad vocabulary, the buffered state of one gamepad, and the queries
//! that read the state of the connected gamepads.

use vstd::prelude::*;

use crate::collections::{
    map_contents, map_get, map_insert, map_new, set_clone, set_contains, set_contents,
    set_difference, set_insert, set_items, set_new, set_remove, CodeMap, CodeSet,
};
use crate::input::InputView;
use crate::platform::VibrationRequest;
use crate::{platform, Context, ContextView};

verus! {

/// A button on a gamepad.
#[derive(Debug, Copy, Clone, PartialEq, Eq, Hash, Structural)]
#[allow(missing_docs)]
pub enum GamepadButton {
    A,
    B,
    X,
    Y,
    Up,
    Down,
    Left,
    Right,
    LeftShoulder,
    LeftTrigger,
    LeftStick,
    RightShoulder,
    RightTrigger,
    RightStick,
    Start,
    Back,
    Guide,
}

/// An axis of movement on a gamepad.
#[derive(Debug, Copy, Clone, PartialEq, Eq, Hash, Structural)]
#[allow(missing_docs)]
pub enum GamepadAxis {
    LeftStickX,
    LeftStickY,
    LeftTrigger,
    RightStickX,
    RightStickY,
    RightTrigger,
}

/// A control stick on a gamepad.
#[derive(Debug, Copy, Clone, PartialEq, Eq, Hash, Structural)]
#[allow(missing_docs)]
pub enum GamepadStick {
    LeftStick,
    RightStick,
}

impl GamepadButton {
    /// The code under which the button is stored in a [`CodeSet`].
    pub open spec fn spec_code(self) -> u8 {
        match self {
            GamepadButton::A => 0,
            GamepadButton::B => 1,
            GamepadButton::X => 2,
            GamepadButton::Y => 3,
            GamepadButton::Up => 4,
            GamepadButton::Down => 5,
            GamepadButton::Left => 6,
            GamepadButton::Right => 7,
            GamepadButton::LeftShoulder => 8,
            GamepadButton::LeftTrigger => 9,
            GamepadButton::LeftStick => 10,
            GamepadButton::RightShoulder => 11,
            GamepadButton::RightTrigger => 12,
            GamepadButton::RightStick => 13,
            GamepadButton::Start => 14,
            GamepadButton::Back => 15,
            GamepadButton::Guide => 16,
        }
    }

    /// The button that a code stands for, if it stands for one.
    pub open spec fn spec_from_code(code: u8) -> Option<GamepadButton> {
        if code == 0 {
            Some(GamepadButton::A)
        } else if code == 1 {
            Some(GamepadButton::B)
        } else if code == 2 {
            Some(GamepadButton::X)
        } else if code == 3 {
            Some(GamepadButton::Y)
        } else if code == 4 {
            Some(GamepadButton::Up)
        } else if code == 5 {
            Some(GamepadButton::Down)
        } else if code == 6 {
            Some(GamepadButton::Left)
        } else if code == 7 {
            Some(GamepadButton::Right)
        } else if code == 8 {
            Some(GamepadButton::LeftShoulder)
        } else if code == 9 {
            Some(GamepadButton::LeftTrigger)
        } else if code == 10 {
            Some(GamepadButton::LeftStick)
        } else if code == 11 {
            Some(GamepadButton::RightShoulder)
        } else if code == 12 {
            Some(GamepadButton::RightTrigger)
        } else if code == 13 {
            Some(GamepadButton::RightStick)
        } else if code == 14 {
            Some(GamepadButton::Start)
        } else if code == 15 {
            Some(GamepadButton::Back)
        } else if code == 16 {
            Some(GamepadButton::Guide)
        } else {
            None
        }
    }

    /// The code under which the button is stored.
    #[verifier::when_used_as_spec(spec_code)]
    pub fn code(self) -> (code: u8)
        ensures
            code == self.spec_code(),
    {
        match self {
            GamepadButton::A => 0,
            GamepadButton::B => 1,
            GamepadButton::X => 2,
            GamepadButton::Y => 3,
            GamepadButton::Up => 4,
            GamepadButton::Down => 5,
            GamepadButton::Left => 6,
            GamepadButton::Right => 7,
            GamepadButton::LeftShoulder => 8,
            GamepadButton::LeftTrigger => 9,
            GamepadButton::LeftStick => 10,
            GamepadButton::RightShoulder => 11,
            GamepadButton::RightTrigger => 12,
            GamepadButton::RightStick => 13,
            GamepadButton::Start => 14,
            GamepadButton::Back => 15,
            GamepadButton::Guide => 16,
        }
    }

    /// The button that `code` stands for, or `None` if it stands for none.
    pub fn from_code(code: u8) -> (button: Option<GamepadButton>)
        ensures
            button == Self::spec_from_code(code),
    {
        match code {
            0 => Some(GamepadButton::A),
            1 => Some(GamepadButton::B),
            2 => Some(GamepadButton::X),
            3 => Some(GamepadButton::Y),
            4 => Some(GamepadButton::Up),
            5 => Some(GamepadButton::Down),
            6 => Some(GamepadButton::Left),
            7 => Some(GamepadButton::Right),
            8 => Some(GamepadButton::LeftShoulder),
            9 => Some(GamepadButton::LeftTrigger),
            10 => Some(GamepadButton::LeftStick),
            11 => Some(GamepadButton::RightShoulder),
            12 => Some(GamepadButton::RightTrigger),
            13 => Some(GamepadButton::RightStick),
            14 => Some(GamepadButton::Start),
            15 => Some(GamepadButton::Back),
            16 => Some(GamepadButton::Guide),
            _ => None,
        }
    }

    /// Every button is found again from its code, and a code stands for at
    /// most one button.
    pub proof fn lemma_code_round_trip()
        ensures
            forall|button: GamepadButton|
                Self::spec_from_code(#[trigger] button.spec_code()) == Some(button),
            forall|code: u8|
                (#[trigger] Self::spec_from_code(code)) matches Some(button)
                    ==> button.spec_code() == code,
    {
    }
}

impl GamepadAxis {
    /// The code under which the axis is stored in a [`CodeMap`].
    pub open spec fn spec_code(self) -> u8 {
        match self {
            GamepadAxis::LeftStickX => 0,
            GamepadAxis::LeftStickY => 1,
            GamepadAxis::LeftTrigger => 2,
            GamepadAxis::RightStickX => 3,
            GamepadAxis::RightStickY => 4,
            GamepadAxis::RightTrigger => 5,
        }
    }

    /// The code under which the axis is stored.
    #[verifier::when_used_as_spec(spec_code)]
    pub fn code(self) -> (code: u8)
        ensures
            code == self.spec_code(),
    {
        match self {
            GamepadAxis::LeftStickX => 0,
            GamepadAxis::LeftStickY => 1,
            GamepadAxis::LeftTrigger => 2,
            GamepadAxis::RightStickX => 3,
            GamepadAxis::RightStickY => 4,
            GamepadAxis::RightTrigger => 5,
        }
    }

    /// Two axes with the same code are the same axis.
    pub proof fn lemma_code_injective()
        ensures
            forall|a: GamepadAxis, b: GamepadAxis|
                #[trigger] a.spec_code() == #[trigger] b.spec_code() ==> a == b,
    {
    }
}

impl GamepadStick {
    /// The axis that carries the horizontal position of the stick.
    pub open spec fn spec_x_axis(self) -> GamepadAxis {
        match self {
            GamepadStick::LeftStick => GamepadAxis::LeftStickX,
            GamepadStick::RightStick => GamepadAxis::RightStickX,
        }
    }

    /// The axis that carries the vertical position of the stick.
    pub open spec fn spec_y_axis(self) -> GamepadAxis {
        match self {
            GamepadStick::LeftStick => GamepadAxis::LeftStickY,
            GamepadStick::RightStick => GamepadAxis::RightStickY,
        }
    }
}


/// What the state of one connected gamepad means.
///
/// Axis positions are kept as the raw bits of an IEEE 754 single-precision
/// number; an axis that was never moved has no entry.
#[verifier::ext_equal]
pub struct GamepadView {
    /// The identifier by which the platform layer addresses the device.
    pub platform_id: i32,
    /// The buttons that are down right now.
    pub current_buttons: Set<GamepadButton>,
    /// The buttons that were down when the current frame began.
    pub previous_buttons: Set<GamepadButton>,
    /// The last position reported for each axis.
    pub axes: Map<GamepadAxis, u32>,
}

impl GamepadView {
    /// The state of a gamepad that has just been connected.
    pub open spec fn connected(platform_id: i32) -> GamepadView {
        GamepadView {
            platform_id,
            current_buttons: Set::empty(),
            previous_buttons: Set::empty(),
            axes: Map::empty(),
        }
    }

    /// The button went down.
    pub open spec fn set_button_down(self, button: GamepadButton) -> GamepadView {
        GamepadView { current_buttons: self.current_buttons.insert(button), ..self }
    }

    /// The button went up.
    pub open spec fn set_button_up(self, button: GamepadButton) -> GamepadView {
        GamepadView { current_buttons: self.current_buttons.remove(button), ..self }
    }

    /// The axis moved to a new position; the last report wins.
    pub open spec fn set_axis_position(self, axis: GamepadAxis, bits: u32) -> GamepadView {
        GamepadView { axes: self.axes.insert(axis, bits), ..self }
    }

    /// A frame begins: what is down now is what the new frame compares with.
    pub open spec fn begin_frame(self) -> GamepadView {
        GamepadView { previous_buttons: self.current_buttons, ..self }
    }

    /// The button is down.
    pub open spec fn is_button_down(self, button: GamepadButton) -> bool {
        self.current_buttons.contains(button)
    }

    /// The button went down during this frame.
    pub open spec fn is_button_pressed(self, button: GamepadButton) -> bool {
        self.current_buttons.contains(button) && !self.previous_buttons.contains(button)
    }

    /// The button went up during this frame.
    pub open spec fn is_button_released(self, button: GamepadButton) -> bool {
        self.previous_buttons.contains(button) && !self.current_buttons.contains(button)
    }

    /// The position of the axis, zero bits (the number 0.0) if none was reported.
    pub open spec fn axis_position(self, axis: GamepadAxis) -> u32 {
        if self.axes.contains_key(axis) {
            self.axes[axis]
        } else {
            0
        }
    }
}

/// The buttons whose codes are among `codes`.
spec fn buttons_of(codes: Set<u8>) -> Set<GamepadButton> {
    Set::new(|button: GamepadButton| codes.contains(button.spec_code()))
}

/// The axis positions that `values` holds under the axes' codes.
spec fn axes_of(values: Map<u8, u32>) -> Map<GamepadAxis, u32> {
    Map::new(
        |axis: GamepadAxis| values.contains_key(axis.spec_code()),
        |axis: GamepadAxis| values[axis.spec_code()],
    )
}

/// The buffered state of one connected gamepad.
pub struct GamepadState {
    pub(crate) platform_id: i32,
    pub(crate) current_button_state: CodeSet,
    pub(crate) previous_button_state: CodeSet,
    pub(crate) current_axis_state: CodeMap,
}

impl View for GamepadState {
    type V = GamepadView;

    closed spec fn view(&self) -> GamepadView {
        GamepadView {
            platform_id: self.platform_id,
            current_buttons: buttons_of(set_contents(self.current_button_state)),
            previous_buttons: buttons_of(set_contents(self.previous_button_state)),
            axes: axes_of(map_contents(self.current_axis_state)),
        }
    }
}

proof fn lemma_buttons_of_empty()
    ensures
        buttons_of(Set::empty()) == Set::<GamepadButton>::empty(),
{
    assert(buttons_of(Set::empty()) =~= Set::<GamepadButton>::empty());
}

proof fn lemma_buttons_of_insert(codes: Set<u8>, button: GamepadButton)
    ensures
        buttons_of(codes.insert(button.spec_code())) == buttons_of(codes).insert(button),
{
    GamepadButton::lemma_code_round_trip();
    assert(buttons_of(codes.insert(button.spec_code())) =~= buttons_of(codes).insert(button));
}

proof fn lemma_buttons_of_remove(codes: Set<u8>, button: GamepadButton)
    ensures
        buttons_of(codes.remove(button.spec_code())) == buttons_of(codes).remove(button),
{
    GamepadButton::lemma_code_round_trip();
    assert(buttons_of(codes.remove(button.spec_code())) =~= buttons_of(codes).remove(button));
}

proof fn lemma_buttons_of_difference(codes: Set<u8>, other: Set<u8>)
    ensures
        buttons_of(codes.difference(other)) == buttons_of(codes).difference(buttons_of(other)),
{
    assert(buttons_of(codes.difference(other)) =~= buttons_of(codes).difference(
        buttons_of(other),
    ));
}

proof fn lemma_axes_of_empty()
    ensures
        axes_of(Map::empty()) == Map::<GamepadAxis, u32>::empty(),
{
    assert(axes_of(Map::empty()) =~= Map::<GamepadAxis, u32>::empty());
}

proof fn lemma_axes_of_insert(values: Map<u8, u32>, axis: GamepadAxis, bits: u32)
    ensures
        axes_of(values.insert(axis.spec_code(), bits)) == axes_of(values).insert(axis, bits),
{
    GamepadAxis::lemma_code_injective();
    assert(axes_of(values.insert(axis.spec_code(), bits)) =~= axes_of(values).insert(
        axis,
        bits,
    ));
}

impl GamepadState {
    /// The state of a gamepad that has just been connected: no button is or
    /// was down, and no axis has reported a position.
    pub fn new(platform_id: i32) -> (state: GamepadState)
        ensures
            state@ == GamepadView::connected(platform_id),
    {
        proof {
            lemma_buttons_of_empty();
            lemma_axes_of_empty();
        }
        GamepadState {
            platform_id,
            current_button_state: set_new(),
            previous_button_state: set_new(),
            current_axis_state: map_new(),
        }
    }

    /// Records that `btn` is down. A button that is already down stays down.
    pub fn set_button_down(&mut self, btn: GamepadButton)
        ensures
            final(self)@ == old(self)@.set_button_down(btn),
    {
        proof {
            lemma_buttons_of_insert(set_contents(self.current_button_state), btn);
        }
        set_insert(&mut self.current_button_state, btn.code());
    }

    /// Records that `btn` is up. A button that is already up stays up.
    pub fn set_button_up(&mut self, btn: GamepadButton)
        ensures
            final(self)@ == old(self)@.set_button_up(btn),
    {
        proof {
            lemma_buttons_of_remove(set_contents(self.current_button_state), btn);
        }
        set_remove(&mut self.current_button_state, btn.code());
    }

    /// Records the position of `axis`, overwriting what was recorded before.
    pub fn set_axis_position(&mut self, axis: GamepadAxis, value: u32)
        ensures
            final(self)@ == old(self)@.set_axis_position(axis, value),
    {
        proof {
            lemma_axes_of_insert(map_contents(self.current_axis_state), axis, value);
        }
        map_insert(&mut self.current_axis_state, axis.code(), value);
    }

    /// Begins a frame: the buttons that are down now become the buttons that
    /// the new frame's presses and releases are measured against.
    pub fn begin_frame(&mut self)
        ensures
            final(self)@ == old(self)@.begin_frame(),
    {
        self.previous_button_state = set_clone(&self.current_button_state);
    }
}


impl InputView {
    /// Whether a gamepad is connected in slot `index`.
    pub open spec fn is_gamepad_connected(self, index: usize) -> bool {
        self.gamepad(index) is Some
    }

    /// The slots in which a gamepad is connected.
    pub open spec fn occupied_slots(self) -> Set<usize> {
        Set::new(|index: usize| self.is_gamepad_connected(index))
    }

    /// Whether `index` is the slot that the next gamepad gets: the lowest
    /// empty slot, or a new slot at the end of the table if none is empty.
    pub open spec fn is_next_slot(self, index: usize) -> bool {
        &&& index <= self.pads.len()
        &&& !self.is_gamepad_connected(index)
        &&& forall|lower: usize| lower < index ==> self.is_gamepad_connected(lower)
    }

    /// A gamepad is connected in slot `index`, which is empty or one past the
    /// end of the table. Every other slot stays as it is.
    pub open spec fn add_gamepad(self, index: usize, platform_id: i32) -> InputView {
        let pad = Some(GamepadView::connected(platform_id));
        if index < self.pads.len() {
            InputView { pads: self.pads.update(index as int, pad), ..self }
        } else {
            InputView { pads: self.pads.push(pad), ..self }
        }
    }

    /// The gamepad in slot `index` is disconnected and its state forgotten.
    /// Every other slot stays as it is, and the table keeps its length.
    pub open spec fn remove_gamepad(self, index: usize) -> InputView {
        if index < self.pads.len() {
            InputView { pads: self.pads.update(index as int, None), ..self }
        } else {
            self
        }
    }

    /// The gamepad in slot `index` becomes `pad`; nothing changes if no
    /// gamepad is in the slot.
    pub open spec fn change_gamepad(self, index: usize, pad: GamepadView) -> InputView {
        if self.is_gamepad_connected(index) {
            InputView { pads: self.pads.update(index as int, Some(pad)), ..self }
        } else {
            self
        }
    }

    /// The button is down; never on a gamepad that is not connected.
    pub open spec fn is_gamepad_button_down(self, index: usize, button: GamepadButton) -> bool {
        match self.gamepad(index) {
            Some(pad) => pad.is_button_down(button),
            None => false,
        }
    }

    /// The button is up; always on a gamepad that is not connected.
    pub open spec fn is_gamepad_button_up(self, index: usize, button: GamepadButton) -> bool {
        match self.gamepad(index) {
            Some(pad) => !pad.is_button_down(button),
            None => true,
        }
    }

    /// The button went down during this frame; never on a gamepad that is
    /// not connected.
    pub open spec fn is_gamepad_button_pressed(self, index: usize, button: GamepadButton) -> bool {
        match self.gamepad(index) {
            Some(pad) => pad.is_button_pressed(button),
            None => false,
        }
    }

    /// The button went up during this frame; never on a gamepad that is not
    /// connected.
    pub open spec fn is_gamepad_button_released(
        self,
        index: usize,
        button: GamepadButton,
    ) -> bool {
        match self.gamepad(index) {
            Some(pad) => pad.is_button_released(button),
            None => false,
        }
    }

    /// The buttons that are down; none on a gamepad that is not connected.
    pub open spec fn gamepad_buttons_down(self, index: usize) -> Set<GamepadButton> {
        match self.gamepad(index) {
            Some(pad) => pad.current_buttons,
            None => Set::empty(),
        }
    }

    /// The buttons that went down during this frame: those that are down now
    /// and were not down when the frame began.
    pub open spec fn gamepad_buttons_pressed(self, index: usize) -> Set<GamepadButton> {
        match self.gamepad(index) {
            Some(pad) => pad.current_buttons.difference(pad.previous_buttons),
            None => Set::empty(),
        }
    }

    /// The buttons that went up during this frame: those that were down when
    /// the frame began and are not down now.
    pub open spec fn gamepad_buttons_released(self, index: usize) -> Set<GamepadButton> {
        match self.gamepad(index) {
            Some(pad) => pad.previous_buttons.difference(pad.current_buttons),
            None => Set::empty(),
        }
    }

    /// The bits of the axis's position; zero bits (the number 0.0) if none
    /// was reported or the gamepad is not connected.
    pub open spec fn gamepad_axis_position(self, index: usize, axis: GamepadAxis) -> u32 {
        match self.gamepad(index) {
            Some(pad) => pad.axis_position(axis),
            None => 0,
        }
    }

    /// The platform's identifier of the gamepad in slot `index`.
    pub open spec fn gamepad_platform_id(self, index: usize) -> Option<i32> {
        match self.gamepad(index) {
            Some(pad) => Some(pad.platform_id),
            None => None,
        }
    }
}

/// Returns true if the specified gamepad is currently connected.
pub fn is_gamepad_connected(ctx: &Context, gamepad_index: usize) -> (connected: bool)
    ensures
        connected == ctx@.input.is_gamepad_connected(gamepad_index),
{
    get_gamepad(ctx, gamepad_index).is_some()
}

/// Returns the name of the specified gamepad, or `None` if it is not connected.
pub fn get_gamepad_name(ctx: &Context, gamepad_index: usize) -> (name: Option<String>)
    ensures
        match ctx@.input.gamepad_platform_id(gamepad_index) {
            Some(id) => name is Some && name->0@ == platform::spec_get_gamepad_name(id),
            None => name is None,
        },
{
    match get_gamepad(ctx, gamepad_index) {
        Some(pad) => Some(platform::get_gamepad_name(ctx, pad.platform_id)),
        None => None,
    }
}

/// Returns true if the specified gamepad button is currently down.
///
/// If the gamepad is disconnected, this will always return `false`.
pub fn is_gamepad_button_down(ctx: &Context, gamepad_index: usize, button: GamepadButton) -> (down:
    bool)
    ensures
        down == ctx@.input.is_gamepad_button_down(gamepad_index, button),
{
    if let Some(pad) = get_gamepad(ctx, gamepad_index) {
        set_contains(&pad.current_button_state, button.code())
    } else {
        false
    }
}

/// Returns true if the specified gamepad button is currently up.
///
/// If the gamepad is disconnected, this will always return `true`.
pub fn is_gamepad_button_up(ctx: &Context, gamepad_index: usize, button: GamepadButton) -> (up:
    bool)
    ensures
        up == ctx@.input.is_gamepad_button_up(gamepad_index, button),
{
    if let Some(pad) = get_gamepad(ctx, gamepad_index) {
        !set_contains(&pad.current_button_state, button.code())
    } else {
        true
    }
}

/// Returns true if the specified gamepad button was pressed this tick.
///
/// If the gamepad is disconnected, this will always return `false`.
pub fn is_gamepad_button_pressed(
    ctx: &Context,
    gamepad_index: usize,
    button: GamepadButton,
) -> (pressed: bool)
    ensures
        pressed == ctx@.input.is_gamepad_button_pressed(gamepad_index, button),
{
    if let Some(pad) = get_gamepad(ctx, gamepad_index) {
        !set_contains(&pad.previous_button_state, button.code()) && set_contains(
            &pad.current_button_state,
            button.code(),
        )
    } else {
        false
    }
}

/// Returns true if the specified gamepad button was released this tick.
///
/// If the gamepad is disconnected, this will always return `false`.
pub fn is_gamepad_button_released(
    ctx: &Context,
    gamepad_index: usize,
    button: GamepadButton,
) -> (released: bool)
    ensures
        released == ctx@.input.is_gamepad_button_released(gamepad_index, button),
{
    if let Some(pad) = get_gamepad(ctx, gamepad_index) {
        set_contains(&pad.previous_button_state, button.code()) && !set_contains(
            &pad.current_button_state,
            button.code(),
        )
    } else {
        false
    }
}

/// Connects a gamepad: it gets the lowest empty slot, or a new slot at the
/// end of the table if none is empty. Returns the slot's index, which stays
/// the gamepad's own until it is removed.
pub fn add_gamepad(ctx: &mut Context, platform_id: i32) -> (index: usize)
    ensures
        old(ctx)@.input.is_next_slot(index),
        final(ctx)@ == (ContextView {
            input: old(ctx)@.input.add_gamepad(index, platform_id),
            ..old(ctx)@
        }),
        final(ctx)@.input.is_gamepad_connected(index),
{
    let mut i: usize = 0;
    while i < ctx.input.pads.len()
        invariant
            *ctx == *old(ctx),
            i <= ctx.input.pads.len(),
            forall|lower: usize| lower < i ==> ctx@.input.is_gamepad_connected(lower),
        decreases ctx.input.pads.len() - i,
    {
        if ctx.input.pads[i].is_none() {
            ctx.input.pads.set(i, Some(GamepadState::new(platform_id)));
            assert(ctx@.input.pads =~= old(ctx)@.input.pads.update(
                i as int,
                Some(GamepadView::connected(platform_id)),
            ));
            return i;
        }
        i += 1;
    }

    // There wasn't an existing free slot...
    let i = ctx.input.pads.len();
    ctx.input.pads.push(Some(GamepadState::new(platform_id)));
    assert(ctx@.input.pads =~= old(ctx)@.input.pads.push(
        Some(GamepadView::connected(platform_id)),
    ));
    i
}

/// Disconnects the gamepad in a slot and forgets its state. The other
/// gamepads keep their slots. Nothing happens if no gamepad is in the slot.
pub fn remove_gamepad(ctx: &mut Context, gamepad_index: usize)
    ensures
        final(ctx)@ == (ContextView {
            input: old(ctx)@.input.remove_gamepad(gamepad_index),
            ..old(ctx)@
        }),
        !final(ctx)@.input.is_gamepad_connected(gamepad_index),
{
    if gamepad_index < ctx.input.pads.len() {
        ctx.input.pads.set(gamepad_index, None);
        assert(ctx@.input.pads =~= old(ctx)@.input.pads.update(gamepad_index as int, None));
    }
}

/// The state of the gamepad in a slot, or `None` if no gamepad is in it.
pub fn get_gamepad(ctx: &Context, gamepad_index: usize) -> (pad: Option<&GamepadState>)
    ensures
        match pad {
            Some(state) => gamepad_index < ctx.input.pads@.len()
                && ctx.input.pads@[gamepad_index as int] == Some(*state),
            None => gamepad_index >= ctx.input.pads@.len()
                || ctx.input.pads@[gamepad_index as int] is None,
        },
        slot_view_ref(pad) == ctx@.input.gamepad(gamepad_index),
{
    if gamepad_index < ctx.input.pads.len() {
        ctx.input.pads[gamepad_index].as_ref()
    } else {
        None
    }
}

/// What a borrowed gamepad slot means.
pub open spec fn slot_view_ref(slot: Option<&GamepadState>) -> Option<GamepadView> {
    match slot {
        Some(pad) => Some(pad@),
        None => None,
    }
}


/// The state of the gamepad in a slot, to be changed in place, or `None` if
/// no gamepad is in the slot. Whatever the caller does to the state, the
/// other slots, the keyboard and the waiting events stay as they are.
pub fn get_gamepad_mut(ctx: &mut Context, gamepad_index: usize) -> (pad: Option<&mut GamepadState>)
    ensures
        match pad {
            Some(state) => {
                &&& old(ctx)@.input.gamepad(gamepad_index) == Some(state@)
                &&& final(ctx)@ == (ContextView {
                    input: InputView {
                        pads: old(ctx)@.input.pads.update(
                            gamepad_index as int,
                            Some(final(state)@),
                        ),
                        ..old(ctx)@.input
                    },
                    ..old(ctx)@
                })
            },
            None => {
                &&& old(ctx)@.input.gamepad(gamepad_index) is None
                &&& final(ctx)@ == old(ctx)@
            },
        },
{
    if gamepad_index < ctx.input.pads.len() {
        ctx.input.pads[gamepad_index].as_mut()
    } else {
        None
    }
}


proof fn lemma_buttons_of_insert_other(codes: Set<u8>, code: u8)
    requires
        GamepadButton::spec_from_code(code) is None,
    ensures
        buttons_of(codes.insert(code)) == buttons_of(codes),
{
    GamepadButton::lemma_code_round_trip();
    assert(buttons_of(codes.insert(code)) =~= buttons_of(codes));
}

/// The buttons that the codes stand for, in the order of the codes. A code
/// that stands for no button is passed over.
fn buttons_from_codes(codes: &Vec<u8>) -> (buttons: Vec<GamepadButton>)
    requires
        codes@.no_duplicates(),
    ensures
        buttons@.no_duplicates(),
        buttons@.to_set() == buttons_of(codes@.to_set()),
{
    let mut buttons: Vec<GamepadButton> = Vec::new();
    let mut i: usize = 0;
    proof {
        lemma_buttons_of_empty();
        assert(codes@.take(0).to_set() =~= Set::<u8>::empty());
        assert(buttons@.to_set() =~= Set::<GamepadButton>::empty());
    }
    while i < codes.len()
        invariant
            i <= codes.len(),
            codes@.no_duplicates(),
            buttons@.no_duplicates(),
            buttons@.to_set() == buttons_of(codes@.take(i as int).to_set()),
        decreases codes.len() - i,
    {
        let code = codes[i];
        let ghost seen = codes@.take(i as int);
        proof {
            assert(codes@.take(i + 1) =~= seen.push(code));
            seen.lemma_push_to_set_commute(code);
            assert(!seen.to_set().contains(code)) by {
                if seen.contains(code) {
                    let j = choose|j: int| 0 <= j < seen.len() && seen[j] == code;
                    assert(codes@[j] == codes@[i as int]);
                }
            }
        }
        if let Some(button) = GamepadButton::from_code(code) {
            proof {
                GamepadButton::lemma_code_round_trip();
                lemma_buttons_of_insert(seen.to_set(), button);
                assert(!buttons@.contains(button)) by {
                    assert(buttons@.contains(button) == buttons@.to_set().contains(button));
                    assert(buttons_of(seen.to_set()).contains(button) == seen.to_set().contains(
                        button.spec_code(),
                    ));
                }
                buttons@.lemma_push_to_set_commute(button);
                assert(buttons@.push(button).no_duplicates());
            }
            buttons.push(button);
        } else {
            proof {
                lemma_buttons_of_insert_other(seen.to_set(), code);
            }
        }
        i += 1;
    }
    proof {
        assert(codes@.take(i as int) =~= codes@);
    }
    buttons
}

/// Returns the buttons that are currently down on the specified gamepad,
/// each once, in no particular order.
///
/// If the gamepad is disconnected, an empty list will be returned.
pub fn get_gamepad_buttons_down(ctx: &Context, gamepad_index: usize) -> (buttons: Vec<
    GamepadButton,
>)
    ensures
        buttons@.no_duplicates(),
        buttons@.to_set() == ctx@.input.gamepad_buttons_down(gamepad_index),
{
    if let Some(pad) = get_gamepad(ctx, gamepad_index) {
        let codes = set_items(&pad.current_button_state);
        buttons_from_codes(&codes)
    } else {
        let buttons: Vec<GamepadButton> = Vec::new();
        assert(buttons@.to_set() =~= Set::<GamepadButton>::empty());
        buttons
    }
}

/// Returns the buttons that were pressed this tick on the specified gamepad,
/// each once, in no particular order.
///
/// If the gamepad is disconnected, an empty list will be returned.
pub fn get_gamepad_buttons_pressed(ctx: &Context, gamepad_index: usize) -> (buttons: Vec<
    GamepadButton,
>)
    ensures
        buttons@.no_duplicates(),
        buttons@.to_set() == ctx@.input.gamepad_buttons_pressed(gamepad_index),
{
    if let Some(pad) = get_gamepad(ctx, gamepad_index) {
        let codes = set_difference(&pad.current_button_state, &pad.previous_button_state);
        proof {
            lemma_buttons_of_difference(
                set_contents(pad.current_button_state),
                set_contents(pad.previous_button_state),
            );
        }
        buttons_from_codes(&codes)
    } else {
        let buttons: Vec<GamepadButton> = Vec::new();
        assert(buttons@.to_set() =~= Set::<GamepadButton>::empty());
        buttons
    }
}

/// Returns the buttons that were released this tick on the specified
/// gamepad, each once, in no particular order.
///
/// If the gamepad is disconnected, an empty list will be returned.
pub fn get_gamepad_buttons_released(ctx: &Context, gamepad_index: usize) -> (buttons: Vec<
    GamepadButton,
>)
    ensures
        buttons@.no_duplicates(),
        buttons@.to_set() == ctx@.input.gamepad_buttons_released(gamepad_index),
{
    if let Some(pad) = get_gamepad(ctx, gamepad_index) {
        let codes = set_difference(&pad.previous_button_state, &pad.current_button_state);
        proof {
            lemma_buttons_of_difference(
                set_contents(pad.previous_button_state),
                set_contents(pad.current_button_state),
            );
        }
        buttons_from_codes(&codes)
    } else {
        let buttons: Vec<GamepadButton> = Vec::new();
        assert(buttons@.to_set() =~= Set::<GamepadButton>::empty());
        buttons
    }
}

/// Returns the current position of the specified gamepad axis, as the bits
/// of a single-precision number.
///
/// If the gamepad is disconnected, or the axis never moved, this returns
/// zero bits, which are the number `0.0`.
pub fn get_gamepad_axis_position(ctx: &Context, gamepad_index: usize, axis: GamepadAxis) -> (bits:
    u32)
    ensures
        bits == ctx@.input.gamepad_axis_position(gamepad_index, axis),
{
    if let Some(pad) = get_gamepad(ctx, gamepad_index) {
        if let Some(value) = map_get(&pad.current_axis_state, axis.code()) {
            value
        } else {
            0
        }
    } else {
        0
    }
}

/// Returns the current position of the specified gamepad control stick: the
/// positions of its horizontal and of its vertical axis, each as
/// [`get_gamepad_axis_position`] gives it.
///
/// If the gamepad is disconnected, both are zero bits.
pub fn get_gamepad_stick_position(ctx: &Context, gamepad_index: usize, stick: GamepadStick) -> (
    position: (u32, u32))
    ensures
        position.0 == ctx@.input.gamepad_axis_position(gamepad_index, stick.spec_x_axis()),
        position.1 == ctx@.input.gamepad_axis_position(gamepad_index, stick.spec_y_axis()),
{
    let (x_axis, y_axis) = match stick {
        GamepadStick::LeftStick => (GamepadAxis::LeftStickX, GamepadAxis::LeftStickY),
        GamepadStick::RightStick => (GamepadAxis::RightStickX, GamepadAxis::RightStickY),
    };

    (
        get_gamepad_axis_position(ctx, gamepad_index, x_axis),
        get_gamepad_axis_position(ctx, gamepad_index, y_axis),
    )
}

/// Returns whether or not the specified gamepad supports vibration.
///
/// If the gamepad is disconnected, this will always return `false`.
pub fn is_gamepad_vibration_supported(ctx: &Context, gamepad_index: usize) -> (supported: bool)
    ensures
        supported == match ctx@.input.gamepad_platform_id(gamepad_index) {
            Some(id) => platform::spec_is_gamepad_vibration_supported(id),
            None => false,
        },
{
    if let Some(pad) = get_gamepad(ctx, gamepad_index) {
        platform::is_gamepad_vibration_supported(ctx, pad.platform_id)
    } else {
        false
    }
}

/// The platform's identifier of the gamepad in a slot, or `None` if no
/// gamepad is in it. This is what a request to the platform is addressed to.
pub fn get_gamepad_platform_id(ctx: &Context, gamepad_index: usize) -> (id: Option<i32>)
    ensures
        id == ctx@.input.gamepad_platform_id(gamepad_index),
{
    match get_gamepad(ctx, gamepad_index) {
        Some(pad) => Some(pad.platform_id),
        None => None,
    }
}

/// Sets the specified gamepad's motors to vibrate indefinitely. The strength
/// is given by the bits of a single-precision number and is handed to the
/// platform as it is.
///
/// Returns the request as it was made of the platform: it names the gamepad
/// by the platform's identifier and carries the strength unchanged. If the
/// gamepad is disconnected, nothing is asked of the platform, and `None` is
/// returned.
pub fn set_gamepad_vibration(ctx: &mut Context, gamepad_index: usize, strength: u32) -> (request:
    Option<VibrationRequest>)
    ensures
        final(ctx)@ == old(ctx)@,
        request == (match old(ctx)@.input.gamepad_platform_id(gamepad_index) {
            Some(id) => Some(VibrationRequest::Vibrate { platform_id: id, strength }),
            None => None,
        }),
{
    if let Some(platform_id) = get_gamepad_platform_id(ctx, gamepad_index) {
        platform::set_gamepad_vibration(ctx, platform_id, strength);
        Some(VibrationRequest::Vibrate { platform_id, strength })
    } else {
        None
    }
}

/// Sets the specified gamepad's motors to vibrate for a set duration,
/// specified in milliseconds. After this time has passed, the vibration will
/// automatically stop; the platform keeps the time.
///
/// Returns the request as it was made of the platform: it names the gamepad
/// by the platform's identifier and carries the strength and the duration
/// unchanged. If the gamepad is disconnected, nothing is asked of the
/// platform, and `None` is returned.
pub fn start_gamepad_vibration(
    ctx: &mut Context,
    gamepad_index: usize,
    strength: u32,
    duration: u32,
) -> (request: Option<VibrationRequest>)
    ensures
        final(ctx)@ == old(ctx)@,
        request == (match old(ctx)@.input.gamepad_platform_id(gamepad_index) {
            Some(id) => Some(VibrationRequest::VibrateFor { platform_id: id, strength, duration }),
            None => None,
        }),
{
    if let Some(platform_id) = get_gamepad_platform_id(ctx, gamepad_index) {
        platform::start_gamepad_vibration(ctx, platform_id, strength, duration);
        Some(VibrationRequest::VibrateFor { platform_id, strength, duration })
    } else {
        None
    }
}

/// Stops the specified gamepad's motors from vibrating.
///
/// Returns the request as it was made of the platform: it names the gamepad
/// by the platform's identifier. If the gamepad is disconnected, nothing is
/// asked of the platform, and `None` is returned.
pub fn stop_gamepad_vibration(ctx: &mut Context, gamepad_index: usize) -> (request: Option<
    VibrationRequest,
>)
    ensures
        final(ctx)@ == old(ctx)@,
        request == (match old(ctx)@.input.gamepad_platform_id(gamepad_index) {
            Some(id) => Some(VibrationRequest::Stop { platform_id: id }),
            None => None,
        }),
{
    if let Some(platform_id) = get_gamepad_platform_id(ctx, gamepad_index) {
        platform::stop_gamepad_vibration(ctx, platform_id);
        Some(VibrationRequest::Stop { platform_id })
    } else {
        None
    }
}


/// A button is down exactly when it is not up, on every slot, connected or
/// not.
pub proof fn lemma_button_down_is_not_up(input: InputView, index: usize, button: GamepadButton)
    ensures
        input.is_gamepad_button_down(index, button) == !input.is_gamepad_button_up(index, button),
{
}

/// Within one frame a button is never both pressed and released. A pressed
/// button is down, and a released button is up.
pub proof fn lemma_pressed_excludes_released(
    input: InputView,
    index: usize,
    button: GamepadButton,
)
    ensures
        !(input.is_gamepad_button_pressed(index, button) && input.is_gamepad_button_released(
            index,
            button,
        )),
        input.is_gamepad_button_pressed(index, button) ==> input.is_gamepad_button_down(
            index,
            button,
        ),
        input.is_gamepad_button_released(index, button) ==> input.is_gamepad_button_up(
            index,
            button,
        ),
{
}

/// The lists of pressed and of released buttons hold exactly the buttons
/// that the single-button queries call pressed and released, and the list of
/// buttons that are down holds exactly those that are down.
pub proof fn lemma_button_sets_agree_with_queries(
    input: InputView,
    index: usize,
    button: GamepadButton,
)
    ensures
        input.gamepad_buttons_down(index).contains(button) == input.is_gamepad_button_down(
            index,
            button,
        ),
        input.gamepad_buttons_pressed(index).contains(button) == input.is_gamepad_button_pressed(
            index,
            button,
        ),
        input.gamepad_buttons_released(index).contains(button)
            == input.is_gamepad_button_released(index, button),
{
}

/// Every query on a slot in which no gamepad is connected gives its neutral
/// answer.
pub proof fn lemma_disconnected_is_neutral(
    input: InputView,
    index: usize,
    button: GamepadButton,
    axis: GamepadAxis,
)
    requires
        !input.is_gamepad_connected(index),
    ensures
        !input.is_gamepad_button_down(index, button),
        input.is_gamepad_button_up(index, button),
        !input.is_gamepad_button_pressed(index, button),
        !input.is_gamepad_button_released(index, button),
        input.gamepad_buttons_down(index) == Set::<GamepadButton>::empty(),
        input.gamepad_buttons_pressed(index) == Set::<GamepadButton>::empty(),
        input.gamepad_buttons_released(index) == Set::<GamepadButton>::empty(),
        input.gamepad_axis_position(index, axis) == 0,
        input.gamepad_platform_id(index) is None,
{
}

/// Once a gamepad is removed, no gamepad is connected in its slot, whatever
/// was there before; so by [`lemma_disconnected_is_neutral`] every query on
/// the slot gives its neutral answer. The other slots are as they were.
pub proof fn lemma_removed_gamepad_is_disconnected(input: InputView, index: usize)
    ensures
        !input.remove_gamepad(index).is_gamepad_connected(index),
        input.remove_gamepad(index).pads.len() == input.pads.len(),
        input.remove_gamepad(index).occupied_slots() == input.occupied_slots().remove(index),
        forall|other: usize|
            other != index ==> #[trigger] input.remove_gamepad(index).gamepad(other)
                == input.gamepad(other),
{
    let after = input.remove_gamepad(index);
    assert forall|other: usize| other != index implies #[trigger] after.gamepad(other)
        == input.gamepad(other) by {}
    assert(after.occupied_slots() =~= input.occupied_slots().remove(index)) by {
        assert forall|i: usize|
            after.occupied_slots().contains(i) == input.occupied_slots().remove(index).contains(
                i,
            ) by {
            assert(after.is_gamepad_connected(i) == (after.gamepad(i) is Some));
            assert(input.is_gamepad_connected(i) == (input.gamepad(i) is Some));
        }
    }
}

/// A gamepad that is added gets a slot that was empty, and the slot then
/// holds a fresh state: nothing of a gamepad that was in the slot before is
/// left. The other slots are as they were, so the occupied slots are those
/// that were occupied and the new one.
pub proof fn lemma_added_gamepad_is_fresh(input: InputView, index: usize, platform_id: i32)
    requires
        input.is_next_slot(index),
    ensures
        !input.occupied_slots().contains(index),
        input.add_gamepad(index, platform_id).gamepad(index) == Some(
            GamepadView::connected(platform_id),
        ),
        input.add_gamepad(index, platform_id).occupied_slots() == input.occupied_slots().insert(
            index,
        ),
        forall|other: usize|
            other != index ==> #[trigger] input.add_gamepad(index, platform_id).gamepad(other)
                == input.gamepad(other),
{
    let after = input.add_gamepad(index, platform_id);
    assert forall|other: usize| other != index implies #[trigger] after.gamepad(other)
        == input.gamepad(other) by {}
    assert(after.occupied_slots() =~= input.occupied_slots().insert(index)) by {
        assert forall|i: usize|
            after.occupied_slots().contains(i) == input.occupied_slots().insert(index).contains(
                i,
            ) by {
            assert(after.is_gamepad_connected(i) == (after.gamepad(i) is Some));
            assert(input.is_gamepad_connected(i) == (input.gamepad(i) is Some));
        }
    }
}

/// The slot that the next gamepad gets is determined by the table, and it is
/// never above a slot that is empty: a gamepad that connects after another
/// has left gets that one's slot or a lower one.
pub proof fn lemma_next_slot_is_lowest(input: InputView, index: usize, empty: usize)
    requires
        input.is_next_slot(index),
        empty <= input.pads.len(),
        !input.is_gamepad_connected(empty),
    ensures
        index <= empty,
        input.is_next_slot(empty) ==> empty == index,
{
    if empty < index {
        assert(input.is_gamepad_connected(empty));
    }
    if input.is_next_slot(empty) && index < empty {
        assert(input.is_gamepad_connected(index));
    }
}

} // verus!
