//! The browser backend: the queue of captured input events, and the services
//! that the engine asks of the platform.
//!
//! In a browser the canvas has a fixed size, there is one cursor that is
//! always shown, and gamepads can be neither named nor made to vibrate.

use std::collections::VecDeque;

use vstd::prelude::*;

pub mod keymap;

use crate::error::TetraError;
use crate::input::gamepad::{GamepadAxis, GamepadButton};
use crate::input::apply_event;
use crate::input::keyboard::Key;
use crate::platform::keymap::{into_key, spec_into_key};
use crate::{Context, ContextView};

verus! {

/// The width of the canvas, in pixels.
pub const WINDOW_WIDTH: i32 = 640;

/// The height of the canvas, in pixels.
pub const WINDOW_HEIGHT: i32 = 480;

/// A change of input that was captured and waits to be applied.
#[derive(Debug, Copy, Clone, PartialEq, Eq, Structural)]
pub enum Event {
    /// A key went down.
    KeyDown(Key),
    /// A key went up.
    KeyUp(Key),
    /// A button of the gamepad in a slot went down.
    GamepadButtonDown { gamepad_index: usize, button: GamepadButton },
    /// A button of the gamepad in a slot went up.
    GamepadButtonUp { gamepad_index: usize, button: GamepadButton },
    /// An axis of the gamepad in a slot moved; the position is given by its bits.
    GamepadAxisMoved { gamepad_index: usize, axis: GamepadAxis, position: u32 },
}

/// A request that is made of the platform to change the vibration of a
/// gamepad. The gamepad is named by the identifier under which the platform
/// knows it; a strength is given by its bits.
#[derive(Debug, Copy, Clone, PartialEq, Eq, Structural)]
pub enum VibrationRequest {
    /// Vibrate until told otherwise.
    Vibrate { platform_id: i32, strength: u32 },
    /// Vibrate for `duration` milliseconds, then stop.
    VibrateFor { platform_id: i32, strength: u32, duration: u32 },
    /// Stop vibrating.
    Stop { platform_id: i32 },
}

/// The platform's side of the engine: the events that were captured since
/// the queue was last drained, oldest first.
pub struct Platform {
    /// The captured events, oldest first.
    pub event_queue: VecDeque<Event>,
}

impl View for Platform {
    type V = Seq<Event>;

    open spec fn view(&self) -> Seq<Event> {
        self.event_queue@
    }
}

impl Platform {
    /// A platform with no captured events, and the width and height of the
    /// canvas that it draws on.
    pub fn new() -> (created: (Platform, i32, i32))
        ensures
            created.0@ == Seq::<Event>::empty(),
            created.1 == WINDOW_WIDTH,
            created.2 == WINDOW_HEIGHT,
    {
        (Platform { event_queue: VecDeque::new() }, WINDOW_WIDTH, WINDOW_HEIGHT)
    }

    /// Appends a captured event to the queue.
    pub fn push_event(&mut self, event: Event)
        ensures
            final(self)@ == old(self)@.push(event),
    {
        self.event_queue.push_back(event);
    }

    /// Captures the browser's report that a key went down: `key` is the
    /// report's text and `location` the part of the keyboard in which the key
    /// lies. A report that stands for no key of the vocabulary is dropped.
    pub fn on_key_down(&mut self, key: &str, location: u32)
        ensures
            final(self)@ == match spec_into_key(key@, location) {
                Some(found) => old(self)@.push(Event::KeyDown(found)),
                None => old(self)@,
            },
    {
        if let Some(found) = into_key(key, location) {
            self.event_queue.push_back(Event::KeyDown(found));
        }
    }

    /// Captures the browser's report that a key went up: `key` is the
    /// report's text and `location` the part of the keyboard in which the key
    /// lies. A report that stands for no key of the vocabulary is dropped.
    pub fn on_key_up(&mut self, key: &str, location: u32)
        ensures
            final(self)@ == match spec_into_key(key@, location) {
                Some(found) => old(self)@.push(Event::KeyUp(found)),
                None => old(self)@,
            },
    {
        if let Some(found) = into_key(key, location) {
            self.event_queue.push_back(Event::KeyUp(found));
        }
    }
}

/// The title of the window: a canvas has none.
pub fn get_window_title(ctx: &Context) -> (title: &'static str)
    ensures
        title@ == Seq::<char>::empty(),
{
    proof {
        reveal_strlit("");
    }
    ""
}

/// Sets the title of the window. A canvas has none, so nothing changes.
pub fn set_window_title(ctx: &mut Context, title: &str)
    ensures
        final(ctx)@ == old(ctx)@,
{
}

/// The width of the window, in pixels.
pub fn get_window_width(ctx: &Context) -> (width: i32)
    ensures
        width == WINDOW_WIDTH,
{
    WINDOW_WIDTH
}

/// The height of the window, in pixels.
pub fn get_window_height(ctx: &Context) -> (height: i32)
    ensures
        height == WINDOW_HEIGHT,
{
    WINDOW_HEIGHT
}

/// The width and the height of the window, in pixels.
pub fn get_window_size(ctx: &Context) -> (size: (i32, i32))
    ensures
        size == (WINDOW_WIDTH, WINDOW_HEIGHT),
{
    (WINDOW_WIDTH, WINDOW_HEIGHT)
}

/// Sets the size of the window. A canvas keeps its size, so nothing changes.
pub fn set_window_size(ctx: &mut Context, width: i32, height: i32)
    ensures
        final(ctx)@ == old(ctx)@,
{
}

/// Switches between the window and the full screen. A canvas stays where it
/// is, so nothing changes. Never fails.
pub fn toggle_fullscreen(ctx: &mut Context) -> (result: Result<(), TetraError>)
    ensures
        result is Ok,
        final(ctx)@ == old(ctx)@,
{
    Ok(())
}

/// Takes the full screen. A canvas stays where it is, so nothing changes.
/// Never fails.
pub fn enable_fullscreen(ctx: &mut Context) -> (result: Result<(), TetraError>)
    ensures
        result is Ok,
        final(ctx)@ == old(ctx)@,
{
    Ok(())
}

/// Leaves the full screen. A canvas stays where it is, so nothing changes.
/// Never fails.
pub fn disable_fullscreen(ctx: &mut Context) -> (result: Result<(), TetraError>)
    ensures
        result is Ok,
        final(ctx)@ == old(ctx)@,
{
    Ok(())
}

/// Whether the window takes the full screen: a canvas never does.
pub fn is_fullscreen(ctx: &Context) -> (fullscreen: bool)
    ensures
        !fullscreen,
{
    false
}

/// Shows or hides the cursor. Over a canvas it is always shown, so nothing
/// changes.
pub fn set_mouse_visible(ctx: &mut Context, mouse_visible: bool)
    ensures
        final(ctx)@ == old(ctx)@,
{
}

/// Whether the cursor is shown: over a canvas, always.
pub fn is_mouse_visible(ctx: &Context) -> (visible: bool)
    ensures
        visible,
{
    true
}

/// Presents what was drawn. The browser does so by itself.
pub fn swap_buffers(ctx: &Context) {
}

/// The name that the platform gives to a gamepad: none in a browser.
pub open spec fn spec_get_gamepad_name(platform_id: i32) -> Seq<char> {
    Seq::empty()
}

/// Whether the platform can make a gamepad vibrate: never in a browser.
pub open spec fn spec_is_gamepad_vibration_supported(platform_id: i32) -> bool {
    false
}

/// The name of the gamepad that the platform knows as `platform_id`.
pub fn get_gamepad_name(ctx: &Context, platform_id: i32) -> (name: String)
    ensures
        name@ == spec_get_gamepad_name(platform_id),
{
    String::new()
}

/// Whether the gamepad that the platform knows as `platform_id` can vibrate.
pub fn is_gamepad_vibration_supported(ctx: &Context, platform_id: i32) -> (supported: bool)
    ensures
        supported == spec_is_gamepad_vibration_supported(platform_id),
{
    false
}

/// Asks the platform to make a gamepad vibrate until told otherwise. The
/// strength is given by its bits. Nothing in the engine's state changes.
pub fn set_gamepad_vibration(ctx: &mut Context, platform_id: i32, strength: u32)
    ensures
        final(ctx)@ == old(ctx)@,
{
}

/// Asks the platform to make a gamepad vibrate for `duration` milliseconds.
/// The strength is given by its bits. Nothing in the engine's state changes.
pub fn start_gamepad_vibration(ctx: &mut Context, platform_id: i32, strength: u32, duration: u32)
    ensures
        final(ctx)@ == old(ctx)@,
{
}

/// Asks the platform to stop a gamepad's vibration. Nothing in the engine's
/// state changes.
pub fn stop_gamepad_vibration(ctx: &mut Context, platform_id: i32)
    ensures
        final(ctx)@ == old(ctx)@,
{
}


/// Drains the queue: applies every captured event to the input state, the
/// oldest first, and leaves the queue empty. Never fails.
pub fn handle_events(ctx: &mut Context) -> (result: Result<(), TetraError>)
    ensures
        result is Ok,
        final(ctx)@ == (ContextView {
            input: old(ctx)@.input.apply_events(old(ctx)@.events),
            events: Seq::empty(),
        }),
{
    loop
        invariant
            ctx@.input.apply_events(ctx@.events) == old(ctx)@.input.apply_events(old(ctx)@.events),
        ensures
            ctx@.events == Seq::<Event>::empty(),
            ctx@.input == old(ctx)@.input.apply_events(old(ctx)@.events),
        decreases ctx@.events.len(),
    {
        match ctx.platform.event_queue.pop_front() {
            Some(event) => apply_event(ctx, event),
            None => {
                assert(ctx@.events =~= Seq::<Event>::empty());
                break ;
            },
        }
    }

    Ok(())
}

} // verus!
