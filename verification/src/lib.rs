//! Buffered, per-frame input state for a game loop.
//!
//! Input arrives as events at any time and is queued by the platform layer.
//! Once per frame the queue is drained into the input state, which the game
//! then reads: which keys and buttons are down, which went down or up during
//! the frame, and where the axes of each gamepad stand.

use vstd::prelude::*;

pub mod collections;
pub mod error;
pub mod input;
pub mod platform;

use crate::error::TetraError;
use crate::input::{begin_frame, InputContext, InputView};
use crate::platform::{handle_events, Event, Platform};

verus! {

/// What the engine's state means.
#[verifier::ext_equal]
pub struct ContextView {
    /// The input state.
    pub input: InputView,
    /// The events that were captured and not yet applied, oldest first.
    pub events: Seq<Event>,
}

impl ContextView {
    /// The state of a new engine.
    pub open spec fn initial() -> ContextView {
        ContextView { input: InputView::initial(), events: Seq::empty() }
    }

    /// One frame goes by: the frame begins, then every waiting event is
    /// applied, the oldest first, and the queue is left empty.
    pub open spec fn next_frame(self) -> ContextView {
        ContextView {
            input: self.input.begin_frame().apply_events(self.events),
            events: Seq::empty(),
        }
    }
}

/// The state of the engine.
pub struct Context {
    /// The input state.
    pub input: InputContext,
    /// The platform's side.
    pub platform: Platform,
}

impl View for Context {
    type V = ContextView;

    open spec fn view(&self) -> ContextView {
        ContextView { input: self.input@, events: self.platform@ }
    }
}

impl Context {
    /// A new engine: nothing is down, no gamepad is connected and no event
    /// waits.
    pub fn new() -> (ctx: Context)
        ensures
            ctx@ == ContextView::initial(),
    {
        let (platform, _, _) = Platform::new();
        Context { input: InputContext::new(), platform }
    }
}

/// Takes the input state from one frame to the next: begins the frame, and
/// only then applies the events that were captured since the last call. What
/// the game reads afterwards stays as it is until the next call. Never fails.
pub fn next_frame(ctx: &mut Context) -> (result: Result<(), TetraError>)
    ensures
        result is Ok,
        final(ctx)@ == old(ctx)@.next_frame(),
{
    begin_frame(ctx);
    handle_events(ctx)
}

} // verus!
