//! Keyboard vocabulary and the buffered state of the keyboard.

use vstd::prelude::*;

use crate::collections::{
    set_clone, set_contains, set_contents, set_insert, set_new, set_remove, CodeSet,
};
use crate::input::InputView;
use crate::{Context, ContextView};

verus! {

/// A key on a keyboard.
#[derive(Debug, Copy, Clone, PartialEq, Eq, Hash, Structural)]
#[allow(missing_docs)]
pub enum Key {
    A,
    B,
    C,
    D,
    E,
    F,
    G,
    H,
    I,
    J,
    K,
    L,
    M,
    N,
    O,
    P,
    Q,
    R,
    S,
    T,
    U,
    V,
    W,
    X,
    Y,
    Z,
    Num0,
    Num1,
    Num2,
    Num3,
    Num4,
    Num5,
    Num6,
    Num7,
    Num8,
    Num9,
    F1,
    F2,
    F3,
    F4,
    F5,
    F6,
    F7,
    F8,
    F9,
    F10,
    F11,
    F12,
    F13,
    F14,
    F15,
    F16,
    F17,
    F18,
    F19,
    F20,
    F21,
    F22,
    F23,
    F24,
    NumLock,
    NumPad1,
    NumPad2,
    NumPad3,
    NumPad4,
    NumPad5,
    NumPad6,
    NumPad7,
    NumPad8,
    NumPad9,
    NumPad0,
    NumPadPlus,
    NumPadMinus,
    NumPadMultiply,
    NumPadDivide,
    NumPadEnter,
    LeftCtrl,
    LeftShift,
    LeftAlt,
    RightCtrl,
    RightShift,
    RightAlt,
    Up,
    Down,
    Left,
    Right,
    Ampersand,
    Asterisk,
    At,
    Backquote,
    Backslash,
    Backspace,
    CapsLock,
    Caret,
    Colon,
    Comma,
    Delete,
    Dollar,
    DoubleQuote,
    End,
    Enter,
    Equals,
    Escape,
    Exclaim,
    GreaterThan,
    Hash,
    Home,
    Insert,
    LeftBracket,
    LeftParen,
    LessThan,
    Minus,
    PageDown,
    PageUp,
    Pause,
    Percent,
    Period,
    Plus,
    PrintScreen,
    Question,
    Quote,
    RightBracket,
    RightParen,
    ScrollLock,
    Semicolon,
    Slash,
    Space,
    Tab,
    Underscore,
}

impl Key {
    /// The code under which the key is stored in a [`CodeSet`].
    pub open spec fn spec_code(self) -> u8 {
        match self {
            Key::A => 0,
            Key::B => 1,
            Key::C => 2,
            Key::D => 3,
            Key::E => 4,
            Key::F => 5,
            Key::G => 6,
            Key::H => 7,
            Key::I => 8,
            Key::J => 9,
            Key::K => 10,
            Key::L => 11,
            Key::M => 12,
            Key::N => 13,
            Key::O => 14,
            Key::P => 15,
            Key::Q => 16,
            Key::R => 17,
            Key::S => 18,
            Key::T => 19,
            Key::U => 20,
            Key::V => 21,
            Key::W => 22,
            Key::X => 23,
            Key::Y => 24,
            Key::Z => 25,
            Key::Num0 => 26,
            Key::Num1 => 27,
            Key::Num2 => 28,
            Key::Num3 => 29,
            Key::Num4 => 30,
            Key::Num5 => 31,
            Key::Num6 => 32,
            Key::Num7 => 33,
            Key::Num8 => 34,
            Key::Num9 => 35,
            Key::F1 => 36,
            Key::F2 => 37,
            Key::F3 => 38,
            Key::F4 => 39,
            Key::F5 => 40,
            Key::F6 => 41,
            Key::F7 => 42,
            Key::F8 => 43,
            Key::F9 => 44,
            Key::F10 => 45,
            Key::F11 => 46,
            Key::F12 => 47,
            Key::F13 => 48,
            Key::F14 => 49,
            Key::F15 => 50,
            Key::F16 => 51,
            Key::F17 => 52,
            Key::F18 => 53,
            Key::F19 => 54,
            Key::F20 => 55,
            Key::F21 => 56,
            Key::F22 => 57,
            Key::F23 => 58,
            Key::F24 => 59,
            Key::NumLock => 60,
            Key::NumPad1 => 61,
            Key::NumPad2 => 62,
            Key::NumPad3 => 63,
            Key::NumPad4 => 64,
            Key::NumPad5 => 65,
            Key::NumPad6 => 66,
            Key::NumPad7 => 67,
            Key::NumPad8 => 68,
            Key::NumPad9 => 69,
            Key::NumPad0 => 70,
            Key::NumPadPlus => 71,
            Key::NumPadMinus => 72,
            Key::NumPadMultiply => 73,
            Key::NumPadDivide => 74,
            Key::NumPadEnter => 75,
            Key::LeftCtrl => 76,
            Key::LeftShift => 77,
            Key::LeftAlt => 78,
            Key::RightCtrl => 79,
            Key::RightShift => 80,
            Key::RightAlt => 81,
            Key::Up => 82,
            Key::Down => 83,
            Key::Left => 84,
            Key::Right => 85,
            Key::Ampersand => 86,
            Key::Asterisk => 87,
            Key::At => 88,
            Key::Backquote => 89,
            Key::Backslash => 90,
            Key::Backspace => 91,
            Key::CapsLock => 92,
            Key::Caret => 93,
            Key::Colon => 94,
            Key::Comma => 95,
            Key::Delete => 96,
            Key::Dollar => 97,
            Key::DoubleQuote => 98,
            Key::End => 99,
            Key::Enter => 100,
            Key::Equals => 101,
            Key::Escape => 102,
            Key::Exclaim => 103,
            Key::GreaterThan => 104,
            Key::Hash => 105,
            Key::Home => 106,
            Key::Insert => 107,
            Key::LeftBracket => 108,
            Key::LeftParen => 109,
            Key::LessThan => 110,
            Key::Minus => 111,
            Key::PageDown => 112,
            Key::PageUp => 113,
            Key::Pause => 114,
            Key::Percent => 115,
            Key::Period => 116,
            Key::Plus => 117,
            Key::PrintScreen => 118,
            Key::Question => 119,
            Key::Quote => 120,
            Key::RightBracket => 121,
            Key::RightParen => 122,
            Key::ScrollLock => 123,
            Key::Semicolon => 124,
            Key::Slash => 125,
            Key::Space => 126,
            Key::Tab => 127,
            Key::Underscore => 128,
        }
    }

    /// The code under which the key is stored.
    #[verifier::when_used_as_spec(spec_code)]
    pub fn code(self) -> (code: u8)
        ensures
            code == self.spec_code(),
    {
        match self {
            Key::A => 0,
            Key::B => 1,
            Key::C => 2,
            Key::D => 3,
            Key::E => 4,
            Key::F => 5,
            Key::G => 6,
            Key::H => 7,
            Key::I => 8,
            Key::J => 9,
            Key::K => 10,
            Key::L => 11,
            Key::M => 12,
            Key::N => 13,
            Key::O => 14,
            Key::P => 15,
            Key::Q => 16,
            Key::R => 17,
            Key::S => 18,
            Key::T => 19,
            Key::U => 20,
            Key::V => 21,
            Key::W => 22,
            Key::X => 23,
            Key::Y => 24,
            Key::Z => 25,
            Key::Num0 => 26,
            Key::Num1 => 27,
            Key::Num2 => 28,
            Key::Num3 => 29,
            Key::Num4 => 30,
            Key::Num5 => 31,
            Key::Num6 => 32,
            Key::Num7 => 33,
            Key::Num8 => 34,
            Key::Num9 => 35,
            Key::F1 => 36,
            Key::F2 => 37,
            Key::F3 => 38,
            Key::F4 => 39,
            Key::F5 => 40,
            Key::F6 => 41,
            Key::F7 => 42,
            Key::F8 => 43,
            Key::F9 => 44,
            Key::F10 => 45,
            Key::F11 => 46,
            Key::F12 => 47,
            Key::F13 => 48,
            Key::F14 => 49,
            Key::F15 => 50,
            Key::F16 => 51,
            Key::F17 => 52,
            Key::F18 => 53,
            Key::F19 => 54,
            Key::F20 => 55,
            Key::F21 => 56,
            Key::F22 => 57,
            Key::F23 => 58,
            Key::F24 => 59,
            Key::NumLock => 60,
            Key::NumPad1 => 61,
            Key::NumPad2 => 62,
            Key::NumPad3 => 63,
            Key::NumPad4 => 64,
            Key::NumPad5 => 65,
            Key::NumPad6 => 66,
            Key::NumPad7 => 67,
            Key::NumPad8 => 68,
            Key::NumPad9 => 69,
            Key::NumPad0 => 70,
            Key::NumPadPlus => 71,
            Key::NumPadMinus => 72,
            Key::NumPadMultiply => 73,
            Key::NumPadDivide => 74,
            Key::NumPadEnter => 75,
            Key::LeftCtrl => 76,
            Key::LeftShift => 77,
            Key::LeftAlt => 78,
            Key::RightCtrl => 79,
            Key::RightShift => 80,
            Key::RightAlt => 81,
            Key::Up => 82,
            Key::Down => 83,
            Key::Left => 84,
            Key::Right => 85,
            Key::Ampersand => 86,
            Key::Asterisk => 87,
            Key::At => 88,
            Key::Backquote => 89,
            Key::Backslash => 90,
            Key::Backspace => 91,
            Key::CapsLock => 92,
            Key::Caret => 93,
            Key::Colon => 94,
            Key::Comma => 95,
            Key::Delete => 96,
            Key::Dollar => 97,
            Key::DoubleQuote => 98,
            Key::End => 99,
            Key::Enter => 100,
            Key::Equals => 101,
            Key::Escape => 102,
            Key::Exclaim => 103,
            Key::GreaterThan => 104,
            Key::Hash => 105,
            Key::Home => 106,
            Key::Insert => 107,
            Key::LeftBracket => 108,
            Key::LeftParen => 109,
            Key::LessThan => 110,
            Key::Minus => 111,
            Key::PageDown => 112,
            Key::PageUp => 113,
            Key::Pause => 114,
            Key::Percent => 115,
            Key::Period => 116,
            Key::Plus => 117,
            Key::PrintScreen => 118,
            Key::Question => 119,
            Key::Quote => 120,
            Key::RightBracket => 121,
            Key::RightParen => 122,
            Key::ScrollLock => 123,
            Key::Semicolon => 124,
            Key::Slash => 125,
            Key::Space => 126,
            Key::Tab => 127,
            Key::Underscore => 128,
        }
    }

    /// Two keys with the same code are the same key.
    pub proof fn lemma_code_injective()
        ensures
            forall|a: Key, b: Key| #[trigger] a.spec_code() == #[trigger] b.spec_code() ==> a == b,
    {
    }
}


/// What the state of the keyboard means.
#[verifier::ext_equal]
pub struct KeyboardView {
    /// The keys that are down right now.
    pub current_keys: Set<Key>,
    /// The keys that were down when the current frame began.
    pub previous_keys: Set<Key>,
}

impl KeyboardView {
    /// The state of a keyboard on which nothing has been typed.
    pub open spec fn idle() -> KeyboardView {
        KeyboardView { current_keys: Set::empty(), previous_keys: Set::empty() }
    }

    /// The key went down.
    pub open spec fn set_key_down(self, key: Key) -> KeyboardView {
        KeyboardView { current_keys: self.current_keys.insert(key), ..self }
    }

    /// The key went up.
    pub open spec fn set_key_up(self, key: Key) -> KeyboardView {
        KeyboardView { current_keys: self.current_keys.remove(key), ..self }
    }

    /// A frame begins: what is down now is what the new frame compares with.
    pub open spec fn begin_frame(self) -> KeyboardView {
        KeyboardView { previous_keys: self.current_keys, ..self }
    }

    /// The key is down.
    pub open spec fn is_key_down(self, key: Key) -> bool {
        self.current_keys.contains(key)
    }

    /// The key went down during this frame.
    pub open spec fn is_key_pressed(self, key: Key) -> bool {
        self.current_keys.contains(key) && !self.previous_keys.contains(key)
    }

    /// The key went up during this frame.
    pub open spec fn is_key_released(self, key: Key) -> bool {
        self.previous_keys.contains(key) && !self.current_keys.contains(key)
    }
}

/// The keys whose codes are among `codes`.
spec fn keys_of(codes: Set<u8>) -> Set<Key> {
    Set::new(|key: Key| codes.contains(key.spec_code()))
}

/// The buffered state of the keyboard.
pub struct KeyboardState {
    pub(crate) current_key_state: CodeSet,
    pub(crate) previous_key_state: CodeSet,
}

impl View for KeyboardState {
    type V = KeyboardView;

    closed spec fn view(&self) -> KeyboardView {
        KeyboardView {
            current_keys: keys_of(set_contents(self.current_key_state)),
            previous_keys: keys_of(set_contents(self.previous_key_state)),
        }
    }
}

proof fn lemma_keys_of_empty()
    ensures
        keys_of(Set::empty()) == Set::<Key>::empty(),
{
    assert(keys_of(Set::empty()) =~= Set::<Key>::empty());
}

proof fn lemma_keys_of_insert(codes: Set<u8>, key: Key)
    ensures
        keys_of(codes.insert(key.spec_code())) == keys_of(codes).insert(key),
{
    Key::lemma_code_injective();
    assert(keys_of(codes.insert(key.spec_code())) =~= keys_of(codes).insert(key));
}

proof fn lemma_keys_of_remove(codes: Set<u8>, key: Key)
    ensures
        keys_of(codes.remove(key.spec_code())) == keys_of(codes).remove(key),
{
    Key::lemma_code_injective();
    assert(keys_of(codes.remove(key.spec_code())) =~= keys_of(codes).remove(key));
}

impl KeyboardState {
    /// The state of a keyboard on which nothing has been typed.
    pub fn new() -> (state: KeyboardState)
        ensures
            state@ == KeyboardView::idle(),
    {
        proof {
            lemma_keys_of_empty();
        }
        KeyboardState { current_key_state: set_new(), previous_key_state: set_new() }
    }

    /// Records that `key` is down. A key that is already down stays down.
    pub fn set_key_down(&mut self, key: Key)
        ensures
            final(self)@ == old(self)@.set_key_down(key),
    {
        proof {
            lemma_keys_of_insert(set_contents(self.current_key_state), key);
        }
        set_insert(&mut self.current_key_state, key.code());
    }

    /// Records that `key` is up. A key that is already up stays up.
    pub fn set_key_up(&mut self, key: Key)
        ensures
            final(self)@ == old(self)@.set_key_up(key),
    {
        proof {
            lemma_keys_of_remove(set_contents(self.current_key_state), key);
        }
        set_remove(&mut self.current_key_state, key.code());
    }

    /// Begins a frame: the keys that are down now become the keys that the
    /// new frame's presses and releases are measured against.
    pub fn begin_frame(&mut self)
        ensures
            final(self)@ == old(self)@.begin_frame(),
    {
        self.previous_key_state = set_clone(&self.current_key_state);
    }
}

/// Records that `key` is down.
pub fn set_key_down(ctx: &mut Context, key: Key)
    ensures
        final(ctx)@ == (ContextView {
            input: InputView {
                keyboard: old(ctx)@.input.keyboard.set_key_down(key),
                ..old(ctx)@.input
            },
            ..old(ctx)@
        }),
{
    ctx.input.keyboard.set_key_down(key);
}

/// Records that `key` is up.
pub fn set_key_up(ctx: &mut Context, key: Key)
    ensures
        final(ctx)@ == (ContextView {
            input: InputView {
                keyboard: old(ctx)@.input.keyboard.set_key_up(key),
                ..old(ctx)@.input
            },
            ..old(ctx)@
        }),
{
    ctx.input.keyboard.set_key_up(key);
}

/// Returns true if the specified key is currently down.
pub fn is_key_down(ctx: &Context, key: Key) -> (down: bool)
    ensures
        down == ctx@.input.keyboard.is_key_down(key),
{
    set_contains(&ctx.input.keyboard.current_key_state, key.code())
}

/// Returns true if the specified key is currently up.
pub fn is_key_up(ctx: &Context, key: Key) -> (up: bool)
    ensures
        up == !ctx@.input.keyboard.is_key_down(key),
{
    !set_contains(&ctx.input.keyboard.current_key_state, key.code())
}

/// Returns true if the specified key was pressed this tick.
pub fn is_key_pressed(ctx: &Context, key: Key) -> (pressed: bool)
    ensures
        pressed == ctx@.input.keyboard.is_key_pressed(key),
{
    !set_contains(&ctx.input.keyboard.previous_key_state, key.code()) && set_contains(
        &ctx.input.keyboard.current_key_state,
        key.code(),
    )
}

/// Returns true if the specified key was released this tick.
pub fn is_key_released(ctx: &Context, key: Key) -> (released: bool)
    ensures
        released == ctx@.input.keyboard.is_key_released(key),
{
    set_contains(&ctx.input.keyboard.previous_key_state, key.code()) && !set_contains(
        &ctx.input.keyboard.current_key_state,
        key.code(),
    )
}

} // verus!
