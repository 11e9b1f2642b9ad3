use tetra::input::gamepad::{
    add_gamepad, get_gamepad, get_gamepad_axis_position, get_gamepad_buttons_down,
    get_gamepad_buttons_pressed, get_gamepad_buttons_released, get_gamepad_mut,
    get_gamepad_name, get_gamepad_platform_id, get_gamepad_stick_position,
    is_gamepad_button_down,
    is_gamepad_button_pressed, is_gamepad_button_released, is_gamepad_button_up,
    is_gamepad_connected, is_gamepad_vibration_supported, remove_gamepad,
    set_gamepad_vibration, start_gamepad_vibration, stop_gamepad_vibration, GamepadAxis,
    GamepadButton, GamepadState, GamepadStick,
};
use tetra::input::begin_frame;
use tetra::platform::{handle_events, Event, VibrationRequest};
use tetra::Context;

const ALL_BUTTONS: [GamepadButton; 17] = [
    GamepadButton::A,
    GamepadButton::B,
    GamepadButton::X,
    GamepadButton::Y,
    GamepadButton::Up,
    GamepadButton::Down,
    GamepadButton::Left,
    GamepadButton::Right,
    GamepadButton::LeftShoulder,
    GamepadButton::LeftTrigger,
    GamepadButton::LeftStick,
    GamepadButton::RightShoulder,
    GamepadButton::RightTrigger,
    GamepadButton::RightStick,
    GamepadButton::Start,
    GamepadButton::Back,
    GamepadButton::Guide,
];

const ALL_AXES: [GamepadAxis; 6] = [
    GamepadAxis::LeftStickX,
    GamepadAxis::LeftStickY,
    GamepadAxis::LeftTrigger,
    GamepadAxis::RightStickX,
    GamepadAxis::RightStickY,
    GamepadAxis::RightTrigger,
];

fn sorted(mut buttons: Vec<GamepadButton>) -> Vec<u8> {
    let mut codes: Vec<u8> = buttons.drain(..).map(|b| b.code()).collect();
    codes.sort();
    codes
}

fn press(ctx: &mut Context, index: usize, button: GamepadButton) {
    get_gamepad_mut(ctx, index).unwrap().set_button_down(button);
}

fn release(ctx: &mut Context, index: usize, button: GamepadButton) {
    get_gamepad_mut(ctx, index).unwrap().set_button_up(button);
}

#[test]
fn button_codes_are_distinct_and_found_again() {
    for (i, button) in ALL_BUTTONS.iter().enumerate() {
        assert_eq!(button.code() as usize, i);
        assert_eq!(GamepadButton::from_code(button.code()), Some(*button));
    }
    assert_eq!(GamepadButton::from_code(17), None);
    assert_eq!(GamepadButton::from_code(255), None);
}

#[test]
fn axis_codes_are_distinct() {
    for (i, axis) in ALL_AXES.iter().enumerate() {
        assert_eq!(axis.code() as usize, i);
    }
}

#[test]
fn first_gamepad_gets_slot_zero() {
    let mut ctx = Context::new();
    assert!(!is_gamepad_connected(&ctx, 0));
    assert_eq!(add_gamepad(&mut ctx, 42), 0);
    assert!(is_gamepad_connected(&ctx, 0));
    assert!(!is_gamepad_connected(&ctx, 1));
}

#[test]
fn press_is_seen_for_one_frame() {
    let mut ctx = Context::new();
    assert_eq!(add_gamepad(&mut ctx, 42), 0);

    // Frame 1: nothing was down; the button goes down.
    begin_frame(&mut ctx);
    ctx.platform.push_event(Event::GamepadButtonDown { gamepad_index: 0, button: GamepadButton::A });
    assert!(handle_events(&mut ctx).is_ok());
    assert!(is_gamepad_button_down(&ctx, 0, GamepadButton::A));
    assert!(is_gamepad_button_pressed(&ctx, 0, GamepadButton::A));
    assert!(!is_gamepad_button_released(&ctx, 0, GamepadButton::A));

    // Frame 2: no new events.
    begin_frame(&mut ctx);
    assert!(handle_events(&mut ctx).is_ok());
    assert!(is_gamepad_button_down(&ctx, 0, GamepadButton::A));
    assert!(!is_gamepad_button_pressed(&ctx, 0, GamepadButton::A));
    assert!(!is_gamepad_button_released(&ctx, 0, GamepadButton::A));

    // Frame 3: the button goes up.
    begin_frame(&mut ctx);
    ctx.platform.push_event(Event::GamepadButtonUp { gamepad_index: 0, button: GamepadButton::A });
    assert!(handle_events(&mut ctx).is_ok());
    assert!(!is_gamepad_button_down(&ctx, 0, GamepadButton::A));
    assert!(is_gamepad_button_up(&ctx, 0, GamepadButton::A));
    assert!(!is_gamepad_button_pressed(&ctx, 0, GamepadButton::A));
    assert!(is_gamepad_button_released(&ctx, 0, GamepadButton::A));

    // Frame 4: nothing.
    begin_frame(&mut ctx);
    assert!(!is_gamepad_button_released(&ctx, 0, GamepadButton::A));
    assert!(is_gamepad_button_up(&ctx, 0, GamepadButton::A));
}

#[test]
fn button_up_without_down_changes_nothing() {
    let mut ctx = Context::new();
    add_gamepad(&mut ctx, 1);
    release(&mut ctx, 0, GamepadButton::A);
    assert!(!is_gamepad_button_down(&ctx, 0, GamepadButton::A));
    assert!(is_gamepad_button_up(&ctx, 0, GamepadButton::A));
    assert!(!is_gamepad_button_released(&ctx, 0, GamepadButton::A));
    assert!(!is_gamepad_button_pressed(&ctx, 0, GamepadButton::A));
    assert!(get_gamepad_buttons_down(&ctx, 0).is_empty());
    assert!(get_gamepad_buttons_released(&ctx, 0).is_empty());
}

#[test]
fn button_down_twice_is_down_once() {
    let mut ctx = Context::new();
    add_gamepad(&mut ctx, 1);
    press(&mut ctx, 0, GamepadButton::X);
    press(&mut ctx, 0, GamepadButton::X);
    assert_eq!(get_gamepad_buttons_down(&ctx, 0), vec![GamepadButton::X]);
    release(&mut ctx, 0, GamepadButton::X);
    assert!(is_gamepad_button_up(&ctx, 0, GamepadButton::X));
    assert!(get_gamepad_buttons_down(&ctx, 0).is_empty());
}

#[test]
fn freed_slot_is_reused_with_a_fresh_state() {
    let mut ctx = Context::new();
    assert_eq!(add_gamepad(&mut ctx, 10), 0);
    assert_eq!(add_gamepad(&mut ctx, 11), 1);
    press(&mut ctx, 0, GamepadButton::A);
    press(&mut ctx, 0, GamepadButton::B);
    get_gamepad_mut(&mut ctx, 0).unwrap().set_axis_position(GamepadAxis::LeftStickX, 7);
    begin_frame(&mut ctx);
    release(&mut ctx, 0, GamepadButton::B);

    remove_gamepad(&mut ctx, 0);
    assert!(!is_gamepad_connected(&ctx, 0));
    assert!(is_gamepad_connected(&ctx, 1));

    assert_eq!(add_gamepad(&mut ctx, 99), 0);
    assert!(is_gamepad_connected(&ctx, 0));
    assert_eq!(get_gamepad(&ctx, 0).map(|_| ()), Some(()));
    for button in ALL_BUTTONS.iter() {
        assert!(!is_gamepad_button_down(&ctx, 0, *button));
        assert!(is_gamepad_button_up(&ctx, 0, *button));
        assert!(!is_gamepad_button_pressed(&ctx, 0, *button));
        assert!(!is_gamepad_button_released(&ctx, 0, *button));
    }
    assert!(get_gamepad_buttons_down(&ctx, 0).is_empty());
    assert!(get_gamepad_buttons_pressed(&ctx, 0).is_empty());
    assert!(get_gamepad_buttons_released(&ctx, 0).is_empty());
    assert_eq!(get_gamepad_axis_position(&ctx, 0, GamepadAxis::LeftStickX), 0);
}

#[test]
fn lowest_free_slot_is_taken_first() {
    let mut ctx = Context::new();
    assert_eq!(add_gamepad(&mut ctx, 0), 0);
    assert_eq!(add_gamepad(&mut ctx, 1), 1);
    assert_eq!(add_gamepad(&mut ctx, 2), 2);
    assert_eq!(add_gamepad(&mut ctx, 3), 3);
    remove_gamepad(&mut ctx, 2);
    remove_gamepad(&mut ctx, 1);
    assert_eq!(add_gamepad(&mut ctx, 4), 1);
    assert_eq!(add_gamepad(&mut ctx, 5), 2);
    assert_eq!(add_gamepad(&mut ctx, 6), 4);
}

#[test]
fn occupied_slots_are_the_connected_gamepads() {
    let mut ctx = Context::new();
    let connected = |ctx: &Context| -> Vec<usize> {
        (0..8).filter(|i| is_gamepad_connected(ctx, *i)).collect()
    };
    assert_eq!(connected(&ctx), Vec::<usize>::new());
    add_gamepad(&mut ctx, 0);
    add_gamepad(&mut ctx, 1);
    add_gamepad(&mut ctx, 2);
    assert_eq!(connected(&ctx), vec![0, 1, 2]);
    remove_gamepad(&mut ctx, 1);
    assert_eq!(connected(&ctx), vec![0, 2]);
    remove_gamepad(&mut ctx, 1);
    assert_eq!(connected(&ctx), vec![0, 2]);
    remove_gamepad(&mut ctx, 2);
    assert_eq!(connected(&ctx), vec![0]);
    assert_eq!(add_gamepad(&mut ctx, 3), 1);
    assert_eq!(connected(&ctx), vec![0, 1]);
    begin_frame(&mut ctx);
    assert_eq!(connected(&ctx), vec![0, 1]);
}

#[test]
fn removing_keeps_the_other_gamepads_in_their_slots() {
    let mut ctx = Context::new();
    add_gamepad(&mut ctx, 0);
    add_gamepad(&mut ctx, 1);
    press(&mut ctx, 1, GamepadButton::Start);
    remove_gamepad(&mut ctx, 0);
    assert!(is_gamepad_button_down(&ctx, 1, GamepadButton::Start));
    assert!(!is_gamepad_button_down(&ctx, 0, GamepadButton::Start));
}

#[test]
fn removing_an_empty_or_unknown_slot_does_nothing() {
    let mut ctx = Context::new();
    remove_gamepad(&mut ctx, 0);
    remove_gamepad(&mut ctx, 1000);
    assert_eq!(add_gamepad(&mut ctx, 5), 0);
    remove_gamepad(&mut ctx, 1);
    remove_gamepad(&mut ctx, usize::MAX);
    assert!(is_gamepad_connected(&ctx, 0));
    remove_gamepad(&mut ctx, 0);
    remove_gamepad(&mut ctx, 0);
    assert!(!is_gamepad_connected(&ctx, 0));
    assert_eq!(add_gamepad(&mut ctx, 6), 0);
}

#[test]
fn disconnected_gamepad_gives_neutral_answers() {
    let mut ctx = Context::new();
    add_gamepad(&mut ctx, 3);
    press(&mut ctx, 0, GamepadButton::A);
    get_gamepad_mut(&mut ctx, 0).unwrap().set_axis_position(GamepadAxis::LeftStickX, 1.0f32.to_bits());
    begin_frame(&mut ctx);
    release(&mut ctx, 0, GamepadButton::A);
    press(&mut ctx, 0, GamepadButton::B);
    remove_gamepad(&mut ctx, 0);

    for index in [0usize, 1, 17, usize::MAX] {
        assert!(!is_gamepad_connected(&ctx, index));
        assert!(get_gamepad(&ctx, index).is_none());
        assert!(get_gamepad_mut(&mut ctx, index).is_none());
        assert_eq!(get_gamepad_name(&ctx, index), None);
        for button in ALL_BUTTONS.iter() {
            assert!(!is_gamepad_button_down(&ctx, index, *button));
            assert!(is_gamepad_button_up(&ctx, index, *button));
            assert!(!is_gamepad_button_pressed(&ctx, index, *button));
            assert!(!is_gamepad_button_released(&ctx, index, *button));
        }
        assert_eq!(get_gamepad_buttons_down(&ctx, index).len(), 0);
        assert_eq!(get_gamepad_buttons_pressed(&ctx, index).len(), 0);
        assert_eq!(get_gamepad_buttons_released(&ctx, index).len(), 0);
        for axis in ALL_AXES.iter() {
            assert_eq!(get_gamepad_axis_position(&ctx, index, *axis), 0);
            assert_eq!(f32::from_bits(get_gamepad_axis_position(&ctx, index, *axis)), 0.0);
        }
        assert_eq!(get_gamepad_stick_position(&ctx, index, GamepadStick::LeftStick), (0, 0));
        assert_eq!(get_gamepad_stick_position(&ctx, index, GamepadStick::RightStick), (0, 0));
        assert!(!is_gamepad_vibration_supported(&ctx, index));
        assert_eq!(set_gamepad_vibration(&mut ctx, index, 1.0f32.to_bits()), None);
        assert_eq!(start_gamepad_vibration(&mut ctx, index, 0.5f32.to_bits(), 100), None);
        assert_eq!(stop_gamepad_vibration(&mut ctx, index), None);
    }
}

#[test]
fn down_is_the_opposite_of_up() {
    let mut ctx = Context::new();
    add_gamepad(&mut ctx, 0);
    press(&mut ctx, 0, GamepadButton::Y);
    press(&mut ctx, 0, GamepadButton::Guide);
    for index in 0..3 {
        for button in ALL_BUTTONS.iter() {
            assert_eq!(
                is_gamepad_button_down(&ctx, index, *button),
                !is_gamepad_button_up(&ctx, index, *button)
            );
        }
    }
    assert!(is_gamepad_button_down(&ctx, 0, GamepadButton::Y));
    assert!(is_gamepad_button_up(&ctx, 0, GamepadButton::A));
}

#[test]
fn pressed_and_released_never_hold_together() {
    let mut ctx = Context::new();
    add_gamepad(&mut ctx, 0);
    press(&mut ctx, 0, GamepadButton::A);
    press(&mut ctx, 0, GamepadButton::B);
    begin_frame(&mut ctx);
    release(&mut ctx, 0, GamepadButton::A);
    press(&mut ctx, 0, GamepadButton::X);
    // A: released, B: held, X: pressed, the rest: up.
    for button in ALL_BUTTONS.iter() {
        let pressed = is_gamepad_button_pressed(&ctx, 0, *button);
        let released = is_gamepad_button_released(&ctx, 0, *button);
        assert!(!(pressed && released));
        if pressed {
            assert!(is_gamepad_button_down(&ctx, 0, *button));
        }
        if released {
            assert!(is_gamepad_button_up(&ctx, 0, *button));
        }
    }
    assert!(is_gamepad_button_released(&ctx, 0, GamepadButton::A));
    assert!(!is_gamepad_button_pressed(&ctx, 0, GamepadButton::B));
    assert!(!is_gamepad_button_released(&ctx, 0, GamepadButton::B));
    assert!(is_gamepad_button_down(&ctx, 0, GamepadButton::B));
    assert!(is_gamepad_button_pressed(&ctx, 0, GamepadButton::X));
}

#[test]
fn press_and_release_within_one_frame_leaves_no_edge() {
    let mut ctx = Context::new();
    add_gamepad(&mut ctx, 0);
    begin_frame(&mut ctx);
    press(&mut ctx, 0, GamepadButton::A);
    release(&mut ctx, 0, GamepadButton::A);
    assert!(!is_gamepad_button_pressed(&ctx, 0, GamepadButton::A));
    assert!(!is_gamepad_button_released(&ctx, 0, GamepadButton::A));
    assert!(is_gamepad_button_up(&ctx, 0, GamepadButton::A));
}

#[test]
fn button_lists_are_the_set_differences() {
    let mut ctx = Context::new();
    add_gamepad(&mut ctx, 0);
    press(&mut ctx, 0, GamepadButton::A);
    press(&mut ctx, 0, GamepadButton::B);
    press(&mut ctx, 0, GamepadButton::Start);
    begin_frame(&mut ctx);
    // previous = {A, B, Start}
    release(&mut ctx, 0, GamepadButton::A);
    release(&mut ctx, 0, GamepadButton::Start);
    press(&mut ctx, 0, GamepadButton::X);
    press(&mut ctx, 0, GamepadButton::Guide);
    // current = {B, X, Guide}
    assert_eq!(
        sorted(get_gamepad_buttons_down(&ctx, 0)),
        sorted(vec![GamepadButton::B, GamepadButton::X, GamepadButton::Guide])
    );
    assert_eq!(
        sorted(get_gamepad_buttons_pressed(&ctx, 0)),
        sorted(vec![GamepadButton::X, GamepadButton::Guide])
    );
    assert_eq!(
        sorted(get_gamepad_buttons_released(&ctx, 0)),
        sorted(vec![GamepadButton::A, GamepadButton::Start])
    );
    for button in ALL_BUTTONS.iter() {
        assert_eq!(
            get_gamepad_buttons_pressed(&ctx, 0).contains(button),
            is_gamepad_button_pressed(&ctx, 0, *button)
        );
        assert_eq!(
            get_gamepad_buttons_released(&ctx, 0).contains(button),
            is_gamepad_button_released(&ctx, 0, *button)
        );
        assert_eq!(
            get_gamepad_buttons_down(&ctx, 0).contains(button),
            is_gamepad_button_down(&ctx, 0, *button)
        );
    }
}

#[test]
fn all_buttons_down_are_listed_once() {
    let mut ctx = Context::new();
    add_gamepad(&mut ctx, 0);
    for button in ALL_BUTTONS.iter() {
        press(&mut ctx, 0, *button);
    }
    let codes = sorted(get_gamepad_buttons_down(&ctx, 0));
    assert_eq!(codes, (0u8..17).collect::<Vec<u8>>());
    assert_eq!(sorted(get_gamepad_buttons_pressed(&ctx, 0)), (0u8..17).collect::<Vec<u8>>());
    begin_frame(&mut ctx);
    assert!(get_gamepad_buttons_pressed(&ctx, 0).is_empty());
    assert!(get_gamepad_buttons_released(&ctx, 0).is_empty());
    assert_eq!(get_gamepad_buttons_down(&ctx, 0).len(), 17);
}

#[test]
fn axis_position_is_the_last_one_reported() {
    let mut ctx = Context::new();
    add_gamepad(&mut ctx, 0);
    assert_eq!(get_gamepad_axis_position(&ctx, 0, GamepadAxis::LeftTrigger), 0);
    let pad = get_gamepad_mut(&mut ctx, 0).unwrap();
    pad.set_axis_position(GamepadAxis::LeftTrigger, 0.25f32.to_bits());
    pad.set_axis_position(GamepadAxis::LeftTrigger, (-0.75f32).to_bits());
    pad.set_axis_position(GamepadAxis::RightTrigger, 1.0f32.to_bits());
    assert_eq!(
        f32::from_bits(get_gamepad_axis_position(&ctx, 0, GamepadAxis::LeftTrigger)),
        -0.75
    );
    assert_eq!(get_gamepad_axis_position(&ctx, 0, GamepadAxis::LeftTrigger), 0xBF40_0000);
    assert_eq!(get_gamepad_axis_position(&ctx, 0, GamepadAxis::RightTrigger), 0x3F80_0000);
    assert_eq!(get_gamepad_axis_position(&ctx, 0, GamepadAxis::LeftStickX), 0);
    // A frame's beginning leaves the axes alone.
    begin_frame(&mut ctx);
    assert_eq!(get_gamepad_axis_position(&ctx, 0, GamepadAxis::LeftTrigger), 0xBF40_0000);
}

#[test]
fn axis_position_is_not_clamped() {
    let mut ctx = Context::new();
    add_gamepad(&mut ctx, 0);
    let pad = get_gamepad_mut(&mut ctx, 0).unwrap();
    pad.set_axis_position(GamepadAxis::LeftStickX, 1234.5f32.to_bits());
    pad.set_axis_position(GamepadAxis::LeftStickY, f32::NEG_INFINITY.to_bits());
    assert_eq!(f32::from_bits(get_gamepad_axis_position(&ctx, 0, GamepadAxis::LeftStickX)), 1234.5);
    assert_eq!(
        f32::from_bits(get_gamepad_axis_position(&ctx, 0, GamepadAxis::LeftStickY)),
        f32::NEG_INFINITY
    );
}

#[test]
fn stick_position_is_the_pair_of_its_axes() {
    let mut ctx = Context::new();
    add_gamepad(&mut ctx, 0);
    let pad = get_gamepad_mut(&mut ctx, 0).unwrap();
    pad.set_axis_position(GamepadAxis::LeftStickX, 0.5f32.to_bits());
    pad.set_axis_position(GamepadAxis::LeftStickY, (-1.0f32).to_bits());
    pad.set_axis_position(GamepadAxis::RightStickY, 0.125f32.to_bits());
    pad.set_axis_position(GamepadAxis::LeftTrigger, 1.0f32.to_bits());

    let (x, y) = get_gamepad_stick_position(&ctx, 0, GamepadStick::LeftStick);
    assert_eq!((f32::from_bits(x), f32::from_bits(y)), (0.5, -1.0));
    let (x, y) = get_gamepad_stick_position(&ctx, 0, GamepadStick::RightStick);
    assert_eq!((f32::from_bits(x), f32::from_bits(y)), (0.0, 0.125));

    for index in 0..2 {
        assert_eq!(
            get_gamepad_stick_position(&ctx, index, GamepadStick::LeftStick),
            (
                get_gamepad_axis_position(&ctx, index, GamepadAxis::LeftStickX),
                get_gamepad_axis_position(&ctx, index, GamepadAxis::LeftStickY)
            )
        );
        assert_eq!(
            get_gamepad_stick_position(&ctx, index, GamepadStick::RightStick),
            (
                get_gamepad_axis_position(&ctx, index, GamepadAxis::RightStickX),
                get_gamepad_axis_position(&ctx, index, GamepadAxis::RightStickY)
            )
        );
    }
    assert_eq!(get_gamepad_stick_position(&ctx, 1, GamepadStick::LeftStick), (0, 0));
}

#[test]
fn gamepad_name_is_asked_only_of_connected_gamepads() {
    let mut ctx = Context::new();
    assert_eq!(get_gamepad_name(&ctx, 0), None);
    add_gamepad(&mut ctx, 12);
    assert_eq!(get_gamepad_name(&ctx, 0), Some(String::new()));
    assert_eq!(get_gamepad_name(&ctx, 1), None);
}

#[test]
fn vibration_is_not_supported_and_changes_nothing() {
    let mut ctx = Context::new();
    add_gamepad(&mut ctx, 12);
    press(&mut ctx, 0, GamepadButton::A);
    assert!(!is_gamepad_vibration_supported(&ctx, 0));
    assert!(set_gamepad_vibration(&mut ctx, 0, 1.0f32.to_bits()).is_some());
    assert!(start_gamepad_vibration(&mut ctx, 0, 1e9f32.to_bits(), 250).is_some());
    assert!(stop_gamepad_vibration(&mut ctx, 0).is_some());
    assert!(is_gamepad_connected(&ctx, 0));
    assert!(is_gamepad_button_pressed(&ctx, 0, GamepadButton::A));
    assert_eq!(get_gamepad_buttons_down(&ctx, 0), vec![GamepadButton::A]);
}

#[test]
fn new_gamepad_state_is_empty() {
    let mut ctx = Context::new();
    ctx.input.pads.push(Some(GamepadState::new(5)));
    assert!(is_gamepad_connected(&ctx, 0));
    assert!(get_gamepad_buttons_down(&ctx, 0).is_empty());
    assert!(get_gamepad_buttons_pressed(&ctx, 0).is_empty());
    assert!(get_gamepad_buttons_released(&ctx, 0).is_empty());
    for axis in ALL_AXES.iter() {
        assert_eq!(get_gamepad_axis_position(&ctx, 0, *axis), 0);
    }
}

#[test]
fn gamepad_state_begin_frame_copies_current_to_previous() {
    let mut ctx = Context::new();
    add_gamepad(&mut ctx, 0);
    press(&mut ctx, 0, GamepadButton::A);
    get_gamepad_mut(&mut ctx, 0).unwrap().begin_frame();
    assert!(!is_gamepad_button_pressed(&ctx, 0, GamepadButton::A));
    // The copy is a copy: what happens to the current buttons afterwards does
    // not reach it.
    release(&mut ctx, 0, GamepadButton::A);
    assert!(is_gamepad_button_released(&ctx, 0, GamepadButton::A));
    press(&mut ctx, 0, GamepadButton::B);
    assert!(is_gamepad_button_pressed(&ctx, 0, GamepadButton::B));
}

#[test]
fn platform_id_is_handed_back_as_it_came() {
    let mut ctx = Context::new();
    assert_eq!(get_gamepad_platform_id(&ctx, 0), None);
    add_gamepad(&mut ctx, -7);
    add_gamepad(&mut ctx, i32::MAX);
    assert_eq!(get_gamepad_platform_id(&ctx, 0), Some(-7));
    assert_eq!(get_gamepad_platform_id(&ctx, 1), Some(i32::MAX));
    assert_eq!(get_gamepad_platform_id(&ctx, 2), None);
    remove_gamepad(&mut ctx, 0);
    assert_eq!(get_gamepad_platform_id(&ctx, 0), None);
    assert_eq!(add_gamepad(&mut ctx, 8), 0);
    assert_eq!(get_gamepad_platform_id(&ctx, 0), Some(8));
}

#[test]
fn vibration_requests_name_the_gamepad_and_carry_the_parameters() {
    let mut ctx = Context::new();
    add_gamepad(&mut ctx, 40);
    add_gamepad(&mut ctx, -3);
    remove_gamepad(&mut ctx, 0);

    assert_eq!(
        set_gamepad_vibration(&mut ctx, 1, 0.5f32.to_bits()),
        Some(VibrationRequest::Vibrate { platform_id: -3, strength: 0x3F00_0000 })
    );
    // The strength is not clamped.
    assert_eq!(
        set_gamepad_vibration(&mut ctx, 1, 250.0f32.to_bits()),
        Some(VibrationRequest::Vibrate { platform_id: -3, strength: 250.0f32.to_bits() })
    );
    assert_eq!(
        start_gamepad_vibration(&mut ctx, 1, (-1.0f32).to_bits(), 1500),
        Some(VibrationRequest::VibrateFor {
            platform_id: -3,
            strength: 0xBF80_0000,
            duration: 1500
        })
    );
    assert_eq!(
        start_gamepad_vibration(&mut ctx, 1, 0, 0),
        Some(VibrationRequest::VibrateFor { platform_id: -3, strength: 0, duration: 0 })
    );
    assert_eq!(
        stop_gamepad_vibration(&mut ctx, 1),
        Some(VibrationRequest::Stop { platform_id: -3 })
    );

    // The slot that was left: nothing is asked.
    assert_eq!(set_gamepad_vibration(&mut ctx, 0, 0.5f32.to_bits()), None);
    assert_eq!(start_gamepad_vibration(&mut ctx, 0, 0.5f32.to_bits(), 10), None);
    assert_eq!(stop_gamepad_vibration(&mut ctx, 0), None);
    // A slot beyond the table: nothing is asked.
    assert_eq!(stop_gamepad_vibration(&mut ctx, 2), None);

    // A gamepad that takes the freed slot is asked under its own identifier.
    assert_eq!(add_gamepad(&mut ctx, 41), 0);
    assert_eq!(
        stop_gamepad_vibration(&mut ctx, 0),
        Some(VibrationRequest::Stop { platform_id: 41 })
    );

    // Asking changes nothing in the input state.
    assert!(is_gamepad_connected(&ctx, 0));
    assert!(is_gamepad_connected(&ctx, 1));
    assert!(get_gamepad_buttons_down(&ctx, 1).is_empty());
}
