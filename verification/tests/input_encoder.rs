use inferi::input::{
    encode, input, Control, ControlSample, InferiInput, INPUT_DOWN, INPUT_DOWN_JUST_PRESSED,
    INPUT_HEAVY, INPUT_HEAVY_JUST_PRESSED, INPUT_KICK, INPUT_KICK_JUST_PRESSED, INPUT_LEFT,
    INPUT_LEFT_JUST_PRESSED, INPUT_PUNCH, INPUT_PUNCH_JUST_PRESSED, INPUT_RIGHT,
    INPUT_RIGHT_JUST_PRESSED, INPUT_SLASH, INPUT_SLASH_JUST_PRESSED, INPUT_UP,
    INPUT_UP_JUST_PRESSED,
};

fn released() -> ControlSample {
    ControlSample::default()
}

fn only(control: Control) -> ControlSample {
    let mut sample = released();
    match control {
        Control::Up => sample.up = true,
        Control::Down => sample.down = true,
        Control::Left => sample.left = true,
        Control::Right => sample.right = true,
        Control::Punch => sample.punch = true,
        Control::Kick => sample.kick = true,
        Control::Slash => sample.slash = true,
        Control::Heavy => sample.heavy = true,
    }
    sample
}

const CONTROLS: [Control; 8] = [
    Control::Up,
    Control::Down,
    Control::Left,
    Control::Right,
    Control::Punch,
    Control::Kick,
    Control::Slash,
    Control::Heavy,
];

#[test]
fn masks_are_the_sixteen_bits_in_order() {
    let masks = [
        INPUT_UP,
        INPUT_UP_JUST_PRESSED,
        INPUT_DOWN,
        INPUT_DOWN_JUST_PRESSED,
        INPUT_LEFT,
        INPUT_LEFT_JUST_PRESSED,
        INPUT_RIGHT,
        INPUT_RIGHT_JUST_PRESSED,
        INPUT_PUNCH,
        INPUT_PUNCH_JUST_PRESSED,
        INPUT_KICK,
        INPUT_KICK_JUST_PRESSED,
        INPUT_SLASH,
        INPUT_SLASH_JUST_PRESSED,
        INPUT_HEAVY,
        INPUT_HEAVY_JUST_PRESSED,
    ];
    for (bit, mask) in masks.iter().enumerate() {
        assert_eq!(*mask, 1u16 << bit);
    }
    for (index, control) in CONTROLS.iter().enumerate() {
        assert_eq!(control.held_bit(), 1u16 << (2 * index));
        assert_eq!(control.edge_bit(), 1u16 << (2 * index + 1));
    }
}

#[test]
fn nothing_pressed_gives_the_empty_record() {
    assert_eq!(encode(&released(), &released()).buttons, 0);
    assert_eq!(InferiInput::default().buttons, 0);
    assert_eq!(InferiInput::default(), InferiInput { buttons: 0 });
}

#[test]
fn releasing_a_control_clears_both_bits() {
    for control in CONTROLS {
        assert_eq!(encode(&only(control), &released()).buttons, 0);
    }
}

#[test]
fn a_fresh_press_sets_held_and_edge() {
    for control in CONTROLS {
        let record = encode(&released(), &only(control));
        assert_eq!(record.buttons, control.held_bit() | control.edge_bit());
        for other in CONTROLS {
            assert_eq!(record.held(other), other == control);
            assert_eq!(record.just_pressed(other), other == control);
        }
    }
}

#[test]
fn a_continued_press_sets_held_only() {
    for control in CONTROLS {
        let record = encode(&only(control), &only(control));
        assert_eq!(record.buttons, control.held_bit());
        assert!(record.held(control));
        assert!(!record.just_pressed(control));
    }
}

#[test]
fn up_held_for_three_frames_has_one_edge() {
    let up = only(Control::Up);
    let first = encode(&released(), &up);
    let second = encode(&up, &up);
    let third = encode(&up, &up);
    assert_eq!(first.buttons, INPUT_UP | INPUT_UP_JUST_PRESSED);
    assert_eq!(second.buttons, INPUT_UP);
    assert_eq!(third.buttons, INPUT_UP);
    assert!(first.held(Control::Up) && first.just_pressed(Control::Up));
    assert!(second.held(Control::Up) && !second.just_pressed(Control::Up));
    assert!(third.held(Control::Up) && !third.just_pressed(Control::Up));
}

#[test]
fn edge_bit_follows_the_two_sample_difference_for_all_samples() {
    let sample_of = |bits: u8| ControlSample {
        up: bits & 1 != 0,
        down: bits & 2 != 0,
        left: bits & 4 != 0,
        right: bits & 8 != 0,
        punch: bits & 16 != 0,
        kick: bits & 32 != 0,
        slash: bits & 64 != 0,
        heavy: bits & 128 != 0,
    };
    for before in 0..=255u8 {
        for now in [0u8, 1, 2, 5, 0x0f, 0x10, 0x33, 0x80, 0xa5, 0xff] {
            let previous = sample_of(before);
            let current = sample_of(now);
            let record = encode(&previous, &current);
            for control in CONTROLS {
                assert_eq!(record.held(control), current.active(control));
                assert_eq!(
                    record.just_pressed(control),
                    current.active(control) && !previous.active(control)
                );
            }
        }
    }
}

#[test]
fn everything_pressed_at_once_fills_the_record() {
    let all = ControlSample {
        up: true,
        down: true,
        left: true,
        right: true,
        punch: true,
        kick: true,
        slash: true,
        heavy: true,
    };
    assert_eq!(encode(&released(), &all).buttons, 0xffff);
    assert_eq!(encode(&all, &all).buttons, 0x5555);
}

#[test]
fn local_players_each_get_the_record() {
    let inputs = input(&released(), &only(Control::Punch), &vec![0, 3]);
    assert_eq!(inputs.inner.0.len(), 2);
    assert_eq!(inputs.inner.0.get(&0), Some(&0x0300u16));
    assert_eq!(inputs.inner.0.get(&3), Some(&0x0300u16));
    assert_eq!(inputs.inner.0.get(&1), None);
}

#[test]
fn no_local_player_gives_an_empty_mapping() {
    let inputs = input(&released(), &only(Control::Up), &Vec::new());
    assert!(inputs.inner.0.is_empty());
}

#[test]
fn a_handle_listed_twice_gets_one_entry() {
    let inputs = input(&only(Control::Left), &only(Control::Left), &vec![1, 1]);
    assert_eq!(inputs.inner.0.len(), 1);
    assert_eq!(inputs.inner.0.get(&1), Some(&INPUT_LEFT));
}
