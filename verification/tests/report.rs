use ds4::controls::{Button, DPad};
use ds4::layout::{nibbles, CONTROLS_OFFSET, REPORT_LEN};
use ds4::report::{decode, ControllerState, Report};

const BUTTONS: [Button; 4] = [Button::Square, Button::Cross, Button::Circle, Button::Triangle];

const DIRECTIONS: [DPad; 8] = [
    DPad::Up,
    DPad::UpRight,
    DPad::Right,
    DPad::DownRight,
    DPad::Down,
    DPad::DownLeft,
    DPad::Left,
    DPad::UpLeft,
];

fn raw_with(controls: u8) -> [u8; 64] {
    let mut data: [u8; 64] = [0u8; REPORT_LEN];
    data[5] = controls;
    data
}

fn report_with(controls: u8) -> Report {
    Report::from_bytes(raw_with(controls))
}

fn assert_button_pressed(button: Button, data: u8) {
    let report = report_with(data);
    let res = report.is_button_pressed(button);
    let expected = true;
    assert_eq!(expected, res);
}

fn assert_dpad_pressed(dpad: DPad, data: u8) {
    let report = report_with(data);
    let res = report.is_dpad_pressed(dpad);
    let expected = true;
    assert_eq!(expected, res);
}

#[test]
fn button_pressed() {
    assert_button_pressed(Button::Square, 0b00010000);
    assert_button_pressed(Button::Cross, 0b00100000);
    assert_button_pressed(Button::Circle, 0b01000000);
    assert_button_pressed(Button::Triangle, 0b10000000);
}

#[test]
fn dpad_pressed() {
    assert_dpad_pressed(DPad::Up, 0b00000000);
    assert_dpad_pressed(DPad::UpRight, 0b00000001);
    assert_dpad_pressed(DPad::UpLeft, 0b00000111);
    assert_dpad_pressed(DPad::Right, 0b00000010);
    assert_dpad_pressed(DPad::Down, 0b00000100);
    assert_dpad_pressed(DPad::DownRight, 0b00000011);
    assert_dpad_pressed(DPad::DownLeft, 0b00000101);
    assert_dpad_pressed(DPad::Left, 0b00000110);
}

#[test]
fn controls_sit_at_offset_five() {
    assert_eq!(5, CONTROLS_OFFSET);
    assert_eq!(64, REPORT_LEN);
}

#[test]
fn nibbles_split_a_byte() {
    assert_eq!((0x0, 0x0), nibbles(0x00));
    assert_eq!((0x8, 0x7), nibbles(0x87));
    assert_eq!((0x1, 0x8), nibbles(0x18));
    assert_eq!((0xf, 0xf), nibbles(0xff));
}

#[test]
fn button_masks() {
    assert_eq!(1, Button::Square.mask());
    assert_eq!(2, Button::Cross.mask());
    assert_eq!(4, Button::Circle.mask());
    assert_eq!(8, Button::Triangle.mask());
}

#[test]
fn dpad_nibbles_follow_the_table() {
    assert_eq!(0, DPad::Up.nibble());
    assert_eq!(1, DPad::UpRight.nibble());
    assert_eq!(2, DPad::Right.nibble());
    assert_eq!(3, DPad::DownRight.nibble());
    assert_eq!(4, DPad::Down.nibble());
    assert_eq!(5, DPad::DownLeft.nibble());
    assert_eq!(6, DPad::Left.nibble());
    assert_eq!(7, DPad::UpLeft.nibble());
}

#[test]
fn dpad_from_nibble_round_trips() {
    for dpad in DIRECTIONS {
        assert_eq!(Some(dpad), DPad::from_nibble(dpad.nibble()));
    }
}

#[test]
fn dpad_from_nibble_rest() {
    let mut nibble: u8 = 8;
    while nibble < 16 {
        assert_eq!(None, DPad::from_nibble(nibble));
        nibble += 1;
    }
    assert_eq!(None, DPad::from_nibble(0xff));
}

#[test]
fn decode_square_only() {
    // The pad nibble of this byte is zero, and zero is the code of Up.
    let state = decode(raw_with(0b00010000));
    assert!(state.square);
    assert!(!state.cross);
    assert!(!state.circle);
    assert!(!state.triangle);
    assert_eq!(Some(DPad::Up), state.dpad);
}

#[test]
fn decode_square_with_pad_at_rest() {
    let state = decode(raw_with(0b00011000));
    assert_eq!(
        ControllerState {
            square: true,
            cross: false,
            circle: false,
            triangle: false,
            dpad: None,
        },
        state
    );
}

#[test]
fn decode_nothing_pressed_pad_up() {
    let state = decode(raw_with(0b00000000));
    assert_eq!(
        ControllerState {
            square: false,
            cross: false,
            circle: false,
            triangle: false,
            dpad: Some(DPad::Up),
        },
        state
    );
}

#[test]
fn decode_triangle_up_left() {
    let state = decode(raw_with(0b10000111));
    assert_eq!(
        ControllerState {
            square: false,
            cross: false,
            circle: false,
            triangle: true,
            dpad: Some(DPad::UpLeft),
        },
        state
    );
}

#[test]
fn decode_every_button_combination() {
    let mut high: u8 = 0;
    while high < 16 {
        let mut low: u8 = 0;
        while low < 16 {
            let state = decode(raw_with(high << 4 | low));
            assert_eq!(high & 1 != 0, state.square);
            assert_eq!(high & 2 != 0, state.cross);
            assert_eq!(high & 4 != 0, state.circle);
            assert_eq!(high & 8 != 0, state.triangle);
            low += 1;
        }
        high += 1;
    }
}

#[test]
fn report_every_button_combination() {
    let expected: [[bool; 4]; 16] = [
        [false, false, false, false],
        [true, false, false, false],
        [false, true, false, false],
        [true, true, false, false],
        [false, false, true, false],
        [true, false, true, false],
        [false, true, true, false],
        [true, true, true, false],
        [false, false, false, true],
        [true, false, false, true],
        [false, true, false, true],
        [true, true, false, true],
        [false, false, true, true],
        [true, false, true, true],
        [false, true, true, true],
        [true, true, true, true],
    ];
    for (high, row) in expected.iter().enumerate() {
        let report = report_with((high as u8) << 4 | 0x8);
        for (button, held) in BUTTONS.iter().zip(row.iter()) {
            assert_eq!(*held, report.is_button_pressed(*button));
            assert_eq!(*held, report.state().is_button_pressed(*button));
        }
    }
}

#[test]
fn decode_every_pad_nibble() {
    let table: [Option<DPad>; 16] = [
        Some(DPad::Up),
        Some(DPad::UpRight),
        Some(DPad::Right),
        Some(DPad::DownRight),
        Some(DPad::Down),
        Some(DPad::DownLeft),
        Some(DPad::Left),
        Some(DPad::UpLeft),
        None,
        None,
        None,
        None,
        None,
        None,
        None,
        None,
    ];
    for (low, expected) in table.iter().enumerate() {
        for high in [0x00u8, 0x50, 0xf0] {
            let raw = raw_with(high | low as u8);
            assert_eq!(*expected, decode(raw).dpad);
            assert_eq!(*expected, Report::from_bytes(raw).dpad());
        }
    }
}

#[test]
fn pad_directions_exclude_one_another() {
    let mut low: u8 = 0;
    while low < 16 {
        let report = report_with(0xa0 | low);
        let held: usize = DIRECTIONS.iter().filter(|dpad| report.is_dpad_pressed(**dpad)).count();
        assert_eq!(if low < 8 { 1 } else { 0 }, held);
        for dpad in DIRECTIONS {
            assert_eq!(report.dpad() == Some(dpad), report.is_dpad_pressed(dpad));
            assert_eq!(report.is_dpad_pressed(dpad), report.state().is_dpad_pressed(dpad));
        }
        low += 1;
    }
}

#[test]
fn pad_at_rest_holds_no_direction() {
    let report = report_with(0b00001000);
    for dpad in DIRECTIONS {
        assert!(!report.is_dpad_pressed(dpad));
    }
    for button in BUTTONS {
        assert!(!report.is_button_pressed(button));
    }
}

#[test]
fn decode_reads_no_other_byte() {
    let mut raw: [u8; 64] = [0xffu8; 64];
    raw[5] = 0b00100100;
    let noisy = decode(raw);
    let quiet = decode(raw_with(0b00100100));
    assert_eq!(quiet, noisy);
    assert!(noisy.cross && !noisy.square && !noisy.circle && !noisy.triangle);
    assert_eq!(Some(DPad::Down), noisy.dpad);

    let mut elsewhere: [u8; 64] = [0u8; 64];
    elsewhere[4] = 0xf0;
    elsewhere[6] = 0xf0;
    assert_eq!(decode(raw_with(0)), decode(elsewhere));
}

#[test]
fn decode_is_repeatable() {
    let mut controls: u8 = 0;
    loop {
        let raw = raw_with(controls);
        assert_eq!(decode(raw), decode(raw));
        assert_eq!(decode(raw), Report::from_bytes(raw).state());
        if controls == u8::MAX {
            break;
        }
        controls += 1;
    }
}

#[test]
fn state_answers_for_its_fields() {
    let state = ControllerState {
        square: true,
        cross: false,
        circle: true,
        triangle: false,
        dpad: Some(DPad::Left),
    };
    assert!(state.is_button_pressed(Button::Square));
    assert!(!state.is_button_pressed(Button::Cross));
    assert!(state.is_button_pressed(Button::Circle));
    assert!(!state.is_button_pressed(Button::Triangle));
    assert!(state.is_dpad_pressed(DPad::Left));
    assert!(!state.is_dpad_pressed(DPad::Right));
    let rest = ControllerState { dpad: None, ..state };
    for dpad in DIRECTIONS {
        assert!(!rest.is_dpad_pressed(dpad));
    }
}
