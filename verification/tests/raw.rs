use launchpad::codec::Command;
use launchpad::color::nearest_palette;
use launchpad::location::{note_to_location, ButtonSide, Location};
use launchpad::raw::Model;
use launchpad::{ColorColumn, ColorLed, ColorRow};

const MK2: [u8; 6] = [0xF0, 0x00, 0x20, 0x29, 0x02, 0x18];
const PRO: [u8; 6] = [0xF0, 0x00, 0x20, 0x29, 0x02, 0x10];

fn framed(header: &[u8], data: &[u8]) -> Vec<u8> {
    let mut message = header.to_vec();
    message.extend_from_slice(data);
    message.push(0xF7);
    message
}

#[test]
fn mk2_positions() {
    for position in 0..=255u8 {
        let expected = match position {
            11..=19 | 21..=29 | 31..=39 | 41..=49 | 51..=59 | 61..=69 | 71..=79 | 81..=89 => true,
            104..=111 => true,
            _ => false,
        };
        assert_eq!(Model::Mk2.is_valid_position(position), expected, "position {}", position);
    }
}

#[test]
fn pro_positions() {
    for position in 0..=255u8 {
        let expected = 1 <= position && position <= 100;
        assert_eq!(Model::Pro.is_valid_position(position), expected, "position {}", position);
    }
}

#[test]
fn rows_and_columns_of_each_model() {
    assert!(Model::Mk2.is_valid_column(8));
    assert!(!Model::Mk2.is_valid_column(9));
    assert!(Model::Mk2.is_valid_row(8));
    assert!(!Model::Mk2.is_valid_row(9));
    assert!(Model::Pro.is_valid_column(10));
    assert!(!Model::Pro.is_valid_column(11));
    assert!(Model::Pro.is_valid_row(10));
    assert!(!Model::Pro.is_valid_row(11));
    assert_eq!(Model::Mk2.max_strips(), 9);
    assert_eq!(Model::Pro.max_strips(), 10);
}

#[test]
fn light_all_on_each_model() {
    assert_eq!(
        Model::Mk2.light_all(5),
        vec![0xF0, 0x00, 0x20, 0x29, 0x02, 0x18, 0x0E, 0x05, 0xF7]
    );
    assert_eq!(
        Model::Pro.light_all(5),
        vec![0xF0, 0x00, 0x20, 0x29, 0x02, 0x10, 0x0E, 0x05, 0xF7]
    );
}

#[test]
fn flash_and_pulse_are_short_on_the_mk2() {
    let led = ColorLed { color: 41, position: 55 };
    assert_eq!(Model::Mk2.flash_single(&led), vec![0x91, 55, 41]);
    assert_eq!(Model::Mk2.pulse_single(&led), vec![0x92, 55, 41]);
}

#[test]
fn flash_and_pulse_are_sysex_on_the_pro() {
    let led = ColorLed { color: 41, position: 55 };
    assert_eq!(Model::Pro.flash_single(&led), framed(&PRO, &[0x23, 55, 41]));
    assert_eq!(Model::Pro.pulse_single(&led), framed(&PRO, &[0x28, 55, 41]));
}

#[test]
fn one_message_for_each_led() {
    let first = ColorLed { position: 11, color: 41 };
    let second = ColorLed { position: 22, color: 42 };
    assert_eq!(Model::Mk2.light_led(&first), framed(&MK2, &[0x0A, 11, 41]));
    assert_eq!(
        Model::Mk2.light_leds(&[&first, &second]),
        vec![framed(&MK2, &[0x0A, 11, 41]), framed(&MK2, &[0x0A, 22, 42])]
    );
    assert_eq!(
        Model::Pro.light_leds(&[&second, &first]),
        vec![framed(&PRO, &[0x0A, 22, 42]), framed(&PRO, &[0x0A, 11, 41])]
    );
    assert_eq!(Model::Mk2.light_leds(&[]), Vec::<Vec<u8>>::new());
}

#[test]
fn a_column_takes_one_color_on_the_mk2_and_ten_on_the_pro() {
    let column = ColorColumn { column: 3, color: 5 };
    assert_eq!(Model::Mk2.light_column(&column), framed(&MK2, &[0x0C, 3, 5]));
    assert_eq!(
        Model::Pro.light_column(&column),
        framed(&PRO, &[0x0C, 3, 5, 5, 5, 5, 5, 5, 5, 5, 5, 5])
    );
    let other = ColorColumn { column: 8, color: 0 };
    assert_eq!(
        Model::Mk2.light_columns(&[&column, &other]),
        vec![framed(&MK2, &[0x0C, 3, 5]), framed(&MK2, &[0x0C, 8, 0])]
    );
}

#[test]
fn a_row_takes_one_color_on_the_mk2_and_ten_on_the_pro() {
    let row = ColorRow { row: 7, color: 18 };
    assert_eq!(Model::Mk2.light_row(&row), framed(&MK2, &[0x0D, 7, 18]));
    assert_eq!(
        Model::Pro.light_row(&row),
        framed(&PRO, &[0x0D, 7, 18, 18, 18, 18, 18, 18, 18, 18, 18, 18])
    );
    let other = ColorRow { row: 10, color: 1 };
    assert_eq!(
        Model::Pro.light_rows(&[&other, &row]),
        vec![
            framed(&PRO, &[0x0D, 10, 1, 1, 1, 1, 1, 1, 1, 1, 1, 1]),
            framed(&PRO, &[0x0D, 7, 18, 18, 18, 18, 18, 18, 18, 18, 18, 18]),
        ]
    );
}

#[test]
fn scroll_text_on_each_model() {
    assert_eq!(
        Model::Mk2.scroll_text(27, false, "Hi"),
        framed(&MK2, &[0x14, 27, 0, b'H', b'i'])
    );
    assert_eq!(
        Model::Pro.scroll_text(27, true, "\u{02}Go"),
        framed(&PRO, &[0x14, 27, 1, 2, b'G', b'o'])
    );
    assert_eq!(Model::Pro.scroll_text(0, false, ""), framed(&PRO, &[0x14, 0, 0]));
}

#[test]
fn write_sysex_frames_any_data() {
    assert_eq!(Model::Mk2.write_sysex(&[]), framed(&MK2, &[]));
    assert_eq!(Model::Pro.write_sysex(&[9, 8]), framed(&PRO, &[9, 8]));
}

#[test]
fn fuzzy_rgb_lights_the_nearest_palette_color() {
    assert_eq!(Model::Mk2.light_fuzzy_rgb(11, 0, 0, 0), framed(&MK2, &[0x0A, 11, 0]));
    assert_eq!(Model::Pro.light_fuzzy_rgb(1, 255, 255, 255), framed(&PRO, &[0x0A, 1, 3]));
    let nearest = nearest_palette(0x12, 0x34, 0x56);
    assert_eq!(
        Model::Mk2.light_fuzzy_rgb(88, 0x12, 0x34, 0x56),
        framed(&MK2, &[0x0A, 88, nearest])
    );
}

#[test]
fn a_message_is_built_for_any_position() {
    let led = ColorLed { color: 200, position: 0 };
    assert!(!Model::Mk2.is_valid_position(led.position));
    assert_eq!(Model::Mk2.light_led(&led), framed(&MK2, &[0x0A, 0, 200]));
    assert_eq!(Model::Pro.flash_single(&led), framed(&PRO, &[0x23, 0, 200]));
}

#[test]
fn raw_and_located_messages_agree_on_the_mk2() {
    let locations =
        [Location::Pad(0, 0), Location::Pad(7, 7), Location::Button(3, ButtonSide::Top)];
    for location in locations {
        let position = location.midi_note().unwrap();
        assert!(Model::Mk2.is_valid_position(position));
        assert_eq!(
            Model::Mk2.light_led(&ColorLed { color: 9, position }),
            Command::LightSingle(location, 9).encode().unwrap()
        );
    }
    assert_eq!(Model::Mk2.light_all(7), Command::LightAll(7).encode().unwrap());
    assert_eq!(
        Model::Mk2.light_row(&ColorRow { row: 2, color: 7 }),
        Command::LightRow(2, 7).encode().unwrap()
    );
    assert_eq!(
        Model::Mk2.light_column(&ColorColumn { column: 2, color: 7 }),
        Command::LightColumn(2, 7).encode().unwrap()
    );
}

#[test]
fn mk2_positions_are_the_notes_with_a_location() {
    for position in 0..=255u8 {
        assert_eq!(
            Model::Mk2.is_valid_position(position),
            note_to_location(position).is_some()
        );
    }
}
