use launchpad::color::{
    first_minimum, is_valid_color, nearest_palette, palette_color, RGBColor, COLOR_PALETTE,
    PALETTE_SIZE,
};
use palette::color_difference::EuclideanDistance;
use palette::convert::IntoColorUnclamped;
use palette::{Lab, LinSrgb};

fn entry(index: usize) -> (u8, u8, u8) {
    (COLOR_PALETTE[3 * index], COLOR_PALETTE[3 * index + 1], COLOR_PALETTE[3 * index + 2])
}

fn lab(red: u8, green: u8, blue: u8) -> Lab {
    let wide: LinSrgb<u16> = LinSrgb::new(red, green, blue).into_format();
    let linear: LinSrgb = wide.into_format();
    linear.into_color_unclamped()
}

/// The search written out with floating-point comparisons.
fn nearest_by_float(red: u8, green: u8, blue: u8) -> u8 {
    let color = lab(red, green, blue);
    let mut best = 0usize;
    let mut best_distance = f32::INFINITY;
    for index in 0..128 {
        let (r, g, b) = entry(index);
        let distance = color.distance_squared(lab(r, g, b));
        if distance < best_distance {
            best_distance = distance;
            best = index;
        }
    }
    best as u8
}

/// The search with the channels divided by 255 and the distance summed by
/// hand.
fn nearest_by_division(red: u8, green: u8, blue: u8) -> u8 {
    let to_lab = |r: u8, g: u8, b: u8| -> Lab {
        LinSrgb::new(r as f32 / 255f32, g as f32 / 255f32, b as f32 / 255f32)
            .into_color_unclamped()
    };
    let color = to_lab(red, green, blue);
    let mut best = 0usize;
    let mut best_distance = 3f32 * (255f32).powi(2) + 1f32;
    for index in 0..128 {
        let (r, g, b) = entry(index);
        let other = to_lab(r, g, b);
        let distance = (color.l - other.l).powi(2)
            + (color.a - other.a).powi(2)
            + (color.b - other.b).powi(2);
        if distance < best_distance {
            best_distance = distance;
            best = index;
        }
    }
    best as u8
}

#[test]
fn the_palette_has_128_colors() {
    assert_eq!(PALETTE_SIZE, 128);
    assert_eq!(COLOR_PALETTE.len(), 3 * 128);
    assert_eq!(palette_color(0), Some(RGBColor::new(0x00, 0x00, 0x00)));
    assert_eq!(palette_color(3), Some(RGBColor::new(0xfc, 0xfc, 0xfc)));
    assert_eq!(palette_color(5), Some(RGBColor::new(0xfe, 0x0a, 0x00)));
    assert_eq!(palette_color(64), Some(RGBColor::new(0x01, 0x38, 0x00)));
    assert_eq!(palette_color(127), Some(RGBColor::new(0x4c, 0x13, 0x00)));
    assert_eq!(palette_color(128), None);
    assert_eq!(palette_color(255), None);
}

#[test]
fn palette_indices_are_below_128() {
    assert!(is_valid_color(&0));
    assert!(is_valid_color(&127));
    assert!(!is_valid_color(&128));
    assert!(!is_valid_color(&255));
}

#[test]
fn black_is_the_first_color() {
    assert_eq!(nearest_palette(0, 0, 0), 0);
    assert_eq!(RGBColor::new(0, 0, 0).nearest_midi(), 0);
}

#[test]
fn white_is_nearest_to_the_brightest_grey() {
    assert_eq!(nearest_palette(255, 255, 255), 3);
    assert_eq!(RGBColor::new(255, 255, 255).nearest_midi(), 3);
}

#[test]
fn nearest_palette_gives_the_same_index_each_time() {
    for (red, green, blue) in [(0u8, 0u8, 0u8), (255, 255, 255), (255, 165, 32), (1, 2, 3)] {
        let first = nearest_palette(red, green, blue);
        let second = nearest_palette(red, green, blue);
        assert_eq!(first, second);
        assert!(first < 128);
    }
}

#[test]
fn a_palette_color_is_matched_by_its_first_occurrence() {
    for index in 0..128usize {
        let (red, green, blue) = entry(index);
        let first = (0..128usize).find(|other| entry(*other) == (red, green, blue)).unwrap();
        assert_eq!(nearest_palette(red, green, blue) as usize, first, "entry {}", index);
    }
}

#[test]
fn of_equal_colors_the_earliest_wins() {
    assert_eq!(nearest_palette(0x00, 0xfe, 0x00), 21);
    assert_eq!(nearest_palette(0x7c, 0x7c, 0x7c), 2);
    assert_eq!(nearest_palette(0x00, 0x00, 0xfe), 45);
    assert_eq!(nearest_palette(0xb8, 0xb1, 0x00), 97);
}

#[test]
fn nearest_palette_agrees_with_a_search_by_float() {
    let steps = [0u8, 17, 34, 51, 68, 85, 102, 119, 136, 153, 170, 187, 204, 221, 238, 255];
    for red in steps {
        for green in steps {
            for blue in steps {
                assert_eq!(
                    nearest_palette(red, green, blue),
                    nearest_by_float(red, green, blue),
                    "colour {} {} {}",
                    red,
                    green,
                    blue
                );
            }
        }
    }
}

#[test]
fn nearest_palette_agrees_with_division_by_255() {
    let colors = [
        (0xFFu8, 0x00u8, 0x00u8),
        (0x00, 0xFF, 0x00),
        (0x00, 0x00, 0xFF),
        (0xFF, 0xFF, 0xFF),
        (0xFF, 0xA5, 0x20),
        (0x00, 0x00, 0x00),
        (0x80, 0x80, 0x80),
        (0x12, 0x34, 0x56),
        (0xC0, 0x40, 0xC0),
        (181, 102, 118),
    ];
    for (red, green, blue) in colors {
        assert_eq!(
            nearest_palette(red, green, blue),
            nearest_by_division(red, green, blue),
            "colour {} {} {}",
            red,
            green,
            blue
        );
    }
}

#[test]
fn a_near_tie_is_decided_as_division_by_255_decides_it() {
    assert_eq!(nearest_by_division(181, 102, 118), 118);
    assert_eq!(nearest_palette(181, 102, 118), 118);
}

#[test]
fn nearest_palette_agrees_with_division_by_255_on_a_grid() {
    let mut red = 1u32;
    while red < 256 {
        let mut green = 2u32;
        while green < 256 {
            let mut blue = 3u32;
            while blue < 256 {
                assert_eq!(
                    nearest_palette(red as u8, green as u8, blue as u8),
                    nearest_by_division(red as u8, green as u8, blue as u8),
                    "colour {} {} {}",
                    red,
                    green,
                    blue
                );
                blue += 7;
            }
            green += 7;
        }
        red += 7;
    }
}

#[test]
fn primary_colors_find_their_palette_entries() {
    assert_eq!(nearest_palette(0xFF, 0x00, 0x00), nearest_by_float(0xFF, 0x00, 0x00));
    let red = nearest_palette(0xFF, 0x00, 0x00) as usize;
    assert!(entry(red).0 > 0xF0 && entry(red).1 < 0x20 && entry(red).2 < 0x20);
    let green = nearest_palette(0x00, 0xFF, 0x00) as usize;
    assert_eq!(entry(green), (0x00, 0xfe, 0x00));
    let blue = nearest_palette(0x00, 0x00, 0xFF) as usize;
    assert_eq!(entry(blue), (0x00, 0x00, 0xfe));
}

#[test]
fn first_minimum_takes_the_earliest_of_equals() {
    assert_eq!(first_minimum(&[]), None);
    assert_eq!(first_minimum(&[7]), Some(0));
    assert_eq!(first_minimum(&[5, 3, 9, 3]), Some(1));
    assert_eq!(first_minimum(&[3, 3, 3]), Some(0));
    assert_eq!(first_minimum(&[9, 8, 7, 6]), Some(3));
    assert_eq!(first_minimum(&[u32::MAX, u32::MAX]), Some(0));
    assert_eq!(first_minimum(&[4, 0, 0, 1]), Some(1));
}
