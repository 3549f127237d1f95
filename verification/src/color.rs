//! RGB colours and their nearest neighbours in the device's 128-colour
//! palette.
//!
//! Colours are compared in CIE L*a*b*, where Euclidean distance follows the
//! difference the eye sees. The conversion and the distance are the work of
//! the `palette` crate; the search over the table is done here.

use palette::color_difference::EuclideanDistance;
use palette::convert::IntoColorUnclamped;
use palette::{Lab, LinSrgb};
use vstd::prelude::*;

verus! {

/// A colour as 8-bit red, green and blue channels.
#[derive(Debug, Copy, Clone, PartialEq, Eq, Structural)]
pub struct RGBColor {
    pub red: u8,
    pub green: u8,
    pub blue: u8,
}

/// Number of colours in the device palette.
pub const PALETTE_SIZE: usize = 128;

/// The device palette: entry `i` occupies the bytes `3 * i .. 3 * i + 3` as
/// red, green, blue. Values from http://launchpaddr.com/mk2palette/
pub const COLOR_PALETTE: [u8; 384] = [
    // 0..64
    0x00, 0x00, 0x00,
    0x1c, 0x1c, 0x1c,
    0x7c, 0x7c, 0x7c,
    0xfc, 0xfc, 0xfc,
    0xff, 0x4e, 0x48,
    0xfe, 0x0a, 0x00,
    0x5a, 0x00, 0x00,
    0x18, 0x00, 0x02,
    0xff, 0xbc, 0x63,
    0xff, 0x57, 0x00,
    0x5a, 0x1d, 0x00,
    0x24, 0x18, 0x02,
    0xfd, 0xfd, 0x21,
    0xfd, 0xfd, 0x00,
    0x58, 0x58, 0x00,
    0x18, 0x18, 0x00,
    0x81, 0xfd, 0x2b,
    0x40, 0xfd, 0x01,
    0x16, 0x58, 0x00,
    0x13, 0x28, 0x01,
    0x35, 0xfd, 0x2b,
    0x00, 0xfe, 0x00,
    0x00, 0x58, 0x01,
    0x00, 0x18, 0x00,
    0x35, 0xfc, 0x47,
    0x00, 0xfe, 0x00,
    0x00, 0x58, 0x01,
    0x00, 0x18, 0x00,
    0x32, 0xfd, 0x7f,
    0x00, 0xfd, 0x3a,
    0x01, 0x58, 0x14,
    0x00, 0x1c, 0x0e,
    0x2f, 0xfc, 0xb1,
    0x00, 0xfb, 0x91,
    0x01, 0x57, 0x32,
    0x01, 0x18, 0x10,
    0x39, 0xbe, 0xff,
    0x00, 0xa7, 0xff,
    0x01, 0x40, 0x51,
    0x00, 0x10, 0x18,
    0x41, 0x86, 0xff,
    0x00, 0x50, 0xff,
    0x01, 0x1a, 0x5a,
    0x01, 0x06, 0x19,
    0x47, 0x47, 0xff,
    0x00, 0x00, 0xfe,
    0x00, 0x00, 0x5a,
    0x00, 0x00, 0x18,
    0x83, 0x47, 0xff,
    0x50, 0x00, 0xff,
    0x16, 0x00, 0x67,
    0x0a, 0x00, 0x32,
    0xff, 0x48, 0xfe,
    0xff, 0x00, 0xfe,
    0x5a, 0x00, 0x5a,
    0x18, 0x00, 0x18,
    0xfb, 0x4e, 0x83,
    0xff, 0x07, 0x53,
    0x5a, 0x02, 0x1b,
    0x21, 0x01, 0x10,
    0xff, 0x19, 0x01,
    0x9a, 0x35, 0x00,
    0x7a, 0x51, 0x01,
    0x3e, 0x65, 0x00,
    // 64..128
    0x01, 0x38, 0x00,
    0x00, 0x54, 0x32,
    0x00, 0x53, 0x7f,
    0x00, 0x00, 0xfe,
    0x01, 0x44, 0x4d,
    0x1a, 0x00, 0xd1,
    0x7c, 0x7c, 0x7c,
    0x20, 0x20, 0x20,
    0xff, 0x0a, 0x00,
    0xba, 0xfd, 0x00,
    0xac, 0xec, 0x00,
    0x56, 0xfd, 0x00,
    0x00, 0x88, 0x00,
    0x01, 0xfc, 0x7b,
    0x00, 0xa7, 0xff,
    0x02, 0x1a, 0xff,
    0x35, 0x00, 0xff,
    0x78, 0x00, 0xff,
    0xb4, 0x17, 0x7e,
    0x41, 0x20, 0x00,
    0xff, 0x4a, 0x01,
    0x82, 0xe1, 0x00,
    0x66, 0xfd, 0x00,
    0x00, 0xfe, 0x00,
    0x00, 0xfe, 0x00,
    0x45, 0xfd, 0x61,
    0x01, 0xfb, 0xcb,
    0x50, 0x86, 0xff,
    0x27, 0x4d, 0xc8,
    0x84, 0x7a, 0xed,
    0xd3, 0x0c, 0xff,
    0xff, 0x06, 0x5a,
    0xff, 0x7d, 0x01,
    0xb8, 0xb1, 0x00,
    0x8a, 0xfd, 0x00,
    0x81, 0x5d, 0x00,
    0x3a, 0x28, 0x02,
    0x0d, 0x4c, 0x05,
    0x00, 0x50, 0x37,
    0x13, 0x14, 0x29,
    0x10, 0x1f, 0x5a,
    0x6a, 0x3c, 0x18,
    0xac, 0x04, 0x01,
    0xe1, 0x51, 0x36,
    0xdc, 0x69, 0x00,
    0xfe, 0xe1, 0x00,
    0x99, 0xe1, 0x01,
    0x60, 0xb5, 0x00,
    0x1b, 0x1c, 0x31,
    0xdc, 0xfd, 0x54,
    0x76, 0xfb, 0xb9,
    0x96, 0x98, 0xff,
    0x8b, 0x62, 0xff,
    0x40, 0x40, 0x40,
    0x74, 0x74, 0x74,
    0xde, 0xfc, 0xfc,
    0xa2, 0x04, 0x01,
    0x34, 0x01, 0x00,
    0x00, 0xd2, 0x01,
    0x00, 0x41, 0x01,
    0xb8, 0xb1, 0x00,
    0x3c, 0x30, 0x00,
    0xb4, 0x5d, 0x00,
    0x4c, 0x13, 0x00,
];

/// The palette colour with the given index.
pub open spec fn palette_entry(index: int) -> RGBColor {
    RGBColor {
        red: COLOR_PALETTE[3 * index],
        green: COLOR_PALETTE[3 * index + 1],
        blue: COLOR_PALETTE[3 * index + 2],
    }
}

/// The squared Euclidean distance in CIE L*a*b* (white point D65) between
/// the colours `(r1, g1, b1)` and `(r2, g2, b2)`, their channels read as
/// linear intensities and divided by 255, as the `palette` crate computes it
/// in single precision, given as the bit pattern of the result.
///
/// The distance is a sum of squares, hence never negative, and the bit
/// patterns of non-negative floating-point numbers are ordered as the numbers
/// are: comparing two patterns compares the two distances.
pub uninterp spec fn lab_distance(r1: u8, g1: u8, b1: u8, r2: u8, g2: u8, b2: u8) -> u32;

/// The distance of `color` from each palette entry, in palette order.
pub open spec fn palette_distances(color: RGBColor) -> Seq<u32> {
    Seq::new(
        PALETTE_SIZE as nat,
        |i: int|
            lab_distance(
                color.red,
                color.green,
                color.blue,
                palette_entry(i).red,
                palette_entry(i).green,
                palette_entry(i).blue,
            ),
    )
}

/// Whether `index` is the first position in `distances` that holds their
/// minimum.
pub open spec fn is_first_minimum(distances: Seq<u32>, index: int) -> bool {
    &&& 0 <= index < distances.len()
    &&& forall|j: int| 0 <= j < distances.len() ==> distances[index] <= #[trigger] distances[j]
    &&& forall|j: int| 0 <= j < index ==> distances[index] < #[trigger] distances[j]
}

/// The index of the palette colour nearest to `color`: the first entry at
/// the least distance.
pub open spec fn nearest_index(color: RGBColor) -> int {
    choose|index: int| is_first_minimum(palette_distances(color), index)
}

/// Whether `raw_color` is an index into the palette.
pub open spec fn valid_color(raw_color: u8) -> bool {
    raw_color < PALETTE_SIZE
}

/// Calls `palette` for the distance between two colours. Each is taken as
/// linear sRGB (`LinSrgb::new`), scaled to `0.0..=1.0` (`into_format`),
/// converted to `Lab` (`IntoColorUnclamped::into_color_unclamped`), and the
/// two are compared with `EuclideanDistance::distance_squared`. The result
/// is that number's bit pattern (`to_bits`).
///
/// The scaling goes by way of sixteen bits. From eight bits to sixteen
/// `palette` widens a channel `v` to `257 * v`, and from sixteen bits it
/// divides by `65535`: the quotient is `v / 255`, rounded once. Scaled
/// straight from eight bits the channel would be multiplied by a rounded
/// reciprocal instead.
///
/// Assumed: the result depends on the six channel values alone, and equal
/// colours are at distance zero (their difference is `0.0` in every
/// component, and so is the sum of its squares).
#[verifier::external_body]
fn lab_distance_bits(a: RGBColor, b: RGBColor) -> (bits: u32)
    ensures
        bits == lab_distance(a.red, a.green, a.blue, b.red, b.green, b.blue),
        a == b ==> bits == 0,
{
    let a16: LinSrgb<u16> = LinSrgb::new(a.red, a.green, a.blue).into_format();
    let b16: LinSrgb<u16> = LinSrgb::new(b.red, b.green, b.blue).into_format();
    let a32: LinSrgb = a16.into_format();
    let b32: LinSrgb = b16.into_format();
    let first: Lab = a32.into_color_unclamped();
    let second: Lab = b32.into_color_unclamped();
    first.distance_squared(second).to_bits()
}

impl RGBColor {
    /// The colour with the given channels.
    pub fn new(red: u8, green: u8, blue: u8) -> (color: RGBColor)
        ensures
            color == (RGBColor { red, green, blue }),
    {
        RGBColor { red, green, blue }
    }

    /// The index of the palette colour nearest to this one.
    pub fn nearest_midi(&self) -> (index: u8)
        ensures
            valid_color(index),
            index == nearest_index(*self),
            is_first_minimum(palette_distances(*self), index as int),
            forall|i: int| 0 <= i < PALETTE_SIZE && palette_entry(i) == *self ==> index <= i,
    {
        nearest_palette(self.red, self.green, self.blue)
    }
}

/// Whether `raw_color` is an index into the palette.
pub fn is_valid_color(raw_color: &u8) -> (valid: bool)
    ensures
        valid == valid_color(*raw_color),
{
    *raw_color < 128
}

/// The palette colour with the given index, if the index is below 128.
pub fn palette_color(index: u8) -> (color: Option<RGBColor>)
    ensures
        color == if index < PALETTE_SIZE {
            Some(palette_entry(index as int))
        } else {
            None
        },
{
    if (index as usize) < PALETTE_SIZE {
        let at: usize = 3 * (index as usize);
        Some(
            RGBColor {
                red: COLOR_PALETTE[at],
                green: COLOR_PALETTE[at + 1],
                blue: COLOR_PALETTE[at + 2],
            },
        )
    } else {
        None
    }
}

/// Measures `color` against the whole palette.
fn measure_palette(color: RGBColor) -> (distances: Vec<u32>)
    ensures
        distances@ == palette_distances(color),
        forall|i: int| 0 <= i < PALETTE_SIZE && palette_entry(i) == color ==> distances[i] == 0,
{
    let mut distances: Vec<u32> = Vec::with_capacity(PALETTE_SIZE);
    let mut index: usize = 0;
    while index < PALETTE_SIZE
        invariant
            index <= PALETTE_SIZE,
            distances.len() == index,
            forall|i: int| 0 <= i < index ==> distances[i] == #[trigger] palette_distances(color)[i],
            forall|i: int| 0 <= i < index && palette_entry(i) == color ==> distances[i] == 0,
        decreases PALETTE_SIZE - index,
    {
        let entry = RGBColor {
            red: COLOR_PALETTE[3 * index],
            green: COLOR_PALETTE[3 * index + 1],
            blue: COLOR_PALETTE[3 * index + 2],
        };
        distances.push(lab_distance_bits(color, entry));
        index += 1;
    }
    distances
}

/// The first position of the least value in `distances`; `None` when there
/// is no value. Of equal values the earliest wins: a later one replaces the
/// running minimum only where it is strictly smaller.
pub fn first_minimum(distances: &[u32]) -> (found: Option<usize>)
    ensures
        match found {
            Some(index) => is_first_minimum(distances@, index as int),
            None => distances@.len() == 0,
        },
{
    if distances.len() == 0 {
        return None;
    }
    let mut nearest: usize = 0;
    let mut index: usize = 1;
    while index < distances.len()
        invariant
            1 <= index <= distances.len(),
            is_first_minimum(distances@.take(index as int), nearest as int),
        decreases distances.len() - index,
    {
        if distances[index] < distances[nearest] {
            nearest = index;
        }
        index += 1;
    }
    assert(distances@.take(index as int) =~= distances@);
    Some(nearest)
}

/// The index of the palette colour nearest to `(red, green, blue)`: the first
/// entry at the least distance in L*a*b*. A colour that the palette holds is
/// matched by an entry no later than its first occurrence.
pub fn nearest_palette(red: u8, green: u8, blue: u8) -> (index: u8)
    ensures
        valid_color(index),
        index == nearest_index(RGBColor { red, green, blue }),
        is_first_minimum(palette_distances(RGBColor { red, green, blue }), index as int),
        forall|i: int|
            0 <= i < PALETTE_SIZE && palette_entry(i) == (RGBColor { red, green, blue }) ==> index
                <= i,
{
    let color = RGBColor { red, green, blue };
    let distances = measure_palette(color);
    match first_minimum(distances.as_slice()) {
        Some(index) => {
            proof {
                lemma_nearest_index_is_unique(color, index as int);
            }
            index as u8
        },
        None => 0,
    }
}

/// Two searches over the same distances agree: the first minimum is unique,
/// so the nearest palette index is a function of the colour alone.
pub proof fn lemma_first_minimum_unique(distances: Seq<u32>, first: int, second: int)
    requires
        is_first_minimum(distances, first),
        is_first_minimum(distances, second),
    ensures
        first == second,
{
    if first < second {
        assert(distances[second] < distances[first]);
    } else if second < first {
        assert(distances[first] < distances[second]);
    }
}

/// The nearest palette index is the only first minimum of the distances to
/// the palette: whatever search finds one has found it.
pub proof fn lemma_nearest_index_is_unique(color: RGBColor, index: int)
    requires
        is_first_minimum(palette_distances(color), index),
    ensures
        index == nearest_index(color),
        0 <= nearest_index(color) < PALETTE_SIZE,
{
    lemma_first_minimum_unique(palette_distances(color), index, nearest_index(color));
}

/// Whatever the distances are, one of them is the first minimum.
pub proof fn lemma_first_minimum_exists(distances: Seq<u32>)
    requires
        distances.len() > 0,
    ensures
        exists|index: int| is_first_minimum(distances, index),
    decreases distances.len(),
{
    if distances.len() == 1 {
        assert(is_first_minimum(distances, 0));
    } else {
        let front = distances.drop_last();
        lemma_first_minimum_exists(front);
        let before = choose|index: int| is_first_minimum(front, index);
        let last = distances.len() - 1;
        assert forall|j: int| 0 <= j < last implies front[j] == distances[j] by {}
        if distances[last] < distances[before] {
            assert(is_first_minimum(distances, last));
        } else {
            assert(is_first_minimum(distances, before));
        }
    }
}

} // verus!
