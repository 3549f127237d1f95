//! Grid locations and the note numbers that address them on the wire.
//!
//! The 8x8 pads occupy the notes `11 + x + 10 * y`, the right-hand buttons the
//! notes `19, 29, .., 89` and the top buttons the notes `104..=111`.

use vstd::prelude::*;
use crate::error::Error;

verus! {

/// The edge of the grid a round button sits on.
#[derive(Copy, Clone, Debug, PartialEq, Eq, Structural)]
pub enum ButtonSide {
    Top,
    Right,
}

/// A light (and key) of the device.
#[derive(Copy, Clone, Debug, PartialEq, Eq, Structural)]
pub enum Location {
    /// A round button: its index `0..=7` along the given edge.
    Button(u8, ButtonSide),
    /// A square pad: column `x` and row `y`, each `0..=7`.
    Pad(u8, u8),
}

/// Number of pads along each axis, and of buttons along each edge.
pub const GRID_SIZE: u8 = 8;

/// The note of the pad in column `x`, row `y`.
pub open spec fn pad_note(x: int, y: int) -> int {
    11 + x + 10 * y
}

/// The note of the button `index` on `side`.
pub open spec fn button_note(index: int, side: ButtonSide) -> int {
    match side {
        ButtonSide::Top => 104 + index,
        ButtonSide::Right => 10 * index + 19,
    }
}

/// Whether `value` is the note of a right-hand button.
pub open spec fn is_right_button_note(value: int) -> bool {
    19 <= value <= 89 && value % 10 == 9
}

/// Whether `value` is the note of a pad. The notes `20, 30, .., 80` lie
/// between the rows and address nothing.
pub open spec fn is_pad_note(value: int) -> bool {
    11 <= value <= 88 && 1 <= value % 10 <= 8
}

/// Whether `value` is the note of a top button.
pub open spec fn is_top_button_note(value: int) -> bool {
    104 <= value <= 111
}

/// The location a note addresses, if any. The right-hand buttons are told
/// apart first: their notes fall into the range that the pads span.
pub open spec fn location_of_note(value: u8) -> Option<Location> {
    if is_right_button_note(value as int) {
        Some(Location::Button((value / 10 - 1) as u8, ButtonSide::Right))
    } else if is_pad_note(value as int) {
        Some(Location::Pad((value % 10 - 1) as u8, (value / 10 - 1) as u8))
    } else if is_top_button_note(value as int) {
        Some(Location::Button((value - 104) as u8, ButtonSide::Top))
    } else {
        None
    }
}

impl Location {
    /// Whether every coordinate lies on the grid.
    pub open spec fn valid(&self) -> bool {
        match self {
            Location::Button(index, _) => *index < GRID_SIZE,
            Location::Pad(x, y) => *x < GRID_SIZE && *y < GRID_SIZE,
        }
    }

    /// The note that addresses this location.
    pub open spec fn note(&self) -> int {
        match self {
            Location::Button(index, side) => button_note(*index as int, *side),
            Location::Pad(x, y) => pad_note(*x as int, *y as int),
        }
    }

    /// The MIDI note value for this location, or `InvalidLocation` when a
    /// coordinate is off the grid.
    pub fn midi_note(&self) -> (note: Result<u8, Error>)
        ensures
            self.valid() ==> note == Ok::<u8, Error>(self.note() as u8),
            !self.valid() ==> note == Err::<u8, Error>(Error::InvalidLocation),
    {
        match self {
            Location::Button(index, side) => {
                if *index < GRID_SIZE {
                    match side {
                        ButtonSide::Top => Ok(104 + *index),
                        ButtonSide::Right => Ok(10 * *index + 19),
                    }
                } else {
                    Err(Error::InvalidLocation)
                }
            },
            Location::Pad(x, y) => {
                if *x < GRID_SIZE && *y < GRID_SIZE {
                    Ok(*y * 10 + *x + 11)
                } else {
                    Err(Error::InvalidLocation)
                }
            },
        }
    }
}

/// Classifies a note received from the device.
pub fn note_to_location(value: u8) -> (location: Option<Location>)
    ensures
        location == location_of_note(value),
{
    if 19 <= value && value <= 89 && value % 10 == 9 {
        Some(Location::Button(value / 10 - 1, ButtonSide::Right))
    } else if 11 <= value && value <= 88 && value % 10 != 0 {
        Some(Location::Pad(value % 10 - 1, value / 10 - 1))
    } else if 104 <= value && value <= 111 {
        Some(Location::Button(value - 104, ButtonSide::Top))
    } else {
        None
    }
}

/// Whether `pos` is a coordinate on the grid.
pub fn is_valid_coord(pos: &u8) -> (valid: bool)
    ensures
        valid == (*pos < GRID_SIZE),
{
    *pos < GRID_SIZE
}

/// Whether both coordinates of a pad are on the grid.
pub fn is_valid_coords(coords: &(u8, u8)) -> (valid: bool)
    ensures
        valid == Location::Pad(coords.0, coords.1).valid(),
{
    is_valid_coord(&coords.0) && is_valid_coord(&coords.1)
}

/// MIDI note value of the pad at `coords`, given as `(x, y)`; `None` when a
/// coordinate is off the grid.
pub fn midi_from_coords(coords: (u8, u8)) -> (note: Option<u8>)
    ensures
        note == if Location::Pad(coords.0, coords.1).valid() {
            Some(pad_note(coords.0 as int, coords.1 as int) as u8)
        } else {
            None
        },
{
    if is_valid_coords(&coords) {
        Some(11 + coords.0 + coords.1 * 10)
    } else {
        None
    }
}

/// The side a button flag stands for: the top edge when set, the right edge
/// otherwise.
pub open spec fn side_of(top: bool) -> ButtonSide {
    if top {
        ButtonSide::Top
    } else {
        ButtonSide::Right
    }
}

/// MIDI note value of the button `coord` on the top edge (`top`) or on the
/// right edge; `None` when `coord` is off the grid.
pub fn midi_from_button(coord: u8, top: bool) -> (note: Option<u8>)
    ensures
        note == if coord < GRID_SIZE {
            Some(button_note(coord as int, side_of(top)) as u8)
        } else {
            None
        },
{
    if is_valid_coord(&coord) {
        if top {
            Some(104 + coord)
        } else {
            Some(10 * coord + 19)
        }
    } else {
        None
    }
}

/// MIDI note value of the pad in column `x`, row `y`.
pub fn pad_position(x: u8, y: u8) -> (note: u8)
    requires
        x < GRID_SIZE,
        y < GRID_SIZE,
    ensures
        note == pad_note(x as int, y as int),
{
    11 + x + y * 10
}

/// MIDI note value of the button `coord` on the top edge (`top`) or on the
/// right edge.
pub fn button_position(coord: u8, top: bool) -> (note: u8)
    requires
        coord < GRID_SIZE,
    ensures
        note == button_note(coord as int, side_of(top)),
{
    if top {
        104 + coord
    } else {
        10 * coord + 19
    }
}

/// Distinct pads have distinct notes.
pub proof fn lemma_pad_note_injective(x1: u8, y1: u8, x2: u8, y2: u8)
    requires
        x1 < GRID_SIZE,
        y1 < GRID_SIZE,
        x2 < GRID_SIZE,
        y2 < GRID_SIZE,
        pad_note(x1 as int, y1 as int) == pad_note(x2 as int, y2 as int),
    ensures
        x1 == x2,
        y1 == y2,
{
}

/// The note of a pad on the grid decodes to that pad.
pub proof fn lemma_pad_note_round_trip(x: u8, y: u8)
    requires
        x < GRID_SIZE,
        y < GRID_SIZE,
    ensures
        0 <= pad_note(x as int, y as int) <= u8::MAX,
        location_of_note(pad_note(x as int, y as int) as u8) == Some(Location::Pad(x, y)),
{
}

/// The note of a button on the grid decodes to that button, on either edge.
pub proof fn lemma_button_note_round_trip(index: u8, side: ButtonSide)
    requires
        index < GRID_SIZE,
    ensures
        0 <= button_note(index as int, side) <= u8::MAX,
        location_of_note(button_note(index as int, side) as u8) == Some(
            Location::Button(index, side),
        ),
{
}

/// No button shares its note with a pad: a right-hand note such as 19 is
/// never the note of a pad, although it lies within the range the pads span.
pub proof fn lemma_button_note_is_no_pad_note(index: u8, side: ButtonSide, x: u8, y: u8)
    requires
        index < GRID_SIZE,
        x < GRID_SIZE,
        y < GRID_SIZE,
    ensures
        button_note(index as int, side) != pad_note(x as int, y as int),
        !is_pad_note(button_note(index as int, side)),
{
}

/// Encoding a location on the grid and decoding the note gives the location
/// back, so no two locations on the grid share a note.
pub proof fn lemma_note_round_trip(location: Location)
    requires
        location.valid(),
    ensures
        0 <= location.note() <= u8::MAX,
        location_of_note(location.note() as u8) == Some(location),
{
    match location {
        Location::Button(index, side) => lemma_button_note_round_trip(index, side),
        Location::Pad(x, y) => lemma_pad_note_round_trip(x, y),
    }
}

/// Every location that a note decodes to is on the grid and has that note.
pub proof fn lemma_location_of_note_sound(value: u8)
    ensures
        location_of_note(value) matches Some(location) ==> location.valid() && location.note()
            == value,
        location_of_note(value) is Some <==> is_right_button_note(value as int) || is_pad_note(
            value as int,
        ) || is_top_button_note(value as int),
{
}

} // verus!
