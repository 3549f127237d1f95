//! Messages addressed by raw position, for the Launchpad MK2 and the
//! Launchpad Pro.
//!
//! Here an LED is named by the number the device gives it, and a colour by its
//! palette index. The two models share opcodes but differ in the header, in
//! the positions they have, and in how a whole row or column is lit.
//!
//! A message is built from whatever it is given. Whether the device has the
//! position, row or column, and how many LEDs, rows or columns it takes at
//! once, is answered by the predicates of [`Model`]: ask them first.

use vstd::prelude::*;
use vstd::utf8::encode_utf8;
use crate::codec::{Command, TERMINATOR};
use crate::color::{nearest_index, nearest_palette, RGBColor};
use crate::location::{lemma_location_of_note_sound, location_of_note, Location};

verus! {

/// A palette index, `0..=127`.
pub type Color = u8;

/// A single button/led
#[derive(Debug, Copy, Clone, PartialEq, Eq, Structural)]
pub struct ColorLed {
    pub color: Color,
    pub position: u8,
}

/// A single column (0...8)
#[derive(Debug, Copy, Clone, PartialEq, Eq, Structural)]
pub struct ColorColumn {
    pub color: Color,
    pub column: u8,
}

/// A single row (0...8)
#[derive(Debug, Copy, Clone, PartialEq, Eq, Structural)]
pub struct ColorRow {
    pub color: Color,
    pub row: u8,
}

/// The device models that take these messages.
#[derive(Debug, Copy, Clone, PartialEq, Eq, Structural)]
pub enum Model {
    /// Launchpad MK2: 8x8 pads, buttons on top and on the right.
    Mk2,
    /// Launchpad Pro: 8x8 pads, buttons on all four sides.
    Pro,
}

impl Model {
    /// The bytes that open a SysEx message to this model.
    pub open spec fn header(&self) -> Seq<u8> {
        match self {
            Model::Mk2 => seq![0xF0u8, 0x00u8, 0x20u8, 0x29u8, 0x02u8, 0x18u8],
            Model::Pro => seq![0xF0u8, 0x00u8, 0x20u8, 0x29u8, 0x02u8, 0x10u8],
        }
    }

    /// `data` framed as one SysEx message to this model.
    pub open spec fn frame(&self, data: Seq<u8>) -> Seq<u8> {
        self.header() + data + seq![TERMINATOR]
    }

    /// Whether the model has an LED at `position`.
    pub open spec fn valid_position(&self, position: u8) -> bool {
        match self {
            Model::Mk2 => (11 <= position <= 89 && position % 10 != 0) || 104 <= position <= 111,
            Model::Pro => 1 <= position <= 100,
        }
    }

    /// The highest row or column index of the model, side buttons included.
    pub open spec fn last_strip(&self) -> u8 {
        match self {
            Model::Mk2 => 8,
            Model::Pro => 10,
        }
    }

    /// Most rows, or columns, that can be set at once.
    pub open spec fn strips(&self) -> nat {
        match self {
            Model::Mk2 => 9,
            Model::Pro => 10,
        }
    }

    /// How many times a row or column message repeats the colour: the MK2
    /// takes it once for the whole strip, the Pro once for each of its ten
    /// LEDs.
    pub open spec fn strip_colors(&self) -> nat {
        match self {
            Model::Mk2 => 1,
            Model::Pro => 10,
        }
    }

    /// The message that lights every LED in `color`.
    pub open spec fn all_message(&self, color: Color) -> Seq<u8> {
        self.frame(seq![0x0Eu8, color])
    }

    /// The message that makes `led` flash: a short note message on the MK2,
    /// a SysEx message on the Pro.
    pub open spec fn flash_message(&self, led: ColorLed) -> Seq<u8> {
        match self {
            Model::Mk2 => seq![0x91u8, led.position, led.color],
            Model::Pro => self.frame(seq![0x23u8, led.position, led.color]),
        }
    }

    /// The message that makes `led` pulse: a short note message on the MK2,
    /// a SysEx message on the Pro.
    pub open spec fn pulse_message(&self, led: ColorLed) -> Seq<u8> {
        match self {
            Model::Mk2 => seq![0x92u8, led.position, led.color],
            Model::Pro => self.frame(seq![0x28u8, led.position, led.color]),
        }
    }

    /// The message that lights `led`.
    pub open spec fn led_message(&self, led: ColorLed) -> Seq<u8> {
        self.frame(seq![0x0Au8, led.position, led.color])
    }

    /// The message with `opcode` that lights the row or column `index`.
    pub open spec fn strip_message(&self, opcode: u8, index: u8, color: Color) -> Seq<u8> {
        self.frame(seq![opcode, index] + Seq::new(self.strip_colors(), |i: int| color))
    }

    /// The message that lights the column `col`.
    pub open spec fn column_message(&self, col: ColorColumn) -> Seq<u8> {
        self.strip_message(0x0C, col.column, col.color)
    }

    /// The message that lights the row `row`.
    pub open spec fn row_message(&self, row: ColorRow) -> Seq<u8> {
        self.strip_message(0x0D, row.row, row.color)
    }

    /// The message that scrolls `text` across the grid.
    pub open spec fn scroll_message(&self, color: Color, doloop: bool, text: Seq<char>) -> Seq<u8> {
        self.frame(
            seq![
                0x14u8,
                color,
                if doloop {
                    1u8
                } else {
                    0u8
                },
            ] + encode_utf8(text),
        )
    }

    /// Whether the model has an LED at `position`.
    pub fn is_valid_position(&self, position: u8) -> (valid: bool)
        ensures
            valid == self.valid_position(position),
    {
        match self {
            Model::Mk2 => (11 <= position && position <= 89 && position % 10 != 0) || (104
                <= position && position <= 111),
            Model::Pro => 1 <= position && position <= 100,
        }
    }

    /// Whether the model has a column `column`.
    pub fn is_valid_column(&self, column: u8) -> (valid: bool)
        ensures
            valid == (column <= self.last_strip()),
    {
        match self {
            Model::Mk2 => column <= 8,
            Model::Pro => column <= 10,
        }
    }

    /// Whether the model has a row `row`.
    pub fn is_valid_row(&self, row: u8) -> (valid: bool)
        ensures
            valid == (row <= self.last_strip()),
    {
        match self {
            Model::Mk2 => row <= 8,
            Model::Pro => row <= 10,
        }
    }

    /// Most rows, or columns, that can be set at once.
    pub fn max_strips(&self) -> (count: usize)
        ensures
            count == self.strips(),
    {
        match self {
            Model::Mk2 => 9,
            Model::Pro => 10,
        }
    }

    /// `data` framed as one SysEx message to this model.
    pub fn write_sysex(&self, data: &[u8]) -> (message: Vec<u8>)
        ensures
            message@ == self.frame(data@),
    {
        let mut message: Vec<u8> = match self {
            Model::Mk2 => vec![0xF0, 0x00, 0x20, 0x29, 0x02, 0x18],
            Model::Pro => vec![0xF0, 0x00, 0x20, 0x29, 0x02, 0x10],
        };
        message.extend_from_slice(data);
        message.push(TERMINATOR);
        message
    }

    /// Set all LEDs to the same color
    pub fn light_all(&self, color: Color) -> (message: Vec<u8>)
        ensures
            message@ == self.all_message(color),
    {
        let data: Vec<u8> = vec![0x0E, color];
        self.write_sysex(data.as_slice())
    }

    /// Set a single LED to flash.
    pub fn flash_single(&self, led: &ColorLed) -> (message: Vec<u8>)
        ensures
            message@ == self.flash_message(*led),
    {
        match self {
            Model::Mk2 => vec![0x91, led.position, led.color],
            Model::Pro => {
                let data: Vec<u8> = vec![0x23, led.position, led.color];
                self.write_sysex(data.as_slice())
            },
        }
    }

    /// Set a single LED to pulse. Position and colour go out as they are.
    pub fn pulse_single(&self, led: &ColorLed) -> (message: Vec<u8>)
        ensures
            message@ == self.pulse_message(*led),
    {
        match self {
            Model::Mk2 => vec![0x92, led.position, led.color],
            Model::Pro => {
                let data: Vec<u8> = vec![0x28, led.position, led.color];
                self.write_sysex(data.as_slice())
            },
        }
    }

    /// Set a single LED to a palette color.
    pub fn light_led(&self, led: &ColorLed) -> (message: Vec<u8>)
        ensures
            message@ == self.led_message(*led),
    {
        let data: Vec<u8> = vec![0x0A, led.position, led.color];
        self.write_sysex(data.as_slice())
    }

    /// Set LEDs to a certain color, each by a message of its own, in the
    /// order given. The device takes up to 80 at once.
    pub fn light_leds(&self, leds: &[&ColorLed]) -> (messages: Vec<Vec<u8>>)
        ensures
            messages@.len() == leds@.len(),
            forall|i: int|
                0 <= i < leds@.len() ==> (#[trigger] messages@[i])@ == self.led_message(*leds@[i]),
    {
        let mut messages: Vec<Vec<u8>> = Vec::new();
        let mut index: usize = 0;
        while index < leds.len()
            invariant
                index <= leds@.len(),
                messages@.len() == index,
                forall|i: int|
                    0 <= i < index ==> (#[trigger] messages@[i])@ == self.led_message(*leds@[i]),
            decreases leds@.len() - index,
        {
            messages.push(self.light_led(leds[index]));
            index += 1;
        }
        messages
    }

    /// The message with `opcode` that lights the row or column `index`.
    fn light_strip(&self, opcode: u8, index: u8, color: Color) -> (message: Vec<u8>)
        ensures
            message@ == self.strip_message(opcode, index, color),
    {
        let data: Vec<u8> = match self {
            Model::Mk2 => vec![opcode, index, color],
            Model::Pro => vec![
                opcode,
                index,
                color,
                color,
                color,
                color,
                color,
                color,
                color,
                color,
                color,
                color,
            ],
        };
        self.write_sysex(data.as_slice())
    }

    /// Light a column of LEDs to the same color.
    pub fn light_column(&self, col: &ColorColumn) -> (message: Vec<u8>)
        ensures
            message@ == self.column_message(*col),
    {
        self.light_strip(0x0C, col.column, col.color)
    }

    /// Light columns of LEDs to the same color. Each column may be set to a
    /// unique color, by a message of its own, in the order given. The device
    /// takes up to `max_strips` at once.
    pub fn light_columns(&self, cols: &[&ColorColumn]) -> (messages: Vec<Vec<u8>>)
        ensures
            messages@.len() == cols@.len(),
            forall|i: int|
                0 <= i < cols@.len() ==> (#[trigger] messages@[i])@ == self.column_message(
                    *cols@[i],
                ),
    {
        let mut messages: Vec<Vec<u8>> = Vec::new();
        let mut index: usize = 0;
        while index < cols.len()
            invariant
                index <= cols@.len(),
                messages@.len() == index,
                forall|i: int|
                    0 <= i < index ==> (#[trigger] messages@[i])@ == self.column_message(
                        *cols@[i],
                    ),
            decreases cols@.len() - index,
        {
            messages.push(self.light_column(cols[index]));
            index += 1;
        }
        messages
    }

    /// Light a row of LEDs to the same color.
    pub fn light_row(&self, row: &ColorRow) -> (message: Vec<u8>)
        ensures
            message@ == self.row_message(*row),
    {
        self.light_strip(0x0D, row.row, row.color)
    }

    /// Light rows of LEDs to the same color. Each row may be set to a unique
    /// color, by a message of its own, in the order given. The device takes
    /// up to `max_strips` at once.
    pub fn light_rows(&self, rows: &[&ColorRow]) -> (messages: Vec<Vec<u8>>)
        ensures
            messages@.len() == rows@.len(),
            forall|i: int|
                0 <= i < rows@.len() ==> (#[trigger] messages@[i])@ == self.row_message(*rows@[i]),
    {
        let mut messages: Vec<Vec<u8>> = Vec::new();
        let mut index: usize = 0;
        while index < rows.len()
            invariant
                index <= rows@.len(),
                messages@.len() == index,
                forall|i: int|
                    0 <= i < index ==> (#[trigger] messages@[i])@ == self.row_message(*rows@[i]),
            decreases rows@.len() - index,
        {
            messages.push(self.light_row(rows[index]));
            index += 1;
        }
        messages
    }

    /// Begin scrolling a message. The screen will be blanked, and the letters
    /// will be the same color. If the message is set to loop, it can be
    /// cancelled by sending an empty `scroll_text` command. String should
    /// only contain ASCII characters, or the byte value of 1-7 to set the
    /// speed (`\u{01}` to `\u{07}`)
    pub fn scroll_text(&self, color: Color, doloop: bool, text: &str) -> (message: Vec<u8>)
        ensures
            message@ == self.scroll_message(color, doloop, text@),
    {
        let flag: u8 = if doloop {
            0x01
        } else {
            0x00
        };
        let mut data: Vec<u8> = vec![0x14, color, flag];
        data.extend_from_slice(text.as_bytes());
        self.write_sysex(data.as_slice())
    }

    /// Set an LED to the palette colour nearest to an RGB colour. A palette
    /// colour takes a far shorter message than an RGB colour does.
    pub fn light_fuzzy_rgb(&self, position: u8, red: u8, green: u8, blue: u8) -> (message: Vec<u8>)
        ensures
            message@ == self.led_message(
                ColorLed { color: nearest_index(RGBColor { red, green, blue }) as u8, position },
            ),
    {
        let color: Color = nearest_palette(red, green, blue);
        self.light_led(&ColorLed { position, color })
    }
}

/// The positions of the MK2 are the notes that address a location.
pub proof fn lemma_mk2_positions_are_notes(position: u8)
    ensures
        Model::Mk2.valid_position(position) <==> location_of_note(position) is Some,
{
    lemma_location_of_note_sound(position);
}

/// On the MK2 a message by raw position says what the command by location
/// says, where the position is the note of the location.
pub proof fn lemma_mk2_messages_agree(location: Location, color: Color, index: u8)
    requires
        location.valid(),
    ensures
        Model::Mk2.led_message(ColorLed { color, position: location.note() as u8 })
            == Command::LightSingle(location, color).wire(),
        Model::Mk2.all_message(color) == Command::LightAll(color).wire(),
        Model::Mk2.row_message(ColorRow { color, row: index }) == Command::LightRow(
            index,
            color,
        ).wire(),
        Model::Mk2.column_message(ColorColumn { color, column: index }) == Command::LightColumn(
            index,
            color,
        ).wire(),
{
}

} // verus!
