//! The wire format: commands to the device as SysEx messages, and the
//! three-byte messages it sends back as events.
//!
//! Every command travels in one SysEx message: the six header bytes
//! `F0 00 20 29 02 18`, the command's opcode and arguments, and the
//! terminator `F7`.

use vstd::prelude::*;
use vstd::utf8::{encode_utf8, is_ascii_chars, is_ascii_chars_encode_utf8};
use crate::color::RGBColor;
use crate::error::Error;
use crate::location::{
    lemma_location_of_note_sound, lemma_note_round_trip, location_of_note, note_to_location,
    Location,
};

verus! {

/// The layouts that the device can switch between.
#[derive(Debug, Copy, Clone, PartialEq, Eq, Structural)]
pub enum Layout {
    Session,
    User1,
    User2,
    AbletonReserved,
    Volume,
    Pan,
}

impl Layout {
    /// The number that selects the layout on the wire.
    pub open spec fn code(&self) -> u8 {
        match self {
            Layout::Session => 0,
            Layout::User1 => 1,
            Layout::User2 => 2,
            Layout::AbletonReserved => 3,
            Layout::Volume => 4,
            Layout::Pan => 5,
        }
    }

    /// The number that selects the layout on the wire.
    pub fn value(&self) -> (code: u8)
        ensures
            code == self.code(),
    {
        match self {
            Layout::Session => 0,
            Layout::User1 => 1,
            Layout::User2 => 2,
            Layout::AbletonReserved => 3,
            Layout::Volume => 4,
            Layout::Pan => 5,
        }
    }
}

/// What a column of the grid shows when it is set up as a fader.
#[derive(Debug, Copy, Clone, PartialEq, Eq, Structural)]
pub enum FaderType {
    Volume,
    Pan,
}

impl FaderType {
    /// The number that selects the fader type on the wire.
    pub open spec fn code(&self) -> u8 {
        match self {
            FaderType::Volume => 0,
            FaderType::Pan => 1,
        }
    }

    /// The number that selects the fader type on the wire.
    pub fn value(&self) -> (code: u8)
        ensures
            code == self.code(),
    {
        match self {
            FaderType::Volume => 0,
            FaderType::Pan => 1,
        }
    }
}

/// An input reported by the device.
#[derive(Debug, Copy, Clone, PartialEq, Eq, Structural)]
pub enum Event {
    /// A pad or button went down.
    Press(Location),
    /// A pad or button came up.
    Release(Location),
    /// A fader moved: its index, then its new value. No message decodes to
    /// this yet.
    FaderUpdate(u8, u8),
}

/// An input reported by a Launchpad MK2.
pub type Mk2Event = Event;

/// Scroll speeds, slowest to fastest: put one into a text to scroll and what
/// follows it moves at that speed.
pub const SCROLL_SLOWEST: &'static str = "\u{01}";

pub const SCROLL_SLOWER: &'static str = "\u{02}";

pub const SCROLL_SLOW: &'static str = "\u{03}";

pub const SCROLL_NORMAL: &'static str = "\u{04}";

pub const SCROLL_FAST: &'static str = "\u{05}";

pub const SCROLL_FASTER: &'static str = "\u{06}";

pub const SCROLL_FASTEST: &'static str = "\u{07}";

/// An instruction to the device. Colours given as one byte are palette
/// indices.
#[derive(Debug)]
pub enum Command {
    /// Light every LED in one colour.
    LightAll(u8),
    /// Light one LED.
    LightSingle(Location, u8),
    /// Light several LEDs at once. The message carries the first 80 only.
    LightMulti(Vec<(Location, u8)>),
    /// Make one LED flash.
    FlashSingle(Location, u8),
    /// Make one LED pulse.
    PulseSingle(Location, u8),
    /// Light a whole row, its side button included: the row, then the
    /// colour.
    LightRow(u8, u8),
    /// Light a whole column, its top button included: the column, then the
    /// colour.
    LightColumn(u8, u8),
    /// Light one LED in an RGB colour.
    LightSingleRGB(Location, RGBColor),
    /// Light several LEDs in RGB colours. The message carries the first 80
    /// only.
    LightMultiRGB(Vec<(Location, RGBColor)>),
    /// Scroll a text across the grid. The text is ASCII; the bytes 1 to 7 in
    /// it set the speed. An empty text stops a looping one.
    ScrollText { color: u8, do_loop: bool, text: String },
    /// Switch to a layout.
    SelectLayout(Layout),
    /// Turn the column `index` into a fader.
    SetupFader { index: u8, fader_type: FaderType, color: u8, init_value: u8 },
}

/// Most LEDs that one message can set.
pub const MAX_LEDS: usize = 80;

/// The byte that ends a SysEx message.
pub const TERMINATOR: u8 = 0xF7;

/// The bytes that open every message to the device.
pub open spec fn header() -> Seq<u8> {
    seq![0xF0u8, 0x00u8, 0x20u8, 0x29u8, 0x02u8, 0x18u8]
}

/// `data` framed as one SysEx message.
pub open spec fn sysex_frame(data: Seq<u8>) -> Seq<u8> {
    header() + data + seq![TERMINATOR]
}

/// Whether the location of every entry of `leds` is on the grid.
pub open spec fn all_on_grid<T>(leds: Seq<(Location, T)>) -> bool {
    forall|i: int| 0 <= i < leds.len() ==> (#[trigger] leds[i]).0.valid()
}

/// As many entries of `leds` as one message carries.
pub open spec fn carried<T>(leds: Seq<T>) -> Seq<T> {
    if leds.len() <= MAX_LEDS {
        leds
    } else {
        leds.take(MAX_LEDS as int)
    }
}

/// Note and colour of each LED in turn.
pub open spec fn led_bytes(leds: Seq<(Location, u8)>) -> Seq<u8> {
    Seq::new(
        2 * leds.len(),
        |i: int|
            if i % 2 == 0 {
                leds[i / 2].0.note() as u8
            } else {
                leds[i / 2].1
            },
    )
}

/// A channel's eight bits reduced to the six that the device takes.
pub open spec fn channel(value: u8) -> u8 {
    value / 4
}

/// Note, then red, green and blue at six bits each, of each LED in turn.
pub open spec fn rgb_led_bytes(leds: Seq<(Location, RGBColor)>) -> Seq<u8> {
    Seq::new(
        4 * leds.len(),
        |i: int|
            if i % 4 == 0 {
                leds[i / 4].0.note() as u8
            } else if i % 4 == 1 {
                channel(leds[i / 4].1.red)
            } else if i % 4 == 2 {
                channel(leds[i / 4].1.green)
            } else {
                channel(leds[i / 4].1.blue)
            },
    )
}

/// SysEx message with the device header around `data`.
pub fn sysex_message(data: &[u8]) -> (message: Vec<u8>)
    ensures
        message@ == sysex_frame(data@),
{
    let mut message: Vec<u8> = vec![0xF0, 0x00, 0x20, 0x29, 0x02, 0x18];
    message.extend_from_slice(data);
    message.push(TERMINATOR);
    message
}

impl Command {
    /// Whether every location in the command is on the grid.
    pub open spec fn valid(&self) -> bool {
        match self {
            Command::LightSingle(location, _) => location.valid(),
            Command::FlashSingle(location, _) => location.valid(),
            Command::PulseSingle(location, _) => location.valid(),
            Command::LightSingleRGB(location, _) => location.valid(),
            Command::LightMulti(leds) => all_on_grid(leds@),
            Command::LightMultiRGB(leds) => all_on_grid(leds@),
            _ => true,
        }
    }

    /// Opcode and arguments of the command.
    pub open spec fn data(&self) -> Seq<u8> {
        match self {
            Command::LightAll(color) => seq![0x0Eu8, *color],
            Command::LightSingle(location, color) => seq![0x0Au8, location.note() as u8, *color],
            Command::LightMulti(leds) => seq![0x0Au8] + led_bytes(carried(leds@)),
            Command::FlashSingle(location, color) => seq![
                0x23u8,
                0u8,
                location.note() as u8,
                *color,
            ],
            Command::PulseSingle(location, color) => seq![
                0x28u8,
                0u8,
                location.note() as u8,
                *color,
            ],
            Command::LightRow(y, color) => seq![0x0Du8, *y, *color],
            Command::LightColumn(x, color) => seq![0x0Cu8, *x, *color],
            Command::LightSingleRGB(location, color) => seq![
                0x0Bu8,
                location.note() as u8,
                channel(color.red),
                channel(color.green),
                channel(color.blue),
            ],
            Command::LightMultiRGB(leds) => seq![0x0Bu8] + rgb_led_bytes(carried(leds@)),
            Command::ScrollText { color, do_loop, text } => seq![
                0x14u8,
                *color,
                if *do_loop {
                    1u8
                } else {
                    0u8
                },
            ] + encode_utf8(text@),
            Command::SelectLayout(layout) => seq![0x22u8, layout.code()],
            Command::SetupFader { index, fader_type, color, init_value } => seq![
                0x2Bu8,
                *index,
                fader_type.code(),
                *color,
                *init_value,
            ],
        }
    }

    /// The message that carries the command.
    pub open spec fn wire(&self) -> Seq<u8> {
        sysex_frame(self.data())
    }

    /// Opcode and arguments of the command, or `InvalidLocation`.
    fn arguments(&self) -> (data: Result<Vec<u8>, Error>)
        ensures
            self.valid() ==> data is Ok && data->Ok_0@ == self.data(),
            !self.valid() ==> data == Err::<Vec<u8>, Error>(Error::InvalidLocation),
    {
        match self {
            Command::LightAll(color) => Ok(vec![0x0E, *color]),
            Command::LightSingle(location, color) => {
                let note: u8 = location.midi_note()?;
                Ok(vec![0x0A, note, *color])
            },
            Command::LightMulti(leds) => multi_arguments(leds),
            Command::FlashSingle(location, color) => {
                let note: u8 = location.midi_note()?;
                Ok(vec![0x23, 0, note, *color])
            },
            Command::PulseSingle(location, color) => {
                let note: u8 = location.midi_note()?;
                Ok(vec![0x28, 0, note, *color])
            },
            Command::LightRow(y, color) => Ok(vec![0x0D, *y, *color]),
            Command::LightColumn(x, color) => Ok(vec![0x0C, *x, *color]),
            Command::LightSingleRGB(location, color) => {
                let note: u8 = location.midi_note()?;
                Ok(vec![
                    0x0B,
                    note,
                    color.red / 4,
                    color.green / 4,
                    color.blue / 4,
                ])
            },
            Command::LightMultiRGB(leds) => multi_rgb_arguments(leds),
            Command::ScrollText { color, do_loop, text } => {
                let flag: u8 = if *do_loop {
                    1
                } else {
                    0
                };
                let mut data: Vec<u8> = vec![0x14, *color, flag];
                data.extend_from_slice(text.as_str().as_bytes());
                Ok(data)
            },
            Command::SelectLayout(layout) => Ok(vec![0x22, layout.value()]),
            Command::SetupFader { index, fader_type, color, init_value } => Ok(vec![0x2B, *index, fader_type.value(), *color, *init_value]),
        }
    }

    /// The bytes to send for the command. Fails with `InvalidLocation`, and
    /// yields no bytes, when a location in it is off the grid.
    pub fn encode(&self) -> (message: Result<Vec<u8>, Error>)
        ensures
            self.valid() ==> message is Ok && message->Ok_0@ == self.wire(),
            !self.valid() ==> message == Err::<Vec<u8>, Error>(Error::InvalidLocation),
    {
        let data = self.arguments()?;
        Ok(sysex_message(data.as_slice()))
    }
}

/// Opcode and arguments that light `leds`, of which the first 80 are carried.
fn multi_arguments(leds: &Vec<(Location, u8)>) -> (data: Result<Vec<u8>, Error>)
    ensures
        Command::LightMulti(*leds).valid() ==> data is Ok && data->Ok_0@ == Command::LightMulti(
            *leds,
        ).data(),
        !Command::LightMulti(*leds).valid() ==> data == Err::<Vec<u8>, Error>(
            Error::InvalidLocation,
        ),
{
    let mut data: Vec<u8> = vec![0x0A];
    let mut index: usize = 0;
    while index < leds.len()
        invariant
            index <= leds.len(),
            forall|i: int| 0 <= i < index ==> (#[trigger] leds@[i]).0.valid(),
            data@ == seq![0x0Au8] + led_bytes(carried(leds@.take(index as int))),
        decreases leds.len() - index,
    {
        let location = leds[index].0;
        let color: u8 = leds[index].1;
        let note: u8 = location.midi_note()?;
        if index < MAX_LEDS {
            data.push(note);
            data.push(color);
        }
        index += 1;
    }
    Ok(data)
}

/// Opcode and arguments that light `leds` in RGB, of which the first 80 are
/// carried.
fn multi_rgb_arguments(leds: &Vec<(Location, RGBColor)>) -> (data: Result<Vec<u8>, Error>)
    ensures
        Command::LightMultiRGB(*leds).valid() ==> data is Ok && data->Ok_0@
            == Command::LightMultiRGB(*leds).data(),
        !Command::LightMultiRGB(*leds).valid() ==> data == Err::<Vec<u8>, Error>(
            Error::InvalidLocation,
        ),
{
    let mut data: Vec<u8> = vec![0x0B];
    let mut index: usize = 0;
    while index < leds.len()
        invariant
            index <= leds.len(),
            forall|i: int| 0 <= i < index ==> (#[trigger] leds@[i]).0.valid(),
            data@ == seq![0x0Bu8] + rgb_led_bytes(carried(leds@.take(index as int))),
        decreases leds.len() - index,
    {
        let location = leds[index].0;
        let color = leds[index].1;
        let note: u8 = location.midi_note()?;
        if index < MAX_LEDS {
            data.push(note);
            data.push(color.red / 4);
            data.push(color.green / 4);
            data.push(color.blue / 4);
        }
        index += 1;
    }
    Ok(data)
}

/// The event that a message from the device reports: a press or a release of
/// the location its second byte addresses, by its third byte, the velocity.
/// Shorter messages and notes that address nothing report no event.
pub open spec fn event_of(message: Seq<u8>) -> Option<Event> {
    if message.len() < 3 {
        None
    } else {
        match location_of_note(message[1]) {
            Some(location) => Some(
                if message[2] == 0 {
                    Event::Release(location)
                } else {
                    Event::Press(location)
                },
            ),
            None => None,
        }
    }
}

/// Decodes one message received from the device. What faders send is not
/// told apart from notes: no message yields a `FaderUpdate`.
pub fn parse_message(message: &[u8]) -> (event: Option<Event>)
    ensures
        event == event_of(message@),
{
    if message.len() < 3 {
        return None;
    }
    let value: u8 = message[1];
    let velocity: u8 = message[2];
    match note_to_location(value) {
        Some(location) => {
            if velocity == 0 {
                Some(Event::Release(location))
            } else {
                Some(Event::Press(location))
            }
        },
        None => None,
    }
}

/// Every message opens with the device header and ends with the terminator;
/// between them stand the opcode and the arguments.
pub proof fn lemma_wire_is_framed(command: Command)
    ensures
        command.wire().len() == command.data().len() + 7,
        command.wire().subrange(0, 6) == header(),
        command.wire().subrange(6, 6 + command.data().len() as int) == command.data(),
        command.wire().last() == TERMINATOR,
{
}

/// A command to light many LEDs is sent as the command for its first 80: the
/// rest changes nothing on the wire, and the message never exceeds 168 bytes.
pub proof fn lemma_light_multi_is_truncated(leds: Vec<(Location, u8)>, kept: Vec<(Location, u8)>)
    requires
        kept@ == carried(leds@),
    ensures
        Command::LightMulti(leds).wire() == Command::LightMulti(kept).wire(),
        Command::LightMulti(leds).wire().len() == 8 + 2 * carried(leds@).len(),
        Command::LightMulti(leds).wire().len() <= 8 + 2 * MAX_LEDS,
{
}

/// A command to light many LEDs in RGB is sent as the command for its first
/// 80: the rest changes nothing on the wire, and the message never exceeds
/// 328 bytes.
pub proof fn lemma_light_multi_rgb_is_truncated(
    leds: Vec<(Location, RGBColor)>,
    kept: Vec<(Location, RGBColor)>,
)
    requires
        kept@ == carried(leds@),
    ensures
        Command::LightMultiRGB(leds).wire() == Command::LightMultiRGB(kept).wire(),
        Command::LightMultiRGB(leds).wire().len() == 8 + 4 * carried(leds@).len(),
        Command::LightMultiRGB(leds).wire().len() <= 8 + 4 * MAX_LEDS,
{
}

/// An ASCII text is scrolled as its characters, one byte each, after the
/// colour and the loop flag.
pub proof fn lemma_scroll_text_is_ascii(color: u8, do_loop: bool, text: String)
    requires
        is_ascii_chars(text@),
    ensures
        (Command::ScrollText { color, do_loop, text }).data() == seq![
            0x14u8,
            color,
            if do_loop {
                1u8
            } else {
                0u8
            },
        ] + Seq::new(text@.len(), |i: int| text@[i] as u8),
{
    is_ascii_chars_encode_utf8(text@);
}

/// A message that carries the note of a location on the grid reports that
/// location: released at velocity zero, pressed at any other. What the first
/// byte holds does not matter.
pub proof fn lemma_event_of_location(status: u8, location: Location, velocity: u8)
    requires
        location.valid(),
    ensures
        event_of(seq![status, location.note() as u8, velocity]) == Some(
            if velocity == 0 {
                Event::Release(location)
            } else {
                Event::Press(location)
            },
        ),
{
    lemma_note_round_trip(location);
}

/// Every event that a message reports is a press or a release of a location
/// on the grid.
pub proof fn lemma_event_is_on_grid(message: Seq<u8>)
    ensures
        match event_of(message) {
            Some(Event::Press(location)) => location.valid() && location.note() == message[1],
            Some(Event::Release(location)) => location.valid() && location.note() == message[1],
            Some(Event::FaderUpdate(_, _)) => false,
            None => true,
        },
{
    if message.len() >= 3 {
        lemma_location_of_note_sound(message[1]);
    }
}

} // verus!
