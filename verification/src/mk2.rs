//! The Launchpad MK2 by the names its users know: locations, events,
//! layouts and the commands of the device, gathered from the modules that
//! define them.

pub use crate::codec::{
    parse_message, sysex_message, Command, Event, FaderType, Layout, Mk2Event, SCROLL_FAST,
    SCROLL_FASTER, SCROLL_FASTEST, SCROLL_NORMAL, SCROLL_SLOW, SCROLL_SLOWER, SCROLL_SLOWEST,
};
pub use crate::discovery::MK2_NAME;
pub use crate::events::EventBuffer;
pub use crate::location::{
    button_position, note_to_location, pad_position, ButtonSide, Location,
};
