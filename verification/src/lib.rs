//! Resolution of one capability, "show details", among three providers.
//!
//! A value that can display itself as text gets its details from one of three
//! places: the blanket provider, which repeats the display text; an override of
//! the value's own; or an adapter that wraps the value and forwards to its
//! display. Which one is in force is decided once, from a selection of
//! features, and an ambiguous selection is refused.

pub mod driver;
pub mod host;
pub mod sink;
pub mod value;

pub use crate::driver::{run, Context, RunError};
pub use crate::host::{fmt_details_from_display, DisplayText, ShowDetails, ShowDetailsFromDisplay};
pub use crate::sink::{FormatError, Sink};
pub use crate::value::{
    ConflictingFeatures, Features, FizzBuzzer, Resolution, HOSTILE, INNOCUOUS, LONGEST_LINE, NORMAL,
};
