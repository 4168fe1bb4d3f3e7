//! The capability, its blanket provider, and the adapter that stands in for it.

use vstd::prelude::*;
use crate::sink::{wrote, FormatError, Sink};

verus! {

/// A value with a display text.
pub trait DisplayText {
    /// The text the value displays as.
    spec fn text(&self) -> Seq<char>;

    /// Writes the display text to `sink`, whole or not at all.
    fn fmt(&self, sink: &mut Sink) -> (res: Result<(), FormatError>)
        ensures
            wrote(*old(sink), *final(sink), self.text(), res),
    ;
}

/// The capability: a value that can show its details.
pub trait ShowDetails {
    /// The details the value shows.
    spec fn details(&self) -> Seq<char>;

    /// Writes the details to `sink`, whole or not at all.
    fn fmt_details(&self, sink: &mut Sink) -> (res: Result<(), FormatError>)
        ensures
            wrote(*old(sink), *final(sink), self.details(), res),
    ;
}

/// A borrowed value displays as the value does.
impl<'a, T: DisplayText> DisplayText for &'a T {
    open spec fn text(&self) -> Seq<char> {
        (**self).text()
    }

    fn fmt(&self, sink: &mut Sink) -> (res: Result<(), FormatError>) {
        (**self).fmt(sink)
    }
}

/// The blanket provider: the details of any value with a display text are
/// that text. It is the fallback for a value with no provider of its own.
pub fn fmt_details_from_display<T: DisplayText>(
    value: &T,
    sink: &mut Sink,
) -> (res: Result<(), FormatError>)
    ensures
        wrote(*old(sink), *final(sink), value.text(), res),
{
    value.fmt(sink)
}

/// Adapts a value with a display text into one that shows details: the
/// details of the wrapper are the display text of what it wraps.
pub struct ShowDetailsFromDisplay<T>(T);

impl<T> ShowDetailsFromDisplay<T> {
    /// The wrapped value.
    pub closed spec fn inner(&self) -> T {
        self.0
    }
}

impl<'a, T> ShowDetailsFromDisplay<&'a T> {
    /// Views a borrowed value as wrapped. Nothing is copied: the wrapper holds
    /// the borrow.
    pub fn ref_cast(from: &'a T) -> (wrapped: Self)
        ensures
            wrapped.inner() == from,
    {
        ShowDetailsFromDisplay(from)
    }
}

impl<T: DisplayText> ShowDetails for ShowDetailsFromDisplay<T> {
    open spec fn details(&self) -> Seq<char> {
        self.inner().text()
    }

    fn fmt_details(&self, sink: &mut Sink) -> (res: Result<(), FormatError>) {
        self.0.fmt(sink)
    }
}

} // verus!
