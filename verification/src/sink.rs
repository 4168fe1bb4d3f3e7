//! A bounded sink for text, and what a write does to it.

use vstd::prelude::*;

verus! {

/// The error of a write: the sink had no room for the text.
#[derive(Clone, Copy, Debug, PartialEq, Eq)]
pub struct FormatError;

/// Collects text up to a fixed number of characters.
///
/// Its view is the text written so far. A write is all or nothing: text that
/// does not fit is refused and the sink stays as it was.
pub struct Sink {
    text: String,
    room: usize,
}

impl View for Sink {
    type V = Seq<char>;

    closed spec fn view(&self) -> Seq<char> {
        self.text@
    }
}

/// Relates a sink before and after a write of `text` that answered `res`.
///
/// The write succeeds exactly when `text` fits in the room that is left. It
/// then appends `text` and uses up as much room; otherwise nothing changes.
pub open spec fn wrote(pre: Sink, post: Sink, text: Seq<char>, res: Result<(), FormatError>) -> bool {
    if text.len() <= pre.room() {
        &&& res is Ok
        &&& post@ == pre@ + text
        &&& post.room() == pre.room() - text.len()
    } else {
        &&& res is Err
        &&& post == pre
    }
}

impl Sink {
    /// How many more characters the sink takes.
    pub closed spec fn room(&self) -> nat {
        self.room as nat
    }

    /// An empty sink with as much room as a `usize` can count.
    pub fn new() -> (sink: Sink)
        ensures
            sink@ == Seq::<char>::empty(),
            sink.room() == usize::MAX,
    {
        Sink { text: String::new(), room: usize::MAX }
    }

    /// An empty sink that takes `capacity` characters.
    pub fn with_capacity(capacity: usize) -> (sink: Sink)
        ensures
            sink@ == Seq::<char>::empty(),
            sink.room() == capacity,
    {
        Sink { text: String::new(), room: capacity }
    }

    /// Appends `s` if it fits, and refuses it otherwise.
    pub fn write_str(&mut self, s: &str) -> (res: Result<(), FormatError>)
        ensures
            wrote(*old(self), *final(self), s@, res),
    {
        let n: usize = s.unicode_len();
        if n <= self.room {
            self.text.append(s);
            self.room = self.room - n;
            Ok(())
        } else {
            Err(FormatError)
        }
    }

    /// The number of characters that still fit.
    pub fn remaining(&self) -> (n: usize)
        ensures
            n == self.room(),
    {
        self.room
    }

    /// The text written so far.
    pub fn as_str(&self) -> (text: &str)
        ensures
            text@ == self@,
    {
        self.text.as_str()
    }

    /// Gives up the sink for the text written so far.
    pub fn into_string(self) -> (text: String)
        ensures
            text@ == self@,
    {
        self.text
    }
}

} // verus!
