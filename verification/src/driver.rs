//! The driver: builds the value, holds it in a container, and renders the
//! container as the one line to print.

use vstd::prelude::*;
use crate::host::ShowDetails;
use crate::sink::{wrote, FormatError, Sink};
use crate::value::{lemma_line_lengths, Features, FizzBuzzer, LONGEST_LINE};

verus! {

/// Holds one value. The container renders as the details of what it holds.
pub struct Context {
    /// The value held.
    pub s: FizzBuzzer,
}

impl Context {
    /// Writes the details of the value held to `sink`, whole or not at all.
    pub fn fmt(&self, sink: &mut Sink) -> (res: Result<(), FormatError>)
        ensures
            wrote(*old(sink), *final(sink), self.s.details(), res),
    {
        <FizzBuzzer as ShowDetails>::fmt_details(&self.s, sink)
    }
}

/// Why a run wrote nothing.
#[derive(Clone, Copy, Debug, PartialEq, Eq)]
pub enum RunError {
    /// The features ask for the override and the alternative at once.
    ConflictingFeatures,
    /// The sink had no room for the line.
    Format,
}

/// Relates a sink before and after a run with `features` that answered `res`.
///
/// Conflicting features are refused before anything is written. Otherwise the
/// run writes the line of the features, whole or not at all.
pub open spec fn ran(features: Features, pre: Sink, post: Sink, res: Result<(), RunError>) -> bool {
    if features.conflicting() {
        &&& res == Err::<(), RunError>(RunError::ConflictingFeatures)
        &&& post == pre
    } else if features.output().len() <= pre.room() {
        &&& res is Ok
        &&& post@ == pre@ + features.output()
        &&& post.room() == pre.room() - features.output().len()
    } else {
        &&& res == Err::<(), RunError>(RunError::Format)
        &&& post == pre
    }
}

/// Builds the value that `features` select, wraps it in a container and
/// renders the container into `sink`.
pub fn run(features: Features, sink: &mut Sink) -> (res: Result<(), RunError>)
    ensures
        ran(features, *old(sink), *final(sink), res),
{
    match FizzBuzzer::with_features(features) {
        Ok(s) => {
            let ctx = Context { s };
            match ctx.fmt(sink) {
                Ok(()) => Ok(()),
                Err(_) => Err(RunError::Format),
            }
        },
        Err(_) => Err(RunError::ConflictingFeatures),
    }
}

/// A sink with room for the longest line has room for every line: a run into
/// it fails on conflicting features and on nothing else.
pub proof fn lemma_run_has_room(
    features: Features,
    pre: Sink,
    post: Sink,
    res: Result<(), RunError>,
)
    requires
        ran(features, pre, post, res),
        pre.room() >= LONGEST_LINE,
    ensures
        features.conflicting() ==> res == Err::<(), RunError>(RunError::ConflictingFeatures),
        !features.conflicting() ==> res is Ok && post@ == pre@ + features.output(),
{
    lemma_line_lengths();
}

/// A run depends on nothing but the features and the sink it is handed: two
/// runs with the same features, into sinks that hold the same text and have
/// the same room, answer alike and leave the same text and the same room.
pub proof fn lemma_run_idempotent(
    features: Features,
    pre1: Sink,
    post1: Sink,
    res1: Result<(), RunError>,
    pre2: Sink,
    post2: Sink,
    res2: Result<(), RunError>,
)
    requires
        ran(features, pre1, post1, res1),
        ran(features, pre2, post2, res2),
        pre1@ == pre2@,
        pre1.room() == pre2.room(),
    ensures
        res1 == res2,
        post1@ == post2@,
        post1.room() == post2.room(),
{
    if res1 is Ok {
        assert(res1->Ok_0 == res2->Ok_0);
    }
}

} // verus!
