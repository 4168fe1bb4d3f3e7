//! The value type, the features that select its provider, and the provider
//! that is selected.

use vstd::prelude::*;
use crate::host::{fmt_details_from_display, DisplayText, ShowDetails, ShowDetailsFromDisplay};
use crate::sink::{FormatError, Sink};

verus! {

/// What the value displays as, and what its details are unless overridden.
pub const INNOCUOUS: &'static str = "Innocuous delegation from derived display impl";

/// The details of the override where specialization is enabled.
pub const HOSTILE: &'static str = "Hostile takeover from new ShowDetails impl";

/// The details of the override where specialization is not enabled.
pub const NORMAL: &'static str = "Normal takeover from new ShowDetails impl";

/// The length of the longest of the three lines, in characters.
pub const LONGEST_LINE: usize = 46;

/// The features a build can ask for.
#[derive(Clone, Copy, Debug, PartialEq, Eq)]
pub struct Features {
    /// The value overrides the capability itself.
    pub with_override: bool,
    /// The value gets the capability through the adapter.
    pub with_alternative: bool,
    /// Specialization is enabled.
    pub with_specialization: bool,
}

/// The provider that serves the value. Exactly one is in force.
#[derive(Clone, Copy, Debug, PartialEq, Eq)]
pub enum Resolution {
    /// No provider of the value's own: the blanket provider serves it.
    BlanketViaDisplay,
    /// The value's own override.
    DirectOverride,
    /// The adapter, wrapped around the value.
    DelegatedViaAdapter,
}

/// The error of a selection that asks for the override and the alternative at
/// once: two providers would serve one value.
#[derive(Clone, Copy, Debug, PartialEq, Eq)]
pub struct ConflictingFeatures;

impl Features {
    /// Whether the selection names two providers for the value.
    pub open spec fn conflicting(self) -> bool {
        self.with_override && self.with_alternative
    }

    /// The provider that a selection without conflict puts in force.
    pub open spec fn resolution(self) -> Resolution {
        if self.with_override {
            Resolution::DirectOverride
        } else if self.with_alternative {
            Resolution::DelegatedViaAdapter
        } else {
            Resolution::BlanketViaDisplay
        }
    }

    /// The line that a build with this selection prints.
    pub open spec fn output(self) -> Seq<char> {
        if !self.with_override {
            INNOCUOUS@
        } else if self.with_specialization {
            HOSTILE@
        } else {
            NORMAL@
        }
    }

    /// Decides which provider serves the value, and refuses a selection that
    /// names two.
    pub fn resolve(self) -> (res: Result<Resolution, ConflictingFeatures>)
        ensures
            self.conflicting() <==> res is Err,
            res matches Ok(resolution) ==> resolution == self.resolution(),
    {
        if self.with_override && self.with_alternative {
            Err(ConflictingFeatures)
        } else if self.with_override {
            Ok(Resolution::DirectOverride)
        } else if self.with_alternative {
            Ok(Resolution::DelegatedViaAdapter)
        } else {
            Ok(Resolution::BlanketViaDisplay)
        }
    }
}

/// The lengths of the three lines, in characters. None is longer than
/// `LONGEST_LINE`.
pub proof fn lemma_line_lengths()
    ensures
        INNOCUOUS@.len() == 46,
        HOSTILE@.len() == 42,
        NORMAL@.len() == 41,
        forall|features: Features| #[trigger] features.output().len() <= LONGEST_LINE,
{
    reveal_strlit("Innocuous delegation from derived display impl");
    reveal_strlit("Hostile takeover from new ShowDetails impl");
    reveal_strlit("Normal takeover from new ShowDetails impl");
}

/// The value type: a marker with a fixed display text, served by the provider
/// it was built with.
#[derive(Clone, Copy, Debug, PartialEq, Eq)]
pub struct FizzBuzzer {
    resolution: Resolution,
    specialized: bool,
}

impl FizzBuzzer {
    /// The provider that serves this value.
    pub closed spec fn spec_resolution(&self) -> Resolution {
        self.resolution
    }

    /// Whether the value was built with specialization enabled.
    pub closed spec fn spec_specialized(&self) -> bool {
        self.specialized
    }

    /// The value as built with no feature: the blanket provider serves it.
    pub fn new() -> (value: FizzBuzzer)
        ensures
            value.spec_resolution() == Resolution::BlanketViaDisplay,
            !value.spec_specialized(),
    {
        FizzBuzzer { resolution: Resolution::BlanketViaDisplay, specialized: false }
    }

    /// The value as built with `features`, unless they conflict.
    pub fn with_features(features: Features) -> (res: Result<FizzBuzzer, ConflictingFeatures>)
        ensures
            features.conflicting() <==> res is Err,
            res matches Ok(value) ==> {
                &&& value.spec_resolution() == features.resolution()
                &&& value.spec_specialized() == features.with_specialization
                &&& value.details() == features.output()
            },
    {
        match features.resolve() {
            Ok(resolution) => Ok(
                FizzBuzzer { resolution, specialized: features.with_specialization },
            ),
            Err(conflict) => Err(conflict),
        }
    }

    /// The provider that serves this value.
    #[verifier::when_used_as_spec(spec_resolution)]
    pub fn resolution(&self) -> (resolution: Resolution)
        ensures
            resolution == self.spec_resolution(),
    {
        self.resolution
    }

    /// Whether the value was built with specialization enabled.
    #[verifier::when_used_as_spec(spec_specialized)]
    pub fn specialized(&self) -> (specialized: bool)
        ensures
            specialized == self.spec_specialized(),
    {
        self.specialized
    }
}

impl DisplayText for FizzBuzzer {
    open spec fn text(&self) -> Seq<char> {
        INNOCUOUS@
    }

    fn fmt(&self, sink: &mut Sink) -> (res: Result<(), FormatError>) {
        sink.write_str(INNOCUOUS)
    }
}

impl ShowDetails for FizzBuzzer {
    open spec fn details(&self) -> Seq<char> {
        match self.resolution() {
            Resolution::DirectOverride => if self.specialized() {
                HOSTILE@
            } else {
                NORMAL@
            },
            Resolution::BlanketViaDisplay | Resolution::DelegatedViaAdapter => self.text(),
        }
    }

    fn fmt_details(&self, sink: &mut Sink) -> (res: Result<(), FormatError>) {
        match self.resolution {
            Resolution::BlanketViaDisplay => fmt_details_from_display(self, sink),
            Resolution::DirectOverride => {
                if self.specialized {
                    sink.write_str(HOSTILE)
                } else {
                    sink.write_str(NORMAL)
                }
            },
            Resolution::DelegatedViaAdapter => {
                ShowDetailsFromDisplay::ref_cast(self).fmt_details(sink)
            },
        }
    }
}

} // verus!
