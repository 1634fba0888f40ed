//! The ways in which an operation of the library is refused.
use vstd::prelude::*;

verus! {

/// Why an operation was refused.
#[derive(Clone, Copy, Debug, PartialEq, Eq, Structural)]
pub enum DecoError {
    /// A depth lies outside what the operation accepts.
    InputOutOfRange,
    /// A stop is needed deeper than the schedule has slots for.
    ScheduleCapacityExceeded,
    /// A stop would be assigned to a slot that already holds one, or the
    /// loading cannot be brought under the table at the stop.
    ScheduleConsistency,
    /// The fractions of a gas mix add up to more than one.
    GasComposition,
    /// A change of gas would bring isobaric counterdiffusion.
    IcdPrecondition,
}

impl DecoError {
    /// The text that `reason` hands out.
    pub open spec fn reason_text(self) -> Seq<char> {
        match self {
            DecoError::InputOutOfRange => "Depth is out of range."@,
            DecoError::ScheduleCapacityExceeded => "Not enough space to store stops for this dive."@,
            DecoError::ScheduleConsistency => "Attempting to override / repeat stop."@,
            DecoError::GasComposition => "FO2 + FHe should be <= 1"@,
            DecoError::IcdPrecondition => "Gas change would cause isobaric counterdiffusion."@,
        }
    }

    /// A short text for the error.
    pub fn reason(&self) -> (r: &'static str)
        ensures
            r@ == self.reason_text(),
    {
        match self {
            DecoError::InputOutOfRange => "Depth is out of range.",
            DecoError::ScheduleCapacityExceeded => "Not enough space to store stops for this dive.",
            DecoError::ScheduleConsistency => "Attempting to override / repeat stop.",
            DecoError::GasComposition => "FO2 + FHe should be <= 1",
            DecoError::IcdPrecondition => "Gas change would cause isobaric counterdiffusion.",
        }
    }
}

} // verus!
