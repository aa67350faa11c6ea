//! Flight conditions an aircraft can be trimmed for.

use vstd::prelude::*;

verus! {

/// The flight condition an aircraft is trimmed for.
#[derive(Debug, Clone, Copy, PartialEq, Eq, Structural)]
pub enum FlightCondition {
    WingsLevel,
    Turning,
    PullUp,
    Roll,
}

/// The displayed name of a flight condition.
pub open spec fn flight_condition_text(c: FlightCondition) -> Seq<char> {
    match c {
        FlightCondition::WingsLevel => "wings level"@,
        FlightCondition::Turning => "turning"@,
        FlightCondition::PullUp => "pull up"@,
        FlightCondition::Roll => "roll"@,
    }
}

impl FlightCondition {
    /// The displayed name of the flight condition.
    pub fn to_string(&self) -> (s: &'static str)
        ensures
            s@ == flight_condition_text(*self),
    {
        match self {
            FlightCondition::WingsLevel => "wings level",
            FlightCondition::Turning => "turning",
            FlightCondition::PullUp => "pull up",
            FlightCondition::Roll => "roll",
        }
    }
}

impl Default for FlightCondition {
    /// Wings-level flight.
    fn default() -> (c: Self)
        ensures
            c == FlightCondition::WingsLevel,
    {
        FlightCondition::WingsLevel
    }
}

} // verus!
