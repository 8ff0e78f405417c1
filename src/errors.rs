//! Errors raised while interpreting the data the remote API returns.

use vstd::prelude::*;

use crate::text::message_with_text;

verus! {

/// A timetable that could not be interpreted, with the reason.
#[derive(Debug)]
pub struct RouteTimetableParseError {
    pub reason: String,
}

impl RouteTimetableParseError {
    pub fn new(reason: String) -> (r: Self)
        ensures
            r.reason@ == reason@,
    {
        Self { reason }
    }

    /// The message that explains the error.
    pub fn to_string(&self) -> (r: String)
        ensures
            r@ == "Could not parse timetable: "@ + self.reason@,
    {
        message_with_text("Could not parse timetable: ", self.reason.as_str())
    }
}

/// A route label that does not follow the route grammar.
#[derive(Debug)]
pub struct RouteNameParseError {
    pub route_name: String,
}

impl RouteNameParseError {
    pub fn new(route_name: String) -> (r: Self)
        ensures
            r.route_name@ == route_name@,
    {
        Self { route_name }
    }

    /// The message that explains the error.
    pub fn to_string(&self) -> (r: String)
        ensures
            r@ == "Invalid bus route name: "@ + self.route_name@,
    {
        message_with_text("Invalid bus route name: ", self.route_name.as_str())
    }
}

} // verus!
