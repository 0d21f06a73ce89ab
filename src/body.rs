use vstd::prelude::*;

use crate::error::BuildParametersError;
use crate::text::{lower_of, lowercase, same_text};

verus! {

/// The radius of the Earth, in meters: the body orbited unless another is
/// named.
pub const EARTH_RADIUS: u64 = 6_378_137;

/// The radius of Kerbin, in meters.
pub const KERBIN_RADIUS: u64 = 600_000;

/// The radius of the body called `t` (in lower case), if it is known.
pub open spec fn known_radius(t: Seq<char>) -> Option<u64> {
    if t == "kerbin"@ {
        Some(KERBIN_RADIUS)
    } else {
        None
    }
}

/// The radius of the body whose name, already in lower case, is `l`.
pub fn radius_of_lowered(l: &str) -> (r: Option<u64>)
    ensures
        r == known_radius(l@),
{
    if same_text(l, "kerbin") {
        Some(KERBIN_RADIUS)
    } else {
        None
    }
}

/// The radius of the orbited body, in meters: a known one, or the text of
/// the number that was given.
#[derive(Debug)]
pub enum BodyRadius {
    Meters(u64),
    Given(String),
}

/// Looks a body up by its name, in any case.
pub fn get_body_radius(name: &str) -> (r: Result<u64, BuildParametersError>)
    ensures
        match known_radius(lower_of(name@)) {
            Some(v) => r == Ok::<u64, BuildParametersError>(v),
            None => r matches Err(BuildParametersError::Body(n)) && n@ == name@,
        },
{
    let lowered = lowercase(name);
    match radius_of_lowered(lowered.as_str()) {
        Some(v) => Ok(v),
        None => Err(BuildParametersError::Body(name.to_owned())),
    }
}

/// Whether a body reference can be resolved.
pub open spec fn body_resolvable(body: Option<Seq<char>>, number: bool) -> bool {
    match body {
        None => true,
        Some(t) => number || known_radius(lower_of(t)) is Some,
    }
}

/// What resolving the body reference `body` gives.
pub open spec fn body_resolved(
    body: Option<Seq<char>>,
    number: bool,
    r: Result<BodyRadius, BuildParametersError>,
) -> bool {
    match body {
        None => r matches Ok(BodyRadius::Meters(v)) && v == EARTH_RADIUS,
        Some(t) => if number {
            r matches Ok(BodyRadius::Given(g)) && g@ == t
        } else {
            match known_radius(lower_of(t)) {
                Some(v) => r matches Ok(BodyRadius::Meters(m)) && m == v,
                None => r matches Err(BuildParametersError::Body(n)) && n@ == t,
            }
        },
    }
}

/// Resolves an optional body reference: none means the Earth, a number is
/// a radius in meters, and anything else is a body's name.
///
/// `number` tells whether the reference reads as a number.
pub fn resolve_body(body: Option<&str>, number: bool) -> (r: Result<BodyRadius, BuildParametersError>)
    ensures
        body_resolved(
            match body {
                Some(t) => Some(t@),
                None => None,
            },
            number,
            r,
        ),
{
    match body {
        None => Ok(BodyRadius::Meters(EARTH_RADIUS)),
        Some(t) => if number {
            Ok(BodyRadius::Given(t.to_owned()))
        } else {
            match get_body_radius(t) {
                Ok(v) => Ok(BodyRadius::Meters(v)),
                Err(e) => Err(e),
            }
        },
    }
}

} // verus!
