use vstd::prelude::*;

use crate::altitude::{altitude_parsed, altitude_readable, Altitude};
use crate::body::{body_resolvable, body_resolved, resolve_body, BodyRadius};
use crate::error::BuildParametersError;
use crate::ratio::{ratio_parsed, ratio_readable, Ratio};

verus! {

/// The parameters of a resonance, read and checked: what the orbit
/// computation starts from.
#[derive(Debug)]
pub struct Parameters {
    pub ratio: Ratio,
    pub altitude: Altitude,
    pub body: BodyRadius,
}

/// The characters of an optional text.
pub open spec fn opt_view(t: Option<&str>) -> Option<Seq<char>> {
    match t {
        Some(x) => Some(x@),
        None => None,
    }
}

impl Parameters {
    /// Reads the altitude, then the ratio, then resolves the body, and
    /// stops at the first failure.
    ///
    /// `altitude_number` and `body_number` tell whether the altitude and the
    /// body reference each read as one number.
    pub fn build(
        altitude: &str,
        altitude_number: bool,
        ratio: &str,
        body: Option<&str>,
        body_number: bool,
    ) -> (r: Result<Self, BuildParametersError>)
        ensures
            match r {
                Ok(p) => {
                    &&& altitude_parsed(altitude@, altitude_number, Ok(p.altitude))
                    &&& ratio_parsed(ratio@, Ok(p.ratio))
                    &&& body_resolved(opt_view(body), body_number, Ok(p.body))
                },
                Err(BuildParametersError::Altitude(e)) => {
                    &&& !altitude_readable(altitude@, altitude_number)
                    &&& altitude_parsed(altitude@, altitude_number, Err(e))
                },
                Err(BuildParametersError::Ratio(e)) => {
                    &&& altitude_readable(altitude@, altitude_number)
                    &&& !ratio_readable(ratio@)
                    &&& ratio_parsed(ratio@, Err(e))
                },
                Err(BuildParametersError::Body(name)) => {
                    &&& altitude_readable(altitude@, altitude_number)
                    &&& ratio_readable(ratio@)
                    &&& !body_resolvable(opt_view(body), body_number)
                    &&& body_resolved(
                        opt_view(body),
                        body_number,
                        Err(BuildParametersError::Body(name)),
                    )
                },
                Err(BuildParametersError::Period(_)) => false,
            },
    {
        let altitude = match Altitude::parse(altitude, altitude_number) {
            Ok(a) => a,
            Err(e) => return Err(BuildParametersError::from(e)),
        };
        let ratio = match Ratio::parse(ratio) {
            Ok(q) => q,
            Err(e) => return Err(BuildParametersError::from(e)),
        };
        let body = match resolve_body(body, body_number) {
            Ok(b) => b,
            Err(e) => return Err(e),
        };
        Ok(Parameters { ratio, altitude, body })
    }
}

} // verus!
