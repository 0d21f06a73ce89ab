use vstd::prelude::*;
use vstd::string::{to_string_from_display_ensures, StringExecFns};

use crate::altitude::{EmptyNumber, ParseAltitudeError};
use crate::ratio::ParseRatioError;
use crate::two_part::ParseTwoErr;

verus! {

/// std's `ParseFloatError`, carried opaque as the cause of a period that
/// is not a number.
#[verifier::external_type_specification]
#[verifier::external_body]
pub struct ExParseFloatError(std::num::ParseFloatError);

/// Why the parameters of a resonance could not be put together.
#[derive(Debug)]
pub enum BuildParametersError {
    Altitude(ParseAltitudeError),
    /// The orbital period is not a number.
    Period(std::num::ParseFloatError),
    Ratio(ParseRatioError),
    /// A body reference that is neither a number nor a known name.
    Body(String),
}

/// The text that explains a failure to read two numbers, given the text
/// that explains a piece that is not a number.
pub open spec fn two_part_text<E>(e: ParseTwoErr<E>, parse_text: Seq<char>) -> Seq<char> {
    match e {
        ParseTwoErr::Parse(_) => parse_text,
        ParseTwoErr::MissingSegment => "invalid format (missing segment)"@,
        ParseTwoErr::TooManyParts => "invalid format (too many segments)"@,
    }
}

/// The text that explains a piece of an altitude that holds no number.
pub open spec fn empty_number_text() -> Seq<char> {
    "cannot parse float from empty string"@
}

fn two_part_message<E>(e: &ParseTwoErr<E>, parse_text: &str) -> (r: String)
    ensures
        r@ == two_part_text(*e, parse_text@),
{
    match e {
        ParseTwoErr::Parse(_) => parse_text.to_owned(),
        ParseTwoErr::MissingSegment => "invalid format (missing segment)".to_owned(),
        ParseTwoErr::TooManyParts => "invalid format (too many segments)".to_owned(),
    }
}

impl BuildParametersError {
    /// The message that tells a user what went wrong. A std parse error in
    /// it reads as that error's own text.
    pub fn message(&self) -> (r: String)
        ensures
            match self {
                BuildParametersError::Altitude(ParseAltitudeError(e)) => r@ == "Bad altitude: "@
                    + two_part_text(*e, empty_number_text()),
                BuildParametersError::Period(e) => exists|t: String|
                    #[trigger] to_string_from_display_ensures::<std::num::ParseFloatError>(e, t)
                        && r@ == "Bad orbital period: "@ + t@,
                BuildParametersError::Ratio(ParseRatioError(ParseTwoErr::Parse(e))) => exists|
                    t: String,
                |
                    #[trigger] to_string_from_display_ensures::<std::num::ParseIntError>(e, t)
                        && r@ == "Bad ratio: "@ + t@,
                BuildParametersError::Ratio(ParseRatioError(e)) => r@ == "Bad ratio: "@
                    + two_part_text(*e, Seq::<char>::empty()),
                BuildParametersError::Body(name) => r@ == "Body not found: "@ + name@,
            },
    {
        match self {
            BuildParametersError::Altitude(ParseAltitudeError(e)) => {
                let text = two_part_message::<EmptyNumber>(e, "cannot parse float from empty string");
                "Bad altitude: ".to_owned().concat(text.as_str())
            },
            BuildParametersError::Period(e) => {
                let t = e.to_string();
                "Bad orbital period: ".to_owned().concat(t.as_str())
            },
            BuildParametersError::Ratio(ParseRatioError(ParseTwoErr::Parse(e))) => {
                let t = e.to_string();
                "Bad ratio: ".to_owned().concat(t.as_str())
            },
            BuildParametersError::Ratio(ParseRatioError(e)) => {
                let text = two_part_message(e, "");
                "Bad ratio: ".to_owned().concat(text.as_str())
            },
            BuildParametersError::Body(name) => "Body not found: ".to_owned().concat(name.as_str()),
        }
    }
}

impl From<ParseAltitudeError> for BuildParametersError {
    fn from(e: ParseAltitudeError) -> (r: Self)
        ensures
            r == BuildParametersError::Altitude(e),
    {
        BuildParametersError::Altitude(e)
    }
}

impl vstd::std_specs::convert::FromSpecImpl<ParseAltitudeError> for BuildParametersError {
    open spec fn obeys_from_spec() -> bool {
        true
    }

    open spec fn from_spec(e: ParseAltitudeError) -> Self {
        BuildParametersError::Altitude(e)
    }
}

impl From<std::num::ParseFloatError> for BuildParametersError {
    fn from(e: std::num::ParseFloatError) -> (r: Self)
        ensures
            r == BuildParametersError::Period(e),
    {
        BuildParametersError::Period(e)
    }
}

impl vstd::std_specs::convert::FromSpecImpl<std::num::ParseFloatError> for BuildParametersError {
    open spec fn obeys_from_spec() -> bool {
        true
    }

    open spec fn from_spec(e: std::num::ParseFloatError) -> Self {
        BuildParametersError::Period(e)
    }
}

impl From<ParseRatioError> for BuildParametersError {
    fn from(e: ParseRatioError) -> (r: Self)
        ensures
            r == BuildParametersError::Ratio(e),
    {
        BuildParametersError::Ratio(e)
    }
}

impl vstd::std_specs::convert::FromSpecImpl<ParseRatioError> for BuildParametersError {
    open spec fn obeys_from_spec() -> bool {
        true
    }

    open spec fn from_spec(e: ParseRatioError) -> Self {
        BuildParametersError::Ratio(e)
    }
}

} // verus!
