use vstd::prelude::*;

use crate::two_part::{
    all_digits, digits_value, is_digit, lemma_segments_of_pair, parse_two, reads_as_i32, segments,
    two_part_outcome, ParseTwoErr,
};

verus! {

/// Whether a ratio text can be read: two pieces, each an `i32`.
pub open spec fn ratio_readable(s: Seq<char>) -> bool {
    segments(s).len() == 2 && reads_as_i32(segments(s)[0]) && reads_as_i32(segments(s)[1])
}

/// What reading the ratio text `s` gives.
pub open spec fn ratio_parsed(s: Seq<char>, r: Result<Ratio, ParseRatioError>) -> bool {
    &&& two_part_outcome(
        segments(s),
        |t: Seq<char>| reads_as_i32(t),
        match r {
            Ok(q) => Ok(q),
            Err(ParseRatioError(e)) => Err(e),
        },
    )
    &&& r is Ok ==> r->Ok_0.numer as int == digits_value(segments(s)[0]) && r->Ok_0.denom as int
        == digits_value(segments(s)[1])
}

/// A resonance between a desired orbital period and the current one,
/// written `numer:denom`.
#[derive(Clone, Copy, Debug, PartialEq, Eq)]
pub struct Ratio {
    pub numer: i32,
    pub denom: i32,
}

impl Ratio {
    /// The desired period is longer than the current one.
    pub open spec fn greater_than_one(self) -> bool {
        self.numer > self.denom
    }

    pub fn new(numer: i32, denom: i32) -> (r: Self)
        ensures
            r.numer == numer,
            r.denom == denom,
    {
        Self { numer, denom }
    }

    /// Whether the desired period is longer than the current one, which
    /// decides that the apoapsis (and not the periapsis) is recomputed.
    pub fn is_greater_than_one(&self) -> (r: bool)
        ensures
            r == self.greater_than_one(),
    {
        self.numer > self.denom
    }

    /// Reads a ratio written `numer:denom` (any run of non-digit characters
    /// may separate the two integers).
    pub fn parse(s: &str) -> (r: Result<Self, ParseRatioError>)
        ensures
            ratio_parsed(s@, r),
    {
        match parse_two(s) {
            Ok((numer, denom)) => Ok(Ratio { numer, denom }),
            Err(e) => Err(ParseRatioError::from(e)),
        }
    }
}

/// A ratio that could not be read.
#[derive(Debug)]
pub struct ParseRatioError(pub ParseTwoErr<std::num::ParseIntError>);

impl From<ParseTwoErr<std::num::ParseIntError>> for ParseRatioError {
    fn from(e: ParseTwoErr<std::num::ParseIntError>) -> (r: Self)
        ensures
            r == ParseRatioError(e),
    {
        ParseRatioError(e)
    }
}

impl vstd::std_specs::convert::FromSpecImpl<ParseTwoErr<std::num::ParseIntError>> for ParseRatioError {
    open spec fn obeys_from_spec() -> bool {
        true
    }

    open spec fn from_spec(e: ParseTwoErr<std::num::ParseIntError>) -> Self {
        ParseRatioError(e)
    }
}

/// A ratio written `A:B` (a run of non-digit characters between two
/// integers that fit in an `i32`) reads as numerator `A` and denominator `B`, and it
/// is greater than one exactly when `A > B`.
pub proof fn lemma_ratio_direction(
    a: Seq<char>,
    sep: Seq<char>,
    b: Seq<char>,
    r: Result<Ratio, ParseRatioError>,
)
    requires
        all_digits(a),
        all_digits(b),
        sep.len() > 0,
        forall|i: int| 0 <= i < sep.len() ==> !is_digit(#[trigger] sep[i]),
        reads_as_i32(a),
        reads_as_i32(b),
        ratio_parsed(a + sep + b, r),
    ensures
        r is Ok,
        r->Ok_0.numer as int == digits_value(a),
        r->Ok_0.denom as int == digits_value(b),
        r->Ok_0.greater_than_one() == (digits_value(a) > digits_value(b)),
{
    lemma_segments_of_pair(a, sep, b);
}

} // verus!
