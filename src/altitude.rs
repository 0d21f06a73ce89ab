use vstd::prelude::*;

use crate::text::{lower_of, lowercase, same_text};
use crate::two_part::{
    all_digits, is_digit, lemma_segments_of_pair, lemma_segments_shape, segments, split_segments, two_part_outcome, ParseTwoErr,
};

verus! {

/// The names, in lower case, of the altitude of a synchronous orbit.
pub open spec fn is_synchronous_name(t: Seq<char>) -> bool {
    t == "keo"@ || t == "keosynchronous"@ || t == "geosynchronous"@ || t == "geostationary"@
}

/// Whether a text already in lower case names the synchronous altitude.
pub fn is_synchronous_lowered(l: &str) -> (r: bool)
    ensures
        r == is_synchronous_name(l@),
{
    same_text(l, "keo") || same_text(l, "keosynchronous") || same_text(l, "geosynchronous")
        || same_text(l, "geostationary")
}

/// The altitude of a synchronous orbit, in meters, as text.
pub open spec fn synchronous_altitude() -> Seq<char> {
    "2863330"@
}

/// Whether an altitude text can be read (see `Altitude::parse`).
pub open spec fn altitude_readable(s: Seq<char>, single_number: bool) -> bool {
    single_number || is_synchronous_name(lower_of(s)) || (segments(s).len() == 2
        && segments(s)[0].len() > 0 && segments(s)[1].len() > 0)
}

/// What reading the altitude text `s` gives.
pub open spec fn altitude_parsed(
    s: Seq<char>,
    single_number: bool,
    r: Result<Altitude, ParseAltitudeError>,
) -> bool {
    if single_number {
        r is Ok && r->Ok_0.ap@ == s && r->Ok_0.pe@ == s
    } else if is_synchronous_name(lower_of(s)) {
        r is Ok && r->Ok_0.ap@ == synchronous_altitude() && r->Ok_0.pe@
            == synchronous_altitude()
    } else {
        &&& two_part_outcome(
            segments(s),
            |t: Seq<char>| t.len() > 0,
            match r {
                Ok(a) => Ok(a),
                Err(ParseAltitudeError(e)) => Err(e),
            },
        )
        &&& r is Ok ==> r->Ok_0.ap@ == segments(s)[0] && r->Ok_0.pe@ == segments(s)[1]
    }
}

/// The apoapsis and periapsis of an orbit, in meters above the surface,
/// each as the text of a number.
#[derive(Debug)]
pub struct Altitude {
    pub ap: String,
    pub pe: String,
}

/// A piece of an altitude that holds no digit where a number belongs.
#[derive(Clone, Copy, Debug, PartialEq, Eq)]
pub struct EmptyNumber;

/// An altitude that could not be read.
#[derive(Debug)]
pub struct ParseAltitudeError(pub ParseTwoErr<EmptyNumber>);

impl From<ParseTwoErr<EmptyNumber>> for ParseAltitudeError {
    fn from(e: ParseTwoErr<EmptyNumber>) -> (r: Self)
        ensures
            r == ParseAltitudeError(e),
    {
        ParseAltitudeError(e)
    }
}

impl vstd::std_specs::convert::FromSpecImpl<ParseTwoErr<EmptyNumber>> for ParseAltitudeError {
    open spec fn obeys_from_spec() -> bool {
        true
    }

    open spec fn from_spec(e: ParseTwoErr<EmptyNumber>) -> Self {
        ParseAltitudeError(e)
    }
}

impl Altitude {
    /// Reads an altitude: one number for a circular orbit, a name of the
    /// synchronous altitude in any case, or two numbers (apoapsis first)
    /// separated by a run of non-digit characters, as in `100000x80000`.
    ///
    /// `single_number` tells whether the whole text, without surrounding
    /// whitespace, reads as one number.
    pub fn parse(s: &str, single_number: bool) -> (r: Result<Self, ParseAltitudeError>)
        ensures
            altitude_parsed(s@, single_number, r),
    {
        if single_number {
            return Ok(Altitude { ap: s.to_owned(), pe: s.to_owned() });
        }
        let lowered = lowercase(s);
        if is_synchronous_lowered(lowered.as_str()) {
            let value = "2863330";
            return Ok(Altitude { ap: value.to_owned(), pe: value.to_owned() });
        }
        proof {
            lemma_segments_shape(s@);
        }
        let parts = split_segments(s);
        if parts[0].as_str().unicode_len() == 0 {
            return Err(ParseAltitudeError::from(ParseTwoErr::Parse(EmptyNumber)));
        }
        if parts.len() < 2 {
            return Err(ParseAltitudeError::from(ParseTwoErr::MissingSegment));
        }
        if parts[1].as_str().unicode_len() == 0 {
            return Err(ParseAltitudeError::from(ParseTwoErr::Parse(EmptyNumber)));
        }
        if parts.len() > 2 {
            return Err(ParseAltitudeError::from(ParseTwoErr::TooManyParts));
        }
        Ok(Altitude { ap: parts[0].clone(), pe: parts[1].clone() })
    }
}

/// A text that reads as one number gives a circular orbit at that altitude:
/// the apoapsis and the periapsis are both that number.
pub proof fn lemma_single_number_is_circular(s: Seq<char>, r: Result<Altitude, ParseAltitudeError>)
    requires
        altitude_parsed(s, true, r),
    ensures
        r is Ok,
        r->Ok_0.ap@ == s,
        r->Ok_0.pe@ == s,
{
}

/// Every name of the synchronous altitude, in any case, gives a circular
/// orbit at that altitude.
pub proof fn lemma_synchronous_name(s: Seq<char>, r: Result<Altitude, ParseAltitudeError>)
    requires
        is_synchronous_name(lower_of(s)),
        altitude_parsed(s, false, r),
    ensures
        r is Ok,
        r->Ok_0.ap@ == synchronous_altitude(),
        r->Ok_0.pe@ == synchronous_altitude(),
{
}

/// Two numbers joined by a run of non-digit characters, such as
/// `100000x80000` or `100000 x 80000`,
/// give the first as the apoapsis and the second as the periapsis, in the
/// order written and whichever is larger.
pub proof fn lemma_pair_keeps_order(
    a: Seq<char>,
    sep: Seq<char>,
    p: Seq<char>,
    r: Result<Altitude, ParseAltitudeError>,
)
    requires
        a.len() > 0,
        p.len() > 0,
        all_digits(a),
        all_digits(p),
        sep.len() > 0,
        forall|i: int| 0 <= i < sep.len() ==> !is_digit(#[trigger] sep[i]),
        !is_synchronous_name(lower_of(a + sep + p)),
        altitude_parsed(a + sep + p, false, r),
    ensures
        r is Ok,
        r->Ok_0.ap@ == a,
        r->Ok_0.pe@ == p,
{
    lemma_segments_of_pair(a, sep, p);
}

} // verus!
