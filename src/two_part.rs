use vstd::prelude::*;
use vstd::string::StrSliceExecFns;

verus! {

/// An ASCII decimal digit.
pub open spec fn is_digit(c: char) -> bool {
    '0' <= c && c <= '9'
}

pub open spec fn all_digits(t: Seq<char>) -> bool {
    forall|i: int| 0 <= i < t.len() ==> is_digit(#[trigger] t[i])
}

/// Whether the character before position `i` of `s` is a separator (a
/// non-digit).
pub open spec fn follows_separator(s: Seq<char>, i: int) -> bool {
    i > 0 && !is_digit(s[i - 1])
}

/// The pieces of `s` between its runs of non-digit characters, in order. A
/// whole run of non-digits is one separator: it ends one piece and starts
/// the next. A run at the start or the end of `s` thus gives an empty
/// piece there, and there is always at least one piece.
pub open spec fn segments(s: Seq<char>) -> Seq<Seq<char>>
    decreases s.len(),
{
    if s.len() == 0 {
        seq![Seq::<char>::empty()]
    } else {
        let prev = segments(s.drop_last());
        if is_digit(s.last()) {
            prev.update(prev.len() - 1, prev.last().push(s.last()))
        } else if follows_separator(s, s.len() - 1) {
            prev
        } else {
            prev.push(Seq::<char>::empty())
        }
    }
}

pub proof fn lemma_segments_shape(s: Seq<char>)
    ensures
        segments(s).len() >= 1,
        forall|k: int| 0 <= k < segments(s).len() ==> all_digits(#[trigger] segments(s)[k]),
    decreases s.len(),
{
    if s.len() > 0 {
        lemma_segments_shape(s.drop_last());
        let prev = segments(s.drop_last());
        if is_digit(s.last()) {
            let t = prev.last().push(s.last());
            assert(all_digits(prev[prev.len() - 1]));
            assert forall|i: int| 0 <= i < t.len() implies is_digit(#[trigger] t[i]) by {
                if i < t.len() - 1 {
                    assert(t[i] == prev[prev.len() - 1][i]);
                }
            }
            assert forall|k: int| 0 <= k < segments(s).len() implies all_digits(
                #[trigger] segments(s)[k],
            ) by {
                if k < prev.len() - 1 {
                    assert(segments(s)[k] == prev[k]);
                }
            }
        } else if !follows_separator(s, s.len() - 1) {
            assert forall|k: int| 0 <= k < segments(s).len() implies all_digits(
                #[trigger] segments(s)[k],
            ) by {
                if k < prev.len() {
                    assert(segments(s)[k] == prev[k]);
                }
            }
        }
    }
}

/// A string with no separator is one piece, itself.
pub proof fn lemma_segments_of_digits(s: Seq<char>)
    requires
        all_digits(s),
    ensures
        segments(s) == seq![s],
    decreases s.len(),
{
    if s.len() > 0 {
        assert(all_digits(s.drop_last())) by {
            assert forall|i: int| 0 <= i < s.len() - 1 implies is_digit(
                #[trigger] s.drop_last()[i],
            ) by {
                assert(s.drop_last()[i] == s[i]);
            }
        }
        lemma_segments_of_digits(s.drop_last());
        assert(is_digit(s[s.len() - 1]));
        assert(s.drop_last().push(s.last()) =~= s);
        assert(segments(s) =~= seq![s]);
    } else {
        assert(s =~= Seq::<char>::empty());
    }
}

/// Appending digits to a text extends its last piece.
pub proof fn lemma_segments_append_digits(pre: Seq<char>, d: Seq<char>)
    requires
        all_digits(d),
    ensures
        segments(pre + d) == segments(pre).update(
            segments(pre).len() - 1,
            segments(pre).last() + d,
        ),
    decreases d.len(),
{
    lemma_segments_shape(pre);
    if d.len() == 0 {
        assert(pre + d =~= pre);
        assert(segments(pre).last() + d =~= segments(pre).last());
        assert(segments(pre).update(segments(pre).len() - 1, segments(pre).last())
            =~= segments(pre));
    } else {
        let d0 = d.drop_last();
        assert(all_digits(d0)) by {
            assert forall|i: int| 0 <= i < d0.len() implies is_digit(#[trigger] d0[i]) by {
                assert(d0[i] == d[i]);
            }
        }
        lemma_segments_append_digits(pre, d0);
        assert(is_digit(d[d.len() - 1]));
        assert((pre + d).drop_last() =~= pre + d0);
        assert((pre + d).last() == d.last());
        assert((segments(pre).last() + d0).push(d.last()) =~= segments(pre).last() + d);
        assert(segments(pre + d) =~= segments(pre).update(
            segments(pre).len() - 1,
            segments(pre).last() + d,
        ));
    }
}

/// A run of digits followed by a run of non-digits is that run and an
/// empty piece.
pub proof fn lemma_segments_digits_then_run(a: Seq<char>, sep: Seq<char>)
    requires
        all_digits(a),
        sep.len() > 0,
        forall|i: int| 0 <= i < sep.len() ==> !is_digit(#[trigger] sep[i]),
    ensures
        segments(a + sep) == seq![a, Seq::<char>::empty()],
    decreases sep.len(),
{
    lemma_segments_of_digits(a);
    let s = a + sep;
    assert(s.last() == sep[sep.len() - 1]);
    if sep.len() == 1 {
        assert(s.drop_last() =~= a);
        if a.len() > 0 {
            assert(s[s.len() - 2] == a[a.len() - 1]);
        }
        assert(!follows_separator(s, s.len() - 1));
        assert(segments(s) =~= seq![a, Seq::<char>::empty()]);
    } else {
        let sep0 = sep.drop_last();
        assert forall|i: int| 0 <= i < sep0.len() implies !is_digit(#[trigger] sep0[i]) by {
            assert(sep0[i] == sep[i]);
        }
        lemma_segments_digits_then_run(a, sep0);
        assert(s.drop_last() =~= a + sep0);
        assert(s[s.len() - 2] == sep[sep.len() - 2]);
        assert(follows_separator(s, s.len() - 1));
    }
}

/// Two runs of digits joined by a run of non-digit characters are two
/// pieces.
pub proof fn lemma_segments_of_pair(a: Seq<char>, sep: Seq<char>, b: Seq<char>)
    requires
        all_digits(a),
        all_digits(b),
        sep.len() > 0,
        forall|i: int| 0 <= i < sep.len() ==> !is_digit(#[trigger] sep[i]),
    ensures
        segments(a + sep + b) == seq![a, b],
{
    lemma_segments_digits_then_run(a, sep);
    lemma_segments_append_digits(a + sep, b);
    assert(Seq::<char>::empty() + b =~= b);
    assert(segments(a + sep + b) =~= seq![a, b]);
}

fn is_digit_char(c: char) -> (r: bool)
    ensures
        r == is_digit(c),
{
    '0' <= c && c <= '9'
}

/// Splits `s` at each run of non-digit characters.
pub fn split_segments(s: &str) -> (r: Vec<String>)
    ensures
        r@.len() == segments(s@).len(),
        forall|k: int| 0 <= k < r@.len() ==> (#[trigger] r@[k])@ == segments(s@)[k],
{
    let n = s.unicode_len();
    let mut parts: Vec<String> = Vec::new();
    let mut start: usize = 0;
    let mut i: usize = 0;
    let mut after_separator = false;
    while i < n
        invariant
            n == s@.len(),
            start <= i <= n,
            parts@.len() + 1 == segments(s@.take(i as int)).len(),
            forall|k: int|
                0 <= k < parts@.len() ==> (#[trigger] parts@[k])@ == segments(
                    s@.take(i as int),
                )[k],
            segments(s@.take(i as int)).last() == s@.subrange(start as int, i as int),
            after_separator == follows_separator(s@, i as int),
            after_separator ==> start == i,
        decreases n - i,
    {
        let c = s.get_char(i);
        let ghost pre = s@.take(i as int);
        let ghost cur = s@.take(i + 1);
        assert(cur.drop_last() =~= pre);
        assert(cur.last() == c);
        if i > 0 {
            assert(cur[i - 1] == s@[i - 1]);
        }
        assert(follows_separator(cur, i as int) == follows_separator(s@, i as int));
        if !is_digit_char(c) {
            if !after_separator {
                let piece = s.substring_char(start, i).to_owned();
                parts.push(piece);
            }
            start = i + 1;
            after_separator = true;
            assert(s@.subrange(start as int, i + 1) =~= Seq::<char>::empty());
        } else {
            after_separator = false;
            assert(s@.subrange(start as int, i + 1) =~= s@.subrange(start as int, i as int).push(
                c,
            ));
        }
        i = i + 1;
    }
    assert(s@.take(n as int) =~= s@);
    let last = s.substring_char(start, n).to_owned();
    parts.push(last);
    parts
}


/// The natural number written by a string of decimal digits.
pub open spec fn digits_value(t: Seq<char>) -> nat
    decreases t.len(),
{
    if t.len() == 0 {
        0
    } else {
        digits_value(t.drop_last()) * 10 + (t.last() as nat - '0' as nat) as nat
    }
}

/// Whether a piece reads as an `i32`: it holds a digit and its value fits.
pub open spec fn reads_as_i32(t: Seq<char>) -> bool {
    t.len() > 0 && digits_value(t) <= i32::MAX
}

/// The failures of reading a value made of two numbers.
#[derive(Debug)]
pub enum ParseTwoErr<E> {
    /// A piece is not a number of the expected type.
    Parse(E),
    /// The text has a single piece.
    MissingSegment,
    /// The text has more than two pieces.
    TooManyParts,
}

/// The outcome of reading two numbers from the pieces `segs`, where
/// `readable` says which pieces read as a number and `value` gives it.
/// The first piece is read first, then the second is looked for and read,
/// and only then is a third piece refused.
pub open spec fn two_part_outcome<T, E>(
    segs: Seq<Seq<char>>,
    readable: spec_fn(Seq<char>) -> bool,
    r: Result<T, ParseTwoErr<E>>,
) -> bool {
    match r {
        Ok(_) => segs.len() == 2 && readable(segs[0]) && readable(segs[1]),
        Err(ParseTwoErr::Parse(_)) => !readable(segs[0]) || (segs.len() >= 2 && !readable(
            segs[1],
        )),
        Err(ParseTwoErr::MissingSegment) => readable(segs[0]) && segs.len() == 1,
        Err(ParseTwoErr::TooManyParts) => segs.len() > 2 && readable(segs[0]) && readable(
            segs[1],
        ),
    }
}

impl<E> From<E> for ParseTwoErr<E> {
    fn from(e: E) -> (r: Self)
        ensures
            r == ParseTwoErr::Parse(e),
    {
        ParseTwoErr::Parse(e)
    }
}

impl<E> vstd::std_specs::convert::FromSpecImpl<E> for ParseTwoErr<E> {
    open spec fn obeys_from_spec() -> bool {
        true
    }

    open spec fn from_spec(e: E) -> Self {
        ParseTwoErr::Parse(e)
    }
}

/// std's `ParseIntError`, carried opaque as the cause of a piece that does
/// not read as an integer.
#[verifier::external_type_specification]
#[verifier::external_body]
pub struct ExParseIntError(std::num::ParseIntError);

/// Relies on `str::parse::<i32>` (i32's `FromStr`): a non-empty string of
/// ASCII digits reads as its decimal value when that fits in an `i32`, and
/// an empty string or a value above `i32::MAX` is an error.
#[verifier::external_body]
fn parse_i32(s: &str) -> (r: Result<i32, std::num::ParseIntError>)
    ensures
        all_digits(s@) ==> (r is Ok <==> reads_as_i32(s@)),
        all_digits(s@) && r is Ok ==> r->Ok_0 as int == digits_value(s@),
{
    s.parse::<i32>()
}

/// Reads two integers separated by a run of non-digit characters, such as
/// `3:2`.
pub fn parse_two(s: &str) -> (r: Result<(i32, i32), ParseTwoErr<std::num::ParseIntError>>)
    ensures
        two_part_outcome(
            segments(s@),
            |t: Seq<char>| reads_as_i32(t),
            r,
        ),
        r is Ok ==> r->Ok_0.0 as int == digits_value(segments(s@)[0]) && r->Ok_0.1 as int
            == digits_value(segments(s@)[1]),
{
    proof {
        lemma_segments_shape(s@);
    }
    let parts = split_segments(s);
    assert(all_digits(parts@[0]@));
    let left = match parse_i32(parts[0].as_str()) {
        Ok(v) => v,
        Err(e) => return Err(ParseTwoErr::from(e)),
    };
    if parts.len() < 2 {
        return Err(ParseTwoErr::MissingSegment);
    }
    assert(all_digits(parts@[1]@));
    let right = match parse_i32(parts[1].as_str()) {
        Ok(v) => v,
        Err(e) => return Err(ParseTwoErr::from(e)),
    };
    if parts.len() > 2 {
        Err(ParseTwoErr::TooManyParts)
    } else {
        Ok((left, right))
    }
}

} // verus!
