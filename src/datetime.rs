use vstd::prelude::*;
use vstd::std_specs::iter::IteratorSpec;
use vstd::string::StringExecFns;

verus! {

broadcast use vstd::string::axiom_spec_iter, vstd::string::next_postcondition;

/// Relies on `String::push`, which appends one character at the end.
pub assume_specification[ String::push ](s: &mut String, ch: char)
    ensures
        final(s)@ == old(s)@.push(ch),
;

/// Why a file could not be given a capture date.
#[derive(Debug, Clone, Copy, PartialEq, Eq, Structural)]
pub enum Failure {
    /// No part of the file name matches the date grammar.
    NoDateFound,
    /// The file could not be read, or its metadata container could not be parsed.
    UnreadableMetadata,
    /// Writing the capture date failed.
    WriteFailed,
    /// The file name is not valid text.
    InvalidFilenameEncoding,
}

pub open spec fn is_digit(c: char) -> bool {
    '0' <= c && c <= '9'
}

/// `YEAR "-" MONTH` starts at position `i`: four digits, a dash, two digits.
pub open spec fn date_at(s: Seq<char>, i: int) -> bool {
    &&& 0 <= i
    &&& i + 7 <= s.len()
    &&& is_digit(s[i])
    &&& is_digit(s[i + 1])
    &&& is_digit(s[i + 2])
    &&& is_digit(s[i + 3])
    &&& s[i + 4] == '-'
    &&& is_digit(s[i + 5])
    &&& is_digit(s[i + 6])
}

/// Where the day would start after a match at `i`: past an optional dash.
pub open spec fn day_start(s: Seq<char>, i: int) -> int {
    if i + 7 < s.len() && s[i + 7] == '-' {
        i + 8
    } else {
        i + 7
    }
}

/// The optional two-digit day that follows a match at `i`.
pub open spec fn day_at(s: Seq<char>, i: int) -> Option<Seq<char>> {
    let d = day_start(s, i);
    if d + 2 <= s.len() && is_digit(s[d]) && is_digit(s[d + 1]) {
        Some(s.subrange(d, d + 2))
    } else {
        None
    }
}

/// The leftmost position at or after `i` where a date starts.
pub open spec fn first_date_from(s: Seq<char>, i: int) -> Option<int>
    decreases s.len() - i,
{
    if i < 0 || i + 7 > s.len() {
        None
    } else if date_at(s, i) {
        Some(i)
    } else {
        first_date_from(s, i + 1)
    }
}

/// Year, month and optional day, as the characters found in the name.
pub struct DateParts {
    pub year: Seq<char>,
    pub month: Seq<char>,
    pub day: Option<Seq<char>>,
}

/// The date that a name holds: the parts of its leftmost match, if any.
pub open spec fn inferred(s: Seq<char>) -> Option<DateParts> {
    match first_date_from(s, 0) {
        Some(i) => Some(
            DateParts {
                year: s.subrange(i, i + 4),
                month: s.subrange(i + 5, i + 7),
                day: day_at(s, i),
            },
        ),
        None => None,
    }
}

/// `YYYY:MM:DD 00:00:00`, with `01` for a missing day.
pub open spec fn timestamp(d: DateParts) -> Seq<char> {
    let day = match d.day {
        Some(x) => x,
        None => seq!['0', '1'],
    };
    d.year + seq![':'] + d.month + seq![':'] + day + seq![' ', '0', '0', ':', '0', '0', ':', '0', '0']
}

/// `n` ASCII digits.
pub open spec fn digits(s: Seq<char>, n: nat) -> bool {
    s.len() == n && forall|k: int| 0 <= k < n ==> is_digit(#[trigger] s[k])
}

/// Four year digits, two month digits, and two day digits if a day is known.
pub open spec fn parts_wf(d: DateParts) -> bool {
    &&& digits(d.year, 4)
    &&& digits(d.month, 2)
    &&& d.day matches Some(x) ==> digits(x, 2)
}

/// `YYYY:MM:DD HH:MM:SS`: digits at every place but the separators.
pub open spec fn is_canonical_timestamp(t: Seq<char>) -> bool {
    &&& t.len() == 19
    &&& t[4] == ':' && t[7] == ':' && t[10] == ' ' && t[13] == ':' && t[16] == ':'
    &&& forall|k: int|
        0 <= k < 19 && k != 4 && k != 7 && k != 10 && k != 13 && k != 16 ==> is_digit(
            #[trigger] t[k],
        )
}

proof fn lemma_timestamp_canonical(d: DateParts)
    requires
        parts_wf(d),
    ensures
        is_canonical_timestamp(timestamp(d)),
{
    let day = match d.day {
        Some(x) => x,
        None => seq!['0', '1'],
    };
    let t = timestamp(d);
    assert forall|k: int|
        0 <= k < 19 && k != 4 && k != 7 && k != 10 && k != 13 && k != 16 implies is_digit(
        #[trigger] t[k],
    ) by {
        if k < 4 {
            assert(t[k] == d.year[k]);
        } else if k < 7 {
            assert(t[k] == d.month[k - 5]);
        } else if k < 10 {
            assert(t[k] == day[k - 8]);
        }
    }
}

/// A partial calendar date read from a file name.
pub struct ExifDateTime {
    pub year: String,
    pub month: String,
    pub day: Option<String>,
}

impl View for ExifDateTime {
    type V = DateParts;

    open spec fn view(&self) -> DateParts {
        DateParts {
            year: self.year@,
            month: self.month@,
            day: match self.day {
                Some(x) => Some(x@),
                None => None,
            },
        }
    }
}

fn is_digit_char(c: char) -> (r: bool)
    ensures
        r == is_digit(c),
{
    '0' <= c && c <= '9'
}

fn date_at_exec(v: &Vec<char>, i: usize) -> (r: bool)
    ensures
        r == date_at(v@, i as int),
{
    if i > v.len() || v.len() - i < 7 {
        return false;
    }
    is_digit_char(v[i]) && is_digit_char(v[i + 1]) && is_digit_char(v[i + 2]) && is_digit_char(
        v[i + 3],
    ) && v[i + 4] == '-' && is_digit_char(v[i + 5]) && is_digit_char(v[i + 6])
}

/// The characters of `v` from `lo` up to `hi`.
fn string_of(v: &Vec<char>, lo: usize, hi: usize) -> (r: String)
    requires
        lo <= hi <= v.len(),
    ensures
        r@ == v@.subrange(lo as int, hi as int),
{
    let mut out = String::new();
    let mut k: usize = lo;
    while k < hi
        invariant
            lo <= k <= hi <= v.len(),
            out@ == v@.subrange(lo as int, k as int),
        decreases hi - k,
    {
        out.push(v[k]);
        k = k + 1;
        assert(out@ =~= v@.subrange(lo as int, k as int));
    }
    out
}

fn day_exec(v: &Vec<char>, i: usize) -> (r: Option<String>)
    requires
        date_at(v@, i as int),
    ensures
        match r {
            Some(x) => day_at(v@, i as int) == Some(x@),
            None => day_at(v@, i as int) is None,
        },
{
    let d: usize = if i + 7 < v.len() && v[i + 7] == '-' {
        i + 8
    } else {
        i + 7
    };
    if d < v.len() && v.len() - d >= 2 && is_digit_char(v[d]) && is_digit_char(v[d + 1]) {
        Some(string_of(v, d, d + 2))
    } else {
        None
    }
}

/// Reads the leftmost `YYYY-MM[-][DD]` in `filename`.
pub fn infer_datetime(filename: &str) -> (r: Result<ExifDateTime, Failure>)
    ensures
        match r {
            Ok(d) => inferred(filename@) == Some(d@) && d.wf(),
            Err(e) => inferred(filename@) is None && e == Failure::NoDateFound,
        },
{
    let v = chars_of(filename);
    let mut i: usize = 0;
    while i < v.len() && v.len() - i >= 7
        invariant
            v@ == filename@,
            first_date_from(v@, 0) == first_date_from(v@, i as int),
        decreases v.len() - i,
    {
        if date_at_exec(&v, i) {
            let year = string_of(&v, i, i + 4);
            let month = string_of(&v, i + 5, i + 7);
            let day = day_exec(&v, i);
            return Ok(ExifDateTime { year, month, day });
        }
        i = i + 1;
    }
    Err(Failure::NoDateFound)
}

impl ExifDateTime {
    pub open spec fn wf(&self) -> bool {
        parts_wf(self@)
    }

    /// Renders the date as `YYYY:MM:DD 00:00:00`, the day `01` where none was found.
    pub fn to_string(&self) -> (r: String)
        ensures
            r@ == timestamp(self@),
            self.wf() ==> is_canonical_timestamp(r@),
    {
        let mut out = String::new();
        out.append(self.year.as_str());
        out.push(':');
        out.append(self.month.as_str());
        out.push(':');
        match &self.day {
            Some(d) => out.append(d.as_str()),
            None => {
                proof {
                    reveal_strlit("01");
                }
                out.append("01");
            },
        }
        proof {
            reveal_strlit(" 00:00:00");
        }
        out.append(" 00:00:00");
        assert(out@ =~= timestamp(self@));
        proof {
            if self.wf() {
                lemma_timestamp_canonical(self@);
            }
        }
        out
    }
}

/// Collects the characters of `s` in order.
pub fn chars_of(s: &str) -> (r: Vec<char>)
    ensures
        r@ == s@,
{
    let mut it = s.chars();
    let mut out: Vec<char> = Vec::new();
    loop
        invariant
            out@ + IteratorSpec::remaining(&it) == s@,
            IteratorSpec::decrease(&it) is Some,
        ensures
            out@ == s@,
        decreases IteratorSpec::decrease(&it)->0,
    {
        match it.next() {
            Some(c) => {
                out.push(c);
            },
            None => {
                assert(out@ + IteratorSpec::remaining(&it) =~= out@);
                break;
            },
        }
    }
    out
}

} // verus!
