use vstd::prelude::*;
use vstd::string::*;

use crate::dates::{days_in_month, spec_days_in_month, Date};

verus! {

// ------------------------------------------------------------------
// Decimal numerals
// ------------------------------------------------------------------
pub open spec fn spec_is_digit(c: char) -> bool {
    48 <= c as u32 <= 57
}

pub open spec fn spec_digit(c: char) -> int {
    c as u32 - 48
}

/// The value of a sequence of decimal digits, most significant first.
pub open spec fn spec_digits_value(s: Seq<char>) -> int
    decreases s.len(),
{
    if s.len() == 0 {
        0
    } else {
        spec_digits_value(s.drop_last()) * 10 + spec_digit(s.last())
    }
}

pub open spec fn spec_all_digits(s: Seq<char>) -> bool {
    forall|i: int| 0 <= i < s.len() ==> spec_is_digit(#[trigger] s[i])
}

/// A digit sequence's value is non-negative.
proof fn lemma_digits_value_nonneg(s: Seq<char>)
    requires
        spec_all_digits(s),
    ensures
        spec_digits_value(s) >= 0,
    decreases s.len(),
{
    if s.len() > 0 {
        assert(spec_all_digits(s.drop_last()));
        lemma_digits_value_nonneg(s.drop_last());
    }
}

/// A prefix of a digit sequence never has a larger value than the whole.
proof fn lemma_digits_value_prefix_le(s: Seq<char>, i: int)
    requires
        spec_all_digits(s),
        0 <= i <= s.len(),
    ensures
        spec_digits_value(s.take(i)) <= spec_digits_value(s),
    decreases s.len() - i,
{
    if i < s.len() {
        lemma_digits_value_prefix_le(s, i + 1);
        assert(s.take(i + 1).drop_last() =~= s.take(i));
        assert(spec_all_digits(s.take(i)));
        lemma_digits_value_nonneg(s.take(i));
        assert(spec_digits_value(s.take(i + 1)) == spec_digits_value(s.take(i)) * 10
            + spec_digit(s[i]));
    } else {
        assert(s.take(i) =~= s);
    }
}

/// Parses the run of digits from `start` to the end of `s`: its value when
/// the whole run is digits, is not empty, and does not exceed `limit`.
fn parse_digits(s: &str, start: usize, limit: u64) -> (r: Option<u64>)
    requires
        start <= s@.len(),
        limit <= 0x1_0000_0000u64,
    ensures
        ({
            let t = s@.subrange(start as int, s@.len() as int);
            &&& (r is Some) <==> (t.len() > 0 && spec_all_digits(t) && spec_digits_value(t)
                <= limit)
            &&& (r matches Some(v) ==> v == spec_digits_value(t))
        }),
{
    let ghost t = s@.subrange(start as int, s@.len() as int);
    let n = s.unicode_len();
    if start == n {
        return None;
    }
    let mut acc: u64 = 0;
    let mut i: usize = start;
    while i < n
        invariant
            start <= i <= n,
            n == s@.len(),
            start < n,
            limit <= 0x1_0000_0000u64,
            t == s@.subrange(start as int, s@.len() as int),
            spec_all_digits(s@.subrange(start as int, i as int)),
            acc == spec_digits_value(s@.subrange(start as int, i as int)),
            acc <= limit,
        decreases n - i,
    {
        let c = s.get_char(i);
        let cv = c as u32;
        if cv < 48 || cv > 57 {
            assert(t[i - start] == s@[i as int]);
            return None;
        }
        let d = (cv - 48) as u64;
        let next = acc * 10 + d;
        proof {
            assert(s@.subrange(start as int, i + 1).drop_last() =~= s@.subrange(
                start as int,
                i as int,
            ));
            assert(s@.subrange(start as int, i + 1).last() == s@[i as int]);
        }
        if next > limit {
            proof {
                if spec_all_digits(t) && spec_digits_value(t) <= limit {
                    lemma_digits_value_prefix_le(t, i + 1 - start);
                    assert(t.take(i + 1 - start) =~= s@.subrange(start as int, i + 1));
                }
            }
            return None;
        }
        acc = next;
        i = i + 1;
    }
    assert(s@.subrange(start as int, i as int) =~= t);
    Some(acc)
}

// ------------------------------------------------------------------
// Unsigned and signed numerals, as the standard integer parsers read
// them: an optional sign, then one or more digits.
// ------------------------------------------------------------------
pub open spec fn spec_unsigned_body(s: Seq<char>) -> Seq<char> {
    if s.len() > 0 && s[0] == '+' {
        s.drop_first()
    } else {
        s
    }
}

pub open spec fn spec_is_unsigned_numeral(s: Seq<char>) -> bool {
    spec_unsigned_body(s).len() > 0 && spec_all_digits(spec_unsigned_body(s))
}

pub open spec fn spec_unsigned_value(s: Seq<char>) -> int {
    spec_digits_value(spec_unsigned_body(s))
}

pub open spec fn spec_is_negative(s: Seq<char>) -> bool {
    s.len() > 0 && s[0] == '-'
}

pub open spec fn spec_signed_body(s: Seq<char>) -> Seq<char> {
    if s.len() > 0 && (s[0] == '+' || s[0] == '-') {
        s.drop_first()
    } else {
        s
    }
}

pub open spec fn spec_is_signed_numeral(s: Seq<char>) -> bool {
    spec_signed_body(s).len() > 0 && spec_all_digits(spec_signed_body(s))
}

pub open spec fn spec_signed_value(s: Seq<char>) -> int {
    if spec_is_negative(s) {
        -spec_digits_value(spec_signed_body(s))
    } else {
        spec_digits_value(spec_signed_body(s))
    }
}

/// Reads an unsigned decimal numeral, an optional leading plus sign allowed,
/// rejecting values above `u32::MAX`.
pub fn parse_u32(s: &str) -> (r: Option<u32>)
    ensures
        (r is Some) <==> (spec_is_unsigned_numeral(s@) && spec_unsigned_value(s@) <= u32::MAX),
        r matches Some(v) ==> v == spec_unsigned_value(s@),
{
    let n = s.unicode_len();
    let start: usize = if n > 0 && s.get_char(0) == '+' {
        1
    } else {
        0
    };
    proof {
        assert(spec_unsigned_body(s@) =~= s@.subrange(start as int, s@.len() as int));
    }
    match parse_digits(s, start, 0xFFFF_FFFFu64) {
        Some(v) => Some(v as u32),
        None => None,
    }
}

/// Reads a signed decimal numeral, an optional leading sign allowed,
/// rejecting values outside `i32`'s range.
pub fn parse_i32(s: &str) -> (r: Option<i32>)
    ensures
        (r is Some) <==> (spec_is_signed_numeral(s@) && -0x8000_0000 <= spec_signed_value(s@)
            < 0x8000_0000),
        r matches Some(v) ==> v == spec_signed_value(s@),
{
    let n = s.unicode_len();
    let negative = n > 0 && s.get_char(0) == '-';
    let start: usize = if negative || (n > 0 && s.get_char(0) == '+') {
        1
    } else {
        0
    };
    let limit: u64 = if negative {
        0x8000_0000u64
    } else {
        0x7FFF_FFFFu64
    };
    proof {
        assert(spec_signed_body(s@) =~= s@.subrange(start as int, s@.len() as int));
    }
    match parse_digits(s, start, limit) {
        Some(v) => {
            if negative {
                Some((-(v as i64)) as i32)
            } else {
                Some(v as i32)
            }
        },
        None => None,
    }
}

// ------------------------------------------------------------------
// Booleans, as the standard parser reads them: exactly "true" or "false".
// ------------------------------------------------------------------
pub open spec fn spec_parse_bool(s: Seq<char>) -> Option<bool> {
    if s == seq!['t', 'r', 'u', 'e'] {
        Some(true)
    } else if s == seq!['f', 'a', 'l', 's', 'e'] {
        Some(false)
    } else {
        None
    }
}

pub fn parse_bool(s: &str) -> (r: Option<bool>)
    ensures
        r == spec_parse_bool(s@),
{
    let n = s.unicode_len();
    if n == 4 && s.get_char(0) == 't' && s.get_char(1) == 'r' && s.get_char(2) == 'u'
        && s.get_char(3) == 'e' {
        proof {
            assert(s@ =~= seq!['t', 'r', 'u', 'e']);
        }
        Some(true)
    } else if n == 5 && s.get_char(0) == 'f' && s.get_char(1) == 'a' && s.get_char(2) == 'l'
        && s.get_char(3) == 's' && s.get_char(4) == 'e' {
        proof {
            assert(s@ =~= seq!['f', 'a', 'l', 's', 'e']);
        }
        Some(false)
    } else {
        None
    }
}

// ------------------------------------------------------------------
// Rendering a number back to its decimal numeral, for error reports.
// ------------------------------------------------------------------
pub open spec fn spec_dec_digit(d: int) -> char {
    if d == 0 {
        '0'
    } else if d == 1 {
        '1'
    } else if d == 2 {
        '2'
    } else if d == 3 {
        '3'
    } else if d == 4 {
        '4'
    } else if d == 5 {
        '5'
    } else if d == 6 {
        '6'
    } else if d == 7 {
        '7'
    } else if d == 8 {
        '8'
    } else {
        '9'
    }
}

/// The canonical decimal numeral of a non-negative number.
pub open spec fn spec_dec_numeral(n: int) -> Seq<char>
    recommends
        n >= 0,
    decreases n,
{
    if n < 10 {
        seq![spec_dec_digit(n)]
    } else {
        spec_dec_numeral(n / 10).push(spec_dec_digit(n % 10))
    }
}

fn digit_str(d: u32) -> (r: &'static str)
    requires
        d < 10,
    ensures
        r@ == seq![spec_dec_digit(d as int)],
{
    proof {
        reveal_strlit("0");
        reveal_strlit("1");
        reveal_strlit("2");
        reveal_strlit("3");
        reveal_strlit("4");
        reveal_strlit("5");
        reveal_strlit("6");
        reveal_strlit("7");
        reveal_strlit("8");
        reveal_strlit("9");
    }
    match d {
        0 => "0",
        1 => "1",
        2 => "2",
        3 => "3",
        4 => "4",
        5 => "5",
        6 => "6",
        7 => "7",
        8 => "8",
        _ => "9",
    }
}

/// Renders a number as its decimal numeral.
pub fn u32_to_string(n: u32) -> (r: String)
    ensures
        r@ == spec_dec_numeral(n as int),
    decreases n,
{
    if n < 10 {
        String::from_str(digit_str(n))
    } else {
        u32_to_string(n / 10).concat(digit_str(n % 10))
    }
}

// ------------------------------------------------------------------
// Parameter errors
// ------------------------------------------------------------------
/// A malformed or incompatible query parameter, named, with the kind of the
/// fault.
#[derive(Debug)]
pub struct ParameterError {
    pub parameter_name: String,
    pub kind: ParameterErrorKind,
}

#[derive(Debug, PartialEq)]
pub enum ParameterErrorKind {
    UnvalidType { expected_type: String },
    UnvalidValue { parameter_value: String, reason: String },
    UnvalidCombination { missing_parameters: Vec<String> },
}

pub open spec fn spec_is_type_error(e: ParameterError, name: Seq<char>, expected: Seq<char>) -> bool {
    &&& e.parameter_name@ == name
    &&& e.kind matches ParameterErrorKind::UnvalidType { expected_type } && expected_type@
        == expected
}

pub open spec fn spec_is_value_error(
    e: ParameterError,
    name: Seq<char>,
    value: Seq<char>,
    reason: Seq<char>,
) -> bool {
    &&& e.parameter_name@ == name
    &&& e.kind matches ParameterErrorKind::UnvalidValue { parameter_value, reason: r } && {
        &&& parameter_value@ == value
        &&& r@ == reason
    }
}

pub open spec fn spec_is_combination_error(
    e: ParameterError,
    name: Seq<char>,
    missing: Seq<Seq<char>>,
) -> bool {
    &&& e.parameter_name@ == name
    &&& e.kind matches ParameterErrorKind::UnvalidCombination { missing_parameters }
        && missing_parameters.deep_view() == missing
}

// ------------------------------------------------------------------
// The three query parameters
// ------------------------------------------------------------------
/// The "month" query parameter: an unsigned numeral between 1 and 12.
#[derive(Debug)]
pub struct MonthParameter(pub u32);

impl MonthParameter {
    /// The value must lie between 1 and 12.
    pub fn validate_value(value: u32) -> (r: Result<(), ParameterError>)
        ensures
            (r is Ok) <==> 1 <= value <= 12,
            r matches Err(e) ==> spec_is_value_error(
                e,
                "month"@,
                spec_dec_numeral(value as int),
                "This value must be between 1 and 12"@,
            ),
    {
        if value > 12 || value < 1 {
            Err(
                ParameterError {
                    parameter_name: String::from_str("month"),
                    kind: ParameterErrorKind::UnvalidValue {
                        parameter_value: u32_to_string(value),
                        reason: String::from_str("This value must be between 1 and 12"),
                    },
                },
            )
        } else {
            Ok(())
        }
    }

    pub fn from_string(string: &str) -> (r: Result<MonthParameter, ParameterError>)
        ensures
            (r is Ok) <==> (spec_is_unsigned_numeral(string@) && 1 <= spec_unsigned_value(string@)
                <= 12),
            r matches Ok(m) ==> m.0 == spec_unsigned_value(string@),
            r matches Err(e) ==> {
                if spec_is_unsigned_numeral(string@) && spec_unsigned_value(string@) <= u32::MAX {
                    spec_is_value_error(
                        e,
                        "month"@,
                        spec_dec_numeral(spec_unsigned_value(string@)),
                        "This value must be between 1 and 12"@,
                    )
                } else {
                    spec_is_type_error(e, "month"@, "number"@)
                }
            },
    {
        match parse_u32(string) {
            Some(month) => match MonthParameter::validate_value(month) {
                Ok(_) => Ok(MonthParameter(month)),
                Err(e) => Err(e),
            },
            None => Err(
                ParameterError {
                    parameter_name: String::from_str("month"),
                    kind: ParameterErrorKind::UnvalidType {
                        expected_type: String::from_str("number"),
                    },
                },
            ),
        }
    }
}

/// The "year" query parameter: a signed numeral.
#[derive(Debug)]
pub struct YearParameter(pub i32);

impl YearParameter {
    pub fn from_string(string: &str) -> (r: Result<YearParameter, ParameterError>)
        ensures
            (r is Ok) <==> (spec_is_signed_numeral(string@) && -0x8000_0000
                <= spec_signed_value(string@) < 0x8000_0000),
            r matches Ok(y) ==> y.0 == spec_signed_value(string@),
            r matches Err(e) ==> spec_is_type_error(e, "year"@, "number"@),
    {
        match parse_i32(string) {
            Some(year) => Ok(YearParameter(year)),
            None => Err(
                ParameterError {
                    parameter_name: String::from_str("year"),
                    kind: ParameterErrorKind::UnvalidType {
                        expected_type: String::from_str("number"),
                    },
                },
            ),
        }
    }
}

/// The "format" query parameter: a boolean.
#[derive(Debug)]
pub struct FormatParameter(pub bool);

impl FormatParameter {
    pub fn from_string(string: &str) -> (r: Result<FormatParameter, ParameterError>)
        ensures
            (r is Ok) <==> spec_parse_bool(string@) is Some,
            r matches Ok(f) ==> Some(f.0) == spec_parse_bool(string@),
            r matches Err(e) ==> spec_is_type_error(e, "format"@, "boolean"@),
    {
        match parse_bool(string) {
            Some(boolean) => Ok(FormatParameter(boolean)),
            None => Err(
                ParameterError {
                    parameter_name: String::from_str("format"),
                    kind: ParameterErrorKind::UnvalidType {
                        expected_type: String::from_str("boolean"),
                    },
                },
            ),
        }
    }
}

// ------------------------------------------------------------------
// The handler combining the three parameters
// ------------------------------------------------------------------
pub open spec fn spec_format_bad(format: Option<&str>) -> bool {
    format matches Some(s) && spec_parse_bool(s@) is None
}

pub open spec fn spec_year_bad(year: Option<&str>) -> bool {
    year matches Some(s) && !(spec_is_signed_numeral(s@) && -0x8000_0000 <= spec_signed_value(s@)
        < 0x8000_0000)
}

pub open spec fn spec_month_type_bad(month: Option<&str>) -> bool {
    month matches Some(s) && !(spec_is_unsigned_numeral(s@) && spec_unsigned_value(s@) <= u32::MAX)
}

pub open spec fn spec_month_value_bad(month: Option<&str>) -> bool {
    month matches Some(s) && spec_is_unsigned_numeral(s@) && spec_unsigned_value(s@) <= u32::MAX
        && !(1 <= spec_unsigned_value(s@) <= 12)
}

pub open spec fn spec_combination_bad(month: Option<&str>, year: Option<&str>) -> bool {
    (month is Some) != (year is Some)
}

/// The validated month/year and format query parameters of a list request.
#[derive(Debug)]
pub struct ParametersHandler {
    format: Option<FormatParameter>,
    year_and_month: Option<(YearParameter, MonthParameter)>,
}

impl ParametersHandler {
    #[verifier::type_invariant]
    spec fn wf(self) -> bool {
        self.year_and_month matches Some((y, m)) ==> 1 <= m.0 <= 12
    }

    pub closed spec fn spec_format(self) -> Option<bool> {
        match self.format {
            Some(f) => Some(f.0),
            None => None,
        }
    }

    pub closed spec fn spec_year_and_month(self) -> Option<(i32, u32)> {
        match self.year_and_month {
            Some((y, m)) => Some((y.0, m.0)),
            None => None,
        }
    }

    /// Validates the three raw parameters together: the format parameter is
    /// read first, then the year, then the month, and a month or year given
    /// without the other is an invalid combination.
    pub fn from_params(
        format: Option<&str>,
        month: Option<&str>,
        year: Option<&str>,
    ) -> (r: Result<ParametersHandler, ParameterError>)
        ensures
            (r is Ok) <==> (!spec_format_bad(format) && !spec_year_bad(year)
                && !spec_month_type_bad(month) && !spec_month_value_bad(month)
                && !spec_combination_bad(month, year)),
            r matches Ok(h) ==> {
                &&& (format matches Some(s) ==> h.spec_format() == spec_parse_bool(s@))
                &&& (format is None ==> h.spec_format() is None)
                &&& ((month is Some && year is Some) ==> h.spec_year_and_month() == Some(
                    (
                        spec_signed_value(year->0@) as i32,
                        spec_unsigned_value(month->0@) as u32,
                    ),
                ))
                &&& ((month is None && year is None) ==> h.spec_year_and_month() is None)
            },
            r matches Err(e) ==> {
                if spec_format_bad(format) {
                    spec_is_type_error(e, "format"@, "boolean"@)
                } else if spec_year_bad(year) {
                    spec_is_type_error(e, "year"@, "number"@)
                } else if spec_month_type_bad(month) {
                    spec_is_type_error(e, "month"@, "number"@)
                } else if spec_month_value_bad(month) {
                    spec_is_value_error(
                        e,
                        "month"@,
                        spec_dec_numeral(spec_unsigned_value(month->0@)),
                        "This value must be between 1 and 12"@,
                    )
                } else if year is Some {
                    spec_is_combination_error(e, "year"@, seq!["month"@])
                } else {
                    spec_is_combination_error(e, "month"@, seq!["year"@])
                }
            },
    {
        let format_param: Option<FormatParameter> = match format {
            Some(s) => match FormatParameter::from_string(s) {
                Ok(f) => Some(f),
                Err(e) => return Err(e),
            },
            None => None,
        };
        let year_param: Option<YearParameter> = match year {
            Some(s) => match YearParameter::from_string(s) {
                Ok(y) => Some(y),
                Err(e) => return Err(e),
            },
            None => None,
        };
        let month_param: Option<MonthParameter> = match month {
            Some(s) => match MonthParameter::from_string(s) {
                Ok(m) => Some(m),
                Err(e) => return Err(e),
            },
            None => None,
        };
        let year_and_month: Option<(YearParameter, MonthParameter)> = match (
            year_param,
            month_param,
        ) {
            (Some(_), None) => {
                let mut missing: Vec<String> = Vec::new();
                missing.push(String::from_str("month"));
                proof {
                    assert(missing.deep_view() =~= seq!["month"@]);
                }
                return Err(
                    ParameterError {
                        parameter_name: String::from_str("year"),
                        kind: ParameterErrorKind::UnvalidCombination {
                            missing_parameters: missing,
                        },
                    },
                );
            },
            (None, Some(_)) => {
                let mut missing: Vec<String> = Vec::new();
                missing.push(String::from_str("year"));
                proof {
                    assert(missing.deep_view() =~= seq!["year"@]);
                }
                return Err(
                    ParameterError {
                        parameter_name: String::from_str("month"),
                        kind: ParameterErrorKind::UnvalidCombination {
                            missing_parameters: missing,
                        },
                    },
                );
            },
            (None, None) => None,
            (Some(y), Some(m)) => Some((y, m)),
        };
        Ok(ParametersHandler { format: format_param, year_and_month })
    }

    /// The inclusive date range selected by the month and year: from the
    /// first day of the month to the day immediately before the first day of
    /// the following month.
    pub fn date_interval(&self) -> (r: Option<(Date, Date)>)
        ensures
            match self.spec_year_and_month() {
                None => r is None,
                Some((y, m)) => r matches Some(interval) && {
                    let (start, end) = interval;
                    &&& start == (Date { year: y as i64, month: m, day: 1 })
                    &&& end == (Date {
                        year: y as i64,
                        month: m,
                        day: spec_days_in_month(y as int, m as int) as u32,
                    })
                    &&& start.spec_valid()
                    &&& end.spec_valid()
                    &&& end.spec_next() == (Date {
                        year: if m == 12 {
                            (y + 1) as i64
                        } else {
                            y as i64
                        },
                        month: if m == 12 {
                            1u32
                        } else {
                            (m + 1) as u32
                        },
                        day: 1u32,
                    })
                },
            },
    {
        proof {
            use_type_invariant(&*self);
        }
        match &self.year_and_month {
            Some((year, month)) => {
                let start = Date { year: year.0 as i64, month: month.0, day: 1 };
                let end = Date {
                    year: year.0 as i64,
                    month: month.0,
                    day: days_in_month(year.0 as i64, month.0),
                };
                Some((start, end))
            },
            None => None,
        }
    }

    /// Whether the response must be grouped: only an explicit `format=true`.
    pub fn must_be_formatted(&self) -> (r: bool)
        ensures
            r == (self.spec_format() == Some(true)),
    {
        match &self.format {
            Some(f) => f.0,
            None => false,
        }
    }
}

} // verus!
