//! The structured date-time value carried by the patient birth date field,
//! held as plain calendar components, with parsing from `yyyy-mm-dd` date
//! text and from / to the `yyyy-mm-dd hh:mm:ss +hh:mm` date-time text form.

use vstd::prelude::*;
use crate::errors::ValueParseError;

verus! {

/// A date-time with a fixed UTC offset, as plain calendar components.
#[derive(Debug, Clone, Copy, PartialEq, Eq, Structural)]
pub struct CustomDicomDateTime {
    pub year: u16,
    pub month: u8,
    pub day: u8,
    pub hour: u8,
    pub minute: u8,
    pub second: u8,
    /// Offset from UTC in seconds, east positive.
    pub offset_seconds: i32,
}

pub open spec fn is_leap_year(y: int) -> bool {
    y % 4 == 0 && (y % 100 != 0 || y % 400 == 0)
}

pub open spec fn days_in_month(y: int, m: int) -> int {
    if m == 2 {
        if is_leap_year(y) {
            29
        } else {
            28
        }
    } else if m == 4 || m == 6 || m == 9 || m == 11 {
        30
    } else {
        31
    }
}

impl CustomDicomDateTime {
    /// The components form a real calendar date and time, with a year of at
    /// most four digits and an offset below one day, as the record format
    /// requires.
    pub open spec fn wf(self) -> bool {
        &&& self.year <= 9999
        &&& 1 <= self.month <= 12
        &&& 1 <= self.day <= days_in_month(self.year as int, self.month as int)
        &&& self.hour < 24
        &&& self.minute < 60
        &&& self.second < 60
        &&& -86400 < self.offset_seconds < 86400
    }

    /// Whether the components form a real calendar date and time.
    pub fn is_wf(&self) -> (r: bool)
        ensures
            r == self.wf(),
    {
        self.year <= 9999 && 1 <= self.month && self.month <= 12 && 1 <= self.day && self.day
            <= days_in_month_exec(self.year, self.month) && self.hour < 24 && self.minute < 60
            && self.second < 60 && -86400 < self.offset_seconds && self.offset_seconds < 86400
    }

    pub fn new(
        year: u16,
        month: u8,
        day: u8,
        hour: u8,
        minute: u8,
        second: u8,
        offset_seconds: i32,
    ) -> (r: Self)
        requires
            (CustomDicomDateTime { year, month, day, hour, minute, second, offset_seconds }).wf(),
        ensures
            r == (CustomDicomDateTime { year, month, day, hour, minute, second, offset_seconds }),
            r.wf(),
    {
        CustomDicomDateTime { year, month, day, hour, minute, second, offset_seconds }
    }
}

/// The numeric value of one decimal digit; 10 marks a character that is no
/// decimal digit.
pub open spec fn dec_digit_val(c: char) -> int {
    match c {
        '0' => 0,
        '1' => 1,
        '2' => 2,
        '3' => 3,
        '4' => 4,
        '5' => 5,
        '6' => 6,
        '7' => 7,
        '8' => 8,
        '9' => 9,
        _ => 10,
    }
}

pub open spec fn is_dec_digit(c: char) -> bool {
    dec_digit_val(c) < 10
}

/// The value of a digit string read as decimal.
pub open spec fn dec_value(s: Seq<char>) -> int
    decreases s.len(),
{
    if s.len() == 0 {
        0
    } else {
        10 * dec_value(s.drop_last()) + dec_digit_val(s.last())
    }
}

pub open spec fn all_dec_digits(s: Seq<char>) -> bool {
    forall|i: int| 0 <= i < s.len() ==> is_dec_digit(#[trigger] s[i])
}

/// Powers of ten, used to bound the value of short digit strings.
pub open spec fn pow10(k: nat) -> int
    decreases k,
{
    if k == 0 {
        1
    } else {
        10 * pow10((k - 1) as nat)
    }
}

proof fn lemma_dec_value_bound(s: Seq<char>)
    requires
        all_dec_digits(s),
    ensures
        0 <= dec_value(s) < pow10(s.len()),
    decreases s.len(),
{
    if s.len() > 0 {
        assert(all_dec_digits(s.drop_last())) by {
            assert(forall|i: int| 0 <= i < s.len() - 1 ==> s.drop_last()[i] == s[i]);
        }
        lemma_dec_value_bound(s.drop_last());
        assert(is_dec_digit(s.last()));
    }
}

fn dec_digit_value(c: char) -> (d: u16)
    ensures
        d as int == dec_digit_val(c),
{
    match c {
        '0' => 0,
        '1' => 1,
        '2' => 2,
        '3' => 3,
        '4' => 4,
        '5' => 5,
        '6' => 6,
        '7' => 7,
        '8' => 8,
        '9' => 9,
        _ => 10,
    }
}

/// Reads the decimal digits of `s` between the character positions `from`
/// and `to`; `None` when a character there is no decimal digit.
fn parse_dec(s: &str, from: usize, to: usize) -> (r: Option<u16>)
    requires
        from <= to <= s@.len(),
        to - from <= 4,
    ensures
        r is Some <==> all_dec_digits(s@.subrange(from as int, to as int)),
        r matches Some(v) ==> v as int == dec_value(s@.subrange(from as int, to as int)),
{
    let ghost t = s@.subrange(from as int, to as int);
    let mut val: u16 = 0;
    let mut i: usize = from;
    while i < to
        invariant
            from <= i <= to <= s@.len(),
            to - from <= 4,
            t == s@.subrange(from as int, to as int),
            all_dec_digits(s@.subrange(from as int, i as int)),
            val as int == dec_value(s@.subrange(from as int, i as int)),
            val < 10000,
        decreases to - i,
    {
        let c = s.get_char(i);
        let d = dec_digit_value(c);
        if d >= 10 {
            proof {
                assert(t[i - from] == s@[i as int]);
            }
            return None;
        }
        proof {
            assert(s@.subrange(from as int, i + 1).drop_last() =~= s@.subrange(
                from as int,
                i as int,
            ));
            lemma_dec_value_bound(s@.subrange(from as int, i as int));
            reveal_with_fuel(pow10, 5);
        }
        val = val * 10 + d;
        i = i + 1;
    }
    proof {
        assert(s@.subrange(from as int, to as int) == t);
    }
    Some(val)
}

/// Date text is valid when it reads `yyyy-mm-dd` or `yyyy-m-d`: a four-digit
/// year and one- or two-digit month and day, hyphen-separated, forming a
/// real calendar date.
pub open spec fn valid_date_text(s: Seq<char>) -> bool {
    exists|ml: int, dl: int|
        #[trigger] date_shape(s, ml, dl) && {
            let y = dec_value(s.take(4));
            let m = dec_value(s.subrange(5, 5 + ml));
            let d = dec_value(s.skip(6 + ml));
            &&& 1 <= m <= 12
            &&& 1 <= d <= days_in_month(y, m)
        }
}

/// `s` splits as a four-digit year, a month of `ml` digits and a day of `dl`
/// digits, with hyphens between.
pub open spec fn date_shape(s: Seq<char>, ml: int, dl: int) -> bool {
    &&& 1 <= ml <= 2
    &&& 1 <= dl <= 2
    &&& s.len() == 6 + ml + dl
    &&& s[4] == '-'
    &&& s[5 + ml] == '-'
    &&& all_dec_digits(s.take(4))
    &&& all_dec_digits(s.subrange(5, 5 + ml))
    &&& all_dec_digits(s.skip(6 + ml))
}

/// The date that valid date text denotes, at midnight UTC.
pub open spec fn spec_parse_date(s: Seq<char>) -> CustomDicomDateTime
    recommends
        valid_date_text(s),
{
    let (ml, dl): (int, int) = choose|ml: int, dl: int| date_shape(s, ml, dl);
    CustomDicomDateTime {
        year: dec_value(s.take(4)) as u16,
        month: dec_value(s.subrange(5, 5 + ml)) as u8,
        day: dec_value(s.skip(6 + ml)) as u8,
        hour: 0,
        minute: 0,
        second: 0,
        offset_seconds: 0,
    }
}

/// The shape split of date text is unique: the month token's length is
/// decided by which position holds the second hyphen.
proof fn lemma_date_shape_unique(s: Seq<char>, ml: int, dl: int)
    requires
        date_shape(s, ml, dl),
    ensures
        forall|ml2: int, dl2: int| date_shape(s, ml2, dl2) ==> ml2 == ml && dl2 == dl,
{
    assert forall|ml2: int, dl2: int| date_shape(s, ml2, dl2) implies ml2 == ml && dl2 == dl by {
        if ml2 != ml {
            if ml < ml2 {
                assert(s[5 + ml] == '-');
                assert(is_dec_digit(s.subrange(5, 5 + ml2)[ml]));
            } else {
                assert(s[5 + ml2] == '-');
                assert(is_dec_digit(s.subrange(5, 5 + ml)[ml2]));
            }
        }
    }
}

fn days_in_month_exec(y: u16, m: u8) -> (r: u8)
    ensures
        r as int == days_in_month(y as int, m as int),
{
    if m == 2 {
        if (y % 4 == 0) && (y % 100 != 0 || y % 400 == 0) {
            29
        } else {
            28
        }
    } else if m == 4 || m == 6 || m == 9 || m == 11 {
        30
    } else {
        31
    }
}

/// Parses `yyyy-mm-dd` (or `yyyy-m-d`) date text into a date at midnight
/// UTC, rejecting anything that is not a real calendar date.
pub fn parse_date(value: &str) -> (r: Result<CustomDicomDateTime, ValueParseError>)
    ensures
        r is Ok <==> valid_date_text(value@),
        r matches Ok(d) ==> d == spec_parse_date(value@) && d.wf(),
        r matches Err(e) ==> (e matches ValueParseError::InvalidDate { text } && text@ == value@),
{
    let n = value.unicode_len();
    if n < 8 || n > 10 {
        proof {
            assert(forall|ml: int, dl: int| #[trigger]
                date_shape(value@, ml, dl) ==> 8 <= value@.len() <= 10);
        }
        return Err(ValueParseError::InvalidDate { text: String::from_str(value) });
    }
    if value.get_char(4) != '-' {
        return Err(ValueParseError::InvalidDate { text: String::from_str(value) });
    }
    let ml: usize = if value.get_char(6) == '-' {
        1
    } else if n >= 9 && value.get_char(7) == '-' {
        2
    } else {
        proof {
            assert forall|ml2: int, dl2: int| !date_shape(value@, ml2, dl2) by {
                if date_shape(value@, ml2, dl2) {
                    assert(value@[5 + ml2] == '-');
                }
            }
        }
        return Err(ValueParseError::InvalidDate { text: String::from_str(value) });
    };
    let dl = n - 6 - ml;
    if dl < 1 || dl > 2 {
        proof {
            assert forall|ml2: int, dl2: int| !date_shape(value@, ml2, dl2) by {
                if date_shape(value@, ml2, dl2) {
                    if ml2 != ml {
                        if ml == 1 {
                            assert(is_dec_digit(value@.subrange(5, 5 + ml2)[1]));
                        } else {
                            assert(is_dec_digit(value@.skip(6 + ml2)[0]));
                        }
                    }
                }
            }
        }
        return Err(ValueParseError::InvalidDate { text: String::from_str(value) });
    }
    let y = match parse_dec(value, 0, 4) {
        Some(v) => v,
        None => {
            proof {
                assert(forall|ml2: int, dl2: int| #[trigger]
                    date_shape(value@, ml2, dl2) ==> all_dec_digits(value@.take(4)));
                assert(value@.take(4) =~= value@.subrange(0, 4));
            }
            return Err(ValueParseError::InvalidDate { text: String::from_str(value) });
        },
    };
    let m = match parse_dec(value, 5, 5 + ml) {
        Some(v) => v,
        None => {
            proof {
                lemma_no_shape_when_month_bad(value@, ml as int);
            }
            return Err(ValueParseError::InvalidDate { text: String::from_str(value) });
        },
    };
    let d = match parse_dec(value, 6 + ml, n) {
        Some(v) => v,
        None => {
            proof {
                lemma_no_shape_when_day_bad(value@, ml as int);
            }
            return Err(ValueParseError::InvalidDate { text: String::from_str(value) });
        },
    };
    proof {
        assert(value@.take(4) =~= value@.subrange(0, 4));
        assert(value@.skip(6 + ml) =~= value@.subrange(6 + ml, n as int));
        assert(date_shape(value@, ml as int, dl as int));
    }
    if m < 1 || m > 12 {
        proof {
            lemma_date_shape_unique(value@, ml as int, dl as int);
        }
        return Err(ValueParseError::InvalidDate { text: String::from_str(value) });
    }
    let dim = days_in_month_exec(y, m as u8);
    if d < 1 || d > dim as u16 {
        proof {
            lemma_date_shape_unique(value@, ml as int, dl as int);
        }
        return Err(ValueParseError::InvalidDate { text: String::from_str(value) });
    }
    proof {
        lemma_date_shape_unique(value@, ml as int, dl as int);
        let (ml0, dl0): (int, int) = choose|ml0: int, dl0: int| date_shape(value@, ml0, dl0);
        assert(ml0 == ml as int);
        lemma_year_bound(value@);
    }
    Ok(CustomDicomDateTime {
        year: y,
        month: m as u8,
        day: d as u8,
        hour: 0,
        minute: 0,
        second: 0,
        offset_seconds: 0,
    })
}

/// If the month token holds a non-digit, no split of the text fits the date
/// shape: any other split would put a hyphen or that character inside one of
/// its digit runs.
proof fn lemma_no_shape_when_month_bad(s: Seq<char>, ml: int)
    requires
        1 <= ml <= 2,
        5 + ml < s.len(),
        s[4] == '-',
        s[5 + ml] == '-',
        ml == 2 ==> s[6] != '-',
        !all_dec_digits(s.subrange(5, 5 + ml)),
    ensures
        forall|ml2: int, dl2: int| !#[trigger] date_shape(s, ml2, dl2),
{
    assert forall|ml2: int, dl2: int| !#[trigger] date_shape(s, ml2, dl2) by {
        if date_shape(s, ml2, dl2) {
            if ml2 == ml {
                assert(all_dec_digits(s.subrange(5, 5 + ml)));
            } else if ml2 > ml {
                assert(is_dec_digit(s.subrange(5, 5 + ml2)[ml]));
            } else {
                assert(s[5 + ml2] == '-');
            }
        }
    }
}

/// If the day token holds a non-digit, no split of the text fits the date
/// shape.
proof fn lemma_no_shape_when_day_bad(s: Seq<char>, ml: int)
    requires
        1 <= ml <= 2,
        5 + ml < s.len(),
        s[4] == '-',
        s[5 + ml] == '-',
        !all_dec_digits(s.skip(6 + ml)),
    ensures
        forall|ml2: int, dl2: int| !#[trigger] date_shape(s, ml2, dl2),
{
    assert forall|ml2: int, dl2: int| !#[trigger] date_shape(s, ml2, dl2) by {
        if date_shape(s, ml2, dl2) {
            if ml2 == ml {
                assert(all_dec_digits(s.skip(6 + ml)));
            } else if ml2 > ml {
                assert(is_dec_digit(s.subrange(5, 5 + ml2)[ml]));
            } else {
                assert(is_dec_digit(s.skip(6 + ml2)[ml - ml2 - 1]));
                assert(s.skip(6 + ml2)[ml - ml2 - 1] == s[5 + ml]);
            }
        }
    }
}

/// Date-time text is valid when it reads `yyyy-mm-dd hh:mm:ss +hh:mm`,
/// fixed-width, naming a real calendar date and time of day.
pub open spec fn valid_datetime_text(s: Seq<char>) -> bool {
    &&& s.len() == 26
    &&& all_dec_digits(s.take(4))
    &&& s[4] == '-'
    &&& all_dec_digits(s.subrange(5, 7))
    &&& s[7] == '-'
    &&& all_dec_digits(s.subrange(8, 10))
    &&& s[10] == ' '
    &&& all_dec_digits(s.subrange(11, 13))
    &&& s[13] == ':'
    &&& all_dec_digits(s.subrange(14, 16))
    &&& s[16] == ':'
    &&& all_dec_digits(s.subrange(17, 19))
    &&& s[19] == ' '
    &&& (s[20] == '+' || s[20] == '-')
    &&& all_dec_digits(s.subrange(21, 23))
    &&& s[23] == ':'
    &&& all_dec_digits(s.subrange(24, 26))
    &&& 1 <= dec_value(s.subrange(5, 7)) <= 12
    &&& 1 <= dec_value(s.subrange(8, 10)) <= days_in_month(
        dec_value(s.take(4)),
        dec_value(s.subrange(5, 7)),
    )
    &&& dec_value(s.subrange(11, 13)) < 24
    &&& dec_value(s.subrange(14, 16)) < 60
    &&& dec_value(s.subrange(17, 19)) < 60
    &&& dec_value(s.subrange(21, 23)) < 24
    &&& dec_value(s.subrange(24, 26)) < 60
}

/// The date-time that valid date-time text denotes.
pub open spec fn spec_parse_datetime(s: Seq<char>) -> CustomDicomDateTime
    recommends
        valid_datetime_text(s),
{
    let off = 3600 * dec_value(s.subrange(21, 23)) + 60 * dec_value(s.subrange(24, 26));
    CustomDicomDateTime {
        year: dec_value(s.take(4)) as u16,
        month: dec_value(s.subrange(5, 7)) as u8,
        day: dec_value(s.subrange(8, 10)) as u8,
        hour: dec_value(s.subrange(11, 13)) as u8,
        minute: dec_value(s.subrange(14, 16)) as u8,
        second: dec_value(s.subrange(17, 19)) as u8,
        offset_seconds: (if s[20] == '-' {
            -off
        } else {
            off
        }) as i32,
    }
}

/// Parses fixed-width `yyyy-mm-dd hh:mm:ss +hh:mm` date-time text,
/// rejecting anything that is not a real calendar date and time of day.
pub fn parse_datetime_text(value: &str) -> (r: Result<CustomDicomDateTime, ValueParseError>)
    ensures
        r is Ok <==> valid_datetime_text(value@),
        r matches Ok(d) ==> d == spec_parse_datetime(value@) && d.wf(),
        r matches Err(e) ==> (e matches ValueParseError::InvalidDateTime { text } && text@
            == value@),
{
    let n = value.unicode_len();
    if n != 26 {
        return Err(ValueParseError::InvalidDateTime { text: String::from_str(value) });
    }
    if value.get_char(4) != '-' || value.get_char(7) != '-' || value.get_char(10) != ' '
        || value.get_char(13) != ':' || value.get_char(16) != ':' || value.get_char(19) != ' '
        || value.get_char(23) != ':' {
        return Err(ValueParseError::InvalidDateTime { text: String::from_str(value) });
    }
    let sign = value.get_char(20);
    if sign != '+' && sign != '-' {
        return Err(ValueParseError::InvalidDateTime { text: String::from_str(value) });
    }
    proof {
        assert(value@.take(4) =~= value@.subrange(0, 4));
    }
    let year = match parse_dec(value, 0, 4) {
        Some(v) => v,
        None => {
            return Err(ValueParseError::InvalidDateTime { text: String::from_str(value) });
        },
    };
    let month = match parse_dec(value, 5, 7) {
        Some(v) => v,
        None => {
            return Err(ValueParseError::InvalidDateTime { text: String::from_str(value) });
        },
    };
    let day = match parse_dec(value, 8, 10) {
        Some(v) => v,
        None => {
            return Err(ValueParseError::InvalidDateTime { text: String::from_str(value) });
        },
    };
    let hour = match parse_dec(value, 11, 13) {
        Some(v) => v,
        None => {
            return Err(ValueParseError::InvalidDateTime { text: String::from_str(value) });
        },
    };
    let minute = match parse_dec(value, 14, 16) {
        Some(v) => v,
        None => {
            return Err(ValueParseError::InvalidDateTime { text: String::from_str(value) });
        },
    };
    let second = match parse_dec(value, 17, 19) {
        Some(v) => v,
        None => {
            return Err(ValueParseError::InvalidDateTime { text: String::from_str(value) });
        },
    };
    let offh = match parse_dec(value, 21, 23) {
        Some(v) => v,
        None => {
            return Err(ValueParseError::InvalidDateTime { text: String::from_str(value) });
        },
    };
    let offm = match parse_dec(value, 24, 26) {
        Some(v) => v,
        None => {
            return Err(ValueParseError::InvalidDateTime { text: String::from_str(value) });
        },
    };
    if month < 1 || month > 12 {
        return Err(ValueParseError::InvalidDateTime { text: String::from_str(value) });
    }
    let dim = days_in_month_exec(year, month as u8);
    if day < 1 || day > dim as u16 {
        return Err(ValueParseError::InvalidDateTime { text: String::from_str(value) });
    }
    if hour >= 24 || minute >= 60 || second >= 60 || offh >= 24 || offm >= 60 {
        return Err(ValueParseError::InvalidDateTime { text: String::from_str(value) });
    }
    proof {
        lemma_year_bound(value@);
    }
    let off: i32 = 3600 * (offh as i32) + 60 * (offm as i32);
    let offset_seconds: i32 = if sign == '-' {
        -off
    } else {
        off
    };
    Ok(CustomDicomDateTime {
        year,
        month: month as u8,
        day: day as u8,
        hour: hour as u8,
        minute: minute as u8,
        second: second as u8,
        offset_seconds,
    })
}

/// The last `k` decimal digits of `v`, most significant first.
pub open spec fn dec_digits(v: int, k: nat) -> Seq<char>
    decreases k,
{
    if k == 0 {
        Seq::empty()
    } else {
        dec_digits(v / 10, (k - 1) as nat).push(crate::tag::hex_char_of(v % 10))
    }
}

/// The canonical `yyyy-mm-dd hh:mm:ss +hh:mm` text of a date-time.
pub open spec fn spec_datetime_text(t: CustomDicomDateTime) -> Seq<char> {
    let off = if t.offset_seconds < 0 {
        -t.offset_seconds as int
    } else {
        t.offset_seconds as int
    };
    let sign: char = if t.offset_seconds < 0 {
        '-'
    } else {
        '+'
    };
    dec_digits(t.year as int, 4) + seq!['-'] + dec_digits(t.month as int, 2) + seq!['-']
        + dec_digits(t.day as int, 2) + seq![' '] + dec_digits(t.hour as int, 2) + seq![':']
        + dec_digits(t.minute as int, 2) + seq![':'] + dec_digits(t.second as int, 2) + seq![
        ' ',
        sign,
    ] + dec_digits(off / 3600, 2) + seq![':'] + dec_digits(off % 3600 / 60, 2)
}

fn append_dec2(s: &mut String, v: u16)
    requires
        v < 100,
    ensures
        final(s)@ == old(s)@ + dec_digits(v as int, 2),
{
    crate::tag::append_hex_digit(s, v / 10);
    crate::tag::append_hex_digit(s, v % 10);
    proof {
        reveal_with_fuel(dec_digits, 3);
        assert(dec_digits(v as int, 2) =~= seq![
            crate::tag::hex_char_of(v as int / 10 % 10),
            crate::tag::hex_char_of(v as int % 10),
        ]);
        assert(v as int / 10 % 10 == v as int / 10);
    }
}

fn append_dec4(s: &mut String, v: u16)
    requires
        v < 10000,
    ensures
        final(s)@ == old(s)@ + dec_digits(v as int, 4),
{
    let v1 = v / 10;
    let v2 = v1 / 10;
    let v3 = v2 / 10;
    crate::tag::append_hex_digit(s, v3 % 10);
    crate::tag::append_hex_digit(s, v2 % 10);
    crate::tag::append_hex_digit(s, v1 % 10);
    crate::tag::append_hex_digit(s, v % 10);
    proof {
        reveal_with_fuel(dec_digits, 5);
        assert(dec_digits(v as int, 4) =~= seq![
            crate::tag::hex_char_of(v3 as int % 10),
            crate::tag::hex_char_of(v2 as int % 10),
            crate::tag::hex_char_of(v1 as int % 10),
            crate::tag::hex_char_of(v as int % 10),
        ]);
    }
}

impl CustomDicomDateTime {
    /// Renders the canonical `yyyy-mm-dd hh:mm:ss +hh:mm` text of this
    /// date-time.
    pub fn to_datetime_text(&self) -> (r: String)
        requires
            self.wf(),
        ensures
            r@ == spec_datetime_text(*self),
    {
        let mut s = String::new();
        proof {
            reveal_strlit("-");
            reveal_strlit(" ");
            reveal_strlit(":");
            reveal_strlit("+");
            assert("-"@ =~= seq!['-']);
            assert(" "@ =~= seq![' ']);
            assert(":"@ =~= seq![':']);
            assert("+"@ =~= seq!['+']);
        }
        append_dec4(&mut s, self.year);
        s.append("-");
        append_dec2(&mut s, self.month as u16);
        s.append("-");
        append_dec2(&mut s, self.day as u16);
        s.append(" ");
        append_dec2(&mut s, self.hour as u16);
        s.append(":");
        append_dec2(&mut s, self.minute as u16);
        s.append(":");
        append_dec2(&mut s, self.second as u16);
        s.append(" ");
        let off: i32 = if self.offset_seconds < 0 {
            s.append("-");
            -self.offset_seconds
        } else {
            s.append("+");
            self.offset_seconds
        };
        append_dec2(&mut s, (off / 3600) as u16);
        s.append(":");
        append_dec2(&mut s, (off % 3600 / 60) as u16);
        proof {
            assert(s@ =~= spec_datetime_text(*self));
        }
        s
    }
}

proof fn lemma_year_bound(s: Seq<char>)
    requires
        s.len() >= 4,
        all_dec_digits(s.take(4)),
    ensures
        0 <= dec_value(s.take(4)) < 10000,
{
    lemma_dec_value_bound(s.take(4));
    reveal_with_fuel(pow10, 5);
}

} // verus!
