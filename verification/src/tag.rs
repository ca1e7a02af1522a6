//! Field addresses: the (group, element) pair that identifies one attribute
//! of a DICOM record, with parsing from and rendering to the hyphenated
//! hex-pair text form `0xGGGG-0xEEEE`.

use vstd::prelude::*;

verus! {

use vstd::arithmetic::div_mod::{
    lemma_fundamental_div_mod,
    lemma_mod_bound,
    lemma_multiply_divide_lt,
};

/// A field address, written in text form as `0xGGGG-0xEEEE`.
#[derive(Debug, Clone, Copy, PartialEq, Eq, Structural)]
pub struct CustomTag {
    pub group: u16,
    pub element: u16,
}

impl CustomTag {
    pub fn new(group: u16, element: u16) -> (r: Self)
        ensures
            r == (CustomTag { group, element }),
    {
        CustomTag { group, element }
    }

    /// Converts a list of plain (group, element) pairs into a list of addresses.
    pub fn from_vec(pairs: Vec<(u16, u16)>) -> (r: Vec<CustomTag>)
        ensures
            r@.len() == pairs@.len(),
            forall|i: int|
                0 <= i < pairs@.len() ==> r@[i] == (CustomTag {
                    group: pairs@[i].0,
                    element: pairs@[i].1,
                }),
    {
        let mut r: Vec<CustomTag> = Vec::new();
        let mut i: usize = 0;
        while i < pairs.len()
            invariant
                i <= pairs@.len(),
                r@.len() == i,
                forall|j: int|
                    0 <= j < i ==> r@[j] == (CustomTag {
                        group: pairs@[j].0,
                        element: pairs@[j].1,
                    }),
            decreases pairs@.len() - i,
        {
            let (g, e) = pairs[i];
            r.push(CustomTag { group: g, element: e });
            i = i + 1;
        }
        r
    }
}

/// The numeric value of one hex digit; 16 marks a character that is no hex digit.
pub open spec fn hex_digit_val(c: char) -> int {
    match c {
        '0' => 0,
        '1' => 1,
        '2' => 2,
        '3' => 3,
        '4' => 4,
        '5' => 5,
        '6' => 6,
        '7' => 7,
        '8' => 8,
        '9' => 9,
        'a' | 'A' => 10,
        'b' | 'B' => 11,
        'c' | 'C' => 12,
        'd' | 'D' => 13,
        'e' | 'E' => 14,
        'f' | 'F' => 15,
        _ => 16,
    }
}

pub open spec fn is_hex_digit(c: char) -> bool {
    hex_digit_val(c) < 16
}

/// The value of a digit string read as big-endian hexadecimal.
pub open spec fn hex_value(s: Seq<char>) -> int
    decreases s.len(),
{
    if s.len() == 0 {
        0
    } else {
        16 * hex_value(s.drop_last()) + hex_digit_val(s.last())
    }
}

/// Drops one leading `0x`, if present.
pub open spec fn strip_hex_prefix(s: Seq<char>) -> Seq<char> {
    if s.len() >= 2 && s[0] == '0' && s[1] == 'x' {
        s.skip(2)
    } else {
        s
    }
}

/// A token is valid when, after an optional `0x` prefix, it is a non-empty
/// run of hex digits whose value fits in 16 bits.
pub open spec fn valid_hex_token(s: Seq<char>) -> bool {
    let t = strip_hex_prefix(s);
    &&& t.len() > 0
    &&& forall|i: int| 0 <= i < t.len() ==> is_hex_digit(#[trigger] t[i])
    &&& hex_value(t) <= 0xFFFF
}

pub open spec fn token_value(s: Seq<char>) -> int {
    hex_value(strip_hex_prefix(s))
}

/// Position `i` holds the only hyphen of `s`, so `s` has exactly two
/// hyphen-delimited tokens.
pub open spec fn lone_hyphen_at(s: Seq<char>, i: int) -> bool {
    &&& 0 <= i < s.len()
    &&& s[i] == '-'
    &&& forall|j: int| 0 <= j < s.len() && j != i ==> s[j] != '-'
}

pub open spec fn has_two_tokens(s: Seq<char>) -> bool {
    exists|i: int| lone_hyphen_at(s, i)
}

/// Tag text is valid when it is two valid hex tokens joined by one hyphen.
pub open spec fn valid_tag_text(s: Seq<char>) -> bool {
    exists|i: int|
        lone_hyphen_at(s, i) && valid_hex_token(s.take(i)) && valid_hex_token(s.skip(i + 1))
}

/// The address that valid tag text denotes.
pub open spec fn spec_parse_tag(s: Seq<char>) -> CustomTag
    recommends
        valid_tag_text(s),
{
    let i = choose|i: int| lone_hyphen_at(s, i);
    CustomTag {
        group: token_value(s.take(i)) as u16,
        element: token_value(s.skip(i + 1)) as u16,
    }
}

/// Why a piece of tag text was rejected: either it does not consist of
/// exactly two hyphen-delimited tokens, or a token is not valid hex.
#[derive(Debug, Clone, PartialEq, Eq)]
pub enum TagParseError {
    WrongPartCount { text: String },
    InvalidHex,
}

impl TagParseError {
    /// A human-readable description naming the offending input.
    pub fn message(&self) -> (r: String)
        ensures
            self matches TagParseError::WrongPartCount { text } ==> r@
                == "Error while parsing tags, has to be 0x____-0x____ but received "@ + text@,
            self is InvalidHex ==> r@ == "Error while parsing input as hex number"@,
    {
        match self {
            TagParseError::WrongPartCount { text } => {
                let s = String::from_str("Error while parsing tags, has to be 0x____-0x____ but received ");
                s.concat(text.as_str())
            },
            TagParseError::InvalidHex => String::from_str("Error while parsing input as hex number"),
        }
    }
}

fn hex_digit_value(c: char) -> (d: u16)
    ensures
        d as int == hex_digit_val(c),
{
    match c {
        '0' => 0,
        '1' => 1,
        '2' => 2,
        '3' => 3,
        '4' => 4,
        '5' => 5,
        '6' => 6,
        '7' => 7,
        '8' => 8,
        '9' => 9,
        'a' | 'A' => 10,
        'b' | 'B' => 11,
        'c' | 'C' => 12,
        'd' | 'D' => 13,
        'e' | 'E' => 14,
        'f' | 'F' => 15,
        _ => 16,
    }
}

proof fn lemma_hex_value_nonneg(s: Seq<char>)
    ensures
        hex_value(s) >= 0,
    decreases s.len(),
{
    if s.len() > 0 {
        lemma_hex_value_nonneg(s.drop_last());
    }
}

/// The value of a prefix never exceeds the value of the whole digit string.
proof fn lemma_hex_value_take_le(s: Seq<char>, a: int)
    requires
        0 <= a <= s.len(),
    ensures
        hex_value(s.take(a)) <= hex_value(s),
    decreases s.len() - a,
{
    if a == s.len() {
        assert(s.take(a) =~= s);
    } else {
        assert(s.take(a + 1).drop_last() =~= s.take(a));
        lemma_hex_value_nonneg(s.take(a));
        assert(hex_value(s.take(a + 1)) == 16 * hex_value(s.take(a)) + hex_digit_val(
            s.take(a + 1).last(),
        ));
        lemma_hex_value_take_le(s, a + 1);
    }
}

/// Reads one hyphen-free token as hexadecimal, honouring an optional `0x`
/// prefix; `None` when the token is empty, holds a non-hex character, or
/// overflows 16 bits.
fn parse_hex_token(tok: &str) -> (r: Option<u16>)
    ensures
        r is Some <==> valid_hex_token(tok@),
        r matches Some(v) ==> v as int == token_value(tok@),
{
    let n = tok.unicode_len();
    let start: usize = if n >= 2 && tok.get_char(0) == '0' && tok.get_char(1) == 'x' {
        2
    } else {
        0
    };
    let ghost t = strip_hex_prefix(tok@);
    proof {
        assert(t =~= tok@.skip(start as int));
    }
    if n == start {
        return None;
    }
    let mut val: u32 = 0;
    let mut i: usize = start;
    while i < n
        invariant
            start <= i <= n,
            n == tok@.len(),
            t == strip_hex_prefix(tok@),
            t =~= tok@.skip(start as int),
            val <= 0xFFFF,
            val as int == hex_value(tok@.subrange(start as int, i as int)),
            forall|j: int| start <= j < i ==> is_hex_digit(#[trigger] tok@[j]),
        decreases n - i,
    {
        let c = tok.get_char(i);
        let d = hex_digit_value(c);
        if d >= 16 {
            proof {
                assert(t[i - start] == tok@[i as int]);
                assert(!is_hex_digit(t[i - start]));
            }
            return None;
        }
        let nv: u32 = val * 16 + d as u32;
        proof {
            assert(tok@.subrange(start as int, i + 1).drop_last() =~= tok@.subrange(
                start as int,
                i as int,
            ));
        }
        if nv > 0xFFFF {
            proof {
                assert(t.take(i + 1 - start) =~= tok@.subrange(start as int, i + 1));
                lemma_hex_value_take_le(t, i + 1 - start);
                assert(hex_value(t) > 0xFFFF);
            }
            return None;
        }
        val = nv;
        i = i + 1;
    }
    proof {
        assert(tok@.subrange(start as int, n as int) =~= t);
        assert(forall|j: int| 0 <= j < t.len() ==> is_hex_digit(#[trigger] t[j]));
    }
    Some(val as u16)
}

/// Parses `0xGGGG-0xEEEE` tag text into a field address.
///
/// Exactly two hyphen-delimited tokens are required, each a hex number that
/// fits in 16 bits; otherwise the text is rejected, never panicking.
pub fn parse_tag(value: &str) -> (r: Result<CustomTag, TagParseError>)
    ensures
        r is Ok <==> valid_tag_text(value@),
        r matches Ok(t) ==> t == spec_parse_tag(value@),
        !has_two_tokens(value@) ==> (r matches Err(e) && e matches TagParseError::WrongPartCount {
            text,
        } && text@ == value@),
        has_two_tokens(value@) && !valid_tag_text(value@) ==> r == Err::<
            CustomTag,
            TagParseError,
        >(TagParseError::InvalidHex),
{
    let n = value.unicode_len();
    let mut first: Option<usize> = None;
    let mut second: Option<usize> = None;
    let mut i: usize = 0;
    while i < n
        invariant
            i <= n,
            n == value@.len(),
            first is None ==> (second is None && forall|j: int| 0 <= j < i ==> value@[j] != '-'),
            first matches Some(k) ==> (k < i && value@[k as int] == '-' && forall|j: int|
                0 <= j < k ==> value@[j] != '-'),
            first matches Some(k) ==> (second is None ==> forall|j: int|
                k < j < i ==> value@[j] != '-'),
            second matches Some(k2) ==> (first matches Some(k) && k < k2 < i && value@[k2 as int]
                == '-'),
        decreases n - i,
    {
        if value.get_char(i) == '-' {
            if first.is_none() {
                first = Some(i);
            } else if second.is_none() {
                second = Some(i);
            }
        }
        i = i + 1;
    }
    let k = match (first, second) {
        (Some(k), None) => k,
        (None, _) => {
            proof {
                assert(forall|j: int| lone_hyphen_at(value@, j) ==> value@[j] == '-');
                assert(!has_two_tokens(value@));
            }
            return Err(TagParseError::WrongPartCount { text: String::from_str(value) });
        },
        (Some(ka), Some(kb)) => {
            proof {
                assert forall|j: int| !lone_hyphen_at(value@, j) by {
                    if lone_hyphen_at(value@, j) {
                        assert(j != ka as int || j != kb as int);
                    }
                }
            }
            return Err(TagParseError::WrongPartCount { text: String::from_str(value) });
        },
    };
    proof {
        assert(lone_hyphen_at(value@, k as int));
    }
    let group_txt = value.substring_char(0, k);
    let elem_txt = value.substring_char(k + 1, n);
    proof {
        assert(group_txt@ =~= value@.take(k as int));
        assert(elem_txt@ =~= value@.skip(k as int + 1));
    }
    let g = match parse_hex_token(group_txt) {
        Some(v) => v,
        None => {
            proof {
                lemma_lone_hyphen_unique(value@, k as int);
            }
            return Err(TagParseError::InvalidHex);
        },
    };
    let e = match parse_hex_token(elem_txt) {
        Some(v) => v,
        None => {
            proof {
                lemma_lone_hyphen_unique(value@, k as int);
            }
            return Err(TagParseError::InvalidHex);
        },
    };
    proof {
        lemma_lone_hyphen_unique(value@, k as int);
        let i0 = choose|i0: int| lone_hyphen_at(value@, i0);
        assert(i0 == k as int);
    }
    Ok(CustomTag { group: g, element: e })
}

/// The canonical character for one hex digit value: uppercase, `'0'` for
/// anything out of range.
pub open spec fn hex_char_of(d: int) -> char {
    if d == 0 {
        '0'
    } else if d == 1 {
        '1'
    } else if d == 2 {
        '2'
    } else if d == 3 {
        '3'
    } else if d == 4 {
        '4'
    } else if d == 5 {
        '5'
    } else if d == 6 {
        '6'
    } else if d == 7 {
        '7'
    } else if d == 8 {
        '8'
    } else if d == 9 {
        '9'
    } else if d == 10 {
        'A'
    } else if d == 11 {
        'B'
    } else if d == 12 {
        'C'
    } else if d == 13 {
        'D'
    } else if d == 14 {
        'E'
    } else if d == 15 {
        'F'
    } else {
        '0'
    }
}

/// The last `k` hex digits of `v`, most significant first.
pub open spec fn hex_digits(v: int, k: nat) -> Seq<char>
    decreases k,
{
    if k == 0 {
        Seq::empty()
    } else {
        hex_digits(v / 16, (k - 1) as nat).push(hex_char_of(v % 16))
    }
}

/// The canonical text of an address: `0x` prefixes, uppercase hex,
/// zero-padded to four digits per component.
pub open spec fn spec_tag_text(t: CustomTag) -> Seq<char> {
    seq!['0', 'x'] + hex_digits(t.group as int, 4) + seq!['-', '0', 'x'] + hex_digits(
        t.element as int,
        4,
    )
}

pub(crate) fn append_hex_digit(s: &mut String, d: u16)
    requires
        d < 16,
    ensures
        final(s)@ == old(s)@ + seq![hex_char_of(d as int)],
{
    match d {
        0 => {
            proof {
                reveal_strlit("0");
            }
            s.append("0")
        },
        1 => {
            proof {
                reveal_strlit("1");
            }
            s.append("1")
        },
        2 => {
            proof {
                reveal_strlit("2");
            }
            s.append("2")
        },
        3 => {
            proof {
                reveal_strlit("3");
            }
            s.append("3")
        },
        4 => {
            proof {
                reveal_strlit("4");
            }
            s.append("4")
        },
        5 => {
            proof {
                reveal_strlit("5");
            }
            s.append("5")
        },
        6 => {
            proof {
                reveal_strlit("6");
            }
            s.append("6")
        },
        7 => {
            proof {
                reveal_strlit("7");
            }
            s.append("7")
        },
        8 => {
            proof {
                reveal_strlit("8");
            }
            s.append("8")
        },
        9 => {
            proof {
                reveal_strlit("9");
            }
            s.append("9")
        },
        10 => {
            proof {
                reveal_strlit("A");
            }
            s.append("A")
        },
        11 => {
            proof {
                reveal_strlit("B");
            }
            s.append("B")
        },
        12 => {
            proof {
                reveal_strlit("C");
            }
            s.append("C")
        },
        13 => {
            proof {
                reveal_strlit("D");
            }
            s.append("D")
        },
        14 => {
            proof {
                reveal_strlit("E");
            }
            s.append("E")
        },
        15 => {
            proof {
                reveal_strlit("F");
            }
            s.append("F")
        },
        _ => {
            proof {
                assert(false);
            }
        },
    }
}

fn append_hex4(s: &mut String, v: u16)
    ensures
        final(s)@ == old(s)@ + hex_digits(v as int, 4),
{
    let v1 = v / 16;
    let v2 = v1 / 16;
    let v3 = v2 / 16;
    append_hex_digit(s, v3 % 16);
    append_hex_digit(s, v2 % 16);
    append_hex_digit(s, v1 % 16);
    append_hex_digit(s, v % 16);
    proof {
        reveal_with_fuel(hex_digits, 5);
        assert(hex_digits(v as int, 4) =~= seq![
            hex_char_of(v3 as int % 16),
            hex_char_of(v2 as int % 16),
            hex_char_of(v1 as int % 16),
            hex_char_of(v as int % 16),
        ]);
    }
}

impl CustomTag {
    /// Renders the canonical text form `0xGGGG-0xEEEE` of this address.
    pub fn to_text(&self) -> (r: String)
        ensures
            r@ == spec_tag_text(*self),
    {
        let mut s = String::new();
        proof {
            reveal_strlit("0x");
            reveal_strlit("-0x");
        }
        s.append("0x");
        append_hex4(&mut s, self.group);
        s.append("-0x");
        append_hex4(&mut s, self.element);
        proof {
            assert(s@ =~= spec_tag_text(*self));
        }
        s
    }
}

proof fn lemma_hex_char_of_inverse(d: int)
    requires
        0 <= d < 16,
    ensures
        is_hex_digit(hex_char_of(d)),
        hex_digit_val(hex_char_of(d)) == d,
        hex_char_of(d) != '-',
{
}

/// Four rendered hex digits are hex, are no hyphen, and read back as the
/// value they were rendered from.
proof fn lemma_hex_digits4_value(v: int)
    requires
        0 <= v < 0x10000,
    ensures
        hex_digits(v, 4).len() == 4,
        hex_value(hex_digits(v, 4)) == v,
        forall|i: int|
            0 <= i < 4 ==> is_hex_digit(#[trigger] hex_digits(v, 4)[i]) && hex_digits(v, 4)[i]
                != '-',
{
    reveal_with_fuel(hex_digits, 5);
    let v1 = v / 16;
    let v2 = v1 / 16;
    let v3 = v2 / 16;
    lemma_multiply_divide_lt(v, 16, 4096);
    lemma_multiply_divide_lt(v1, 16, 256);
    lemma_multiply_divide_lt(v2, 16, 16);
    lemma_mod_bound(v, 16);
    lemma_mod_bound(v1, 16);
    lemma_mod_bound(v2, 16);
    lemma_mod_bound(v3, 16);
    lemma_hex_char_of_inverse(v % 16);
    lemma_hex_char_of_inverse(v1 % 16);
    lemma_hex_char_of_inverse(v2 % 16);
    lemma_hex_char_of_inverse(v3 % 16);
    lemma_fundamental_div_mod(v, 16);
    lemma_fundamental_div_mod(v1, 16);
    lemma_fundamental_div_mod(v2, 16);
    lemma_fundamental_div_mod(v3, 16);
    let ds = hex_digits(v, 4);
    assert(ds =~= seq![
        hex_char_of(v3 % 16),
        hex_char_of(v2 % 16),
        hex_char_of(v1 % 16),
        hex_char_of(v % 16),
    ]);
    assert(hex_value(ds) == 16 * (16 * (16 * (v3 % 16) + (v2 % 16)) + (v1 % 16)) + (v % 16)) by {
        reveal_with_fuel(hex_value, 6);
        let d3 = seq![hex_char_of(v3 % 16), hex_char_of(v2 % 16), hex_char_of(v1 % 16)];
        let d2 = seq![hex_char_of(v3 % 16), hex_char_of(v2 % 16)];
        let d1 = seq![hex_char_of(v3 % 16)];
        assert(ds.drop_last() =~= d3);
        assert(d3.drop_last() =~= d2);
        assert(d2.drop_last() =~= d1);
        assert(d1.drop_last() =~= Seq::<char>::empty());
        assert(hex_value(d1) == v3 % 16);
        assert(hex_value(d2) == 16 * (v3 % 16) + (v2 % 16));
        assert(hex_value(d3) == 16 * hex_value(d2) + (v1 % 16));
        assert(hex_value(ds) == 16 * hex_value(d3) + (v % 16));
    }
}

/// Rendered tag text is valid and parses back to the address it was rendered
/// from: `to_text` is a right inverse of parsing.
pub proof fn lemma_to_text_parses(t: CustomTag)
    ensures
        valid_tag_text(spec_tag_text(t)),
        spec_parse_tag(spec_tag_text(t)) == t,
{
    let s = spec_tag_text(t);
    let g = t.group as int;
    let e = t.element as int;
    lemma_hex_digits4_value(g);
    lemma_hex_digits4_value(e);
    let bg = hex_digits(g, 4);
    let be = hex_digits(e, 4);
    assert(s =~= seq!['0', 'x'] + bg + seq!['-', '0', 'x'] + be);
    assert(s.len() == 13);
    assert forall|j: int| 0 <= j < s.len() && j != 6 implies s[j] != '-' by {
        if 2 <= j < 6 {
            assert(s[j] == bg[j - 2]);
        } else if 9 <= j < 13 {
            assert(s[j] == be[j - 9]);
        }
    }
    assert(s[6] == '-');
    assert(lone_hyphen_at(s, 6));
    let gt = s.take(6);
    let et = s.skip(7);
    assert(gt =~= seq!['0', 'x'] + bg);
    assert(et =~= seq!['0', 'x'] + be);
    assert(strip_hex_prefix(gt) =~= bg);
    assert(strip_hex_prefix(et) =~= be);
    assert(valid_hex_token(gt));
    assert(valid_hex_token(et));
    assert(valid_tag_text(s));
    lemma_lone_hyphen_unique(s, 6);
    let i0 = choose|i0: int| lone_hyphen_at(s, i0);
    assert(i0 == 6);
    assert(token_value(s.take(6)) == g);
    assert(token_value(s.skip(7)) == e);
}

/// Round trip: for any valid tag text, rendering the parsed address yields
/// canonical text that denotes the same address.
pub proof fn lemma_parse_round_trip(s: Seq<char>)
    requires
        valid_tag_text(s),
    ensures
        valid_tag_text(spec_tag_text(spec_parse_tag(s))),
        spec_parse_tag(spec_tag_text(spec_parse_tag(s))) == spec_parse_tag(s),
{
    lemma_to_text_parses(spec_parse_tag(s));
}

/// With the only hyphen standing at `i`, no other index can satisfy
/// `lone_hyphen_at`, so the token split is unambiguous.
proof fn lemma_lone_hyphen_unique(s: Seq<char>, i: int)
    requires
        lone_hyphen_at(s, i),
    ensures
        forall|j: int| lone_hyphen_at(s, j) ==> j == i,
        valid_tag_text(s) <==> valid_hex_token(s.take(i)) && valid_hex_token(s.skip(i + 1)),
{
    assert forall|j: int| lone_hyphen_at(s, j) implies j == i by {
        if j != i {
            assert(s[j] == '-');
            assert(s[j] != '-');
        }
    }
    if valid_hex_token(s.take(i)) && valid_hex_token(s.skip(i + 1)) {
        assert(lone_hyphen_at(s, i) && valid_hex_token(s.take(i)) && valid_hex_token(
            s.skip(i + 1),
        ));
    }
}

} // verus!
