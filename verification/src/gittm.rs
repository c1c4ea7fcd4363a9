//! The timestamp carried in the service's records, modeled as plain
//! calendar fields with the ISO-style wire shape `YYYY-MM-DDTHH:MM:SS`
//! followed by an offset.
//!
//! Formatting is total on valid values and emits a sign and four offset
//! digits.  Parsing takes the offset in any of the three forms the service
//! and the classic time parsers use — `Z` for zero, a sign and four digits,
//! or a sign and two digit pairs split by a colon — with every field in
//! range.  A `GitTm` whose fields are out of range cannot be represented on
//! the wire — that is the one way a payload of this client fails to encode.

use vstd::prelude::*;

use crate::codec::{spec_obj_get, JsonCodec, JsonDecode, JsonEncode};
use crate::json::{seq_view_fields, JsonVal, JsonValue};
use crate::text::{digit_char, digit_val, is_digit, str_to_chars, chars_to_string};

verus! {

broadcast use vstd::seq::group_seq_axioms, vstd::std_specs::vec::group_vec_axioms;

/// A calendar timestamp with a fixed offset from UTC.
#[derive(Clone, Copy, PartialEq, Eq, Structural, Debug)]
pub struct GitTm {
    pub year: u16,
    pub month: u8,
    pub day: u8,
    pub hour: u8,
    pub minute: u8,
    pub second: u8,
    /// Whether the offset is behind UTC.
    pub off_neg: bool,
    pub off_hour: u8,
    pub off_minute: u8,
}

impl GitTm {
    /// The ranges the wire shape can carry: four-digit year, calendar month
    /// and day, and a leap second allowed.
    pub open spec fn spec_valid(&self) -> bool {
        &&& self.year <= 9999
        &&& 1 <= self.month <= 12
        &&& 1 <= self.day <= 31
        &&& self.hour <= 23
        &&& self.minute <= 59
        &&& self.second <= 60
        &&& self.off_hour <= 23
        &&& self.off_minute <= 59
    }

    /// Checks the ranges.
    pub fn valid(&self) -> (r: bool)
        ensures
            r == self.spec_valid(),
    {
        self.year <= 9999 && 1 <= self.month && self.month <= 12 && 1 <= self.day && self.day <= 31
            && self.hour <= 23 && self.minute <= 59 && self.second <= 60 && self.off_hour <= 23
            && self.off_minute <= 59
    }
}

/// Two zero-padded digits.
pub open spec fn spec_pad2(n: nat) -> Seq<char>
    recommends
        n < 100,
{
    seq![digit_char(n / 10), digit_char(n % 10)]
}

/// Four zero-padded digits.
pub open spec fn spec_pad4(n: nat) -> Seq<char>
    recommends
        n < 10000,
{
    seq![
        digit_char(n / 1000),
        digit_char((n / 100) % 10),
        digit_char((n / 10) % 10),
        digit_char(n % 10),
    ]
}

/// The exact wire text of a timestamp.
pub open spec fn spec_format_tm(t: GitTm) -> Seq<char> {
    spec_pad4(t.year as nat) + seq!['-'] + spec_pad2(t.month as nat) + seq!['-'] + spec_pad2(
        t.day as nat,
    ) + seq!['T'] + spec_pad2(t.hour as nat) + seq![':'] + spec_pad2(t.minute as nat) + seq![':']
        + spec_pad2(t.second as nat) + seq![
        if t.off_neg {
            '-'
        } else {
            '+'
        },
    ] + spec_pad2(t.off_hour as nat) + spec_pad2(t.off_minute as nat)
}

/// Whether the calendar-and-clock prefix has the fixed shape
/// `YYYY-MM-DDTHH:MM:SS`.
pub open spec fn spec_tm_prefix_ok(s: Seq<char>) -> bool {
    &&& s.len() >= 19
    &&& is_digit(s[0])
    &&& is_digit(s[1])
    &&& is_digit(s[2])
    &&& is_digit(s[3])
    &&& s[4] == '-'
    &&& is_digit(s[5])
    &&& is_digit(s[6])
    &&& s[7] == '-'
    &&& is_digit(s[8])
    &&& is_digit(s[9])
    &&& s[10] == 'T'
    &&& is_digit(s[11])
    &&& is_digit(s[12])
    &&& s[13] == ':'
    &&& is_digit(s[14])
    &&& is_digit(s[15])
    &&& s[16] == ':'
    &&& is_digit(s[17])
    &&& is_digit(s[18])
}

/// The timestamp with the given prefix fields and offset, provided every
/// field is in range.
pub open spec fn spec_tm_make(s: Seq<char>, off_neg: bool, oh: nat, om: nat) -> Option<GitTm>
    recommends
        spec_tm_prefix_ok(s),
        oh < 100,
        om < 100,
{
    let t = GitTm {
        year: (digit_val(s[0]) * 1000 + digit_val(s[1]) * 100 + digit_val(s[2]) * 10 + digit_val(
            s[3],
        )) as u16,
        month: (digit_val(s[5]) * 10 + digit_val(s[6])) as u8,
        day: (digit_val(s[8]) * 10 + digit_val(s[9])) as u8,
        hour: (digit_val(s[11]) * 10 + digit_val(s[12])) as u8,
        minute: (digit_val(s[14]) * 10 + digit_val(s[15])) as u8,
        second: (digit_val(s[17]) * 10 + digit_val(s[18])) as u8,
        off_neg,
        off_hour: oh as u8,
        off_minute: om as u8,
    };
    if t.spec_valid() {
        Some(t)
    } else {
        None
    }
}

/// The timestamp a wire text carries: the fixed calendar-and-clock prefix,
/// then an offset in one of the three forms the original's time parser
/// takes — `Z` for zero, a sign and four digits, or a sign and two digit
/// pairs split by a colon — with every field in range.
pub open spec fn spec_parse_tm(s: Seq<char>) -> Option<GitTm> {
    if !spec_tm_prefix_ok(s) {
        None
    } else if s.len() == 20 && s[19] == 'Z' {
        spec_tm_make(s, false, 0, 0)
    } else if s.len() == 24 && (s[19] == '+' || s[19] == '-') && is_digit(s[20]) && is_digit(s[21])
        && is_digit(s[22]) && is_digit(s[23]) {
        spec_tm_make(
            s,
            s[19] == '-',
            digit_val(s[20]) * 10 + digit_val(s[21]),
            digit_val(s[22]) * 10 + digit_val(s[23]),
        )
    } else if s.len() == 25 && (s[19] == '+' || s[19] == '-') && is_digit(s[20]) && is_digit(s[21])
        && s[22] == ':' && is_digit(s[23]) && is_digit(s[24]) {
        spec_tm_make(
            s,
            s[19] == '-',
            digit_val(s[20]) * 10 + digit_val(s[21]),
            digit_val(s[23]) * 10 + digit_val(s[24]),
        )
    } else {
        None
    }
}

/// Appends two zero-padded digits.
fn push_pad2(n: u8, out: &mut Vec<char>)
    requires
        n < 100,
    ensures
        final(out)@ == old(out)@ + spec_pad2(n as nat),
{
    out.push((48u8 + n / 10) as char);
    out.push((48u8 + n % 10) as char);
    assert(final(out)@ =~= old(out)@ + spec_pad2(n as nat));
}

/// Appends four zero-padded digits.
fn push_pad4(n: u16, out: &mut Vec<char>)
    requires
        n < 10000,
    ensures
        final(out)@ == old(out)@ + spec_pad4(n as nat),
{
    out.push((48u8 + (n / 1000) as u8) as char);
    out.push((48u8 + ((n / 100) % 10) as u8) as char);
    out.push((48u8 + ((n / 10) % 10) as u8) as char);
    out.push((48u8 + (n % 10) as u8) as char);
    assert(final(out)@ =~= old(out)@ + spec_pad4(n as nat));
}

/// Formats a valid timestamp to its wire text.
pub fn format_tm(t: &GitTm) -> (r: String)
    requires
        t.spec_valid(),
    ensures
        r@ == spec_format_tm(*t),
{
    let mut out: Vec<char> = Vec::new();
    push_pad4(t.year, &mut out);
    out.push('-');
    push_pad2(t.month, &mut out);
    out.push('-');
    push_pad2(t.day, &mut out);
    out.push('T');
    push_pad2(t.hour, &mut out);
    out.push(':');
    push_pad2(t.minute, &mut out);
    out.push(':');
    push_pad2(t.second, &mut out);
    out.push(if t.off_neg {
        '-'
    } else {
        '+'
    });
    push_pad2(t.off_hour, &mut out);
    push_pad2(t.off_minute, &mut out);
    assert(out@ =~= spec_format_tm(*t));
    chars_to_string(&out)
}

/// Reads two digit characters as one two-digit number.
fn read2(x: char, y: char) -> (r: Option<u8>)
    ensures
        match r {
            Some(n) => is_digit(x) && is_digit(y) && n == digit_val(x) * 10 + digit_val(y),
            None => !(is_digit(x) && is_digit(y)),
        },
{
    let a = x as u32;
    let b = y as u32;
    if 48 <= a && a <= 57 && 48 <= b && b <= 57 {
        Some(((a - 48) * 10 + (b - 48)) as u8)
    } else {
        None
    }
}

/// Parses a wire text into a timestamp, accepting exactly the fixed shape.
pub fn parse_tm(s: &str) -> (r: Option<GitTm>)
    ensures
        r == spec_parse_tm(s@),
{
    let cs = str_to_chars(s);
    if cs.len() < 20 {
        return None;
    }
    let year_hi = match read2(cs[0], cs[1]) {
        Some(n) => n,
        None => {
            return None;
        },
    };
    let year_lo = match read2(cs[2], cs[3]) {
        Some(n) => n,
        None => {
            return None;
        },
    };
    if cs[4] != '-' {
        return None;
    }
    let month = match read2(cs[5], cs[6]) {
        Some(n) => n,
        None => {
            return None;
        },
    };
    if cs[7] != '-' {
        return None;
    }
    let day = match read2(cs[8], cs[9]) {
        Some(n) => n,
        None => {
            return None;
        },
    };
    if cs[10] != 'T' {
        return None;
    }
    let hour = match read2(cs[11], cs[12]) {
        Some(n) => n,
        None => {
            return None;
        },
    };
    if cs[13] != ':' {
        return None;
    }
    let minute = match read2(cs[14], cs[15]) {
        Some(n) => n,
        None => {
            return None;
        },
    };
    if cs[16] != ':' {
        return None;
    }
    let second = match read2(cs[17], cs[18]) {
        Some(n) => n,
        None => {
            return None;
        },
    };
    let off_neg: bool;
    let off_hour: u8;
    let off_minute: u8;
    if cs[19] == 'Z' {
        if cs.len() != 20 {
            return None;
        }
        off_neg = false;
        off_hour = 0;
        off_minute = 0;
    } else if cs[19] == '+' || cs[19] == '-' {
        off_neg = cs[19] == '-';
        if cs.len() == 24 {
            off_hour = match read2(cs[20], cs[21]) {
                Some(n) => n,
                None => {
                    return None;
                },
            };
            off_minute = match read2(cs[22], cs[23]) {
                Some(n) => n,
                None => {
                    return None;
                },
            };
        } else if cs.len() == 25 {
            off_hour = match read2(cs[20], cs[21]) {
                Some(n) => n,
                None => {
                    return None;
                },
            };
            if cs[22] != ':' {
                return None;
            }
            off_minute = match read2(cs[23], cs[24]) {
                Some(n) => n,
                None => {
                    return None;
                },
            };
        } else {
            return None;
        }
    } else {
        return None;
    }
    let t = GitTm {
        year: (year_hi as u16) * 100 + (year_lo as u16),
        month,
        day,
        hour,
        minute,
        second,
        off_neg,
        off_hour,
        off_minute,
    };
    if t.valid() {
        Some(t)
    } else {
        None
    }
}

impl View for GitTm {
    type V = GitTm;

    open spec fn view(&self) -> GitTm {
        *self
    }
}

impl DeepView for GitTm {
    type V = GitTm;

    open spec fn deep_view(&self) -> GitTm {
        *self
    }
}

impl JsonEncode for GitTm {
    open spec fn spec_to_json(&self) -> Option<JsonVal> {
        if self.spec_valid() {
            Some(JsonVal::Str(spec_format_tm(*self)))
        } else {
            None
        }
    }

    fn to_json(&self) -> (r: Result<JsonValue, String>) {
        if self.valid() {
            let text = format_tm(self);
            let j = JsonValue::Str(text);
            assert(j@ == JsonVal::Str(spec_format_tm(*self)));
            assert(self.spec_to_json() == Some(JsonVal::Str(spec_format_tm(*self))));
            Ok(j)
        } else {
            Err(String::from_str("timestamp fields out of range"))
        }
    }
}

impl JsonDecode for GitTm {
    open spec fn spec_from_json(j: JsonVal) -> Option<GitTm> {
        match j {
            JsonVal::Str(s) => spec_parse_tm(s),
            _ => None,
        }
    }

    fn from_json(v: &JsonValue) -> (r: Result<Self, String>) {
        match v {
            JsonValue::Str(s) => match parse_tm(s.as_str()) {
                Some(t) => Ok(t),
                None => Err(String::from_str("could not parse time")),
            },
            _ => Err(String::from_str("could not parse time")),
        }
    }
}

impl JsonCodec for GitTm {
    proof fn lemma_codec_round_trip(&self) {
        if self.spec_valid() {
            lemma_parse_of_format(*self);
        }
    }
}

/// A two-digit pad reads back as its value.
proof fn lemma_parse_pad2(n: nat)
    requires
        n < 100,
    ensures
        is_digit(spec_pad2(n)[0]),
        is_digit(spec_pad2(n)[1]),
        digit_val(spec_pad2(n)[0]) * 10 + digit_val(spec_pad2(n)[1]) == n,
{
    assert(digit_val(digit_char(n / 10)) == n / 10);
    assert(digit_val(digit_char(n % 10)) == n % 10);
}

/// A four-digit pad reads back as its value.
proof fn lemma_parse_pad4(n: nat)
    requires
        n < 10000,
    ensures
        is_digit(spec_pad4(n)[0]),
        is_digit(spec_pad4(n)[1]),
        is_digit(spec_pad4(n)[2]),
        is_digit(spec_pad4(n)[3]),
        digit_val(spec_pad4(n)[0]) * 1000 + digit_val(spec_pad4(n)[1]) * 100 + digit_val(
            spec_pad4(n)[2],
        ) * 10 + digit_val(spec_pad4(n)[3]) == n,
{
    assert(digit_val(digit_char(n / 1000)) == n / 1000);
    assert(digit_val(digit_char((n / 100) % 10)) == (n / 100) % 10);
    assert(digit_val(digit_char((n / 10) % 10)) == (n / 10) % 10);
    assert(digit_val(digit_char(n % 10)) == n % 10);
    assert((n / 1000) * 1000 + ((n / 100) % 10) * 100 + ((n / 10) % 10) * 10 + n % 10 == n) by (nonlinear_arith)
        requires
            n < 10000,
    ;
}

/// Parsing the formatted text of a valid timestamp yields the timestamp.
#[verifier::rlimit(100)]
proof fn lemma_parse_of_format(t: GitTm)
    requires
        t.spec_valid(),
    ensures
        spec_parse_tm(spec_format_tm(t)) == Some(t),
{
    let s = spec_format_tm(t);
    lemma_parse_pad4(t.year as nat);
    lemma_parse_pad2(t.month as nat);
    lemma_parse_pad2(t.day as nat);
    lemma_parse_pad2(t.hour as nat);
    lemma_parse_pad2(t.minute as nat);
    lemma_parse_pad2(t.second as nat);
    lemma_parse_pad2(t.off_hour as nat);
    lemma_parse_pad2(t.off_minute as nat);
    assert(s.len() == 24);
    assert(s[0] == digit_char(t.year as nat / 1000));
    assert(s[1] == digit_char((t.year as nat / 100) % 10));
    assert(s[2] == digit_char((t.year as nat / 10) % 10));
    assert(s[3] == digit_char(t.year as nat % 10));
    assert(s[4] == '-');
    assert(s[5] == digit_char(t.month as nat / 10));
    assert(s[6] == digit_char(t.month as nat % 10));
    assert(s[7] == '-');
    assert(s[8] == digit_char(t.day as nat / 10));
    assert(s[9] == digit_char(t.day as nat % 10));
    assert(s[10] == 'T');
    assert(s[11] == digit_char(t.hour as nat / 10));
    assert(s[12] == digit_char(t.hour as nat % 10));
    assert(s[13] == ':');
    assert(s[14] == digit_char(t.minute as nat / 10));
    assert(s[15] == digit_char(t.minute as nat % 10));
    assert(s[16] == ':');
    assert(s[17] == digit_char(t.second as nat / 10));
    assert(s[18] == digit_char(t.second as nat % 10));
    assert(s[19] == if t.off_neg { '-' } else { '+' });
    assert(s[20] == digit_char(t.off_hour as nat / 10));
    assert(s[21] == digit_char(t.off_hour as nat % 10));
    assert(s[22] == digit_char(t.off_minute as nat / 10));
    assert(s[23] == digit_char(t.off_minute as nat % 10));
}

/// A required timestamp field of an object.
pub open spec fn spec_field_time(fs: Seq<(Seq<char>, JsonVal)>, key: Seq<char>) -> Option<GitTm> {
    match spec_obj_get(fs, key) {
        Some(JsonVal::Str(s)) => spec_parse_tm(s),
        _ => None,
    }
}

/// An optional timestamp field: absent or null reads as `None`.
pub open spec fn spec_field_opt_time(fs: Seq<(Seq<char>, JsonVal)>, key: Seq<char>) -> Option<
    Option<GitTm>,
> {
    match spec_obj_get(fs, key) {
        None => Some(None),
        Some(JsonVal::Null) => Some(None),
        Some(JsonVal::Str(s)) => match spec_parse_tm(s) {
            Some(t) => Some(Some(t)),
            None => None,
        },
        _ => None,
    }
}

/// Reads a required timestamp field.
pub fn field_time(fs: &Vec<(String, JsonValue)>, key: &str) -> (r: Result<GitTm, String>)
    ensures
        match r {
            Ok(t) => spec_field_time(seq_view_fields(fs@), key@) == Some(t),
            Err(_) => spec_field_time(seq_view_fields(fs@), key@) is None,
        },
{
    match crate::codec::obj_get(fs, key) {
        Some(v) => match v {
            JsonValue::Str(s) => match parse_tm(s.as_str()) {
                Some(t) => Ok(t),
                None => Err(String::from_str("could not parse time")),
            },
            _ => Err(String::from_str("could not parse time")),
        },
        None => Err(String::from_str("missing time field: ").concat(key)),
    }
}

/// Reads an optional timestamp field.
pub fn field_opt_time(fs: &Vec<(String, JsonValue)>, key: &str) -> (r: Result<
    Option<GitTm>,
    String,
>)
    ensures
        match r {
            Ok(o) => spec_field_opt_time(seq_view_fields(fs@), key@) == Some(o),
            Err(_) => spec_field_opt_time(seq_view_fields(fs@), key@) is None,
        },
{
    match crate::codec::obj_get(fs, key) {
        Some(v) => match v {
            JsonValue::Null => Ok(None),
            JsonValue::Str(s) => match parse_tm(s.as_str()) {
                Some(t) => Ok(Some(t)),
                None => Err(String::from_str("could not parse time")),
            },
            _ => Err(String::from_str("could not parse time")),
        },
        None => Ok(None),
    }
}

} // verus!
