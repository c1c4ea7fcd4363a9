//! The transport body format: a compact structured-text (JSON) value model
//! with a verified renderer and a verified parser.
//!
//! `JsonVal` is the mathematical model of a document; `JsonValue` is the
//! executable tree whose view is a `JsonVal`.  `spec_render` fixes the exact
//! text produced for a value, and `spec_parse_value` fixes which texts are
//! accepted and what they mean.  The renderer emits compact text; the
//! parser also takes insignificant whitespace between tokens and four-digit
//! escapes in strings, so it accepts every text the renderer emits — the
//! round-trip law in `json_laws` — and the pretty-printed bodies a service
//! answers with.

use vstd::prelude::*;

use crate::text::{
    chars_to_string,
    digit_run_len,
    digit_val,
    digits_val,
    hex_char,
    hex_digit_of,
    hex_val,
    is_digit,
    is_hex,
    lemma_digit_run_len_of,
    lemma_digits_val_append,
    push_digits,
    spec_digits,
    str_to_chars,
};

verus! {

broadcast use vstd::seq::group_seq_axioms, vstd::std_specs::vec::group_vec_axioms;

/// The mathematical model of a JSON document.
#[verifier::ext_equal]
pub enum JsonVal {
    Null,
    Bool(bool),
    Int(int),
    Str(Seq<char>),
    Arr(Seq<JsonVal>),
    Obj(Seq<(Seq<char>, JsonVal)>),
}

/// The executable JSON tree; its view is a `JsonVal`.
pub enum JsonValue {
    Null,
    Bool(bool),
    Int(i64),
    Str(String),
    Arr(Vec<JsonValue>),
    Obj(Vec<(String, JsonValue)>),
}

impl View for JsonValue {
    type V = JsonVal;

    open spec fn view(&self) -> JsonVal
        decreases self,
    {
        match self {
            JsonValue::Null => JsonVal::Null,
            JsonValue::Bool(b) => JsonVal::Bool(*b),
            JsonValue::Int(i) => JsonVal::Int(*i as int),
            JsonValue::Str(s) => JsonVal::Str(s@),
            JsonValue::Arr(es) => JsonVal::Arr(
                Seq::new(
                    es@.len(),
                    |i: int|
                        if 0 <= i < es@.len() {
                            es@[i]@
                        } else {
                            JsonVal::Null
                        },
                ),
            ),
            JsonValue::Obj(fs) => JsonVal::Obj(
                Seq::new(
                    fs@.len(),
                    |i: int|
                        (
                            if 0 <= i < fs@.len() {
                                fs@[i].0@
                            } else {
                                Seq::empty()
                            },
                            if 0 <= i < fs@.len() {
                                fs@[i].1@
                            } else {
                                JsonVal::Null
                            },
                        ),
                ),
            ),
        }
    }
}

/// Whether every number in the document fits a 64-bit signed integer, so
/// that an executable tree can hold it.
pub open spec fn wf_json(v: JsonVal) -> bool
    decreases v,
{
    match v {
        JsonVal::Null => true,
        JsonVal::Bool(_) => true,
        JsonVal::Int(i) => i64::MIN <= i <= i64::MAX,
        JsonVal::Str(_) => true,
        JsonVal::Arr(es) => forall|i: int| 0 <= i < es.len() ==> wf_json(#[trigger] es[i]),
        JsonVal::Obj(fs) => forall|i: int| 0 <= i < fs.len() ==> wf_json(#[trigger] fs[i].1),
    }
}

/// The rendering of one string character: the escapes JSON requires for
/// quote and backslash, the named escapes for the common control characters,
/// a four-digit escape for the remaining control characters, and the
/// character itself otherwise.
pub open spec fn spec_escape_char(c: char) -> Seq<char> {
    if c == '"' {
        seq!['\\', '"']
    } else if c == '\\' {
        seq!['\\', '\\']
    } else if c == '\n' {
        seq!['\\', 'n']
    } else if c == '\r' {
        seq!['\\', 'r']
    } else if c == '\t' {
        seq!['\\', 't']
    } else if (c as nat) < 32 {
        seq!['\\', 'u', '0', '0', hex_char((c as nat) / 16), hex_char((c as nat) % 16)]
    } else {
        seq![c]
    }
}

/// The rendering of a string body, character by character.
pub open spec fn spec_escape(s: Seq<char>) -> Seq<char>
    decreases s.len(),
{
    if s.len() == 0 {
        Seq::empty()
    } else {
        spec_escape_char(s[0]) + spec_escape(s.drop_first())
    }
}

/// The rendering of an integer: a minus sign for negatives, then the
/// decimal digits of the magnitude.
pub open spec fn spec_render_int(i: int) -> Seq<char> {
    if i < 0 {
        seq!['-'] + spec_digits((-i) as nat)
    } else {
        spec_digits(i as nat)
    }
}

/// The exact compact text rendered for a document.
pub open spec fn spec_render(v: JsonVal) -> Seq<char>
    decreases v,
{
    match v {
        JsonVal::Null => seq!['n', 'u', 'l', 'l'],
        JsonVal::Bool(b) => if b {
            seq!['t', 'r', 'u', 'e']
        } else {
            seq!['f', 'a', 'l', 's', 'e']
        },
        JsonVal::Int(i) => spec_render_int(i),
        JsonVal::Str(s) => seq!['"'] + spec_escape(s) + seq!['"'],
        JsonVal::Arr(es) => if es.len() == 0 {
            seq!['[', ']']
        } else {
            seq!['['] + spec_render_elems(es) + seq![']']
        },
        JsonVal::Obj(fs) => if fs.len() == 0 {
            seq!['{', '}']
        } else {
            seq!['{'] + spec_render_fields(fs) + seq!['}']
        },
    }
}

/// The rendering of a non-empty list of array elements, comma separated.
pub open spec fn spec_render_elems(es: Seq<JsonVal>) -> Seq<char>
    recommends
        es.len() >= 1,
    decreases es,
{
    if es.len() == 0 {
        Seq::empty()
    } else if es.len() == 1 {
        spec_render(es[0])
    } else {
        spec_render(es[0]) + seq![','] + spec_render_elems(es.drop_first())
    }
}

/// The rendering of a non-empty list of object members, comma separated.
pub open spec fn spec_render_fields(fs: Seq<(Seq<char>, JsonVal)>) -> Seq<char>
    recommends
        fs.len() >= 1,
    decreases fs,
{
    if fs.len() == 0 {
        Seq::empty()
    } else if fs.len() == 1 {
        seq!['"'] + spec_escape(fs[0].0) + seq!['"', ':'] + spec_render(fs[0].1)
    } else {
        seq!['"'] + spec_escape(fs[0].0) + seq!['"', ':'] + spec_render(fs[0].1) + seq![',']
            + spec_render_fields(fs.drop_first())
    }
}

/// Appends the escaped form of one character.
fn push_escaped_char(c: char, out: &mut Vec<char>)
    ensures
        final(out)@ == old(out)@ + spec_escape_char(c),
{
    if c == '"' {
        out.push('\\');
        out.push('"');
    } else if c == '\\' {
        out.push('\\');
        out.push('\\');
    } else if c == '\n' {
        out.push('\\');
        out.push('n');
    } else if c == '\r' {
        out.push('\\');
        out.push('r');
    } else if c == '\t' {
        out.push('\\');
        out.push('t');
    } else if (c as u32) < 32 {
        let code = (c as u32) as u8;
        out.push('\\');
        out.push('u');
        out.push('0');
        out.push('0');
        out.push(hex_char_of(code / 16));
        out.push(hex_char_of(code % 16));
    } else {
        out.push(c);
    }
    assert(final(out)@ =~= old(out)@ + spec_escape_char(c));
}

/// The lower-case hexadecimal digit for a value below sixteen.
fn hex_char_of(d: u8) -> (r: char)
    requires
        d < 16,
    ensures
        r == hex_char(d as nat),
{
    if d < 10 {
        (48u8 + d) as char
    } else {
        (97u8 + (d - 10)) as char
    }
}

/// Appends the escaped rendering of a whole string body.
fn push_escaped(s: &str, out: &mut Vec<char>)
    ensures
        final(out)@ == old(out)@ + spec_escape(s@),
{
    let chars = str_to_chars(s);
    let n = chars.len();
    let mut i: usize = 0;
    while i < n
        invariant
            n == chars@.len(),
            chars@ == s@,
            i <= n,
            out@ == old(out)@ + spec_escape(s@.take(i as int)),
        decreases n - i,
    {
        proof {
            lemma_escape_take_step(s@, i as int);
        }
        push_escaped_char(chars[i], out);
        i = i + 1;
    }
    assert(s@.take(n as int) =~= s@);
}

/// Splitting one character off the front of a prefix splits its escape.
proof fn lemma_escape_take_step(s: Seq<char>, i: int)
    requires
        0 <= i < s.len(),
    ensures
        spec_escape(s.take(i + 1)) == spec_escape(s.take(i)) + spec_escape_char(s[i]),
    decreases i,
{
    if i == 0 {
        assert(s.take(1).drop_first() =~= Seq::<char>::empty());
        assert(s.take(1)[0] == s[0]);
        assert(s.take(0) =~= Seq::<char>::empty());
        assert(spec_escape(Seq::<char>::empty()) == Seq::<char>::empty());
        assert(spec_escape(s.take(1)) =~= spec_escape_char(s[0]));
        assert(spec_escape(s.take(0)) + spec_escape_char(s[0]) =~= spec_escape_char(s[0]));
    } else {
        lemma_escape_take_step(s.drop_first(), i - 1);
        assert(s.take(i + 1).drop_first() =~= s.drop_first().take(i));
        assert(s.take(i).drop_first() =~= s.drop_first().take(i - 1));
        assert(s.take(i + 1)[0] == s[0]);
        assert(s.take(i)[0] == s[0]);
        assert(s.drop_first()[i - 1] == s[i]);
        assert(spec_escape(s.take(i + 1)) == spec_escape_char(s[0]) + spec_escape(
            s.drop_first().take(i),
        ));
        assert(spec_escape(s.take(i)) + spec_escape_char(s[i]) =~= spec_escape_char(s[0]) + (
        spec_escape(s.drop_first().take(i - 1)) + spec_escape_char(s.drop_first()[i - 1])));
    }
}

/// Appends the rendering of an integer.
fn push_int(i: i64, out: &mut Vec<char>)
    ensures
        final(out)@ == old(out)@ + spec_render_int(i as int),
{
    if i < 0 {
        out.push('-');
        let mag: u64 = if i == i64::MIN {
            9223372036854775808u64
        } else {
            (-i) as u64
        };
        assert(mag as nat == (-(i as int)) as nat);
        push_digits(mag, out);
        assert(final(out)@ =~= old(out)@ + spec_render_int(i as int));
    } else {
        push_digits(i as u64, out);
    }
}

/// Appends the compact rendering of a value.
pub fn push_rendered(v: &JsonValue, out: &mut Vec<char>)
    ensures
        final(out)@ == old(out)@ + spec_render(v@),
    decreases *v, 0int,
{
    match v {
        JsonValue::Null => {
            out.push('n');
            out.push('u');
            out.push('l');
            out.push('l');
            assert(final(out)@ =~= old(out)@ + spec_render(v@));
        },
        JsonValue::Bool(b) => {
            if *b {
                out.push('t');
                out.push('r');
                out.push('u');
                out.push('e');
            } else {
                out.push('f');
                out.push('a');
                out.push('l');
                out.push('s');
                out.push('e');
            }
            assert(final(out)@ =~= old(out)@ + spec_render(v@));
        },
        JsonValue::Int(i) => {
            push_int(*i, out);
        },
        JsonValue::Str(s) => {
            out.push('"');
            push_escaped(s.as_str(), out);
            out.push('"');
            assert(final(out)@ =~= old(out)@ + spec_render(v@));
        },
        JsonValue::Arr(es) => {
            out.push('[');
            if es.len() > 0 {
                push_rendered_elems(es, 0, out);
            }
            out.push(']');
            proof {
                let vs = v@->Arr_0;
                assert(vs.len() == es@.len());
                assert forall|i: int| 0 <= i < vs.len() implies vs[i] == es@[i]@ by {}
                assert(vs =~= elems_view(es, 0));
                assert(v@ == JsonVal::Arr(elems_view(es, 0)));
                assert(final(out)@ =~= old(out)@ + spec_render(v@));
            }
        },
        JsonValue::Obj(fs) => {
            out.push('{');
            if fs.len() > 0 {
                push_rendered_fields(fs, 0, out);
            }
            out.push('}');
            proof {
                let vs = v@->Obj_0;
                assert(vs.len() == fs@.len());
                assert forall|i: int| 0 <= i < vs.len() implies vs[i] == (fs@[i].0@, fs@[i].1@) by {}
                assert(vs =~= fields_view(fs, 0));
                assert(v@ == JsonVal::Obj(fields_view(fs, 0)));
                assert(final(out)@ =~= old(out)@ + spec_render(v@));
            }
        },
    }
}

/// The view of the element list from `start` on.
spec fn elems_view(es: &Vec<JsonValue>, start: int) -> Seq<JsonVal> {
    Seq::new((es@.len() - start) as nat, |i: int| es@[start + i]@)
}

/// Appends the rendering of the elements from `start` on, comma separated.
fn push_rendered_elems(es: &Vec<JsonValue>, start: usize, out: &mut Vec<char>)
    requires
        start < es@.len(),
    ensures
        final(out)@ == old(out)@ + spec_render_elems(elems_view(es, start as int)),
    decreases *es, es@.len() - start,
{
    let n = es.len();
    push_rendered(&es[start], out);
    if start < n - 1 {
        out.push(',');
        push_rendered_elems(es, start + 1, out);
        proof {
            let tail = elems_view(es, start as int).drop_first();
            assert(tail =~= elems_view(es, start as int + 1));
            assert(elems_view(es, start as int)[0] == es@[start as int]@);
            assert(final(out)@ =~= old(out)@ + spec_render_elems(elems_view(es, start as int)));
        }
    } else {
        proof {
            assert(elems_view(es, start as int).len() == 1);
            assert(elems_view(es, start as int)[0] == es@[start as int]@);
        }
    }
}

/// The view of the member list from `start` on.
spec fn fields_view(fs: &Vec<(String, JsonValue)>, start: int) -> Seq<(Seq<char>, JsonVal)> {
    Seq::new((fs@.len() - start) as nat, |i: int| (fs@[start + i].0@, fs@[start + i].1@))
}

/// Appends the rendering of the members from `start` on, comma separated.
fn push_rendered_fields(fs: &Vec<(String, JsonValue)>, start: usize, out: &mut Vec<char>)
    requires
        start < fs@.len(),
    ensures
        final(out)@ == old(out)@ + spec_render_fields(fields_view(fs, start as int)),
    decreases *fs, fs@.len() - start,
{
    out.push('"');
    push_escaped(fs[start].0.as_str(), out);
    out.push('"');
    out.push(':');
    let n = fs.len();
    push_rendered(&fs[start].1, out);
    if start < n - 1 {
        out.push(',');
        push_rendered_fields(fs, start + 1, out);
        proof {
            let tail = fields_view(fs, start as int).drop_first();
            assert(tail =~= fields_view(fs, start as int + 1));
            assert(fields_view(fs, start as int)[0] == (fs@[start as int].0@, fs@[
                start as int].1@));
            assert(final(out)@ =~= old(out)@ + spec_render_fields(fields_view(fs, start as int)));
        }
    } else {
        proof {
            assert(fields_view(fs, start as int).len() == 1);
            assert(fields_view(fs, start as int)[0] == (fs@[start as int].0@, fs@[
                start as int].1@));
            assert(final(out)@ =~= old(out)@ + spec_render_fields(fields_view(fs, start as int)));
        }
    }
}

/// Renders a document to its compact transport text.
pub fn render_json(v: &JsonValue) -> (r: String)
    ensures
        r@ == spec_render(v@),
{
    let mut out: Vec<char> = Vec::new();
    push_rendered(v, &mut out);
    chars_to_string(&out)
}

/// The character a one-letter escape stands for, if the letter is one the
/// parser accepts.
pub open spec fn spec_unescape_char(c: char) -> Option<char> {
    if c == '"' {
        Some('"')
    } else if c == '\\' {
        Some('\\')
    } else if c == 'n' {
        Some('\n')
    } else if c == 'r' {
        Some('\r')
    } else if c == 't' {
        Some('\t')
    } else {
        None
    }
}

/// The code point of a character.
pub open spec fn code_of(c: char) -> nat {
    c as nat
}

/// The character with the given code point.
pub open spec fn char_from_code(u: nat) -> char {
    choose|c: char| code_of(c) == u
}

/// Every character is the character of its own code point.
pub proof fn lemma_char_from_code_of(c: char)
    ensures
        char_from_code(c as nat) == c,
{
    assert(code_of(c) == c as nat);
    let c2 = choose|c2: char| code_of(c2) == c as nat;
    assert(code_of(c2) == c as nat);
}

/// Relies on `char::from_u32`: a code converts exactly when it is a valid
/// scalar value — not a surrogate and at most the largest code point — and
/// the character returned carries that code.
pub assume_specification[ char::from_u32 ](u: u32) -> (r: Option<char>)
    ensures
        r is Some <==> (u < 0xD800 || (0xE000 <= u && u <= 0x10FFFF)),
        r matches Some(c) ==> c as u32 == u,
;

/// The value of the four hexadecimal digits at `k`.
pub open spec fn spec_hex4(s: Seq<char>, k: int) -> nat
    recommends
        0 <= k && k + 4 <= s.len(),
{
    hex_val(s[k]) * 4096 + hex_val(s[k + 1]) * 256 + hex_val(s[k + 2]) * 16 + hex_val(s[k + 3])
}

/// Whether the four characters at `k` are hexadecimal digits.
pub open spec fn spec_hex4_ok(s: Seq<char>, k: int) -> bool {
    &&& k + 4 <= s.len()
    &&& is_hex(s[k])
    &&& is_hex(s[k + 1])
    &&& is_hex(s[k + 2])
    &&& is_hex(s[k + 3])
}

/// The meaning of a four-digit escape at the head of `s` (so `s` starts
/// with a backslash and the letter `u`): the named character and the count
/// of characters consumed.  A surrogate pair names one code point beyond the
/// basic plane; a lone surrogate is rejected.
pub open spec fn spec_u_escape(s: Seq<char>) -> Option<(char, int)> {
    if !spec_hex4_ok(s, 2) {
        None
    } else {
        let u = spec_hex4(s, 2);
        if 0xD800 <= u && u <= 0xDBFF {
            if s.len() < 12 || s[6] != '\\' || s[7] != 'u' || !spec_hex4_ok(s, 8) {
                None
            } else {
                let u2 = spec_hex4(s, 8);
                if 0xDC00 <= u2 && u2 <= 0xDFFF {
                    let cp = 0x10000 + (u - 0xD800) * 0x400 + (u2 - 0xDC00);
                    Some((char_from_code(cp as nat), 12))
                } else {
                    None
                }
            }
        } else if 0xDC00 <= u && u <= 0xDFFF {
            None
        } else {
            Some((char_from_code(u), 6))
        }
    }
}

/// Parses a string body up to and including the closing quote: the content
/// and the count of characters consumed (closing quote included), or `None`
/// if the text holds no closing quote or an ill-formed escape.  A four-digit
/// escape names a code point; a surrogate pair names one beyond the basic
/// plane; a lone surrogate is rejected.
pub open spec fn spec_parse_strbody(s: Seq<char>) -> Option<(Seq<char>, int)>
    decreases s.len(),
{
    if s.len() == 0 {
        None
    } else if s[0] == '"' {
        Some((Seq::empty(), 1))
    } else if s[0] == '\\' {
        if s.len() < 2 {
            None
        } else if s[1] == 'u' {
            match spec_u_escape(s) {
                Some((c, m)) => if m < 1 || m > s.len() {
                    None
                } else {
                    match spec_parse_strbody(s.skip(m)) {
                        Some((cs, n)) => Some((seq![c] + cs, n + m)),
                        None => None,
                    }
                },
                None => None,
            }
        } else {
            match spec_unescape_char(s[1]) {
                Some(c) => match spec_parse_strbody(s.skip(2)) {
                    Some((cs, n)) => Some((seq![c] + cs, n + 2)),
                    None => None,
                },
                None => None,
            }
        }
    } else {
        match spec_parse_strbody(s.skip(1)) {
            Some((cs, n)) => Some((seq![s[0]] + cs, n + 1)),
            None => None,
        }
    }
}

/// Whether `c` is insignificant whitespace between tokens.
pub open spec fn is_ws(c: char) -> bool {
    c == ' ' || c == '\t' || c == '\n' || c == '\r'
}

/// The number of leading whitespace characters of `s`.
pub open spec fn ws_len(s: Seq<char>) -> int
    decreases s.len(),
{
    if s.len() == 0 || !is_ws(s[0]) {
        0
    } else {
        1 + ws_len(s.skip(1))
    }
}

/// A prefix of `k` whitespace characters with a non-whitespace (or the end)
/// after it is exactly the leading whitespace.
proof fn lemma_ws_len_of(s: Seq<char>, k: int)
    requires
        0 <= k <= s.len(),
        forall|j: int| 0 <= j < k ==> is_ws(#[trigger] s[j]),
        k == s.len() || !is_ws(s[k]),
    ensures
        ws_len(s) == k,
    decreases k,
{
    if k > 0 {
        assert(is_ws(s[0]));
        lemma_ws_len_of(s.skip(1), k - 1);
    }
}

/// Whether `c` is insignificant whitespace.
fn is_ws_char(c: char) -> (r: bool)
    ensures
        r == is_ws(c),
{
    c == ' ' || c == '\t' || c == '\n' || c == '\r'
}

/// The first position at or after `i` holding no whitespace.
fn skip_ws(s: &Vec<char>, i: usize) -> (j: usize)
    requires
        i <= s@.len(),
    ensures
        i <= j <= s@.len(),
        j - i == ws_len(s@.skip(i as int)),
{
    let n = s.len();
    let mut j = i;
    while j < n && is_ws_char(s[j])
        invariant
            i <= j <= n,
            n == s@.len(),
            forall|k: int| i <= k < j ==> is_ws(#[trigger] s@[k]),
        decreases n - j,
    {
        j = j + 1;
    }
    proof {
        assert forall|p: int| 0 <= p < j - i implies is_ws(#[trigger] s@.skip(i as int)[p]) by {
            assert(s@.skip(i as int)[p] == s@[i + p]);
        }
        if j < n {
            assert(s@.skip(i as int)[j - i] == s@[j as int]);
        }
        lemma_ws_len_of(s@.skip(i as int), j - i);
    }
    j
}

/// Parses a number: an optional minus sign, then the maximal digit run.
/// Rejects values whose magnitude does not fit a 64-bit signed integer.
pub open spec fn spec_parse_number(s: Seq<char>) -> Option<(JsonVal, int)> {
    if s.len() == 0 {
        None
    } else if s[0] == '-' {
        let k = digit_run_len(s.skip(1));
        if k == 0 {
            None
        } else {
            let m = digits_val(s.skip(1).take(k));
            if m > 0x8000000000000000 {
                None
            } else {
                Some((JsonVal::Int(-(m as int)), 1 + k))
            }
        }
    } else {
        let k = digit_run_len(s);
        if k == 0 {
            None
        } else {
            let m = digits_val(s.take(k));
            if m > 0x7fffffffffffffff {
                None
            } else {
                Some((JsonVal::Int(m as int), k))
            }
        }
    }
}

/// Parses one value off the front of `s`: any leading whitespace is
/// skipped, then one token-level value is read; the count covers both.
pub open spec fn spec_parse_value(s: Seq<char>) -> Option<(JsonVal, int)>
    decreases s.len(), 1int,
{
    let w = ws_len(s);
    if w < 0 || w > s.len() {
        None
    } else {
        match spec_parse_value_token(s.skip(w)) {
            Some((v, n)) => Some((v, w + n)),
            None => None,
        }
    }
}

/// Parses one value starting at its first token character: the value and
/// the count of characters consumed, or `None` if no value starts there.
pub open spec fn spec_parse_value_token(s: Seq<char>) -> Option<(JsonVal, int)>
    decreases s.len(), 0int,
{
    if s.len() == 0 {
        None
    } else if s[0] == 'n' {
        if s.len() >= 4 && s[1] == 'u' && s[2] == 'l' && s[3] == 'l' {
            Some((JsonVal::Null, 4))
        } else {
            None
        }
    } else if s[0] == 't' {
        if s.len() >= 4 && s[1] == 'r' && s[2] == 'u' && s[3] == 'e' {
            Some((JsonVal::Bool(true), 4))
        } else {
            None
        }
    } else if s[0] == 'f' {
        if s.len() >= 5 && s[1] == 'a' && s[2] == 'l' && s[3] == 's' && s[4] == 'e' {
            Some((JsonVal::Bool(false), 5))
        } else {
            None
        }
    } else if s[0] == '"' {
        match spec_parse_strbody(s.skip(1)) {
            Some((cs, n)) => Some((JsonVal::Str(cs), 1 + n)),
            None => None,
        }
    } else if s[0] == '[' {
        let w1 = ws_len(s.skip(1));
        if w1 < 0 || 1 + w1 >= s.len() {
            None
        } else if s[1 + w1] == ']' {
            Some((JsonVal::Arr(Seq::empty()), 2 + w1))
        } else {
            match spec_parse_elems(s.skip(1)) {
                Some((es, n)) => Some((JsonVal::Arr(es), 1 + n)),
                None => None,
            }
        }
    } else if s[0] == '{' {
        let w1 = ws_len(s.skip(1));
        if w1 < 0 || 1 + w1 >= s.len() {
            None
        } else if s[1 + w1] == '}' {
            Some((JsonVal::Obj(Seq::empty()), 2 + w1))
        } else {
            match spec_parse_fields(s.skip(1)) {
                Some((fs, n)) => Some((JsonVal::Obj(fs), 1 + n)),
                None => None,
            }
        }
    } else if s[0] == '-' || is_digit(s[0]) {
        spec_parse_number(s)
    } else {
        None
    }
}

/// Parses the members of a non-empty array up to and including the closing
/// bracket, with whitespace allowed around every member.
pub open spec fn spec_parse_elems(s: Seq<char>) -> Option<(Seq<JsonVal>, int)>
    decreases s.len(), 2int,
{
    match spec_parse_value(s) {
        Some((v, n)) => {
            let w = ws_len(s.skip(n));
            if n < 1 || w < 0 {
                None
            } else {
                let p = n + w;
                if p >= s.len() {
                    None
                } else if s[p] == ',' {
                    match spec_parse_elems(s.skip(p + 1)) {
                        Some((es, m)) => Some((seq![v] + es, p + 1 + m)),
                        None => None,
                    }
                } else if s[p] == ']' {
                    Some((seq![v], p + 1))
                } else {
                    None
                }
            }
        },
        None => None,
    }
}

/// Parses the members of a non-empty object up to and including the closing
/// brace, with whitespace allowed around every key, colon and member.
pub open spec fn spec_parse_fields(s: Seq<char>) -> Option<(Seq<(Seq<char>, JsonVal)>, int)>
    decreases s.len(), 2int,
{
    let w0 = ws_len(s);
    if w0 < 0 || w0 >= s.len() || s[w0] != '"' {
        None
    } else {
        match spec_parse_strbody(s.skip(w0 + 1)) {
            Some((key, kn)) => {
                let q = w0 + 1 + kn;
                let w1 = ws_len(s.skip(q));
                if kn < 1 || w1 < 0 {
                    None
                } else {
                    let cpos = q + w1;
                    if cpos >= s.len() || s[cpos] != ':' {
                        None
                    } else {
                        match spec_parse_value(s.skip(cpos + 1)) {
                            Some((v, vn)) => {
                                let t = cpos + 1 + vn;
                                let w2 = ws_len(s.skip(t));
                                if vn < 1 || w2 < 0 {
                                    None
                                } else {
                                    let p = t + w2;
                                    if p >= s.len() {
                                        None
                                    } else if s[p] == ',' {
                                        match spec_parse_fields(s.skip(p + 1)) {
                                            Some((fs, m)) => Some(
                                                (seq![(key, v)] + fs, p + 1 + m),
                                            ),
                                            None => None,
                                        }
                                    } else if s[p] == '}' {
                                        Some((seq![(key, v)], p + 1))
                                    } else {
                                        None
                                    }
                                }
                            },
                            None => None,
                        }
                    }
                }
            },
            None => None,
        }
    }
}

/// The meaning of a whole body text: the value it parses to, provided only
/// whitespace follows it.
pub open spec fn spec_decode_text(s: Seq<char>) -> Option<JsonVal> {
    match spec_parse_value(s) {
        Some((v, n)) => if 0 <= n <= s.len() && n + ws_len(s.skip(n)) == s.len() {
            Some(v)
        } else {
            None
        },
        None => None,
    }
}

/// The views of a list of executable documents.
pub open spec fn seq_view_elems(es: Seq<JsonValue>) -> Seq<JsonVal> {
    Seq::new(
        es.len(),
        |i: int|
            if 0 <= i < es.len() {
                es[i]@
            } else {
                JsonVal::Null
            },
    )
}

/// The views of a list of executable object members.
pub open spec fn seq_view_fields(fs: Seq<(String, JsonValue)>) -> Seq<(Seq<char>, JsonVal)> {
    Seq::new(
        fs.len(),
        |i: int|
            (
                if 0 <= i < fs.len() {
                    fs[i].0@
                } else {
                    Seq::empty()
                },
                if 0 <= i < fs.len() {
                    fs[i].1@
                } else {
                    JsonVal::Null
                },
            ),
    )
}

/// The view of an array document is the array of the element views.
pub proof fn lemma_view_arr(es: Vec<JsonValue>)
    ensures
        (JsonValue::Arr(es))@ == JsonVal::Arr(seq_view_elems(es@)),
{
    let vs = (JsonValue::Arr(es))@->Arr_0;
    assert(vs.len() == es@.len());
    assert forall|i: int| 0 <= i < vs.len() implies vs[i] == es@[i]@ by {}
    assert(vs =~= seq_view_elems(es@));
}

/// The view of an object document is the object of the member views.
pub proof fn lemma_view_obj(fs: Vec<(String, JsonValue)>)
    ensures
        (JsonValue::Obj(fs))@ == JsonVal::Obj(seq_view_fields(fs@)),
{
    let vs = (JsonValue::Obj(fs))@->Obj_0;
    assert(vs.len() == fs@.len());
    assert forall|i: int| 0 <= i < vs.len() implies vs[i] == (fs@[i].0@, fs@[i].1@) by {}
    assert(vs =~= seq_view_fields(fs@));
}

/// The view of a borrowed object document, by its member views.
pub proof fn lemma_view_obj_of(v: &JsonValue)
    requires
        v is Obj,
    ensures
        v@ == JsonVal::Obj(seq_view_fields((v->Obj_0)@)),
{
    let vs = v@->Obj_0;
    let fs = v->Obj_0;
    assert(vs.len() == fs@.len());
    assert forall|i: int| 0 <= i < vs.len() implies vs[i] == (fs@[i].0@, fs@[i].1@) by {}
    assert(vs =~= seq_view_fields(fs@));
}

/// Whether `c` is a decimal digit.
fn is_digit_char(c: char) -> (r: bool)
    ensures
        r == is_digit(c),
{
    let u = c as u32;
    48 <= u && u <= 57
}

/// The character a one-letter escape stands for, if any.
fn unescape_char(c: char) -> (r: Option<char>)
    ensures
        r == spec_unescape_char(c),
{
    if c == '"' {
        Some('"')
    } else if c == '\\' {
        Some('\\')
    } else if c == 'n' {
        Some('\n')
    } else if c == 'r' {
        Some('\r')
    } else if c == 't' {
        Some('\t')
    } else {
        None
    }
}

/// Reads the four hexadecimal digits of an escape, if they are there.
fn read_hex4(s: &Vec<char>, k: usize) -> (r: Option<u32>)
    requires
        k <= s@.len() + 16,
    ensures
        match r {
            Some(u) => k + 4 <= s@.len() && spec_hex4_ok(s@, k as int) && u == spec_hex4(
                s@,
                k as int,
            ) && u < 0x10000,
            None => !spec_hex4_ok(s@, k as int),
        },
{
    let n = s.len();
    if n < k || n - k < 4 {
        return None;
    }
    let d0 = match hex_digit_of(s[k]) {
        Some(d) => d,
        None => {
            return None;
        },
    };
    let d1 = match hex_digit_of(s[k + 1]) {
        Some(d) => d,
        None => {
            return None;
        },
    };
    let d2 = match hex_digit_of(s[k + 2]) {
        Some(d) => d,
        None => {
            return None;
        },
    };
    let d3 = match hex_digit_of(s[k + 3]) {
        Some(d) => d,
        None => {
            return None;
        },
    };
    Some((d0 as u32) * 4096 + (d1 as u32) * 256 + (d2 as u32) * 16 + (d3 as u32))
}

/// Parses the four-digit escape starting at `i` (where the backslash and
/// the letter `u` stand): the named character and the position after the
/// escape.
#[verifier::spinoff_prover]
fn parse_u_escape(s: &Vec<char>, i: usize) -> (r: Result<(char, usize), String>)
    requires
        i + 2 <= s@.len(),
        s@[i as int] == '\\',
        s@[i as int + 1] == 'u',
    ensures
        match r {
            Ok(p) => i < p.1 <= s@.len() && spec_u_escape(s@.skip(i as int)) == Some(
                (p.0, p.1 - i),
            ),
            Err(_) => spec_u_escape(s@.skip(i as int)) is None,
        },
{
    let n = s.len();
    assert(i + 2 <= n);
    let ghost t = s@.skip(i as int);
    proof {
        assert forall|k: int| 0 <= k < t.len() implies #[trigger] t[k] == s@[i + k] by {}
        assert(spec_hex4_ok(t, 2) <==> spec_hex4_ok(s@, i as int + 2));
        if spec_hex4_ok(t, 2) {
            assert(spec_hex4(t, 2) == spec_hex4(s@, i as int + 2));
        }
    }
    let u = match read_hex4(s, i + 2) {
        Some(u) => u,
        None => {
            return Err(String::from_str("ill-formed escape in body"));
        },
    };
    if 0xD800 <= u && u <= 0xDBFF {
        if s.len() - i < 12 || s[i + 6] != '\\' || s[i + 7] != 'u' {
            return Err(String::from_str("lone surrogate in body"));
        }
        proof {
            assert(spec_hex4_ok(t, 8) <==> spec_hex4_ok(s@, i as int + 8));
            if spec_hex4_ok(t, 8) {
                assert(spec_hex4(t, 8) == spec_hex4(s@, i as int + 8));
            }
        }
        let u2 = match read_hex4(s, i + 8) {
            Some(u2) => u2,
            None => {
                return Err(String::from_str("ill-formed escape in body"));
            },
        };
        if !(0xDC00 <= u2 && u2 <= 0xDFFF) {
            return Err(String::from_str("lone surrogate in body"));
        }
        let cp: u32 = 0x10000 + (u - 0xD800) * 0x400 + (u2 - 0xDC00);
        match char::from_u32(cp) {
            Some(decoded) => {
                proof {
                    lemma_char_from_code_of(decoded);
                }
                Ok((decoded, i + 12))
            },
            None => {
                proof {
                    assert(false);
                }
                Err(String::from_str("ill-formed escape in body"))
            },
        }
    } else if 0xDC00 <= u && u <= 0xDFFF {
        Err(String::from_str("lone surrogate in body"))
    } else {
        match char::from_u32(u) {
            Some(decoded) => {
                proof {
                    lemma_char_from_code_of(decoded);
                }
                Ok((decoded, i + 6))
            },
            None => {
                proof {
                    assert(false);
                }
                Err(String::from_str("ill-formed escape in body"))
            },
        }
    }
}

/// Parses a string body starting at `i` (just after the opening quote), up
/// to and including the closing quote.
fn parse_strchars(s: &Vec<char>, i: usize) -> (r: Result<(Vec<char>, usize), String>)
    requires
        i <= s@.len(),
    ensures
        match r {
            Ok(p) => i < p.1 <= s@.len() && spec_parse_strbody(s@.skip(i as int)) == Some(
                (p.0@, p.1 - i),
            ),
            Err(_) => spec_parse_strbody(s@.skip(i as int)) is None,
        },
    decreases s@.len() - i,
{
    let ghost t = s@.skip(i as int);
    if i >= s.len() {
        return Err(String::from_str("unterminated string in body"));
    }
    let c = s[i];
    assert(t[0] == c);
    if c == '"' {
        let empty: Vec<char> = Vec::new();
        Ok((empty, i + 1))
    } else if c == '\\' {
        if s.len() - i < 2 {
            assert(t.len() < 2);
            return Err(String::from_str("unterminated escape in body"));
        }
        assert(t[1] == s@[i + 1]);
        if s[i + 1] == 'u' {
            match parse_u_escape(s, i) {
                Ok((decoded, m)) => {
                    proof {
                        assert(t.skip(m - i) =~= s@.skip(m as int));
                    }
                    match parse_strchars(s, m) {
                        Ok((mut cs, j)) => {
                            let ghost olds = cs@;
                            cs.insert(0, decoded);
                            proof {
                                assert(cs@ =~= seq![decoded] + olds);
                            }
                            Ok((cs, j))
                        },
                        Err(e) => Err(e),
                    }
                },
                Err(e) => Err(e),
            }
        } else {
            match unescape_char(s[i + 1]) {
                Some(u) => {
                    assert(t.skip(2) =~= s@.skip(i + 2));
                    match parse_strchars(s, i + 2) {
                        Ok((mut cs, j)) => {
                            let ghost olds = cs@;
                            cs.insert(0, u);
                            proof {
                                assert(cs@ =~= seq![u] + olds);
                            }
                            Ok((cs, j))
                        },
                        Err(e) => Err(e),
                    }
                },
                None => Err(String::from_str("unknown escape in body")),
            }
        }
    } else {
        assert(t.skip(1) =~= s@.skip(i + 1));
        match parse_strchars(s, i + 1) {
            Ok((mut cs, j)) => {
                let ghost olds = cs@;
                cs.insert(0, c);
                proof {
                    assert(cs@ =~= seq![c] + olds);
                }
                Ok((cs, j))
            },
            Err(e) => Err(e),
        }
    }
}

/// Parses a number starting at `i`: an optional minus sign and the maximal
/// digit run, rejected if its magnitude exceeds the 64-bit signed range.
fn parse_number(s: &Vec<char>, i: usize) -> (r: Result<(JsonValue, usize), String>)
    requires
        i < s@.len(),
        s@[i as int] == '-' || is_digit(s@[i as int]),
    ensures
        match r {
            Ok(p) => i < p.1 <= s@.len() && spec_parse_number(s@.skip(i as int)) == Some(
                (p.0@, p.1 - i),
            ),
            Err(_) => spec_parse_number(s@.skip(i as int)) is None,
        },
{
    let ghost t = s@.skip(i as int);
    let n = s.len();
    assert(i < n);
    let neg = s[i] == '-';
    let dstart = if neg {
        i + 1
    } else {
        i
    };
    let mut j = dstart;
    let mut val: u128 = 0;
    let mut exceeded = false;
    while j < n && is_digit_char(s[j])
        invariant
            dstart <= j <= n,
            n == s@.len(),
            dstart <= n,
            forall|k: int| dstart <= k < j ==> is_digit(#[trigger] s@[k]),
            !exceeded ==> val == digits_val(s@.subrange(dstart as int, j as int)) && val
                <= 0x8000000000000000,
            exceeded ==> digits_val(s@.subrange(dstart as int, j as int)) > 0x8000000000000000,
        decreases n - j,
    {
        let d: u128 = (s[j] as u32 as u128) - 48;
        proof {
            assert(is_digit(s@[j as int]));
            assert(d == digit_val(s@[j as int]));
            lemma_digits_val_append(s@.subrange(dstart as int, j as int), s@[j as int]);
            assert(s@.subrange(dstart as int, j as int).push(s@[j as int]) =~= s@.subrange(
                dstart as int,
                j as int + 1,
            ));
        }
        if exceeded {
        } else {
            let nv = val * 10 + d;
            if nv > 0x8000000000000000 {
                exceeded = true;
            } else {
                val = nv;
            }
        }
        j = j + 1;
    }
    let ghost k_run = j - dstart;
    proof {
        assert(s@.skip(dstart as int).len() == n - dstart);
        assert forall|p: int| 0 <= p < k_run implies is_digit(#[trigger] s@.skip(dstart as int)[p])
            by {
            assert(s@.skip(dstart as int)[p] == s@[dstart + p]);
        }
        if k_run < n - dstart {
            assert(s@.skip(dstart as int)[k_run] == s@[j as int]);
        }
        lemma_digit_run_len_of(s@.skip(dstart as int), k_run);
        assert(s@.skip(dstart as int).take(k_run) =~= s@.subrange(dstart as int, j as int));
    }
    if j == dstart {
        assert(neg);
        assert(t[0] == '-');
        assert(t.skip(1) =~= s@.skip(dstart as int));
        return Err(String::from_str("no digits in number"));
    }
    proof {
        if neg {
            assert(t[0] == '-');
            assert(t.skip(1) =~= s@.skip(dstart as int));
        } else {
            assert(is_digit(t[0]));
            assert(t =~= s@.skip(dstart as int));
        }
    }
    if neg {
        if exceeded {
            return Err(String::from_str("number out of range"));
        }
        let mag: u64 = val as u64;
        let v: i64 = if mag == 9223372036854775808u64 {
            i64::MIN
        } else {
            -(mag as i64)
        };
        assert(v as int == -(val as int));
        Ok((JsonValue::Int(v), j))
    } else {
        if exceeded || val > 0x7fffffffffffffff {
            return Err(String::from_str("number out of range"));
        }
        let v: i64 = val as i64;
        Ok((JsonValue::Int(v), j))
    }
}

/// Parses one value starting at `i`.
pub fn parse_value(s: &Vec<char>, i: usize) -> (r: Result<(JsonValue, usize), String>)
    requires
        i <= s@.len(),
    ensures
        match r {
            Ok(p) => i < p.1 <= s@.len() && spec_parse_value(s@.skip(i as int)) == Some(
                (p.0@, p.1 - i),
            ),
            Err(_) => spec_parse_value(s@.skip(i as int)) is None,
        },
    decreases s@.len() - i, 1int,
{
    let ghost t0 = s@.skip(i as int);
    let i2 = skip_ws(s, i);
    let ghost w = i2 - i;
    let ghost t = s@.skip(i2 as int);
    proof {
        assert(w == ws_len(t0));
        assert(t0.skip(w as int) =~= t);
    }
    let n = s.len();
    if i2 >= n {
        return Err(String::from_str("empty body"));
    }
    let c = s[i2];
    assert(t[0] == c);
    proof {
        assert(forall|k: int| 0 <= k < t.len() ==> #[trigger] t[k] == s@[i2 + k]);
    }
    if c == 'n' {
        if n - i2 >= 4 && s[i2 + 1] == 'u' && s[i2 + 2] == 'l' && s[i2 + 3] == 'l' {
            Ok((JsonValue::Null, i2 + 4))
        } else {
            Err(String::from_str("body is not well-formed"))
        }
    } else if c == 't' {
        if n - i2 >= 4 && s[i2 + 1] == 'r' && s[i2 + 2] == 'u' && s[i2 + 3] == 'e' {
            Ok((JsonValue::Bool(true), i2 + 4))
        } else {
            Err(String::from_str("body is not well-formed"))
        }
    } else if c == 'f' {
        if n - i2 >= 5 && s[i2 + 1] == 'a' && s[i2 + 2] == 'l' && s[i2 + 3] == 's' && s[i2 + 4]
            == 'e' {
            Ok((JsonValue::Bool(false), i2 + 5))
        } else {
            Err(String::from_str("body is not well-formed"))
        }
    } else if c == '"' {
        assert(t.skip(1) =~= s@.skip(i2 + 1));
        match parse_strchars(s, i2 + 1) {
            Ok((cs, j)) => {
                let text = chars_to_string(&cs);
                Ok((JsonValue::Str(text), j))
            },
            Err(e) => Err(e),
        }
    } else if c == '[' {
        let b1 = skip_ws(s, i2 + 1);
        proof {
            assert(t.skip(1) =~= s@.skip(i2 + 1));
            assert(b1 - (i2 + 1) == ws_len(t.skip(1)));
            if b1 < n {
                assert(t[1 + (b1 - (i2 + 1))] == s@[b1 as int]);
            }
        }
        if b1 >= n {
            Err(String::from_str("unterminated array in body"))
        } else if s[b1] == ']' {
            let empty: Vec<JsonValue> = Vec::new();
            proof {
                lemma_view_arr(empty);
                assert(seq_view_elems(empty@) =~= Seq::<JsonVal>::empty());
            }
            Ok((JsonValue::Arr(empty), b1 + 1))
        } else {
            match parse_elems(s, i2 + 1) {
                Ok((es, j)) => {
                    proof {
                        lemma_view_arr(es);
                    }
                    Ok((JsonValue::Arr(es), j))
                },
                Err(e) => Err(e),
            }
        }
    } else if c == '{' {
        let b1 = skip_ws(s, i2 + 1);
        proof {
            assert(t.skip(1) =~= s@.skip(i2 + 1));
            assert(b1 - (i2 + 1) == ws_len(t.skip(1)));
            if b1 < n {
                assert(t[1 + (b1 - (i2 + 1))] == s@[b1 as int]);
            }
        }
        if b1 >= n {
            Err(String::from_str("unterminated object in body"))
        } else if s[b1] == '}' {
            let empty: Vec<(String, JsonValue)> = Vec::new();
            proof {
                lemma_view_obj(empty);
                assert(seq_view_fields(empty@) =~= Seq::<(Seq<char>, JsonVal)>::empty());
            }
            Ok((JsonValue::Obj(empty), b1 + 1))
        } else {
            match parse_fields(s, i2 + 1) {
                Ok((fs, j)) => {
                    proof {
                        lemma_view_obj(fs);
                    }
                    Ok((JsonValue::Obj(fs), j))
                },
                Err(e) => Err(e),
            }
        }
    } else if c == '-' || is_digit_char(c) {
        match parse_number(s, i2) {
            Ok((v, j)) => Ok((v, j)),
            Err(e) => Err(e),
        }
    } else {
        Err(String::from_str("body is not well-formed"))
    }
}

/// Parses the members of a non-empty array starting at `i` (just after the
/// opening bracket), up to and including the closing bracket.
fn parse_elems(s: &Vec<char>, i: usize) -> (r: Result<(Vec<JsonValue>, usize), String>)
    requires
        i <= s@.len(),
    ensures
        match r {
            Ok(p) => i < p.1 <= s@.len() && spec_parse_elems(s@.skip(i as int)) == Some(
                (seq_view_elems(p.0@), p.1 - i),
            ),
            Err(_) => spec_parse_elems(s@.skip(i as int)) is None,
        },
    decreases s@.len() - i, 2int,
{
    let ghost t = s@.skip(i as int);
    match parse_value(s, i) {
        Ok((v, m)) => {
            let n = s.len();
            let m2 = skip_ws(s, m);
            proof {
                assert(t.skip(m - i) =~= s@.skip(m as int));
                assert(m2 - m == ws_len(t.skip(m - i)));
                if m2 < n {
                    assert(t[m2 - i] == s@[m2 as int]);
                }
            }
            if m2 >= n {
                return Err(String::from_str("unterminated array in body"));
            }
            let c = s[m2];
            if c == ',' {
                assert(t.skip(m2 - i + 1) =~= s@.skip(m2 + 1));
                match parse_elems(s, m2 + 1) {
                    Ok((mut es, j)) => {
                        let ghost olds = es@;
                        es.insert(0, v);
                        proof {
                            assert(es@ =~= seq![v] + olds);
                            assert(seq_view_elems(es@) =~= seq![v@] + seq_view_elems(olds));
                        }
                        Ok((es, j))
                    },
                    Err(e) => Err(e),
                }
            } else if c == ']' {
                let mut es: Vec<JsonValue> = Vec::new();
                es.push(v);
                proof {
                    assert(seq_view_elems(es@) =~= seq![v@]);
                }
                Ok((es, m2 + 1))
            } else {
                Err(String::from_str("body is not well-formed"))
            }
        },
        Err(e) => Err(e),
    }
}

/// Parses the members of a non-empty object starting at `i` (just after the
/// opening brace), up to and including the closing brace.
#[verifier::rlimit(100)]
#[verifier::spinoff_prover]
fn parse_fields(s: &Vec<char>, i: usize) -> (r: Result<(Vec<(String, JsonValue)>, usize), String>)
    requires
        i <= s@.len(),
    ensures
        match r {
            Ok(p) => i < p.1 <= s@.len() && spec_parse_fields(s@.skip(i as int)) == Some(
                (seq_view_fields(p.0@), p.1 - i),
            ),
            Err(_) => spec_parse_fields(s@.skip(i as int)) is None,
        },
    decreases s@.len() - i, 2int,
{
    let ghost t = s@.skip(i as int);
    let n = s.len();
    let k0 = skip_ws(s, i);
    let ghost w0 = k0 - i;
    proof {
        assert(w0 == ws_len(t));
        if k0 < n {
            assert(t[w0 as int] == s@[k0 as int]);
        }
    }
    if k0 >= n {
        return Err(String::from_str("unterminated object in body"));
    }
    if s[k0] != '"' {
        return Err(String::from_str("body is not well-formed"));
    }
    assert(t.skip(w0 + 1) =~= s@.skip(k0 + 1));
    match parse_strchars(s, k0 + 1) {
        Ok((kcs, kj)) => {
            let ghost kn = kj - (k0 + 1);
            assert(spec_parse_strbody(t.skip(w0 + 1)) == Some((kcs@, kn)));
            let c1 = skip_ws(s, kj);
            let ghost w1 = c1 - kj;
            proof {
                assert(t.skip(w0 + 1 + kn) =~= s@.skip(kj as int));
                assert(w1 == ws_len(t.skip(w0 + 1 + kn)));
                if c1 < n {
                    assert(t[w0 + 1 + kn + w1] == s@[c1 as int]);
                }
            }
            if c1 >= n {
                return Err(String::from_str("unterminated object in body"));
            }
            if s[c1] != ':' {
                return Err(String::from_str("body is not well-formed"));
            }
            assert(t.skip(w0 + 1 + kn + w1 + 1) =~= s@.skip(c1 + 1));
            match parse_value(s, c1 + 1) {
                Ok((v, vj)) => {
                    let ghost vn = vj - (c1 + 1);
                    let ghost tt = w0 + 1 + kn + w1 + 1 + vn;
                    assert(tt == vj - i);
                    let t2 = skip_ws(s, vj);
                    let ghost w2 = t2 - vj;
                    proof {
                        assert(t.skip(tt as int) =~= s@.skip(vj as int));
                        assert(w2 == ws_len(t.skip(tt as int)));
                        if t2 < n {
                            assert(t[tt + w2] == s@[t2 as int]);
                        }
                    }
                    if t2 >= n {
                        return Err(String::from_str("unterminated object in body"));
                    }
                    let c = s[t2];
                    let key = chars_to_string(&kcs);
                    if c == ',' {
                        assert(t.skip(tt + w2 + 1) =~= s@.skip(t2 + 1));
                        match parse_fields(s, t2 + 1) {
                            Ok((mut fs, j)) => {
                                let ghost olds = fs@;
                                fs.insert(0, (key, v));
                                proof {
                                    assert(fs@ =~= seq![(key, v)] + olds);
                                    assert(seq_view_fields(fs@) =~= seq![(key@, v@)]
                                        + seq_view_fields(olds));
                                }
                                Ok((fs, j))
                            },
                            Err(e) => Err(e),
                        }
                    } else if c == '}' {
                        let mut fs: Vec<(String, JsonValue)> = Vec::new();
                        fs.push((key, v));
                        proof {
                            assert(seq_view_fields(fs@) =~= seq![(key@, v@)]);
                        }
                        Ok((fs, t2 + 1))
                    } else {
                        Err(String::from_str("body is not well-formed"))
                    }
                },
                Err(e) => Err(e),
            }
        },
        Err(e) => Err(e),
    }
}

/// Parses a whole body text: the document it holds, provided only
/// whitespace follows it.
pub fn parse_json(s: &str) -> (r: Result<JsonValue, String>)
    ensures
        match r {
            Ok(v) => spec_decode_text(s@) == Some(v@),
            Err(_) => spec_decode_text(s@) is None,
        },
{
    let chars = str_to_chars(s);
    assert(chars@.skip(0) =~= s@);
    match parse_value(&chars, 0) {
        Ok((v, j)) => {
            let j2 = skip_ws(&chars, j);
            if j2 == chars.len() {
                Ok(v)
            } else {
                Err(String::from_str("trailing characters in body"))
            }
        },
        Err(e) => Err(e),
    }
}

} // verus!
