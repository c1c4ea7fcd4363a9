//! The codec's round-trip law: parsing the rendered text of a document
//! yields the document back.  This is the statement that the encode and
//! decode directions of the transport body format agree.

use vstd::prelude::*;

use crate::json::{
    char_from_code,
    lemma_char_from_code_of,
    spec_decode_text,
    spec_hex4,
    spec_hex4_ok,
    spec_u_escape,
    is_ws,
    ws_len,
    spec_escape,
    spec_escape_char,
    spec_parse_elems,
    spec_parse_fields,
    spec_parse_number,
    spec_parse_strbody,
    spec_parse_value,
    spec_render,
    spec_render_elems,
    spec_render_fields,
    spec_render_int,
    spec_unescape_char,
    wf_json,
    JsonVal,
};
use crate::text::{
    digit_run_len,
    hex_char,
    hex_val,
    is_hex,
    lemma_hex_char_val,
    digits_val,
    is_digit,
    lemma_digit_run_len_of,
    lemma_digits_are_digits,
    lemma_digits_val_of_digits,
    spec_digits,
};

verus! {

broadcast use vstd::seq::group_seq_axioms;

/// Parsing a string body that was produced by escaping recovers the original
/// characters and stops right after the closing quote.
#[verifier::rlimit(100)]
#[verifier::spinoff_prover]
proof fn lemma_parse_strbody_of_escape(cs: Seq<char>, rest: Seq<char>)
    ensures
        spec_parse_strbody(spec_escape(cs) + seq!['"'] + rest) == Some(
            (cs, spec_escape(cs).len() + 1int),
        ),
    decreases cs.len(),
{
    let s = spec_escape(cs) + seq!['"'] + rest;
    if cs.len() == 0 {
        assert(spec_escape(cs) =~= Seq::<char>::empty());
        assert(s[0] == '"');
        assert(spec_parse_strbody(s) == Some((Seq::<char>::empty(), 1int)));
        assert(cs =~= Seq::<char>::empty());
    } else {
        let c = cs[0];
        let tail = cs.drop_first();
        lemma_parse_strbody_of_escape(tail, rest);
        let ec = spec_escape_char(c);
        assert(spec_escape(cs) == ec + spec_escape(tail));
        if c == '"' || c == '\\' || c == '\n' || c == '\r' || c == '\t' {
            assert(ec.len() == 2);
            assert(ec[0] == '\\');
            assert(s[0] == '\\');
            assert(s.len() >= 2);
            assert(s[1] == ec[1]);
            assert(ec[1] != 'u');
            assert(spec_unescape_char(ec[1]) == Some(c));
            assert(s.skip(2) =~= spec_escape(tail) + seq!['"'] + rest);
            assert(spec_parse_strbody(s.skip(2)) == Some((tail, spec_escape(tail).len() + 1int)));
            assert(seq![c] + tail =~= cs);
        } else if (c as nat) < 32 {
            let hi = (c as nat) / 16;
            let lo = (c as nat) % 16;
            lemma_hex_char_val(hi);
            lemma_hex_char_val(lo);
            assert(ec.len() == 6);
            assert(s[0] == '\\');
            assert(s[1] == 'u');
            assert(s.len() >= 7);
            assert(s[2] == '0' && s[3] == '0' && s[4] == hex_char(hi) && s[5] == hex_char(lo));
            assert(is_hex('0') && hex_val('0') == 0);
            assert(spec_hex4_ok(s, 2));
            assert(spec_hex4(s, 2) == hi * 16 + lo);
            assert(hi * 16 + lo == c as nat);
            let u = spec_hex4(s, 2);
            assert(u < 32);
            lemma_char_from_code_of(c);
            assert(char_from_code(u) == c);
            assert(spec_u_escape(s) == Some((c, 6int)));
            assert(s.skip(6) =~= spec_escape(tail) + seq!['"'] + rest);
            assert(spec_parse_strbody(s.skip(6)) == Some((tail, spec_escape(tail).len() + 1int)));
            assert(seq![c] + tail =~= cs);
        } else {
            assert(ec =~= seq![c]);
            assert(s[0] == c);
            assert(c != '"' && c != '\\');
            assert(s.skip(1) =~= spec_escape(tail) + seq!['"'] + rest);
            assert(spec_parse_strbody(s.skip(1)) == Some((tail, spec_escape(tail).len() + 1int)));
            assert(seq![c] + tail =~= cs);
        }
    }
}

/// Whether a text may directly follow a rendered number: empty, or starting
/// with something other than a digit.
pub open spec fn sep_ok(rest: Seq<char>) -> bool {
    rest.len() == 0 || !is_digit(rest[0])
}

/// The digit run of a rendered numeral followed by a non-digit is exactly
/// the numeral, and it reads back as the rendered value.
proof fn lemma_parse_digits_of_render(n: nat, rest: Seq<char>)
    requires
        sep_ok(rest),
    ensures
        digit_run_len(spec_digits(n) + rest) == spec_digits(n).len(),
        digits_val((spec_digits(n) + rest).take(spec_digits(n).len() as int)) == n,
{
    let ds = spec_digits(n);
    let s = ds + rest;
    lemma_digits_are_digits(n);
    assert(forall|j: int| 0 <= j < ds.len() ==> is_digit(#[trigger] s[j]));
    if rest.len() != 0 {
        assert(s[ds.len() as int] == rest[0]);
    }
    lemma_digit_run_len_of(s, ds.len() as int);
    assert(s.take(ds.len() as int) =~= ds);
    lemma_digits_val_of_digits(n);
}

/// Parsing the rendered text of an integer in 64-bit range recovers the
/// integer and consumes exactly the rendered characters.
proof fn lemma_parse_number_of_render(i: int, rest: Seq<char>)
    requires
        -0x8000000000000000 <= i <= 0x7fffffffffffffff,
        sep_ok(rest),
    ensures
        spec_parse_number(spec_render_int(i) + rest) == Some(
            (JsonVal::Int(i), spec_render_int(i).len() as int),
        ),
{
    let r = spec_render_int(i);
    let s = r + rest;
    if i < 0 {
        let m = (-i) as nat;
        let ds = spec_digits(m);
        lemma_digits_are_digits(m);
        assert(s[0] == '-');
        assert(!is_digit('-'));
        assert(s.skip(1) =~= ds + rest);
        lemma_parse_digits_of_render(m, rest);
        assert(digit_run_len(s.skip(1)) == ds.len());
        assert(s.skip(1).take(ds.len() as int) =~= (ds + rest).take(ds.len() as int));
        assert(digits_val(s.skip(1).take(ds.len() as int)) == m);
        assert(m <= 0x8000000000000000);
        assert(r.len() == 1 + ds.len());
    } else {
        let m = i as nat;
        let ds = spec_digits(m);
        lemma_digits_are_digits(m);
        assert(s[0] == ds[0]);
        assert(is_digit(s[0]));
        assert(s[0] != '-');
        lemma_parse_digits_of_render(m, rest);
        assert(digit_run_len(s) == ds.len());
        assert(digits_val(s.take(ds.len() as int)) == m);
        assert(m <= 0x7fffffffffffffff);
    }
}

/// The characters a rendered value can start with.
pub open spec fn starts_value(c: char) -> bool {
    c == 'n' || c == 't' || c == 'f' || c == '"' || c == '[' || c == '{' || c == '-' || is_digit(c)
}

/// A rendered value is never empty and starts with a value-opening
/// character, never with a separator or a closing bracket.
proof fn lemma_render_starts(v: JsonVal)
    ensures
        spec_render(v).len() >= 1,
        starts_value(spec_render(v)[0]),
{
    match v {
        JsonVal::Int(i) => {
            if i >= 0 {
                lemma_digits_are_digits(i as nat);
            } else {
                lemma_digits_are_digits((-i) as nat);
            }
        },
        _ => {},
    }
}

/// Parsing the rendered text of a well-formed document, followed by anything
/// that cannot extend a trailing numeral, recovers the document and consumes
/// exactly the rendered characters.
#[verifier::rlimit(100)]
#[verifier::spinoff_prover]
proof fn lemma_parse_of_render(v: JsonVal, rest: Seq<char>)
    requires
        wf_json(v),
        sep_ok(rest),
    ensures
        spec_parse_value(spec_render(v) + rest) == Some((v, spec_render(v).len() as int)),
    decreases v,
{
    let r = spec_render(v);
    let s = r + rest;
    lemma_render_starts(v);
    assert(s[0] == r[0]);
    assert(!is_ws(s[0]));
    assert(ws_len(s) == 0);
    assert(s.skip(0) =~= s);
    match v {
        JsonVal::Null => {
            assert(s[0] == 'n' && s[1] == 'u' && s[2] == 'l' && s[3] == 'l');
        },
        JsonVal::Bool(b) => {
            if b {
                assert(s[0] == 't' && s[1] == 'r' && s[2] == 'u' && s[3] == 'e');
            } else {
                assert(s[0] == 'f' && s[1] == 'a' && s[2] == 'l' && s[3] == 's' && s[4] == 'e');
            }
        },
        JsonVal::Int(i) => {
            lemma_parse_number_of_render(i, rest);
            lemma_render_starts(v);
            assert(s[0] == r[0]);
            assert(s =~= spec_render_int(i) + rest);
        },
        JsonVal::Str(cs) => {
            assert(s[0] == '"');
            assert(s.skip(1) =~= spec_escape(cs) + seq!['"'] + rest);
            lemma_parse_strbody_of_escape(cs, rest);
            assert(spec_parse_strbody(s.skip(1)) == Some((cs, spec_escape(cs).len() + 1int)));
        },
        JsonVal::Arr(es) => {
            if es.len() == 0 {
                assert(s[0] == '[' && s[1] == ']');
                assert(s.skip(1)[0] == ']');
                assert(!is_ws(']'));
                assert(ws_len(s.skip(1)) == 0);
                assert(es =~= Seq::<JsonVal>::empty());
            } else {
                assert(s[0] == '[');
                lemma_render_starts(es[0]);
                assert(spec_render_elems(es)[0] == spec_render(es[0])[0]);
                assert(s[1] == spec_render_elems(es)[0]);
                assert(s.skip(1)[0] == s[1]);
                assert(!is_ws(s[1]));
                assert(ws_len(s.skip(1)) == 0);
                assert(s[1] != ']');
                assert(s.skip(1) =~= spec_render_elems(es) + seq![']'] + rest);
                lemma_parse_elems_of_render(es, rest);
            }
        },
        JsonVal::Obj(fs) => {
            if fs.len() == 0 {
                assert(s[0] == '{' && s[1] == '}');
                assert(s.skip(1)[0] == '}');
                assert(!is_ws('}'));
                assert(ws_len(s.skip(1)) == 0);
                assert(fs =~= Seq::<(Seq<char>, JsonVal)>::empty());
            } else {
                assert(s[0] == '{');
                assert(spec_render_fields(fs)[0] == '"');
                assert(s[1] == spec_render_fields(fs)[0]);
                assert(s.skip(1)[0] == s[1]);
                assert(!is_ws('"'));
                assert(ws_len(s.skip(1)) == 0);
                assert(s[1] != '}');
                assert(s.skip(1) =~= spec_render_fields(fs) + seq!['}'] + rest);
                lemma_parse_fields_of_render(fs, rest);
            }
        },
    }
}

/// Parsing the rendered members of a non-empty array, followed by the
/// closing bracket, recovers the members.
#[verifier::rlimit(100)]
#[verifier::spinoff_prover]
proof fn lemma_parse_elems_of_render(es: Seq<JsonVal>, rest: Seq<char>)
    requires
        es.len() >= 1,
        forall|i: int| 0 <= i < es.len() ==> wf_json(#[trigger] es[i]),
    ensures
        spec_parse_elems(spec_render_elems(es) + seq![']'] + rest) == Some(
            (es, spec_render_elems(es).len() + 1int),
        ),
    decreases es,
{
    let re = spec_render_elems(es);
    let u = re + seq![']'] + rest;
    let r0 = spec_render(es[0]);
    lemma_render_starts(es[0]);
    if es.len() == 1 {
        assert(re == r0);
        assert(u =~= r0 + (seq![']'] + rest));
        lemma_parse_of_render(es[0], seq![']'] + rest);
        assert(spec_parse_value(u) == Some((es[0], r0.len() as int)));
        assert(u[r0.len() as int] == ']');
        assert(u.skip(r0.len() as int)[0] == ']');
        assert(!is_ws(']'));
        assert(ws_len(u.skip(r0.len() as int)) == 0);
        assert(seq![es[0]] =~= es);
    } else {
        let tail = es.drop_first();
        assert(re == r0 + seq![','] + spec_render_elems(tail));
        let rest1 = seq![','] + spec_render_elems(tail) + seq![']'] + rest;
        assert(u =~= r0 + rest1);
        lemma_parse_of_render(es[0], rest1);
        assert(spec_parse_value(u) == Some((es[0], r0.len() as int)));
        let n = r0.len() as int;
        assert(u[n] == ',');
        assert(u.skip(n)[0] == ',');
        assert(!is_ws(','));
        assert(ws_len(u.skip(n)) == 0);
        assert(u.skip(n + 1) =~= spec_render_elems(tail) + seq![']'] + rest);
        assert(forall|i: int| 0 <= i < tail.len() ==> wf_json(#[trigger] tail[i]));
        lemma_parse_elems_of_render(tail, rest);
        assert(spec_parse_elems(u.skip(n + 1)) == Some(
            (tail, spec_render_elems(tail).len() + 1int),
        ));
        assert(seq![es[0]] + tail =~= es);
    }
}

/// Parsing the rendered members of a non-empty object, followed by the
/// closing brace, recovers the members.
#[verifier::rlimit(100)]
#[verifier::spinoff_prover]
proof fn lemma_parse_fields_of_render(fs: Seq<(Seq<char>, JsonVal)>, rest: Seq<char>)
    requires
        fs.len() >= 1,
        forall|i: int| 0 <= i < fs.len() ==> wf_json(#[trigger] fs[i].1),
    ensures
        spec_parse_fields(spec_render_fields(fs) + seq!['}'] + rest) == Some(
            (fs, spec_render_fields(fs).len() + 1int),
        ),
    decreases fs, 1int,
{
    if fs.len() == 1 {
        lemma_parse_fields_of_render_single(fs, rest);
    } else {
        lemma_parse_fields_of_render_step(fs, rest);
    }
}

/// The single-member case of the object round trip.
#[verifier::rlimit(100)]
#[verifier::spinoff_prover]
proof fn lemma_parse_fields_of_render_single(fs: Seq<(Seq<char>, JsonVal)>, rest: Seq<char>)
    requires
        fs.len() == 1,
        forall|i: int| 0 <= i < fs.len() ==> wf_json(#[trigger] fs[i].1),
    ensures
        spec_parse_fields(spec_render_fields(fs) + seq!['}'] + rest) == Some(
            (fs, spec_render_fields(fs).len() + 1int),
        ),
    decreases fs, 0int,
{
    let rf = spec_render_fields(fs);
    let u = rf + seq!['}'] + rest;
    let k0 = fs[0].0;
    let v0 = fs[0].1;
    let ek = spec_escape(k0);
    let r0 = spec_render(v0);
    lemma_render_starts(v0);
    assert(u[0] == '"');
    assert(!is_ws('"'));
    assert(ws_len(u) == 0);
    assert(u.skip(0) =~= u);
        assert(rf == seq!['"'] + ek + seq!['"', ':'] + r0);
        let rest2 = seq![':'] + r0 + seq!['}'] + rest;
        assert(u.skip(1) =~= ek + seq!['"'] + rest2);
        lemma_parse_strbody_of_escape(k0, rest2);
        assert(spec_parse_strbody(u.skip(1)) == Some((k0, ek.len() + 1int)));
        let kn = ek.len() + 1int;
        assert(u[1 + kn] == ':');
        assert(u.skip(1 + kn)[0] == ':');
        assert(!is_ws(':'));
        assert(ws_len(u.skip(1 + kn)) == 0);
        let rest3 = seq!['}'] + rest;
        assert(u.skip(2 + kn) =~= r0 + rest3);
        lemma_parse_of_render(v0, rest3);
        assert(spec_parse_value(u.skip(2 + kn)) == Some((v0, r0.len() as int)));
        let t = 2 + kn + r0.len() as int;
        assert(u[t] == '}');
        assert(u.skip(t)[0] == '}');
        assert(!is_ws('}'));
        assert(ws_len(u.skip(t)) == 0);
        assert((fs[0].0, fs[0].1) == fs[0]);
        assert(seq![(k0, v0)] =~= fs);
}

/// The step case of the object round trip: two or more members.
#[verifier::rlimit(100)]
#[verifier::spinoff_prover]
proof fn lemma_parse_fields_of_render_step(fs: Seq<(Seq<char>, JsonVal)>, rest: Seq<char>)
    requires
        fs.len() >= 2,
        forall|i: int| 0 <= i < fs.len() ==> wf_json(#[trigger] fs[i].1),
    ensures
        spec_parse_fields(spec_render_fields(fs) + seq!['}'] + rest) == Some(
            (fs, spec_render_fields(fs).len() + 1int),
        ),
    decreases fs, 0int,
{
    let rf = spec_render_fields(fs);
    let u = rf + seq!['}'] + rest;
    let k0 = fs[0].0;
    let v0 = fs[0].1;
    let ek = spec_escape(k0);
    let r0 = spec_render(v0);
    lemma_render_starts(v0);
    assert(u[0] == '"');
    assert(!is_ws('"'));
    assert(ws_len(u) == 0);
    assert(u.skip(0) =~= u);
        let tail = fs.drop_first();
        assert(rf == seq!['"'] + ek + seq!['"', ':'] + r0 + seq![','] + spec_render_fields(tail));
        let rest2 = seq![':'] + r0 + seq![','] + spec_render_fields(tail) + seq!['}'] + rest;
        assert(u.skip(1) =~= ek + seq!['"'] + rest2);
        lemma_parse_strbody_of_escape(k0, rest2);
        assert(spec_parse_strbody(u.skip(1)) == Some((k0, ek.len() + 1int)));
        let kn = ek.len() + 1int;
        assert(u[1 + kn] == ':');
        assert(u.skip(1 + kn)[0] == ':');
        assert(!is_ws(':'));
        assert(ws_len(u.skip(1 + kn)) == 0);
        let rest3 = seq![','] + spec_render_fields(tail) + seq!['}'] + rest;
        assert(u.skip(2 + kn) =~= r0 + rest3);
        lemma_parse_of_render(v0, rest3);
        assert(spec_parse_value(u.skip(2 + kn)) == Some((v0, r0.len() as int)));
        let t = 2 + kn + r0.len() as int;
        assert(u[t] == ',');
        assert(u.skip(t)[0] == ',');
        assert(!is_ws(','));
        assert(ws_len(u.skip(t)) == 0);
        assert(u.skip(t + 1) =~= spec_render_fields(tail) + seq!['}'] + rest);
        assert(forall|i: int| 0 <= i < tail.len() ==> wf_json(#[trigger] tail[i].1));
        lemma_parse_fields_of_render(tail, rest);
        assert(spec_parse_fields(u.skip(t + 1)) == Some(
            (tail, spec_render_fields(tail).len() + 1int),
        ));
        assert((fs[0].0, fs[0].1) == fs[0]);
        assert(seq![(k0, v0)] + tail =~= fs);
}

/// The round-trip law of the body format: the rendered text of any
/// well-formed document decodes back to the document itself.
pub proof fn lemma_decode_of_render(v: JsonVal)
    requires
        wf_json(v),
    ensures
        spec_decode_text(spec_render(v)) == Some(v),
{
    lemma_parse_of_render(v, Seq::empty());
    assert(spec_render(v) + Seq::<char>::empty() =~= spec_render(v));
    let n = spec_render(v).len() as int;
    assert(spec_render(v).skip(n).len() == 0);
    assert(ws_len(spec_render(v).skip(n)) == 0);
}

} // verus!
