//! The payload codec: typed values to transport body text and back.
//!
//! `JsonEncode` and `JsonDecode` are the two independent, fallible
//! directions; `JsonCodec` ties them together with the round-trip law that
//! every type carrying both directions must prove.  The field helpers at the
//! bottom are what the record decoders are written with.

use vstd::prelude::*;

use crate::json::{
    parse_json,
    render_json,
    seq_view_fields,
    spec_decode_text,
    spec_render,
    wf_json,
    JsonVal,
    JsonValue,
};
use crate::json_laws::lemma_decode_of_render;

verus! {

broadcast use vstd::seq::group_seq_axioms, vstd::std_specs::vec::group_vec_axioms;

/// A typed request payload: a value that can be turned into a transport
/// document.  `spec_to_json` is `None` exactly when the value cannot be
/// represented (an internally inconsistent value); that is the encode
/// failure the pipeline surfaces as its own error kind.
pub trait JsonEncode {
    /// The document this value encodes to, if it can be represented.
    spec fn spec_to_json(&self) -> Option<JsonVal>;

    /// Builds the document, or reports why the value cannot be represented.
    fn to_json(&self) -> (r: Result<JsonValue, String>)
        ensures
            match r {
                Ok(j) => self.spec_to_json() == Some(j@),
                Err(_) => self.spec_to_json() is None,
            },
    ;
}

/// A typed response: a value that can be read back out of a transport
/// document.  `spec_from_json` fixes exactly which documents are accepted
/// and what model value they carry.
pub trait JsonDecode: Sized + DeepView {
    /// The model value a document decodes to, if it has the expected shape.
    spec fn spec_from_json(j: JsonVal) -> Option<Self::V>;

    /// Reads the value back, or reports that the document has the wrong
    /// shape.
    fn from_json(v: &JsonValue) -> (r: Result<Self, String>)
        ensures
            match r {
                Ok(x) => Self::spec_from_json(v@) == Some(x.deep_view()),
                Err(_) => Self::spec_from_json(v@) is None,
            },
    ;
}

/// A payload type with both directions.  Every implementation proves the
/// round-trip law: whatever the type encodes to is well formed and decodes
/// back to the same model value.
pub trait JsonCodec: JsonEncode + JsonDecode {
    proof fn lemma_codec_round_trip(&self)
        ensures
            self.spec_to_json() matches Some(j) ==> wf_json(j) && Self::spec_from_json(j) == Some(
                self.deep_view(),
            ),
    ;
}

/// The meaning of a whole body text for a decodable type: parse the text,
/// then read the value out of the document.
pub open spec fn spec_decode_body<T: JsonDecode>(s: Seq<char>) -> Option<T::V> {
    match spec_decode_text(s) {
        Some(j) => T::spec_from_json(j),
        None => None,
    }
}

/// Encodes a payload to its transport body text.
pub fn encode_body<T: JsonEncode>(p: &T) -> (r: Result<String, String>)
    ensures
        match r {
            Ok(b) => p.spec_to_json() is Some && b@ == spec_render(p.spec_to_json().unwrap()),
            Err(_) => p.spec_to_json() is None,
        },
{
    match p.to_json() {
        Ok(j) => Ok(render_json(&j)),
        Err(e) => Err(e),
    }
}

/// Decodes a transport body text into a typed value.
pub fn decode_body<T: JsonDecode>(b: &str) -> (r: Result<T, String>)
    ensures
        match r {
            Ok(x) => spec_decode_body::<T>(b@) == Some(x.deep_view()),
            Err(_) => spec_decode_body::<T>(b@) is None,
        },
{
    match parse_json(b) {
        Ok(v) => T::from_json(&v),
        Err(e) => Err(e),
    }
}

/// The round-trip law of the whole codec: decoding the encoded body of any
/// representable payload yields the payload's model value back.
pub proof fn lemma_decode_of_encode<T: JsonCodec>(p: &T)
    ensures
        p.spec_to_json() matches Some(j) ==> spec_decode_body::<T>(spec_render(j)) == Some(
            p.deep_view(),
        ),
{
    match p.spec_to_json() {
        Some(j) => {
            p.lemma_codec_round_trip();
            lemma_decode_of_render(j);
        },
        None => {},
    }
}

/// The value of the first member with the given key, if any.
pub open spec fn spec_obj_get(fs: Seq<(Seq<char>, JsonVal)>, key: Seq<char>) -> Option<JsonVal>
    decreases fs.len(),
{
    if fs.len() == 0 {
        None
    } else if fs[0].0 == key {
        Some(fs[0].1)
    } else {
        spec_obj_get(fs.drop_first(), key)
    }
}

/// Looks a member up by key.
pub fn obj_get<'a>(fs: &'a Vec<(String, JsonValue)>, key: &str) -> (r: Option<&'a JsonValue>)
    ensures
        match r {
            Some(v) => spec_obj_get(seq_view_fields(fs@), key@) == Some(v@),
            None => spec_obj_get(seq_view_fields(fs@), key@) is None,
        },
{
    let k = key.to_owned();
    let n = fs.len();
    let mut i: usize = 0;
    proof {
        assert(seq_view_fields(fs@).skip(0) =~= seq_view_fields(fs@));
    }
    while i < n
        invariant
            n == fs@.len(),
            i <= n,
            k@ == key@,
            spec_obj_get(seq_view_fields(fs@), key@) == spec_obj_get(
                seq_view_fields(fs@).skip(i as int),
                key@,
            ),
        decreases n - i,
    {
        proof {
            assert(seq_view_fields(fs@).skip(i as int)[0] == (fs@[i as int].0@, fs@[i as int].1@));
            assert(seq_view_fields(fs@).skip(i as int).drop_first() =~= seq_view_fields(fs@).skip(
                i as int + 1,
            ));
        }
        if fs[i].0 == k {
            return Some(&fs[i].1);
        }
        i = i + 1;
    }
    proof {
        assert(seq_view_fields(fs@).skip(n as int).len() == 0);
    }
    None
}

/// The position of the first member with the given key, or a negative
/// value if there is none.
pub open spec fn spec_obj_index(fs: Seq<(Seq<char>, JsonVal)>, key: Seq<char>) -> int
    decreases fs.len(),
{
    if fs.len() == 0 {
        -1
    } else if fs[0].0 == key {
        0
    } else {
        let r = spec_obj_index(fs.drop_first(), key);
        if r < 0 {
            -1
        } else {
            1 + r
        }
    }
}

/// The index agrees with the lookup: negative exactly when the key is
/// absent, and otherwise in bounds, naming the key, and giving the looked-up
/// value.
pub proof fn lemma_obj_index(fs: Seq<(Seq<char>, JsonVal)>, key: Seq<char>)
    ensures
        spec_obj_index(fs, key) < 0 <==> spec_obj_get(fs, key) is None,
        spec_obj_index(fs, key) >= 0 ==> spec_obj_index(fs, key) < fs.len() && fs[spec_obj_index(
            fs,
            key,
        )].0 == key && spec_obj_get(fs, key) == Some(fs[spec_obj_index(fs, key)].1),
    decreases fs.len(),
{
    if fs.len() != 0 && fs[0].0 != key {
        lemma_obj_index(fs.drop_first(), key);
    }
}

/// Finds the position of a member by key.
pub fn obj_index(fs: &Vec<(String, JsonValue)>, key: &str) -> (r: Option<usize>)
    ensures
        match r {
            Some(ix) => ix < fs@.len() && spec_obj_index(seq_view_fields(fs@), key@) == ix as int,
            None => spec_obj_index(seq_view_fields(fs@), key@) < 0,
        },
{
    let ghost svf = seq_view_fields(fs@);
    let k = key.to_owned();
    let n = fs.len();
    let mut i: usize = 0;
    proof {
        assert(svf.skip(0) =~= svf);
    }
    while i < n
        invariant
            n == fs@.len(),
            i <= n,
            k@ == key@,
            svf == seq_view_fields(fs@),
            svf.len() == n,
            spec_obj_index(svf, key@) == if spec_obj_index(svf.skip(i as int), key@) < 0 {
                -1int
            } else {
                i + spec_obj_index(svf.skip(i as int), key@)
            },
        decreases n - i,
    {
        proof {
            assert(svf.skip(i as int)[0] == (fs@[i as int].0@, fs@[i as int].1@));
            assert(svf.skip(i as int).drop_first() =~= svf.skip(i as int + 1));
        }
        if fs[i].0 == k {
            return Some(i);
        }
        i = i + 1;
    }
    proof {
        assert(svf.skip(n as int).len() == 0);
    }
    None
}

/// The error reported for a field that is missing or has the wrong shape.
fn field_err(key: &str) -> String {
    String::from_str("missing or ill-typed field: ").concat(key)
}

/// A required text field.
pub open spec fn spec_field_str(fs: Seq<(Seq<char>, JsonVal)>, key: Seq<char>) -> Option<
    Seq<char>,
> {
    match spec_obj_get(fs, key) {
        Some(JsonVal::Str(s)) => Some(s),
        _ => None,
    }
}

/// A required unsigned 32-bit field.
pub open spec fn spec_field_u32(fs: Seq<(Seq<char>, JsonVal)>, key: Seq<char>) -> Option<u32> {
    match spec_obj_get(fs, key) {
        Some(JsonVal::Int(i)) => if 0 <= i <= u32::MAX {
            Some(i as u32)
        } else {
            None
        },
        _ => None,
    }
}

/// A required signed 32-bit field.
pub open spec fn spec_field_i32(fs: Seq<(Seq<char>, JsonVal)>, key: Seq<char>) -> Option<i32> {
    match spec_obj_get(fs, key) {
        Some(JsonVal::Int(i)) => if i32::MIN <= i <= i32::MAX {
            Some(i as i32)
        } else {
            None
        },
        _ => None,
    }
}

/// A required boolean field.
pub open spec fn spec_field_bool(fs: Seq<(Seq<char>, JsonVal)>, key: Seq<char>) -> Option<bool> {
    match spec_obj_get(fs, key) {
        Some(JsonVal::Bool(b)) => Some(b),
        _ => None,
    }
}

/// An optional text field: absent or null reads as `None`.
pub open spec fn spec_field_opt_str(fs: Seq<(Seq<char>, JsonVal)>, key: Seq<char>) -> Option<
    Option<Seq<char>>,
> {
    match spec_obj_get(fs, key) {
        None => Some(None),
        Some(JsonVal::Null) => Some(None),
        Some(JsonVal::Str(s)) => Some(Some(s)),
        _ => None,
    }
}

/// An optional unsigned 32-bit field: absent or null reads as `None`.
pub open spec fn spec_field_opt_u32(fs: Seq<(Seq<char>, JsonVal)>, key: Seq<char>) -> Option<
    Option<u32>,
> {
    match spec_obj_get(fs, key) {
        None => Some(None),
        Some(JsonVal::Null) => Some(None),
        Some(JsonVal::Int(i)) => if 0 <= i <= u32::MAX {
            Some(Some(i as u32))
        } else {
            None
        },
        _ => None,
    }
}

/// An optional boolean field: absent or null reads as `None`.
pub open spec fn spec_field_opt_bool(fs: Seq<(Seq<char>, JsonVal)>, key: Seq<char>) -> Option<
    Option<bool>,
> {
    match spec_obj_get(fs, key) {
        None => Some(None),
        Some(JsonVal::Null) => Some(None),
        Some(JsonVal::Bool(b)) => Some(Some(b)),
        _ => None,
    }
}

/// Reads a required text field.
pub fn field_str(fs: &Vec<(String, JsonValue)>, key: &str) -> (r: Result<String, String>)
    ensures
        match r {
            Ok(s) => spec_field_str(seq_view_fields(fs@), key@) == Some(s@),
            Err(_) => spec_field_str(seq_view_fields(fs@), key@) is None,
        },
{
    match obj_get(fs, key) {
        Some(v) => match v {
            JsonValue::Str(s) => Ok(s.clone()),
            _ => Err(field_err(key)),
        },
        None => Err(field_err(key)),
    }
}

/// Reads a required unsigned 32-bit field.
pub fn field_u32(fs: &Vec<(String, JsonValue)>, key: &str) -> (r: Result<u32, String>)
    ensures
        match r {
            Ok(x) => spec_field_u32(seq_view_fields(fs@), key@) == Some(x),
            Err(_) => spec_field_u32(seq_view_fields(fs@), key@) is None,
        },
{
    match obj_get(fs, key) {
        Some(v) => match v {
            JsonValue::Int(i) => {
                if 0 <= *i && *i <= 4294967295i64 {
                    Ok(*i as u32)
                } else {
                    Err(field_err(key))
                }
            },
            _ => Err(field_err(key)),
        },
        None => Err(field_err(key)),
    }
}

/// Reads a required signed 32-bit field.
pub fn field_i32(fs: &Vec<(String, JsonValue)>, key: &str) -> (r: Result<i32, String>)
    ensures
        match r {
            Ok(x) => spec_field_i32(seq_view_fields(fs@), key@) == Some(x),
            Err(_) => spec_field_i32(seq_view_fields(fs@), key@) is None,
        },
{
    match obj_get(fs, key) {
        Some(v) => match v {
            JsonValue::Int(i) => {
                if -2147483648i64 <= *i && *i <= 2147483647i64 {
                    Ok(*i as i32)
                } else {
                    Err(field_err(key))
                }
            },
            _ => Err(field_err(key)),
        },
        None => Err(field_err(key)),
    }
}

/// Reads a required boolean field.
pub fn field_bool(fs: &Vec<(String, JsonValue)>, key: &str) -> (r: Result<bool, String>)
    ensures
        match r {
            Ok(x) => spec_field_bool(seq_view_fields(fs@), key@) == Some(x),
            Err(_) => spec_field_bool(seq_view_fields(fs@), key@) is None,
        },
{
    match obj_get(fs, key) {
        Some(v) => match v {
            JsonValue::Bool(b) => Ok(*b),
            _ => Err(field_err(key)),
        },
        None => Err(field_err(key)),
    }
}

/// Reads an optional text field.
pub fn field_opt_str(fs: &Vec<(String, JsonValue)>, key: &str) -> (r: Result<
    Option<String>,
    String,
>)
    ensures
        match r {
            Ok(o) => spec_field_opt_str(seq_view_fields(fs@), key@) == Some(o.deep_view()),
            Err(_) => spec_field_opt_str(seq_view_fields(fs@), key@) is None,
        },
{
    match obj_get(fs, key) {
        Some(v) => match v {
            JsonValue::Null => Ok(None),
            JsonValue::Str(s) => Ok(Some(s.clone())),
            _ => Err(field_err(key)),
        },
        None => Ok(None),
    }
}

/// Reads an optional unsigned 32-bit field.
pub fn field_opt_u32(fs: &Vec<(String, JsonValue)>, key: &str) -> (r: Result<Option<u32>, String>)
    ensures
        match r {
            Ok(o) => spec_field_opt_u32(seq_view_fields(fs@), key@) == Some(o),
            Err(_) => spec_field_opt_u32(seq_view_fields(fs@), key@) is None,
        },
{
    match obj_get(fs, key) {
        Some(v) => match v {
            JsonValue::Null => Ok(None),
            JsonValue::Int(i) => {
                if 0 <= *i && *i <= 4294967295i64 {
                    Ok(Some(*i as u32))
                } else {
                    Err(field_err(key))
                }
            },
            _ => Err(field_err(key)),
        },
        None => Ok(None),
    }
}

/// Reads an optional boolean field.
pub fn field_opt_bool(fs: &Vec<(String, JsonValue)>, key: &str) -> (r: Result<
    Option<bool>,
    String,
>)
    ensures
        match r {
            Ok(o) => spec_field_opt_bool(seq_view_fields(fs@), key@) == Some(o),
            Err(_) => spec_field_opt_bool(seq_view_fields(fs@), key@) is None,
        },
{
    match obj_get(fs, key) {
        Some(v) => match v {
            JsonValue::Null => Ok(None),
            JsonValue::Bool(b) => Ok(Some(*b)),
            _ => Err(field_err(key)),
        },
        None => Ok(None),
    }
}

/// A required field decoded with `T`'s own decoder.
pub open spec fn spec_field_rec<T: JsonDecode>(fs: Seq<(Seq<char>, JsonVal)>, key: Seq<char>) -> Option<
    T::V,
> {
    match spec_obj_get(fs, key) {
        Some(j) => T::spec_from_json(j),
        None => None,
    }
}

/// An optional field decoded with `T`'s own decoder: absent or null reads as
/// `None`.
pub open spec fn spec_field_opt_rec<T: JsonDecode>(
    fs: Seq<(Seq<char>, JsonVal)>,
    key: Seq<char>,
) -> Option<Option<T::V>> {
    match spec_obj_get(fs, key) {
        None => Some(None),
        Some(JsonVal::Null) => Some(None),
        Some(j) => match T::spec_from_json(j) {
            Some(x) => Some(Some(x)),
            None => None,
        },
    }
}

/// Reads a required field with `T`'s own decoder.
pub fn field_rec<T: JsonDecode>(fs: &Vec<(String, JsonValue)>, key: &str) -> (r: Result<T, String>)
    ensures
        match r {
            Ok(x) => spec_field_rec::<T>(seq_view_fields(fs@), key@) == Some(x.deep_view()),
            Err(_) => spec_field_rec::<T>(seq_view_fields(fs@), key@) is None,
        },
{
    match obj_get(fs, key) {
        Some(v) => T::from_json(v),
        None => Err(field_err(key)),
    }
}

/// Reads an optional field with `T`'s own decoder.
pub fn field_opt_rec<T: JsonDecode>(fs: &Vec<(String, JsonValue)>, key: &str) -> (r: Result<
    Option<T>,
    String,
>)
    ensures
        match r {
            Ok(o) => spec_field_opt_rec::<T>(seq_view_fields(fs@), key@) == Some(o.deep_view()),
            Err(_) => spec_field_opt_rec::<T>(seq_view_fields(fs@), key@) is None,
        },
{
    match obj_get(fs, key) {
        Some(v) => match v {
            JsonValue::Null => Ok(None),
            _ => match T::from_json(v) {
                Ok(x) => Ok(Some(x)),
                Err(e) => Err(e),
            },
        },
        None => Ok(None),
    }
}

impl JsonDecode for String {
    open spec fn spec_from_json(j: JsonVal) -> Option<Seq<char>> {
        match j {
            JsonVal::Str(s) => Some(s),
            _ => None,
        }
    }

    fn from_json(v: &JsonValue) -> (r: Result<Self, String>) {
        match v {
            JsonValue::Str(s) => Ok(s.clone()),
            _ => Err(String::from_str("expected a text value")),
        }
    }
}

/// The models of a list of documents, each decoded with `T`'s decoder; the
/// whole list fails if any element does.
pub open spec fn seq_from_json<T: JsonDecode>(es: Seq<JsonVal>) -> Option<Seq<T::V>>
    decreases es.len(),
{
    if es.len() == 0 {
        Some(Seq::empty())
    } else {
        match (seq_from_json::<T>(es.drop_last()), T::spec_from_json(es.last())) {
            (Some(init), Some(x)) => Some(init.push(x)),
            _ => None,
        }
    }
}

/// If a prefix of the list already fails to decode, the whole list fails.
proof fn lemma_seq_from_json_prefix<T: JsonDecode>(es: Seq<JsonVal>, k: int)
    requires
        0 <= k <= es.len(),
        seq_from_json::<T>(es.take(k)) is None,
    ensures
        seq_from_json::<T>(es) is None,
    decreases es.len() - k,
{
    if k == es.len() {
        assert(es.take(k) =~= es);
    } else {
        assert(es.take(k + 1).drop_last() =~= es.take(k));
        lemma_seq_from_json_prefix::<T>(es, k + 1);
    }
}

impl<T: JsonDecode> JsonDecode for Vec<T> {
    open spec fn spec_from_json(j: JsonVal) -> Option<Seq<T::V>> {
        match j {
            JsonVal::Arr(es) => seq_from_json::<T>(es),
            _ => None,
        }
    }

    fn from_json(v: &JsonValue) -> (r: Result<Self, String>) {
        match v {
            JsonValue::Arr(es) => {
                let ghost vs = v@->Arr_0;
                proof {
                    assert(vs.len() == es@.len());
                    assert forall|i: int| 0 <= i < vs.len() implies vs[i] == es@[i]@ by {}
                }
                let n = es.len();
                let mut out: Vec<T> = Vec::new();
                let mut i: usize = 0;
                proof {
                    assert(vs.take(0) =~= Seq::<JsonVal>::empty());
                    assert(out.deep_view() =~= Seq::<T::V>::empty());
                }
                while i < n
                    invariant
                        n == es@.len(),
                        i <= n,
                        v@ is Arr && v@->Arr_0 == vs,
                        vs.len() == es@.len(),
                        forall|k: int| 0 <= k < vs.len() ==> vs[k] == #[trigger] es@[k]@,
                        seq_from_json::<T>(vs.take(i as int)) == Some(out.deep_view()),
                    decreases n - i,
                {
                    match T::from_json(&es[i]) {
                        Ok(x) => {
                            let ghost oldout = out.deep_view();
                            out.push(x);
                            proof {
                                assert(vs.take(i as int + 1).drop_last() =~= vs.take(i as int));
                                assert(vs.take(i as int + 1).last() == es@[i as int]@);
                                assert(out.deep_view() =~= oldout.push(x.deep_view()));
                            }
                            i = i + 1;
                        },
                        Err(e) => {
                            proof {
                                assert(vs.take(i as int + 1).drop_last() =~= vs.take(i as int));
                                assert(vs.take(i as int + 1).last() == es@[i as int]@);
                                assert(seq_from_json::<T>(vs.take(i as int + 1)) is None);
                                lemma_seq_from_json_prefix::<T>(vs, i as int + 1);
                                assert(seq_from_json::<T>(vs) is None);
                                assert(v@ is Arr && v@->Arr_0 == vs);
                                assert(Self::spec_from_json(v@) is None);
                            }
                            return Err(e);
                        },
                    }
                }
                proof {
                    assert(vs.take(n as int) =~= vs);
                }
                Ok(out)
            },
            _ => Err(String::from_str("expected a list in the body")),
        }
    }
}

} // verus!
