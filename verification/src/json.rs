//! JSON documents as plain values. herdr answers on stdout in JSON; the text
//! is parsed by `serde_json` and its tree copied into [`Json`], which the rest
//! of the library reads.

use vstd::prelude::*;
use crate::text::{chars_of, owned};
use serde_json::Value;

verus! {

/// A JSON value together with its compact rendering (`serde_json`'s
/// `Display`), which error messages quote.
#[derive(Debug)]
pub struct Json {
    pub kind: JsonKind,
    pub text: String,
}

#[derive(Debug)]
pub enum JsonKind {
    Null,
    Bool(bool),
    /// A number; `Some` when it is a non-negative integer that fits in `u64`.
    Number(Option<u64>),
    Str(String),
    Array(Vec<Json>),
    Object(Vec<(String, Json)>),
}

/// One level of a JSON document as serde_json reads it: its compact
/// rendering, and its variant with each child given by the compact rendering
/// of that child.
pub struct JsonLevel {
    pub text: String,
    pub shape: LevelShape,
}

pub enum LevelShape {
    Null,
    Bool(bool),
    /// `Number::as_u64`: a non-negative integer that fits in `u64`.
    Number(Option<u64>),
    Str(String),
    Array(Vec<String>),
    /// The entries of an object in serde_json's map order.
    Object(Vec<(String, String)>),
}

/// What serde_json makes of `text`: its top level, or its error message.
pub uninterp spec fn json_level(text: Seq<char>) -> Result<JsonLevel, String>;

/// `serde_json::from_str::<Value>` on `text`, then the top level of the value
/// read off it: `Value`'s `Display` for the renderings, `Number::as_u64` for a
/// number; an error is rendered by `serde_json::Error`'s `Display`. The result
/// is a function of `text` alone, named [`json_level`]; nothing more is
/// stated of serde_json's grammar.
#[verifier::external_body]
fn parse_level(text: &str) -> (r: Result<JsonLevel, String>)
    ensures
        r == json_level(text@),
{
    match serde_json::from_str::<Value>(text) {
        Err(e) => Err(e.to_string()),
        Ok(v) => Ok(JsonLevel {
            text: v.to_string(),
            shape: match v {
                Value::Null => LevelShape::Null,
                Value::Bool(b) => LevelShape::Bool(b),
                Value::Number(n) => LevelShape::Number(n.as_u64()),
                Value::String(s) => LevelShape::Str(s),
                Value::Array(a) => LevelShape::Array(a.iter().map(Value::to_string).collect()),
                Value::Object(m) => LevelShape::Object(m.iter().map(|(k, x)| (k.clone(), x.to_string())).collect()),
            },
        }),
    }
}

/// `j` is the tree read from level `l`, each child read from its rendering;
/// below `depth` levels of nesting an array or object is cut to `null`.
pub open spec fn built(l: JsonLevel, j: Json, depth: nat) -> bool
    decreases depth, 0nat,
{
    &&& j.text == l.text
    &&& match l.shape {
        LevelShape::Null => j.kind is Null,
        LevelShape::Bool(b) => j.kind == JsonKind::Bool(b),
        LevelShape::Number(n) => j.kind == JsonKind::Number(n),
        LevelShape::Str(s) => j.kind is Str && j.kind->Str_0 == s,
        LevelShape::Array(items) => if depth == 0 {
            j.kind is Null
        } else {
            &&& j.kind is Array
            &&& j.kind->Array_0@.len() == items@.len()
            &&& forall|i: int|
                0 <= i < items@.len() ==> child_is(items@[i]@, #[trigger] j.kind->Array_0@[i], (depth - 1) as nat)
        },
        LevelShape::Object(es) => if depth == 0 {
            j.kind is Null
        } else {
            &&& j.kind is Object
            &&& j.kind->Object_0@.len() == es@.len()
            &&& forall|i: int|
                0 <= i < es@.len() ==> (#[trigger] j.kind->Object_0@[i]).0 == es@[i].0 && child_is(
                    es@[i].1@,
                    j.kind->Object_0@[i].1,
                    (depth - 1) as nat,
                )
        },
    }
}

/// `j` is the tree read from the rendering `text` of a child (a child that
/// serde_json would not read again is `null`).
pub open spec fn child_is(text: Seq<char>, j: Json, depth: nat) -> bool
    decreases depth, 1nat,
{
    match json_level(text) {
        Ok(l) => built(l, j, depth),
        Err(_) => j.kind is Null && j.text@ == text,
    }
}

/// The tree read from `l`, `depth` levels deep.
fn build(l: JsonLevel, depth: u32) -> (j: Json)
    ensures
        built(l, j, depth as nat),
    decreases depth, 0nat,
{
    let ghost l0 = l;
    let JsonLevel { text, shape } = l;
    let kind = match shape {
        LevelShape::Null => JsonKind::Null,
        LevelShape::Bool(b) => JsonKind::Bool(b),
        LevelShape::Number(n) => JsonKind::Number(n),
        LevelShape::Str(s) => JsonKind::Str(s),
        LevelShape::Array(items) => {
            if depth == 0 {
                JsonKind::Null
            } else {
                let mut out: Vec<Json> = Vec::new();
                let mut i: usize = 0;
                while i < items.len()
                    invariant
                        depth > 0,
                        i <= items@.len(),
                        out@.len() == i,
                        forall|k: int| 0 <= k < i ==> child_is(items@[k]@, #[trigger] out@[k], (depth - 1) as nat),
                    decreases items@.len() - i,
                {
                    let child = read_child(&items[i], depth - 1);
                    out.push(child);
                    i = i + 1;
                }
                JsonKind::Array(out)
            }
        },
        LevelShape::Object(es) => {
            if depth == 0 {
                JsonKind::Null
            } else {
                let mut out: Vec<(String, Json)> = Vec::new();
                let mut i: usize = 0;
                while i < es.len()
                    invariant
                        depth > 0,
                        i <= es@.len(),
                        out@.len() == i,
                        forall|k: int|
                            0 <= k < i ==> (#[trigger] out@[k]).0 == es@[k].0 && child_is(
                                es@[k].1@,
                                out@[k].1,
                                (depth - 1) as nat,
                            ),
                    decreases es@.len() - i,
                {
                    let key = es[i].0.clone();
                    let child = read_child(&es[i].1, depth - 1);
                    out.push((key, child));
                    i = i + 1;
                }
                JsonKind::Object(out)
            }
        },
    };
    Json { kind, text }
}

/// The tree read from a child's rendering `text`.
fn read_child(text: &String, depth: u32) -> (j: Json)
    ensures
        child_is(text@, j, depth as nat),
    decreases depth, 1nat,
{
    match parse_level(text.as_str()) {
        Ok(l) => build(l, depth),
        Err(_) => Json { kind: JsonKind::Null, text: text.clone() },
    }
}

/// What parsing `text` gives: serde_json's error message, or the tree read
/// from the document (serde_json refuses documents nested deeper than 128
/// levels, so the 129 levels read are never cut).
pub open spec fn parsed_as(text: Seq<char>, r: Result<Json, String>) -> bool {
    match json_level(text) {
        Ok(l) => r is Ok && built(l, r->Ok_0, 129),
        Err(e) => r == Err::<Json, String>(e),
    }
}

/// Parse JSON text (serde_json's grammar); `Err` holds serde_json's message.
pub fn parse_json(text: &str) -> (r: Result<Json, String>)
    ensures
        parsed_as(text@, r),
{
    match parse_level(text) {
        Ok(l) => Ok(build(l, 129)),
        Err(e) => Err(e),
    }
}

/// The value of `key` in an object's entries (the first entry with it).
pub open spec fn lookup(entries: Seq<(String, Json)>, key: Seq<char>) -> Option<Json>
    decreases entries.len(),
{
    if entries.len() == 0 {
        None
    } else if entries[0].0@ == key {
        Some(entries[0].1)
    } else {
        lookup(entries.drop_first(), key)
    }
}

/// `v[key]` for an object; `None` for other values or a missing key (what
/// serde_json reads as `null`).
pub open spec fn field(j: Json, key: Seq<char>) -> Option<Json> {
    match j.kind {
        JsonKind::Object(es) => lookup(es@, key),
        _ => None,
    }
}

pub open spec fn field_of(o: Option<Json>, key: Seq<char>) -> Option<Json> {
    match o {
        Some(j) => field(j, key),
        None => None,
    }
}

pub open spec fn str_of(o: Option<Json>) -> Option<Seq<char>> {
    match o {
        Some(j) => match j.kind {
            JsonKind::Str(s) => Some(s@),
            _ => None,
        },
        None => None,
    }
}

pub open spec fn u64_of(o: Option<Json>) -> Option<u64> {
    match o {
        Some(j) => match j.kind {
            JsonKind::Number(n) => n,
            _ => None,
        },
        None => None,
    }
}

pub open spec fn bool_of(o: Option<Json>) -> Option<bool> {
    match o {
        Some(j) => match j.kind {
            JsonKind::Bool(b) => Some(b),
            _ => None,
        },
        None => None,
    }
}

pub open spec fn array_of(o: Option<Json>) -> Option<Seq<Json>> {
    match o {
        Some(j) => match j.kind {
            JsonKind::Array(a) => Some(a@),
            _ => None,
        },
        None => None,
    }
}

/// `v.is_null()`, a missing value included.
pub open spec fn null_of(o: Option<Json>) -> bool {
    match o {
        Some(j) => j.kind is Null,
        None => true,
    }
}

pub open spec fn object_of(o: Option<Json>) -> bool {
    match o {
        Some(j) => j.kind is Object,
        None => false,
    }
}

/// `v.to_string()`: "null" for a missing value.
pub open spec fn text_of(o: Option<Json>) -> Seq<char> {
    match o {
        Some(j) => j.text@,
        None => "null"@,
    }
}

pub open spec fn as_spec(o: Option<&Json>) -> Option<Json> {
    match o {
        Some(j) => Some(*j),
        None => None,
    }
}

impl Json {
    /// `self[key]`.
    pub fn get<'a>(&'a self, key: &str) -> (r: Option<&'a Json>)
        ensures
            as_spec(r) == field(*self, key@),
    {
        match &self.kind {
            JsonKind::Object(es) => {
                let k = chars_of(key);
                let mut i: usize = 0;
                assert(es@.skip(0) =~= es@);
                assert(field(*self, key@) == lookup(es@, key@));
                while i < es.len()
                    invariant
                        i <= es.len(),
                        k@ == key@,
                        lookup(es@, key@) == lookup(es@.skip(i as int), key@),
                        field(*self, key@) == lookup(es@, key@),
                    decreases es.len() - i,
                {
                    let name = chars_of(es[i].0.as_str());
                    assert(es@.skip(i as int)[0] == es@[i as int]);
                    if crate::branch::vec_equal(&name, &k) {
                        assert(lookup(es@.skip(i as int), key@) == Some(es@[i as int].1));
                        assert(field(*self, key@) == lookup(es@, key@));
                        return Some(&es[i].1);
                    }
                    assert(es@.skip(i as int).drop_first() =~= es@.skip(i + 1));
                    i += 1;
                }
                None
            },
            _ => None,
        }
    }
}

/// `o[key]`.
pub fn at<'a>(o: Option<&'a Json>, key: &str) -> (r: Option<&'a Json>)
    ensures
        as_spec(r) == field_of(as_spec(o), key@),
{
    match o {
        Some(j) => j.get(key),
        None => None,
    }
}

/// `o.as_str()`.
pub fn as_str(o: Option<&Json>) -> (r: Option<String>)
    ensures
        opt_view(r) == str_of(as_spec(o)),
{
    match o {
        Some(j) => match &j.kind {
            JsonKind::Str(s) => Some(s.clone()),
            _ => None,
        },
        None => None,
    }
}

pub open spec fn opt_view(o: Option<String>) -> Option<Seq<char>> {
    match o {
        Some(s) => Some(s@),
        None => None,
    }
}

/// `o.as_u64()`.
pub fn as_u64(o: Option<&Json>) -> (r: Option<u64>)
    ensures
        r == u64_of(as_spec(o)),
{
    match o {
        Some(j) => match &j.kind {
            JsonKind::Number(n) => *n,
            _ => None,
        },
        None => None,
    }
}

/// `o.as_bool()`.
pub fn as_bool(o: Option<&Json>) -> (r: Option<bool>)
    ensures
        r == bool_of(as_spec(o)),
{
    match o {
        Some(j) => match &j.kind {
            JsonKind::Bool(b) => Some(*b),
            _ => None,
        },
        None => None,
    }
}

/// `o.as_array()`.
pub fn as_array<'a>(o: Option<&'a Json>) -> (r: Option<&'a Vec<Json>>)
    ensures
        match r {
            Some(a) => array_of(as_spec(o)) == Some(a@),
            None => array_of(as_spec(o)) is None,
        },
{
    match o {
        Some(j) => match &j.kind {
            JsonKind::Array(a) => Some(a),
            _ => None,
        },
        None => None,
    }
}

/// `o.is_null()`.
pub fn is_null(o: Option<&Json>) -> (r: bool)
    ensures
        r == null_of(as_spec(o)),
{
    match o {
        Some(j) => match &j.kind {
            JsonKind::Null => true,
            _ => false,
        },
        None => true,
    }
}

/// `o.is_object()`.
pub fn is_object(o: Option<&Json>) -> (r: bool)
    ensures
        r == object_of(as_spec(o)),
{
    match o {
        Some(j) => match &j.kind {
            JsonKind::Object(_) => true,
            _ => false,
        },
        None => false,
    }
}

/// `o.to_string()`.
pub fn text(o: Option<&Json>) -> (r: String)
    ensures
        r@ == text_of(as_spec(o)),
{
    match o {
        Some(j) => j.text.clone(),
        None => owned("null"),
    }
}

} // verus!
