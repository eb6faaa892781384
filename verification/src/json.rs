//! The library's model of a JSON document.

use vstd::prelude::*;

verus! {

/// A JSON value. Numbers that are integers are held exactly; other
/// numbers keep their decimal text.
#[derive(Debug, PartialEq)]
pub enum Json {
    Null,
    Bool(bool),
    Int(i128),
    Real(String),
    Str(String),
    Array(Vec<Json>),
    Object(Vec<(String, Json)>),
}

/// The mathematical value of a JSON document.
pub enum JsonV {
    Null,
    Bool(bool),
    Int(int),
    Real(Seq<char>),
    Str(Seq<char>),
    Array(Seq<JsonV>),
    Object(Seq<(Seq<char>, JsonV)>),
}

pub open spec fn json_view(j: Json) -> JsonV
    decreases j,
{
    match j {
        Json::Null => JsonV::Null,
        Json::Bool(b) => JsonV::Bool(b),
        Json::Int(i) => JsonV::Int(i as int),
        Json::Real(s) => JsonV::Real(s@),
        Json::Str(s) => JsonV::Str(s@),
        Json::Array(v) => JsonV::Array(
            Seq::new(
                v@.len(),
                |i: int|
                    if 0 <= i < v@.len() {
                        json_view(v@[i])
                    } else {
                        JsonV::Null
                    },
            ),
        ),
        Json::Object(v) => JsonV::Object(
            Seq::new(
                v@.len(),
                |i: int|
                    if 0 <= i < v@.len() {
                        (v@[i].0@, json_view(v@[i].1))
                    } else {
                        (Seq::empty(), JsonV::Null)
                    },
            ),
        ),
    }
}

impl View for Json {
    type V = JsonV;

    open spec fn view(&self) -> JsonV {
        json_view(*self)
    }
}


/// The value under the first entry named `key` in `es`.
pub open spec fn lookup(es: Seq<(Seq<char>, JsonV)>, key: Seq<char>) -> Option<JsonV>
    decreases es.len(),
{
    if es.len() == 0 {
        None
    } else if es[0].0 == key {
        Some(es[0].1)
    } else {
        lookup(es.drop_first(), key)
    }
}

impl JsonV {
    /// The member `key` of an object; `None` for a missing key or a value
    /// that is not an object.
    pub open spec fn get(self, key: Seq<char>) -> Option<JsonV> {
        match self {
            JsonV::Object(es) => lookup(es, key),
            _ => None,
        }
    }

    /// The text of a string value.
    pub open spec fn as_str(self) -> Option<Seq<char>> {
        match self {
            JsonV::Str(s) => Some(s),
            _ => None,
        }
    }

    /// The member `key` of an object, when it is a string.
    pub open spec fn get_str(self, key: Seq<char>) -> Option<Seq<char>> {
        match self.get(key) {
            Some(v) => v.as_str(),
            None => None,
        }
    }
}

/// The view of a key/value vector is the sequence of views of its entries.
pub open spec fn entries_view(v: Seq<(String, Json)>) -> Seq<(Seq<char>, JsonV)> {
    Seq::new(v.len(), |i: int| (v[i].0@, v[i].1@))
}

/// The view of a vector of values is the sequence of their views.
pub open spec fn values_view(v: Seq<Json>) -> Seq<JsonV> {
    Seq::new(v.len(), |i: int| v[i]@)
}

pub proof fn lemma_object_view(v: Vec<(String, Json)>)
    ensures
        Json::Object(v)@ == JsonV::Object(entries_view(v@)),
{
    assert(Json::Object(v)@->Object_0 =~= entries_view(v@));
}

pub proof fn lemma_array_view(v: Vec<Json>)
    ensures
        Json::Array(v)@ == JsonV::Array(values_view(v@)),
{
    assert(Json::Array(v)@->Array_0 =~= values_view(v@));
}

impl Json {
    /// A copy of this value.
    pub fn deep_clone(&self) -> (r: Json)
        ensures
            r@ == self@,
        decreases self,
    {
        match self {
            Json::Null => Json::Null,
            Json::Bool(b) => Json::Bool(*b),
            Json::Int(i) => Json::Int(*i),
            Json::Real(s) => Json::Real(s.clone()),
            Json::Str(s) => Json::Str(s.clone()),
            Json::Array(v) => {
                let mut out: Vec<Json> = Vec::new();
                let mut i: usize = 0;
                while i < v.len()
                    invariant
                        *self == Json::Array(*v),
                        i <= v@.len(),
                        out@.len() == i,
                        forall|k: int| 0 <= k < i ==> #[trigger] out@[k]@ == v@[k]@,
                    decreases v@.len() - i,
                {
                    proof {
                        assert(decreases_to!(*self => self->Array_0));
                        assert(decreases_to!(*v => v@));
                        assert(decreases_to!(v@ => v@[i as int]));
                    }
                    let c = v[i].deep_clone();
                    out.push(c);
                    i = i + 1;
                }
                proof {
                    lemma_array_view(out);
                    lemma_array_view(*v);
                    assert(values_view(out@) =~= values_view(v@));
                }
                Json::Array(out)
            },
            Json::Object(v) => {
                let mut out: Vec<(String, Json)> = Vec::new();
                let mut i: usize = 0;
                while i < v.len()
                    invariant
                        *self == Json::Object(*v),
                        i <= v@.len(),
                        out@.len() == i,
                        forall|k: int|
                            0 <= k < i ==> #[trigger] out@[k].0@ == v@[k].0@ && out@[k].1@
                                == v@[k].1@,
                    decreases v@.len() - i,
                {
                    proof {
                        assert(decreases_to!(*self => self->Object_0));
                        assert(decreases_to!(*v => v@));
                        assert(decreases_to!(v@ => v@[i as int]));
                        assert(decreases_to!(v@[i as int] => v@[i as int].1));
                    }
                    let c = v[i].1.deep_clone();
                    let k = v[i].0.clone();
                    out.push((k, c));
                    i = i + 1;
                }
                proof {
                    lemma_object_view(out);
                    lemma_object_view(*v);
                    assert(entries_view(out@) =~= entries_view(v@));
                }
                Json::Object(out)
            },
        }
    }

    /// The member `key` of an object (`serde_json::Value::get` with a string index).
    pub fn get(&self, key: &str) -> (r: Option<&Json>)
        ensures
            match r {
                Some(v) => self@.get(key@) == Some(v@),
                None => self@.get(key@) is None,
            },
    {
        match self {
            Json::Object(es) => {
                let k = key.to_owned();
                let ghost ev = entries_view(es@);
                proof {
                    lemma_object_view(*es);
                    assert(*self == Json::Object(*es));
                    assert(ev.skip(0) =~= ev);
                }
                let mut i: usize = 0;
                while i < es.len()
                    invariant
                        i <= es@.len(),
                        ev == entries_view(es@),
                        self@ == JsonV::Object(ev),
                        k@ == key@,
                        lookup(ev, key@) == lookup(ev.skip(i as int), key@),
                    decreases es@.len() - i,
                {
                    assert(ev.skip(i as int)[0] == ev[i as int]);
                    if es[i].0 == k {
                        assert(ev[i as int] == (es@[i as int].0@, es@[i as int].1@));
                        assert(ev.skip(i as int)[0].0 == key@);
                        assert(lookup(ev.skip(i as int), key@) == Some(es@[i as int].1@));
                        assert(self@ == JsonV::Object(ev));
                        return Some(&es[i].1);
                    }
                    assert(ev.skip(i as int).drop_first() =~= ev.skip(i + 1));
                    i = i + 1;
                }
                None
            },
            _ => None,
        }
    }

    /// A copy of the text of a string member.
    pub fn get_string(&self, key: &str) -> (r: Option<String>)
        ensures
            match r {
                Some(s) => self@.get_str(key@) == Some(s@),
                None => self@.get_str(key@) is None,
            },
    {
        match self.get(key) {
            Some(v) => match v.as_str() {
                Some(t) => Some(t.to_owned()),
                None => None,
            },
            None => None,
        }
    }

    /// The text of a string value.
    pub fn as_str(&self) -> (r: Option<&str>)
        ensures
            match r {
                Some(s) => self@.as_str() == Some(s@),
                None => self@.as_str() is None,
            },
    {
        match self {
            Json::Str(s) => Some(s.as_str()),
            _ => None,
        }
    }

    /// The value of a boolean.
    pub fn as_bool(&self) -> (r: Option<bool>)
        ensures
            r == (match self@ {
                JsonV::Bool(b) => Some(b),
                _ => None::<bool>,
            }),
    {
        match self {
            Json::Bool(b) => Some(*b),
            _ => None,
        }
    }

    /// Whether this is `null`.
    pub fn is_null(&self) -> (r: bool)
        ensures
            r == (self@ is Null),
    {
        match self {
            Json::Null => true,
            _ => false,
        }
    }

    /// A string value holding `s`.
    pub fn string(s: &str) -> (r: Json)
        ensures
            r@ == JsonV::Str(s@),
    {
        Json::Str(s.to_owned())
    }
}


/// An array of one value.
pub fn arr1(v: Json) -> (j: Json)
    ensures
        j@ == JsonV::Array(seq![v@]),
{
    let ghost w = v@;
    let mut xs: Vec<Json> = Vec::new();
    xs.push(v);
    proof {
        lemma_array_view(xs);
        assert(values_view(xs@) =~= seq![w]);
    }
    Json::Array(xs)
}

/// An object with one member.
pub fn obj1(k1: &str, v1: Json) -> (j: Json)
    ensures
        j@ == JsonV::Object(seq![(k1@, v1@)]),
{
    let ghost w1 = v1@;
    let mut es: Vec<(String, Json)> = Vec::new();
    es.push((k1.to_owned(), v1));
    proof {
        lemma_object_view(es);
        assert(entries_view(es@) =~= seq![(k1@, w1)]);
    }
    Json::Object(es)
}

/// An object with two members.
pub fn obj2(k1: &str, v1: Json, k2: &str, v2: Json) -> (j: Json)
    ensures
        j@ == JsonV::Object(seq![(k1@, v1@), (k2@, v2@)]),
{
    let ghost w1 = v1@;
    let ghost w2 = v2@;
    let mut es: Vec<(String, Json)> = Vec::new();
    es.push((k1.to_owned(), v1));
    es.push((k2.to_owned(), v2));
    proof {
        lemma_object_view(es);
        assert(entries_view(es@) =~= seq![(k1@, w1), (k2@, w2)]);
    }
    Json::Object(es)
}

/// An object with three members.
pub fn obj3(k1: &str, v1: Json, k2: &str, v2: Json, k3: &str, v3: Json) -> (j: Json)
    ensures
        j@ == JsonV::Object(seq![(k1@, v1@), (k2@, v2@), (k3@, v3@)]),
{
    let ghost w1 = v1@;
    let ghost w2 = v2@;
    let ghost w3 = v3@;
    let mut es: Vec<(String, Json)> = Vec::new();
    es.push((k1.to_owned(), v1));
    es.push((k2.to_owned(), v2));
    es.push((k3.to_owned(), v3));
    proof {
        lemma_object_view(es);
        assert(entries_view(es@) =~= seq![(k1@, w1), (k2@, w2), (k3@, w3)]);
    }
    Json::Object(es)
}

#[verifier::external_type_specification]
#[verifier::external_body]
pub struct ExJsonValue(serde_json::Value);

/// What `serde_json::from_str::<serde_json::Value>` makes of a text: the
/// document's value, or the error's message. In the value, an object that
/// repeats a key holds it once, with its last value.
pub uninterp spec fn json_parse(text: Seq<char>) -> Result<JsonV, Seq<char>>;

/// Reads a JSON document with `serde_json::from_str` into a
/// `serde_json::Value` and converts it into the library's `Json`.
/// Claimed: the outcome is `json_parse` of the text (the value on success,
/// the error's `to_string()` on failure).
#[verifier::external_body]
pub(crate) fn parse_json(text: &str) -> (r: Result<Json, String>)
    ensures
        json_parse(text@) == match r {
            Ok(j) => Ok::<JsonV, Seq<char>>(j@),
            Err(e) => Err::<JsonV, Seq<char>>(e@),
        },
{
    match serde_json::from_str::<serde_json::Value>(text) {
        Ok(v) => Ok(json_from_value(v)),
        Err(e) => Err(e.to_string()),
    }
}

/// Converts a `serde_json::Value` into the library's `Json`, one variant
/// for one variant: integers that fit `i64` or `u64` become `Int`, other
/// numbers keep their text. Nothing is claimed of it.
#[verifier::external_body]
fn json_from_value(v: serde_json::Value) -> Json {
    match v {
        serde_json::Value::Null => Json::Null,
        serde_json::Value::Bool(b) => Json::Bool(b),
        serde_json::Value::Number(n) => match n.as_i64().map(i128::from).or(n.as_u64().map(i128::from)) {
            Some(i) => Json::Int(i),
            None => Json::Real(n.to_string()),
        },
        serde_json::Value::String(s) => Json::Str(s),
        serde_json::Value::Array(a) => Json::Array(a.into_iter().map(json_from_value).collect()),
        serde_json::Value::Object(m) => Json::Object(m.into_iter().map(|(k, x)| (k, json_from_value(x))).collect()),
    }
}

} // verus!
