//! Reading typed records out of JSON documents, field by field, the way a
//! derived deserializer reads a struct of optional fields: from an object
//! by name (a missing member counts as absent, unknown members are
//! ignored) or from an array holding exactly one element per field.

use vstd::prelude::*;

use crate::json::{lemma_array_view, lookup, values_view, Json, JsonV};

verus! {

/// The field `name`, declared at position `pos` of a record of `arity`
/// fields: `None` when `v` cannot hold such a record, `Some(None)` when the
/// field is absent.
pub open spec fn field(v: JsonV, name: Seq<char>, pos: int, arity: int) -> Option<Option<JsonV>> {
    match v {
        JsonV::Object(es) => Some(lookup(es, name)),
        JsonV::Array(xs) => if xs.len() == arity {
            Some(Some(xs[pos]))
        } else {
            None
        },
        _ => None,
    }
}

/// An optional string field: absent or `null` is `None`, a string is its
/// text, anything else does not decode.
pub open spec fn opt_str(f: Option<JsonV>) -> Option<Option<Seq<char>>> {
    match f {
        None => Some(None),
        Some(JsonV::Null) => Some(None),
        Some(JsonV::Str(s)) => Some(Some(s)),
        _ => None,
    }
}

/// An optional boolean field.
pub open spec fn opt_bool(f: Option<JsonV>) -> Option<Option<bool>> {
    match f {
        None => Some(None),
        Some(JsonV::Null) => Some(None),
        Some(JsonV::Bool(b)) => Some(Some(b)),
        _ => None,
    }
}

/// An optional field of any JSON value.
pub open spec fn opt_value(f: Option<JsonV>) -> Option<Option<JsonV>> {
    match f {
        None => Some(None),
        Some(JsonV::Null) => Some(None),
        Some(x) => Some(Some(x)),
    }
}

/// An optional array field.
pub open spec fn opt_array(f: Option<JsonV>) -> Option<Option<Seq<JsonV>>> {
    match f {
        None => Some(None),
        Some(JsonV::Null) => Some(None),
        Some(JsonV::Array(xs)) => Some(Some(xs)),
        _ => None,
    }
}

/// A required string field.
pub open spec fn req_str(f: Option<JsonV>) -> Option<Seq<char>> {
    match f {
        Some(JsonV::Str(s)) => Some(s),
        _ => None,
    }
}

/// A required boolean field.
pub open spec fn req_bool(f: Option<JsonV>) -> Option<bool> {
    match f {
        Some(JsonV::Bool(b)) => Some(b),
        _ => None,
    }
}

/// The view of an optional string.
pub open spec fn opt_string_view(s: Option<String>) -> Option<Seq<char>> {
    match s {
        Some(t) => Some(t@),
        None => None,
    }
}

/// The view of an optional JSON value.
pub open spec fn opt_json_view(j: Option<Json>) -> Option<JsonV> {
    match j {
        Some(x) => Some(x@),
        None => None,
    }
}

/// Reads the field `name` at position `pos` of a record of `arity` fields.
pub fn get_field<'a>(j: &'a Json, name: &str, pos: usize, arity: usize) -> (r: Result<
    Option<&'a Json>,
    (),
>)
    requires
        pos < arity,
    ensures
        match r {
            Ok(Some(x)) => field(j@, name@, pos as int, arity as int) == Some(Some(x@)),
            Ok(None) => field(j@, name@, pos as int, arity as int) == Some(None::<JsonV>),
            Err(_) => field(j@, name@, pos as int, arity as int) is None,
        },
{
    match j {
        Json::Object(_) => Ok(j.get(name)),
        Json::Array(xs) => {
            proof {
                lemma_array_view(*xs);
            }
            if xs.len() == arity {
                Ok(Some(&xs[pos]))
            } else {
                Err(())
            }
        },
        _ => Err(()),
    }
}

/// Decodes an optional string field.
pub fn read_opt_str(f: Option<&Json>) -> (r: Result<Option<String>, ()>)
    ensures
        match r {
            Ok(s) => opt_str(opt_json_ref_view(f)) == Some(opt_string_view(s)),
            Err(_) => opt_str(opt_json_ref_view(f)) is None,
        },
{
    match f {
        None => Ok(None),
        Some(Json::Null) => Ok(None),
        Some(Json::Str(s)) => Ok(Some(s.clone())),
        _ => Err(()),
    }
}

/// Decodes a required string field.
pub fn read_req_str(f: Option<&Json>) -> (r: Option<String>)
    ensures
        match r {
            Some(s) => req_str(opt_json_ref_view(f)) == Some(s@),
            None => req_str(opt_json_ref_view(f)) is None,
        },
{
    match f {
        Some(Json::Str(s)) => Some(s.clone()),
        _ => None,
    }
}

/// Decodes a required boolean field.
pub fn read_req_bool(f: Option<&Json>) -> (r: Option<bool>)
    ensures
        r == req_bool(opt_json_ref_view(f)),
{
    match f {
        Some(Json::Bool(b)) => Some(*b),
        _ => None,
    }
}

/// Decodes an optional boolean field.
pub fn read_opt_bool(f: Option<&Json>) -> (r: Result<Option<bool>, ()>)
    ensures
        match r {
            Ok(b) => opt_bool(opt_json_ref_view(f)) == Some(b),
            Err(_) => opt_bool(opt_json_ref_view(f)) is None,
        },
{
    match f {
        None => Ok(None),
        Some(Json::Null) => Ok(None),
        Some(Json::Bool(b)) => Ok(Some(*b)),
        _ => Err(()),
    }
}

/// Decodes an optional field of any JSON value.
pub fn read_opt_value(f: Option<&Json>) -> (r: Option<Json>)
    ensures
        opt_value(opt_json_ref_view(f)) == Some(opt_json_view(r)),
{
    match f {
        None => None,
        Some(Json::Null) => None,
        Some(x) => Some(x.deep_clone()),
    }
}

/// Decodes an optional array field.
pub fn read_opt_array(f: Option<&Json>) -> (r: Result<Option<Vec<Json>>, ()>)
    ensures
        match r {
            Ok(Some(xs)) => opt_array(opt_json_ref_view(f)) == Some(Some(values_view(xs@))),
            Ok(None) => opt_array(opt_json_ref_view(f)) == Some(None::<Seq<JsonV>>),
            Err(_) => opt_array(opt_json_ref_view(f)) is None,
        },
{
    match f {
        None => Ok(None),
        Some(Json::Null) => Ok(None),
        Some(Json::Array(xs)) => {
            let c = f.unwrap().deep_clone();
            proof {
                lemma_array_view(*xs);
            }
            match c {
                Json::Array(ys) => {
                    proof {
                        lemma_array_view(ys);
                    }
                    Ok(Some(ys))
                },
                _ => Err(()),
            }
        },
        _ => Err(()),
    }
}

/// The view of an optional JSON reference.
pub open spec fn opt_json_ref_view(j: Option<&Json>) -> Option<JsonV> {
    match j {
        Some(x) => Some(x@),
        None => None,
    }
}

} // verus!
