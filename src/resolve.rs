//! The resolver: decodes a value in a type position into a [`DataType`].

use vstd::prelude::*;
use crate::data_type::{
    fields_model, Array, Buffer, Conditional, Count, DataType, DataTypeModel, Field,
    Loop, Structure, Switch, Util,
};
use crate::error::{DecodeError, ErrorModel};
use crate::fields::{opt_bool_entry, opt_count_entry, opt_string_entry, req_string_entry};
use crate::json::{get_entry, lemma_lookup_decreases, JsonValue};
use crate::numeric::Numeric;
use crate::ordered::{type_entries, TypeMap};
use crate::primitives::Primitive;
use crate::resolve_spec::{
    legacy_switch, name_model, spec_array, spec_buffer, spec_type_map, spec_cases_entry,
    spec_container, spec_count, spec_field, spec_fields, spec_loop, spec_opt_type, spec_pstring,
    spec_req_type, spec_resolve, spec_switch, spec_tagged, util_tags,
};
use crate::utility::{decode_bitfield, decode_mapper};
use crate::text::{owned, same_text};

verus! {

/// The mathematical form of a decoding result.
pub open spec fn result_model(r: Result<DataType, DecodeError>) -> Result<DataTypeModel, ErrorModel> {
    match r {
        Ok(d) => Ok(d.model()),
        Err(e) => Err(e@),
    }
}

/// Decodes a bare name: a numeric code, a primitive keyword, or else a
/// reference to a type defined elsewhere.
pub fn resolve_name(s: &str) -> (d: DataType)
    ensures
        d.model() == name_model(s@),
{
    match Numeric::from_code(s) {
        Ok(n) => DataType::Numeric(n),
        Err(_) => match Primitive::from_keyword(s) {
            Ok(p) => DataType::Primitive(p),
            Err(_) => DataType::Custom(owned(s)),
        },
    }
}

/// Decodes a value in a type position: a bare name, or a pair `[tag, payload]`.
pub fn resolve(j: &JsonValue) -> (r: Result<DataType, DecodeError>)
    ensures
        result_model(r) == spec_resolve(*j),
    decreases *j, 0int,
{
    match j {
        JsonValue::Str(s) => Ok(resolve_name(s.as_str())),
        JsonValue::Array(items) => {
            if items.len() == 2 {
                match &items[0] {
                    JsonValue::Str(tag) => {
                        proof {
                            assert(decreases_to!(*j => j->Array_0));
                            assert(decreases_to!(*items => items@));
                            assert(decreases_to!(items@ => items@[1]));
                        }
                        decode_tagged(tag.as_str(), &items[1])
                    },
                    _ => Err(DecodeError::MalformedShape),
                }
            } else {
                Err(DecodeError::MalformedShape)
            }
        },
        _ => Err(DecodeError::MalformedShape),
    }
}

/// Decodes a pair `[tag, payload]`: the known tags first, then the switch
/// written without its tag, then the loop.
pub fn decode_tagged(tag: &str, p: &JsonValue) -> (r: Result<DataType, DecodeError>)
    ensures
        result_model(r) == spec_tagged(tag@, *p),
    decreases *p, 3int,
{
    if same_text(tag, "switch") {
        decode_switch(p)
    } else if same_text(tag, "option") {
        match resolve(p) {
            Ok(d) => Ok(DataType::Conditional(Box::new(Conditional::Option(d)))),
            Err(e) => Err(e),
        }
    } else if same_text(tag, "container") {
        decode_container(p)
    } else if same_text(tag, "array") {
        decode_array(p)
    } else if same_text(tag, "count") {
        decode_count(p)
    } else if same_text(tag, "buffer") {
        decode_buffer(p)
    } else if same_text(tag, "mapper") {
        decode_mapper(p)
    } else if same_text(tag, "bitfield") {
        decode_bitfield(p)
    } else if same_text(tag, "pstring") {
        decode_pstring(p)
    } else {
        match decode_legacy_switch(tag, p) {
            Some(d) => Ok(d),
            None => decode_loop(tag, p),
        }
    }
}

/// A required entry of an object in a type position.
fn req_type_entry(p: &JsonValue, key: &str) -> (r: Result<DataType, DecodeError>)
    ensures
        result_model(r) == spec_req_type(*p, key@),
    decreases *p, 0int,
{
    match p {
        JsonValue::Object(e) => match get_entry(e, key) {
            None => Err(DecodeError::MissingField(owned(key))),
            Some(v) => {
                proof {
                    lemma_lookup_decreases(*e, key@);
                }
                resolve(v)
            },
        },
        _ => Err(DecodeError::MalformedShape),
    }
}

/// An optional entry of an object in a type position: absent or null gives none.
fn opt_type_entry(p: &JsonValue, key: &str) -> (r: Result<Option<DataType>, DecodeError>)
    ensures
        match (r, spec_opt_type(*p, key@)) {
            (Ok(o), Ok(m)) => crate::data_type::opt_model(o) == m,
            (Err(x), Err(y)) => x@ == y,
            _ => false,
        },
    decreases *p, 1int,
{
    match p {
        JsonValue::Object(e) => match get_entry(e, key) {
            None => Ok(None),
            Some(JsonValue::Null) => Ok(None),
            Some(_) => match req_type_entry(p, key) {
                Ok(d) => Ok(Some(d)),
                Err(err) => Err(err),
            },
        },
        _ => Ok(None),
    }
}

/// `switch`: a value whose type is chosen by the value of another field.
fn decode_switch(p: &JsonValue) -> (r: Result<DataType, DecodeError>)
    ensures
        result_model(r) == spec_switch(*p),
    decreases *p, 2int,
{
    match p {
        JsonValue::Object(e) => {
            let name = match opt_string_entry(e, "name") {
                Ok(n) => n,
                Err(err) => return Err(err),
            };
            let compare_to = match req_string_entry(e, "compareTo") {
                Ok(c) => c,
                Err(err) => return Err(err),
            };
            let fields = match decode_cases_entry(p) {
                Ok(f) => f,
                Err(err) => return Err(err),
            };
            let default = match opt_type_entry(p, "default") {
                Ok(d) => d,
                Err(err) => return Err(err),
            };
            let sw = Switch { name, compare_to, fields, default };
            Ok(DataType::Conditional(Box::new(Conditional::Switch(sw))))
        },
        _ => Err(DecodeError::MalformedShape),
    }
}

/// The `fields` entry of a switch.
fn decode_cases_entry(p: &JsonValue) -> (r: Result<TypeMap, DecodeError>)
    ensures
        match (r, spec_cases_entry(*p)) {
            (Ok(m), Ok(s)) => type_entries(m) == s,
            (Err(x), Err(y)) => x@ == y,
            _ => false,
        },
    decreases *p, 0int,
{
    match p {
        JsonValue::Object(e) => match get_entry(e, "fields") {
            None => Err(DecodeError::MissingField(owned("fields"))),
            Some(JsonValue::Object(cases)) => {
                proof {
                    lemma_lookup_decreases(*e, "fields"@);
                    let v = JsonValue::Object(*cases);
                    assert(decreases_to!(v => v->Object_0));
                    assert(decreases_to!(*cases => cases@));
                }
                decode_type_map(cases)
            },
            Some(_) => Err(DecodeError::MalformedShape),
        },
        _ => Err(DecodeError::MalformedShape),
    }
}

proof fn lemma_type_map_err_extends(s: Seq<(String, JsonValue)>, i: int)
    requires
        0 <= i <= s.len(),
        spec_type_map(s.subrange(0, i)) is Err,
    ensures
        spec_type_map(s) == spec_type_map(s.subrange(0, i)),
    decreases s.len() - i,
{
    if i < s.len() {
        assert(s.subrange(0, i + 1).drop_last() =~= s.subrange(0, i));
        lemma_type_map_err_extends(s, i + 1);
    } else {
        assert(s.subrange(0, i) =~= s);
    }
}

/// A map from names to types, each decoded and inserted in document order.
pub fn decode_type_map(cases: &Vec<(String, JsonValue)>) -> (r: Result<TypeMap, DecodeError>)
    ensures
        match (r, spec_type_map(cases@)) {
            (Ok(m), Ok(s)) => type_entries(m) == s,
            (Err(x), Err(y)) => x@ == y,
            _ => false,
        },
    decreases cases@, 0int,
{
    let mut map = TypeMap::new();
    let mut i: usize = 0;
    assert(cases@.subrange(0, 0) =~= Seq::<(String, JsonValue)>::empty());
    while i < cases.len()
        invariant
            i <= cases@.len(),
            spec_type_map(cases@.subrange(0, i as int)) == Ok::<_, ErrorModel>(type_entries(map)),
        decreases cases@.len() - i,
    {
        let ghost prefix = cases@.subrange(0, i + 1);
        assert(prefix.drop_last() =~= cases@.subrange(0, i as int));
        assert(prefix.last() == cases@[i as int]);
        let entry = &cases[i];
        proof {
            assert(decreases_to!(cases@ => cases@[i as int]));
            assert(decreases_to!(cases@[i as int] => cases@[i as int].1));
        }
        match resolve(&entry.1) {
            Ok(d) => {
                map.insert(entry.0.clone(), d);
            },
            Err(err) => {
                proof {
                    lemma_type_map_err_extends(cases@, i + 1);
                }
                return Err(err);
            },
        }
        i = i + 1;
    }
    assert(cases@.subrange(0, i as int) =~= cases@);
    Ok(map)
}

/// `container`: the fields in document order.
fn decode_container(p: &JsonValue) -> (r: Result<DataType, DecodeError>)
    ensures
        result_model(r) == spec_container(*p),
    decreases *p, 0int,
{
    match p {
        JsonValue::Array(items) => {
            proof {
                assert(decreases_to!(*p => p->Array_0));
                assert(decreases_to!(*items => items@));
            }
            match decode_fields(items) {
                Ok(fs) => Ok(DataType::Structure(Box::new(Structure::Container(fs)))),
                Err(err) => Err(err),
            }
        },
        _ => Err(DecodeError::MalformedShape),
    }
}

proof fn lemma_fields_err_extends(s: Seq<JsonValue>, i: int)
    requires
        0 <= i <= s.len(),
        spec_fields(s.subrange(0, i)) is Err,
    ensures
        spec_fields(s) == spec_fields(s.subrange(0, i)),
    decreases s.len() - i,
{
    if i < s.len() {
        assert(s.subrange(0, i + 1).drop_last() =~= s.subrange(0, i));
        lemma_fields_err_extends(s, i + 1);
    } else {
        assert(s.subrange(0, i) =~= s);
    }
}

/// The fields of a container, in document order.
fn decode_fields(items: &Vec<JsonValue>) -> (r: Result<Vec<Field>, DecodeError>)
    ensures
        match (r, spec_fields(items@)) {
            (Ok(fs), Ok(m)) => fields_model(fs@) == m,
            (Err(x), Err(y)) => x@ == y,
            _ => false,
        },
    decreases items@, 0int,
{
    let mut out: Vec<Field> = Vec::new();
    let mut i: usize = 0;
    assert(items@.subrange(0, 0) =~= Seq::<JsonValue>::empty());
    while i < items.len()
        invariant
            i <= items@.len(),
            spec_fields(items@.subrange(0, i as int)) == Ok::<_, ErrorModel>(fields_model(out@)),
        decreases items@.len() - i,
    {
        let ghost prefix = items@.subrange(0, i + 1);
        assert(prefix.drop_last() =~= items@.subrange(0, i as int));
        assert(prefix.last() == items@[i as int]);
        proof {
            assert(decreases_to!(items@ => items@[i as int]));
        }
        match decode_field(&items[i]) {
            Ok(f) => {
                let ghost old_out = out@;
                out.push(f);
                assert(out@.drop_last() =~= old_out);
            },
            Err(err) => {
                proof {
                    lemma_fields_err_extends(items@, i + 1);
                }
                return Err(err);
            },
        }
        i = i + 1;
    }
    assert(items@.subrange(0, i as int) =~= items@);
    Ok(out)
}

/// One field of a container.
fn decode_field(f: &JsonValue) -> (r: Result<Field, DecodeError>)
    ensures
        match (r, spec_field(*f)) {
            (Ok(x), Ok(m)) => x.model() == m,
            (Err(x), Err(y)) => x@ == y,
            _ => false,
        },
    decreases *f, 2int,
{
    match f {
        JsonValue::Object(e) => {
            let name = match opt_string_entry(e, "name") {
                Ok(n) => n,
                Err(err) => return Err(err),
            };
            let field_type = match req_type_entry(f, "type") {
                Ok(t) => t,
                Err(err) => return Err(err),
            };
            let anonymous = match opt_bool_entry(e, "anon") {
                Ok(a) => a,
                Err(err) => return Err(err),
            };
            Ok(Field { name, field_type, anonymous })
        },
        _ => Err(DecodeError::MalformedShape),
    }
}

/// `array`: a repetition of elements of one type.
fn decode_array(p: &JsonValue) -> (r: Result<DataType, DecodeError>)
    ensures
        result_model(r) == spec_array(*p),
    decreases *p, 2int,
{
    match p {
        JsonValue::Object(e) => {
            let count_type = match opt_type_entry(p, "countType") {
                Ok(c) => c,
                Err(err) => return Err(err),
            };
            let count = match opt_count_entry(e, "count") {
                Ok(c) => c,
                Err(err) => return Err(err),
            };
            let elements_type = match req_type_entry(p, "type") {
                Ok(t) => t,
                Err(err) => return Err(err),
            };
            let a = Array { count_type, count, elements_type };
            Ok(DataType::Structure(Box::new(Structure::Array(a))))
        },
        _ => Err(DecodeError::MalformedShape),
    }
}

/// `count`: a field that counts the elements of another field.
fn decode_count(p: &JsonValue) -> (r: Result<DataType, DecodeError>)
    ensures
        result_model(r) == spec_count(*p),
    decreases *p, 2int,
{
    match p {
        JsonValue::Object(e) => {
            let count_type = match req_type_entry(p, "type") {
                Ok(t) => t,
                Err(err) => return Err(err),
            };
            let count_for = match req_string_entry(e, "countFor") {
                Ok(c) => c,
                Err(err) => return Err(err),
            };
            Ok(DataType::Structure(Box::new(Structure::Count(Count { count_type, count_for }))))
        },
        _ => Err(DecodeError::MalformedShape),
    }
}

/// `buffer`: a run of raw bytes.
fn decode_buffer(p: &JsonValue) -> (r: Result<DataType, DecodeError>)
    ensures
        result_model(r) == spec_buffer(*p),
    decreases *p, 2int,
{
    match p {
        JsonValue::Object(e) => {
            let count_type = match opt_type_entry(p, "countType") {
                Ok(c) => c,
                Err(err) => return Err(err),
            };
            let count = match opt_count_entry(e, "count") {
                Ok(c) => c,
                Err(err) => return Err(err),
            };
            let rest = match opt_bool_entry(e, "rest") {
                Ok(x) => x,
                Err(err) => return Err(err),
            };
            Ok(DataType::Util(Box::new(Util::Buffer(Buffer { count_type, count, rest }))))
        },
        _ => Err(DecodeError::MalformedShape),
    }
}

/// `pstring`: text behind a length prefix.
fn decode_pstring(p: &JsonValue) -> (r: Result<DataType, DecodeError>)
    ensures
        result_model(r) == spec_pstring(*p),
    decreases *p, 2int,
{
    match p {
        JsonValue::Object(_) => match req_type_entry(p, "countType") {
            Ok(count_type) => Ok(DataType::Util(Box::new(Util::PrefixedString { count_type }))),
            Err(err) => Err(err),
        },
        _ => Err(DecodeError::MalformedShape),
    }
}

/// A switch written without its tag, if the payload has that shape.
fn decode_legacy_switch(tag: &str, p: &JsonValue) -> (r: Option<DataType>)
    ensures
        match (r, legacy_switch(tag@, *p)) {
            (Some(d), Some(m)) => d.model() == m,
            (None, None) => true,
            _ => false,
        },
{
    match p {
        JsonValue::Object(e) => {
            if e.len() == 1 && same_text(e[0].0.as_str(), "compareTo") {
                match &e[0].1 {
                    JsonValue::Str(c) => {
                        let sw = Switch {
                            name: Some(owned(tag)),
                            compare_to: c.clone(),
                            fields: TypeMap::new(),
                            default: None,
                        };
                        let d = DataType::Conditional(Box::new(Conditional::Switch(sw)));
                        assert(crate::data_type::opt_model(None) == None::<Box<DataTypeModel>>);
                        Some(d)
                    },
                    _ => None,
                }
            } else {
                None
            }
        },
        _ => None,
    }
}

/// The error for a tag that no decoder knows.
fn unknown_variant(tag: &str) -> (e: DecodeError)
    ensures
        e@ == (ErrorModel::UnknownVariant { tag: tag@, expected: util_tags() }),
{
    let mut expected: Vec<String> = Vec::new();
    expected.push(owned("buffer"));
    expected.push(owned("mapper"));
    expected.push(owned("bitfield"));
    expected.push(owned("pstring"));
    let e = DecodeError::UnknownVariant { tag: owned(tag), expected };
    assert(expected@.map_values(|s: String| s@) =~= util_tags());
    e
}

/// The loop that an unknown tag stands for, if its payload has that shape.
fn decode_loop(tag: &str, p: &JsonValue) -> (r: Result<DataType, DecodeError>)
    ensures
        result_model(r) == spec_loop(tag@, *p),
    decreases *p, 2int,
{
    match p {
        JsonValue::Object(e) => match get_entry(e, "endVal") {
            Some(JsonValue::UInt(n)) => {
                if *n <= u32::MAX as u64 && get_entry(e, "type").is_some() {
                    match req_type_entry(p, "type") {
                        Ok(t) => {
                            let l = Loop { end_val: *n as u32, data_type: t };
                            Ok(DataType::Util(Box::new(Util::Loop(Box::new(l)))))
                        },
                        Err(err) => Err(err),
                    }
                } else {
                    Err(unknown_variant(tag))
                }
            },
            _ => Err(unknown_variant(tag)),
        },
        _ => Err(unknown_variant(tag)),
    }
}

} // verus!
