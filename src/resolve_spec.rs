//! What decoding a value in a type position yields, stated over the JSON
//! value itself.

use vstd::prelude::*;
use crate::data_type::{BitFieldModel, CountModel, DataTypeModel, FieldModel};
use crate::error::ErrorModel;
use crate::json::{lookup, lemma_lookup_decreases, JsonValue};
use crate::numeric::numeric_code;
use crate::ordered::upsert;
use crate::primitives::primitive_keyword;

verus! {

/// What a bare name stands for: a numeric code, else a primitive keyword,
/// else a reference left unresolved.
pub open spec fn name_model(s: Seq<char>) -> DataTypeModel {
    match numeric_code(s) {
        Some(n) => DataTypeModel::Numeric(n),
        None => match primitive_keyword(s) {
            Some(p) => DataTypeModel::Primitive(p),
            None => DataTypeModel::Custom(s),
        },
    }
}

/// An optional text entry: absent or null gives none.
pub open spec fn opt_string(found: Option<JsonValue>) -> Result<Option<Seq<char>>, ErrorModel> {
    match found {
        None => Ok(None),
        Some(JsonValue::Null) => Ok(None),
        Some(JsonValue::Str(s)) => Ok(Some(s@)),
        Some(_) => Err(ErrorModel::MalformedShape),
    }
}

/// A required text entry.
pub open spec fn req_string(found: Option<JsonValue>, key: Seq<char>) -> Result<Seq<char>, ErrorModel> {
    match found {
        None => Err(ErrorModel::MissingField(key)),
        Some(JsonValue::Str(s)) => Ok(s@),
        Some(_) => Err(ErrorModel::MalformedShape),
    }
}

/// An optional flag: absent or null gives none.
pub open spec fn opt_bool(found: Option<JsonValue>) -> Result<Option<bool>, ErrorModel> {
    match found {
        None => Ok(None),
        Some(JsonValue::Null) => Ok(None),
        Some(JsonValue::Bool(b)) => Ok(Some(b)),
        Some(_) => Err(ErrorModel::MalformedShape),
    }
}

/// An optional count: a text names the counting field, a whole number that
/// fits in 32 bits is a fixed length.
pub open spec fn opt_count_value(found: Option<JsonValue>) -> Result<Option<CountModel>, ErrorModel> {
    match found {
        None => Ok(None),
        Some(JsonValue::Null) => Ok(None),
        Some(JsonValue::Str(s)) => Ok(Some(CountModel::FieldReference(s@))),
        Some(JsonValue::UInt(n)) => if n <= u32::MAX {
            Ok(Some(CountModel::FixedLength(n as u32)))
        } else {
            Err(ErrorModel::MalformedShape)
        },
        Some(_) => Err(ErrorModel::MalformedShape),
    }
}

/// The tags that the utility decoder knows.
pub open spec fn util_tags() -> Seq<Seq<char>> {
    seq!["buffer"@, "mapper"@, "bitfield"@, "pstring"@]
}

/// A switch written without its tag: the payload is an object with exactly
/// one entry, `compareTo`, holding a text. The tag becomes the switch's name.
pub open spec fn legacy_switch(tag: Seq<char>, payload: JsonValue) -> Option<DataTypeModel> {
    match payload {
        JsonValue::Object(e) => if e@.len() == 1 && e@[0].0@ == "compareTo"@ {
            match e@[0].1 {
                JsonValue::Str(c) => Some(
                    DataTypeModel::Switch {
                        name: Some(tag),
                        compare_to: c@,
                        fields: Seq::empty(),
                        default: None,
                    },
                ),
                _ => None,
            }
        } else {
            None
        },
        _ => None,
    }
}

/// The result of decoding a value in a type position.
pub open spec fn spec_resolve(j: JsonValue) -> Result<DataTypeModel, ErrorModel>
    decreases j, 0int,
{
    match j {
        JsonValue::Str(s) => Ok(name_model(s@)),
        JsonValue::Array(items) => if items@.len() == 2 {
            match items@[0] {
                JsonValue::Str(tag) => spec_tagged(tag@, items@[1]),
                _ => Err(ErrorModel::MalformedShape),
            }
        } else {
            Err(ErrorModel::MalformedShape)
        },
        _ => Err(ErrorModel::MalformedShape),
    }
}

/// The result of decoding a tagged pair `[tag, payload]`.
pub open spec fn spec_tagged(tag: Seq<char>, payload: JsonValue) -> Result<DataTypeModel, ErrorModel>
    decreases payload, 3int,
{
    if tag == "switch"@ {
        spec_switch(payload)
    } else if tag == "option"@ {
        match spec_resolve(payload) {
            Ok(d) => Ok(DataTypeModel::Option(Box::new(d))),
            Err(e) => Err(e),
        }
    } else if tag == "container"@ {
        spec_container(payload)
    } else if tag == "array"@ {
        spec_array(payload)
    } else if tag == "count"@ {
        spec_count(payload)
    } else if tag == "buffer"@ {
        spec_buffer(payload)
    } else if tag == "mapper"@ {
        spec_mapper(payload)
    } else if tag == "bitfield"@ {
        spec_bitfield(payload)
    } else if tag == "pstring"@ {
        spec_pstring(payload)
    } else {
        match legacy_switch(tag, payload) {
            Some(d) => Ok(d),
            None => spec_loop(tag, payload),
        }
    }
}

/// An optional entry in a type position: absent or null gives none.
pub open spec fn spec_opt_type(p: JsonValue, key: Seq<char>) -> Result<Option<Box<DataTypeModel>>, ErrorModel>
    decreases p, 1int,
{
    match p {
        JsonValue::Object(e) => match lookup(e@, key) {
            None => Ok(None),
            Some(JsonValue::Null) => Ok(None),
            Some(_) => match spec_req_type(p, key) {
                Ok(d) => Ok(Some(Box::new(d))),
                Err(err) => Err(err),
            },
        },
        _ => Ok(None),
    }
}

/// A required entry in a type position.
pub open spec fn spec_req_type(p: JsonValue, key: Seq<char>) -> Result<DataTypeModel, ErrorModel>
    decreases p, 0int,
    via lemma_payload_decreases
{
    match p {
        JsonValue::Object(e) => match lookup(e@, key) {
            None => Err(ErrorModel::MissingField(key)),
            Some(v) => spec_resolve(v),
        },
        _ => Err(ErrorModel::MalformedShape),
    }
}

#[via_fn]
proof fn lemma_payload_decreases(p: JsonValue, key: Seq<char>) {
    if let JsonValue::Object(e) = p {
        lemma_lookup_decreases(e, key);
    }
}

/// `switch`: `name`, `compareTo`, `fields` and `default`, in that order.
pub open spec fn spec_switch(p: JsonValue) -> Result<DataTypeModel, ErrorModel>
    decreases p, 2int,
{
    match p {
        JsonValue::Object(e) => match opt_string(lookup(e@, "name"@)) {
            Err(err) => Err(err),
            Ok(name) => match req_string(lookup(e@, "compareTo"@), "compareTo"@) {
                Err(err) => Err(err),
                Ok(compare_to) => match spec_cases_entry(p) {
                    Err(err) => Err(err),
                    Ok(fields) => match spec_opt_type(p, "default"@) {
                        Err(err) => Err(err),
                        Ok(default) => Ok(
                            DataTypeModel::Switch { name, compare_to, fields, default },
                        ),
                    },
                },
            },
        },
        _ => Err(ErrorModel::MalformedShape),
    }
}

/// The `fields` entry of a switch: an object from case values to types.
pub open spec fn spec_cases_entry(p: JsonValue) -> Result<Seq<(Seq<char>, DataTypeModel)>, ErrorModel>
    decreases p, 0int,
    via lemma_cases_entry_decreases
{
    match p {
        JsonValue::Object(e) => match lookup(e@, "fields"@) {
            None => Err(ErrorModel::MissingField("fields"@)),
            Some(JsonValue::Object(cases)) => spec_type_map(cases@),
            Some(_) => Err(ErrorModel::MalformedShape),
        },
        _ => Err(ErrorModel::MalformedShape),
    }
}

#[via_fn]
proof fn lemma_cases_entry_decreases(p: JsonValue) {
    if let JsonValue::Object(e) = p {
        lemma_lookup_decreases(e, "fields"@);
        if let Some(JsonValue::Object(cases)) = lookup(e@, "fields"@) {
            let v = JsonValue::Object(cases);
            assert(decreases_to!(v => v->Object_0));
            assert(decreases_to!(cases => cases@));
        }
    }
}

/// A map from names to types, each decoded and inserted in document order.
pub open spec fn spec_type_map(s: Seq<(String, JsonValue)>) -> Result<Seq<(Seq<char>, DataTypeModel)>, ErrorModel>
    decreases s, 0int,
{
    if s.len() == 0 {
        Ok(Seq::empty())
    } else {
        match spec_type_map(s.drop_last()) {
            Err(err) => Err(err),
            Ok(m) => match spec_resolve(s.last().1) {
                Err(err) => Err(err),
                Ok(d) => Ok(upsert(m, s.last().0@, d)),
            },
        }
    }
}

/// `container`: a sequence of fields, in document order.
pub open spec fn spec_container(p: JsonValue) -> Result<DataTypeModel, ErrorModel>
    decreases p, 0int,
{
    match p {
        JsonValue::Array(items) => match spec_fields(items@) {
            Ok(fs) => Ok(DataTypeModel::Container(fs)),
            Err(err) => Err(err),
        },
        _ => Err(ErrorModel::MalformedShape),
    }
}

/// The fields of a container.
pub open spec fn spec_fields(s: Seq<JsonValue>) -> Result<Seq<FieldModel>, ErrorModel>
    decreases s, 0int,
{
    if s.len() == 0 {
        Ok(Seq::empty())
    } else {
        match spec_fields(s.drop_last()) {
            Err(err) => Err(err),
            Ok(fs) => match spec_field(s.last()) {
                Err(err) => Err(err),
                Ok(f) => Ok(fs.push(f)),
            },
        }
    }
}

/// One field: `name`, `type` and `anon`, in that order.
pub open spec fn spec_field(f: JsonValue) -> Result<FieldModel, ErrorModel>
    decreases f, 2int,
{
    match f {
        JsonValue::Object(e) => match opt_string(lookup(e@, "name"@)) {
            Err(err) => Err(err),
            Ok(name) => match spec_req_type(f, "type"@) {
                Err(err) => Err(err),
                Ok(field_type) => match opt_bool(lookup(e@, "anon"@)) {
                    Err(err) => Err(err),
                    Ok(anonymous) => Ok(FieldModel { name, field_type, anonymous }),
                },
            },
        },
        _ => Err(ErrorModel::MalformedShape),
    }
}

/// `array`: `countType`, `count` and `type`, in that order.
pub open spec fn spec_array(p: JsonValue) -> Result<DataTypeModel, ErrorModel>
    decreases p, 2int,
{
    match p {
        JsonValue::Object(e) => match spec_opt_type(p, "countType"@) {
            Err(err) => Err(err),
            Ok(count_type) => match opt_count_value(lookup(e@, "count"@)) {
                Err(err) => Err(err),
                Ok(count) => match spec_req_type(p, "type"@) {
                    Err(err) => Err(err),
                    Ok(t) => Ok(
                        DataTypeModel::Array { count_type, count, elements_type: Box::new(t) },
                    ),
                },
            },
        },
        _ => Err(ErrorModel::MalformedShape),
    }
}

/// `count`: `type` and `countFor`, in that order.
pub open spec fn spec_count(p: JsonValue) -> Result<DataTypeModel, ErrorModel>
    decreases p, 2int,
{
    match p {
        JsonValue::Object(e) => match spec_req_type(p, "type"@) {
            Err(err) => Err(err),
            Ok(t) => match req_string(lookup(e@, "countFor"@), "countFor"@) {
                Err(err) => Err(err),
                Ok(count_for) => Ok(
                    DataTypeModel::Count { count_type: Box::new(t), count_for },
                ),
            },
        },
        _ => Err(ErrorModel::MalformedShape),
    }
}

/// `buffer`: `countType`, `count` and `rest`, in that order.
pub open spec fn spec_buffer(p: JsonValue) -> Result<DataTypeModel, ErrorModel>
    decreases p, 2int,
{
    match p {
        JsonValue::Object(e) => match spec_opt_type(p, "countType"@) {
            Err(err) => Err(err),
            Ok(count_type) => match opt_count_value(lookup(e@, "count"@)) {
                Err(err) => Err(err),
                Ok(count) => match opt_bool(lookup(e@, "rest"@)) {
                    Err(err) => Err(err),
                    Ok(rest) => Ok(DataTypeModel::Buffer { count_type, count, rest }),
                },
            },
        },
        _ => Err(ErrorModel::MalformedShape),
    }
}

/// `pstring`: a required `countType`.
pub open spec fn spec_pstring(p: JsonValue) -> Result<DataTypeModel, ErrorModel>
    decreases p, 2int,
{
    match p {
        JsonValue::Object(_) => match spec_req_type(p, "countType"@) {
            Err(err) => Err(err),
            Ok(t) => Ok(DataTypeModel::PrefixedString(Box::new(t))),
        },
        _ => Err(ErrorModel::MalformedShape),
    }
}

/// The loop that an unknown tag stands for when its payload holds `endVal`,
/// a whole number that fits in 32 bits, and `type`.
pub open spec fn spec_loop(tag: Seq<char>, p: JsonValue) -> Result<DataTypeModel, ErrorModel>
    decreases p, 2int,
{
    let unknown = ErrorModel::UnknownVariant { tag, expected: util_tags() };
    match p {
        JsonValue::Object(e) => match lookup(e@, "endVal"@) {
            Some(JsonValue::UInt(n)) => if n <= u32::MAX && lookup(e@, "type"@) is Some {
                match spec_req_type(p, "type"@) {
                    Err(err) => Err(err),
                    Ok(t) => Ok(DataTypeModel::Loop { end_val: n as u32, data_type: Box::new(t) }),
                }
            } else {
                Err(unknown)
            },
            _ => Err(unknown),
        },
        _ => Err(unknown),
    }
}

/// `mapper`: a required text `type` and a required object `mappings` of texts.
pub open spec fn spec_mapper(p: JsonValue) -> Result<DataTypeModel, ErrorModel> {
    match p {
        JsonValue::Object(e) => match req_string(lookup(e@, "type"@), "type"@) {
            Err(err) => Err(err),
            Ok(mappings_type) => match lookup(e@, "mappings"@) {
                None => Err(ErrorModel::MissingField("mappings"@)),
                Some(JsonValue::Object(m)) => match spec_mappings(m@) {
                    Err(err) => Err(err),
                    Ok(mappings) => Ok(DataTypeModel::Mapper { mappings_type, mappings }),
                },
                Some(_) => Err(ErrorModel::MalformedShape),
            },
        },
        _ => Err(ErrorModel::MalformedShape),
    }
}

/// The entries of a mapper, inserted in document order.
pub open spec fn spec_mappings(s: Seq<(String, JsonValue)>) -> Result<Seq<(Seq<char>, Seq<char>)>, ErrorModel>
    decreases s.len(),
{
    if s.len() == 0 {
        Ok(Seq::empty())
    } else {
        match spec_mappings(s.drop_last()) {
            Err(err) => Err(err),
            Ok(m) => match s.last().1 {
                JsonValue::Str(v) => Ok(upsert(m, s.last().0@, v@)),
                _ => Err(ErrorModel::MalformedShape),
            },
        }
    }
}

/// `bitfield`: a sequence of groups of bits, in document order.
pub open spec fn spec_bitfield(p: JsonValue) -> Result<DataTypeModel, ErrorModel> {
    match p {
        JsonValue::Array(items) => match spec_bits(items@) {
            Ok(bs) => Ok(DataTypeModel::Bitfield(bs)),
            Err(err) => Err(err),
        },
        _ => Err(ErrorModel::MalformedShape),
    }
}

/// The groups of a bit field.
pub open spec fn spec_bits(s: Seq<JsonValue>) -> Result<Seq<BitFieldModel>, ErrorModel>
    decreases s.len(),
{
    if s.len() == 0 {
        Ok(Seq::empty())
    } else {
        match spec_bits(s.drop_last()) {
            Err(err) => Err(err),
            Ok(bs) => match spec_bit(s.last()) {
                Err(err) => Err(err),
                Ok(b) => Ok(bs.push(b)),
            },
        }
    }
}

/// One group of bits: `name`, `size` and `signed`, in that order, all required.
pub open spec fn spec_bit(b: JsonValue) -> Result<BitFieldModel, ErrorModel> {
    match b {
        JsonValue::Object(e) => match req_string(lookup(e@, "name"@), "name"@) {
            Err(err) => Err(err),
            Ok(name) => match lookup(e@, "size"@) {
                None => Err(ErrorModel::MissingField("size"@)),
                Some(JsonValue::UInt(n)) => if n <= usize::MAX {
                    match lookup(e@, "signed"@) {
                        None => Err(ErrorModel::MissingField("signed"@)),
                        Some(JsonValue::Bool(signed)) => Ok(
                            BitFieldModel { name, size: n as usize, signed },
                        ),
                        Some(_) => Err(ErrorModel::MalformedShape),
                    }
                } else {
                    Err(ErrorModel::MalformedShape)
                },
                Some(_) => Err(ErrorModel::MalformedShape),
            },
        },
        _ => Err(ErrorModel::MalformedShape),
    }
}

} // verus!
