//! The utility decoders whose payloads hold no type position: `mapper` and
//! `bitfield`.

use vstd::prelude::*;
use linked_hash_map::LinkedHashMap;
use crate::data_type::{BitField, DataType, Mapper, Util};
use crate::error::{DecodeError, ErrorModel};
use crate::fields::req_string_entry;
use crate::json::{get_entry, JsonValue};
use crate::ordered::{insert_mapping, mapping_entries, new_mapping};
use crate::resolve::result_model;
use crate::resolve_spec::{spec_bit, spec_bitfield, spec_bits, spec_mapper, spec_mappings};
use crate::text::owned;

verus! {

/// `mapper`: raw wire values to symbolic names.
pub fn decode_mapper(p: &JsonValue) -> (r: Result<DataType, DecodeError>)
    ensures
        result_model(r) == spec_mapper(*p),
{
    match p {
        JsonValue::Object(e) => {
            let mappings_type = match req_string_entry(e, "type") {
                Ok(t) => t,
                Err(err) => return Err(err),
            };
            match get_entry(e, "mappings") {
                None => Err(DecodeError::MissingField(owned("mappings"))),
                Some(JsonValue::Object(m)) => match decode_mappings(m) {
                    Ok(mappings) => Ok(
                        DataType::Util(Box::new(Util::Mapper(Mapper { mappings_type, mappings }))),
                    ),
                    Err(err) => Err(err),
                },
                Some(_) => Err(DecodeError::MalformedShape),
            }
        },
        _ => Err(DecodeError::MalformedShape),
    }
}

proof fn lemma_mappings_err_extends(s: Seq<(String, JsonValue)>, i: int)
    requires
        0 <= i <= s.len(),
        spec_mappings(s.subrange(0, i)) is Err,
    ensures
        spec_mappings(s) == spec_mappings(s.subrange(0, i)),
    decreases s.len() - i,
{
    if i < s.len() {
        assert(s.subrange(0, i + 1).drop_last() =~= s.subrange(0, i));
        lemma_mappings_err_extends(s, i + 1);
    } else {
        assert(s.subrange(0, i) =~= s);
    }
}

/// The entries of a mapper, inserted in document order.
fn decode_mappings(m: &Vec<(String, JsonValue)>) -> (r: Result<LinkedHashMap<String, String>, DecodeError>)
    ensures
        match (r, spec_mappings(m@)) {
            (Ok(x), Ok(s)) => mapping_entries(x) == s,
            (Err(x), Err(y)) => x@ == y,
            _ => false,
        },
{
    let mut out = new_mapping();
    let mut i: usize = 0;
    assert(m@.subrange(0, 0) =~= Seq::<(String, JsonValue)>::empty());
    while i < m.len()
        invariant
            i <= m@.len(),
            spec_mappings(m@.subrange(0, i as int)) == Ok::<_, ErrorModel>(mapping_entries(out)),
        decreases m@.len() - i,
    {
        let ghost prefix = m@.subrange(0, i + 1);
        assert(prefix.drop_last() =~= m@.subrange(0, i as int));
        assert(prefix.last() == m@[i as int]);
        let entry = &m[i];
        match &entry.1 {
            JsonValue::Str(v) => {
                insert_mapping(&mut out, entry.0.clone(), v.clone());
            },
            _ => {
                proof {
                    lemma_mappings_err_extends(m@, i + 1);
                }
                return Err(DecodeError::MalformedShape);
            },
        }
        i = i + 1;
    }
    assert(m@.subrange(0, i as int) =~= m@);
    Ok(out)
}

/// `bitfield`: groups of bits in packing order.
pub fn decode_bitfield(p: &JsonValue) -> (r: Result<DataType, DecodeError>)
    ensures
        result_model(r) == spec_bitfield(*p),
{
    match p {
        JsonValue::Array(items) => match decode_bits(items) {
            Ok(bs) => Ok(DataType::Util(Box::new(Util::Bitfield(bs)))),
            Err(err) => Err(err),
        },
        _ => Err(DecodeError::MalformedShape),
    }
}

proof fn lemma_bits_err_extends(s: Seq<JsonValue>, i: int)
    requires
        0 <= i <= s.len(),
        spec_bits(s.subrange(0, i)) is Err,
    ensures
        spec_bits(s) == spec_bits(s.subrange(0, i)),
    decreases s.len() - i,
{
    if i < s.len() {
        assert(s.subrange(0, i + 1).drop_last() =~= s.subrange(0, i));
        lemma_bits_err_extends(s, i + 1);
    } else {
        assert(s.subrange(0, i) =~= s);
    }
}

/// The groups of a bit field, in document order.
fn decode_bits(items: &Vec<JsonValue>) -> (r: Result<Vec<BitField>, DecodeError>)
    ensures
        match (r, spec_bits(items@)) {
            (Ok(bs), Ok(m)) => bs@.map_values(|b: BitField| b@) == m,
            (Err(x), Err(y)) => x@ == y,
            _ => false,
        },
{
    let mut out: Vec<BitField> = Vec::new();
    let mut i: usize = 0;
    assert(items@.subrange(0, 0) =~= Seq::<JsonValue>::empty());
    assert(out@.map_values(|b: BitField| b@) =~= Seq::empty());
    while i < items.len()
        invariant
            i <= items@.len(),
            spec_bits(items@.subrange(0, i as int)) == Ok::<_, ErrorModel>(out@.map_values(|b: BitField| b@)),
        decreases items@.len() - i,
    {
        let ghost prefix = items@.subrange(0, i + 1);
        assert(prefix.drop_last() =~= items@.subrange(0, i as int));
        assert(prefix.last() == items@[i as int]);
        match decode_bit(&items[i]) {
            Ok(b) => {
                let ghost old_out = out@;
                out.push(b);
                assert(out@.map_values(|b: BitField| b@) =~= old_out.map_values(|b: BitField| b@).push(b@));
            },
            Err(err) => {
                proof {
                    lemma_bits_err_extends(items@, i + 1);
                }
                return Err(err);
            },
        }
        i = i + 1;
    }
    assert(items@.subrange(0, i as int) =~= items@);
    Ok(out)
}

/// One group of bits.
fn decode_bit(b: &JsonValue) -> (r: Result<BitField, DecodeError>)
    ensures
        match (r, spec_bit(*b)) {
            (Ok(x), Ok(m)) => x@ == m,
            (Err(x), Err(y)) => x@ == y,
            _ => false,
        },
{
    match b {
        JsonValue::Object(e) => {
            let name = match req_string_entry(e, "name") {
                Ok(n) => n,
                Err(err) => return Err(err),
            };
            match get_entry(e, "size") {
                None => Err(DecodeError::MissingField(owned("size"))),
                Some(JsonValue::UInt(n)) => {
                    if *n <= usize::MAX as u64 {
                        match get_entry(e, "signed") {
                            None => Err(DecodeError::MissingField(owned("signed"))),
                            Some(JsonValue::Bool(signed)) => Ok(
                                BitField { name, size: *n as usize, signed: *signed },
                            ),
                            Some(_) => Err(DecodeError::MalformedShape),
                        }
                    } else {
                        Err(DecodeError::MalformedShape)
                    }
                },
                Some(_) => Err(DecodeError::MalformedShape),
            }
        },
        _ => Err(DecodeError::MalformedShape),
    }
}

} // verus!
