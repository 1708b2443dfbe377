//! The document level: named types and a tree of namespaces.

use vstd::prelude::*;
use crate::data_type::{DataType, DataTypeModel};
use crate::error::{DecodeError, ErrorModel};
use crate::json::{get_entry, lookup, JsonValue};
use crate::ordered::{namespace_entries, type_entries, upsert, NamespaceMap, TypeMap};
use crate::resolve::{decode_type_map, resolve};
use crate::resolve_spec::{spec_resolve, spec_type_map};
use crate::text::same_text;

verus! {

/// A decoded protocol document.
#[derive(Debug, PartialEq, Eq)]
pub struct Protocol {
    /// The entries of `types`, in document order.
    pub types: TypeMap,
    /// Every other top-level entry, in document order.
    pub namespaces: NamespaceMap,
}

/// A namespace: a further map of namespaces, or a data type declared directly.
#[derive(Debug, PartialEq, Eq)]
pub enum Namespace {
    Nested(NamespaceMap),
    DataType(DataType),
}

/// The mathematical form of a [`Namespace`].
pub enum NamespaceModel {
    Nested(Seq<(Seq<char>, NamespaceModel)>),
    DataType(DataTypeModel),
}

/// The mathematical form of a [`Protocol`].
pub struct ProtocolModel {
    pub types: Seq<(Seq<char>, DataTypeModel)>,
    pub namespaces: Seq<(Seq<char>, NamespaceModel)>,
}

impl Namespace {
    /// The mathematical form of this namespace.
    pub open spec fn model(self) -> NamespaceModel {
        match self {
            Namespace::Nested(m) => NamespaceModel::Nested(namespace_entries(m)),
            Namespace::DataType(d) => NamespaceModel::DataType(d.model()),
        }
    }
}

impl Protocol {
    /// The mathematical form of this document.
    pub open spec fn model(self) -> ProtocolModel {
        ProtocolModel { types: type_entries(self.types), namespaces: namespace_entries(self.namespaces) }
    }
}

/// A namespace value: first as a map of namespaces; only where that fails,
/// as a data type. Where both fail, an object reports why it is no map, and
/// any other value why it is no data type.
pub open spec fn spec_namespace(j: JsonValue) -> Result<NamespaceModel, ErrorModel>
    decreases j, 1int,
{
    match spec_namespace_map(j) {
        Ok(m) => Ok(NamespaceModel::Nested(m)),
        Err(map_err) => match spec_resolve(j) {
            Ok(d) => Ok(NamespaceModel::DataType(d)),
            Err(e) => Err(if j is Object { map_err } else { e }),
        },
    }
}

/// A namespace value read as a map of namespaces.
pub open spec fn spec_namespace_map(j: JsonValue) -> Result<Seq<(Seq<char>, NamespaceModel)>, ErrorModel>
    decreases j, 0int,
{
    match j {
        JsonValue::Object(e) => spec_namespaces(e@, false),
        _ => Err(ErrorModel::MalformedShape),
    }
}

/// The namespaces of a sequence of entries, inserted in document order. At
/// the top level (`top`) the entries named `types` are not namespaces.
pub open spec fn spec_namespaces(s: Seq<(String, JsonValue)>, top: bool) -> Result<Seq<(Seq<char>, NamespaceModel)>, ErrorModel>
    decreases s, 0int,
{
    if s.len() == 0 {
        Ok(Seq::empty())
    } else {
        match spec_namespaces(s.drop_last(), top) {
            Err(err) => Err(err),
            Ok(m) => if top && s.last().0@ == "types"@ {
                Ok(m)
            } else {
                match spec_namespace(s.last().1) {
                    Err(err) => Err(err),
                    Ok(n) => Ok(upsert(m, s.last().0@, n)),
                }
            },
        }
    }
}

/// A whole document: the object `types`, then the namespaces.
pub open spec fn spec_protocol(doc: JsonValue) -> Result<ProtocolModel, ErrorModel> {
    match doc {
        JsonValue::Object(e) => match lookup(e@, "types"@) {
            None => Err(ErrorModel::MissingField("types"@)),
            Some(JsonValue::Object(t)) => match spec_type_map(t@) {
                Err(err) => Err(err),
                Ok(types) => match spec_namespaces(e@, true) {
                    Err(err) => Err(err),
                    Ok(namespaces) => Ok(ProtocolModel { types, namespaces }),
                },
            },
            Some(_) => Err(ErrorModel::MalformedShape),
        },
        _ => Err(ErrorModel::MalformedShape),
    }
}

/// Decodes a namespace value: as a map of namespaces, else as a data type.
pub fn decode_namespace(j: &JsonValue) -> (r: Result<Namespace, DecodeError>)
    ensures
        match (r, spec_namespace(*j)) {
            (Ok(n), Ok(m)) => n.model() == m,
            (Err(x), Err(y)) => x@ == y,
            _ => false,
        },
    decreases *j, 1int,
{
    match decode_namespace_map(j) {
        Ok(m) => Ok(Namespace::Nested(m)),
        Err(map_err) => match resolve(j) {
            Ok(d) => Ok(Namespace::DataType(d)),
            Err(e) => {
                if let JsonValue::Object(_) = j {
                    Err(map_err)
                } else {
                    Err(e)
                }
            },
        },
    }
}

fn decode_namespace_map(j: &JsonValue) -> (r: Result<NamespaceMap, DecodeError>)
    ensures
        match (r, spec_namespace_map(*j)) {
            (Ok(n), Ok(m)) => namespace_entries(n) == m,
            (Err(x), Err(y)) => x@ == y,
            _ => false,
        },
    decreases *j, 0int,
{
    match j {
        JsonValue::Object(e) => {
            proof {
                assert(decreases_to!(*j => j->Object_0));
                assert(decreases_to!(*e => e@));
            }
            decode_namespaces(e, false)
        },
        _ => Err(DecodeError::MalformedShape),
    }
}

proof fn lemma_namespaces_err_extends(s: Seq<(String, JsonValue)>, top: bool, i: int)
    requires
        0 <= i <= s.len(),
        spec_namespaces(s.subrange(0, i), top) is Err,
    ensures
        spec_namespaces(s, top) == spec_namespaces(s.subrange(0, i), top),
    decreases s.len() - i,
{
    if i < s.len() {
        assert(s.subrange(0, i + 1).drop_last() =~= s.subrange(0, i));
        lemma_namespaces_err_extends(s, top, i + 1);
    } else {
        assert(s.subrange(0, i) =~= s);
    }
}

fn decode_namespaces(e: &Vec<(String, JsonValue)>, top: bool) -> (r: Result<NamespaceMap, DecodeError>)
    ensures
        match (r, spec_namespaces(e@, top)) {
            (Ok(n), Ok(m)) => namespace_entries(n) == m,
            (Err(x), Err(y)) => x@ == y,
            _ => false,
        },
    decreases e@, 0int,
{
    let mut map = NamespaceMap::new();
    let mut i: usize = 0;
    assert(e@.subrange(0, 0) =~= Seq::<(String, JsonValue)>::empty());
    while i < e.len()
        invariant
            i <= e@.len(),
            spec_namespaces(e@.subrange(0, i as int), top) == Ok::<_, ErrorModel>(namespace_entries(map)),
        decreases e@.len() - i,
    {
        let ghost prefix = e@.subrange(0, i + 1);
        assert(prefix.drop_last() =~= e@.subrange(0, i as int));
        assert(prefix.last() == e@[i as int]);
        let entry = &e[i];
        if !(top && same_text(entry.0.as_str(), "types")) {
            proof {
                assert(decreases_to!(e@ => e@[i as int]));
                assert(decreases_to!(e@[i as int] => e@[i as int].1));
            }
            match decode_namespace(&entry.1) {
                Ok(n) => {
                    map.insert(entry.0.clone(), n);
                },
                Err(err) => {
                    proof {
                        lemma_namespaces_err_extends(e@, top, i + 1);
                    }
                    return Err(err);
                },
            }
        }
        i = i + 1;
    }
    assert(e@.subrange(0, i as int) =~= e@);
    Ok(map)
}

/// Decodes a whole protocol document. No partial result is returned: an
/// error anywhere fails the document.
pub fn decode_protocol(doc: &JsonValue) -> (r: Result<Protocol, DecodeError>)
    ensures
        match (r, spec_protocol(*doc)) {
            (Ok(p), Ok(m)) => p.model() == m,
            (Err(x), Err(y)) => x@ == y,
            _ => false,
        },
{
    match doc {
        JsonValue::Object(e) => match get_entry(e, "types") {
            None => Err(DecodeError::MissingField(crate::text::owned("types"))),
            Some(JsonValue::Object(t)) => {
                let types = match decode_type_map(t) {
                    Ok(m) => m,
                    Err(err) => return Err(err),
                };
                let namespaces = match decode_namespaces(e, true) {
                    Ok(m) => m,
                    Err(err) => return Err(err),
                };
                Ok(Protocol { types, namespaces })
            },
            Some(_) => Err(DecodeError::MalformedShape),
        },
        _ => Err(DecodeError::MalformedShape),
    }
}

} // verus!
