//! The structured configuration document: a tree of plain values, read out of
//! TOML text through a trusted parse step.
use vstd::prelude::*;

use crate::text::str_eq;

verus! {

/// One value of a structured configuration document, as plain data.
#[derive(Debug)]
pub enum DocValue {
    /// A string value.
    Text(String),
    /// An integer value.
    Int(i64),
    /// An array of values.
    List(Vec<DocValue>),
    /// A table: keys with their values, in the order the parser hands them out.
    Table(Vec<(String, DocValue)>),
    /// A value of a kind the loader never reads (float, boolean, datetime).
    Other,
}

#[verifier::external_type_specification]
#[verifier::external_body]
pub struct ExTomlValue(toml::Value);

/// What parsing a text as TOML yields: `None` when the text is not well-formed
/// TOML, otherwise the parsed tree as plain values. A function of the text alone.
pub uninterp spec fn toml_doc(s: Seq<char>) -> Option<DocValue>;

/// What a parsed TOML tree holds, as plain values.
pub uninterp spec fn toml_tree(v: toml::Value) -> DocValue;

/// Relies on toml::Table's FromStr: whether a text parses as a TOML document,
/// and what it parses to, depend on the text alone.
#[verifier::external_body]
fn toml_parse(s: &str) -> (r: Option<toml::Value>)
    ensures
        r is Some <==> toml_doc(s@) is Some,
        r matches Some(v) ==> toml_doc(s@) == Some(toml_tree(v)),
{
    s.parse::<toml::Table>().ok().map(toml::Value::Table)
}

/// Relies on toml::Value: reads the parsed tree out as plain values, one
/// variant at a time; tables and arrays keep their iteration order.
#[verifier::external_body]
fn toml_value_tree(v: &toml::Value) -> (r: DocValue)
    ensures
        r == toml_tree(*v),
{
    match v {
        toml::Value::String(s) => DocValue::Text(s.clone()),
        toml::Value::Integer(i) => DocValue::Int(*i),
        toml::Value::Array(a) => DocValue::List(a.iter().map(toml_value_tree).collect()),
        toml::Value::Table(t) => DocValue::Table(
            t.iter().map(|(k, w)| (k.clone(), toml_value_tree(w))).collect(),
        ),
        _ => DocValue::Other,
    }
}

/// Parses a text as a structured document: `None` exactly when the text is not
/// well-formed TOML.
pub fn parse_document(s: &str) -> (r: Option<DocValue>)
    ensures
        r == toml_doc(s@),
{
    match toml_parse(s) {
        Some(v) => Some(toml_value_tree(&v)),
        None => None,
    }
}

/// The entries of a table value; any other kind of value has none.
pub open spec fn entries_of(v: DocValue) -> Seq<(String, DocValue)> {
    match v {
        DocValue::Table(es) => es@,
        _ => Seq::empty(),
    }
}

/// The value under a key: the first entry whose key matches.
pub open spec fn tbl_get(entries: Seq<(String, DocValue)>, key: Seq<char>) -> Option<DocValue>
    decreases entries.len(),
{
    if entries.len() == 0 {
        None
    } else if entries[0].0@ == key {
        Some(entries[0].1)
    } else {
        tbl_get(entries.drop_first(), key)
    }
}

/// Looks a key up in a table's entries, first match wins.
pub fn doc_get<'a>(entries: &'a Vec<(String, DocValue)>, key: &str) -> (r: Option<&'a DocValue>)
    ensures
        match r {
            Some(v) => tbl_get(entries@, key@) == Some(*v),
            None => tbl_get(entries@, key@) is None,
        },
{
    let mut i: usize = 0;
    proof {
        assert(entries@.skip(0) =~= entries@);
    }
    while i < entries.len()
        invariant
            i <= entries@.len(),
            tbl_get(entries@, key@) == tbl_get(entries@.skip(i as int), key@),
        decreases entries@.len() - i,
    {
        if str_eq(entries[i].0.as_str(), key) {
            proof {
                assert(entries@.skip(i as int)[0] == entries@[i as int]);
            }
            return Some(&entries[i].1);
        }
        proof {
            assert(entries@.skip(i as int).drop_first() =~= entries@.skip(i as int + 1));
            assert(entries@.skip(i as int)[0] == entries@[i as int]);
        }
        i = i + 1;
    }
    proof {
        assert(entries@.skip(i as int).len() == 0);
    }
    None
}

/// Looks a key up in a value, which must be a table for the key to be found;
/// first match wins.
pub fn value_get<'a>(v: &'a DocValue, key: &str) -> (r: Option<&'a DocValue>)
    ensures
        match r {
            Some(x) => tbl_get(entries_of(*v), key@) == Some(*x),
            None => tbl_get(entries_of(*v), key@) is None,
        },
{
    match v {
        DocValue::Table(es) => doc_get(es, key),
        _ => None,
    }
}

} // verus!
