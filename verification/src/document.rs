//! The boundary to the TOML parser.
//!
//! The `toml` crate parses document text; its parsed value is opaque to the
//! verifier, so a small set of trusted accessors states what each observer
//! returns in terms of one shared model, [`toml_model`].  Everything built
//! on top of the accessors — the recursive conversion into this crate's own
//! [`TomlValue`] — is verified.

use vstd::prelude::*;

use crate::value::Date;
use crate::value::TomlValue;
use crate::value::Datetime;
use crate::value::Offset;
use crate::value::Time;
use crate::value::ValueView;
use crate::value::lemma_views_of_entries;
use crate::value::lemma_views_of_seq;
use crate::value::view_of;
use crate::value::views_of_entries;
use crate::value::views_of_seq;

verus! {

/// The `toml` crate's parsed value, opaque to the verifier.
#[verifier::external_type_specification]
#[verifier::external_body]
pub struct ExTomlValue(toml::Value);

/// The contents of a parsed `toml::Value`, as this crate's value model.
/// The trusted accessors below are its only source of facts.
pub uninterp spec fn toml_model(v: toml::Value) -> ValueView;

/// What parsing the given text as a TOML document yields: the model of the
/// parsed value where the text is well-formed, and nothing otherwise.
/// Parsing is a function of the text alone.
pub uninterp spec fn toml_doc(text: Seq<char>) -> Option<ValueView>;

/// Relies on `toml::from_str::<toml::Value>`: parses the text as one TOML
/// document, succeeding exactly on well-formed document text, and carries
/// the parser's diagnostic on failure.
#[verifier::external_body]
fn parse_toml(text: &str) -> (r: Result<toml::Value, String>)
    ensures
        match r {
            Ok(v) => toml_doc(text@) == Some(toml_model(v)),
            Err(_) => toml_doc(text@) is None,
        },
{
    toml::from_str::<toml::Value>(text).map_err(|e| e.to_string())
}

/// Relies on `toml::Value::as_str`: the payload exactly on the string
/// variant.
#[verifier::external_body]
fn tv_as_str<'a>(v: &'a toml::Value) -> (r: Option<&'a str>)
    ensures
        match toml_model(*v) {
            ValueView::Str(s) => r matches Some(x) && x@ == s,
            _ => r is None,
        },
{
    v.as_str()
}

/// Relies on `toml::Value::as_integer`: the payload exactly on the integer
/// variant.
#[verifier::external_body]
fn tv_as_integer(v: &toml::Value) -> (r: Option<i64>)
    ensures
        match toml_model(*v) {
            ValueView::Int(i) => r == Some(i),
            _ => r is None,
        },
{
    v.as_integer()
}

/// Relies on `toml::Value::as_float`: the payload's IEEE-754 bit pattern
/// exactly on the float variant.
#[verifier::external_body]
fn tv_as_float_bits(v: &toml::Value) -> (r: Option<u64>)
    ensures
        match toml_model(*v) {
            ValueView::Float(bits) => r == Some(bits),
            _ => r is None,
        },
{
    v.as_float().map(|x| x.to_bits())
}

/// Relies on `toml::Value::as_bool`: the payload exactly on the boolean
/// variant.
#[verifier::external_body]
fn tv_as_bool(v: &toml::Value) -> (r: Option<bool>)
    ensures
        match toml_model(*v) {
            ValueView::Bool(b) => r == Some(b),
            _ => r is None,
        },
{
    v.as_bool()
}

/// Relies on `toml::Value::as_datetime`: the payload's date, time and
/// offset fields, exactly on the datetime variant.
#[verifier::external_body]
fn tv_as_datetime(v: &toml::Value) -> (r: Option<Datetime>)
    ensures
        match toml_model(*v) {
            ValueView::Datetime(d) => r == Some(d),
            _ => r is None,
        },
{
    v.as_datetime().map(|d| Datetime {
        date: d.date.map(|x| Date { year: x.year, month: x.month, day: x.day }),
        time: d.time.map(
            |x| Time { hour: x.hour, minute: x.minute, second: x.second, nanosecond: x.nanosecond },
        ),
        offset: d.offset.map(
            |x|
                match x {
                    toml::value::Offset::Z => Offset::Z,
                    toml::value::Offset::Custom { minutes } => Offset::Custom { minutes },
                },
        ),
    })
}

/// Relies on `toml::Value::as_array`: the elements, in document order,
/// exactly on the array variant.
#[verifier::external_body]
fn tv_as_array<'a>(v: &'a toml::Value) -> (r: Option<&'a Vec<toml::Value>>)
    ensures
        match toml_model(*v) {
            ValueView::Array(s) => r matches Some(a) && a@.len() == s.len() && forall|i: int|
                0 <= i < s.len() ==> toml_model(#[trigger] a@[i]) == s[i],
            _ => r is None,
        },
{
    v.as_array()
}

/// Relies on `toml::Value::as_table` and `toml::map::Map::iter`: the
/// entries with their keys, in the map's iteration order, exactly on the
/// table variant.
#[verifier::external_body]
fn tv_as_table<'a>(v: &'a toml::Value) -> (r: Option<Vec<(String, &'a toml::Value)>>)
    ensures
        match toml_model(*v) {
            ValueView::Table(entries) => r matches Some(es) && es@.len() == entries.len()
                && forall|i: int|
                0 <= i < entries.len() ==> (#[trigger] es@[i]).0@ == entries[i].0 && toml_model(
                    *es@[i].1,
                ) == entries[i].1,
            _ => r is None,
        },
{
    v.as_table().map(|t| t.iter().map(|(k, x)| (k.clone(), x)).collect())
}

/// Convert a parsed TOML value into this crate's own value model.
#[verifier::loop_isolation(false)]
fn to_value(v: &toml::Value) -> (r: TomlValue)
    ensures
        r@ == toml_model(*v),
    decreases toml_model(*v),
{
    if let Some(s) = tv_as_str(v) {
        return TomlValue::Str(s.to_owned());
    }
    if let Some(i) = tv_as_integer(v) {
        return TomlValue::Int(i);
    }
    if let Some(bits) = tv_as_float_bits(v) {
        return TomlValue::Float(bits);
    }
    if let Some(b) = tv_as_bool(v) {
        return TomlValue::Bool(b);
    }
    if let Some(d) = tv_as_datetime(v) {
        return TomlValue::Datetime(d);
    }
    if let Some(items) = tv_as_array(v) {
        let ghost s = toml_model(*v)->Array_0;
        let mut out: Vec<TomlValue> = Vec::new();
        let n = items.len();
        let mut i: usize = 0;
        while i < n
            invariant
                out@.len() == i,
                i <= n,
                forall|j: int| 0 <= j < i ==> view_of(#[trigger] out@[j]) == s[j],
            decreases n - i,
        {
            proof {
                assert(decreases_to!(toml_model(*v) => toml_model(*v)->Array_0));
                assert(decreases_to!(toml_model(*v)->Array_0 => toml_model(*v)->Array_0[i as int]));
                assert(decreases_to!(toml_model(*v) => toml_model(items@[i as int])));
            }
            let c = to_value(&items[i]);
            out.push(c);
            i = i + 1;
        }
        proof {
            lemma_views_of_seq(out@);
            assert forall|j: int| 0 <= j < n implies views_of_seq(out@)[j] == s[j] by {
                assert(view_of(out@[j]) == s[j]);
            }
            assert(views_of_seq(out@) =~= s);
        }
        return TomlValue::Array(out);
    }
    if let Some(entries) = tv_as_table(v) {
        let ghost s = toml_model(*v)->Table_0;
        let mut out: Vec<(String, TomlValue)> = Vec::new();
        let n = entries.len();
        let mut i: usize = 0;
        while i < n
            invariant
                out@.len() == i,
                i <= n,
                forall|j: int| 0 <= j < i ==> (#[trigger] out@[j]).0@ == s[j].0 && view_of(
                    out@[j].1,
                ) == s[j].1,
            decreases n - i,
        {
            proof {
                assert(decreases_to!(toml_model(*v) => toml_model(*v)->Table_0));
                assert(decreases_to!(toml_model(*v)->Table_0 => toml_model(*v)->Table_0[i as int]));
                assert(decreases_to!(toml_model(*v)->Table_0[i as int] => toml_model(
                    *v,
                )->Table_0[i as int].1));
                assert(decreases_to!(toml_model(*v) => toml_model(*entries@[i as int].1)));
            }
            let k = entries[i].0.clone();
            let c = to_value(entries[i].1);
            out.push((k, c));
            i = i + 1;
        }
        proof {
            lemma_views_of_entries(out@);
            assert forall|j: int| 0 <= j < n implies views_of_entries(out@)[j] == s[j] by {
                assert(out@[j].0@ == s[j].0);
                assert(view_of(out@[j].1) == s[j].1);
            }
            assert(views_of_entries(out@) =~= s);
        }
        return TomlValue::Table(out);
    }
    proof {
        assert(false);
    }
    TomlValue::Bool(false)
}

/// Parse one TOML document into this crate's value model, or return the
/// parser's diagnostic.
pub fn parse_document(text: &str) -> (r: Result<TomlValue, String>)
    ensures
        match r {
            Ok(v) => toml_doc(text@) == Some(v@),
            Err(_) => toml_doc(text@) is None,
        },
{
    match parse_toml(text) {
        Ok(tv) => Ok(to_value(&tv)),
        Err(m) => Err(m),
    }
}

} // verus!
