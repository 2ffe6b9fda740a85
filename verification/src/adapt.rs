//! The value-adapter layer.
//!
//! A target type declares how it is built from one primitive document-value
//! category (string, integer, float, boolean, timestamp, array, table, or
//! any value); the layer derives from that single declaration the full
//! "deserialize from a raw document value" operation, including the
//! fail-fast type mismatch on every other category.  A type may instead be
//! declared constructible from another already-adapted type, which chains
//! the two declarations with no further work.

use vstd::prelude::*;

use crate::value::Datetime;
use crate::value::TomlValue;
use crate::value::ValueView;
use crate::value::lemma_views_of_seq;
use crate::value::table_get;
use crate::value::table_lookup;
use crate::value::view_of;
use crate::value::views_of_entries;
use crate::value::views_of_seq;

verus! {

/// How one adaptation turns out, at the specification level: a built value,
/// a raw value of the wrong category, or a constructor that reported failure.
#[verifier::ext_equal]
pub enum Outcome<V> {
    Built(V),
    Mismatch,
    Refused,
}

/// An adapter failure: the raw value had the wrong category, or the target
/// type's own constructor reported the carried message.
#[derive(PartialEq, Eq, Debug)]
pub enum AdaptError {
    TypeMismatch,
    ConstructorFailure(String),
}

/// The result `r` is the executable reflection of the outcome `o`: the built
/// value on success, and the error of the corresponding kind otherwise.
pub open spec fn outcome_matches<T: View>(o: Outcome<<T as View>::V>, r: Result<
    T,
    AdaptError,
>) -> bool {
    match o {
        Outcome::Built(xv) => r matches Ok(y) && y@ == xv,
        Outcome::Mismatch => r matches Err(e) && e is TypeMismatch,
        Outcome::Refused => r matches Err(e) && e is ConstructorFailure,
    }
}

/// A type that can be built from a raw document value.
///
/// `of_view` fixes, for every possible shape of raw value, whether the type
/// accepts it and what it builds from it; `of_value` is the executable
/// construction, exact with respect to `of_view`.
pub trait FromValue: View + Sized {
    /// The outcome of building this type from a document value of the given
    /// shape.
    spec fn of_view(v: ValueView) -> Outcome<Self::V>;

    /// Build this type from a raw document value.
    fn of_value(raw: &TomlValue) -> (r: Result<Self, AdaptError>)
        ensures
            outcome_matches::<Self>(Self::of_view(raw@), r),
    ;
}

/// A type constructible from a string value.
pub trait FromTomlString: View + Sized {
    /// The declared construction; `None` means the constructor reports
    /// failure for that string.
    spec fn spec_of_string(s: Seq<char>) -> Option<Self::V>;

    /// Construct from the string, or report failure with a message.
    fn of_toml_string(s: String) -> (r: Result<Self, String>)
        ensures
            match Self::spec_of_string(s@) {
                Some(xv) => r matches Ok(y) && y@ == xv,
                None => r is Err,
            },
    ;
}

/// A type constructible from an integer value.
pub trait FromTomlInt: View + Sized {
    /// The declared construction; `None` means the constructor reports
    /// failure for that integer.
    spec fn spec_of_int(i: i64) -> Option<Self::V>;

    /// Construct from the integer, or report failure with a message.
    fn of_toml_int(i: i64) -> (r: Result<Self, String>)
        ensures
            match Self::spec_of_int(i) {
                Some(xv) => r matches Ok(y) && y@ == xv,
                None => r is Err,
            },
    ;
}

/// A type constructible from a float value, given as its IEEE-754 bits.
pub trait FromTomlFloat: View + Sized {
    /// The declared construction; `None` means the constructor reports
    /// failure for that float.
    spec fn spec_of_float(bits: u64) -> Option<Self::V>;

    /// Construct from the float bits, or report failure with a message.
    fn of_toml_float(bits: u64) -> (r: Result<Self, String>)
        ensures
            match Self::spec_of_float(bits) {
                Some(xv) => r matches Ok(y) && y@ == xv,
                None => r is Err,
            },
    ;
}

/// A type constructible from a boolean value.
pub trait FromTomlBool: View + Sized {
    /// The declared construction; `None` means the constructor reports
    /// failure for that boolean.
    spec fn spec_of_bool(b: bool) -> Option<Self::V>;

    /// Construct from the boolean, or report failure with a message.
    fn of_toml_bool(b: bool) -> (r: Result<Self, String>)
        ensures
            match Self::spec_of_bool(b) {
                Some(xv) => r matches Ok(y) && y@ == xv,
                None => r is Err,
            },
    ;
}

/// A type constructible from a timestamp value.
pub trait FromTomlDate: View + Sized {
    /// The declared construction; `None` means the constructor reports
    /// failure for that timestamp.
    spec fn spec_of_date(d: Datetime) -> Option<Self::V>;

    /// Construct from the timestamp, or report failure with a message.
    fn of_toml_date(d: Datetime) -> (r: Result<Self, String>)
        ensures
            match Self::spec_of_date(d) {
                Some(xv) => r matches Ok(y) && y@ == xv,
                None => r is Err,
            },
    ;
}

/// A type constructible from another already-adapted type `B`.
pub trait FromAdapted<B: View>: View + Sized {
    /// The declared construction; `None` means the constructor reports
    /// failure for that source value.
    spec fn spec_of_adapted(b: <B as View>::V) -> Option<Self::V>;

    /// Construct from the adapted source, or report failure with a message.
    fn of_adapted(b: B) -> (r: Result<Self, String>)
        ensures
            match Self::spec_of_adapted(b@) {
                Some(xv) => r matches Ok(y) && y@ == xv,
                None => r is Err,
            },
    ;
}

/// The outcome of adapting a raw value through a string-category declaration.
pub open spec fn string_of_view<T: FromTomlString>(v: ValueView) -> Outcome<<T as View>::V> {
    match v {
        ValueView::Str(s) => match T::spec_of_string(s) {
            Some(x) => Outcome::Built(x),
            None => Outcome::Refused,
        },
        _ => Outcome::Mismatch,
    }
}

/// The outcome of adapting a raw value through an integer-category declaration.
pub open spec fn int_of_view<T: FromTomlInt>(v: ValueView) -> Outcome<<T as View>::V> {
    match v {
        ValueView::Int(i) => match T::spec_of_int(i) {
            Some(x) => Outcome::Built(x),
            None => Outcome::Refused,
        },
        _ => Outcome::Mismatch,
    }
}

/// The outcome of adapting a raw value through a float-category declaration.
pub open spec fn float_of_view<T: FromTomlFloat>(v: ValueView) -> Outcome<<T as View>::V> {
    match v {
        ValueView::Float(bits) => match T::spec_of_float(bits) {
            Some(x) => Outcome::Built(x),
            None => Outcome::Refused,
        },
        _ => Outcome::Mismatch,
    }
}

/// The outcome of adapting a raw value through a boolean-category declaration.
pub open spec fn bool_of_view<T: FromTomlBool>(v: ValueView) -> Outcome<<T as View>::V> {
    match v {
        ValueView::Bool(b) => match T::spec_of_bool(b) {
            Some(x) => Outcome::Built(x),
            None => Outcome::Refused,
        },
        _ => Outcome::Mismatch,
    }
}

/// The outcome of adapting a raw value through a timestamp-category declaration.
pub open spec fn date_of_view<T: FromTomlDate>(v: ValueView) -> Outcome<<T as View>::V> {
    match v {
        ValueView::Datetime(d) => match T::spec_of_date(d) {
            Some(x) => Outcome::Built(x),
            None => Outcome::Refused,
        },
        _ => Outcome::Mismatch,
    }
}

/// The outcome of adapting a raw value by first building `B` from it and
/// then constructing `C` from `B`.
pub open spec fn chained_of_view<B: FromValue, C: FromAdapted<B>>(v: ValueView) -> Outcome<
    <C as View>::V,
> {
    match B::of_view(v) {
        Outcome::Built(bv) => match C::spec_of_adapted(bv) {
            Some(cv) => Outcome::Built(cv),
            None => Outcome::Refused,
        },
        Outcome::Mismatch => Outcome::Mismatch,
        Outcome::Refused => Outcome::Refused,
    }
}

/// Adapt a raw value expected to be of the string category.
pub fn convert_string<T: FromTomlString>(raw: &TomlValue) -> (r: Result<T, AdaptError>)
    ensures
        outcome_matches::<T>(string_of_view::<T>(raw@), r),
{
    match raw {
        TomlValue::Str(s) => match T::of_toml_string(s.clone()) {
            Ok(x) => Ok(x),
            Err(m) => Err(AdaptError::ConstructorFailure(m)),
        },
        _ => Err(AdaptError::TypeMismatch),
    }
}

/// Adapt a raw value expected to be of the integer category.
pub fn convert_int<T: FromTomlInt>(raw: &TomlValue) -> (r: Result<T, AdaptError>)
    ensures
        outcome_matches::<T>(int_of_view::<T>(raw@), r),
{
    match raw {
        TomlValue::Int(i) => match T::of_toml_int(*i) {
            Ok(x) => Ok(x),
            Err(m) => Err(AdaptError::ConstructorFailure(m)),
        },
        _ => Err(AdaptError::TypeMismatch),
    }
}

/// Adapt a raw value expected to be of the float category.
pub fn convert_float<T: FromTomlFloat>(raw: &TomlValue) -> (r: Result<T, AdaptError>)
    ensures
        outcome_matches::<T>(float_of_view::<T>(raw@), r),
{
    match raw {
        TomlValue::Float(bits) => match T::of_toml_float(*bits) {
            Ok(x) => Ok(x),
            Err(m) => Err(AdaptError::ConstructorFailure(m)),
        },
        _ => Err(AdaptError::TypeMismatch),
    }
}

/// Adapt a raw value expected to be of the boolean category.
pub fn convert_bool<T: FromTomlBool>(raw: &TomlValue) -> (r: Result<T, AdaptError>)
    ensures
        outcome_matches::<T>(bool_of_view::<T>(raw@), r),
{
    match raw {
        TomlValue::Bool(b) => match T::of_toml_bool(*b) {
            Ok(x) => Ok(x),
            Err(m) => Err(AdaptError::ConstructorFailure(m)),
        },
        _ => Err(AdaptError::TypeMismatch),
    }
}

/// Adapt a raw value expected to be of the timestamp category.
pub fn convert_date<T: FromTomlDate>(raw: &TomlValue) -> (r: Result<T, AdaptError>)
    ensures
        outcome_matches::<T>(date_of_view::<T>(raw@), r),
{
    match raw {
        TomlValue::Datetime(d) => match T::of_toml_date(*d) {
            Ok(x) => Ok(x),
            Err(m) => Err(AdaptError::ConstructorFailure(m)),
        },
        _ => Err(AdaptError::TypeMismatch),
    }
}

/// Adapt a raw value by building `B` from it and constructing `C` from `B`.
pub fn convert_adapted<B: FromValue, C: FromAdapted<B>>(raw: &TomlValue) -> (r: Result<C, AdaptError>)
    ensures
        outcome_matches::<C>(chained_of_view::<B, C>(raw@), r),
{
    match B::of_value(raw) {
        Ok(b) => match C::of_adapted(b) {
            Ok(c) => Ok(c),
            Err(m) => Err(AdaptError::ConstructorFailure(m)),
        },
        Err(e) => Err(e),
    }
}

/// Law: a string-category conversion yields exactly the declared
/// construction on every string value, and a type mismatch on every value
/// of another category.
pub proof fn lemma_string_category<T: FromTomlString>(v: ValueView)
    ensures
        v matches ValueView::Str(s) ==> string_of_view::<T>(v) == match T::spec_of_string(s) {
            Some(x) => Outcome::<<T as View>::V>::Built(x),
            None => Outcome::<<T as View>::V>::Refused,
        },
        !(v is Str) ==> string_of_view::<T>(v) is Mismatch,
{
}

/// Law: an integer-category conversion yields exactly the declared
/// construction on every integer value, and a type mismatch on every value
/// of another category.
pub proof fn lemma_int_category<T: FromTomlInt>(v: ValueView)
    ensures
        v matches ValueView::Int(i) ==> int_of_view::<T>(v) == match T::spec_of_int(i) {
            Some(x) => Outcome::<<T as View>::V>::Built(x),
            None => Outcome::<<T as View>::V>::Refused,
        },
        !(v is Int) ==> int_of_view::<T>(v) is Mismatch,
{
}

/// Law: a float-category conversion yields exactly the declared
/// construction on every float value, and a type mismatch on every value
/// of another category.
pub proof fn lemma_float_category<T: FromTomlFloat>(v: ValueView)
    ensures
        v matches ValueView::Float(bits) ==> float_of_view::<T>(v) == match T::spec_of_float(
            bits,
        ) {
            Some(x) => Outcome::<<T as View>::V>::Built(x),
            None => Outcome::<<T as View>::V>::Refused,
        },
        !(v is Float) ==> float_of_view::<T>(v) is Mismatch,
{
}

/// Law: a boolean-category conversion yields exactly the declared
/// construction on every boolean value, and a type mismatch on every value
/// of another category.
pub proof fn lemma_bool_category<T: FromTomlBool>(v: ValueView)
    ensures
        v matches ValueView::Bool(b) ==> bool_of_view::<T>(v) == match T::spec_of_bool(b) {
            Some(x) => Outcome::<<T as View>::V>::Built(x),
            None => Outcome::<<T as View>::V>::Refused,
        },
        !(v is Bool) ==> bool_of_view::<T>(v) is Mismatch,
{
}

/// Law: a timestamp-category conversion yields exactly the declared
/// construction on every timestamp value, and a type mismatch on every
/// value of another category.
pub proof fn lemma_date_category<T: FromTomlDate>(v: ValueView)
    ensures
        v matches ValueView::Datetime(d) ==> date_of_view::<T>(v) == match T::spec_of_date(d) {
            Some(x) => Outcome::<<T as View>::V>::Built(x),
            None => Outcome::<<T as View>::V>::Refused,
        },
        !(v is Datetime) ==> date_of_view::<T>(v) is Mismatch,
{
}

/// Law: chained adapters are transitive.  If `C` is declared constructible
/// from `B` and `B` is itself document-deserializable, then `C` is
/// document-deserializable with no further declaration: it accepts exactly
/// the raw shapes `B` accepts, propagates `B`'s failures unchanged, and
/// builds `C`'s construction of whatever `B` builds.
pub proof fn lemma_chained_transitive<B: FromValue, C: FromAdapted<B>>(v: ValueView)
    ensures
        B::of_view(v) is Mismatch <==> chained_of_view::<B, C>(v) is Mismatch,
        B::of_view(v) is Refused ==> chained_of_view::<B, C>(v) is Refused,
        B::of_view(v) matches Outcome::Built(bv) ==> chained_of_view::<B, C>(v) == match C::spec_of_adapted(
            bv,
        ) {
            Some(cv) => Outcome::<<C as View>::V>::Built(cv),
            None => Outcome::<<C as View>::V>::Refused,
        },
{
}

/// The outcome of adapting every element of an array in order, fail-fast:
/// the leftmost failing element decides the failure.
pub open spec fn elems_of_view<T: FromValue>(elems: Seq<ValueView>) -> Outcome<
    Seq<<T as View>::V>,
>
    decreases elems.len(),
{
    if elems.len() == 0 {
        Outcome::Built(Seq::empty())
    } else {
        match elems_of_view::<T>(elems.drop_last()) {
            Outcome::Built(t) => match T::of_view(elems.last()) {
                Outcome::Built(h) => Outcome::Built(t.push(h)),
                Outcome::Mismatch => Outcome::Mismatch,
                Outcome::Refused => Outcome::Refused,
            },
            Outcome::Mismatch => Outcome::Mismatch,
            Outcome::Refused => Outcome::Refused,
        }
    }
}

proof fn lemma_elems_fail<T: FromValue>(elems: Seq<ValueView>, i: int)
    requires
        0 <= i < elems.len(),
        elems_of_view::<T>(elems.take(i)) is Built,
        !(T::of_view(elems[i]) is Built),
    ensures
        T::of_view(elems[i]) is Mismatch ==> elems_of_view::<T>(elems) is Mismatch,
        T::of_view(elems[i]) is Refused ==> elems_of_view::<T>(elems) is Refused,
    decreases elems.len(),
{
    if i == elems.len() - 1 {
        assert(elems.take(i) =~= elems.drop_last());
        assert(elems.last() == elems[i]);
    } else {
        assert(elems.drop_last().take(i) =~= elems.take(i));
        assert(elems.drop_last()[i] == elems[i]);
        lemma_elems_fail::<T>(elems.drop_last(), i);
    }
}

/// Adapt every element of an array, in order and fail-fast.
pub fn convert_elems<T: FromValue>(items: &Vec<TomlValue>) -> (r: Result<Vec<T>, AdaptError>)
    ensures
        match elems_of_view::<T>(views_of_seq(items@)) {
            Outcome::Built(vs) => r matches Ok(out) && out@.len() == vs.len() && forall|i: int|
                0 <= i < vs.len() ==> (#[trigger] out@[i])@ == vs[i],
            Outcome::Mismatch => r matches Err(e) && e is TypeMismatch,
            Outcome::Refused => r matches Err(e) && e is ConstructorFailure,
        },
{
    proof {
        lemma_views_of_seq(items@);
    }
    let ghost ev = views_of_seq(items@);
    let mut out: Vec<T> = Vec::new();
    let n = items.len();
    let mut i: usize = 0;
    proof {
        assert(ev.take(0) =~= Seq::empty());
    }
    while i < n
        invariant
            n == items.len(),
            i <= n,
            ev == views_of_seq(items@),
            ev.len() == n,
            forall|j: int| 0 <= j < n ==> ev[j] == (#[trigger] items@[j])@,
            out@.len() == i,
            elems_of_view::<T>(ev.take(i as int)) matches Outcome::Built(vs) && vs.len() == i
                && forall|j: int| 0 <= j < i ==> (#[trigger] out@[j])@ == vs[j],
        decreases n - i,
    {
        match T::of_value(&items[i]) {
            Ok(x) => {
                proof {
                    let vs = elems_of_view::<T>(ev.take(i as int))->Built_0;
                    assert(ev.take(i as int + 1).drop_last() =~= ev.take(i as int));
                    assert(ev.take(i as int + 1).last() == ev[i as int]);
                    assert(elems_of_view::<T>(ev.take(i as int + 1)) == Outcome::<Seq<
                        <T as View>::V,
                    >>::Built(vs.push(x@)));
                }
                out.push(x);
            },
            Err(e) => {
                proof {
                    lemma_elems_fail::<T>(ev, i as int);
                    assert(ev.take(n as int) =~= ev);
                }
                return Err(e);
            },
        }
        i = i + 1;
    }
    proof {
        assert(ev.take(n as int) =~= ev);
    }
    Ok(out)
}

/// A homogeneous array: every element adapted to the one type `T`.
///
/// Mixed-type arrays are not representable; a table should be used instead.
#[derive(Debug)]
pub struct TomlArray<T> {
    pub array: Vec<T>,
}

impl<T: View> View for TomlArray<T> {
    type V = Seq<<T as View>::V>;

    open spec fn view(&self) -> Seq<<T as View>::V> {
        Seq::new(self.array@.len(), |i: int| self.array@[i]@)
    }
}

impl<T: FromValue> FromValue for TomlArray<T> {
    open spec fn of_view(v: ValueView) -> Outcome<Seq<<T as View>::V>> {
        match v {
            ValueView::Array(elems) => elems_of_view::<T>(elems),
            _ => Outcome::Mismatch,
        }
    }

    fn of_value(raw: &TomlValue) -> (r: Result<Self, AdaptError>) {
        match raw {
            TomlValue::Array(items) => match convert_elems::<T>(items) {
                Ok(arr) => {
                    let result = TomlArray { array: arr };
                    proof {
                        let vs = elems_of_view::<T>(views_of_seq(items@))->Built_0;
                        assert(result@ =~= vs);
                    }
                    Ok(result)
                },
                Err(e) => Err(e),
            },
            _ => Err(AdaptError::TypeMismatch),
        }
    }
}

/// A 64-bit float carried as its IEEE-754 bit pattern.
#[derive(Clone, Copy, PartialEq, Eq, Debug)]
pub struct TomlFloat {
    pub bits: u64,
}

impl View for TomlFloat {
    type V = u64;

    open spec fn view(&self) -> u64 {
        self.bits
    }
}

impl FromValue for String {
    open spec fn of_view(v: ValueView) -> Outcome<Seq<char>> {
        match v {
            ValueView::Str(s) => Outcome::Built(s),
            _ => Outcome::Mismatch,
        }
    }

    fn of_value(raw: &TomlValue) -> (r: Result<Self, AdaptError>) {
        match raw {
            TomlValue::Str(s) => Ok(s.clone()),
            _ => Err(AdaptError::TypeMismatch),
        }
    }
}

impl FromValue for i64 {
    open spec fn of_view(v: ValueView) -> Outcome<i64> {
        match v {
            ValueView::Int(i) => Outcome::Built(i),
            _ => Outcome::Mismatch,
        }
    }

    fn of_value(raw: &TomlValue) -> (r: Result<Self, AdaptError>) {
        match raw {
            TomlValue::Int(i) => Ok(*i),
            _ => Err(AdaptError::TypeMismatch),
        }
    }
}

impl FromValue for bool {
    open spec fn of_view(v: ValueView) -> Outcome<bool> {
        match v {
            ValueView::Bool(b) => Outcome::Built(b),
            _ => Outcome::Mismatch,
        }
    }

    fn of_value(raw: &TomlValue) -> (r: Result<Self, AdaptError>) {
        match raw {
            TomlValue::Bool(b) => Ok(*b),
            _ => Err(AdaptError::TypeMismatch),
        }
    }
}

impl FromValue for TomlFloat {
    open spec fn of_view(v: ValueView) -> Outcome<u64> {
        match v {
            ValueView::Float(bits) => Outcome::Built(bits),
            _ => Outcome::Mismatch,
        }
    }

    fn of_value(raw: &TomlValue) -> (r: Result<Self, AdaptError>) {
        match raw {
            TomlValue::Float(bits) => Ok(TomlFloat { bits: *bits }),
            _ => Err(AdaptError::TypeMismatch),
        }
    }
}

impl View for Datetime {
    type V = Datetime;

    open spec fn view(&self) -> Datetime {
        *self
    }
}

impl FromValue for Datetime {
    open spec fn of_view(v: ValueView) -> Outcome<Datetime> {
        match v {
            ValueView::Datetime(d) => Outcome::Built(d),
            _ => Outcome::Mismatch,
        }
    }

    fn of_value(raw: &TomlValue) -> (r: Result<Self, AdaptError>) {
        match raw {
            TomlValue::Datetime(d) => Ok(*d),
            _ => Err(AdaptError::TypeMismatch),
        }
    }
}

impl FromValue for TomlValue {
    open spec fn of_view(v: ValueView) -> Outcome<ValueView> {
        Outcome::Built(v)
    }

    fn of_value(raw: &TomlValue) -> (r: Result<Self, AdaptError>) {
        Ok(raw.deep_clone())
    }
}

/// The outcome of adapting the entry named `key` of a table, a missing key
/// being a structural mismatch.
pub open spec fn field_of_view<T: FromValue>(
    entries: Seq<(Seq<char>, ValueView)>,
    key: Seq<char>,
) -> Outcome<<T as View>::V> {
    match table_lookup(entries, key) {
        Some(v) => T::of_view(v),
        None => Outcome::Mismatch,
    }
}

/// Adapt the entry named `key` of a table.
pub fn convert_field<T: FromValue>(entries: &Vec<(String, TomlValue)>, key: &String) -> (r: Result<
    T,
    AdaptError,
>)
    ensures
        outcome_matches::<T>(field_of_view::<T>(views_of_entries(entries@), key@), r),
{
    match table_get(entries, key) {
        Some(v) => T::of_value(v),
        None => Err(AdaptError::TypeMismatch),
    }
}

/// The views of the given integers as integer document values, in order.
pub open spec fn int_views(xs: Seq<i64>) -> Seq<ValueView> {
    xs.map_values(|x: i64| ValueView::Int(x))
}

/// Encode integers as a homogeneous array value.
pub fn encode_int_array(xs: &Vec<i64>) -> (v: TomlValue)
    ensures
        v@ == ValueView::Array(int_views(xs@)),
{
    let mut items: Vec<TomlValue> = Vec::new();
    let n = xs.len();
    let mut i: usize = 0;
    while i < n
        invariant
            n == xs.len(),
            i <= n,
            items@.len() == i,
            forall|j: int| 0 <= j < i ==> (#[trigger] items@[j]) == TomlValue::Int(xs@[j]),
        decreases n - i,
    {
        items.push(TomlValue::Int(xs[i]));
        i = i + 1;
    }
    proof {
        lemma_views_of_seq(items@);
        assert forall|j: int| 0 <= j < n implies views_of_seq(items@)[j] == int_views(xs@)[j] by {
            assert(view_of(items@[j]) == ValueView::Int(xs@[j]));
        }
        assert(views_of_seq(items@) =~= int_views(xs@));
    }
    TomlValue::Array(items)
}

/// Law: an encoded homogeneous integer array decodes back to the original
/// integers, in the same order.
pub proof fn lemma_int_array_round_trip(xs: Seq<i64>)
    ensures
        elems_of_view::<i64>(int_views(xs)) == Outcome::<Seq<i64>>::Built(xs),
    decreases xs.len(),
{
    assert(int_views(xs).len() == xs.len());
    if xs.len() == 0 {
        assert(int_views(xs) =~= Seq::empty());
    } else {
        lemma_int_array_round_trip(xs.drop_last());
        assert(int_views(xs).drop_last() =~= int_views(xs.drop_last()));
        assert(int_views(xs).last() == ValueView::Int(xs.last()));
        assert(elems_of_view::<i64>(int_views(xs)) == Outcome::<Seq<i64>>::Built(
            xs.drop_last().push(xs.last()),
        ));
        assert(xs.drop_last().push(xs.last()) =~= xs);
    }
}

} // verus!
