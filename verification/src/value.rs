//! The document value model.
//!
//! A [`TomlValue`] is one fully owned TOML value: a scalar, an array of values,
//! or a table of key/value entries in a fixed order.  Floats are carried as
//! their IEEE-754 bit pattern so that the model stays in plain integers.
//! The mathematical counterpart is [`ValueView`], which replaces the
//! executable containers by `Seq`.

use vstd::prelude::*;

verus! {

/// A calendar date, as a TOML datetime carries it.
#[derive(Clone, Copy, PartialEq, Eq, Debug)]
pub struct Date {
    pub year: u16,
    pub month: u8,
    pub day: u8,
}

/// A time of day, as a TOML datetime carries it.
#[derive(Clone, Copy, PartialEq, Eq, Debug)]
pub struct Time {
    pub hour: u8,
    pub minute: u8,
    pub second: Option<u8>,
    pub nanosecond: Option<u32>,
}

/// A timezone offset: UTC, or a signed number of minutes from it.
#[derive(Clone, Copy, PartialEq, Eq, Debug)]
pub enum Offset {
    Z,
    Custom { minutes: i16 },
}

/// A TOML timestamp: any combination of a date, a time and an offset.
#[derive(Clone, Copy, PartialEq, Eq, Debug)]
pub struct Datetime {
    pub date: Option<Date>,
    pub time: Option<Time>,
    pub offset: Option<Offset>,
}

/// One document value of any of the eight primitive categories.
#[derive(PartialEq, Debug)]
pub enum TomlValue {
    Str(String),
    Int(i64),
    /// The IEEE-754 bit pattern of a 64-bit float.
    Float(u64),
    Bool(bool),
    Datetime(Datetime),
    Array(Vec<TomlValue>),
    /// Key/value entries, in a fixed order.
    Table(Vec<(String, TomlValue)>),
}

/// The mathematical shape of a [`TomlValue`].
#[verifier::ext_equal]
pub enum ValueView {
    Str(Seq<char>),
    Int(i64),
    Float(u64),
    Bool(bool),
    Datetime(Datetime),
    Array(Seq<ValueView>),
    Table(Seq<(Seq<char>, ValueView)>),
}

/// The view of a single value.
pub open spec fn view_of(v: TomlValue) -> ValueView
    decreases v,
{
    match v {
        TomlValue::Str(s) => ValueView::Str(s@),
        TomlValue::Int(i) => ValueView::Int(i),
        TomlValue::Float(bits) => ValueView::Float(bits),
        TomlValue::Bool(b) => ValueView::Bool(b),
        TomlValue::Datetime(d) => ValueView::Datetime(d),
        TomlValue::Array(items) => ValueView::Array(views_of_seq(items@)),
        TomlValue::Table(entries) => ValueView::Table(views_of_entries(entries@)),
    }
}

/// The views of a sequence of values, in order.
pub open spec fn views_of_seq(s: Seq<TomlValue>) -> Seq<ValueView>
    decreases s,
{
    if s.len() == 0 {
        Seq::empty()
    } else {
        seq![view_of(s[0])] + views_of_seq(s.drop_first())
    }
}

/// The views of a sequence of table entries, in order.
pub open spec fn views_of_entries(s: Seq<(String, TomlValue)>) -> Seq<(Seq<char>, ValueView)>
    decreases s,
{
    if s.len() == 0 {
        Seq::empty()
    } else {
        seq![(s[0].0@, view_of(s[0].1))] + views_of_entries(s.drop_first())
    }
}

impl View for TomlValue {
    type V = ValueView;

    open spec fn view(&self) -> ValueView {
        view_of(*self)
    }
}

pub proof fn lemma_views_of_seq(s: Seq<TomlValue>)
    ensures
        views_of_seq(s).len() == s.len(),
        forall|i: int| 0 <= i < s.len() ==> views_of_seq(s)[i] == view_of(#[trigger] s[i]),
    decreases s.len(),
{
    if s.len() > 0 {
        lemma_views_of_seq(s.drop_first());
        assert forall|i: int| 0 <= i < s.len() implies views_of_seq(s)[i] == view_of(
            #[trigger] s[i],
        ) by {
            if i > 0 {
                assert(views_of_seq(s)[i] == views_of_seq(s.drop_first())[i - 1]);
                assert(s.drop_first()[i - 1] == s[i]);
            }
        }
    }
}

pub proof fn lemma_views_of_entries(s: Seq<(String, TomlValue)>)
    ensures
        views_of_entries(s).len() == s.len(),
        forall|i: int| 0 <= i < s.len() ==> views_of_entries(s)[i] == ((#[trigger] s[i]).0@,
        view_of(s[i].1)),
    decreases s.len(),
{
    if s.len() > 0 {
        lemma_views_of_entries(s.drop_first());
        assert forall|i: int| 0 <= i < s.len() implies views_of_entries(s)[i] == ((
        #[trigger] s[i]).0@, view_of(s[i].1)) by {
            if i > 0 {
                assert(views_of_entries(s)[i] == views_of_entries(s.drop_first())[i - 1]);
                assert(s.drop_first()[i - 1] == s[i]);
            }
        }
    }
}

/// The first entry of `entries` whose key is `key`, if any.
pub open spec fn table_lookup(entries: Seq<(Seq<char>, ValueView)>, key: Seq<char>) -> Option<
    ValueView,
>
    decreases entries.len(),
{
    if entries.len() == 0 {
        None
    } else if entries[0].0 == key {
        Some(entries[0].1)
    } else {
        table_lookup(entries.drop_first(), key)
    }
}

proof fn lemma_table_lookup_step(entries: Seq<(Seq<char>, ValueView)>, key: Seq<char>, i: int)
    requires
        0 <= i < entries.len(),
        entries[i].0 != key,
    ensures
        table_lookup(entries.skip(i), key) == table_lookup(entries.skip(i + 1), key),
{
    assert(entries.skip(i).drop_first() =~= entries.skip(i + 1));
    assert(entries.skip(i)[0] == entries[i]);
}

impl TomlValue {
    /// A fully owned copy with the same view.
    #[verifier::loop_isolation(false)]
    pub fn deep_clone(&self) -> (r: TomlValue)
        ensures
            r@ == self@,
        decreases *self,
    {
        match self {
            TomlValue::Str(s) => TomlValue::Str(s.clone()),
            TomlValue::Int(i) => TomlValue::Int(*i),
            TomlValue::Float(bits) => TomlValue::Float(*bits),
            TomlValue::Bool(b) => TomlValue::Bool(*b),
            TomlValue::Datetime(d) => TomlValue::Datetime(*d),
            TomlValue::Array(items) => {
                let mut out: Vec<TomlValue> = Vec::new();
                let n = items.len();
                let mut i: usize = 0;
                while i < n
                    invariant
                        n == items.len(),
                        i <= n,
                        out@.len() == i,
                        forall|j: int| 0 <= j < i ==> view_of(#[trigger] out@[j]) == view_of(
                            items@[j],
                        ),
                    decreases n - i,
                {
                    proof {
                        assert(decreases_to!(*self => self->Array_0));
                        assert(decreases_to!(self->Array_0 => self->Array_0@));
                        assert(decreases_to!(self->Array_0@ => self->Array_0@[i as int]));
                        assert(decreases_to!(*self => items@[i as int]));
                    }
                    let c = items[i].deep_clone();
                    out.push(c);
                    i = i + 1;
                }
                proof {
                    lemma_views_of_seq(out@);
                    lemma_views_of_seq(items@);
                    assert forall|j: int| 0 <= j < out@.len() implies views_of_seq(out@)[j]
                        == views_of_seq(items@)[j] by {
                        assert(view_of(out@[j]) == view_of(items@[j]));
                    }
                    assert(views_of_seq(out@) =~= views_of_seq(items@));
                }
                TomlValue::Array(out)
            },
            TomlValue::Table(entries) => {
                let mut out: Vec<(String, TomlValue)> = Vec::new();
                let n = entries.len();
                let mut i: usize = 0;
                while i < n
                    invariant
                        n == entries.len(),
                        i <= n,
                        out@.len() == i,
                        forall|j: int| 0 <= j < i ==> (#[trigger] out@[j]).0@ == entries@[j].0@
                            && view_of(out@[j].1) == view_of(entries@[j].1),
                    decreases n - i,
                {
                    proof {
                        assert(decreases_to!(*self => self->Table_0));
                        assert(decreases_to!(self->Table_0 => self->Table_0@));
                        assert(decreases_to!(self->Table_0@ => self->Table_0@[i as int]));
                        assert(decreases_to!(self->Table_0@[i as int] => self->Table_0@[i as int].1));
                        assert(decreases_to!(*self => entries@[i as int].1));
                    }
                    let k = entries[i].0.clone();
                    let v = entries[i].1.deep_clone();
                    out.push((k, v));
                    i = i + 1;
                }
                proof {
                    lemma_views_of_entries(out@);
                    lemma_views_of_entries(entries@);
                    assert forall|j: int| 0 <= j < out@.len() implies views_of_entries(out@)[j]
                        == views_of_entries(entries@)[j] by {
                        assert(out@[j].0@ == entries@[j].0@);
                        assert(view_of(out@[j].1) == view_of(entries@[j].1));
                    }
                    assert(views_of_entries(out@) =~= views_of_entries(entries@));
                }
                TomlValue::Table(out)
            },
        }
    }

    /// The string payload, if this is a string value.
    pub fn as_str(&self) -> (r: Option<&String>)
        ensures
            match self@ {
                ValueView::Str(s) => r matches Some(x) && x@ == s,
                _ => r is None,
            },
    {
        match self {
            TomlValue::Str(s) => Some(s),
            _ => None,
        }
    }

    /// The integer payload, if this is an integer value.
    pub fn as_int(&self) -> (r: Option<i64>)
        ensures
            match self@ {
                ValueView::Int(i) => r == Some(i),
                _ => r is None,
            },
    {
        match self {
            TomlValue::Int(i) => Some(*i),
            _ => None,
        }
    }

    /// The float payload as its bit pattern, if this is a float value.
    pub fn as_float_bits(&self) -> (r: Option<u64>)
        ensures
            match self@ {
                ValueView::Float(bits) => r == Some(bits),
                _ => r is None,
            },
    {
        match self {
            TomlValue::Float(bits) => Some(*bits),
            _ => None,
        }
    }

    /// The boolean payload, if this is a boolean value.
    pub fn as_bool(&self) -> (r: Option<bool>)
        ensures
            match self@ {
                ValueView::Bool(b) => r == Some(b),
                _ => r is None,
            },
    {
        match self {
            TomlValue::Bool(b) => Some(*b),
            _ => None,
        }
    }

    /// The timestamp payload, if this is a datetime value.
    pub fn as_datetime(&self) -> (r: Option<Datetime>)
        ensures
            match self@ {
                ValueView::Datetime(d) => r == Some(d),
                _ => r is None,
            },
    {
        match self {
            TomlValue::Datetime(d) => Some(*d),
            _ => None,
        }
    }

    /// The element vector, if this is an array value.
    pub fn as_array(&self) -> (r: Option<&Vec<TomlValue>>)
        ensures
            match self@ {
                ValueView::Array(s) => r matches Some(a) && views_of_seq(a@) == s,
                _ => r is None,
            },
    {
        match self {
            TomlValue::Array(items) => Some(items),
            _ => None,
        }
    }

    /// The entry vector, if this is a table value.
    pub fn as_table(&self) -> (r: Option<&Vec<(String, TomlValue)>>)
        ensures
            match self@ {
                ValueView::Table(s) => r matches Some(es) && views_of_entries(es@) == s,
                _ => r is None,
            },
    {
        match self {
            TomlValue::Table(entries) => Some(entries),
            _ => None,
        }
    }
}

/// The first entry of `entries` named `key`, if any.
pub fn table_get<'a>(entries: &'a Vec<(String, TomlValue)>, key: &String) -> (r: Option<&'a TomlValue>)
    ensures
        match table_lookup(views_of_entries(entries@), key@) {
            Some(mv) => r matches Some(v) && v@ == mv,
            None => r is None,
        },
{
    proof {
        lemma_views_of_entries(entries@);
        assert(views_of_entries(entries@).skip(0) =~= views_of_entries(entries@));
    }
    let ghost ev = views_of_entries(entries@);
    let n = entries.len();
    let mut i: usize = 0;
    while i < n
        invariant
            n == entries.len(),
            i <= n,
            ev == views_of_entries(entries@),
            ev.len() == n,
            forall|j: int| 0 <= j < n ==> ev[j] == ((#[trigger] entries@[j]).0@, view_of(
                entries@[j].1,
            )),
            table_lookup(ev, key@) == table_lookup(ev.skip(i as int), key@),
        decreases n - i,
    {
        if entries[i].0 == *key {
            proof {
                assert(ev.skip(i as int)[0] == ev[i as int]);
            }
            return Some(&entries[i].1);
        }
        proof {
            lemma_table_lookup_step(ev, key@, i as int);
        }
        i = i + 1;
    }
    proof {
        assert(ev.skip(n as int) =~= Seq::empty());
    }
    None
}

} // verus!
