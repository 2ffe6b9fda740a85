//! Ready-made record and holder types.
//!
//! One concrete type per adapter category, a chained pair, and the record
//! shapes the crate's own test-suite drives documents through: a globals
//! record, a test-case record with an `id`, and a record with a
//! table-valued field.

use vstd::prelude::*;

use crate::adapt::AdaptError;
use crate::adapt::FromAdapted;
use crate::adapt::FromTomlBool;
use crate::adapt::FromTomlDate;
use crate::adapt::FromTomlFloat;
use crate::adapt::FromTomlInt;
use crate::adapt::FromTomlString;
use crate::adapt::FromValue;
use crate::adapt::Outcome;
use crate::adapt::bool_of_view;
use crate::adapt::chained_of_view;
use crate::adapt::convert_adapted;
use crate::adapt::convert_bool;
use crate::adapt::convert_date;
use crate::adapt::convert_field;
use crate::adapt::convert_float;
use crate::adapt::convert_int;
use crate::adapt::convert_string;
use crate::adapt::date_of_view;
use crate::adapt::field_of_view;
use crate::adapt::float_of_view;
use crate::adapt::int_of_view;
use crate::adapt::string_of_view;
use crate::harness::Check;
use crate::value::Datetime;
use crate::value::TomlValue;
use crate::value::ValueView;

verus! {

/// A string wrapped by its declared construction from the string category.
#[derive(Debug)]
pub struct StringHolder(pub String);

impl View for StringHolder {
    type V = Seq<char>;

    open spec fn view(&self) -> Seq<char> {
        self.0@
    }
}

impl FromTomlString for StringHolder {
    open spec fn spec_of_string(s: Seq<char>) -> Option<Seq<char>> {
        Some(s)
    }

    fn of_toml_string(s: String) -> (r: Result<Self, String>) {
        Ok(StringHolder(s))
    }
}

impl FromValue for StringHolder {
    open spec fn of_view(v: ValueView) -> Outcome<Seq<char>> {
        string_of_view::<StringHolder>(v)
    }

    fn of_value(raw: &TomlValue) -> (r: Result<Self, AdaptError>) {
        convert_string::<StringHolder>(raw)
    }
}

/// An integer wrapped by its declared construction from the integer category.
#[derive(Debug)]
pub struct IntHolder(pub i64);

impl View for IntHolder {
    type V = i64;

    open spec fn view(&self) -> i64 {
        self.0
    }
}

impl FromTomlInt for IntHolder {
    open spec fn spec_of_int(i: i64) -> Option<i64> {
        Some(i)
    }

    fn of_toml_int(i: i64) -> (r: Result<Self, String>) {
        Ok(IntHolder(i))
    }
}

impl FromValue for IntHolder {
    open spec fn of_view(v: ValueView) -> Outcome<i64> {
        int_of_view::<IntHolder>(v)
    }

    fn of_value(raw: &TomlValue) -> (r: Result<Self, AdaptError>) {
        convert_int::<IntHolder>(raw)
    }
}

/// Float bits wrapped by their declared construction from the float category.
#[derive(Debug)]
pub struct FloatHolder(pub u64);

impl View for FloatHolder {
    type V = u64;

    open spec fn view(&self) -> u64 {
        self.0
    }
}

impl FromTomlFloat for FloatHolder {
    open spec fn spec_of_float(bits: u64) -> Option<u64> {
        Some(bits)
    }

    fn of_toml_float(bits: u64) -> (r: Result<Self, String>) {
        Ok(FloatHolder(bits))
    }
}

impl FromValue for FloatHolder {
    open spec fn of_view(v: ValueView) -> Outcome<u64> {
        float_of_view::<FloatHolder>(v)
    }

    fn of_value(raw: &TomlValue) -> (r: Result<Self, AdaptError>) {
        convert_float::<FloatHolder>(raw)
    }
}

/// A boolean wrapped by its declared construction from the boolean category.
#[derive(Debug)]
pub struct BoolHolder(pub bool);

impl View for BoolHolder {
    type V = bool;

    open spec fn view(&self) -> bool {
        self.0
    }
}

impl FromTomlBool for BoolHolder {
    open spec fn spec_of_bool(b: bool) -> Option<bool> {
        Some(b)
    }

    fn of_toml_bool(b: bool) -> (r: Result<Self, String>) {
        Ok(BoolHolder(b))
    }
}

impl FromValue for BoolHolder {
    open spec fn of_view(v: ValueView) -> Outcome<bool> {
        bool_of_view::<BoolHolder>(v)
    }

    fn of_value(raw: &TomlValue) -> (r: Result<Self, AdaptError>) {
        convert_bool::<BoolHolder>(raw)
    }
}

/// A timestamp wrapped by its declared construction from the timestamp
/// category.
#[derive(Debug)]
pub struct DateHolder(pub Datetime);

impl View for DateHolder {
    type V = Datetime;

    open spec fn view(&self) -> Datetime {
        self.0
    }
}

impl FromTomlDate for DateHolder {
    open spec fn spec_of_date(d: Datetime) -> Option<Datetime> {
        Some(d)
    }

    fn of_toml_date(d: Datetime) -> (r: Result<Self, String>) {
        Ok(DateHolder(d))
    }
}

impl FromValue for DateHolder {
    open spec fn of_view(v: ValueView) -> Outcome<Datetime> {
        date_of_view::<DateHolder>(v)
    }

    fn of_value(raw: &TomlValue) -> (r: Result<Self, AdaptError>) {
        convert_date::<DateHolder>(raw)
    }
}

/// A non-negative integer: its constructor refuses negative values, so
/// adapting one surfaces a constructor failure rather than a mismatch.
#[derive(Debug)]
pub struct PositiveInt(pub i64);

impl View for PositiveInt {
    type V = i64;

    open spec fn view(&self) -> i64 {
        self.0
    }
}

impl FromTomlInt for PositiveInt {
    open spec fn spec_of_int(i: i64) -> Option<i64> {
        if i >= 0 {
            Some(i)
        } else {
            None
        }
    }

    fn of_toml_int(i: i64) -> (r: Result<Self, String>) {
        if i >= 0 {
            Ok(PositiveInt(i))
        } else {
            Err("the value must not be negative".to_owned())
        }
    }
}

impl FromValue for PositiveInt {
    open spec fn of_view(v: ValueView) -> Outcome<i64> {
        int_of_view::<PositiveInt>(v)
    }

    fn of_value(raw: &TomlValue) -> (r: Result<Self, AdaptError>) {
        convert_int::<PositiveInt>(raw)
    }
}

/// A type constructible from [`StringHolder`]: document-deserializable by
/// chaining alone.
#[derive(Debug)]
pub struct Chained(pub StringHolder);

impl View for Chained {
    type V = Seq<char>;

    open spec fn view(&self) -> Seq<char> {
        self.0@
    }
}

impl FromAdapted<StringHolder> for Chained {
    open spec fn spec_of_adapted(b: Seq<char>) -> Option<Seq<char>> {
        Some(b)
    }

    fn of_adapted(b: StringHolder) -> (r: Result<Self, String>) {
        Ok(Chained(b))
    }
}

impl FromValue for Chained {
    open spec fn of_view(v: ValueView) -> Outcome<Seq<char>> {
        chained_of_view::<StringHolder, Chained>(v)
    }

    fn of_value(raw: &TomlValue) -> (r: Result<Self, AdaptError>) {
        convert_adapted::<StringHolder, Chained>(raw)
    }
}

/// A type constructible from [`Chained`]: a second chaining level on top of
/// the first, with no further declaration about the raw document value.
#[derive(Debug)]
pub struct ChainedTwice(pub Chained);

impl View for ChainedTwice {
    type V = Seq<char>;

    open spec fn view(&self) -> Seq<char> {
        self.0@
    }
}

impl FromAdapted<Chained> for ChainedTwice {
    open spec fn spec_of_adapted(b: Seq<char>) -> Option<Seq<char>> {
        Some(b)
    }

    fn of_adapted(b: Chained) -> (r: Result<Self, String>) {
        Ok(ChainedTwice(b))
    }
}

impl FromValue for ChainedTwice {
    open spec fn of_view(v: ValueView) -> Outcome<Seq<char>> {
        chained_of_view::<Chained, ChainedTwice>(v)
    }

    fn of_value(raw: &TomlValue) -> (r: Result<Self, AdaptError>) {
        convert_adapted::<Chained, ChainedTwice>(raw)
    }
}

/// The shape of a globals record: a name and a value.
#[derive(Debug)]
pub struct GlobalRecord {
    pub name: String,
    pub value: i64,
}

/// The view of a [`GlobalRecord`].
pub struct GlobalRecordView {
    pub name: Seq<char>,
    pub value: i64,
}

impl View for GlobalRecord {
    type V = GlobalRecordView;

    open spec fn view(&self) -> GlobalRecordView {
        GlobalRecordView { name: self.name@, value: self.value }
    }
}

impl GlobalRecord {
    /// A fully owned copy with the same view.
    pub fn dup(&self) -> (r: GlobalRecord)
        ensures
            r@ == self@,
    {
        GlobalRecord { name: self.name.clone(), value: self.value }
    }
}

impl FromValue for GlobalRecord {
    open spec fn of_view(v: ValueView) -> Outcome<GlobalRecordView> {
        match v {
            ValueView::Table(es) => match field_of_view::<String>(es, "name"@) {
                Outcome::Built(n) => match field_of_view::<i64>(es, "value"@) {
                    Outcome::Built(val) => Outcome::Built(GlobalRecordView { name: n, value: val }),
                    Outcome::Mismatch => Outcome::Mismatch,
                    Outcome::Refused => Outcome::Refused,
                },
                Outcome::Mismatch => Outcome::Mismatch,
                Outcome::Refused => Outcome::Refused,
            },
            _ => Outcome::Mismatch,
        }
    }

    fn of_value(raw: &TomlValue) -> (r: Result<Self, AdaptError>) {
        match raw {
            TomlValue::Table(es) => {
                let nkey: String = "name".to_owned();
                let name: String = convert_field::<String>(es, &nkey)?;
                let vkey: String = "value".to_owned();
                let value: i64 = convert_field::<i64>(es, &vkey)?;
                Ok(GlobalRecord { name, value })
            },
            _ => Err(AdaptError::TypeMismatch),
        }
    }
}

/// The shape of a test-case record: a name, a value and a position `id`.
#[derive(Debug)]
pub struct CaseRecord {
    pub test_name: String,
    pub value: i64,
    pub id: i64,
}

/// The view of a [`CaseRecord`].
pub struct CaseRecordView {
    pub test_name: Seq<char>,
    pub value: i64,
    pub id: i64,
}

impl View for CaseRecord {
    type V = CaseRecordView;

    open spec fn view(&self) -> CaseRecordView {
        CaseRecordView { test_name: self.test_name@, value: self.value, id: self.id }
    }
}

impl CaseRecord {
    /// A fully owned copy with the same view.
    pub fn dup(&self) -> (r: CaseRecord)
        ensures
            r@ == self@,
    {
        CaseRecord { test_name: self.test_name.clone(), value: self.value, id: self.id }
    }
}

impl FromValue for CaseRecord {
    open spec fn of_view(v: ValueView) -> Outcome<CaseRecordView> {
        match v {
            ValueView::Table(es) => match field_of_view::<String>(es, "test_name"@) {
                Outcome::Built(n) => match field_of_view::<i64>(es, "value"@) {
                    Outcome::Built(val) => match field_of_view::<i64>(es, "id"@) {
                        Outcome::Built(id) => Outcome::Built(
                            CaseRecordView { test_name: n, value: val, id: id },
                        ),
                        Outcome::Mismatch => Outcome::Mismatch,
                        Outcome::Refused => Outcome::Refused,
                    },
                    Outcome::Mismatch => Outcome::Mismatch,
                    Outcome::Refused => Outcome::Refused,
                },
                Outcome::Mismatch => Outcome::Mismatch,
                Outcome::Refused => Outcome::Refused,
            },
            _ => Outcome::Mismatch,
        }
    }

    fn of_value(raw: &TomlValue) -> (r: Result<Self, AdaptError>) {
        match raw {
            TomlValue::Table(es) => {
                let nkey: String = "test_name".to_owned();
                let test_name: String = convert_field::<String>(es, &nkey)?;
                let vkey: String = "value".to_owned();
                let value: i64 = convert_field::<i64>(es, &vkey)?;
                let ikey: String = "id".to_owned();
                let id: i64 = convert_field::<i64>(es, &ikey)?;
                Ok(CaseRecord { test_name, value, id })
            },
            _ => Err(AdaptError::TypeMismatch),
        }
    }
}

/// A record built from a table value: a name and a value.
#[derive(Debug)]
pub struct TableRecord {
    pub name: String,
    pub value: i64,
}

/// The view of a [`TableRecord`].
pub struct TableRecordView {
    pub name: Seq<char>,
    pub value: i64,
}

impl View for TableRecord {
    type V = TableRecordView;

    open spec fn view(&self) -> TableRecordView {
        TableRecordView { name: self.name@, value: self.value }
    }
}

impl FromValue for TableRecord {
    open spec fn of_view(v: ValueView) -> Outcome<TableRecordView> {
        match v {
            ValueView::Table(es) => match field_of_view::<String>(es, "name"@) {
                Outcome::Built(n) => match field_of_view::<i64>(es, "value"@) {
                    Outcome::Built(val) => Outcome::Built(TableRecordView { name: n, value: val }),
                    Outcome::Mismatch => Outcome::Mismatch,
                    Outcome::Refused => Outcome::Refused,
                },
                Outcome::Mismatch => Outcome::Mismatch,
                Outcome::Refused => Outcome::Refused,
            },
            _ => Outcome::Mismatch,
        }
    }

    fn of_value(raw: &TomlValue) -> (r: Result<Self, AdaptError>) {
        match raw {
            TomlValue::Table(es) => {
                let nkey: String = "name".to_owned();
                let name: String = convert_field::<String>(es, &nkey)?;
                let vkey: String = "value".to_owned();
                let value: i64 = convert_field::<i64>(es, &vkey)?;
                Ok(TableRecord { name, value })
            },
            _ => Err(AdaptError::TypeMismatch),
        }
    }
}

/// A globals record with a table-valued field beside a plain one.
#[derive(Debug)]
pub struct TableGlobalRecord {
    pub global_value: String,
    pub table: TableRecord,
}

/// The view of a [`TableGlobalRecord`].
pub struct TableGlobalRecordView {
    pub global_value: Seq<char>,
    pub table: TableRecordView,
}

impl View for TableGlobalRecord {
    type V = TableGlobalRecordView;

    open spec fn view(&self) -> TableGlobalRecordView {
        TableGlobalRecordView { global_value: self.global_value@, table: self.table@ }
    }
}

impl FromValue for TableGlobalRecord {
    open spec fn of_view(v: ValueView) -> Outcome<TableGlobalRecordView> {
        match v {
            ValueView::Table(es) => match field_of_view::<String>(es, "global_value"@) {
                Outcome::Built(gv) => match field_of_view::<TableRecord>(es, "table"@) {
                    Outcome::Built(t) => Outcome::Built(
                        TableGlobalRecordView { global_value: gv, table: t },
                    ),
                    Outcome::Mismatch => Outcome::Mismatch,
                    Outcome::Refused => Outcome::Refused,
                },
                Outcome::Mismatch => Outcome::Mismatch,
                Outcome::Refused => Outcome::Refused,
            },
            _ => Outcome::Mismatch,
        }
    }

    fn of_value(raw: &TomlValue) -> (r: Result<Self, AdaptError>) {
        match raw {
            TomlValue::Table(es) => {
                let gkey: String = "global_value".to_owned();
                let global_value: String = convert_field::<String>(es, &gkey)?;
                let tkey: String = "table".to_owned();
                let table: TableRecord = convert_field::<TableRecord>(es, &tkey)?;
                Ok(TableGlobalRecord { global_value, table })
            },
            _ => Err(AdaptError::TypeMismatch),
        }
    }
}

/// A checker that records each invocation's globals and case record, in
/// order.
pub struct ScenarioRecorder {
    pub seen: Vec<(GlobalRecord, CaseRecord)>,
}

impl View for ScenarioRecorder {
    type V = Seq<(GlobalRecordView, CaseRecordView)>;

    open spec fn view(&self) -> Seq<(GlobalRecordView, CaseRecordView)> {
        self.seen@.map_values(|p: (GlobalRecord, CaseRecord)| (p.0@, p.1@))
    }
}

impl Check<GlobalRecord, CaseRecord> for ScenarioRecorder {
    open spec fn next(
        pre: Seq<(GlobalRecordView, CaseRecordView)>,
        g: GlobalRecordView,
        t: CaseRecordView,
    ) -> Seq<(GlobalRecordView, CaseRecordView)> {
        pre.push((g, t))
    }

    fn check(&mut self, g: &GlobalRecord, t: &CaseRecord) {
        let pair = (g.dup(), t.dup());
        self.seen.push(pair);
        proof {
            assert(self@ =~= old(self)@.push((g@, t@)));
        }
    }
}

} // verus!
