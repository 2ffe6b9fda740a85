use kat::adapt::AdaptError;
use kat::adapt::FromValue;
use kat::adapt::TomlArray;
use kat::adapt::TomlFloat;
use kat::adapt::convert_adapted;
use kat::adapt::convert_bool;
use kat::adapt::convert_date;
use kat::adapt::convert_float;
use kat::adapt::convert_int;
use kat::adapt::convert_string;
use kat::adapt::encode_int_array;
use kat::records::BoolHolder;
use kat::records::Chained;
use kat::records::ChainedTwice;
use kat::records::DateHolder;
use kat::records::FloatHolder;
use kat::records::GlobalRecord;
use kat::records::IntHolder;
use kat::records::PositiveInt;
use kat::records::StringHolder;
use kat::records::TableRecord;
use kat::value::Date;
use kat::value::Datetime;
use kat::value::TomlValue;

fn str_value(s: &str) -> TomlValue {
    TomlValue::Str(s.to_string())
}

#[test]
fn string_category_accepts_strings() {
    let r: Result<StringHolder, AdaptError> = convert_string(&str_value("hello"));
    assert_eq!(r.unwrap().0, "hello");
}

#[test]
fn string_category_rejects_other_categories() {
    let r: Result<StringHolder, AdaptError> = convert_string(&TomlValue::Int(3));
    assert_eq!(r.unwrap_err(), AdaptError::TypeMismatch);
    let r: Result<StringHolder, AdaptError> = convert_string(&TomlValue::Bool(true));
    assert_eq!(r.unwrap_err(), AdaptError::TypeMismatch);
}

#[test]
fn int_category_accepts_integers() {
    let r: Result<IntHolder, AdaptError> = convert_int(&TomlValue::Int(187));
    assert_eq!(r.unwrap().0, 187);
}

#[test]
fn int_category_rejects_other_categories() {
    let r: Result<IntHolder, AdaptError> = convert_int(&str_value("187"));
    assert_eq!(r.unwrap_err(), AdaptError::TypeMismatch);
}

#[test]
fn float_category_carries_exact_bits() {
    let bits = 69.69f64.to_bits();
    let r: Result<FloatHolder, AdaptError> = convert_float(&TomlValue::Float(bits));
    assert_eq!(f64::from_bits(r.unwrap().0), 69.69);
}

#[test]
fn float_category_rejects_integers() {
    let r: Result<FloatHolder, AdaptError> = convert_float(&TomlValue::Int(69));
    assert_eq!(r.unwrap_err(), AdaptError::TypeMismatch);
}

#[test]
fn bool_category_accepts_booleans() {
    let r: Result<BoolHolder, AdaptError> = convert_bool(&TomlValue::Bool(false));
    assert!(!r.unwrap().0);
    let r: Result<BoolHolder, AdaptError> = convert_bool(&str_value("false"));
    assert_eq!(r.unwrap_err(), AdaptError::TypeMismatch);
}

#[test]
fn date_category_accepts_timestamps() {
    let d = Datetime {
        date: Some(Date { year: 1979, month: 5, day: 27 }),
        time: None,
        offset: None,
    };
    let r: Result<DateHolder, AdaptError> = convert_date(&TomlValue::Datetime(d));
    let held = r.unwrap().0;
    assert_eq!(held.date.unwrap().year, 1979);
    assert_eq!(held.date.unwrap().month, 5);
    assert_eq!(held.date.unwrap().day, 27);
    assert!(held.time.is_none());
}

#[test]
fn date_category_rejects_strings() {
    let r: Result<DateHolder, AdaptError> = convert_date(&str_value("1979-05-27"));
    assert_eq!(r.unwrap_err(), AdaptError::TypeMismatch);
}

#[test]
fn constructor_failure_is_reported() {
    let r: Result<PositiveInt, AdaptError> = convert_int(&TomlValue::Int(-5));
    match r.unwrap_err() {
        AdaptError::ConstructorFailure(m) => assert_eq!(m, "the value must not be negative"),
        AdaptError::TypeMismatch => panic!("expected a constructor failure"),
    }
    let r: Result<PositiveInt, AdaptError> = convert_int(&TomlValue::Int(5));
    assert_eq!(r.unwrap().0, 5);
}

#[test]
fn chained_type_deserializes_from_the_primitive() {
    let r: Result<Chained, AdaptError> = convert_adapted(&str_value("DYN"));
    assert_eq!(r.unwrap().0.0, "DYN");
}

#[test]
fn chained_type_propagates_the_primitive_mismatch() {
    let r: Result<Chained, AdaptError> = convert_adapted(&TomlValue::Int(1));
    assert_eq!(r.unwrap_err(), AdaptError::TypeMismatch);
}

#[test]
fn chaining_recurses_through_two_levels() {
    let r: Result<ChainedTwice, AdaptError> = ChainedTwice::of_value(&str_value("DEEP"));
    assert_eq!(r.unwrap().0.0.0, "DEEP");
    let r: Result<ChainedTwice, AdaptError> = ChainedTwice::of_value(&TomlValue::Bool(true));
    assert_eq!(r.unwrap_err(), AdaptError::TypeMismatch);
}

#[test]
fn int_array_round_trips_in_order() {
    let xs: Vec<i64> = vec![0, 1, 2, 3];
    let encoded = encode_int_array(&xs);
    let decoded: TomlArray<i64> = TomlArray::of_value(&encoded).unwrap();
    assert_eq!(decoded.array, vec![0, 1, 2, 3]);
}

#[test]
fn mixed_arrays_are_rejected() {
    let mixed = TomlValue::Array(vec![TomlValue::Int(1), str_value("two")]);
    let r: Result<TomlArray<i64>, AdaptError> = TomlArray::of_value(&mixed);
    assert_eq!(r.unwrap_err(), AdaptError::TypeMismatch);
}

#[test]
fn array_of_floats_adapts_elementwise() {
    let raw = TomlValue::Array(vec![
        TomlValue::Float(1.5f64.to_bits()),
        TomlValue::Float(2.5f64.to_bits()),
    ]);
    let r: TomlArray<TomlFloat> = TomlArray::of_value(&raw).unwrap();
    assert_eq!(f64::from_bits(r.array[0].bits), 1.5);
    assert_eq!(f64::from_bits(r.array[1].bits), 2.5);
}

#[test]
fn record_adapts_from_a_table() {
    let table = TomlValue::Table(vec![
        ("name".to_string(), str_value("GLOBAL")),
        ("value".to_string(), TomlValue::Int(69)),
    ]);
    let r: GlobalRecord = GlobalRecord::of_value(&table).unwrap();
    assert_eq!(r.name, "GLOBAL");
    assert_eq!(r.value, 69);
}

#[test]
fn record_rejects_a_missing_field() {
    let table = TomlValue::Table(vec![("name".to_string(), str_value("GLOBAL"))]);
    let r: Result<GlobalRecord, AdaptError> = GlobalRecord::of_value(&table);
    assert_eq!(r.unwrap_err(), AdaptError::TypeMismatch);
}

#[test]
fn record_rejects_a_field_of_the_wrong_category() {
    let table = TomlValue::Table(vec![
        ("name".to_string(), str_value("GLOBAL")),
        ("value".to_string(), str_value("69")),
    ]);
    let r: Result<TableRecord, AdaptError> = TableRecord::of_value(&table);
    assert_eq!(r.unwrap_err(), AdaptError::TypeMismatch);
}

#[test]
fn any_value_adapter_accepts_everything() {
    let raw = TomlValue::Array(vec![TomlValue::Int(1), str_value("two")]);
    let copy: TomlValue = TomlValue::of_value(&raw).unwrap();
    assert_eq!(copy, raw);
}
