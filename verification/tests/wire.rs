use fsds_rs::scalar::Double;
use fsds_rs::wire::{Integer, Value};

#[test]
fn integer_from_unsigned() {
    let n = Integer::from_u64(u64::MAX);
    assert_eq!(n.as_u64(), Some(u64::MAX));
    assert_eq!(n.as_i64(), None);
    assert_eq!(n.value(), u64::MAX as i128);
    let zero = Integer::from_u64(0);
    assert_eq!(zero.as_u64(), Some(0));
    assert_eq!(zero.as_i64(), Some(0));
}

#[test]
fn integer_from_signed() {
    let n = Integer::from_i64(i64::MIN);
    assert_eq!(n.as_i64(), Some(i64::MIN));
    assert_eq!(n.as_u64(), None);
    assert_eq!(n.value(), i64::MIN as i128);
    let m = Integer::from_i64(-1);
    assert_eq!(m.as_u64(), None);
    assert_eq!(m.as_i64(), Some(-1));
    let p = Integer::from_i64(i64::MAX);
    assert_eq!(p.as_u64(), Some(i64::MAX as u64));
    assert_eq!(p.as_i64(), Some(i64::MAX));
}

#[test]
fn integer_just_above_the_signed_range() {
    let n = Integer::from_u64(i64::MAX as u64 + 1);
    assert_eq!(n.as_i64(), None);
    assert_eq!(n.as_u64(), Some(9_223_372_036_854_775_808));
}

#[test]
fn integer_is_one_number_however_written() {
    assert_eq!(Integer::from_i64(5), Integer::from_u64(5));
    assert!(Integer::from_i64(5).same(&Integer::from_u64(5)));
    assert!(!Integer::from_i64(-5).same(&Integer::from_u64(5)));
    assert_ne!(Integer::from_i64(-5), Integer::from_u64(5));
}

#[test]
fn variants_are_never_read_as_one_another() {
    let one_int = Value::Integer(Integer::from_u64(1));
    let one_float = Value::Float(Double::from_bits(1.0f64.to_bits()));
    assert_ne!(one_int, one_float);
    assert_ne!(Value::Boolean(true), one_int);
    assert_ne!(Value::Nil, Value::Boolean(false));
    assert_ne!(Value::String("a".to_string()), Value::Binary(vec![97]));
    assert_ne!(Value::Array(vec![]), Value::Mapping(vec![]));
}

#[test]
fn arrays_and_maps_keep_their_order() {
    let a = Value::Array(vec![Value::Nil, Value::Boolean(true)]);
    let b = Value::Array(vec![Value::Boolean(true), Value::Nil]);
    assert_ne!(a, b);
    let m = Value::Mapping(vec![
        ("a".to_string(), Value::Nil),
        ("b".to_string(), Value::Boolean(true)),
    ]);
    let n = Value::Mapping(vec![
        ("b".to_string(), Value::Boolean(true)),
        ("a".to_string(), Value::Nil),
    ]);
    assert_ne!(m, n);
    match m {
        Value::Mapping(entries) => {
            assert_eq!(entries[0].0, "a");
            assert_eq!(entries[1].0, "b");
        },
        _ => panic!("a map stays a map"),
    }
}

#[test]
fn a_map_may_repeat_a_key() {
    let m = Value::Mapping(vec![
        ("a".to_string(), Value::Nil),
        ("a".to_string(), Value::Boolean(true)),
    ]);
    match m {
        Value::Mapping(entries) => assert_eq!(entries.len(), 2),
        _ => panic!("a map stays a map"),
    }
}

fn nested() -> Value {
    Value::Mapping(vec![
        ("name".to_string(), Value::String("cone".to_string())),
        ("bytes".to_string(), Value::Binary(vec![0, 1, 255])),
        (
            "items".to_string(),
            Value::Array(vec![
                Value::Nil,
                Value::Boolean(true),
                Value::Integer(Integer::from_i64(-7)),
                Value::Float(Double::from_bits(2.5f64.to_bits())),
                Value::Mapping(vec![("inner".to_string(), Value::Array(vec![]))]),
            ]),
        ),
    ])
}

#[test]
fn a_value_equals_itself_and_its_copy() {
    let v = nested();
    assert!(v.same(&v));
    let copy = v.clone();
    assert!(copy.same(&v));
    assert_eq!(copy, v);
    assert_eq!(nested(), nested());
}

#[test]
fn a_copy_is_independent_of_what_it_was_copied_from() {
    let v = Value::Array(vec![Value::String("a".to_string())]);
    let mut copy = v.clone();
    if let Value::Array(items) = &mut copy {
        items.push(Value::Nil);
    }
    assert_ne!(copy, v);
    assert_eq!(v, Value::Array(vec![Value::String("a".to_string())]));
}

#[test]
fn values_differ_by_any_part() {
    let v = nested();
    let mut other = nested();
    if let Value::Mapping(entries) = &mut other {
        entries[0].0 = "Name".to_string();
    }
    assert!(!v.same(&other));
    let mut other = nested();
    if let Value::Mapping(entries) = &mut other {
        entries[1].1 = Value::Binary(vec![0, 1, 254]);
    }
    assert!(!v.same(&other));
    let mut other = nested();
    if let Value::Mapping(entries) = &mut other {
        if let Value::Array(items) = &mut entries[2].1 {
            items.pop();
        }
    }
    assert!(!v.same(&other));
    let mut other = nested();
    if let Value::Mapping(entries) = &mut other {
        entries.swap(0, 1);
    }
    assert!(!v.same(&other));
}

#[test]
fn floats_compare_by_bits() {
    let nan = Value::Float(Double::nan());
    assert_eq!(nan, Value::Float(Double::nan()));
    let zero = Value::Float(Double::from_bits(0.0f64.to_bits()));
    let minus_zero = Value::Float(Double::from_bits((-0.0f64).to_bits()));
    assert_ne!(zero, minus_zero);
}

#[test]
fn binary_values_compare_byte_by_byte() {
    assert_eq!(Value::Binary(vec![]), Value::Binary(vec![]));
    assert_eq!(Value::Binary(vec![1, 2, 3]), Value::Binary(vec![1, 2, 3]));
    assert_ne!(Value::Binary(vec![1, 2, 3]), Value::Binary(vec![1, 2]));
    assert_ne!(Value::Binary(vec![1, 2, 3]), Value::Binary(vec![1, 2, 4]));
    assert_eq!(fsds_rs::wire::copy_bytes(&vec![9, 8, 7]), vec![9, 8, 7]);
}
