use ryde::array::DynamicArray;
use ryde::error::vm::VmError;
use ryde::float::{compare, is_whole, nan, negate, truncate, widen};
use ryde::heap::Heap;
use ryde::object::Object;
use ryde::order::{order_bytes, Order};
use ryde::value::{Relation, VmValue};

fn float(x: f64) -> VmValue {
    VmValue::Float(x.to_bits())
}

fn text(s: &str) -> VmValue {
    VmValue::String(s.to_string())
}

const SAMPLE_INTS: [i32; 15] = [
    0,
    1,
    -1,
    2,
    3,
    -7,
    255,
    256,
    65535,
    123456789,
    -123456789,
    i32::MAX,
    i32::MIN,
    i32::MAX - 1,
    i32::MIN + 1,
];

fn sample_floats() -> Vec<f64> {
    vec![
        0.0,
        -0.0,
        0.5,
        -0.5,
        1.0,
        -1.0,
        1.5,
        -1.5,
        2.5,
        0.1,
        123.0,
        1024.5,
        1e10,
        -1e10,
        2147483647.0,
        2147483647.5,
        2147483648.0,
        -2147483648.0,
        -2147483648.5,
        -2147483649.0,
        4503599627370496.0,
        4503599627370497.0,
        9007199254740993.0,
        1e300,
        -1e300,
        5e-324,
        f64::MIN_POSITIVE,
        f64::MAX,
        f64::INFINITY,
        f64::NEG_INFINITY,
        f64::NAN,
    ]
}

#[test]
fn truthiness_is_false_only_for_false_and_null() {
    assert!(!VmValue::Boolean(false).is_truthy());
    assert!(!VmValue::Null.is_truthy());
    assert!(VmValue::Boolean(true).is_truthy());
    assert!(VmValue::Int(0).is_truthy());
    assert!(float(0.0).is_truthy());
    assert!(text("").is_truthy());
    let mut heap = Heap::new();
    assert!(DynamicArray::new_vm_value(&mut heap).is_truthy());
    assert!(Object::new_vm_value(&mut heap).is_truthy());
}

#[test]
fn widen_gives_the_double_of_the_same_value() {
    for i in SAMPLE_INTS {
        assert_eq!(widen(i), (i as f64).to_bits(), "widen({})", i);
    }
}

#[test]
fn truncate_is_the_saturating_cast() {
    for x in sample_floats() {
        assert_eq!(truncate(x.to_bits()), x as i32, "truncate({})", x);
    }
}

#[test]
fn whole_means_a_zero_fractional_part() {
    for x in sample_floats() {
        assert_eq!(is_whole(x.to_bits()), x.fract() == 0.0, "is_whole({})", x);
    }
}

#[test]
fn negate_flips_the_sign() {
    for x in sample_floats() {
        assert_eq!(negate(x.to_bits()), (-x).to_bits(), "negate({})", x);
    }
}

#[test]
fn nan_is_recognised() {
    for x in sample_floats() {
        assert_eq!(nan(x.to_bits()), x.is_nan(), "nan({})", x);
    }
}

#[test]
fn compare_orders_doubles_as_their_values() {
    for a in sample_floats() {
        for b in sample_floats() {
            let expected = match a.partial_cmp(&b) {
                Some(std::cmp::Ordering::Less) => Some(Order::Less),
                Some(std::cmp::Ordering::Equal) => Some(Order::Equal),
                Some(std::cmp::Ordering::Greater) => Some(Order::Greater),
                None => None,
            };
            assert_eq!(compare(a.to_bits(), b.to_bits()), expected, "compare({}, {})", a, b);
        }
    }
}

#[test]
fn widened_round_trip_through_truncate() {
    for i in SAMPLE_INTS {
        assert_eq!(truncate(widen(i)), i);
        assert!(is_whole(widen(i)));
    }
}

#[test]
fn equality_promotes_numbers_and_falls_back_to_the_variant() {
    assert_eq!(VmValue::Int(3), VmValue::Int(3));
    assert_ne!(VmValue::Int(3), VmValue::Int(4));
    assert_eq!(VmValue::Int(3), float(3.0));
    assert_eq!(float(3.0), VmValue::Int(3));
    assert_ne!(VmValue::Int(3), float(3.5));
    assert_eq!(float(0.0), float(-0.0));
    assert_ne!(float(f64::NAN), float(f64::NAN));
    assert_eq!(text("a"), text("a"));
    assert_ne!(text("a"), text("b"));
    assert_eq!(VmValue::Boolean(true), VmValue::Boolean(true));
    assert_ne!(VmValue::Boolean(true), VmValue::Boolean(false));
    assert_eq!(VmValue::Null, VmValue::Null);
    assert_ne!(VmValue::Null, VmValue::Int(0));
    assert_ne!(text("1"), VmValue::Int(1));
    assert_ne!(VmValue::Boolean(true), VmValue::Int(1));
}

#[test]
fn two_arrays_are_equal_whatever_they_hold() {
    let mut heap = Heap::new();
    let a = DynamicArray::new(&mut heap);
    let b = DynamicArray::new(&mut heap);
    a.push(&mut heap, VmValue::Int(1));
    assert_eq!(VmValue::DynamicArray(a), VmValue::DynamicArray(b));
    let o = Object::new(&mut heap);
    let p = Object::new(&mut heap);
    o.new_index(&mut heap, VmValue::Int(1), VmValue::Int(2));
    assert_eq!(VmValue::Object(o), VmValue::Object(p));
    assert_ne!(VmValue::DynamicArray(a), VmValue::Object(o));
}

#[test]
fn ordering_of_numbers_and_strings() {
    assert_eq!(VmValue::Int(1).partial_order(&VmValue::Int(2)), Some(Order::Less));
    assert_eq!(VmValue::Int(2).partial_order(&VmValue::Int(2)), Some(Order::Equal));
    assert_eq!(VmValue::Int(3).partial_order(&VmValue::Int(2)), Some(Order::Greater));
    assert_eq!(VmValue::Int(1).partial_order(&float(1.5)), Some(Order::Less));
    assert_eq!(float(1.5).partial_order(&VmValue::Int(1)), Some(Order::Greater));
    assert_eq!(float(-2.0).partial_order(&float(-1.0)), Some(Order::Less));
    assert_eq!(float(f64::NAN).partial_order(&VmValue::Int(1)), None);
    assert_eq!(text("abc").partial_order(&text("abd")), Some(Order::Less));
    assert_eq!(text("abc").partial_order(&text("ab")), Some(Order::Greater));
    assert_eq!(text("").partial_order(&text("")), Some(Order::Equal));
    assert_eq!(text("é").partial_order(&text("z")), Some(Order::Greater));
}

#[test]
fn other_pairs_have_no_order() {
    assert_eq!(VmValue::Boolean(true).partial_order(&VmValue::Boolean(false)), None);
    assert_eq!(VmValue::Null.partial_order(&VmValue::Null), None);
    assert_eq!(text("1").partial_order(&VmValue::Int(1)), None);
    let mut heap = Heap::new();
    let a = DynamicArray::new_vm_value(&mut heap);
    let b = DynamicArray::new_vm_value(&mut heap);
    assert_eq!(a.partial_order(&b), None);
}

#[test]
fn relations_follow_equality_and_order() {
    let one = VmValue::Int(1);
    let two = VmValue::Int(2);
    assert!(one.relates(Relation::Less, &two));
    assert!(one.relates(Relation::LessOrEqual, &two));
    assert!(one.relates(Relation::LessOrEqual, &one));
    assert!(!one.relates(Relation::Greater, &two));
    assert!(two.relates(Relation::GreaterOrEqual, &one));
    assert!(one.relates(Relation::Equal, &one));
    assert!(one.relates(Relation::NotEqual, &two));
    // what is not ordered is in none of the order relations
    let t = VmValue::Boolean(true);
    assert!(!t.relates(Relation::Less, &t));
    assert!(!t.relates(Relation::LessOrEqual, &t));
    assert!(!t.relates(Relation::GreaterOrEqual, &t));
    assert!(t.relates(Relation::Equal, &t));
}

#[test]
fn bytes_are_ordered_lexicographically() {
    assert_eq!(order_bytes(&[], &[]), Order::Equal);
    assert_eq!(order_bytes(&[], &[0]), Order::Less);
    assert_eq!(order_bytes(&[0], &[]), Order::Greater);
    assert_eq!(order_bytes(&[1, 2, 3], &[1, 2, 4]), Order::Less);
    assert_eq!(order_bytes(&[1, 3], &[1, 2, 4]), Order::Greater);
    assert_eq!(order_bytes(&[1, 2], &[1, 2]), Order::Equal);
}

#[test]
fn same_key_is_the_same_content() {
    assert!(VmValue::Int(1).same_key(&VmValue::Int(1)));
    assert!(!VmValue::Int(1).same_key(&float(1.0)));
    assert!(float(1.0).same_key(&float(1.0)));
    assert!(!float(0.0).same_key(&float(-0.0)));
    assert!(!float(f64::NAN).same_key(&float(f64::NAN)));
    assert!(text("k").same_key(&text("k")));
    assert!(!text("k").same_key(&text("K")));
    assert!(VmValue::Null.same_key(&VmValue::Null));
    let mut heap = Heap::new();
    let a = DynamicArray::new_vm_value(&mut heap);
    let b = DynamicArray::new_vm_value(&mut heap);
    assert!(a.same_key(&a.clone()));
    assert!(!a.same_key(&b));
}

#[test]
fn kind_names() {
    let mut heap = Heap::new();
    assert_eq!(float(1.0).kind_name(), "Float");
    assert_eq!(VmValue::Int(1).kind_name(), "Int");
    assert_eq!(text("x").kind_name(), "String");
    assert_eq!(VmValue::Boolean(true).kind_name(), "Boolean");
    assert_eq!(DynamicArray::new_vm_value(&mut heap).kind_name(), "Array");
    assert_eq!(Object::new_vm_value(&mut heap).kind_name(), "Object");
    assert_eq!(VmValue::Null.kind_name(), "Null");
}

#[test]
fn typed_accessors_give_the_handle_or_the_fault() {
    let mut heap = Heap::new();
    let mut array = DynamicArray::new_vm_value(&mut heap);
    let mut object = Object::new_vm_value(&mut heap);
    assert_eq!(array.as_array().unwrap().id, 0);
    assert_eq!(object.as_object().unwrap().id, 0);
    assert_eq!(array.as_array_mut().unwrap().id, 0);
    assert_eq!(object.as_object_mut().unwrap().id, 0);
    match array.as_object() {
        Err(VmError::AttemptToIndex(actual)) => assert_eq!(actual, "Array"),
        _ => panic!("an array is no object"),
    }
    match VmValue::Int(1).as_array() {
        Err(VmError::AttemptToIndex(actual)) => assert_eq!(actual, "Int"),
        _ => panic!("an integer is no array"),
    }
    match VmValue::Null.as_array_mut() {
        Err(VmError::AttemptToIndex(actual)) => assert_eq!(actual, "Null"),
        _ => panic!("null is no array"),
    }
    match text("s").as_object_mut() {
        Err(VmError::AttemptToIndex(actual)) => assert_eq!(actual, "String"),
        _ => panic!("a string is no object"),
    }
}

#[test]
fn a_handle_written_through_the_accessor_stays() {
    let mut heap = Heap::new();
    let mut value = DynamicArray::new_vm_value(&mut heap);
    let other = DynamicArray::new(&mut heap);
    *value.as_array_mut().unwrap() = other;
    assert_eq!(value.as_array().unwrap().id, 1);
}

#[test]
fn a_clone_of_a_container_shares_it() {
    let mut heap = Heap::new();
    let a = DynamicArray::new_vm_value(&mut heap);
    let b = a.clone();
    b.as_array().unwrap().push(&mut heap, VmValue::Int(9));
    assert_eq!(a.as_array().unwrap().index(&heap, 0), VmValue::Int(9));
}
