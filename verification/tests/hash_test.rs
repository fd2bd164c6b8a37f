use ryde::array::DynamicArray;
use ryde::hash::{digest_words, mix_word, PRIME, SEED};
use ryde::heap::Heap;
use ryde::object::Object;
use ryde::value::VmValue;

fn text(s: &str) -> VmValue {
    VmValue::String(s.to_string())
}

fn words(heap: &Heap, v: &VmValue) -> Vec<u64> {
    let mut out = Vec::new();
    v.feed(heap, 8, &mut out);
    out
}

fn expected_digest(words: &[u64]) -> u64 {
    let mut h = SEED;
    for w in words {
        h = (h ^ w).wrapping_mul(PRIME);
    }
    h
}

#[test]
fn a_word_is_mixed_in_by_xor_and_multiplication() {
    assert_eq!(mix_word(SEED, 0), SEED.wrapping_mul(PRIME));
    assert_eq!(mix_word(0, 1), PRIME);
    assert_eq!(mix_word(1, 1), 0);
    assert_eq!(mix_word(u64::MAX, 0), u64::MAX.wrapping_mul(PRIME));
    assert_eq!(mix_word(SEED, 0x61), 0xaf63dc4c8601ec8c);
}

#[test]
fn the_digest_folds_the_words() {
    assert_eq!(digest_words(&vec![]), SEED);
    for sample in [vec![1u64], vec![1, 2, 3], vec![u64::MAX, 0, 7, 7]] {
        assert_eq!(digest_words(&sample), expected_digest(&sample));
    }
    assert_ne!(digest_words(&vec![1, 2]), digest_words(&vec![2, 1]));
}

#[test]
fn what_primitives_feed() {
    let heap = Heap::new();
    assert_eq!(words(&heap, &VmValue::Float(1.5f64.to_bits())), vec![0, 1.5f64.to_bits()]);
    assert_eq!(words(&heap, &VmValue::Int(7)), vec![1, 7]);
    assert_eq!(words(&heap, &VmValue::Int(-1)), vec![1, 0xFFFF_FFFF]);
    assert_eq!(words(&heap, &text("hé")), vec![2, 3, b'h' as u64, 0xC3, 0xA9]);
    assert_eq!(words(&heap, &text("")), vec![2, 0]);
    assert_eq!(words(&heap, &VmValue::Boolean(true)), vec![3, 1]);
    assert_eq!(words(&heap, &VmValue::Boolean(false)), vec![3, 0]);
    assert_eq!(words(&heap, &VmValue::Null), vec![6]);
}

#[test]
fn what_containers_feed() {
    let mut heap = Heap::new();
    let array = DynamicArray::new(&mut heap);
    array.push(&mut heap, VmValue::Int(1));
    array.push(&mut heap, VmValue::Null);
    assert_eq!(words(&heap, &VmValue::DynamicArray(array)), vec![4, 2, 1, 1, 6]);
    let object = Object::new(&mut heap);
    object.new_index(&mut heap, VmValue::Int(2), VmValue::Boolean(true));
    object.new_index(&mut heap, VmValue::Int(1), VmValue::DynamicArray(array));
    assert_eq!(
        words(&heap, &VmValue::Object(object)),
        vec![5, 2, 1, 1, 4, 2, 1, 1, 6, 1, 2, 3, 1]
    );
    // without fuel a container feeds its length only
    let mut out = Vec::new();
    VmValue::Object(object).feed(&heap, 0, &mut out);
    assert_eq!(out, vec![5, 2]);
}

#[test]
fn the_hash_is_the_digest_of_what_is_fed() {
    let mut heap = Heap::new();
    let array = DynamicArray::new_vm_value(&mut heap);
    array.as_array().unwrap().push(&mut heap, text("x"));
    for value in [VmValue::Int(3), text("abc"), VmValue::Null, array] {
        assert_eq!(value.hash(&heap), expected_digest(&words(&heap, &value)));
    }
    assert_eq!(VmValue::Null.hash(&heap), (SEED ^ 6).wrapping_mul(PRIME));
}

#[test]
fn the_hash_does_not_depend_on_the_order_of_writing() {
    let mut heap = Heap::new();
    let a = Object::new(&mut heap);
    a.new_index(&mut heap, text("x"), VmValue::Int(1));
    a.new_index(&mut heap, text("y"), VmValue::Int(2));
    a.new_index(&mut heap, text("z"), VmValue::Int(3));
    let b = Object::new(&mut heap);
    b.new_index(&mut heap, text("z"), VmValue::Int(3));
    b.new_index(&mut heap, text("x"), VmValue::Int(1));
    b.new_index(&mut heap, text("y"), VmValue::Int(2));
    let c = Object::new(&mut heap);
    c.new_index(&mut heap, text("x"), VmValue::Int(1));
    c.new_index(&mut heap, text("y"), VmValue::Int(2));
    c.new_index(&mut heap, text("z"), VmValue::Int(4));
    assert_eq!(VmValue::Object(a).hash(&heap), VmValue::Object(b).hash(&heap));
    assert_ne!(VmValue::Object(a).hash(&heap), VmValue::Object(c).hash(&heap));
}

#[test]
fn values_of_different_variants_hash_differently() {
    let heap = Heap::new();
    assert_ne!(VmValue::Int(1).hash(&heap), VmValue::Float(1).hash(&heap));
    assert_ne!(VmValue::Int(1).hash(&heap), VmValue::Boolean(true).hash(&heap));
    assert_ne!(VmValue::Null.hash(&heap), text("").hash(&heap));
}

#[test]
fn an_array_that_holds_itself_has_a_hash() {
    let mut heap = Heap::new();
    let array = DynamicArray::new(&mut heap);
    array.push(&mut heap, VmValue::DynamicArray(array));
    let mut out = Vec::new();
    VmValue::DynamicArray(array).feed(&heap, 2, &mut out);
    assert_eq!(out, vec![4, 1, 4, 1, 4, 1]);
    assert_eq!(VmValue::DynamicArray(array).hash(&heap), expected_digest(&out));
}
