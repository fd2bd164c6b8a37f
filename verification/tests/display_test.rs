use ryde::array::DynamicArray;
use ryde::display::{display, print_line, Piece, MAX_DEPTH};
use ryde::heap::Heap;
use ryde::object::Object;
use ryde::value::VmValue;

fn text(s: &str) -> VmValue {
    VmValue::String(s.to_string())
}

/// Joins pieces as a printer does: text as it stands, a float in decimal.
fn joined(pieces: &[Piece]) -> String {
    let mut out = String::new();
    for piece in pieces {
        match piece {
            Piece::Text(s) => out.push_str(s),
            Piece::Float(bits) => out.push_str(&format!("{}", f64::from_bits(*bits))),
        }
    }
    out
}

fn shown(heap: &Heap, v: &VmValue) -> String {
    joined(&display(heap, v))
}

#[test]
fn primitives_are_shown_plainly() {
    let heap = Heap::new();
    assert_eq!(shown(&heap, &VmValue::Int(-42)), "-42");
    assert_eq!(shown(&heap, &VmValue::Int(0)), "0");
    assert_eq!(shown(&heap, &VmValue::Int(i32::MIN)), "-2147483648");
    assert_eq!(shown(&heap, &VmValue::Boolean(true)), "true");
    assert_eq!(shown(&heap, &VmValue::Boolean(false)), "false");
    assert_eq!(shown(&heap, &VmValue::Null), "null");
    assert_eq!(shown(&heap, &text("hi")), "\"hi\"");
    assert_eq!(shown(&heap, &VmValue::Float(1.5f64.to_bits())), "1.5");
}

#[test]
fn a_float_is_a_piece_of_its_own() {
    let heap = Heap::new();
    let pieces = display(&heap, &VmValue::Float(420.69f64.to_bits()));
    assert_eq!(pieces.len(), 1);
    match &pieces[0] {
        Piece::Float(bits) => assert_eq!(*bits, 420.69f64.to_bits()),
        Piece::Text(s) => panic!("a float is not rendered as text, got {}", s),
    }
}

#[test]
fn printing_leaves_a_string_unquoted() {
    let heap = Heap::new();
    assert_eq!(joined(&print_line(&heap, &text("hi"))), "hi");
    assert_eq!(joined(&print_line(&heap, &VmValue::Int(7))), "7");
    assert_eq!(joined(&print_line(&heap, &VmValue::Null)), "null");
}

#[test]
fn a_short_array_stands_on_one_line() {
    let mut heap = Heap::new();
    let array = DynamicArray::new(&mut heap);
    let value = VmValue::DynamicArray(array);
    assert_eq!(shown(&heap, &value), "[]");
    array.push(&mut heap, VmValue::Int(1));
    assert_eq!(shown(&heap, &value), "[1]");
    array.push(&mut heap, text("two"));
    assert_eq!(shown(&heap, &value), "[1, \"two\"]");
    assert_eq!(joined(&print_line(&heap, &value)), "[1, \"two\"]");
}

#[test]
fn a_long_array_has_each_element_on_its_own_line() {
    let mut heap = Heap::new();
    let array = DynamicArray::new(&mut heap);
    array.push(&mut heap, VmValue::Int(1));
    array.push(&mut heap, VmValue::Int(2));
    array.push(&mut heap, VmValue::Float(0.5f64.to_bits()));
    assert_eq!(shown(&heap, &VmValue::DynamicArray(array)), "[\n  1, \n  2, \n  0.5\n]");
}

#[test]
fn a_long_array_in_a_long_array_is_indented_further() {
    let mut heap = Heap::new();
    let inner = DynamicArray::new(&mut heap);
    for i in 1..=3 {
        inner.push(&mut heap, VmValue::Int(i));
    }
    let outer = DynamicArray::new(&mut heap);
    outer.push(&mut heap, VmValue::DynamicArray(inner));
    outer.push(&mut heap, VmValue::Int(4));
    outer.push(&mut heap, VmValue::Int(5));
    assert_eq!(
        shown(&heap, &VmValue::DynamicArray(outer)),
        "[\n  [\n    1, \n    2, \n    3\n  ], \n  4, \n  5\n]"
    );
}

#[test]
fn a_long_array_in_a_short_array_starts_over() {
    let mut heap = Heap::new();
    let inner = DynamicArray::new(&mut heap);
    for i in 1..=3 {
        inner.push(&mut heap, VmValue::Int(i));
    }
    let outer = DynamicArray::new(&mut heap);
    outer.push(&mut heap, VmValue::DynamicArray(inner));
    assert_eq!(shown(&heap, &VmValue::DynamicArray(outer)), "[[\n  1, \n  2, \n  3\n]]");
}

#[test]
fn a_short_object_stands_on_one_line() {
    let mut heap = Heap::new();
    let object = Object::new(&mut heap);
    let value = VmValue::Object(object);
    assert_eq!(shown(&heap, &value), "{}");
    object.new_index(&mut heap, text("k"), VmValue::Int(1));
    assert_eq!(shown(&heap, &value), "{ [\"k\"]: 1 }");
    object.new_index(&mut heap, VmValue::Int(2), text("v"));
    assert_eq!(shown(&heap, &value), "{ [\"k\"]: 1, [2]: \"v\" }");
}

#[test]
fn a_long_object_has_each_entry_on_its_own_line() {
    let mut heap = Heap::new();
    let object = Object::new(&mut heap);
    object.new_index(&mut heap, text("a"), VmValue::Int(1));
    object.new_index(&mut heap, text("b"), VmValue::Null);
    object.new_index(&mut heap, text("c"), VmValue::Boolean(true));
    assert_eq!(
        shown(&heap, &VmValue::Object(object)),
        "{\n  [\"a\"]: 1, \n  [\"b\"]: null, \n  [\"c\"]: true\n}"
    );
}

#[test]
fn an_array_that_holds_itself_is_cut_short() {
    let mut heap = Heap::new();
    let array = DynamicArray::new(&mut heap);
    array.push(&mut heap, VmValue::DynamicArray(array));
    assert_eq!(shown(&heap, &VmValue::DynamicArray(array)), "[[[...]]]");
    let object = Object::new(&mut heap);
    object.new_index(&mut heap, text("me"), VmValue::Object(object));
    assert_eq!(
        shown(&heap, &VmValue::Object(object)),
        "{ [\"me\"]: { [\"me\"]: { [\"me\"]: {...} } } }"
    );
}

#[test]
fn nesting_without_a_loop_is_shown_in_full() {
    let mut heap = Heap::new();
    let mut value = VmValue::Int(7);
    let depth = 20;
    for _ in 0..depth {
        let array = DynamicArray::new(&mut heap);
        array.push(&mut heap, value);
        value = VmValue::DynamicArray(array);
    }
    let expected = format!("{}7{}", "[".repeat(depth), "]".repeat(depth));
    assert_eq!(shown(&heap, &value), expected);
    assert!(depth < MAX_DEPTH);
}

#[test]
fn inspect_takes_a_level_and_a_depth() {
    let mut heap = Heap::new();
    let array = DynamicArray::new(&mut heap);
    for i in 1..=3 {
        array.push(&mut heap, VmValue::Int(i));
    }
    let value = VmValue::DynamicArray(array);
    let mut out = Vec::new();
    value.inspect(&heap, 2, 1, &mut out);
    assert_eq!(joined(&out), "[\n    1, \n    2, \n    3\n  ]");
    let mut cut = Vec::new();
    value.inspect(&heap, 1, 0, &mut cut);
    assert_eq!(joined(&cut), "[...]");
}
