//! Reading and writing what a key or a position names in a container.

use crate::array::DynamicArray;
use crate::error::vm::{Fault, VmError};
use crate::heap::{Heap, HeapView};
use crate::object::Object;
use crate::text::char_text;
use crate::value::{Value, VmValue};
use vstd::prelude::*;
use vstd::string::*;

verus! {

/// How the fault for a bad index describes it: an integer is a bad index only where it is
/// negative, anything else by its type.
pub open spec fn index_description(key: Value) -> Seq<char> {
    match key {
        Value::Int(_) => "negative Int"@,
        _ => key.kind_name(),
    }
}

/// The character of a string at a position, as a string of its own; `Null` beyond the end.
pub open spec fn spec_string_at(s: Seq<char>, i: int) -> Value {
    if 0 <= i < s.len() {
        Value::Str(seq![s[i]])
    } else {
        Value::Null
    }
}

/// What indexing a value by a key reads. An array and a string take an integer that is not
/// negative and give `Null` beyond their end; an object takes any key and gives `Null` for
/// one that it does not have; what cannot be indexed reads as `Null`.
pub open spec fn spec_read_index(heap: HeapView, container: Value, key: Value) -> Result<
    Value,
    Fault,
> {
    match container {
        Value::Array(id) => match key {
            Value::Int(i) if i >= 0 => Ok(heap.array_read(id, i as int)),
            _ => Err(Fault::InvalidIndexType(index_description(key))),
        },
        Value::Object(id) => Ok(heap.object_read(id, key)),
        Value::Str(s) => match key {
            Value::Int(i) if i >= 0 => Ok(spec_string_at(s, i as int)),
            _ => Err(Fault::InvalidIndexType(index_description(key))),
        },
        _ => Ok(Value::Null),
    }
}

/// What indexing a value by a constant position reads. An object is asked for the key that
/// is the position as a 32-bit integer.
pub open spec fn spec_read_position(heap: HeapView, container: Value, position: usize) -> Value {
    match container {
        Value::Array(id) => heap.array_read(id, position as int),
        Value::Object(id) => heap.object_read(id, Value::Int(position as i32)),
        Value::Str(s) => spec_string_at(s, position as int),
        _ => Value::Null,
    }
}

/// The heap after a value is written under a key of a container. An array takes an integer
/// that is not negative; an object takes any key; writing to anything else changes nothing.
pub open spec fn spec_write_index(
    heap: HeapView,
    container: Value,
    key: Value,
    value: Value,
) -> Result<HeapView, Fault> {
    match container {
        Value::Array(id) => match key {
            Value::Int(i) if i >= 0 => Ok(heap.array_write(id, i as int, value)),
            _ => Err(Fault::InvalidIndexType(index_description(key))),
        },
        Value::Object(id) => Ok(heap.object_write(id, key, value)),
        _ => Ok(heap),
    }
}

/// The heap after a value is written at a constant position of a container.
pub open spec fn spec_write_position(
    heap: HeapView,
    container: Value,
    position: usize,
    value: Value,
) -> HeapView {
    match container {
        Value::Array(id) => heap.array_write(id, position as int, value),
        Value::Object(id) => heap.object_write(id, Value::Int(position as i32), value),
        _ => heap,
    }
}

/// The views of a value or a fault.
pub open spec fn value_result(r: Result<VmValue, VmError>) -> Result<Value, Fault> {
    match r {
        Ok(v) => Ok(v@),
        Err(e) => Err(e@),
    }
}

/// The fault for an index that an array or a string does not take.
fn invalid_index_err(key: &VmValue) -> (e: VmError)
    ensures
        e@ == Fault::InvalidIndexType(index_description(key@)),
{
    match key {
        VmValue::Int(_) => VmError::InvalidIndexType(String::from_str("negative Int")),
        _ => VmError::InvalidIndexType(key.kind_name()),
    }
}

/// The character of a string at a position, as a string of its own; `Null` beyond the end.
pub fn index_string(s: &String, index: usize) -> (r: VmValue)
    ensures
        r@ == spec_string_at(s@, index as int),
{
    let text = s.as_str();
    if index < text.unicode_len() {
        VmValue::String(char_text(text.get_char(index)))
    } else {
        VmValue::Null
    }
}

/// Reads what a key names in a container.
pub fn read_index(heap: &Heap, container: &VmValue, key: &VmValue) -> (r: Result<
    VmValue,
    VmError,
>)
    ensures
        value_result(r) == spec_read_index(heap@, container@, key@),
{
    match container {
        VmValue::DynamicArray(array) => match key {
            VmValue::Int(i) => {
                if *i >= 0 {
                    Ok(array.index(heap, *i as usize))
                } else {
                    Err(invalid_index_err(key))
                }
            },
            _ => Err(invalid_index_err(key)),
        },
        VmValue::Object(object) => Ok(object.index(heap, key)),
        VmValue::String(s) => match key {
            VmValue::Int(i) => {
                if *i >= 0 {
                    Ok(index_string(s, *i as usize))
                } else {
                    Err(invalid_index_err(key))
                }
            },
            _ => Err(invalid_index_err(key)),
        },
        _ => Ok(VmValue::Null),
    }
}

/// Reads what a constant position names in a container.
pub fn read_position(heap: &Heap, container: &VmValue, position: usize) -> (r: VmValue)
    ensures
        r@ == spec_read_position(heap@, container@, position),
{
    match container {
        VmValue::DynamicArray(array) => array.index(heap, position),
        VmValue::Object(object) => object.index(
            heap,
            &VmValue::Int(#[verifier::truncate] (position as i32)),
        ),
        VmValue::String(s) => index_string(s, position),
        _ => VmValue::Null,
    }
}

/// Writes a value under a key of a container. On a fault the heap is as it was.
pub fn write_index(heap: &mut Heap, container: &VmValue, key: &VmValue, value: VmValue) -> (r:
    Result<(), VmError>)
    ensures
        match r {
            Ok(_) => spec_write_index(old(heap)@, container@, key@, value@) == Ok::<
                HeapView,
                Fault,
            >(final(heap)@),
            Err(e) => spec_write_index(old(heap)@, container@, key@, value@) == Err::<
                HeapView,
                Fault,
            >(e@) && final(heap)@ == old(heap)@,
        },
{
    match container {
        VmValue::DynamicArray(array) => match key {
            VmValue::Int(i) => {
                if *i >= 0 {
                    array.new_index(heap, *i as usize, value);
                    Ok(())
                } else {
                    Err(invalid_index_err(key))
                }
            },
            _ => Err(invalid_index_err(key)),
        },
        VmValue::Object(object) => {
            object.new_index(heap, key.clone(), value);
            Ok(())
        },
        _ => Ok(()),
    }
}

/// Writes a value at a constant position of a container.
pub fn write_position(heap: &mut Heap, container: &VmValue, position: usize, value: VmValue)
    ensures
        final(heap)@ == spec_write_position(old(heap)@, container@, position, value@),
{
    match container {
        VmValue::DynamicArray(array) => array.new_index(heap, position, value),
        VmValue::Object(object) => object.new_index(
            heap,
            VmValue::Int(#[verifier::truncate] (position as i32)),
            value,
        ),
        _ => {},
    }
}

} // verus!
