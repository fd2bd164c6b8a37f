//! Reading a program from bytes.

use crate::heap::{entry_views, Heap, HeapView};
use crate::instruction::Instruction;
use crate::serde::record::{parse_record, take_instruction, RecordView};
use crate::serde::wire::{
    lemma_list_fails, parse_list, parse_list_n, parse_value, parse_values, parse_varint,
    take_u64, take_value, take_values,
};
use crate::serde::{records, Program, ProgramError, ProgramView, CURRENT_VERSION};
use crate::value::{views, Value, VmValue};
use vstd::prelude::*;

verus! {

/// How an instruction is read: as its record.
pub open spec fn record_parser() -> spec_fn(Seq<u8>) -> Option<(RecordView, Seq<u8>)> {
    |s: Seq<u8>| parse_record(s)
}

/// The entry of an object at the head of a byte sequence, and what follows it.
pub open spec fn parse_entry(s: Seq<u8>) -> Option<((Value, Value), Seq<u8>)> {
    match parse_value(s) {
        Some((key, rest)) => match parse_value(rest) {
            Some((value, after)) => Some(((key, value), after)),
            None => None,
        },
        None => None,
    }
}

/// How an entry of an object is read.
pub open spec fn entry_parser() -> spec_fn(Seq<u8>) -> Option<((Value, Value), Seq<u8>)> {
    |s: Seq<u8>| parse_entry(s)
}

/// How an array is read: as the sequence of its elements.
pub open spec fn array_parser() -> spec_fn(Seq<u8>) -> Option<(Seq<Value>, Seq<u8>)> {
    |s: Seq<u8>| parse_values(s)
}

/// How an object is read: as the sequence of its entries.
pub open spec fn object_parser() -> spec_fn(Seq<u8>) -> Option<(Seq<(Value, Value)>, Seq<u8>)> {
    |s: Seq<u8>| parse_list(s, entry_parser())
}

/// The heap at the head of a byte sequence, and what follows it.
pub open spec fn parse_heap(s: Seq<u8>) -> Option<(HeapView, Seq<u8>)> {
    match parse_list(s, array_parser()) {
        Some((arrays, rest)) => match parse_list(rest, object_parser()) {
            Some((objects, after)) => Some((HeapView { arrays, objects }, after)),
            None => None,
        },
        None => None,
    }
}

/// The version at the head of a byte sequence, and what follows it.
pub open spec fn parse_version(s: Seq<u8>) -> Option<(u8, Seq<u8>)> {
    match parse_varint(s) {
        Some((version, rest)) => if version <= u8::MAX {
            Some((version as u8, rest))
        } else {
            None
        },
        None => None,
    }
}

/// What stands behind the version: the constant pool, the instructions and the heap.
pub open spec fn parse_body(version: u8, s: Seq<u8>) -> Option<ProgramView> {
    match parse_values(s) {
        Some((constant_pool, s1)) => match parse_list(s1, record_parser()) {
            Some((instructions, s2)) => match parse_heap(s2) {
                Some((heap, _)) => Some(ProgramView { version, constant_pool, instructions, heap }),
                None => None,
            },
            None => None,
        },
        None => None,
    }
}

/// The program that bytes stand for, or why they stand for none. The version is looked at
/// first: bytes of another version are refused as such, whatever follows. Bytes behind the
/// end of the program are not looked at.
pub open spec fn decoded(s: Seq<u8>) -> Result<ProgramView, ProgramError> {
    match parse_version(s) {
        None => Err(ProgramError::DecodeError),
        Some((version, rest)) => if version != CURRENT_VERSION {
            Err(ProgramError::UnsupportedVersion(version))
        } else {
            match parse_body(version, rest) {
                Some(program) => Ok(program),
                None => Err(ProgramError::DecodeError),
            }
        },
    }
}

/// Reads the sequence of instructions that stands at `at`.
fn take_instructions(bytes: &[u8], at: usize) -> (r: Option<(Vec<Instruction>, usize)>)
    requires
        at <= bytes@.len(),
    ensures
        match r {
            Some((instructions, next)) => at <= next <= bytes@.len() && parse_list(
                bytes@.skip(at as int),
                record_parser(),
            ) == Some((records(instructions@), bytes@.skip(next as int))),
            None => parse_list(bytes@.skip(at as int), record_parser()).is_none(),
        },
{
    let (n, start) = match take_u64(bytes, at) {
        Some(pair) => pair,
        None => {
            return None;
        },
    };
    let mut instructions: Vec<Instruction> = Vec::new();
    let mut position = start;
    let mut i: u64 = 0;
    assert(records(instructions@) =~= Seq::empty());
    while i < n
        invariant
            i <= n,
            start <= position <= bytes@.len(),
            parse_varint(bytes@.skip(at as int)) == Some((n, bytes@.skip(start as int))),
            parse_list_n(bytes@.skip(start as int), record_parser(), i as nat) == Some(
                (records(instructions@), bytes@.skip(position as int)),
            ),
        decreases n - i,
    {
        match take_instruction(bytes, position) {
            Some((instruction, next)) => {
                let ghost before = records(instructions@);
                let ghost record = crate::serde::record::spec_record(instruction);
                instructions.push(instruction);
                assert(records(instructions@) =~= before.push(record));
                position = next;
            },
            None => {
                proof {
                    lemma_list_fails(
                        bytes@.skip(start as int),
                        record_parser(),
                        (i + 1) as nat,
                        n as nat,
                    );
                }
                return None;
            },
        }
        i += 1;
    }
    Some((instructions, position))
}

/// Reads the entries of an object that stand at `at`.
fn take_entries(bytes: &[u8], at: usize) -> (r: Option<(Vec<(VmValue, VmValue)>, usize)>)
    requires
        at <= bytes@.len(),
    ensures
        match r {
            Some((entries, next)) => at <= next <= bytes@.len() && parse_list(
                bytes@.skip(at as int),
                entry_parser(),
            ) == Some((entry_views(entries@), bytes@.skip(next as int))),
            None => parse_list(bytes@.skip(at as int), entry_parser()).is_none(),
        },
{
    let (n, start) = match take_u64(bytes, at) {
        Some(pair) => pair,
        None => {
            return None;
        },
    };
    let mut entries: Vec<(VmValue, VmValue)> = Vec::new();
    let mut position = start;
    let mut i: u64 = 0;
    assert(entry_views(entries@) =~= Seq::empty());
    while i < n
        invariant
            i <= n,
            start <= position <= bytes@.len(),
            parse_varint(bytes@.skip(at as int)) == Some((n, bytes@.skip(start as int))),
            parse_list_n(bytes@.skip(start as int), entry_parser(), i as nat) == Some(
                (entry_views(entries@), bytes@.skip(position as int)),
            ),
        decreases n - i,
    {
        let read = match take_value(bytes, position) {
            Some((key, middle)) => match take_value(bytes, middle) {
                Some((value, next)) => Some((key, value, next)),
                None => None,
            },
            None => None,
        };
        match read {
            Some((key, value, next)) => {
                let ghost before = entry_views(entries@);
                entries.push((key, value));
                assert(entry_views(entries@) =~= before.push((key@, value@)));
                position = next;
            },
            None => {
                proof {
                    lemma_list_fails(
                        bytes@.skip(start as int),
                        entry_parser(),
                        (i + 1) as nat,
                        n as nat,
                    );
                }
                return None;
            },
        }
        i += 1;
    }
    Some((entries, position))
}

/// Reads the arrays of a heap that stand at `at`.
fn take_arrays(bytes: &[u8], at: usize) -> (r: Option<(Vec<Vec<VmValue>>, usize)>)
    requires
        at <= bytes@.len(),
    ensures
        match r {
            Some((arrays, next)) => at <= next <= bytes@.len() && parse_list(
                bytes@.skip(at as int),
                array_parser(),
            ) == Some(
                (arrays@.map_values(|a: Vec<VmValue>| views(a@)), bytes@.skip(next as int)),
            ),
            None => parse_list(bytes@.skip(at as int), array_parser()).is_none(),
        },
{
    let (n, start) = match take_u64(bytes, at) {
        Some(pair) => pair,
        None => {
            return None;
        },
    };
    let mut arrays: Vec<Vec<VmValue>> = Vec::new();
    let mut position = start;
    let mut i: u64 = 0;
    assert(arrays@.map_values(|a: Vec<VmValue>| views(a@)) =~= Seq::empty());
    while i < n
        invariant
            i <= n,
            start <= position <= bytes@.len(),
            parse_varint(bytes@.skip(at as int)) == Some((n, bytes@.skip(start as int))),
            parse_list_n(bytes@.skip(start as int), array_parser(), i as nat) == Some(
                (arrays@.map_values(|a: Vec<VmValue>| views(a@)), bytes@.skip(position as int)),
            ),
        decreases n - i,
    {
        match take_values(bytes, position) {
            Some((elements, next)) => {
                let ghost before = arrays@.map_values(|a: Vec<VmValue>| views(a@));
                let ghost added = views(elements@);
                arrays.push(elements);
                assert(arrays@.map_values(|a: Vec<VmValue>| views(a@)) =~= before.push(added));
                position = next;
            },
            None => {
                proof {
                    lemma_list_fails(
                        bytes@.skip(start as int),
                        array_parser(),
                        (i + 1) as nat,
                        n as nat,
                    );
                }
                return None;
            },
        }
        i += 1;
    }
    Some((arrays, position))
}

/// Reads the objects of a heap that stand at `at`.
fn take_objects(bytes: &[u8], at: usize) -> (r: Option<(Vec<Vec<(VmValue, VmValue)>>, usize)>)
    requires
        at <= bytes@.len(),
    ensures
        match r {
            Some((objects, next)) => at <= next <= bytes@.len() && parse_list(
                bytes@.skip(at as int),
                object_parser(),
            ) == Some(
                (
                    objects@.map_values(|o: Vec<(VmValue, VmValue)>| entry_views(o@)),
                    bytes@.skip(next as int),
                ),
            ),
            None => parse_list(bytes@.skip(at as int), object_parser()).is_none(),
        },
{
    let (n, start) = match take_u64(bytes, at) {
        Some(pair) => pair,
        None => {
            return None;
        },
    };
    let mut objects: Vec<Vec<(VmValue, VmValue)>> = Vec::new();
    let mut position = start;
    let mut i: u64 = 0;
    assert(objects@.map_values(|o: Vec<(VmValue, VmValue)>| entry_views(o@)) =~= Seq::empty());
    while i < n
        invariant
            i <= n,
            start <= position <= bytes@.len(),
            parse_varint(bytes@.skip(at as int)) == Some((n, bytes@.skip(start as int))),
            parse_list_n(bytes@.skip(start as int), object_parser(), i as nat) == Some(
                (
                    objects@.map_values(|o: Vec<(VmValue, VmValue)>| entry_views(o@)),
                    bytes@.skip(position as int),
                ),
            ),
        decreases n - i,
    {
        match take_entries(bytes, position) {
            Some((entries, next)) => {
                let ghost before = objects@.map_values(
                    |o: Vec<(VmValue, VmValue)>| entry_views(o@),
                );
                let ghost added = entry_views(entries@);
                objects.push(entries);
                assert(objects@.map_values(|o: Vec<(VmValue, VmValue)>| entry_views(o@))
                    =~= before.push(added));
                position = next;
            },
            None => {
                proof {
                    lemma_list_fails(
                        bytes@.skip(start as int),
                        object_parser(),
                        (i + 1) as nat,
                        n as nat,
                    );
                }
                return None;
            },
        }
        i += 1;
    }
    Some((objects, position))
}

/// Reads the heap that stands at `at`.
fn take_heap(bytes: &[u8], at: usize) -> (r: Option<(Heap, usize)>)
    requires
        at <= bytes@.len(),
    ensures
        match r {
            Some((heap, next)) => at <= next <= bytes@.len() && parse_heap(bytes@.skip(at as int))
                == Some((heap@, bytes@.skip(next as int))),
            None => parse_heap(bytes@.skip(at as int)).is_none(),
        },
{
    let (arrays, middle) = match take_arrays(bytes, at) {
        Some(pair) => pair,
        None => {
            return None;
        },
    };
    let (objects, next) = match take_objects(bytes, middle) {
        Some(pair) => pair,
        None => {
            return None;
        },
    };
    Some((Heap { arrays, objects }, next))
}

/// Reads a program from bytes. Bytes of another version than the current one are refused.
pub fn deserialize(buf: Vec<u8>) -> (r: Result<Program, ProgramError>)
    ensures
        match r {
            Ok(program) => decoded(buf@) == Ok::<ProgramView, ProgramError>(program@),
            Err(e) => decoded(buf@) == Err::<ProgramView, ProgramError>(e),
        },
{
    let bytes = buf.as_slice();
    assert(bytes@.skip(0) =~= bytes@);
    let (version, at_pool) = match take_u64(bytes, 0) {
        Some(pair) => pair,
        None => {
            return Err(ProgramError::DecodeError);
        },
    };
    if version > u8::MAX as u64 {
        return Err(ProgramError::DecodeError);
    }
    let version = version as u8;
    if version != CURRENT_VERSION {
        return Err(ProgramError::UnsupportedVersion(version));
    }
    let (constant_pool, at_instructions) = match take_values(bytes, at_pool) {
        Some(pair) => pair,
        None => {
            return Err(ProgramError::DecodeError);
        },
    };
    let (instructions, at_heap) = match take_instructions(bytes, at_instructions) {
        Some(pair) => pair,
        None => {
            return Err(ProgramError::DecodeError);
        },
    };
    let (heap, _) = match take_heap(bytes, at_heap) {
        Some(pair) => pair,
        None => {
            return Err(ProgramError::DecodeError);
        },
    };
    Ok(Program { version, constant_pool, instructions, heap })
}

} // verus!
