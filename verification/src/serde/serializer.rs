//! Writing a program as bytes.

use crate::heap::{entry_views, Heap, HeapView};
use crate::instruction::Instruction;
use crate::serde::record::{
    enc_record, put_instruction, record_fits, well_shaped, RecordView,
};
use crate::serde::wire::{
    enc_list, enc_list_upto, enc_value, enc_values, put_u64, put_usize, put_value, put_values,
    value_fits, values_fit, varint,
};
use crate::serde::{records, Program, ProgramView};
use crate::value::{views, Value, VmValue};
use vstd::prelude::*;

verus! {

/// How an instruction is written: as its record.
pub open spec fn record_encoder() -> spec_fn(RecordView) -> Seq<u8> {
    |r: RecordView| enc_record(r)
}

/// How an entry of an object is written: the key, then the value.
pub open spec fn entry_encoder() -> spec_fn((Value, Value)) -> Seq<u8> {
    |e: (Value, Value)| enc_value(e.0) + enc_value(e.1)
}

/// How an array is written: as the sequence of its elements.
pub open spec fn array_encoder() -> spec_fn(Seq<Value>) -> Seq<u8> {
    |a: Seq<Value>| enc_values(a)
}

/// How an object is written: as the sequence of its entries.
pub open spec fn object_encoder() -> spec_fn(Seq<(Value, Value)>) -> Seq<u8> {
    |o: Seq<(Value, Value)>| enc_list(o, entry_encoder())
}

/// A heap: its arrays, then its objects, each in the order of their handles.
pub open spec fn enc_heap(heap: HeapView) -> Seq<u8> {
    enc_list(heap.arrays, array_encoder()) + enc_list(heap.objects, object_encoder())
}

/// A program: its version, its constant pool, its instructions and its heap.
pub open spec fn enc_program(p: ProgramView) -> Seq<u8> {
    varint(p.version as u64) + enc_values(p.constant_pool) + enc_list(
        p.instructions,
        record_encoder(),
    ) + enc_heap(p.heap)
}

/// Whether the entries of an object can be written, and their number too.
pub open spec fn entries_fit(entries: Seq<(Value, Value)>) -> bool {
    entries.len() <= u64::MAX && forall|k: int|
        0 <= k < entries.len() ==> value_fits((#[trigger] entries[k]).0) && value_fits(
            entries[k].1,
        )
}

/// Whether a heap can be written: the numbers of its containers and of their items can be,
/// and so can every value in them.
pub open spec fn heap_fits(heap: HeapView) -> bool {
    &&& heap.arrays.len() <= u64::MAX
    &&& heap.objects.len() <= u64::MAX
    &&& forall|k: int| 0 <= k < heap.arrays.len() ==> values_fit(#[trigger] heap.arrays[k])
    &&& forall|k: int| 0 <= k < heap.objects.len() ==> entries_fit(#[trigger] heap.objects[k])
}

/// Whether a program can be written: its instructions are records of instructions, and no
/// sequence or text of it is too long for its length to be written. Every program in memory
/// is such a program.
pub open spec fn program_fits(p: ProgramView) -> bool {
    &&& values_fit(p.constant_pool)
    &&& p.instructions.len() <= u64::MAX
    &&& forall|k: int|
        0 <= k < p.instructions.len() ==> well_shaped(#[trigger] p.instructions[k]) && record_fits(
            p.instructions[k],
        )
    &&& heap_fits(p.heap)
}

/// Appends a sequence of instructions.
fn put_instructions(out: &mut Vec<u8>, instructions: &Vec<Instruction>)
    ensures
        final(out)@ == old(out)@ + enc_list(records(instructions@), record_encoder()),
        records(instructions@).len() <= u64::MAX,
        forall|k: int|
            0 <= k < instructions@.len() ==> well_shaped(#[trigger] records(instructions@)[k])
                && record_fits(records(instructions@)[k]),
{
    let ghost items = records(instructions@);
    put_usize(out, instructions.len());
    let ghost head = out@;
    let mut i: usize = 0;
    assert(out@ =~= head + enc_list_upto(items, record_encoder(), 0));
    while i < instructions.len()
        invariant
            i <= instructions.len(),
            items == records(instructions@),
            out@ == head + enc_list_upto(items, record_encoder(), i as int),
            forall|k: int| 0 <= k < i ==> well_shaped(#[trigger] items[k]) && record_fits(items[k]),
        decreases instructions.len() - i,
    {
        put_instruction(out, &instructions[i]);
        i += 1;
        assert(out@ =~= head + enc_list_upto(items, record_encoder(), i as int));
    }
    assert(out@ =~= old(out)@ + enc_list(items, record_encoder()));
}

/// Appends the entries of an object.
fn put_entries(out: &mut Vec<u8>, entries: &Vec<(VmValue, VmValue)>)
    ensures
        final(out)@ == old(out)@ + enc_list(entry_views(entries@), entry_encoder()),
        entries_fit(entry_views(entries@)),
{
    let ghost items = entry_views(entries@);
    put_usize(out, entries.len());
    let ghost head = out@;
    let mut i: usize = 0;
    assert(out@ =~= head + enc_list_upto(items, entry_encoder(), 0));
    while i < entries.len()
        invariant
            i <= entries.len(),
            items == entry_views(entries@),
            out@ == head + enc_list_upto(items, entry_encoder(), i as int),
            forall|k: int|
                0 <= k < i ==> value_fits((#[trigger] items[k]).0) && value_fits(items[k].1),
        decreases entries.len() - i,
    {
        let ghost before = out@;
        put_value(out, &entries[i].0);
        put_value(out, &entries[i].1);
        assert(out@ =~= before + entry_encoder()(items[i as int]));
        i += 1;
        assert(out@ =~= head + enc_list_upto(items, entry_encoder(), i as int));
    }
    assert(out@ =~= old(out)@ + enc_list(items, entry_encoder()));
}

/// Appends a heap.
fn put_heap(out: &mut Vec<u8>, heap: &Heap)
    ensures
        final(out)@ == old(out)@ + enc_heap(heap@),
        heap_fits(heap@),
{
    let ghost arrays = heap@.arrays;
    put_usize(out, heap.arrays.len());
    let ghost head = out@;
    let mut i: usize = 0;
    assert(out@ =~= head + enc_list_upto(arrays, array_encoder(), 0));
    while i < heap.arrays.len()
        invariant
            i <= heap.arrays.len(),
            arrays == heap@.arrays,
            out@ == head + enc_list_upto(arrays, array_encoder(), i as int),
            forall|k: int| 0 <= k < i ==> values_fit(#[trigger] arrays[k]),
        decreases heap.arrays.len() - i,
    {
        put_values(out, &heap.arrays[i]);
        assert(arrays[i as int] == views(heap.arrays@[i as int]@));
        i += 1;
        assert(out@ =~= head + enc_list_upto(arrays, array_encoder(), i as int));
    }
    let ghost objects = heap@.objects;
    let ghost middle = out@;
    put_usize(out, heap.objects.len());
    let ghost second = out@;
    let mut j: usize = 0;
    assert(out@ =~= second + enc_list_upto(objects, object_encoder(), 0));
    while j < heap.objects.len()
        invariant
            j <= heap.objects.len(),
            objects == heap@.objects,
            arrays == heap@.arrays,
            forall|k: int| 0 <= k < arrays.len() ==> values_fit(#[trigger] arrays[k]),
            out@ == second + enc_list_upto(objects, object_encoder(), j as int),
            forall|k: int| 0 <= k < j ==> entries_fit(#[trigger] objects[k]),
        decreases heap.objects.len() - j,
    {
        put_entries(out, &heap.objects[j]);
        assert(objects[j as int] == entry_views(heap.objects@[j as int]@));
        j += 1;
        assert(out@ =~= second + enc_list_upto(objects, object_encoder(), j as int));
    }
    assert(middle =~= old(out)@ + enc_list(arrays, array_encoder()));
    assert(out@ =~= middle + enc_list(objects, object_encoder()));
    assert(out@ =~= old(out)@ + enc_heap(heap@));
}

/// Writes a program as bytes. What is written can be read back: see
/// [`crate::laws::law_codec_round_trip`].
pub fn serialize(program: &Program) -> (bytes: Vec<u8>)
    ensures
        bytes@ == enc_program(program@),
        program_fits(program@),
{
    let mut out: Vec<u8> = Vec::new();
    put_u64(&mut out, program.version as u64);
    put_values(&mut out, &program.constant_pool);
    put_instructions(&mut out, &program.instructions);
    put_heap(&mut out, &program.heap);
    assert(out@ =~= enc_program(program@));
    out
}

} // verus!
