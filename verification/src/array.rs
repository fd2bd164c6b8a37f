//! Growable arrays, held by handle.

use crate::heap::{grown, Heap};
use crate::value::{views, Value, VmValue};
use vstd::prelude::*;

verus! {

/// A handle to a growable array that lives in a [`Heap`]. Copying the handle copies no data:
/// every copy names the same array.
#[derive(Debug, Clone, Copy, PartialEq, Eq, Structural)]
pub struct DynamicArray {
    pub id: usize,
}

impl DynamicArray {
    /// Makes a new, empty array in the heap.
    pub fn new(heap: &mut Heap) -> (array: Self)
        ensures
            array.id == old(heap)@.arrays.len(),
            final(heap)@ == old(heap)@.with_array(),
    {
        let id = heap.arrays.len();
        heap.arrays.push(Vec::new());
        proof {
            assert(views(Seq::<VmValue>::empty()) =~= Seq::<Value>::empty());
            assert(heap@.arrays =~= old(heap)@.with_array().arrays);
            assert(heap@.objects =~= old(heap)@.objects);
        }
        DynamicArray { id }
    }

    /// Makes a new, empty array in the heap and wraps its handle as a value.
    pub fn new_vm_value(heap: &mut Heap) -> (value: VmValue)
        ensures
            value@ == Value::Array(old(heap)@.arrays.len() as usize),
            final(heap)@ == old(heap)@.with_array(),
    {
        VmValue::DynamicArray(DynamicArray::new(heap))
    }

    /// The number of elements.
    pub fn len(&self, heap: &Heap) -> (n: usize)
        ensures
            n == heap@.array(self.id).len(),
    {
        if self.id < heap.arrays.len() {
            heap.arrays[self.id].len()
        } else {
            0
        }
    }

    /// The element at `index`; `Null` at and beyond the length.
    pub fn index(&self, heap: &Heap, index: usize) -> (value: VmValue)
        ensures
            value@ == heap@.array_read(self.id, index as int),
    {
        if self.out_of_bounds(heap, index) {
            VmValue::Null
        } else {
            heap.arrays[self.id][index].clone()
        }
    }

    /// Writes `value` at `index`, growing the array with `Null` where it is too short.
    pub fn new_index(&self, heap: &mut Heap, index: usize, value: VmValue)
        ensures
            final(heap)@ == old(heap)@.array_write(self.id, index as int, value@),
    {
        if self.id >= heap.arrays.len() {
            return ;
        }
        self.check_bounds(heap, index);
        let ghost before = heap@;
        proof {
            assert(before.arrays.len() == heap.arrays@.len());
            assert(before.arrays[self.id as int] == views(heap.arrays@[self.id as int]@));
            assert(before.arrays[self.id as int].len() >= index + 1);
        }
        let elements = &mut heap.arrays[self.id];
        elements[index] = value;
        proof {
            assert(heap@.arrays[self.id as int] =~= before.arrays[self.id as int].update(
                index as int,
                value@,
            ));
            assert forall|k: int| 0 <= k < heap@.arrays.len() && k != self.id implies heap@.arrays[k]
                == before.arrays[k] by {
                assert(heap@.arrays[k] == views(heap.arrays@[k]@));
            }
            assert(heap@.arrays =~= before.arrays.update(
                self.id as int,
                before.arrays[self.id as int].update(index as int, value@),
            ));
            assert(heap@.arrays =~= old(heap)@.array_write(self.id, index as int, value@).arrays);
            assert(heap@.objects =~= old(heap)@.objects);
        }
    }

    /// Writes a copy of `value` at `index`: for a container that is a copy of its handle, so
    /// the array then shares the container with whoever holds `value`.
    pub fn new_index_rc(&self, heap: &mut Heap, index: usize, value: &VmValue)
        ensures
            final(heap)@ == old(heap)@.array_write(self.id, index as int, value@),
    {
        self.new_index(heap, index, value.clone());
    }

    /// Appends `value`.
    pub fn push(&self, heap: &mut Heap, value: VmValue)
        ensures
            final(heap)@ == old(heap)@.array_push(self.id, value@),
    {
        if self.id >= heap.arrays.len() {
            return ;
        }
        let elements = &mut heap.arrays[self.id];
        elements.push(value);
        proof {
            assert(heap@.arrays[self.id as int] =~= old(heap)@.arrays[self.id as int].push(value@));
            assert(heap@.arrays =~= old(heap)@.array_push(self.id, value@).arrays);
            assert(heap@.objects =~= old(heap)@.objects);
        }
    }

    /// Grows the array with `Null` until `index` is a position of it.
    fn check_bounds(&self, heap: &mut Heap, index: usize)
        requires
            old(heap)@.has_array(self.id),
        ensures
            final(heap)@.objects == old(heap)@.objects,
            final(heap)@.arrays == old(heap)@.arrays.update(
                self.id as int,
                grown(old(heap)@.arrays[self.id as int], index + 1),
            ),
    {
        let ghost start = heap@.arrays[self.id as int];
        while heap.arrays[self.id].len() <= index
            invariant
                heap@.has_array(self.id),
                heap@.objects == old(heap)@.objects,
                heap@.arrays.len() == old(heap)@.arrays.len(),
                forall|k: int|
                    0 <= k < heap@.arrays.len() && k != self.id ==> heap@.arrays[k] == old(
                        heap,
                    )@.arrays[k],
                start == old(heap)@.arrays[self.id as int],
                start.len() <= heap@.arrays[self.id as int].len(),
                heap@.arrays[self.id as int].len() <= index + 1 || heap@.arrays[self.id as int]
                    == start,
                heap@.arrays[self.id as int] == grown(
                    start,
                    heap@.arrays[self.id as int].len() as int,
                ),
            decreases index + 1 - heap.arrays[self.id as int].len(),
        {
            let ghost before = heap@;
            let elements = &mut heap.arrays[self.id];
            elements.push(VmValue::Null);
            proof {
                assert(heap@.arrays[self.id as int] =~= before.arrays[self.id as int].push(
                    Value::Null,
                ));
                assert(heap@.arrays[self.id as int] =~= grown(
                    start,
                    heap@.arrays[self.id as int].len() as int,
                ));
                assert(heap@.objects =~= old(heap)@.objects);
            }
        }
        proof {
            assert(heap@.arrays =~= old(heap)@.arrays.update(
                self.id as int,
                grown(old(heap)@.arrays[self.id as int], index + 1),
            ));
        }
    }

    /// Whether `index` lies at or beyond the length.
    fn out_of_bounds(&self, heap: &Heap, index: usize) -> (r: bool)
        ensures
            r == (heap@.array(self.id).len() <= index),
    {
        self.len(heap) <= index
    }
}

} // verus!
