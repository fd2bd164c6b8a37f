//! The store of the containers that values share.

use crate::value::{views, Value, VmValue};
use vstd::prelude::*;

verus! {

/// The store of all containers. Values hold handles into it, so that two values can share
/// one container and see each other's writes.
///
/// A handle that names no container of the heap reads as an empty container, and a write
/// through it changes nothing.
#[derive(Debug)]
pub struct Heap {
    pub arrays: Vec<Vec<VmValue>>,
    pub objects: Vec<Vec<(VmValue, VmValue)>>,
}

/// The mathematical content of a [`Heap`]: for each array its elements, for each object its
/// entries in the order in which their keys were first written.
pub struct HeapView {
    pub arrays: Seq<Seq<Value>>,
    pub objects: Seq<Seq<(Value, Value)>>,
}

/// The views of a sequence of entries, one for one.
pub open spec fn entry_views(entries: Seq<(VmValue, VmValue)>) -> Seq<(Value, Value)> {
    entries.map_values(|e: (VmValue, VmValue)| (e.0@, e.1@))
}

impl View for Heap {
    type V = HeapView;

    open spec fn view(&self) -> HeapView {
        HeapView {
            arrays: self.arrays@.map_values(|a: Vec<VmValue>| views(a@)),
            objects: self.objects@.map_values(|o: Vec<(VmValue, VmValue)>| entry_views(o@)),
        }
    }
}

/// The sequence grown with `Null` until it has at least `len` elements.
pub open spec fn grown(elements: Seq<Value>, len: int) -> Seq<Value> {
    if elements.len() >= len {
        elements
    } else {
        elements + Seq::new((len - elements.len()) as nat, |i: int| Value::Null)
    }
}

/// The position of the first entry from `i` on whose key is `key`, or the number of entries
/// where there is none.
pub open spec fn position_from(entries: Seq<(Value, Value)>, key: Value, i: int) -> int
    decreases entries.len() - i,
{
    if i >= entries.len() {
        entries.len() as int
    } else if entries[i].0.same_key(key) {
        i
    } else {
        position_from(entries, key, i + 1)
    }
}

/// The position of the entry whose key is `key`, or the number of entries where there is none.
pub open spec fn position(entries: Seq<(Value, Value)>, key: Value) -> int {
    position_from(entries, key, 0)
}

/// No key occurs twice among the entries.
pub open spec fn unique_keys(entries: Seq<(Value, Value)>) -> bool {
    forall|i: int, j: int|
        0 <= i < j < entries.len() ==> !(#[trigger] entries[i]).0.same_key((#[trigger] entries[j]).0)
}

impl HeapView {
    /// The heap without any container.
    pub open spec fn empty() -> HeapView {
        HeapView { arrays: Seq::empty(), objects: Seq::empty() }
    }

    /// Every object of the heap has unique keys.
    pub open spec fn wf(self) -> bool {
        forall|id: int| 0 <= id < self.objects.len() ==> unique_keys(#[trigger] self.objects[id])
    }

    pub open spec fn has_array(self, id: usize) -> bool {
        id < self.arrays.len()
    }

    pub open spec fn has_object(self, id: usize) -> bool {
        id < self.objects.len()
    }

    /// The elements of the array that the handle names; none where it names no array.
    pub open spec fn array(self, id: usize) -> Seq<Value> {
        if self.has_array(id) {
            self.arrays[id as int]
        } else {
            Seq::empty()
        }
    }

    /// The element at `index`, or `Null` at and beyond the length.
    pub open spec fn array_read(self, id: usize, index: int) -> Value {
        if 0 <= index < self.array(id).len() {
            self.array(id)[index]
        } else {
            Value::Null
        }
    }

    /// The heap after `value` is written at `index`: an array that is too short is first
    /// grown with `Null` to the length `index + 1`.
    pub open spec fn array_write(self, id: usize, index: int, value: Value) -> HeapView {
        if self.has_array(id) && index >= 0 {
            HeapView {
                arrays: self.arrays.update(
                    id as int,
                    grown(self.arrays[id as int], index + 1).update(index, value),
                ),
                ..self
            }
        } else {
            self
        }
    }

    /// The heap after `value` is appended to the array.
    pub open spec fn array_push(self, id: usize, value: Value) -> HeapView {
        if self.has_array(id) {
            HeapView {
                arrays: self.arrays.update(id as int, self.arrays[id as int].push(value)),
                ..self
            }
        } else {
            self
        }
    }

    /// The heap with one more array, which is empty; its handle is the former count of arrays.
    pub open spec fn with_array(self) -> HeapView {
        HeapView { arrays: self.arrays.push(Seq::empty()), ..self }
    }

    /// The heap with one more object, which is empty; its handle is the former count of
    /// objects.
    pub open spec fn with_object(self) -> HeapView {
        HeapView { objects: self.objects.push(Seq::empty()), ..self }
    }

    /// The entries of the object that the handle names; none where it names no object.
    pub open spec fn object(self, id: usize) -> Seq<(Value, Value)> {
        if self.has_object(id) {
            self.objects[id as int]
        } else {
            Seq::empty()
        }
    }

    /// The value under `key`, or `Null` where the object has no such key.
    pub open spec fn object_read(self, id: usize, key: Value) -> Value {
        let entries = self.object(id);
        let at = position(entries, key);
        if at < entries.len() {
            entries[at].1
        } else {
            Value::Null
        }
    }

    /// The heap after `value` is written under `key`: the entry of a key that is present is
    /// overwritten in place, a new key is appended.
    pub open spec fn object_write(self, id: usize, key: Value, value: Value) -> HeapView {
        if self.has_object(id) {
            let entries = self.objects[id as int];
            let at = position(entries, key);
            let written = if at < entries.len() {
                entries.update(at, (entries[at].0, value))
            } else {
                entries.push((key, value))
            };
            HeapView { objects: self.objects.update(id as int, written), ..self }
        } else {
            self
        }
    }
}

/// Copies a sequence of values; a container is copied as its handle.
pub fn copy_values(values: &Vec<VmValue>) -> (copy: Vec<VmValue>)
    ensures
        views(copy@) == views(values@),
{
    let mut copy: Vec<VmValue> = Vec::new();
    let mut i: usize = 0;
    while i < values.len()
        invariant
            i <= values.len(),
            copy@.len() == i,
            forall|k: int| 0 <= k < i ==> (#[trigger] copy@[k])@ == values@[k]@,
        decreases values.len() - i,
    {
        copy.push(values[i].clone());
        i += 1;
    }
    assert(views(copy@) =~= views(values@));
    copy
}

/// Copies a sequence of entries; a container is copied as its handle.
pub fn copy_entries(entries: &Vec<(VmValue, VmValue)>) -> (copy: Vec<(VmValue, VmValue)>)
    ensures
        entry_views(copy@) == entry_views(entries@),
{
    let mut copy: Vec<(VmValue, VmValue)> = Vec::new();
    let mut i: usize = 0;
    while i < entries.len()
        invariant
            i <= entries.len(),
            copy@.len() == i,
            forall|k: int|
                0 <= k < i ==> (#[trigger] copy@[k]).0@ == entries@[k].0@ && copy@[k].1@
                    == entries@[k].1@,
        decreases entries.len() - i,
    {
        copy.push((entries[i].0.clone(), entries[i].1.clone()));
        i += 1;
    }
    assert(entry_views(copy@) =~= entry_views(entries@));
    copy
}

impl Heap {
    /// A heap with the same containers under the same handles.
    pub fn duplicate(&self) -> (copy: Heap)
        ensures
            copy@ == self@,
    {
        let mut arrays: Vec<Vec<VmValue>> = Vec::new();
        let mut i: usize = 0;
        while i < self.arrays.len()
            invariant
                i <= self.arrays.len(),
                arrays@.len() == i,
                forall|k: int| 0 <= k < i ==> views((#[trigger] arrays@[k])@) == views(self.arrays@[k]@),
            decreases self.arrays.len() - i,
        {
            arrays.push(copy_values(&self.arrays[i]));
            i += 1;
        }
        let mut objects: Vec<Vec<(VmValue, VmValue)>> = Vec::new();
        let mut j: usize = 0;
        while j < self.objects.len()
            invariant
                j <= self.objects.len(),
                objects@.len() == j,
                forall|k: int|
                    0 <= k < j ==> entry_views((#[trigger] objects@[k])@) == entry_views(
                        self.objects@[k]@,
                    ),
            decreases self.objects.len() - j,
        {
            objects.push(copy_entries(&self.objects[j]));
            j += 1;
        }
        let copy = Heap { arrays, objects };
        assert(copy@.arrays =~= self@.arrays);
        assert(copy@.objects =~= self@.objects);
        copy
    }

    /// A heap without any container.
    pub fn new() -> (heap: Self)
        ensures
            heap@ == HeapView::empty(),
    {
        let heap = Heap { arrays: Vec::new(), objects: Vec::new() };
        assert(heap@.arrays =~= Seq::empty());
        assert(heap@.objects =~= Seq::empty());
        heap
    }
}

} // verus!
