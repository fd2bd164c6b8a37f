//! Key-value mappings, held by handle, and their order.

use crate::heap::{copy_entries, entry_views, position, position_from, Heap};
use crate::order::Order;
use crate::value::{Value, VmValue};
use vstd::prelude::*;

verus! {

/// A handle to a key-value mapping that lives in a [`Heap`]. Copying the handle copies no
/// data: every copy names the same mapping.
///
/// A key once written stays: deleting it writes `Null` under it, so the entry still counts
/// in the length while reading the key gives `Null`.
#[derive(Debug, Clone, Copy, PartialEq, Eq, Structural)]
pub struct Object {
    pub id: usize,
}

/// Whether an entry goes before another in the sorted order: its key is less.
pub open spec fn goes_before(a: (Value, Value), b: (Value, Value)) -> bool {
    a.0.partial_order(b.0) == Some(Order::Less)
}

/// Sorted entries with one more entry put in: behind every entry that it does not go
/// before, so that entries whose keys have no order stay in the order they came in.
pub open spec fn inserted(sorted: Seq<(Value, Value)>, e: (Value, Value)) -> Seq<(Value, Value)>
    decreases sorted.len(),
{
    if sorted.len() > 0 && goes_before(e, sorted.last()) {
        inserted(sorted.drop_last(), e).push(sorted.last())
    } else {
        sorted.push(e)
    }
}

/// The first `n` entries, sorted by key.
pub open spec fn sorted_upto(entries: Seq<(Value, Value)>, n: nat) -> Seq<(Value, Value)>
    decreases n,
{
    if n == 0 || n > entries.len() {
        Seq::empty()
    } else {
        inserted(sorted_upto(entries, (n - 1) as nat), entries[n - 1])
    }
}

/// The entries sorted by key: the order in which objects are compared, whatever order
/// their entries were written in.
pub open spec fn sorted_entries(entries: Seq<(Value, Value)>) -> Seq<(Value, Value)> {
    sorted_upto(entries, entries.len())
}

/// Whether every two keys have an order, so that sorting puts the entries in one order
/// only.
pub open spec fn keys_ordered(entries: Seq<(Value, Value)>) -> bool {
    forall|i: int, j: int|
        0 <= i < j < entries.len() ==> (#[trigger] entries[i]).0.partial_order(
            (#[trigger] entries[j]).0,
        ).is_some()
}

/// The order of the numbers of entries of two objects.
pub open spec fn length_order(a: nat, b: nat) -> Order {
    if a < b {
        Order::Less
    } else if a == b {
        Order::Equal
    } else {
        Order::Greater
    }
}

/// The lexicographic order of two sequences of entries from position `i` on, given that
/// they agree before it: the first entry that differs decides, by its key and then by its
/// value; a sequence that ends first is less. There is no order where the deciding keys or
/// values have none.
pub open spec fn entries_order_from(
    a: Seq<(Value, Value)>,
    b: Seq<(Value, Value)>,
    i: int,
) -> Option<Order>
    decreases a.len() - i,
{
    if i < 0 || i >= a.len() || i >= b.len() {
        Some(length_order(a.len(), b.len()))
    } else {
        match a[i].0.partial_order(b[i].0) {
            Some(Order::Equal) => match a[i].1.partial_order(b[i].1) {
                Some(Order::Equal) => entries_order_from(a, b, i + 1),
                other => other,
            },
            other => other,
        }
    }
}

/// Whether two sequences of entries agree from position `i` on: the same number of
/// entries, with equal keys and equal values at every position.
pub open spec fn entries_equal_from(a: Seq<(Value, Value)>, b: Seq<(Value, Value)>, i: int) -> bool
    decreases a.len() - i,
{
    if a.len() != b.len() {
        false
    } else if i < 0 || i >= a.len() {
        true
    } else {
        a[i].0.equals(b[i].0) && a[i].1.equals(b[i].1) && entries_equal_from(a, b, i + 1)
    }
}

/// The order of two objects: that of their entries sorted by key. There is none where an
/// object has two keys without an order between them.
pub open spec fn spec_object_order(a: Seq<(Value, Value)>, b: Seq<(Value, Value)>) -> Option<
    Order,
> {
    if keys_ordered(a) && keys_ordered(b) {
        entries_order_from(sorted_entries(a), sorted_entries(b), 0)
    } else {
        None
    }
}

/// Whether two objects are equal: their entries sorted by key are.
pub open spec fn spec_object_equal(a: Seq<(Value, Value)>, b: Seq<(Value, Value)>) -> bool {
    entries_equal_from(sorted_entries(a), sorted_entries(b), 0)
}

/// Whether an entry goes before another in the sorted order.
fn before(a: &(VmValue, VmValue), b: &(VmValue, VmValue)) -> (r: bool)
    ensures
        r == goes_before((a.0@, a.1@), (b.0@, b.1@)),
{
    match a.0.partial_order(&b.0) {
        Some(Order::Less) => true,
        _ => false,
    }
}

/// Puts one more entry into sorted entries.
fn insert_sorted(sorted: &mut Vec<(VmValue, VmValue)>, e: (VmValue, VmValue))
    ensures
        entry_views(final(sorted)@) == inserted(entry_views(old(sorted)@), (e.0@, e.1@)),
{
    let ghost start = entry_views(sorted@);
    let ghost entry = (e.0@, e.1@);
    let mut moved: Vec<(VmValue, VmValue)> = Vec::new();
    assert(entry_views(moved@).reverse() =~= Seq::empty());
    assert(inserted(start, entry) =~= inserted(entry_views(sorted@), entry) + entry_views(
        moved@,
    ).reverse());
    loop
        invariant
            entry == (e.0@, e.1@),
            inserted(start, entry) == inserted(entry_views(sorted@), entry) + entry_views(
                moved@,
            ).reverse(),
        ensures
            inserted(start, entry) == entry_views(sorted@).push(entry) + entry_views(
                moved@,
            ).reverse(),
        decreases sorted@.len(),
    {
        let length = sorted.len();
        if length == 0 {
            break ;
        }
        if !before(&e, &sorted[length - 1]) {
            assert(entry_views(sorted@).last() == (sorted@[length - 1].0@, sorted@[length - 1].1@));
            break ;
        }
        let ghost views_before = entry_views(sorted@);
        let ghost moved_before = entry_views(moved@);
        let last = sorted.pop().unwrap();
        assert(entry_views(sorted@) =~= views_before.drop_last());
        assert(views_before.last() == (last.0@, last.1@));
        moved.push(last);
        proof {
            let l = views_before.last();
            assert(entry_views(moved@) =~= moved_before.push(l));
            assert(moved_before.push(l).reverse() =~= seq![l] + moved_before.reverse());
            assert(inserted(views_before, entry) == inserted(views_before.drop_last(), entry).push(
                l,
            ));
            assert(inserted(views_before.drop_last(), entry).push(l) + moved_before.reverse()
                =~= inserted(views_before.drop_last(), entry) + (seq![l]
                + moved_before.reverse()));
        }
    }
    let ghost views_before = entry_views(sorted@);
    sorted.push(e);
    assert(entry_views(sorted@) =~= views_before.push(entry));
    let ghost target = inserted(start, entry);
    loop
        invariant
            target == entry_views(sorted@) + entry_views(moved@).reverse(),
        ensures
            target == entry_views(sorted@),
        decreases moved@.len(),
    {
        let ghost views_before = entry_views(sorted@);
        let ghost moved_before = entry_views(moved@);
        match moved.pop() {
            None => {
                assert(entry_views(moved@).reverse() =~= Seq::empty());
                assert(entry_views(sorted@) + Seq::<(Value, Value)>::empty() =~= entry_views(
                    sorted@,
                ));
                break ;
            },
            Some(back) => {
                let ghost b = (back.0@, back.1@);
                assert(entry_views(moved@) =~= moved_before.drop_last());
                assert(moved_before.last() == b);
                sorted.push(back);
                proof {
                    assert(entry_views(sorted@) =~= views_before.push(b));
                    assert(moved_before.reverse() =~= seq![b] + moved_before.drop_last().reverse());
                    assert(views_before + (seq![b] + moved_before.drop_last().reverse())
                        =~= views_before.push(b) + moved_before.drop_last().reverse());
                }
            },
        }
    }
}

/// Whether every two keys of the entries have an order.
fn all_keys_ordered(entries: &Vec<(VmValue, VmValue)>) -> (r: bool)
    ensures
        r == keys_ordered(entry_views(entries@)),
{
    let ghost views = entry_views(entries@);
    let mut j: usize = 0;
    while j < entries.len()
        invariant
            j <= entries.len(),
            views == entry_views(entries@),
            forall|a: int, b: int|
                0 <= a < b < j ==> (#[trigger] views[a]).0.partial_order(
                    (#[trigger] views[b]).0,
                ).is_some(),
        decreases entries.len() - j,
    {
        let mut i: usize = 0;
        while i < j
            invariant
                i <= j,
                j < entries.len(),
                views == entry_views(entries@),
                forall|a: int| 0 <= a < i ==> (#[trigger] views[a]).0.partial_order(views[j as int].0).is_some(),
            decreases j - i,
        {
            if entries[i].0.partial_order(&entries[j].0).is_none() {
                assert(views[i as int].0.partial_order(views[j as int].0).is_none());
                return false;
            }
            i += 1;
        }
        j += 1;
    }
    true
}

/// The lexicographic order of two sequences of entries.
fn order_entries(a: &Vec<(VmValue, VmValue)>, b: &Vec<(VmValue, VmValue)>) -> (r: Option<Order>)
    ensures
        r == entries_order_from(entry_views(a@), entry_views(b@), 0),
{
    let ghost x = entry_views(a@);
    let ghost y = entry_views(b@);
    let mut i: usize = 0;
    while i < a.len() && i < b.len()
        invariant
            i <= a.len(),
            i <= b.len(),
            x == entry_views(a@),
            y == entry_views(b@),
            entries_order_from(x, y, i as int) == entries_order_from(x, y, 0),
        decreases a.len() - i,
    {
        match a[i].0.partial_order(&b[i].0) {
            Some(Order::Equal) => match a[i].1.partial_order(&b[i].1) {
                Some(Order::Equal) => {},
                other => {
                    return other;
                },
            },
            other => {
                return other;
            },
        }
        i += 1;
    }
    if a.len() < b.len() {
        Some(Order::Less)
    } else if a.len() == b.len() {
        Some(Order::Equal)
    } else {
        Some(Order::Greater)
    }
}

/// Whether two sequences of entries are equal.
fn equal_entries(a: &Vec<(VmValue, VmValue)>, b: &Vec<(VmValue, VmValue)>) -> (r: bool)
    ensures
        r == entries_equal_from(entry_views(a@), entry_views(b@), 0),
{
    let ghost x = entry_views(a@);
    let ghost y = entry_views(b@);
    if a.len() != b.len() {
        return false;
    }
    let mut i: usize = 0;
    while i < a.len()
        invariant
            i <= a.len(),
            a.len() == b.len(),
            x == entry_views(a@),
            y == entry_views(b@),
            entries_equal_from(x, y, i as int) == entries_equal_from(x, y, 0),
        decreases a.len() - i,
    {
        if !(a[i].0.equals(&b[i].0) && a[i].1.equals(&b[i].1)) {
            return false;
        }
        i += 1;
    }
    true
}

impl Object {
    /// Makes a new, empty object in the heap.
    pub fn new(heap: &mut Heap) -> (object: Self)
        ensures
            object.id == old(heap)@.objects.len(),
            final(heap)@ == old(heap)@.with_object(),
    {
        let id = heap.objects.len();
        heap.objects.push(Vec::new());
        proof {
            assert(entry_views(Seq::<(VmValue, VmValue)>::empty()) =~= Seq::<
                (Value, Value),
            >::empty());
            assert(heap@.objects =~= old(heap)@.with_object().objects);
            assert(heap@.arrays =~= old(heap)@.arrays);
        }
        Object { id }
    }

    /// Makes a new, empty object in the heap and wraps its handle as a value.
    pub fn new_vm_value(heap: &mut Heap) -> (value: VmValue)
        ensures
            value@ == Value::Object(old(heap)@.objects.len() as usize),
            final(heap)@ == old(heap)@.with_object(),
    {
        VmValue::Object(Self::new(heap))
    }

    /// The number of entries, those with a `Null` value included.
    pub fn len(&self, heap: &Heap) -> (n: usize)
        ensures
            n == heap@.object(self.id).len(),
    {
        if self.id < heap.objects.len() {
            heap.objects[self.id].len()
        } else {
            0
        }
    }

    /// The position of the entry with the key, or the number of entries where there is none.
    fn find(&self, heap: &Heap, key: &VmValue) -> (at: usize)
        requires
            heap@.has_object(self.id),
        ensures
            at == position(heap@.object(self.id), key@),
            at <= heap@.object(self.id).len(),
    {
        let entries = &heap.objects[self.id];
        let mut i: usize = 0;
        assert(heap@.object(self.id) == entry_views(entries@));
        while i < entries.len()
            invariant
                i <= entries.len(),
                heap@.object(self.id) == entry_views(entries@),
                position_from(entry_views(entries@), key@, i as int) == position(
                    entry_views(entries@),
                    key@,
                ),
            decreases entries.len() - i,
        {
            if entries[i].0.same_key(key) {
                return i;
            }
            i += 1;
        }
        i
    }

    /// The value under `key`; `Null` where the object has no such key.
    pub fn index(&self, heap: &Heap, key: &VmValue) -> (value: VmValue)
        ensures
            value@ == heap@.object_read(self.id, key@),
    {
        if self.id >= heap.objects.len() {
            return VmValue::Null;
        }
        let at = self.find(heap, key);
        assert(heap@.object(self.id) == entry_views(heap.objects@[self.id as int]@));
        if at < heap.objects[self.id].len() {
            heap.objects[self.id][at].1.clone()
        } else {
            VmValue::Null
        }
    }

    /// Writes `value` under `key`: over the value of a key that is present, as a new entry
    /// otherwise.
    pub fn new_index(&self, heap: &mut Heap, key: VmValue, value: VmValue)
        ensures
            final(heap)@ == old(heap)@.object_write(self.id, key@, value@),
    {
        if self.id >= heap.objects.len() {
            return ;
        }
        let at = self.find(heap, &key);
        let ghost before = heap@;
        assert(before.object(self.id) == entry_views(heap.objects@[self.id as int]@));
        let entries = &mut heap.objects[self.id];
        if at < entries.len() {
            entries[at].1 = value;
            proof {
                assert(heap@.objects[self.id as int] =~= before.objects[self.id as int].update(
                    at as int,
                    (before.objects[self.id as int][at as int].0, value@),
                ));
            }
        } else {
            entries.push((key, value));
            proof {
                assert(heap@.objects[self.id as int] =~= before.objects[self.id as int].push(
                    (key@, value@),
                ));
            }
        }
        proof {
            assert forall|k: int|
                0 <= k < heap@.objects.len() && k != self.id implies heap@.objects[k]
                == before.objects[k] by {
                assert(heap@.objects[k] == entry_views(heap.objects@[k]@));
            }
            assert(heap@.objects =~= before.object_write(self.id, key@, value@).objects);
            assert(heap@.arrays =~= before.arrays);
        }
    }

    /// The entries of the object, sorted by key.
    pub fn sorted(&self, heap: &Heap) -> (entries: Vec<(VmValue, VmValue)>)
        ensures
            entry_views(entries@) == sorted_entries(heap@.object(self.id)),
    {
        let mut sorted: Vec<(VmValue, VmValue)> = Vec::new();
        if self.id >= heap.objects.len() {
            assert(entry_views(sorted@) =~= sorted_entries(heap@.object(self.id)));
            return sorted;
        }
        let entries = copy_entries(&heap.objects[self.id]);
        let ghost views = heap@.object(self.id);
        assert(views == entry_views(heap.objects@[self.id as int]@));
        let mut i: usize = 0;
        assert(entry_views(sorted@) =~= sorted_upto(views, 0));
        while i < entries.len()
            invariant
                i <= entries.len(),
                views == entry_views(entries@),
                entry_views(sorted@) == sorted_upto(views, i as nat),
            decreases entries.len() - i,
        {
            insert_sorted(&mut sorted, (entries[i].0.clone(), entries[i].1.clone()));
            i += 1;
        }
        sorted
    }

    /// The order of this object and another: that of their entries sorted by key, which
    /// does not depend on the order in which the entries were written. The first entry
    /// that differs decides, by its key and then by its value, and an object whose entries
    /// are the first entries of the other is less. There is no order where a key or a value
    /// that decides has none.
    pub fn partial_order(&self, heap: &Heap, other: &Object) -> (r: Option<Order>)
        ensures
            r == spec_object_order(heap@.object(self.id), heap@.object(other.id)),
    {
        let a = self.sorted(heap);
        let b = other.sorted(heap);
        if !self.has_ordered_keys(heap) || !other.has_ordered_keys(heap) {
            return None;
        }
        order_entries(&a, &b)
    }

    /// Whether this object and another are equal: they have as many entries, and their
    /// entries sorted by key have equal keys and equal values, one for one.
    pub fn equals(&self, heap: &Heap, other: &Object) -> (r: bool)
        ensures
            r == spec_object_equal(heap@.object(self.id), heap@.object(other.id)),
    {
        let a = self.sorted(heap);
        let b = other.sorted(heap);
        equal_entries(&a, &b)
    }

    /// Whether every two keys of the object have an order.
    pub fn has_ordered_keys(&self, heap: &Heap) -> (r: bool)
        ensures
            r == keys_ordered(heap@.object(self.id)),
    {
        if self.id >= heap.objects.len() {
            return true;
        }
        assert(heap@.object(self.id) == entry_views(heap.objects@[self.id as int]@));
        all_keys_ordered(&heap.objects[self.id])
    }

    /// Writes a copy of `value` under `key`: for a container that is a copy of its handle.
    pub fn new_index_rc(&self, heap: &mut Heap, key: VmValue, value: &VmValue)
        ensures
            final(heap)@ == old(heap)@.object_write(self.id, key@, value@),
    {
        self.new_index(heap, key, value.clone());
    }
}

/// Whether each entry goes before every later one.
pub open spec fn ascending(s: Seq<(Value, Value)>) -> bool {
    forall|i: int, j: int| 0 <= i < j < s.len() ==> goes_before(#[trigger] s[i], #[trigger] s[j])
}

/// Whether of every two entries one goes before the other: every two keys have an order,
/// and no two keys are equal in it.
pub open spec fn strictly_ordered(s: Seq<(Value, Value)>) -> bool {
    forall|i: int, j: int|
        0 <= i < s.len() && 0 <= j < s.len() && i != j ==> goes_before(
            #[trigger] s[i],
            #[trigger] s[j],
        ) || goes_before(s[j], s[i])
}

/// Putting an entry into ascending entries that it has an order with keeps them ascending,
/// and adds the entry and nothing else.
proof fn lemma_inserted(s: Seq<(Value, Value)>, e: (Value, Value))
    requires
        ascending(s),
        forall|i: int| 0 <= i < s.len() ==> goes_before(#[trigger] s[i], e) || goes_before(e, s[i]),
    ensures
        ascending(inserted(s, e)),
        inserted(s, e).to_multiset() == s.to_multiset().insert(e),
        inserted(s, e).len() == s.len() + 1,
        forall|i: int|
            0 <= i < inserted(s, e).len() ==> #[trigger] inserted(s, e)[i] == e || s.contains(
                inserted(s, e)[i],
            ),
    decreases s.len(),
{
    broadcast use vstd::seq_lib::to_multiset_build;

    let r = inserted(s, e);
    if s.len() > 0 && goes_before(e, s.last()) {
        let front = s.drop_last();
        let last = s.last();
        assert(front.push(last) =~= s);
        assert forall|i: int| 0 <= i < front.len() implies goes_before(#[trigger] front[i], e)
            || goes_before(e, front[i]) by {
            assert(front[i] == s[i]);
        }
        lemma_inserted(front, e);
        let inner = inserted(front, e);
        assert forall|i: int, j: int| 0 <= i < j < r.len() implies goes_before(
            #[trigger] r[i],
            #[trigger] r[j],
        ) by {
            if j < inner.len() {
                assert(r[i] == inner[i] && r[j] == inner[j]);
            } else {
                assert(r[j] == last);
                assert(r[i] == inner[i]);
                if inner[i] != e {
                    assert(front.contains(inner[i]));
                    let k = choose|k: int| 0 <= k < front.len() && front[k] == inner[i];
                    assert(front[k] == s[k]);
                }
            }
        }
        assert forall|i: int| 0 <= i < r.len() implies #[trigger] r[i] == e || s.contains(
            r[i],
        ) by {
            if i < inner.len() {
                assert(r[i] == inner[i]);
                if inner[i] != e {
                    let k = choose|k: int| 0 <= k < front.len() && front[k] == inner[i];
                    assert(s[k] == r[i]);
                }
            } else {
                assert(r[i] == s[s.len() - 1]);
            }
        }
        assert(r.to_multiset() =~= s.to_multiset().insert(e)) by {
            assert(r.to_multiset() =~= inner.to_multiset().insert(last));
            assert(s.to_multiset() =~= front.to_multiset().insert(last));
        }
    } else {
        assert forall|i: int, j: int| 0 <= i < j < r.len() implies goes_before(
            #[trigger] r[i],
            #[trigger] r[j],
        ) by {
            if j == s.len() {
                assert(r[i] == s[i]);
                let last = s.last();
                crate::value::lemma_less_is_strict(e.0, last.0, s[i].0);
                if i < s.len() - 1 {
                    crate::value::lemma_less_is_strict(s[i].0, last.0, e.0);
                }
            } else {
                assert(r[i] == s[i] && r[j] == s[j]);
            }
        }
        assert forall|i: int| 0 <= i < r.len() implies #[trigger] r[i] == e || s.contains(
            r[i],
        ) by {
            if i < s.len() {
                assert(s[i] == r[i]);
            }
        }
    }
}

/// The first entries of strictly ordered entries, sorted, are ascending, and are the same
/// entries.
proof fn lemma_sorted_upto(a: Seq<(Value, Value)>, n: nat)
    requires
        strictly_ordered(a),
        n <= a.len(),
    ensures
        ascending(sorted_upto(a, n)),
        sorted_upto(a, n).to_multiset() == a.take(n as int).to_multiset(),
        forall|i: int|
            0 <= i < sorted_upto(a, n).len() ==> a.take(n as int).contains(
                #[trigger] sorted_upto(a, n)[i],
            ),
    decreases n,
{
    broadcast use vstd::seq_lib::to_multiset_build;

    if n == 0 {
        assert(a.take(0) =~= Seq::empty());
    } else {
        lemma_sorted_upto(a, (n - 1) as nat);
        let before = sorted_upto(a, (n - 1) as nat);
        let e = a[n - 1];
        assert forall|i: int| 0 <= i < before.len() implies goes_before(#[trigger] before[i], e)
            || goes_before(e, before[i]) by {
            let taken = a.take(n - 1);
            assert(taken.contains(before[i]));
            let k = choose|k: int| 0 <= k < taken.len() && #[trigger] taken[k] == before[i];
            assert(a[k] == before[i]);
        }
        lemma_inserted(before, e);
        assert(a.take(n - 1).push(e) =~= a.take(n as int));
        let after = sorted_upto(a, n);
        assert forall|i: int| 0 <= i < after.len() implies a.take(n as int).contains(
            #[trigger] after[i],
        ) by {
            if after[i] == e {
                assert(a.take(n as int)[n - 1] == e);
            } else {
                assert(before.contains(after[i]));
                let j = choose|j: int| 0 <= j < before.len() && before[j] == after[i];
                let taken = a.take(n - 1);
                assert(taken.contains(before[j]));
                let k = choose|k: int| 0 <= k < taken.len() && #[trigger] taken[k] == before[j];
                assert(a.take(n as int)[k] == after[i]);
            }
        }
    }
}

/// Ascending entries are in the only order that their entries can ascend in.
proof fn lemma_ascending_unique(x: Seq<(Value, Value)>, y: Seq<(Value, Value)>)
    requires
        ascending(x),
        ascending(y),
        x.to_multiset() == y.to_multiset(),
    ensures
        x == y,
    decreases x.len(),
{
    broadcast use vstd::seq_lib::to_multiset_build;
    broadcast use vstd::seq_lib::to_multiset_len;
    broadcast use vstd::seq_lib::to_multiset_contains;
    broadcast use vstd::multiset::group_multiset_axioms;

    vstd::seq_lib::to_multiset_len(x);
    vstd::seq_lib::to_multiset_len(y);
    if x.len() == 0 {
        assert(x =~= y);
    } else {
        let (p, q) = (x.last(), y.last());
        assert(x.drop_last().push(p) =~= x);
        assert(y.drop_last().push(q) =~= y);
        assert(x[x.len() - 1] == p);
        assert(y[y.len() - 1] == q);
        assert(x.contains(p));
        assert(y.contains(q));
        assert(x.to_multiset().count(p) > 0);
        assert(y.to_multiset().count(q) > 0);
        assert(y.contains(p));
        assert(x.contains(q));
        let j = choose|j: int| 0 <= j < y.len() && y[j] == p;
        let i = choose|i: int| 0 <= i < x.len() && x[i] == q;
        crate::value::lemma_less_is_strict(p.0, q.0, p.0);
        crate::value::lemma_less_is_strict(q.0, p.0, q.0);
        if j < y.len() - 1 {
            assert(goes_before(y[j], y[y.len() - 1]));
        }
        if i < x.len() - 1 {
            assert(goes_before(x[i], x[x.len() - 1]));
        }
        assert(p == q);
        assert(x.drop_last().to_multiset() =~= x.to_multiset().remove(p));
        assert(y.drop_last().to_multiset() =~= y.to_multiset().remove(q));
        assert(ascending(x.drop_last())) by {
            assert forall|a: int, b: int| 0 <= a < b < x.drop_last().len() implies goes_before(
                #[trigger] x.drop_last()[a],
                #[trigger] x.drop_last()[b],
            ) by {
                assert(x.drop_last()[a] == x[a] && x.drop_last()[b] == x[b]);
            }
        }
        assert(ascending(y.drop_last())) by {
            assert forall|a: int, b: int| 0 <= a < b < y.drop_last().len() implies goes_before(
                #[trigger] y.drop_last()[a],
                #[trigger] y.drop_last()[b],
            ) by {
                assert(y.drop_last()[a] == y[a] && y.drop_last()[b] == y[b]);
            }
        }
        lemma_ascending_unique(x.drop_last(), y.drop_last());
    }
}

/// Sorting forgets the order in which entries were written: two objects with the same
/// entries, whose keys all differ and have an order, have the same sorted entries, and so
/// stand to any third object alike.
pub proof fn law_sorting_forgets_the_order_of_writing(
    a: Seq<(Value, Value)>,
    b: Seq<(Value, Value)>,
    c: Seq<(Value, Value)>,
)
    requires
        strictly_ordered(a),
        strictly_ordered(b),
        a.to_multiset() == b.to_multiset(),
    ensures
        sorted_entries(a) == sorted_entries(b),
        ascending(sorted_entries(a)),
        sorted_entries(a).to_multiset() == a.to_multiset(),
        spec_object_equal(a, c) == spec_object_equal(b, c),
        spec_object_equal(c, a) == spec_object_equal(c, b),
        spec_object_order(a, c) == spec_object_order(b, c),
        spec_object_order(c, a) == spec_object_order(c, b),
{
    lemma_sorted_upto(a, a.len());
    lemma_sorted_upto(b, b.len());
    assert(a.take(a.len() as int) =~= a);
    assert(b.take(b.len() as int) =~= b);
    lemma_ascending_unique(sorted_entries(a), sorted_entries(b));
    assert(keys_ordered(a)) by {
        assert forall|i: int, j: int| 0 <= i < j < a.len() implies (#[trigger] a[i]).0.partial_order(
            (#[trigger] a[j]).0,
        ).is_some() by {
            crate::value::lemma_less_is_strict(a[j].0, a[i].0, a[j].0);
        }
    }
    assert(keys_ordered(b)) by {
        assert forall|i: int, j: int| 0 <= i < j < b.len() implies (#[trigger] b[i]).0.partial_order(
            (#[trigger] b[j]).0,
        ).is_some() by {
            crate::value::lemma_less_is_strict(b[j].0, b[i].0, b[j].0);
        }
    }
}

} // verus!
