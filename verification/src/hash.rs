//! Hashing of values: a value is fed to the hash as a sequence of words, an object by its
//! entries sorted by key, so that the hash does not depend on the order of writing.

use crate::array::DynamicArray;
use crate::display::{depth_limit, depth_limit_of};
use crate::heap::{entry_views, Heap, HeapView};
use crate::object::{sorted_entries, Object};
use crate::value::{Value, VmValue};
use vstd::prelude::*;
use vstd::utf8::encode_utf8;

verus! {

/// The hash of nothing.
pub const SEED: u64 = 0xcbf2_9ce4_8422_2325;

/// The factor by which the hash is multiplied for each word.
pub const PRIME: u64 = 0x0000_0100_0000_01b3;

/// The hash after one more word: the word is mixed in by exclusive or, and the result is
/// multiplied by the prime, of which the low 64 bits are kept.
pub open spec fn mix(h: u64, word: u64) -> u64 {
    ((((h ^ word) as int) * (PRIME as int)) % 0x1_0000_0000_0000_0000) as u64
}

/// The hash after the first `n` words of a sequence.
pub open spec fn mixed_upto(h: u64, words: Seq<u64>, n: int) -> u64
    decreases n,
{
    if n <= 0 || n > words.len() {
        h
    } else {
        mix(mixed_upto(h, words, n - 1), words[n - 1])
    }
}

/// The hash of a sequence of words.
pub open spec fn digest(words: Seq<u64>) -> u64 {
    mixed_upto(SEED, words, words.len() as int)
}

/// Bytes as words, one for one.
pub open spec fn byte_words(bytes: Seq<u8>) -> Seq<u64> {
    bytes.map_values(|b: u8| b as u64)
}

/// The words that a value feeds to the hash: a word for its variant, then what it holds. A
/// string feeds its length in bytes and its bytes; a container feeds the number of its
/// items and, as long as `fuel` lasts, the items: an array its elements in their order,
/// an object its entries sorted by key.
pub open spec fn feed(heap: HeapView, v: Value, fuel: nat) -> Seq<u64>
    decreases fuel, 0nat, 0nat,
{
    match v {
        Value::Float(bits) => seq![0u64, bits],
        Value::Int(i) => seq![1u64, (i as u32) as u64],
        Value::Str(s) => seq![2u64, encode_utf8(s).len() as u64] + byte_words(encode_utf8(s)),
        Value::Boolean(b) => seq![
            3u64,
            if b {
                1u64
            } else {
                0u64
            },
        ],
        Value::Array(id) => {
            let elements = heap.array(id);
            seq![4u64, elements.len() as u64] + if fuel == 0 {
                Seq::empty()
            } else {
                feed_elements(heap, elements, elements.len(), (fuel - 1) as nat)
            }
        },
        Value::Object(id) => {
            let entries = sorted_entries(heap.object(id));
            seq![5u64, entries.len() as u64] + if fuel == 0 {
                Seq::empty()
            } else {
                feed_entries(heap, entries, entries.len(), (fuel - 1) as nat)
            }
        },
        Value::Null => seq![6u64],
    }
}

/// The words that the first `n` elements of an array feed.
pub open spec fn feed_elements(heap: HeapView, elements: Seq<Value>, n: nat, fuel: nat) -> Seq<u64>
    decreases fuel, 1nat, n,
{
    if n == 0 || n > elements.len() {
        Seq::empty()
    } else {
        feed_elements(heap, elements, (n - 1) as nat, fuel) + feed(heap, elements[n - 1], fuel)
    }
}

/// The words that the first `n` entries feed: for each its key, then its value.
pub open spec fn feed_entries(
    heap: HeapView,
    entries: Seq<(Value, Value)>,
    n: nat,
    fuel: nat,
) -> Seq<u64>
    decreases fuel, 1nat, n,
{
    if n == 0 || n > entries.len() {
        Seq::empty()
    } else {
        feed_entries(heap, entries, (n - 1) as nat, fuel) + feed(heap, entries[n - 1].0, fuel)
            + feed(heap, entries[n - 1].1, fuel)
    }
}

/// The hash of a value of a heap.
pub open spec fn spec_hash(heap: HeapView, v: Value) -> u64 {
    digest(feed(heap, v, depth_limit(heap)))
}

/// Mixes one more word into a hash.
pub fn mix_word(h: u64, word: u64) -> (r: u64)
    ensures
        r == mix(h, word),
{
    let wide: u128 = ((h ^ word) as u128) * (PRIME as u128);
    (wide % 0x1_0000_0000_0000_0000) as u64
}

/// The hash of a sequence of words.
pub fn digest_words(words: &Vec<u64>) -> (r: u64)
    ensures
        r == digest(words@),
{
    let mut h = SEED;
    let mut i: usize = 0;
    while i < words.len()
        invariant
            i <= words.len(),
            h == mixed_upto(SEED, words@, i as int),
        decreases words.len() - i,
    {
        h = mix_word(h, words[i]);
        i += 1;
    }
    h
}

/// Adds two words.
fn put2(out: &mut Vec<u64>, first: u64, second: u64)
    ensures
        final(out)@ == old(out)@ + seq![first, second],
{
    out.push(first);
    out.push(second);
    assert(out@ =~= old(out)@ + seq![first, second]);
}

impl VmValue {
    /// Adds the words that the value feeds to the hash, entering containers at most `fuel`
    /// deep.
    pub fn feed(&self, heap: &Heap, fuel: usize, out: &mut Vec<u64>)
        ensures
            final(out)@ == old(out)@ + feed(heap@, self@, fuel as nat),
        decreases fuel, 0nat,
    {
        match self {
            VmValue::Float(bits) => put2(out, 0, *bits),
            VmValue::Int(i) => put2(out, 1, (#[verifier::truncate] (*i as u32)) as u64),
            VmValue::String(s) => {
                let bytes = s.as_str().as_bytes();
                put2(out, 2, bytes.len() as u64);
                let ghost head = out@;
                let mut i: usize = 0;
                assert(out@ =~= head + byte_words(bytes@.take(0)));
                while i < bytes.len()
                    invariant
                        i <= bytes.len(),
                        out@ == head + byte_words(bytes@.take(i as int)),
                    decreases bytes.len() - i,
                {
                    out.push(bytes[i] as u64);
                    i += 1;
                    assert(out@ =~= head + byte_words(bytes@.take(i as int)));
                }
                assert(bytes@.take(bytes.len() as int) =~= bytes@);
                assert(out@ =~= old(out)@ + feed(heap@, self@, fuel as nat));
            },
            VmValue::Boolean(b) => put2(
                out,
                3,
                if *b {
                    1
                } else {
                    0
                },
            ),
            VmValue::DynamicArray(array) => {
                put2(out, 4, array.len(heap) as u64);
                if fuel > 0 {
                    feed_array(array, heap, fuel - 1, out);
                }
                assert(out@ =~= old(out)@ + feed(heap@, self@, fuel as nat));
            },
            VmValue::Object(object) => {
                let entries = object.sorted(heap);
                put2(out, 5, entries.len() as u64);
                if fuel > 0 {
                    feed_sorted(&entries, heap, fuel - 1, out);
                }
                assert(out@ =~= old(out)@ + feed(heap@, self@, fuel as nat));
            },
            VmValue::Null => {
                out.push(6);
                assert(out@ =~= old(out)@ + seq![6u64]);
            },
        }
    }

    /// The hash of the value. It goes by what the value holds, not by equality: an integer
    /// and a float of the same value hash differently, and so do two arrays that hold
    /// different elements. Two objects hash alike where their entries sorted by key are
    /// the same, in whatever order they were written.
    pub fn hash(&self, heap: &Heap) -> (r: u64)
        ensures
            r == spec_hash(heap@, self@),
    {
        let mut words: Vec<u64> = Vec::new();
        self.feed(heap, depth_limit_of(heap), &mut words);
        assert(words@ =~= feed(heap@, self@, depth_limit(heap@)));
        digest_words(&words)
    }
}

/// Adds the words that the elements of an array feed.
fn feed_array(array: &DynamicArray, heap: &Heap, fuel: usize, out: &mut Vec<u64>)
    ensures
        final(out)@ == old(out)@ + feed_elements(
            heap@,
            heap@.array(array.id),
            heap@.array(array.id).len(),
            fuel as nat,
        ),
    decreases fuel, 1nat,
{
    let length = array.len(heap);
    let ghost elements = heap@.array(array.id);
    let ghost start = out@;
    let mut i: usize = 0;
    assert(out@ =~= start + feed_elements(heap@, elements, 0, fuel as nat));
    while i < length
        invariant
            i <= length,
            length == elements.len(),
            elements == heap@.array(array.id),
            out@ == start + feed_elements(heap@, elements, i as nat, fuel as nat),
        decreases length - i,
    {
        let element = array.index(heap, i);
        element.feed(heap, fuel, out);
        i += 1;
        assert(out@ =~= start + feed_elements(heap@, elements, i as nat, fuel as nat));
    }
}

/// Adds the words that entries feed.
fn feed_sorted(entries: &Vec<(VmValue, VmValue)>, heap: &Heap, fuel: usize, out: &mut Vec<u64>)
    ensures
        final(out)@ == old(out)@ + feed_entries(
            heap@,
            entry_views(entries@),
            entries@.len(),
            fuel as nat,
        ),
    decreases fuel, 1nat,
{
    let ghost views = entry_views(entries@);
    let ghost start = out@;
    let mut i: usize = 0;
    assert(out@ =~= start + feed_entries(heap@, views, 0, fuel as nat));
    while i < entries.len()
        invariant
            i <= entries.len(),
            views == entry_views(entries@),
            out@ == start + feed_entries(heap@, views, i as nat, fuel as nat),
        decreases entries.len() - i,
    {
        entries[i].0.feed(heap, fuel, out);
        entries[i].1.feed(heap, fuel, out);
        i += 1;
        assert(out@ =~= start + feed_entries(heap@, views, i as nat, fuel as nat));
    }
}

/// Two objects with the same entries, whose keys all differ and have an order, hash alike
/// in whatever order their entries were written.
pub proof fn law_hash_forgets_the_order_of_writing(heap: HeapView, a: usize, b: usize)
    requires
        crate::object::strictly_ordered(heap.object(a)),
        crate::object::strictly_ordered(heap.object(b)),
        heap.object(a).to_multiset() == heap.object(b).to_multiset(),
    ensures
        spec_hash(heap, Value::Object(a)) == spec_hash(heap, Value::Object(b)),
{
    crate::object::law_sorting_forgets_the_order_of_writing(
        heap.object(a),
        heap.object(b),
        heap.object(a),
    );
}

} // verus!
