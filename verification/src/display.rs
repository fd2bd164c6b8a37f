//! The display form of values.

use crate::array::DynamicArray;
use crate::heap::{entry_views, Heap, HeapView};
use crate::object::Object;
use crate::text::{decimal, i32_text, repeat_text, repeated};
use crate::value::{Value, VmValue};
use vstd::prelude::*;
use vstd::string::*;

verus! {

/// A piece of rendered output: text as it stands, or a float that is yet to be written out
/// in decimal by whoever prints the piece.
#[derive(Debug)]
pub enum Piece {
    Text(String),
    Float(u64),
}

/// The mathematical content of a [`Piece`].
pub enum PieceView {
    Text(Seq<char>),
    Float(u64),
}

impl View for Piece {
    type V = PieceView;

    open spec fn view(&self) -> PieceView {
        match self {
            Piece::Text(s) => PieceView::Text(s@),
            Piece::Float(bits) => PieceView::Float(*bits),
        }
    }
}

/// The views of a sequence of pieces, one for one.
pub open spec fn piece_views(pieces: Seq<Piece>) -> Seq<PieceView> {
    pieces.map_values(|p: Piece| p@)
}

/// One piece of text.
pub open spec fn text(s: Seq<char>) -> Seq<PieceView> {
    seq![PieceView::Text(s)]
}

/// The break that a container of three or more items puts before and between its items: a
/// new line, indented by two spaces for each level.
pub open spec fn item_break(long: bool, indent: nat) -> Seq<PieceView> {
    if long {
        text("\n"@ + repeated("  "@, indent))
    } else {
        Seq::empty()
    }
}

/// The level one above, but not above the outermost.
pub open spec fn outdent(indent: nat) -> nat {
    if indent == 0 {
        0
    } else {
        (indent - 1) as nat
    }
}

/// What separates an item from the next: nothing behind the last item, else a comma and a
/// space, and in a long container the break.
pub open spec fn separator(i: int, len: nat, long: bool, indent: nat) -> Seq<PieceView> {
    if i < len - 1 {
        text(", "@) + item_break(long, indent)
    } else {
        Seq::empty()
    }
}

/// The padding inside the braces of an object of one or two entries.
pub open spec fn brace_pad(len: nat) -> Seq<PieceView> {
    if 0 < len < 3 {
        text(" "@)
    } else {
        Seq::empty()
    }
}

/// The form of a value at a level of indentation. A float is a piece of its own; an
/// integer is its decimal text; a string stands in double quotes. An array stands in
/// brackets and an object in braces, an entry of an object as its key in brackets, a colon
/// and its value. A container of fewer than three items stands on one line, its items in
/// the form of the outermost level; a longer one has each item on a line of its own, one
/// level further in.
///
/// `fuel` bounds how deep containers are entered: a container that would be entered with
/// none left is shown as an ellipsis in its brackets.
pub open spec fn inspect(heap: HeapView, v: Value, indent: nat, fuel: nat) -> Seq<PieceView>
    decreases fuel, 0nat, 0nat,
{
    match v {
        Value::Float(bits) => seq![PieceView::Float(bits)],
        Value::Int(i) => text(decimal(i as int)),
        Value::Boolean(b) => text(
            if b {
                "true"@
            } else {
                "false"@
            },
        ),
        Value::Str(s) => text("\""@ + s + "\""@),
        Value::Null => text("null"@),
        Value::Array(id) => if fuel == 0 {
            text("[...]"@)
        } else {
            let elements = heap.array(id);
            let long = elements.len() >= 3;
            text("["@) + item_break(long, indent) + inspect_elements(
                heap,
                elements,
                elements.len(),
                indent,
                (fuel - 1) as nat,
            ) + item_break(long, outdent(indent)) + text("]"@)
        },
        Value::Object(id) => if fuel == 0 {
            text("{...}"@)
        } else {
            let entries = heap.object(id);
            let long = entries.len() >= 3;
            text("{"@) + item_break(long, indent) + brace_pad(entries.len()) + inspect_entries(
                heap,
                entries,
                entries.len(),
                indent,
                (fuel - 1) as nat,
            ) + item_break(long, outdent(indent)) + brace_pad(entries.len()) + text("}"@)
        },
    }
}

/// The form of an item of a container: one level further in where the container is long,
/// at the outermost level otherwise.
pub open spec fn inspect_item(heap: HeapView, v: Value, long: bool, indent: nat, fuel: nat) -> Seq<
    PieceView,
>
    decreases fuel, 1nat, 0nat,
{
    if long {
        inspect(heap, v, indent + 1, fuel)
    } else {
        inspect(heap, v, 1, fuel)
    }
}

/// The form of element `i` of an array with what separates it from the next.
pub open spec fn inspect_element(
    heap: HeapView,
    elements: Seq<Value>,
    i: int,
    indent: nat,
    fuel: nat,
) -> Seq<PieceView>
    decreases fuel, 2nat, 0nat,
{
    let long = elements.len() >= 3;
    inspect_item(heap, elements[i], long, indent, fuel) + separator(
        i,
        elements.len(),
        long,
        indent,
    )
}

/// The form of entry `i` of an object with what separates it from the next: the key in
/// brackets, a colon, the value.
pub open spec fn inspect_entry(
    heap: HeapView,
    entries: Seq<(Value, Value)>,
    i: int,
    indent: nat,
    fuel: nat,
) -> Seq<PieceView>
    decreases fuel, 2nat, 0nat,
{
    let long = entries.len() >= 3;
    text("["@) + inspect(heap, entries[i].0, 1, fuel) + text("]: "@) + inspect_item(
        heap,
        entries[i].1,
        long,
        indent,
        fuel,
    ) + separator(i, entries.len(), long, indent)
}

/// The forms of the first `n` elements of an array, each with what separates it from the
/// next.
pub open spec fn inspect_elements(
    heap: HeapView,
    elements: Seq<Value>,
    n: nat,
    indent: nat,
    fuel: nat,
) -> Seq<PieceView>
    decreases fuel, 3nat, n,
{
    if n == 0 || n > elements.len() {
        Seq::empty()
    } else {
        inspect_elements(heap, elements, (n - 1) as nat, indent, fuel) + inspect_element(
            heap,
            elements,
            n - 1,
            indent,
            fuel,
        )
    }
}

/// The forms of the first `n` entries of an object, each with what separates it from the
/// next.
pub open spec fn inspect_entries(
    heap: HeapView,
    entries: Seq<(Value, Value)>,
    n: nat,
    indent: nat,
    fuel: nat,
) -> Seq<PieceView>
    decreases fuel, 3nat, n,
{
    if n == 0 || n > entries.len() {
        Seq::empty()
    } else {
        inspect_entries(heap, entries, (n - 1) as nat, indent, fuel) + inspect_entry(
            heap,
            entries,
            n - 1,
            indent,
            fuel,
        )
    }
}

/// The deepest that containers are ever entered.
pub const MAX_DEPTH: usize = 1024;

/// The deepest that containers of a heap are entered: deeper than containers can be nested
/// in a heap in which none holds itself, so that only a heap with such a loop is cut short,
/// but never deeper than [`MAX_DEPTH`].
pub open spec fn depth_limit(heap: HeapView) -> nat {
    if heap.arrays.len() + heap.objects.len() + 1 <= MAX_DEPTH {
        heap.arrays.len() + heap.objects.len() + 1
    } else {
        MAX_DEPTH as nat
    }
}

/// The display form of a value: its form at the outermost level.
pub open spec fn spec_display(heap: HeapView, v: Value) -> Seq<PieceView> {
    inspect(heap, v, 1, depth_limit(heap))
}

/// What printing a value writes: a string as it stands, without quotes, anything else in
/// its display form.
pub open spec fn spec_print_line(heap: HeapView, v: Value) -> Seq<PieceView> {
    match v {
        Value::Str(s) => text(s),
        _ => spec_display(heap, v),
    }
}

/// Adds a piece of text.
fn put(out: &mut Vec<Piece>, s: String)
    ensures
        piece_views(final(out)@) == piece_views(old(out)@) + text(s@),
{
    out.push(Piece::Text(s));
    assert(piece_views(out@) =~= piece_views(old(out)@) + text(s@));
}

/// Adds a literal piece of text.
fn put_str(out: &mut Vec<Piece>, s: &str)
    ensures
        piece_views(final(out)@) == piece_views(old(out)@) + text(s@),
{
    put(out, String::from_str(s));
}

/// Adds the break of a long container.
fn put_break(out: &mut Vec<Piece>, long: bool, indent: usize)
    ensures
        piece_views(final(out)@) == piece_views(old(out)@) + item_break(long, indent as nat),
{
    if long {
        put(out, String::from_str("\n").concat(repeat_text("  ", indent).as_str()));
    } else {
        assert(piece_views(out@) =~= piece_views(old(out)@) + item_break(long, indent as nat));
    }
}

/// Adds what separates item `i` of `len` from the next.
fn put_separator(out: &mut Vec<Piece>, i: usize, len: usize, long: bool, indent: usize)
    requires
        i < len,
    ensures
        piece_views(final(out)@) == piece_views(old(out)@) + separator(
            i as int,
            len as nat,
            long,
            indent as nat,
        ),
{
    if i < len - 1 {
        put_str(out, ", ");
        put_break(out, long, indent);
        assert(piece_views(out@) =~= piece_views(old(out)@) + separator(
            i as int,
            len as nat,
            long,
            indent as nat,
        ));
    } else {
        assert(piece_views(out@) =~= piece_views(old(out)@) + separator(
            i as int,
            len as nat,
            long,
            indent as nat,
        ));
    }
}

/// Adds the padding inside the braces of a short object.
fn put_brace_pad(out: &mut Vec<Piece>, len: usize)
    ensures
        piece_views(final(out)@) == piece_views(old(out)@) + brace_pad(len as nat),
{
    if 0 < len && len < 3 {
        put_str(out, " ");
    } else {
        assert(piece_views(out@) =~= piece_views(old(out)@) + brace_pad(len as nat));
    }
}

/// The level one above, but not above the outermost.
fn outdented(indent: usize) -> (r: usize)
    ensures
        r == outdent(indent as nat),
{
    if indent == 0 {
        0
    } else {
        indent - 1
    }
}

impl VmValue {
    /// Adds the form of the value at a level of indentation to `out`, entering containers
    /// at most `fuel` deep.
    pub fn inspect(&self, heap: &Heap, indent: usize, fuel: usize, out: &mut Vec<Piece>)
        requires
            indent + fuel < usize::MAX,
        ensures
            piece_views(final(out)@) == piece_views(old(out)@) + inspect(
                heap@,
                self@,
                indent as nat,
                fuel as nat,
            ),
        decreases fuel, 0nat,
    {
        let ghost start = piece_views(out@);
        match self {
            VmValue::Float(bits) => {
                out.push(Piece::Float(*bits));
                assert(piece_views(out@) =~= start + seq![PieceView::Float(*bits)]);
            },
            VmValue::Int(i) => put(out, i32_text(*i)),
            VmValue::Boolean(b) => {
                if *b {
                    put_str(out, "true");
                } else {
                    put_str(out, "false");
                }
            },
            VmValue::String(s) => put(out, String::from_str("\"").concat(s.as_str()).concat("\"")),
            VmValue::Null => put_str(out, "null"),
            VmValue::DynamicArray(array) => {
                if fuel == 0 {
                    put_str(out, "[...]");
                    return ;
                }
                let long = array.len(heap) >= 3;
                put_str(out, "[");
                put_break(out, long, indent);
                put_elements(array, heap, indent, fuel - 1, out);
                put_break(out, long, outdented(indent));
                put_str(out, "]");
                assert(piece_views(out@) =~= start + inspect(
                    heap@,
                    self@,
                    indent as nat,
                    fuel as nat,
                ));
            },
            VmValue::Object(object) => {
                if fuel == 0 {
                    put_str(out, "{...}");
                    return ;
                }
                let length = object.len(heap);
                let long = length >= 3;
                put_str(out, "{");
                put_break(out, long, indent);
                put_brace_pad(out, length);
                put_entries(object, heap, indent, fuel - 1, out);
                put_break(out, long, outdented(indent));
                put_brace_pad(out, length);
                put_str(out, "}");
                assert(piece_views(out@) =~= start + inspect(
                    heap@,
                    self@,
                    indent as nat,
                    fuel as nat,
                ));
            },
        }
    }
}

/// Adds the form of an item of a container.
fn put_item(v: &VmValue, heap: &Heap, long: bool, indent: usize, fuel: usize, out: &mut Vec<Piece>)
    requires
        indent + fuel + 1 < usize::MAX,
    ensures
        piece_views(final(out)@) == piece_views(old(out)@) + inspect_item(
            heap@,
            v@,
            long,
            indent as nat,
            fuel as nat,
        ),
    decreases fuel, 1nat,
{
    if long {
        v.inspect(heap, indent + 1, fuel, out);
    } else {
        v.inspect(heap, 1, fuel, out);
    }
}

/// Adds the form of element `i` of an array with what separates it from the next.
fn put_element(
    array: &DynamicArray,
    heap: &Heap,
    i: usize,
    indent: usize,
    fuel: usize,
    out: &mut Vec<Piece>,
)
    requires
        indent + fuel + 1 < usize::MAX,
        i < heap@.array(array.id).len(),
    ensures
        piece_views(final(out)@) == piece_views(old(out)@) + inspect_element(
            heap@,
            heap@.array(array.id),
            i as int,
            indent as nat,
            fuel as nat,
        ),
    decreases fuel, 2nat,
{
    let length = array.len(heap);
    let long = length >= 3;
    let element = array.index(heap, i);
    put_item(&element, heap, long, indent, fuel, out);
    put_separator(out, i, length, long, indent);
    assert(piece_views(out@) =~= piece_views(old(out)@) + inspect_element(
        heap@,
        heap@.array(array.id),
        i as int,
        indent as nat,
        fuel as nat,
    ));
}

/// Adds the form of entry `i` of an object with what separates it from the next.
fn put_entry(
    object: &Object,
    heap: &Heap,
    i: usize,
    indent: usize,
    fuel: usize,
    out: &mut Vec<Piece>,
)
    requires
        indent + fuel + 1 < usize::MAX,
        i < heap@.object(object.id).len(),
    ensures
        piece_views(final(out)@) == piece_views(old(out)@) + inspect_entry(
            heap@,
            heap@.object(object.id),
            i as int,
            indent as nat,
            fuel as nat,
        ),
    decreases fuel, 2nat,
{
    let length = object.len(heap);
    let long = length >= 3;
    assert(heap@.object(object.id) == entry_views(heap.objects@[object.id as int]@));
    let entry = &heap.objects[object.id][i];
    put_str(out, "[");
    entry.0.inspect(heap, 1, fuel, out);
    put_str(out, "]: ");
    put_item(&entry.1, heap, long, indent, fuel, out);
    put_separator(out, i, length, long, indent);
    assert(piece_views(out@) =~= piece_views(old(out)@) + inspect_entry(
        heap@,
        heap@.object(object.id),
        i as int,
        indent as nat,
        fuel as nat,
    ));
}

/// Adds the forms of the elements of an array.
fn put_elements(array: &DynamicArray, heap: &Heap, indent: usize, fuel: usize, out: &mut Vec<Piece>)
    requires
        indent + fuel + 1 < usize::MAX,
    ensures
        piece_views(final(out)@) == piece_views(old(out)@) + inspect_elements(
            heap@,
            heap@.array(array.id),
            heap@.array(array.id).len(),
            indent as nat,
            fuel as nat,
        ),
    decreases fuel, 3nat,
{
    let length = array.len(heap);
    let ghost elements = heap@.array(array.id);
    let ghost start = piece_views(out@);
    let mut i: usize = 0;
    assert(piece_views(out@) =~= start + inspect_elements(
        heap@,
        elements,
        0,
        indent as nat,
        fuel as nat,
    ));
    while i < length
        invariant
            i <= length,
            length == elements.len(),
            elements == heap@.array(array.id),
            indent + fuel + 1 < usize::MAX,
            piece_views(out@) == start + inspect_elements(
                heap@,
                elements,
                i as nat,
                indent as nat,
                fuel as nat,
            ),
        decreases length - i,
    {
        put_element(array, heap, i, indent, fuel, out);
        i += 1;
        assert(piece_views(out@) =~= start + inspect_elements(
            heap@,
            elements,
            i as nat,
            indent as nat,
            fuel as nat,
        ));
    }
}

/// Adds the forms of the entries of an object.
fn put_entries(object: &Object, heap: &Heap, indent: usize, fuel: usize, out: &mut Vec<Piece>)
    requires
        indent + fuel + 1 < usize::MAX,
    ensures
        piece_views(final(out)@) == piece_views(old(out)@) + inspect_entries(
            heap@,
            heap@.object(object.id),
            heap@.object(object.id).len(),
            indent as nat,
            fuel as nat,
        ),
    decreases fuel, 3nat,
{
    let length = object.len(heap);
    let ghost entries = heap@.object(object.id);
    let ghost start = piece_views(out@);
    let mut i: usize = 0;
    assert(piece_views(out@) =~= start + inspect_entries(
        heap@,
        entries,
        0,
        indent as nat,
        fuel as nat,
    ));
    while i < length
        invariant
            i <= length,
            length == entries.len(),
            entries == heap@.object(object.id),
            indent + fuel + 1 < usize::MAX,
            piece_views(out@) == start + inspect_entries(
                heap@,
                entries,
                i as nat,
                indent as nat,
                fuel as nat,
            ),
        decreases length - i,
    {
        put_entry(object, heap, i, indent, fuel, out);
        i += 1;
        assert(piece_views(out@) =~= start + inspect_entries(
            heap@,
            entries,
            i as nat,
            indent as nat,
            fuel as nat,
        ));
    }
}

/// The deepest that containers are entered when a value of the heap is shown.
pub fn depth_limit_of(heap: &Heap) -> (r: usize)
    ensures
        r == depth_limit(heap@),
        r <= MAX_DEPTH,
{
    let arrays = heap.arrays.len();
    let objects = heap.objects.len();
    if arrays < MAX_DEPTH && objects < MAX_DEPTH - arrays {
        arrays + objects + 1
    } else {
        MAX_DEPTH
    }
}

/// The display form of a value.
pub fn display(heap: &Heap, v: &VmValue) -> (pieces: Vec<Piece>)
    ensures
        piece_views(pieces@) == spec_display(heap@, v@),
{
    let mut pieces: Vec<Piece> = Vec::new();
    v.inspect(heap, 1, depth_limit_of(heap), &mut pieces);
    assert(piece_views(pieces@) =~= spec_display(heap@, v@));
    pieces
}

/// Renders a value as printing writes it.
pub fn print_line(heap: &Heap, v: &VmValue) -> (line: Vec<Piece>)
    ensures
        piece_views(line@) == spec_print_line(heap@, v@),
{
    match v {
        VmValue::String(s) => {
            let mut line: Vec<Piece> = Vec::new();
            put(&mut line, s.clone());
            assert(piece_views(line@) =~= spec_print_line(heap@, v@));
            line
        },
        _ => display(heap, v),
    }
}

} // verus!
