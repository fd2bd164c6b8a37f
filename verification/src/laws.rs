//! What holds of the machine and of the codec as a whole.

use crate::arith::{
    clamp, divides, floor_div, spec_arith, spec_float_request, ArithOp, ArithView, Narrow,
};
use crate::error::vm::Fault;
use crate::float::spec_widen;
use crate::heap::{position, position_from, unique_keys, HeapView};
use crate::index::{spec_write_index, spec_write_position};
use crate::instruction::Instruction;
use crate::serde::deserializer::{
    array_parser, decoded, entry_parser, object_parser, parse_body, parse_heap, parse_version,
    record_parser,
};
use crate::serde::record::lemma_record_round_trip;
use crate::serde::serializer::{
    array_encoder, enc_heap, enc_program, entries_fit, entry_encoder, heap_fits, object_encoder,
    program_fits, record_encoder,
};
use crate::serde::wire::{
    enc_list, enc_value, enc_values, lemma_list_round_trip, lemma_value_round_trip,
    lemma_values_round_trip, lemma_varint_round_trip, reads_back, varint,
};
use crate::serde::{ProgramError, ProgramView, CURRENT_VERSION};
use crate::state::{execute, failed, runs, step, VmState};
use crate::order::{lemma_lex_equal, Order};
use crate::value::{Relation, Value};
use vstd::prelude::*;
use vstd::utf8::{encode_utf8, encode_utf8_decode_utf8};

verus! {

/// The floored quotient lies at or below the true quotient and less than one below it: for a
/// positive divisor `q * b <= a < (q + 1) * b`, and the mirror image for a negative one.
pub proof fn law_floor_div_is_floor(a: int, b: int)
    requires
        b != 0,
    ensures
        b > 0 ==> floor_div(a, b) * b <= a < (floor_div(a, b) + 1) * b,
        b < 0 ==> floor_div(a, b) * b >= a > (floor_div(a, b) + 1) * b,
{
    if b > 0 {
        vstd::arithmetic::div_mod::lemma_fundamental_div_mod(a, b);
        let q = a / b;
        assert(q * b == b * q) by (nonlinear_arith);
        assert((q + 1) * b == q * b + b) by (nonlinear_arith);
    } else {
        vstd::arithmetic::div_mod::lemma_fundamental_div_mod(-a, -b);
        let q = (-a) / (-b);
        assert(q * b == -((-b) * q)) by (nonlinear_arith);
        assert((q + 1) * b == q * b + b) by (nonlinear_arith);
    }
}

/// The floored division of two integers, the divisor not zero, is the floor of their
/// quotient as an integer, taken to the nearest bound where it does not fit (which is so
/// only for the least integer divided by -1).
pub proof fn law_idiv_of_ints(a: i32, b: i32)
    requires
        b != 0,
    ensures
        spec_arith(ArithOp::FloorDiv, Value::Int(a), Value::Int(b)) == ArithView::Done(
            Value::Int(clamp(floor_div(a as int, b as int))),
        ),
        !(a == i32::MIN && b == -1) ==> clamp(floor_div(a as int, b as int)) == floor_div(
            a as int,
            b as int,
        ),
{
    law_floor_div_is_floor(a as int, b as int);
    let q = floor_div(a as int, b as int);
    if !(a == i32::MIN && b == -1) {
        if b > 0 {
            assert(i32::MIN <= q <= i32::MAX) by (nonlinear_arith)
                requires
                    q * b <= a < (q + 1) * b,
                    b >= 1,
                    i32::MIN <= a <= i32::MAX,
            ;
        } else {
            assert(i32::MIN <= q <= i32::MAX) by (nonlinear_arith)
                requires
                    q * b >= a > (q + 1) * b,
                    b <= -1,
                    i32::MIN <= a <= i32::MAX,
                    !(a == i32::MIN && b == -1),
            ;
        }
    }
}

/// The division of two integers is an integer where the quotient is exact: then it is that
/// quotient. Where it is not exact, or the divisor is zero, the quotient of the widened
/// operands is asked for, and the answer stays a float unless it is whole.
pub proof fn law_div_of_ints(a: i32, b: i32)
    ensures
        divides(b as int, a as int) ==> spec_arith(ArithOp::Div, Value::Int(a), Value::Int(b))
            == ArithView::Done(Value::Int(clamp(floor_div(a as int, b as int)))) && floor_div(
            a as int,
            b as int,
        ) * b == a,
        !divides(b as int, a as int) ==> spec_arith(ArithOp::Div, Value::Int(a), Value::Int(b))
            == ArithView::Ask(
            spec_float_request(ArithOp::Div, spec_widen(a), spec_widen(b)),
            Narrow::IfWhole,
        ),
{
    if divides(b as int, a as int) {
        law_floor_div_is_floor(a as int, b as int);
        let q = floor_div(a as int, b as int);
        let am = crate::float::abs(a as int) as int;
        let bm = crate::float::abs(b as int) as int;
        vstd::arithmetic::div_mod::lemma_fundamental_div_mod(am, bm);
        let k = am / bm;
        assert(am == bm * k);
        // a is a multiple of b, and the floor of an exact quotient is the quotient
        let m: int = if (a < 0) == (b < 0) {
            k
        } else {
            -k
        };
        assert(m * b == a) by (nonlinear_arith)
            requires
                am == bm * k,
                am == (if a < 0 {
                    -a
                } else {
                    a as int
                }),
                bm == (if b < 0 {
                    -b
                } else {
                    b as int
                }),
                m == (if (a < 0) == (b < 0) {
                    k
                } else {
                    -k
                }),
        ;
        if b > 0 {
            assert(q == m) by (nonlinear_arith)
                requires
                    q * b <= a < (q + 1) * b,
                    m * b == a,
                    b > 0,
            ;
        } else {
            assert(q == m) by (nonlinear_arith)
                requires
                    q * b >= a > (q + 1) * b,
                    m * b == a,
                    b < 0,
            ;
        }
    }
}

/// Reading an array at or beyond its length gives `Null`. Writing there grows the array to
/// end with the written element: the slots in between read as `Null`, and the elements
/// that were there stay.
pub proof fn law_array_grows_on_write(heap: HeapView, id: usize, index: int, value: Value)
    requires
        heap.has_array(id),
        index >= heap.array(id).len(),
    ensures
        heap.array_read(id, index) == Value::Null,
        heap.array_write(id, index, value).array(id).len() == index + 1,
        heap.array_write(id, index, value).array_read(id, index) == value,
        forall|k: int|
            heap.array(id).len() <= k < index ==> #[trigger] heap.array_write(
                id,
                index,
                value,
            ).array_read(id, k) == Value::Null,
        forall|k: int|
            0 <= k < heap.array(id).len() ==> #[trigger] heap.array_write(
                id,
                index,
                value,
            ).array_read(id, k) == heap.array_read(id, k),
{
}

/// After `STORE` of a register that holds an array, the variable holds the same handle as
/// the register: an element written through the variable's handle is read through the
/// register's, and the other way round.
pub proof fn law_store_aliases(
    s: VmState,
    count: usize,
    source: usize,
    name: String,
    id: usize,
    index: int,
    value: Value,
)
    requires
        s.register(source) == Ok::<Value, Fault>(Value::Array(id)),
        s.heap.has_array(id),
        index >= 0,
    ensures
        ({
            let after = execute(s, count, Instruction::STORE { source, name });
            let t = after.state;
            &&& after.fault.is_none()
            &&& t.heap == s.heap
            &&& t.lookup(name@) == t.register(source)
            &&& t.lookup(name@) matches Ok(Value::Array(through_variable)) && t.register(
                source,
            ) matches Ok(Value::Array(through_register)) && t.heap.array_write(
                through_variable,
                index,
                value,
            ).array_read(through_register, index) == value && t.heap.array_write(
                through_register,
                index,
                value,
            ).array_read(through_variable, index) == value
        }),
{
    reveal(execute);
}

/// After `LOAD` of a variable that holds an array, the register holds the same handle as
/// the variable: an element written through the register's handle is read through the
/// variable's, and the other way round.
pub proof fn law_load_aliases(
    s: VmState,
    count: usize,
    target: usize,
    name: String,
    id: usize,
    index: int,
    value: Value,
)
    requires
        s.lookup(name@) == Ok::<Value, Fault>(Value::Array(id)),
        target < s.registers.len(),
        s.heap.has_array(id),
        index >= 0,
    ensures
        ({
            let after = execute(s, count, Instruction::LOAD { target, name });
            let t = after.state;
            &&& after.fault.is_none()
            &&& t.heap == s.heap
            &&& t.lookup(name@) == t.register(target)
            &&& t.lookup(name@) matches Ok(Value::Array(through_variable)) && t.register(
                target,
            ) matches Ok(Value::Array(through_register)) && t.heap.array_write(
                through_register,
                index,
                value,
            ).array_read(through_variable, index) == value && t.heap.array_write(
                through_variable,
                index,
                value,
            ).array_read(through_register, index) == value
        }),
{
    reveal(execute);
}

/// A machine that is about to execute an instruction: it waits for no answer, and its
/// program counter stands at the instruction.
pub open spec fn stands_at(program: Seq<Instruction>, s: VmState, ins: Instruction) -> bool {
    s.pending.is_none() && s.pc < program.len() && program[s.pc as int] == ins
}

/// A call to an address of the program goes there. A return in any later state whose call
/// stack is what the call left goes on at the instruction behind the call, and leaves the
/// call stack as it was before the call.
pub proof fn law_call_then_return(
    program: Seq<Instruction>,
    s: VmState,
    later: VmState,
    address: usize,
)
    requires
        program.len() <= usize::MAX,
        stands_at(program, s, Instruction::CALL(address)),
        address < program.len(),
        stands_at(program, later, Instruction::RETURN),
        later.call_stack == step(program, s).state.call_stack,
    ensures
        step(program, s).fault.is_none(),
        step(program, s).state.pc == address,
        step(program, later).fault.is_none(),
        step(program, later).state.pc == s.pc + 1,
        step(program, later).state.call_stack == s.call_stack,
{
    reveal(execute);
    assert(s.call_stack.push((s.pc + 1) as usize).drop_last() =~= s.call_stack);
}

/// A return with an empty call stack is the fault for it: but for the program counter,
/// which has moved behind the return, nothing changes.
pub proof fn law_return_without_call(program: Seq<Instruction>, s: VmState)
    requires
        stands_at(program, s, Instruction::RETURN),
        s.call_stack.len() == 0,
    ensures
        step(program, s) == failed(
            VmState { pc: (s.pc + 1) as usize, ..s },
            Fault::CallStackEmpty,
        ),
{
    reveal(execute);
}

/// A jump or a call to an address at or beyond the number of instructions is the fault for
/// it: the program counter, which has moved behind the instruction, is not set to the
/// address, no frame is pushed, and nothing else changes.
pub proof fn law_jump_out_of_bounds(program: Seq<Instruction>, s: VmState, address: usize)
    requires
        program.len() <= usize::MAX,
        address >= program.len(),
    ensures
        stands_at(program, s, Instruction::JMP(address)) ==> step(program, s) == failed(
            VmState { pc: (s.pc + 1) as usize, ..s },
            Fault::ProgramCounterOutOfBounds,
        ),
        stands_at(program, s, Instruction::CALL(address)) ==> step(program, s) == failed(
            VmState { pc: (s.pc + 1) as usize, ..s },
            Fault::ProgramCounterOutOfBounds,
        ),
{
    reveal(execute);
}

/// A key that is found from a position on is found at a position at or behind it, and no
/// entry before that position, from the start of the search on, has the key.
pub proof fn lemma_position_from(entries: Seq<(Value, Value)>, key: Value, i: int)
    requires
        0 <= i <= entries.len(),
    ensures
        i <= position_from(entries, key, i) <= entries.len(),
        position_from(entries, key, i) < entries.len() ==> entries[position_from(
            entries,
            key,
            i,
        )].0.same_key(key),
        forall|k: int|
            i <= k < position_from(entries, key, i) ==> !(#[trigger] entries[k]).0.same_key(key),
    decreases entries.len() - i,
{
    if i < entries.len() && !entries[i].0.same_key(key) {
        lemma_position_from(entries, key, i + 1);
    }
}

/// Writing under a key keeps the keys of every object unique: the object has the key once
/// afterwards, with the value written, and its other entries are as they were.
pub proof fn law_object_write_keeps_keys_unique(heap: HeapView, id: usize, key: Value, value: Value)
    requires
        heap.wf(),
    ensures
        heap.object_write(id, key, value).wf(),
        heap.has_object(id) && !(key matches Value::Float(bits) && crate::float::is_nan(bits))
            ==> heap.object_write(id, key, value).object_read(id, key) == value,
{
    let after = heap.object_write(id, key, value);
    if heap.has_object(id) {
        let entries = heap.objects[id as int];
        let at = position(entries, key);
        lemma_position_from(entries, key, 0);
        let written = after.objects[id as int];
        assert(unique_keys(entries));
        assert(unique_keys(written)) by {
            assert forall|i: int, j: int| 0 <= i < j < written.len() implies !(
            #[trigger] written[i]).0.same_key((#[trigger] written[j]).0) by {
                if at < entries.len() {
                    assert(written[i].0 == entries[i].0);
                    assert(written[j].0 == entries[j].0);
                } else {
                    if j < entries.len() {
                        assert(written[i].0 == entries[i].0);
                        assert(written[j].0 == entries[j].0);
                    } else {
                        assert(written[j].0 == key);
                        assert(!entries[i].0.same_key(key));
                    }
                }
            }
        }
        assert forall|k: int| 0 <= k < after.objects.len() implies unique_keys(
            #[trigger] after.objects[k],
        ) by {
            if k != id {
                assert(after.objects[k] == heap.objects[k]);
            }
        }
        if !(key matches Value::Float(bits) && crate::float::is_nan(bits)) {
            lemma_position_from(written, key, 0);
            let found = position(written, key);
            if at < entries.len() {
                assert(written[at].0.same_key(key));
                assert(found <= at);
                if found < at {
                    assert(written[found].0 == entries[found].0);
                }
            } else {
                assert(written[entries.len() as int].0.same_key(key));
                if found < entries.len() {
                    assert(written[found].0 == entries[found].0);
                }
            }
        }
    }
}

/// A heap is read back, whatever follows it.
pub proof fn lemma_heap_round_trip(heap: HeapView, rest: Seq<u8>)
    requires
        heap_fits(heap),
    ensures
        parse_heap(enc_heap(heap) + rest) == Some((heap, rest)),
{
    let second = enc_list(heap.objects, object_encoder()) + rest;
    assert(enc_heap(heap) + rest =~= enc_list(heap.arrays, array_encoder()) + second);
    assert forall|k: int| 0 <= k < heap.arrays.len() implies reads_back(
        #[trigger] heap.arrays[k],
        array_encoder(),
        array_parser(),
    ) by {
        assert forall|r: Seq<u8>| #[trigger]
            array_parser()(array_encoder()(heap.arrays[k]) + r) == Some((heap.arrays[k], r)) by {
            lemma_values_round_trip(heap.arrays[k], r);
        }
    }
    lemma_list_round_trip(heap.arrays, array_encoder(), array_parser(), second);
    assert forall|k: int| 0 <= k < heap.objects.len() implies reads_back(
        #[trigger] heap.objects[k],
        object_encoder(),
        object_parser(),
    ) by {
        let entries = heap.objects[k];
        assert(entries_fit(entries));
        assert forall|r: Seq<u8>| #[trigger]
            object_parser()(object_encoder()(entries) + r) == Some((entries, r)) by {
            assert forall|j: int| 0 <= j < entries.len() implies reads_back(
                #[trigger] entries[j],
                entry_encoder(),
                entry_parser(),
            ) by {
                let e = entries[j];
                assert forall|q: Seq<u8>| #[trigger]
                    entry_parser()(entry_encoder()(e) + q) == Some((e, q)) by {
                    assert(entry_encoder()(e) + q =~= enc_value(e.0) + (enc_value(e.1) + q));
                    lemma_value_round_trip(e.0, enc_value(e.1) + q);
                    lemma_value_round_trip(e.1, q);
                }
            }
            lemma_list_round_trip(entries, entry_encoder(), entry_parser(), r);
        }
    }
    lemma_list_round_trip(heap.objects, object_encoder(), object_parser(), rest);
}

/// Reading what was written gives the program back, whatever bytes follow it: a program of
/// the current version is read as the same program, and one of another version is refused
/// as being of that version.
pub proof fn law_codec_round_trip(p: ProgramView, rest: Seq<u8>)
    requires
        program_fits(p),
    ensures
        p.version == CURRENT_VERSION ==> decoded(enc_program(p) + rest) == Ok::<
            ProgramView,
            ProgramError,
        >(p),
        p.version != CURRENT_VERSION ==> decoded(enc_program(p) + rest) == Err::<
            ProgramView,
            ProgramError,
        >(ProgramError::UnsupportedVersion(p.version)),
{
    let t3 = enc_heap(p.heap) + rest;
    let t2 = enc_list(p.instructions, record_encoder()) + t3;
    let t1 = enc_values(p.constant_pool) + t2;
    assert(enc_program(p) + rest =~= varint(p.version as u64) + t1);
    lemma_varint_round_trip(p.version as u64, t1);
    assert(parse_version(enc_program(p) + rest) == Some((p.version, t1)));
    lemma_values_round_trip(p.constant_pool, t2);
    assert forall|k: int| 0 <= k < p.instructions.len() implies reads_back(
        #[trigger] p.instructions[k],
        record_encoder(),
        record_parser(),
    ) by {
        assert forall|r: Seq<u8>| #[trigger]
            record_parser()(record_encoder()(p.instructions[k]) + r) == Some(
                (p.instructions[k], r),
            ) by {
            lemma_record_round_trip(p.instructions[k], r);
        }
    }
    lemma_list_round_trip(p.instructions, record_encoder(), record_parser(), t3);
    lemma_heap_round_trip(p.heap, rest);
    assert(parse_body(p.version, t1) == Some(p));
}

/// Whatever is written to a container by key or by position, every object still has unique
/// keys afterwards.
pub proof fn lemma_writes_keep_keys_unique(heap: HeapView)
    requires
        heap.wf(),
    ensures
        forall|container: Value, key: Value, value: Value|
            #![trigger spec_write_index(heap, container, key, value)]
            spec_write_index(heap, container, key, value).is_ok() ==> spec_write_index(
                heap,
                container,
                key,
                value,
            )->Ok_0.wf(),
        forall|container: Value, at: usize, value: Value|
            #![trigger spec_write_position(heap, container, at, value)]
            spec_write_position(heap, container, at, value).wf(),
        forall|id: usize, value: Value| #![trigger heap.array_push(id, value)]
            heap.array_push(id, value).wf(),
        heap.with_array().wf(),
        heap.with_object().wf(),
{
    assert forall|container: Value, key: Value, value: Value|
        #![trigger spec_write_index(heap, container, key, value)]
        spec_write_index(heap, container, key, value).is_ok() implies spec_write_index(
        heap,
        container,
        key,
        value,
    )->Ok_0.wf() by {
        if let Value::Object(id) = container {
            law_object_write_keeps_keys_unique(heap, id, key, value);
        }
    }
    assert forall|container: Value, at: usize, value: Value|
        #![trigger spec_write_position(heap, container, at, value)]
        spec_write_position(heap, container, at, value).wf() by {
        if let Value::Object(id) = container {
            law_object_write_keeps_keys_unique(heap, id, Value::Int(at as i32), value);
        }
    }
    assert forall|k: int| 0 <= k < heap.with_object().objects.len() implies unique_keys(
        #[trigger] heap.with_object().objects[k],
    ) by {
        if k < heap.objects.len() {
            assert(heap.with_object().objects[k] == heap.objects[k]);
        }
    }
}

/// The keys of every object stay unique through every instruction, whether it goes through
/// or ends in a fault.
pub proof fn law_execute_keeps_keys_unique(s: VmState, count: usize, ins: Instruction)
    requires
        s.heap.wf(),
    ensures
        execute(s, count, ins).state.heap.wf(),
{
    reveal(execute);
    lemma_writes_keep_keys_unique(s.heap);
}

/// The keys of every object stay unique through a run of any length, and when the machine
/// is handed an answer.
pub proof fn law_run_keeps_keys_unique(program: Seq<Instruction>, s: VmState, fuel: nat, answer: u64)
    requires
        s.heap.wf(),
    ensures
        step(program, s).state.heap.wf(),
        runs(program, s, fuel).state.heap.wf(),
        s.resume(answer).state.heap.wf(),
    decreases fuel,
{
    if !(s.pending.is_some() || s.finished(program.len())) {
        law_execute_keeps_keys_unique(
            VmState { pc: (s.pc + 1) as usize, ..s },
            program.len() as usize,
            program[s.pc as int],
        );
        if fuel > 0 && step(program, s).fault.is_none() {
            law_run_keeps_keys_unique(program, step(program, s).state, (fuel - 1) as nat, answer);
        }
    }
}

/// Where two values have an order, they are equal in it exactly where they are equal: a
/// value is less than or equal to another exactly where it is less than it or equal to it.
pub proof fn law_order_agrees_with_equality(a: Value, b: Value)
    requires
        a.partial_order(b).is_some(),
    ensures
        a.partial_order(b) == Some(Order::Equal) <==> a.equals(b),
        a.relates(Relation::LessOrEqual, b) <==> a.relates(Relation::Less, b) || a.relates(
            Relation::Equal,
            b,
        ),
        a.relates(Relation::GreaterOrEqual, b) <==> a.relates(Relation::Greater, b) || a.relates(
            Relation::Equal,
            b,
        ),
{
    if let (Value::Str(x), Value::Str(y)) = (a, b) {
        lemma_lex_equal(encode_utf8(x), encode_utf8(y));
        encode_utf8_decode_utf8(x);
        encode_utf8_decode_utf8(y);
    }
}

} // verus!
