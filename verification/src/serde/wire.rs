//! The forms of integers, texts and values as bytes.

use crate::value::{Value, VmValue};
use crate::array::DynamicArray;
use crate::object::Object;
use vstd::bytes::{
    lemma_auto_spec_u16_to_from_le_bytes, lemma_auto_spec_u32_to_from_le_bytes,
    lemma_auto_spec_u64_to_from_le_bytes, spec_u16_from_le_bytes, spec_u16_to_le_bytes,
    spec_u32_from_le_bytes, spec_u32_to_le_bytes, spec_u64_from_le_bytes, spec_u64_to_le_bytes,
};
use vstd::prelude::*;
use vstd::slice::slice_subrange;
use vstd::string::*;
use vstd::utf8::{decode_utf8, encode_utf8, encode_utf8_decode_utf8, encode_utf8_valid_utf8, valid_utf8};

verus! {

/// The error with which the binary codec refuses bytes.
#[verifier::external_type_specification]
#[verifier::external_body]
pub struct ExDecodeError(bincode::error::DecodeError);

/// The variable-length form of an unsigned integer: up to 250 the integer is its own single
/// byte; a larger one is a marker byte, 251, 252 or 253, and then the integer in the
/// smallest of two, four and eight bytes that holds it, the low byte first.
pub open spec fn varint(x: u64) -> Seq<u8> {
    if x <= 250 {
        seq![x as u8]
    } else if x <= 0xFFFF {
        seq![251u8] + spec_u16_to_le_bytes(x as u16)
    } else if x <= 0xFFFF_FFFF {
        seq![252u8] + spec_u32_to_le_bytes(x as u32)
    } else {
        seq![253u8] + spec_u64_to_le_bytes(x)
    }
}

/// The integer that stands at the head of a byte sequence in the variable-length form, and
/// what follows it; none where the sequence ends too early or starts with the byte 254 or
/// 255. An integer need not stand in its shortest form.
pub open spec fn parse_varint(s: Seq<u8>) -> Option<(u64, Seq<u8>)> {
    if s.len() == 0 {
        None
    } else if s[0] <= 250 {
        Some((s[0] as u64, s.skip(1)))
    } else if s[0] == 251 {
        if s.len() >= 3 {
            Some((spec_u16_from_le_bytes(s.subrange(1, 3)) as u64, s.skip(3)))
        } else {
            None
        }
    } else if s[0] == 252 {
        if s.len() >= 5 {
            Some((spec_u32_from_le_bytes(s.subrange(1, 5)) as u64, s.skip(5)))
        } else {
            None
        }
    } else if s[0] == 253 {
        if s.len() >= 9 {
            Some((spec_u64_from_le_bytes(s.subrange(1, 9)), s.skip(9)))
        } else {
            None
        }
    } else {
        None
    }
}

/// Calls `bincode::encode_to_vec` on a `u64` with the standard configuration, which writes
/// integers in the variable-length form, little-endian, and cannot fail when it writes to a
/// vector: the result is taken to be that form of `x`.
#[verifier::external_body]
fn encode_u64(x: u64) -> (r: Vec<u8>)
    ensures
        r@ == varint(x),
{
    match bincode::encode_to_vec(x, bincode::config::standard()) {
        Ok(bytes) => bytes,
        Err(_) => Vec::new(),
    }
}

/// Calls `bincode::decode_from_slice` for a `u64` with the standard configuration: where
/// it succeeds, it is taken to give the integer at the head of the slice and the number
/// of bytes that the integer took; it is taken to fail exactly where no integer stands
/// there.
#[verifier::external_body]
fn decode_u64(src: &[u8]) -> (r: Result<(u64, usize), bincode::error::DecodeError>)
    ensures
        match r {
            Ok((x, n)) => n <= src@.len() && parse_varint(src@) == Some((x, src@.skip(n as int))),
            Err(_) => parse_varint(src@).is_none(),
        },
{
    bincode::decode_from_slice(src, bincode::config::standard())
}

/// Calls `String::from_utf8`: it is taken to succeed exactly on valid UTF-8, and then to
/// give the text that the bytes encode.
#[verifier::external_body]
fn utf8_text(bytes: Vec<u8>) -> (r: Option<String>)
    ensures
        match r {
            Some(s) => valid_utf8(bytes@) && s@ == decode_utf8(bytes@),
            None => !valid_utf8(bytes@),
        },
{
    match String::from_utf8(bytes) {
        Ok(s) => Some(s),
        Err(_) => None,
    }
}

/// A truth value as an integer.
pub open spec fn enc_bool(b: bool) -> Seq<u8> {
    varint(
        if b {
            1
        } else {
            0
        },
    )
}

/// A text: the number of its bytes in UTF-8, then the bytes.
pub open spec fn enc_text(s: Seq<char>) -> Seq<u8> {
    varint(encode_utf8(s).len() as u64) + encode_utf8(s)
}

/// A value: a tag for its variant, then what it holds. A float is its bit pattern, an integer
/// its 32 bits, a container its handle.
pub open spec fn enc_value(v: Value) -> Seq<u8> {
    match v {
        Value::Float(bits) => varint(0) + varint(bits),
        Value::Int(i) => varint(1) + varint((i as u32) as u64),
        Value::Str(s) => varint(2) + enc_text(s),
        Value::Boolean(b) => varint(3) + enc_bool(b),
        Value::Array(id) => varint(4) + varint(id as u64),
        Value::Object(id) => varint(5) + varint(id as u64),
        Value::Null => varint(6),
    }
}

/// The first `n` items of a sequence, one behind the other, each as `enc` writes it.
pub open spec fn enc_list_upto<T>(items: Seq<T>, enc: spec_fn(T) -> Seq<u8>, n: int) -> Seq<u8>
    decreases n,
{
    if n <= 0 {
        Seq::empty()
    } else {
        enc_list_upto(items, enc, n - 1) + enc(items[n - 1])
    }
}

/// A sequence of items: their number, then the items.
pub open spec fn enc_list<T>(items: Seq<T>, enc: spec_fn(T) -> Seq<u8>) -> Seq<u8> {
    varint(items.len() as u64) + enc_list_upto(items, enc, items.len() as int)
}

/// How a value is written.
pub open spec fn value_encoder() -> spec_fn(Value) -> Seq<u8> {
    |v: Value| enc_value(v)
}

/// A sequence of values: their number, then the values.
pub open spec fn enc_values(values: Seq<Value>) -> Seq<u8> {
    enc_list(values, value_encoder())
}

/// The truth value at the head of a byte sequence, and what follows it.
pub open spec fn parse_bool(s: Seq<u8>) -> Option<(bool, Seq<u8>)> {
    match parse_varint(s) {
        Some((x, rest)) => if x == 0 {
            Some((false, rest))
        } else if x == 1 {
            Some((true, rest))
        } else {
            None
        },
        None => None,
    }
}

/// The text at the head of a byte sequence, and what follows it. The bytes of the text must
/// all be there and be valid UTF-8.
pub open spec fn parse_text(s: Seq<u8>) -> Option<(Seq<char>, Seq<u8>)> {
    match parse_varint(s) {
        Some((len, rest)) => if len <= rest.len() && valid_utf8(rest.take(len as int)) {
            Some((decode_utf8(rest.take(len as int)), rest.skip(len as int)))
        } else {
            None
        },
        None => None,
    }
}

/// The integer at the head of a byte sequence where it is a handle or a register number of
/// this machine, and what follows it.
pub open spec fn parse_usize(s: Seq<u8>) -> Option<(usize, Seq<u8>)> {
    match parse_varint(s) {
        Some((x, rest)) => if x <= usize::MAX {
            Some((x as usize, rest))
        } else {
            None
        },
        None => None,
    }
}

/// The value at the head of a byte sequence, and what follows it.
pub open spec fn parse_value(s: Seq<u8>) -> Option<(Value, Seq<u8>)> {
    match parse_varint(s) {
        Some((tag, rest)) => if tag == 0 {
            match parse_varint(rest) {
                Some((bits, after)) => Some((Value::Float(bits), after)),
                None => None,
            }
        } else if tag == 1 {
            match parse_varint(rest) {
                Some((x, after)) => if x <= u32::MAX {
                    Some((Value::Int((x as u32) as i32), after))
                } else {
                    None
                },
                None => None,
            }
        } else if tag == 2 {
            match parse_text(rest) {
                Some((text, after)) => Some((Value::Str(text), after)),
                None => None,
            }
        } else if tag == 3 {
            match parse_bool(rest) {
                Some((b, after)) => Some((Value::Boolean(b), after)),
                None => None,
            }
        } else if tag == 4 {
            match parse_usize(rest) {
                Some((id, after)) => Some((Value::Array(id), after)),
                None => None,
            }
        } else if tag == 5 {
            match parse_usize(rest) {
                Some((id, after)) => Some((Value::Object(id), after)),
                None => None,
            }
        } else if tag == 6 {
            Some((Value::Null, rest))
        } else {
            None
        },
        None => None,
    }
}

/// The `n` items at the head of a byte sequence, each as `parse` reads it, and what
/// follows them.
pub open spec fn parse_list_n<T>(
    s: Seq<u8>,
    parse: spec_fn(Seq<u8>) -> Option<(T, Seq<u8>)>,
    n: nat,
) -> Option<(Seq<T>, Seq<u8>)>
    decreases n,
{
    if n == 0 {
        Some((Seq::empty(), s))
    } else {
        match parse_list_n(s, parse, (n - 1) as nat) {
            Some((items, rest)) => match parse(rest) {
                Some((item, after)) => Some((items.push(item), after)),
                None => None,
            },
            None => None,
        }
    }
}

/// The sequence of items at the head of a byte sequence, and what follows it.
pub open spec fn parse_list<T>(s: Seq<u8>, parse: spec_fn(Seq<u8>) -> Option<(T, Seq<u8>)>) -> Option<
    (Seq<T>, Seq<u8>),
> {
    match parse_varint(s) {
        Some((n, rest)) => parse_list_n(rest, parse, n as nat),
        None => None,
    }
}

/// How a value is read.
pub open spec fn value_parser() -> spec_fn(Seq<u8>) -> Option<(Value, Seq<u8>)> {
    |s: Seq<u8>| parse_value(s)
}

/// The sequence of values at the head of a byte sequence, and what follows it.
pub open spec fn parse_values(s: Seq<u8>) -> Option<(Seq<Value>, Seq<u8>)> {
    parse_list(s, value_parser())
}

/// An integer in the variable-length form is read back, whatever follows it.
pub proof fn lemma_varint_round_trip(x: u64, rest: Seq<u8>)
    ensures
        parse_varint(varint(x) + rest) == Some((x, rest)),
{
    lemma_auto_spec_u16_to_from_le_bytes();
    lemma_auto_spec_u32_to_from_le_bytes();
    lemma_auto_spec_u64_to_from_le_bytes();
    let s = varint(x) + rest;
    if x <= 250 {
        assert(s.skip(1) =~= rest);
    } else if x <= 0xFFFF {
        assert(s.subrange(1, 3) =~= spec_u16_to_le_bytes(x as u16));
        assert(s.skip(3) =~= rest);
    } else if x <= 0xFFFF_FFFF {
        assert(s.subrange(1, 5) =~= spec_u32_to_le_bytes(x as u32));
        assert(s.skip(5) =~= rest);
    } else {
        assert(s.subrange(1, 9) =~= spec_u64_to_le_bytes(x));
        assert(s.skip(9) =~= rest);
    }
}

/// A text is read back, whatever follows it.
pub proof fn lemma_text_round_trip(text: Seq<char>, rest: Seq<u8>)
    requires
        encode_utf8(text).len() <= u64::MAX,
    ensures
        parse_text(enc_text(text) + rest) == Some((text, rest)),
{
    let bytes = encode_utf8(text);
    lemma_varint_round_trip(bytes.len() as u64, bytes + rest);
    assert(enc_text(text) + rest =~= varint(bytes.len() as u64) + (bytes + rest));
    assert((bytes + rest).take(bytes.len() as int) =~= bytes);
    assert((bytes + rest).skip(bytes.len() as int) =~= rest);
    encode_utf8_valid_utf8(text);
    encode_utf8_decode_utf8(text);
}

/// Whether a value can be written: its text, if it is one, is not too long for its length
/// to be written.
pub open spec fn value_fits(v: Value) -> bool {
    v matches Value::Str(s) ==> encode_utf8(s).len() <= u64::MAX
}

/// A value is read back, whatever follows it.
pub proof fn lemma_value_round_trip(v: Value, rest: Seq<u8>)
    requires
        value_fits(v),
    ensures
        parse_value(enc_value(v) + rest) == Some((v, rest)),
{
    match v {
        Value::Float(bits) => {
            assert(enc_value(v) + rest =~= varint(0) + (varint(bits) + rest));
            lemma_varint_round_trip(0, varint(bits) + rest);
            lemma_varint_round_trip(bits, rest);
        },
        Value::Int(i) => {
            let x = (i as u32) as u64;
            assert(enc_value(v) + rest =~= varint(1) + (varint(x) + rest));
            lemma_varint_round_trip(1, varint(x) + rest);
            lemma_varint_round_trip(x, rest);
            assert(x <= u32::MAX && ((x as u32) as i32) == i) by (bit_vector)
                requires
                    x == (i as u32) as u64,
            ;
        },
        Value::Str(s) => {
            assert(enc_value(v) + rest =~= varint(2) + (enc_text(s) + rest));
            lemma_varint_round_trip(2, enc_text(s) + rest);
            lemma_text_round_trip(s, rest);
        },
        Value::Boolean(b) => {
            assert(enc_value(v) + rest =~= varint(3) + (enc_bool(b) + rest));
            lemma_varint_round_trip(3, enc_bool(b) + rest);
            lemma_varint_round_trip(
                if b {
                    1
                } else {
                    0
                },
                rest,
            );
        },
        Value::Array(id) => {
            assert(enc_value(v) + rest =~= varint(4) + (varint(id as u64) + rest));
            lemma_varint_round_trip(4, varint(id as u64) + rest);
            lemma_varint_round_trip(id as u64, rest);
        },
        Value::Object(id) => {
            assert(enc_value(v) + rest =~= varint(5) + (varint(id as u64) + rest));
            lemma_varint_round_trip(5, varint(id as u64) + rest);
            lemma_varint_round_trip(id as u64, rest);
        },
        Value::Null => {
            lemma_varint_round_trip(6, rest);
        },
    }
}

/// What `enc` writes of an item, `parse` reads back, whatever follows it.
pub open spec fn reads_back<T>(
    item: T,
    enc: spec_fn(T) -> Seq<u8>,
    parse: spec_fn(Seq<u8>) -> Option<(T, Seq<u8>)>,
) -> bool {
    forall|rest: Seq<u8>| #[trigger] parse(enc(item) + rest) == Some((item, rest))
}

/// The first `n` items of a sequence are read back, whatever follows them, where each of
/// them is.
pub proof fn lemma_list_upto_round_trip<T>(
    items: Seq<T>,
    enc: spec_fn(T) -> Seq<u8>,
    parse: spec_fn(Seq<u8>) -> Option<(T, Seq<u8>)>,
    n: nat,
    rest: Seq<u8>,
)
    requires
        n <= items.len(),
        forall|k: int| 0 <= k < items.len() ==> reads_back(#[trigger] items[k], enc, parse),
    ensures
        parse_list_n(enc_list_upto(items, enc, n as int) + rest, parse, n) == Some(
            (items.take(n as int), rest),
        ),
    decreases n,
{
    if n == 0 {
        assert(enc_list_upto(items, enc, 0) + rest =~= rest);
        assert(items.take(0) =~= Seq::empty());
    } else {
        let last = enc(items[n - 1]);
        assert(enc_list_upto(items, enc, n as int) + rest =~= enc_list_upto(items, enc, n - 1) + (
            last + rest));
        lemma_list_upto_round_trip(items, enc, parse, (n - 1) as nat, last + rest);
        assert(reads_back(items[n - 1], enc, parse));
        assert(parse(enc(items[n - 1]) + rest) == Some((items[n - 1], rest)));
        assert(items.take(n - 1).push(items[n - 1]) =~= items.take(n as int));
    }
}

/// A sequence of items is read back, whatever follows it, where each of the items is.
pub proof fn lemma_list_round_trip<T>(
    items: Seq<T>,
    enc: spec_fn(T) -> Seq<u8>,
    parse: spec_fn(Seq<u8>) -> Option<(T, Seq<u8>)>,
    rest: Seq<u8>,
)
    requires
        items.len() <= u64::MAX,
        forall|k: int| 0 <= k < items.len() ==> reads_back(#[trigger] items[k], enc, parse),
    ensures
        parse_list(enc_list(items, enc) + rest, parse) == Some((items, rest)),
{
    let body = enc_list_upto(items, enc, items.len() as int);
    assert(enc_list(items, enc) + rest =~= varint(items.len() as u64) + (body + rest));
    lemma_varint_round_trip(items.len() as u64, body + rest);
    lemma_list_upto_round_trip(items, enc, parse, items.len(), rest);
    assert(items.take(items.len() as int) =~= items);
}

/// Where fewer items cannot be read, more cannot be read either.
pub proof fn lemma_list_fails<T>(
    s: Seq<u8>,
    parse: spec_fn(Seq<u8>) -> Option<(T, Seq<u8>)>,
    n: nat,
    m: nat,
)
    requires
        n <= m,
        parse_list_n(s, parse, n).is_none(),
    ensures
        parse_list_n(s, parse, m).is_none(),
    decreases m - n,
{
    if n < m {
        lemma_list_fails(s, parse, n, (m - 1) as nat);
    }
}

/// Whether every value of a sequence can be written, and their number too.
pub open spec fn values_fit(values: Seq<Value>) -> bool {
    values.len() <= u64::MAX && forall|k: int|
        0 <= k < values.len() ==> value_fits(#[trigger] values[k])
}

/// A sequence of values is read back, whatever follows it.
pub proof fn lemma_values_round_trip(values: Seq<Value>, rest: Seq<u8>)
    requires
        values_fit(values),
    ensures
        parse_values(enc_values(values) + rest) == Some((values, rest)),
{
    assert forall|k: int| 0 <= k < values.len() implies reads_back(
        #[trigger] values[k],
        value_encoder(),
        value_parser(),
    ) by {
        assert forall|r: Seq<u8>| #[trigger]
            value_parser()(value_encoder()(values[k]) + r) == Some((values[k], r)) by {
            lemma_value_round_trip(values[k], r);
        }
    }
    lemma_list_round_trip(values, value_encoder(), value_parser(), rest);
}

/// Appends an integer in the variable-length form.
pub fn put_u64(out: &mut Vec<u8>, x: u64)
    ensures
        final(out)@ == old(out)@ + varint(x),
{
    let mut bytes = encode_u64(x);
    out.append(&mut bytes);
}

/// Appends a register number, a handle or a length.
pub fn put_usize(out: &mut Vec<u8>, x: usize)
    ensures
        final(out)@ == old(out)@ + varint(x as u64),
{
    put_u64(out, x as u64);
}

/// Appends a truth value.
pub fn put_bool(out: &mut Vec<u8>, b: bool)
    ensures
        final(out)@ == old(out)@ + enc_bool(b),
{
    put_u64(
        out,
        if b {
            1
        } else {
            0
        },
    );
}

/// Appends a text.
pub fn put_text(out: &mut Vec<u8>, s: &str)
    ensures
        final(out)@ == old(out)@ + enc_text(s@),
        encode_utf8(s@).len() <= u64::MAX,
{
    let bytes = s.as_bytes();
    put_usize(out, bytes.len());
    let mut copy = vstd::slice::slice_to_vec(bytes);
    out.append(&mut copy);
    assert(out@ =~= old(out)@ + enc_text(s@));
}

/// Appends a value.
pub fn put_value(out: &mut Vec<u8>, v: &VmValue)
    ensures
        final(out)@ == old(out)@ + enc_value(v@),
        value_fits(v@),
{
    match v {
        VmValue::Float(bits) => {
            put_u64(out, 0);
            put_u64(out, *bits);
        },
        VmValue::Int(i) => {
            put_u64(out, 1);
            put_u64(out, (#[verifier::truncate] (*i as u32)) as u64);
        },
        VmValue::String(s) => {
            put_u64(out, 2);
            put_text(out, s.as_str());
        },
        VmValue::Boolean(b) => {
            put_u64(out, 3);
            put_bool(out, *b);
        },
        VmValue::DynamicArray(array) => {
            put_u64(out, 4);
            put_usize(out, array.id);
        },
        VmValue::Object(object) => {
            put_u64(out, 5);
            put_usize(out, object.id);
        },
        VmValue::Null => {
            put_u64(out, 6);
        },
    }
    assert(out@ =~= old(out)@ + enc_value(v@));
}

/// Appends a sequence of values.
pub fn put_values(out: &mut Vec<u8>, values: &Vec<VmValue>)
    ensures
        final(out)@ == old(out)@ + enc_values(crate::value::views(values@)),
        values_fit(crate::value::views(values@)),
{
    let ghost views = crate::value::views(values@);
    put_usize(out, values.len());
    let ghost head = out@;
    let mut i: usize = 0;
    assert(out@ =~= head + enc_list_upto(views, value_encoder(), 0));
    while i < values.len()
        invariant
            i <= values.len(),
            views == crate::value::views(values@),
            out@ == head + enc_list_upto(views, value_encoder(), i as int),
            forall|k: int| 0 <= k < i ==> value_fits(#[trigger] views[k]),
        decreases values.len() - i,
    {
        put_value(out, &values[i]);
        i += 1;
        assert(out@ =~= head + enc_list_upto(views, value_encoder(), i as int));
    }
    assert(out@ =~= old(out)@ + enc_values(views));
}

/// Reads the integer that stands at `at`; gives it with the position behind it.
pub fn take_u64(bytes: &[u8], at: usize) -> (r: Option<(u64, usize)>)
    requires
        at <= bytes@.len(),
    ensures
        match r {
            Some((x, next)) => at <= next <= bytes@.len() && parse_varint(bytes@.skip(at as int))
                == Some((x, bytes@.skip(next as int))),
            None => parse_varint(bytes@.skip(at as int)).is_none(),
        },
{
    let rest = slice_subrange(bytes, at, bytes.len());
    assert(rest@ =~= bytes@.skip(at as int));
    match decode_u64(rest) {
        Ok((x, n)) => {
            assert(rest@.skip(n as int) =~= bytes@.skip(at + n));
            Some((x, at + n))
        },
        Err(_) => None,
    }
}

/// Reads the register number, handle or length that stands at `at`.
pub fn take_usize(bytes: &[u8], at: usize) -> (r: Option<(usize, usize)>)
    requires
        at <= bytes@.len(),
    ensures
        match r {
            Some((x, next)) => at <= next <= bytes@.len() && parse_usize(bytes@.skip(at as int))
                == Some((x, bytes@.skip(next as int))),
            None => parse_usize(bytes@.skip(at as int)).is_none(),
        },
{
    match take_u64(bytes, at) {
        Some((x, next)) => {
            if x <= usize::MAX as u64 {
                Some((x as usize, next))
            } else {
                None
            }
        },
        None => None,
    }
}

/// Reads the truth value that stands at `at`.
pub fn take_bool(bytes: &[u8], at: usize) -> (r: Option<(bool, usize)>)
    requires
        at <= bytes@.len(),
    ensures
        match r {
            Some((b, next)) => at <= next <= bytes@.len() && parse_bool(bytes@.skip(at as int))
                == Some((b, bytes@.skip(next as int))),
            None => parse_bool(bytes@.skip(at as int)).is_none(),
        },
{
    match take_u64(bytes, at) {
        Some((x, next)) => {
            if x == 0 {
                Some((false, next))
            } else if x == 1 {
                Some((true, next))
            } else {
                None
            }
        },
        None => None,
    }
}

/// Reads the text that stands at `at`.
pub fn take_text(bytes: &[u8], at: usize) -> (r: Option<(String, usize)>)
    requires
        at <= bytes@.len(),
    ensures
        match r {
            Some((s, next)) => at <= next <= bytes@.len() && parse_text(bytes@.skip(at as int))
                == Some((s@, bytes@.skip(next as int))),
            None => parse_text(bytes@.skip(at as int)).is_none(),
        },
{
    match take_u64(bytes, at) {
        Some((len, start)) => {
            if len <= (bytes.len() - start) as u64 {
                let end = start + len as usize;
                let piece = slice_subrange(bytes, start, end);
                assert(piece@ =~= bytes@.skip(start as int).take(len as int));
                assert(bytes@.skip(start as int).skip(len as int) =~= bytes@.skip(end as int));
                match utf8_text(vstd::slice::slice_to_vec(piece)) {
                    Some(s) => Some((s, end)),
                    None => None,
                }
            } else {
                None
            }
        },
        None => None,
    }
}

/// Reads the value that stands at `at`.
pub fn take_value(bytes: &[u8], at: usize) -> (r: Option<(VmValue, usize)>)
    requires
        at <= bytes@.len(),
    ensures
        match r {
            Some((v, next)) => at <= next <= bytes@.len() && parse_value(bytes@.skip(at as int))
                == Some((v@, bytes@.skip(next as int))),
            None => parse_value(bytes@.skip(at as int)).is_none(),
        },
{
    let (tag, start) = match take_u64(bytes, at) {
        Some(pair) => pair,
        None => {
            return None;
        },
    };
    if tag == 0 {
        match take_u64(bytes, start) {
            Some((bits, next)) => Some((VmValue::Float(bits), next)),
            None => None,
        }
    } else if tag == 1 {
        match take_u64(bytes, start) {
            Some((x, next)) => {
                if x <= u32::MAX as u64 {
                    Some((VmValue::Int(#[verifier::truncate] ((x as u32) as i32)), next))
                } else {
                    None
                }
            },
            None => None,
        }
    } else if tag == 2 {
        match take_text(bytes, start) {
            Some((s, next)) => Some((VmValue::String(s), next)),
            None => None,
        }
    } else if tag == 3 {
        match take_bool(bytes, start) {
            Some((b, next)) => Some((VmValue::Boolean(b), next)),
            None => None,
        }
    } else if tag == 4 {
        match take_usize(bytes, start) {
            Some((id, next)) => Some((VmValue::DynamicArray(DynamicArray { id }), next)),
            None => None,
        }
    } else if tag == 5 {
        match take_usize(bytes, start) {
            Some((id, next)) => Some((VmValue::Object(Object { id }), next)),
            None => None,
        }
    } else if tag == 6 {
        Some((VmValue::Null, start))
    } else {
        None
    }
}

/// Reads the `n` values that stand at `at`.
pub fn take_values_n(bytes: &[u8], at: usize, n: u64) -> (r: Option<(Vec<VmValue>, usize)>)
    requires
        at <= bytes@.len(),
    ensures
        match r {
            Some((values, next)) => at <= next <= bytes@.len() && parse_list_n(
                bytes@.skip(at as int),
                value_parser(),
                n as nat,
            ) == Some((crate::value::views(values@), bytes@.skip(next as int))),
            None => parse_list_n(bytes@.skip(at as int), value_parser(), n as nat).is_none(),
        },
{
    let mut values: Vec<VmValue> = Vec::new();
    let mut position = at;
    let mut i: u64 = 0;
    assert(crate::value::views(values@) =~= Seq::empty());
    while i < n
        invariant
            i <= n,
            at <= position <= bytes@.len(),
            parse_list_n(bytes@.skip(at as int), value_parser(), i as nat) == Some(
                (crate::value::views(values@), bytes@.skip(position as int)),
            ),
        decreases n - i,
    {
        match take_value(bytes, position) {
            Some((v, next)) => {
                let ghost before = crate::value::views(values@);
                values.push(v);
                assert(crate::value::views(values@) =~= before.push(v@));
                position = next;
            },
            None => {
                proof {
                    lemma_list_fails(
                        bytes@.skip(at as int),
                        value_parser(),
                        (i + 1) as nat,
                        n as nat,
                    );
                }
                return None;
            },
        }
        i += 1;
    }
    Some((values, position))
}

/// Reads the sequence of values that stands at `at`.
pub fn take_values(bytes: &[u8], at: usize) -> (r: Option<(Vec<VmValue>, usize)>)
    requires
        at <= bytes@.len(),
    ensures
        match r {
            Some((values, next)) => at <= next <= bytes@.len() && parse_values(
                bytes@.skip(at as int),
            ) == Some((crate::value::views(values@), bytes@.skip(next as int))),
            None => parse_values(bytes@.skip(at as int)).is_none(),
        },
{
    match take_u64(bytes, at) {
        Some((n, start)) => take_values_n(bytes, start, n),
        None => None,
    }
}

} // verus!
