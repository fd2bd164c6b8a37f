//! The values of the machine: their truthiness, equality and order.

use crate::array::DynamicArray;
use crate::error::vm::{Fault, VmError};
use crate::float::{compare, is_nan, nan, spec_compare, spec_widen, widen};
use crate::order::{lex_order, order_bytes, Order};
use crate::object::Object;
use vstd::prelude::*;
use vstd::string::*;
use vstd::utf8::encode_utf8;

verus! {

/// A value of the machine. The primitives are held by value; an array or an object is held
/// as a handle, so that copying the value shares the container.
///
/// A `Float` holds the bit pattern of a double.
#[derive(Debug)]
pub enum VmValue {
    Float(u64),
    Int(i32),
    String(String),
    Boolean(bool),
    DynamicArray(DynamicArray),
    Object(Object),
    Null,
}

/// The mathematical content of a [`VmValue`]: a string is its characters, a container is the
/// number of its handle.
pub enum Value {
    Float(u64),
    Int(i32),
    Str(Seq<char>),
    Boolean(bool),
    Array(usize),
    Object(usize),
    Null,
}

impl View for VmValue {
    type V = Value;

    open spec fn view(&self) -> Value {
        match self {
            VmValue::Float(bits) => Value::Float(*bits),
            VmValue::Int(i) => Value::Int(*i),
            VmValue::String(s) => Value::Str(s@),
            VmValue::Boolean(b) => Value::Boolean(*b),
            VmValue::DynamicArray(array) => Value::Array(array.id),
            VmValue::Object(object) => Value::Object(object.id),
            VmValue::Null => Value::Null,
        }
    }
}

/// The relations that the comparison instructions and the relational jumps test.
#[derive(Debug, Clone, Copy, PartialEq, Eq, Structural)]
pub enum Relation {
    Equal,
    NotEqual,
    Less,
    LessOrEqual,
    Greater,
    GreaterOrEqual,
}

/// The views of a sequence of values, one for one.
pub open spec fn views(values: Seq<VmValue>) -> Seq<Value> {
    values.map_values(|v: VmValue| v@)
}

impl Value {
    /// `Boolean(false)` and `Null` are false; everything else is true, zero and the empty
    /// containers included.
    pub open spec fn is_truthy(self) -> bool {
        match self {
            Value::Boolean(b) => b,
            Value::Null => false,
            _ => true,
        }
    }

    /// The name of the value's type, as the faults quote it.
    pub open spec fn kind_name(self) -> Seq<char> {
        match self {
            Value::Float(_) => "Float"@,
            Value::Int(_) => "Int"@,
            Value::Str(_) => "String"@,
            Value::Boolean(_) => "Boolean"@,
            Value::Array(_) => "Array"@,
            Value::Object(_) => "Object"@,
            Value::Null => "Null"@,
        }
    }

    /// Whether two values are of the same variant.
    pub open spec fn same_variant(self, other: Value) -> bool {
        match (self, other) {
            (Value::Float(_), Value::Float(_)) => true,
            (Value::Int(_), Value::Int(_)) => true,
            (Value::Str(_), Value::Str(_)) => true,
            (Value::Boolean(_), Value::Boolean(_)) => true,
            (Value::Array(_), Value::Array(_)) => true,
            (Value::Object(_), Value::Object(_)) => true,
            (Value::Null, Value::Null) => true,
            _ => false,
        }
    }

    /// Equality as the comparison instructions see it. Numbers are compared by value, an
    /// integer widened where it meets a float; strings and booleans by content. Every other
    /// pair is equal exactly when both are of the same variant: two arrays are equal whatever
    /// they hold, and so are two objects.
    pub open spec fn equals(self, other: Value) -> bool {
        match (self, other) {
            (Value::Int(a), Value::Int(b)) => a == b,
            (Value::Float(a), Value::Float(b)) => spec_compare(a, b) == Some(Order::Equal),
            (Value::Int(a), Value::Float(b)) => spec_compare(spec_widen(a), b) == Some(
                Order::Equal,
            ),
            (Value::Float(a), Value::Int(b)) => spec_compare(a, spec_widen(b)) == Some(
                Order::Equal,
            ),
            (Value::Boolean(a), Value::Boolean(b)) => a == b,
            (Value::Str(a), Value::Str(b)) => a == b,
            _ => self.same_variant(other),
        }
    }

    /// The order of two values where they have one. Numbers are ordered by value, an integer
    /// widened where it meets a float, and a NaN stands in no order to anything; strings are
    /// ordered lexicographically by their UTF-8 bytes, which orders them by code points.
    /// No other pair is ordered.
    pub open spec fn partial_order(self, other: Value) -> Option<Order> {
        match (self, other) {
            (Value::Int(a), Value::Int(b)) => Some(
                if a < b {
                    Order::Less
                } else if a == b {
                    Order::Equal
                } else {
                    Order::Greater
                },
            ),
            (Value::Float(a), Value::Float(b)) => spec_compare(a, b),
            (Value::Int(a), Value::Float(b)) => spec_compare(spec_widen(a), b),
            (Value::Float(a), Value::Int(b)) => spec_compare(a, spec_widen(b)),
            (Value::Str(a), Value::Str(b)) => Some(lex_order(encode_utf8(a), encode_utf8(b))),
            _ => None,
        }
    }

    /// Whether the relation holds between two values. The order relations hold of no pair
    /// that is not ordered.
    pub open spec fn relates(self, relation: Relation, other: Value) -> bool {
        match relation {
            Relation::Equal => self.equals(other),
            Relation::NotEqual => !self.equals(other),
            Relation::Less => self.partial_order(other) == Some(Order::Less),
            Relation::LessOrEqual => self.partial_order(other) == Some(Order::Less)
                || self.partial_order(other) == Some(Order::Equal),
            Relation::Greater => self.partial_order(other) == Some(Order::Greater),
            Relation::GreaterOrEqual => self.partial_order(other) == Some(Order::Greater)
                || self.partial_order(other) == Some(Order::Equal),
        }
    }

    /// Whether two values are the same key of an object: the same variant with the same
    /// content, a container being its handle. A NaN is no key that can be found again.
    pub open spec fn same_key(self, other: Value) -> bool {
        self == other && !(self matches Value::Float(bits) && is_nan(bits))
    }
}

impl VmValue {
    /// Whether a conditional takes this value for true.
    pub fn is_truthy(&self) -> (r: bool)
        ensures
            r == self@.is_truthy(),
    {
        match self {
            VmValue::Boolean(v) => *v,
            VmValue::Null => false,
            _ => true,
        }
    }

    /// The name of the value's type.
    pub fn kind_name(&self) -> (r: String)
        ensures
            r@ == self@.kind_name(),
    {
        match self {
            VmValue::Float(_) => String::from_str("Float"),
            VmValue::Int(_) => String::from_str("Int"),
            VmValue::String(_) => String::from_str("String"),
            VmValue::Boolean(_) => String::from_str("Boolean"),
            VmValue::DynamicArray(_) => String::from_str("Array"),
            VmValue::Object(_) => String::from_str("Object"),
            VmValue::Null => String::from_str("Null"),
        }
    }

    /// The array handle that the value holds, or the fault for indexing what is no array.
    pub fn as_array(&self) -> (r: Result<&DynamicArray, VmError>)
        ensures
            match r {
                Ok(array) => self@ == Value::Array(array.id),
                Err(e) => !(self@ is Array) && e@ == Fault::AttemptToIndex(self@.kind_name()),
            },
    {
        match self {
            VmValue::DynamicArray(v) => Ok(v),
            other => Err(VmError::AttemptToIndex(other.kind_name())),
        }
    }

    /// The array handle that the value holds, for writing: the value then holds the handle
    /// that the caller leaves there. What is no array gives the fault for indexing it and
    /// stays as it is.
    pub fn as_array_mut(&mut self) -> (r: Result<&mut DynamicArray, VmError>)
        ensures
            match r {
                Ok(array) => old(self)@ == Value::Array(array.id) && final(self)@ == Value::Array(
                    final(array).id,
                ),
                Err(e) => !(old(self)@ is Array) && e@ == Fault::AttemptToIndex(
                    old(self)@.kind_name(),
                ) && final(self)@ == old(self)@,
            },
    {
        match self {
            VmValue::DynamicArray(v) => Ok(v),
            other => Err(VmError::AttemptToIndex(other.kind_name())),
        }
    }

    /// The object handle that the value holds, for writing: the value then holds the handle
    /// that the caller leaves there. What is no object gives the fault for indexing it and
    /// stays as it is.
    pub fn as_object_mut(&mut self) -> (r: Result<&mut Object, VmError>)
        ensures
            match r {
                Ok(object) => old(self)@ == Value::Object(object.id) && final(self)@
                    == Value::Object(final(object).id),
                Err(e) => !(old(self)@ is Object) && e@ == Fault::AttemptToIndex(
                    old(self)@.kind_name(),
                ) && final(self)@ == old(self)@,
            },
    {
        match self {
            VmValue::Object(v) => Ok(v),
            other => Err(VmError::AttemptToIndex(other.kind_name())),
        }
    }

    /// The object handle that the value holds, or the fault for indexing what is no object.
    pub fn as_object(&self) -> (r: Result<&Object, VmError>)
        ensures
            match r {
                Ok(object) => self@ == Value::Object(object.id),
                Err(e) => !(self@ is Object) && e@ == Fault::AttemptToIndex(self@.kind_name()),
            },
    {
        match self {
            VmValue::Object(v) => Ok(v),
            other => Err(VmError::AttemptToIndex(other.kind_name())),
        }
    }

    /// Equality as the comparison instructions see it.
    pub fn equals(&self, other: &VmValue) -> (r: bool)
        ensures
            r == self@.equals(other@),
    {
        match (self, other) {
            (VmValue::Int(a), VmValue::Int(b)) => *a == *b,
            (VmValue::Float(a), VmValue::Float(b)) => is_equal(compare(*a, *b)),
            (VmValue::Int(a), VmValue::Float(b)) => is_equal(compare(widen(*a), *b)),
            (VmValue::Float(a), VmValue::Int(b)) => is_equal(compare(*a, widen(*b))),
            (VmValue::Boolean(a), VmValue::Boolean(b)) => *a == *b,
            (VmValue::String(a), VmValue::String(b)) => *a == *b,
            (VmValue::DynamicArray(_), VmValue::DynamicArray(_)) => true,
            (VmValue::Object(_), VmValue::Object(_)) => true,
            (VmValue::Null, VmValue::Null) => true,
            _ => false,
        }
    }

    /// The order of two values, where they have one.
    pub fn partial_order(&self, other: &VmValue) -> (r: Option<Order>)
        ensures
            r == self@.partial_order(other@),
    {
        match (self, other) {
            (VmValue::Int(a), VmValue::Int(b)) => Some(
                if *a < *b {
                    Order::Less
                } else if *a == *b {
                    Order::Equal
                } else {
                    Order::Greater
                },
            ),
            (VmValue::Float(a), VmValue::Float(b)) => compare(*a, *b),
            (VmValue::Int(a), VmValue::Float(b)) => compare(widen(*a), *b),
            (VmValue::Float(a), VmValue::Int(b)) => compare(*a, widen(*b)),
            (VmValue::String(a), VmValue::String(b)) => Some(
                order_bytes(a.as_str().as_bytes(), b.as_str().as_bytes()),
            ),
            _ => None,
        }
    }

    /// Whether the relation holds between this value and the other.
    pub fn relates(&self, relation: Relation, other: &VmValue) -> (r: bool)
        ensures
            r == self@.relates(relation, other@),
    {
        match relation {
            Relation::Equal => self.equals(other),
            Relation::NotEqual => !self.equals(other),
            Relation::Less => match self.partial_order(other) {
                Some(Order::Less) => true,
                _ => false,
            },
            Relation::LessOrEqual => match self.partial_order(other) {
                Some(Order::Less) => true,
                Some(Order::Equal) => true,
                _ => false,
            },
            Relation::Greater => match self.partial_order(other) {
                Some(Order::Greater) => true,
                _ => false,
            },
            Relation::GreaterOrEqual => match self.partial_order(other) {
                Some(Order::Greater) => true,
                Some(Order::Equal) => true,
                _ => false,
            },
        }
    }

    /// Whether two values are the same key of an object.
    pub fn same_key(&self, other: &VmValue) -> (r: bool)
        ensures
            r == self@.same_key(other@),
    {
        match (self, other) {
            (VmValue::Float(a), VmValue::Float(b)) => *a == *b && !nan(*a),
            (VmValue::Int(a), VmValue::Int(b)) => *a == *b,
            (VmValue::String(a), VmValue::String(b)) => *a == *b,
            (VmValue::Boolean(a), VmValue::Boolean(b)) => *a == *b,
            (VmValue::DynamicArray(a), VmValue::DynamicArray(b)) => a.id == b.id,
            (VmValue::Object(a), VmValue::Object(b)) => a.id == b.id,
            (VmValue::Null, VmValue::Null) => true,
            _ => false,
        }
    }
}

/// Whether an order, if there is one, is that of equal values.
fn is_equal(order: Option<Order>) -> (r: bool)
    ensures
        r == (order == Some(Order::Equal)),
{
    match order {
        Some(Order::Equal) => true,
        _ => false,
    }
}

impl PartialEq for VmValue {
    /// `==` on values is [`VmValue::equals`].
    fn eq(&self, other: &Self) -> (r: bool) {
        self.equals(other)
    }
}

impl vstd::std_specs::cmp::PartialEqSpecImpl for VmValue {
    open spec fn obeys_eq_spec() -> bool {
        true
    }

    open spec fn eq_spec(&self, other: &Self) -> bool {
        self@.equals(other@)
    }
}

impl Clone for VmValue {
    /// Copies a primitive, and the handle of a container: the copy names the same container.
    fn clone(&self) -> (r: Self)
        ensures
            r@ == self@,
    {
        match self {
            VmValue::Float(bits) => VmValue::Float(*bits),
            VmValue::Int(i) => VmValue::Int(*i),
            VmValue::String(s) => VmValue::String(s.clone()),
            VmValue::Boolean(b) => VmValue::Boolean(*b),
            VmValue::DynamicArray(array) => VmValue::DynamicArray(*array),
            VmValue::Object(object) => VmValue::Object(*object),
            VmValue::Null => VmValue::Null,
        }
    }
}

/// Being less is a strict order on values: of two values at most one is less than the
/// other, and what is less than something less than a third is less than the third.
pub proof fn lemma_less_is_strict(a: Value, b: Value, c: Value)
    ensures
        a.partial_order(b) == Some(Order::Less) ==> b.partial_order(a) == Some(Order::Greater),
        a.partial_order(b) == Some(Order::Less) && b.partial_order(c) == Some(Order::Less)
            ==> a.partial_order(c) == Some(Order::Less),
{
    if let (Value::Str(x), Value::Str(y)) = (a, b) {
        if let Value::Str(z) = c {
            crate::order::lemma_lex_strict_from(encode_utf8(x), encode_utf8(y), encode_utf8(z), 0);
        } else {
            crate::order::lemma_lex_strict_from(encode_utf8(x), encode_utf8(y), encode_utf8(y), 0);
        }
    }
    // integers stand to each other as they do when they are widened
    if let Value::Int(x) = a {
        if let Value::Int(y) = b {
            crate::float::law_widen_keeps_order(x, y);
        }
        if let Value::Int(z) = c {
            crate::float::law_widen_keeps_order(x, z);
        }
    }
    if let (Value::Int(y), Value::Int(z)) = (b, c) {
        crate::float::law_widen_keeps_order(y, z);
    }
}

} // verus!
