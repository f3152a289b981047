use vstd::prelude::*;

verus! {

use core::cmp::Ordering;
use crate::display::{type_text, type_as_string};
use crate::num::{num_partial_cmp, num_partial_cmp32, num_total_cmp, number_partial_cmp,
    number_total_cmp, component_partial_cmp};
use crate::value::Value;

// The ordering side of the comparison protocol. Only numbers, Vec4s and
// text take a partial order, and only numbers and text take the total
// order; every other pairing is an unorderable-types error that carries
// both operand type names, for the evaluator to surface as an ordinary
// runtime error.

/// The error for an ordering request on an unorderable pairing: the type
/// names of both operands.
#[derive(Debug, Eq, PartialEq)]
pub struct UnorderableError {
    /// The type name of the left operand.
    pub lhs_type: String,
    /// The type name of the right operand.
    pub rhs_type: String,
}

/// Lexicographic order of two character sequences, by code point.
pub open spec fn str_lex_cmp(x: Seq<char>, y: Seq<char>) -> Ordering
    decreases x.len(),
{
    if x.len() == 0 && y.len() == 0 {
        Ordering::Equal
    } else if x.len() == 0 {
        Ordering::Less
    } else if y.len() == 0 {
        Ordering::Greater
    } else if x[0] == y[0] {
        str_lex_cmp(x.drop_first(), y.drop_first())
    } else if (x[0] as u32) < (y[0] as u32) {
        Ordering::Less
    } else {
        Ordering::Greater
    }
}

/// Compares two strings.
///
/// Relies on `str::cmp` (the `Ord` impl): strings order lexicographically
/// by code point (the byte order of UTF-8 agrees with code-point order).
#[verifier::external_body]
fn str_compare(x: &String, y: &String) -> (r: Ordering)
    ensures
        r == str_lex_cmp(x@, y@),
{
    x.as_str().cmp(y.as_str())
}

/// The componentwise lexicographic partial order of two Vec4 payloads: the
/// first unequal components decide, and a NaN component met on the way
/// leaves the pair unordered.
pub open spec fn vec4_partial_cmp(
    a0: u32,
    a1: u32,
    a2: u32,
    a3: u32,
    b0: u32,
    b1: u32,
    b2: u32,
    b3: u32,
) -> Option<Ordering> {
    match num_partial_cmp32(a0, b0) {
        Some(Ordering::Equal) => match num_partial_cmp32(a1, b1) {
            Some(Ordering::Equal) => match num_partial_cmp32(a2, b2) {
                Some(Ordering::Equal) => num_partial_cmp32(a3, b3),
                o => o,
            },
            o => o,
        },
        o => o,
    }
}

/// Whether the pairing takes a partial order: both numbers, both Vec4s, or
/// both text.
pub open spec fn partially_orderable(a: Value, b: Value) -> bool {
    ||| (a is Number && b is Number)
    ||| (a is Vec4 && b is Vec4)
    ||| (a is Str && b is Str)
}

/// Whether the pairing takes the total order: both numbers or both text.
pub open spec fn totally_orderable(a: Value, b: Value) -> bool {
    ||| (a is Number && b is Number)
    ||| (a is Str && b is Str)
}

/// The partial order of an orderable pairing.
pub open spec fn spec_partial_order(a: Value, b: Value) -> Option<Ordering> {
    match (a, b) {
        (Value::Number(x), Value::Number(y)) => num_partial_cmp(x, y),
        (Value::Vec4(x0, x1, x2, x3), Value::Vec4(y0, y1, y2, y3)) => vec4_partial_cmp(
            x0,
            x1,
            x2,
            x3,
            y0,
            y1,
            y2,
            y3,
        ),
        (Value::Str(x), Value::Str(y)) => Some(str_lex_cmp(x@, y@)),
        _ => None,
    }
}

/// The total order of an orderable pairing: numbers with NaN equal to NaN
/// and above everything, text lexicographically.
pub open spec fn spec_total_order(a: Value, b: Value) -> Ordering {
    match (a, b) {
        (Value::Number(x), Value::Number(y)) => num_total_cmp(x, y),
        (Value::Str(x), Value::Str(y)) => str_lex_cmp(x@, y@),
        _ => Ordering::Equal,
    }
}

impl Value {
    /// The partial order of two values: numbers by numeric order (NaN on
    /// either side leaves the pair unordered), Vec4s componentwise, text
    /// lexicographically. Any other pairing is an unorderable-types error
    /// carrying both operand type names.
    pub fn partial_order(&self, other: &Value) -> (r: Result<Option<Ordering>, UnorderableError>)
        ensures
            partially_orderable(*self, *other) ==> r == Ok::<Option<Ordering>, UnorderableError>(
                spec_partial_order(*self, *other),
            ),
            !partially_orderable(*self, *other) ==> (r matches Err(e) && e.lhs_type@ == type_text(
                *self,
            ) && e.rhs_type@ == type_text(*other)),
    {
        match (self, other) {
            (Value::Number(x), Value::Number(y)) => Ok(number_partial_cmp(*x, *y)),
            (Value::Vec4(x0, x1, x2, x3), Value::Vec4(y0, y1, y2, y3)) => {
                match component_partial_cmp(*x0, *y0) {
                    Some(Ordering::Equal) => match component_partial_cmp(*x1, *y1) {
                        Some(Ordering::Equal) => match component_partial_cmp(*x2, *y2) {
                            Some(Ordering::Equal) => Ok(component_partial_cmp(*x3, *y3)),
                            o => Ok(o),
                        },
                        o => Ok(o),
                    },
                    o => Ok(o),
                }
            },
            (Value::Str(x), Value::Str(y)) => Ok(Some(str_compare(&**x, &**y))),
            _ => Err(
                UnorderableError {
                    lhs_type: type_as_string(self),
                    rhs_type: type_as_string(other),
                },
            ),
        }
    }

    /// The total order of two values: numbers with NaN equal to NaN and
    /// above every other value, text lexicographically. Any other pairing,
    /// Vec4s included, is an unorderable-types error carrying both operand
    /// type names.
    pub fn total_order(&self, other: &Value) -> (r: Result<Ordering, UnorderableError>)
        ensures
            totally_orderable(*self, *other) ==> r == Ok::<Ordering, UnorderableError>(
                spec_total_order(*self, *other),
            ),
            !totally_orderable(*self, *other) ==> (r matches Err(e) && e.lhs_type@ == type_text(
                *self,
            ) && e.rhs_type@ == type_text(*other)),
    {
        match (self, other) {
            (Value::Number(x), Value::Number(y)) => Ok(number_total_cmp(*x, *y)),
            (Value::Str(x), Value::Str(y)) => Ok(str_compare(&**x, &**y)),
            _ => Err(
                UnorderableError {
                    lhs_type: type_as_string(self),
                    rhs_type: type_as_string(other),
                },
            ),
        }
    }
}

} // verus!
