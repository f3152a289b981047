use vstd::prelude::*;

verus! {

use std::rc::Rc;
use crate::meta_map::MetaMap;
use crate::num::{num_eq, num_eq32};

broadcast use vstd::std_specs::vec::group_vec_axioms, vstd::seq::group_seq_axioms;

// The runtime's value representation: a closed tagged union. Payloads that
// are shared between values sit behind reference-counted handles; the
// handles are compared by their contents, except for callables, which are
// compared by identity. `Ref` is the one aliasing point that the runtime
// mutates through; every other shared payload is immutable once built.

/// The definition of a parsed function, carried as an opaque, shared,
/// immutable payload.
///
/// Relies on `koto_parser::Function`: the parser's function definition
/// node; this core never reads its fields.
#[verifier::external_type_specification]
#[verifier::external_body]
pub struct ExFunction(koto_parser::Function);

/// The definition of a parsed `for` loop, carried as an opaque, shared,
/// immutable payload.
///
/// Relies on `koto_parser::AstFor`: the parser's for-loop node; this core
/// never reads its fields.
#[verifier::external_type_specification]
#[verifier::external_body]
pub struct ExAstFor(koto_parser::AstFor);

/// The definition of a parsed `while` loop: the positions of its condition
/// and body nodes in the syntax tree, carried for the evaluator and never
/// read by this core.
pub struct WhileLoop {
    /// The position of the loop's condition node.
    pub condition: u32,
    /// The position of the loop's body node.
    pub body: u32,
}

/// A native callable registered by the host.
///
/// The closure itself lives with the host, behind a shared, mutable cell
/// keyed by `id`; this core carries the callable's identity and its
/// calling convention. Two callables are the same exactly when their ids
/// are the same, and cloning shares the id (and with it the host's state).
#[derive(Clone, Copy, Debug)]
pub struct BuiltinFunction {
    /// The allocation-scoped identity of the native closure.
    pub id: u64,
    /// When true, the first call argument is the receiver the function was
    /// looked up on (method-call semantics).
    pub is_instance_function: bool,
}

impl BuiltinFunction {
    /// A handle to the native callable with the given identity and calling
    /// convention.
    pub fn new(id: u64, is_instance_function: bool) -> (r: Self)
        ensures
            r.id == id,
            r.is_instance_function == is_instance_function,
    {
        BuiltinFunction { id, is_instance_function }
    }
}

/// A foreign object admitted into the value space: the host queries the
/// object's capability interface for its textual form and type name and
/// carries both here, together with the object's identity.
pub struct BuiltinData {
    /// The allocation-scoped identity of the foreign object.
    pub id: u64,
    /// The object's type name, as the object reports it.
    pub value_type: String,
    /// The object's textual form, as the object reports it.
    pub rendered: String,
}

/// An ordered mapping from value keys to values, with the attached meta
/// table. The meta table takes part in dispatch, not in equality.
pub struct ValueMap {
    /// The key-value entries, in insertion order.
    pub entries: Vec<(Value, Value)>,
    /// The attached meta table.
    pub meta: MetaMap,
}

/// A runtime value.
pub enum Value {
    /// The unit value.
    Empty,
    /// A boolean.
    Bool(bool),
    /// A number: a 64-bit IEEE-754 value, carried as its bit pattern.
    Number(u64),
    /// Four 32-bit IEEE-754 components, carried as their bit patterns.
    Vec4(u32, u32, u32, u32),
    /// A shared sequence of values.
    List(Rc<Vec<Value>>),
    /// A half-open range of signed integers.
    Range { start: isize, end: isize },
    /// A half-open index range, open-ended when `end` is `None`.
    IndexRange { start: usize, end: Option<usize> },
    /// A shared ordered map with its meta table.
    MapValue(Rc<ValueMap>),
    /// Shared immutable text.
    Str(Rc<String>),
    /// A shared cell holding one value: the only aliasing point that is
    /// mutated through.
    Ref(Rc<Value>),
    /// A script-defined callable: an allocation-scoped identity and the
    /// shared definition. Equality is by identity, never structural.
    Function { id: u64, def: Rc<koto_parser::Function> },
    /// A native callable registered by the host.
    BuiltinFunction(BuiltinFunction),
    /// A foreign object, shown and typed through its own interface.
    BuiltinValue(Rc<BuiltinData>),
    /// A for-loop definition, carried for the evaluator.
    For(Rc<koto_parser::AstFor>),
    /// A while-loop definition, carried for the evaluator.
    While(Rc<WhileLoop>),
}

/// Structural equality of two values, transparent through `Ref` on either
/// side: numbers, components and booleans by value; text, lists and maps
/// by contents (a map's meta table is not data and is not compared);
/// script functions by identity. Every other pairing, two values of an
/// unlisted variant included, is unequal.
pub open spec fn spec_eq(a: Value, b: Value) -> bool
    decreases a, b,
{
    match (a, b) {
        (Value::Ref(x), _) => spec_eq(*x, b),
        (_, Value::Ref(y)) => spec_eq(a, *y),
        (Value::Number(x), Value::Number(y)) => num_eq(x, y),
        (Value::Vec4(x0, x1, x2, x3), Value::Vec4(y0, y1, y2, y3)) => num_eq32(x0, y0) && num_eq32(
            x1,
            y1,
        ) && num_eq32(x2, y2) && num_eq32(x3, y3),
        (Value::Bool(x), Value::Bool(y)) => x == y,
        (Value::Str(x), Value::Str(y)) => x@ == y@,
        (Value::List(x), Value::List(y)) => {
            &&& x@.len() == y@.len()
            &&& forall|i: int| 0 <= i < x@.len() ==> spec_eq(x@[i], y@[i])
        },
        (Value::MapValue(x), Value::MapValue(y)) => {
            &&& x.entries@.len() == y.entries@.len()
            &&& forall|i: int|
                0 <= i < x.entries@.len() ==> spec_eq(x.entries@[i].0, y.entries@[i].0) && spec_eq(
                    x.entries@[i].1,
                    y.entries@[i].1,
                )
        },
        (Value::Function { id: x, .. }, Value::Function { id: y, .. }) => x == y,
        _ => false,
    }
}

/// Duplicates a shared handle.
///
/// Relies on `Rc::clone`: the result is a handle to the same allocation,
/// hence the same value.
#[verifier::external_body]
fn rc_dup<T>(r: &Rc<T>) -> (res: Rc<T>)
    ensures
        res == *r,
{
    Rc::clone(r)
}

impl Clone for Value {
    /// Cloning shares every shared payload and copies every inline one.
    fn clone(&self) -> (res: Self)
        ensures
            res == *self,
    {
        match self {
            Value::Empty => Value::Empty,
            Value::Bool(b) => Value::Bool(*b),
            Value::Number(n) => Value::Number(*n),
            Value::Vec4(x, y, z, w) => Value::Vec4(*x, *y, *z, *w),
            Value::List(l) => Value::List(rc_dup(l)),
            Value::Range { start, end } => Value::Range { start: *start, end: *end },
            Value::IndexRange { start, end } => Value::IndexRange { start: *start, end: *end },
            Value::MapValue(m) => Value::MapValue(rc_dup(m)),
            Value::Str(s) => Value::Str(rc_dup(s)),
            Value::Ref(r) => Value::Ref(rc_dup(r)),
            Value::Function { id, def } => Value::Function { id: *id, def: rc_dup(def) },
            Value::BuiltinFunction(f) => Value::BuiltinFunction(*f),
            Value::BuiltinValue(v) => Value::BuiltinValue(rc_dup(v)),
            Value::For(f) => Value::For(rc_dup(f)),
            Value::While(w) => Value::While(rc_dup(w)),
        }
    }
}

impl From<bool> for Value {
    fn from(value: bool) -> (r: Self) {
        Value::Bool(value)
    }
}

impl vstd::std_specs::convert::FromSpecImpl<bool> for Value {
    open spec fn obeys_from_spec() -> bool {
        true
    }

    open spec fn from_spec(value: bool) -> Self {
        Value::Bool(value)
    }
}

/// Structural equality of two values, as `spec_eq` states it.
#[verifier::loop_isolation(false)]
pub fn value_eq(a: &Value, b: &Value) -> (r: bool)
    ensures
        r == spec_eq(*a, *b),
    decreases *a, *b,
{
    match (a, b) {
        (Value::Ref(x), _) => value_eq(&**x, b),
        (_, Value::Ref(y)) => value_eq(a, &**y),
        (Value::Number(x), Value::Number(y)) => crate::num::number_eq(*x, *y),
        (Value::Vec4(x0, x1, x2, x3), Value::Vec4(y0, y1, y2, y3)) => {
            crate::num::component_eq(*x0, *y0) && crate::num::component_eq(*x1, *y1)
                && crate::num::component_eq(*x2, *y2) && crate::num::component_eq(*x3, *y3)
        },
        (Value::Bool(x), Value::Bool(y)) => x == y,
        (Value::Str(x), Value::Str(y)) => (&**x).eq(&**y),
        (Value::List(x), Value::List(y)) => {
            if x.len() != y.len() {
                return false;
            }
            let mut i: usize = 0;
            while i < x.len()
                invariant
                    0 <= i <= x@.len(),
                    x@.len() == y@.len(),
                    forall|j: int| 0 <= j < i ==> spec_eq(x@[j], y@[j]),
                decreases x@.len() - i,
            {
                proof {
                    assert(decreases_to!(*a => x@));
                    assert(decreases_to!(x@ => x@[i as int]));
                    assert(decreases_to!(*b => y@));
                    assert(decreases_to!(y@ => y@[i as int]));
                }
                if !value_eq(&x[i], &y[i]) {
                    return false;
                }
                i = i + 1;
            }
            true
        },
        (Value::MapValue(x), Value::MapValue(y)) => {
            if x.entries.len() != y.entries.len() {
                return false;
            }
            let mut i: usize = 0;
            while i < x.entries.len()
                invariant
                    0 <= i <= x.entries@.len(),
                    x.entries@.len() == y.entries@.len(),
                    forall|j: int|
                        0 <= j < i ==> spec_eq(x.entries@[j].0, y.entries@[j].0) && spec_eq(
                            x.entries@[j].1,
                            y.entries@[j].1,
                        ),
                decreases x.entries@.len() - i,
            {
                proof {
                    assert(decreases_to!(*a => x.entries@));
                    assert(decreases_to!(x.entries@ => x.entries@[i as int]));
                    assert(decreases_to!(x.entries@[i as int] => x.entries@[i as int].0));
                    assert(decreases_to!(x.entries@[i as int] => x.entries@[i as int].1));
                    assert(decreases_to!(*b => y.entries@));
                    assert(decreases_to!(y.entries@ => y.entries@[i as int]));
                    assert(decreases_to!(y.entries@[i as int] => y.entries@[i as int].0));
                    assert(decreases_to!(y.entries@[i as int] => y.entries@[i as int].1));
                }
                if !value_eq(&x.entries[i].0, &y.entries[i].0) {
                    return false;
                }
                if !value_eq(&x.entries[i].1, &y.entries[i].1) {
                    return false;
                }
                i = i + 1;
            }
            true
        },
        (Value::Function { id: x, .. }, Value::Function { id: y, .. }) => x == y,
        _ => false,
    }
}

impl PartialEq for Value {
    /// Equality of values follows the comparison protocol: structural,
    /// transparent through `Ref`, by identity for script functions.
    fn eq(&self, other: &Self) -> (r: bool) {
        value_eq(self, other)
    }
}

impl vstd::std_specs::cmp::PartialEqSpecImpl for Value {
    open spec fn obeys_eq_spec() -> bool {
        true
    }

    open spec fn eq_spec(&self, other: &Self) -> bool {
        spec_eq(*self, *other)
    }
}

/// The value after all `Ref` wrapping is removed.
pub open spec fn spec_unref(v: Value) -> Value
    decreases v,
{
    match v {
        Value::Ref(r) => spec_unref(*r),
        _ => v,
    }
}

/// A value that is not a reference.
pub open spec fn is_plain(v: Value) -> bool {
    !(v is Ref)
}

/// The value a reference chain leads to: the argument itself when it is
/// not a reference, else the wrapped value, however deep the wrapping.
pub fn deref_value(value: &Value) -> (r: Value)
    ensures
        r == spec_unref(*value),
        is_plain(r),
    decreases *value,
{
    match value {
        Value::Ref(r) => deref_value(&**r),
        _ => value.clone(),
    }
}

/// Wraps a value in a new reference cell, unless it already is a
/// reference: then it is returned unchanged, and the flag reports that no
/// new cell was made. Callers use the flag to tell a fresh alias from a
/// shared, pre-existing one.
pub fn make_reference(value: Value) -> (r: (Value, bool))
    ensures
        value is Ref ==> r == (value, false),
        !(value is Ref) ==> r.0 == Value::Ref(Rc::new(value)) && r.1,
        r.0 is Ref,
{
    match value {
        Value::Ref(_) => (value, false),
        _ => (Value::Ref(Rc::new(value)), true),
    }
}

/// Whether two values are of the same variant, payloads ignored and `Ref`
/// wrapping on either side looked through.
pub open spec fn spec_matching_type(a: Value, b: Value) -> bool {
    variant_tag_spec(spec_unref(a)) == variant_tag_spec(spec_unref(b))
}

fn variant_tag(v: &Value) -> (r: u32)
    ensures
        r == variant_tag_spec(*v),
{
    match v {
        Value::Empty => 0,
        Value::Bool(_) => 1,
        Value::Number(_) => 2,
        Value::Vec4(_, _, _, _) => 3,
        Value::List(_) => 4,
        Value::Range { .. } => 5,
        Value::IndexRange { .. } => 6,
        Value::MapValue(_) => 7,
        Value::Str(_) => 8,
        Value::Ref(_) => 9,
        Value::Function { .. } => 10,
        Value::BuiltinFunction(_) => 11,
        Value::BuiltinValue(_) => 12,
        Value::For(_) => 13,
        Value::While(_) => 14,
    }
}

/// A tag telling the variants apart, for type-identity checks.
pub open spec fn variant_tag_spec(v: Value) -> u32 {
    match v {
        Value::Empty => 0,
        Value::Bool(_) => 1,
        Value::Number(_) => 2,
        Value::Vec4(_, _, _, _) => 3,
        Value::List(_) => 4,
        Value::Range { .. } => 5,
        Value::IndexRange { .. } => 6,
        Value::MapValue(_) => 7,
        Value::Str(_) => 8,
        Value::Ref(_) => 9,
        Value::Function { .. } => 10,
        Value::BuiltinFunction(_) => 11,
        Value::BuiltinValue(_) => 12,
        Value::For(_) => 13,
        Value::While(_) => 14,
    }
}

/// Whether two values have the same shape: the same variant once `Ref`
/// wrapping on each side is looked through, payloads ignored.
pub fn values_have_matching_type(a: &Value, b: &Value) -> (r: bool)
    ensures
        r == spec_matching_type(*a, *b),
{
    let da = deref_value(a);
    let db = deref_value(b);
    variant_tag(&da) == variant_tag(&db)
}


/// Whether some entry's key equals the key, by the comparison protocol.
pub open spec fn map_has_key(entries: Seq<(Value, Value)>, key: Value) -> bool {
    exists|i: int| 0 <= i < entries.len() && spec_eq(entries[i].0, key)
}

impl ValueMap {
    /// An empty map with an empty meta table.
    pub fn new() -> (r: ValueMap)
        ensures
            r.entries@ == Seq::<(Value, Value)>::empty(),
            crate::meta_map::meta_entries(r.meta) == Seq::<
                (crate::meta_map::MetaKey, Value),
            >::empty(),
    {
        ValueMap { entries: Vec::new(), meta: MetaMap::new() }
    }

    /// The number of entries.
    pub fn len(&self) -> (r: usize)
        ensures
            r == self.entries@.len(),
    {
        self.entries.len()
    }

    /// Inserts a key and value: the first entry whose key equals the new
    /// one (by the comparison protocol) keeps its place and its original
    /// key and only its value is replaced; a new key goes to the end.
    #[verifier::loop_isolation(false)]
    pub fn insert(&mut self, key: Value, value: Value)
        ensures
            !map_has_key(old(self).entries@, key) ==> (*final(self)).entries@ == old(
                self,
            ).entries@.push((key, value)),
            forall|i: int|
                (0 <= i < old(self).entries@.len() && spec_eq(old(self).entries@[i].0, key) && (
                forall|j: int| (0 <= j < i ==> !spec_eq(old(self).entries@[j].0, key)))) ==> (*final(self)).entries@ == old(self).entries@.update(i, (old(self).entries@[i].0, value)),
            (*final(self)).meta == old(self).meta,
    {
        let mut i: usize = 0;
        while i < self.entries.len()
            invariant
                0 <= i <= self.entries@.len(),
                *self == *old(self),
                forall|j: int| 0 <= j < i ==> !spec_eq(self.entries@[j].0, key),
            decreases self.entries@.len() - i,
        {
            if value_eq(&self.entries[i].0, &key) {
                let kept = self.entries[i].0.clone();
                self.entries.set(i, (kept, value));
                return ;
            }
            i = i + 1;
        }
        self.entries.push((key, value));
    }

    /// The value stored under the first key equal to the one given, by the
    /// comparison protocol.
    #[verifier::loop_isolation(false)]
    pub fn get(&self, key: &Value) -> (r: Option<&Value>)
        ensures
            (r is Some) <==> map_has_key(self.entries@, *key),
            forall|i: int|
                (0 <= i < self.entries@.len() && spec_eq(self.entries@[i].0, *key) && (forall|
                j: int,
                | (0 <= j < i ==> !spec_eq(self.entries@[j].0, *key)))) ==> r == Some(
                    &self.entries@[i].1,
                ),
    {
        let mut i: usize = 0;
        while i < self.entries.len()
            invariant
                0 <= i <= self.entries@.len(),
                forall|j: int| 0 <= j < i ==> !spec_eq(self.entries@[j].0, *key),
            decreases self.entries@.len() - i,
        {
            if value_eq(&self.entries[i].0, key) {
                return Some(&self.entries[i].1);
            }
            i = i + 1;
        }
        None
    }
}

/// Equality looks through references, however deep the wrapping: two
/// values are equal exactly when the values their reference chains lead to
/// are equal.
pub proof fn lemma_eq_ref_transparent(a: &Value, b: &Value)
    ensures
        spec_eq(*a, *b) == spec_eq(spec_unref(*a), spec_unref(*b)),
    decreases *a, *b,
{
    match (a, b) {
        (Value::Ref(x), _) => {
            lemma_eq_ref_transparent(&**x, b);
        },
        (_, Value::Ref(y)) => {
            lemma_eq_ref_transparent(a, &**y);
        },
        _ => {},
    }
}

/// Type identity looks through references on either side: wrapping a value
/// never changes which values it matches.
pub proof fn lemma_matching_type_ref_transparent(a: &Value, b: &Value)
    ensures
        spec_matching_type(*a, *b) == spec_matching_type(spec_unref(*a), spec_unref(*b)),
{
    lemma_unref_plain(a);
    lemma_unref_plain(b);
}

/// Removing reference wrapping is idempotent.
proof fn lemma_unref_plain(v: &Value)
    ensures
        spec_unref(spec_unref(*v)) == spec_unref(*v),
    decreases *v,
{
    match v {
        Value::Ref(r) => {
            lemma_unref_plain(&**r);
        },
        _ => {},
    }
}

} // verus!
