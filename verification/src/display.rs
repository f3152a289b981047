use vstd::prelude::*;

verus! {

use vstd::string::StringExecFns;
use crate::text::{component_text, dec_digits, int_text, number_text, component_to_text,
    number_to_text, push_digits, push_i64};
use crate::value::{is_plain, spec_eq, spec_unref, Value};

broadcast use vstd::std_specs::vec::group_vec_axioms, vstd::seq::group_seq_axioms;

// The display protocol: every value has a deterministic, human-readable
// textual form. A reference renders as "Ref " before the form of the value
// its chain leads to; callables render an allocation-scoped identity,
// never their contents, so that two independently created callables never
// render alike.

/// The textual form of a value that is not a reference.
pub open spec fn plain_text(v: Value) -> Seq<char>
    decreases v, 0int, 0int,
{
    match v {
        Value::Empty => "()"@,
        Value::Bool(b) => if b {
            "true"@
        } else {
            "false"@
        },
        Value::Number(n) => number_text(n),
        Value::Vec4(a, b, c, d) => "("@ + component_text(a) + ", "@ + component_text(b) + ", "@
            + component_text(c) + ", "@ + component_text(d) + ")"@,
        Value::Str(s) => s@,
        Value::List(l) => "["@ + list_items_text(l@, 0) + "]"@,
        Value::MapValue(m) => "{"@ + map_keys_text(m.entries@, 0) + " }"@,
        Value::Range { start, end } => "["@ + int_text(start as int) + ".."@ + int_text(end as int)
            + "]"@,
        Value::IndexRange { start, end } => "["@ + dec_digits(start as nat) + ".."@ + (match end {
            Some(e) => dec_digits(e as nat),
            None => Seq::empty(),
        }) + "]"@,
        Value::Ref(_) => Seq::empty(),
        Value::Function { id, .. } => "Function: "@ + dec_digits(id as nat),
        Value::BuiltinFunction(f) => "Builtin function: "@ + dec_digits(f.id as nat),
        Value::BuiltinValue(d) => d.rendered@,
        Value::For(_) => "For loop"@,
        Value::While(_) => "While loop"@,
    }
}

/// The items of a list from position `i` on, comma-separated.
pub open spec fn list_items_text(items: Seq<Value>, i: int) -> Seq<char>
    decreases items, (if i < items.len() { items.len() - i } else { 0int }), 2int,
{
    if 0 <= i < items.len() {
        let sep: Seq<char> = if i == 0 {
            Seq::empty()
        } else {
            ", "@
        };
        sep + display_text(items[i]) + list_items_text(items, i + 1)
    } else {
        Seq::empty()
    }
}

/// The keys of a map from entry `i` on: a space before the first, a comma
/// and a space before each later one.
pub open spec fn map_keys_text(entries: Seq<(Value, Value)>, i: int) -> Seq<char>
    decreases entries, (if i < entries.len() { entries.len() - i } else { 0int }), 2int,
{
    if 0 <= i < entries.len() {
        let sep: Seq<char> = if i == 0 {
            " "@
        } else {
            ", "@
        };
        sep + display_text(entries[i].0) + map_keys_text(entries, i + 1)
    } else {
        Seq::empty()
    }
}

/// The textual form of the value a reference chain leads to, prefixed
/// "Ref ".
pub open spec fn ref_text(v: Value) -> Seq<char>
    decreases v, 0int, 2int,
{
    match v {
        Value::Ref(r) => ref_text(*r),
        _ => "Ref "@ + plain_text(v),
    }
}

/// The textual form of a value: a reference renders as "Ref " before the
/// form of the value its chain leads to, however deep the wrapping;
/// everything else renders as `plain_text` says.
pub open spec fn display_text(v: Value) -> Seq<char>
    decreases v, 0int, 1int,
{
    match v {
        Value::Ref(r) => ref_text(*r),
        _ => plain_text(v),
    }
}

/// `ref_text` is "Ref " before the form of the value the chain leads to.
pub proof fn lemma_ref_text(v: &Value)
    ensures
        ref_text(*v) == "Ref "@ + plain_text(spec_unref(*v)),
    decreases *v,
{
    match v {
        Value::Ref(r) => {
            lemma_ref_text(&**r);
        },
        _ => {},
    }
}

/// The value a reference chain leads to, borrowed: the argument itself
/// when it is not a reference.
fn unref_ref(v: &Value) -> (r: &Value)
    ensures
        *r == spec_unref(*v),
        is_plain(*r),
        *r == *v || decreases_to!(*v => *r),
    decreases *v,
{
    match v {
        Value::Ref(rc) => unref_ref(&**rc),
        _ => v,
    }
}

/// The textual form of a value that is not a reference.
#[verifier::loop_isolation(false)]
fn plain_string(v: &Value) -> (r: String)
    requires
        is_plain(*v),
    ensures
        r@ == plain_text(*v),
    decreases *v, 0int, 0int,
{
    match v {
        Value::Empty => String::from_str("()"),
        Value::Bool(b) => if *b {
            String::from_str("true")
        } else {
            String::from_str("false")
        },
        Value::Number(n) => number_to_text(*n),
        Value::Vec4(a, b, c, d) => {
            let mut s = String::from_str("(");
            let ta = component_to_text(*a);
            s.append(ta.as_str());
            s.append(", ");
            let tb = component_to_text(*b);
            s.append(tb.as_str());
            s.append(", ");
            let tc = component_to_text(*c);
            s.append(tc.as_str());
            s.append(", ");
            let td = component_to_text(*d);
            s.append(td.as_str());
            s.append(")");
            s
        },
        Value::Str(text) => (**text).clone(),
        Value::List(l) => {
            let mut s = String::from_str("[");
            let mut i: usize = 0;
            while i < l.len()
                invariant
                    0 <= i <= l@.len(),
                    s@ + list_items_text(l@, i as int) == "["@ + list_items_text(l@, 0),
                decreases l@.len() - i,
            {
                proof {
                    assert(decreases_to!(*v => l@));
                    assert(decreases_to!(l@ => l@[i as int]));
                }
                if i > 0 {
                    s.append(", ");
                }
                let t = display_string(&l[i]);
                s.append(t.as_str());
                i = i + 1;
            }
            s.append("]");
            proof {
                assert(s@ =~= "["@ + list_items_text(l@, 0) + "]"@);
            }
            s
        },
        Value::MapValue(m) => {
            let mut s = String::from_str("{");
            let mut i: usize = 0;
            while i < m.entries.len()
                invariant
                    0 <= i <= m.entries@.len(),
                    s@ + map_keys_text(m.entries@, i as int) == "{"@ + map_keys_text(
                        m.entries@,
                        0,
                    ),
                decreases m.entries@.len() - i,
            {
                proof {
                    assert(decreases_to!(*v => m.entries@));
                    assert(decreases_to!(m.entries@ => m.entries@[i as int]));
                    assert(decreases_to!(m.entries@[i as int] => m.entries@[i as int].0));
                }
                if i > 0 {
                    s.append(", ");
                } else {
                    s.append(" ");
                }
                let t = display_string(&m.entries[i].0);
                s.append(t.as_str());
                i = i + 1;
            }
            s.append(" }");
            proof {
                assert(s@ =~= "{"@ + map_keys_text(m.entries@, 0) + " }"@);
            }
            s
        },
        Value::Range { start, end } => {
            let mut s = String::from_str("[");
            push_i64(&mut s, *start as i64);
            s.append("..");
            push_i64(&mut s, *end as i64);
            s.append("]");
            s
        },
        Value::IndexRange { start, end } => {
            let mut s = String::from_str("[");
            push_digits(&mut s, *start as u64);
            s.append("..");
            match end {
                Some(e) => {
                    push_digits(&mut s, *e as u64);
                },
                None => {},
            }
            s.append("]");
            s
        },
        Value::Ref(_) => {
            proof {
                assert(false);
            }
            String::new()
        },
        Value::Function { id, .. } => {
            let mut s = String::from_str("Function: ");
            push_digits(&mut s, *id);
            s
        },
        Value::BuiltinFunction(f) => {
            let mut s = String::from_str("Builtin function: ");
            push_digits(&mut s, f.id);
            s
        },
        Value::BuiltinValue(d) => d.rendered.clone(),
        Value::For(_) => String::from_str("For loop"),
        Value::While(_) => String::from_str("While loop"),
    }
}

/// The textual form of a value, as the display protocol states it.
pub fn display_string(v: &Value) -> (r: String)
    ensures
        r@ == display_text(*v),
    decreases *v, 0int, 1int,
{
    match v {
        Value::Ref(rc) => {
            proof {
                lemma_ref_text(&**rc);
            }
            let u = unref_ref(v);
            let mut s = String::from_str("Ref ");
            let t = plain_string(u);
            s.append(t.as_str());
            s
        },
        _ => plain_string(v),
    }
}

/// The canonical name of a value's variant, the fully dereferenced one for
/// a reference, and the foreign object's own type name for a foreign
/// value.
pub open spec fn plain_type_text(v: Value) -> Seq<char> {
    match v {
        Value::Empty => "Empty"@,
        Value::Bool(_) => "Bool"@,
        Value::Number(_) => "Number"@,
        Value::Vec4(_, _, _, _) => "Vec4"@,
        Value::List(_) => "List"@,
        Value::Range { .. } => "Range"@,
        Value::IndexRange { .. } => "IndexRange"@,
        Value::MapValue(_) => "Map"@,
        Value::Str(_) => "String"@,
        Value::Ref(_) => Seq::empty(),
        Value::Function { .. } => "Function"@,
        Value::BuiltinFunction(_) => "BuiltinFunction"@,
        Value::BuiltinValue(d) => d.value_type@,
        Value::For(_) => "For"@,
        Value::While(_) => "While"@,
    }
}

/// The type name of a value: the variant's canonical name, with a "Ref "
/// prefix and the name of the fully dereferenced value for a reference.
pub open spec fn type_text(v: Value) -> Seq<char> {
    if v is Ref {
        "Ref "@ + plain_type_text(spec_unref(v))
    } else {
        plain_type_text(v)
    }
}

fn plain_type_string(v: &Value) -> (r: String)
    requires
        is_plain(*v),
    ensures
        r@ == plain_type_text(*v),
{
    match v {
        Value::Empty => String::from_str("Empty"),
        Value::Bool(_) => String::from_str("Bool"),
        Value::Number(_) => String::from_str("Number"),
        Value::Vec4(_, _, _, _) => String::from_str("Vec4"),
        Value::List(_) => String::from_str("List"),
        Value::Range { .. } => String::from_str("Range"),
        Value::IndexRange { .. } => String::from_str("IndexRange"),
        Value::MapValue(_) => String::from_str("Map"),
        Value::Str(_) => String::from_str("String"),
        Value::Ref(_) => String::new(),
        Value::Function { .. } => String::from_str("Function"),
        Value::BuiltinFunction(_) => String::from_str("BuiltinFunction"),
        Value::BuiltinValue(d) => d.value_type.clone(),
        Value::For(_) => String::from_str("For"),
        Value::While(_) => String::from_str("While"),
    }
}

/// The type name of a value, as `type_text` states it.
pub fn type_as_string(v: &Value) -> (r: String)
    ensures
        r@ == type_text(*v),
{
    match v {
        Value::Ref(_) => {
            let u = unref_ref(v);
            let mut s = String::from_str("Ref ");
            let t = plain_type_string(u);
            s.append(t.as_str());
            s
        },
        _ => plain_type_string(v),
    }
}


/// Script functions go by identity: two function values are equal exactly
/// when their identities are equal, and functions with different
/// identities never render alike, whatever their definitions hold.
pub proof fn lemma_function_identity(
    id_a: u64,
    def_a: std::rc::Rc<koto_parser::Function>,
    id_b: u64,
    def_b: std::rc::Rc<koto_parser::Function>,
)
    ensures
        spec_eq(
            Value::Function { id: id_a, def: def_a },
            Value::Function { id: id_b, def: def_b },
        ) == (id_a == id_b),
        id_a != id_b ==> display_text(Value::Function { id: id_a, def: def_a }) != display_text(
            Value::Function { id: id_b, def: def_b },
        ),
{
    let text_a = display_text(Value::Function { id: id_a, def: def_a });
    let text_b = display_text(Value::Function { id: id_b, def: def_b });
    if id_a != id_b && text_a == text_b {
        let head = "Function: "@;
        let digits_a = crate::text::dec_digits(id_a as nat);
        let digits_b = crate::text::dec_digits(id_b as nat);
        assert(text_a == head + digits_a);
        assert(text_b == head + digits_b);
        assert forall|i: int| 0 <= i < digits_a.len() implies digits_a[i] == digits_b[i] by {
            assert(digits_a[i] == (head + digits_a)[head.len() + i]);
            assert(digits_b[i] == (head + digits_b)[head.len() + i]);
        }
        assert(digits_a =~= digits_b);
        crate::text::lemma_dec_digits_injective(id_a as nat, id_b as nat);
    }
}

} // verus!
