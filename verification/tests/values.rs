use std::cmp::Ordering;
use std::rc::Rc;

use koto_parser::MetaKeyId;
use koto_values::compare::UnorderableError;
use koto_values::display::{display_string, type_as_string};
use koto_values::meta_map::{meta_id_to_key, BinaryOp, MetaKey, MetaMap, UnaryOp};
use koto_values::text::{i64_to_text, number_to_text, u64_to_text};
use koto_values::num::{
    component_eq, component_partial_cmp, number_eq, number_partial_cmp, number_total_cmp,
};
use koto_values::value::{
    deref_value, make_reference, value_eq, values_have_matching_type, BuiltinData,
    BuiltinFunction, Value, ValueMap, WhileLoop,
};

fn num(x: f64) -> Value {
    Value::Number(x.to_bits())
}

fn text(s: &str) -> Value {
    Value::Str(Rc::new(String::from(s)))
}

fn wrap(v: Value) -> Value {
    Value::Ref(Rc::new(v))
}

fn function_def() -> Rc<koto_parser::Function> {
    Rc::new(koto_parser::Function {
        args: vec![],
        local_count: 0,
        accessed_non_locals: vec![],
        body: 0,
        is_instance_function: false,
        is_variadic: false,
        is_generator: false,
    })
}

#[test]
fn ref_transparency_for_equality() {
    let x = num(1.0);
    assert!(value_eq(&wrap(x.clone()), &x));
    assert!(value_eq(&wrap(wrap(wrap(x.clone()))), &x));
    assert!(value_eq(&wrap(wrap(x.clone())), &wrap(x.clone())));
    assert!(x == wrap(x.clone()));
    assert!(!value_eq(&wrap(num(2.0)), &x));
}

#[test]
fn make_reference_idempotence() {
    let x = num(4.5);
    let (first, made_first) = make_reference(x.clone());
    assert!(made_first);
    let (second, made_second) = make_reference(first.clone());
    assert!(!made_second);
    assert!(first == second);
    assert!(first == x);
}

#[test]
fn numeric_total_order_with_nan() {
    let nan = f64::NAN.to_bits();
    let one = 1.0f64.to_bits();
    assert_eq!(number_total_cmp(nan, nan), Ordering::Equal);
    assert_eq!(number_total_cmp(nan, one), Ordering::Greater);
    assert_eq!(number_total_cmp(one, nan), Ordering::Less);
    let samples: [f64; 10] = [
        0.0,
        -0.0,
        1.0,
        -1.0,
        1.5,
        f64::INFINITY,
        f64::NEG_INFINITY,
        f64::MIN_POSITIVE,
        5e-324,
        1e300,
    ];
    for &a in samples.iter() {
        for &b in samples.iter() {
            let expected = a.partial_cmp(&b).unwrap();
            assert_eq!(number_total_cmp(a.to_bits(), b.to_bits()), expected);
            assert_eq!(number_partial_cmp(a.to_bits(), b.to_bits()), Some(expected));
            assert_eq!(number_eq(a.to_bits(), b.to_bits()), a == b);
        }
    }
    assert_eq!(number_partial_cmp(nan, one), None);
    assert!(!number_eq(nan, nan));
}

#[test]
fn component_order_matches_f32() {
    let samples: [f32; 7] = [0.0, -0.0, 1.0, -2.5, f32::INFINITY, f32::NEG_INFINITY, 3.25];
    for &a in samples.iter() {
        for &b in samples.iter() {
            assert_eq!(
                component_partial_cmp(a.to_bits(), b.to_bits()),
                a.partial_cmp(&b)
            );
            assert_eq!(component_eq(a.to_bits(), b.to_bits()), a == b);
        }
    }
    let nan = f32::NAN.to_bits();
    assert_eq!(component_partial_cmp(nan, 0.0f32.to_bits()), None);
    assert!(!component_eq(nan, nan));
}

#[test]
fn type_identity_transparency() {
    assert!(values_have_matching_type(&wrap(num(1.0)), &num(2.0)));
    assert!(!values_have_matching_type(&text("a"), &num(1.0)));
    assert!(values_have_matching_type(
        &wrap(wrap(text("x"))),
        &wrap(text("y"))
    ));
    assert!(values_have_matching_type(&Value::Empty, &Value::Empty));
}

#[test]
fn function_identity_inequality() {
    let f = Value::Function { id: 1, def: function_def() };
    let g = Value::Function { id: 2, def: function_def() };
    assert!(f != g);
    assert!(display_string(&f) != display_string(&g));
    let f2 = f.clone();
    assert!(f == f2);
    assert_eq!(display_string(&f), display_string(&f2));
}

#[test]
fn builtin_functions_compare_unequal() {
    let f = Value::BuiltinFunction(BuiltinFunction::new(7, true));
    let g = f.clone();
    assert!(f != g);
    assert_eq!(display_string(&f), "Builtin function: 7");
}

#[test]
fn meta_map_order_preservation() {
    let mut meta = MetaMap::new();
    meta.insert(MetaKey::Test(String::from("a")), num(1.0));
    meta.insert(MetaKey::Test(String::from("b")), num(2.0));
    meta.insert(MetaKey::Test(String::from("c")), num(3.0));
    assert_eq!(meta.len(), 3);
    let expected = ["a", "b", "c"];
    for (i, name) in expected.iter().enumerate() {
        let (key, value) = meta.entry_at(i);
        assert_eq!(key, MetaKey::Test(String::from(*name)));
        assert!(value_eq(&value, &num((i + 1) as f64)));
    }
}

#[test]
fn meta_map_insert_replaces_in_place() {
    let mut meta = MetaMap::new();
    meta.insert(MetaKey::BinaryOp(BinaryOp::Add), num(1.0));
    meta.insert(MetaKey::Type, text("Point"));
    meta.insert(MetaKey::BinaryOp(BinaryOp::Add), num(9.0));
    assert_eq!(meta.len(), 2);
    let (key, value) = meta.entry_at(0);
    assert_eq!(key, MetaKey::BinaryOp(BinaryOp::Add));
    assert!(value_eq(&value, &num(9.0)));
    let looked_up = meta.get(&MetaKey::BinaryOp(BinaryOp::Add)).unwrap();
    assert!(value_eq(&looked_up, &num(9.0)));
    assert!(meta.get(&MetaKey::PreTest).is_none());
}

#[test]
fn meta_id_translation() {
    assert_eq!(
        meta_id_to_key(MetaKeyId::Add, None),
        Ok(MetaKey::BinaryOp(BinaryOp::Add))
    );
    assert_eq!(
        meta_id_to_key(MetaKeyId::Remainder, None),
        Ok(MetaKey::BinaryOp(BinaryOp::Modulo))
    );
    assert_eq!(
        meta_id_to_key(MetaKeyId::Index, None),
        Ok(MetaKey::BinaryOp(BinaryOp::Index))
    );
    assert_eq!(
        meta_id_to_key(MetaKeyId::Negate, None),
        Ok(MetaKey::UnaryOp(UnaryOp::Negate))
    );
    assert_eq!(
        meta_id_to_key(MetaKeyId::Display, None),
        Ok(MetaKey::UnaryOp(UnaryOp::Display))
    );
    assert_eq!(meta_id_to_key(MetaKeyId::Tests, None), Ok(MetaKey::Tests));
    assert_eq!(meta_id_to_key(MetaKeyId::PreTest, None), Ok(MetaKey::PreTest));
    assert_eq!(meta_id_to_key(MetaKeyId::PostTest, None), Ok(MetaKey::PostTest));
    assert_eq!(meta_id_to_key(MetaKeyId::Type, None), Ok(MetaKey::Type));
    assert_eq!(
        meta_id_to_key(MetaKeyId::Test, Some("flips")),
        Ok(MetaKey::Test(String::from("flips")))
    );
    assert_eq!(
        meta_id_to_key(MetaKeyId::Test, None),
        Err(String::from("Missing name for test"))
    );
    assert_eq!(
        meta_id_to_key(MetaKeyId::Invalid, None),
        Err(String::from("Invalid MetaKeyId"))
    );
    assert_eq!(
        meta_id_to_key(MetaKeyId::Named, Some("x")),
        Err(String::from("Invalid MetaKeyId"))
    );
}

#[test]
fn operator_symbols() {
    assert_eq!(BinaryOp::Add.symbol(), "+");
    assert_eq!(BinaryOp::LessOrEqual.symbol(), "<=");
    assert_eq!(BinaryOp::Index.symbol(), "[]");
    assert_eq!(UnaryOp::Negate.name(), "negate");
    assert_eq!(UnaryOp::Display.name(), "display");
    assert_eq!(MetaKey::from(BinaryOp::Equal), MetaKey::BinaryOp(BinaryOp::Equal));
    assert_eq!(MetaKey::from(UnaryOp::Display), MetaKey::UnaryOp(UnaryOp::Display));
}

#[test]
fn display_exactness() {
    let mut map = ValueMap::new();
    map.insert(num(1.0), Value::Empty);
    map.insert(num(2.0), Value::Empty);
    assert_eq!(display_string(&Value::MapValue(Rc::new(map))), "{ 1, 2 }");
    assert_eq!(
        display_string(&Value::MapValue(Rc::new(ValueMap::new()))),
        "{ }"
    );
    assert_eq!(
        display_string(&Value::IndexRange { start: 2, end: None }),
        "[2..]"
    );
    assert_eq!(
        display_string(&Value::Range { start: 0, end: 5 }),
        "[0..5]"
    );
}

#[test]
fn display_simple_values() {
    assert_eq!(display_string(&Value::Empty), "()");
    assert_eq!(display_string(&Value::Bool(true)), "true");
    assert_eq!(display_string(&Value::Bool(false)), "false");
    assert_eq!(display_string(&num(1.0)), "1");
    assert_eq!(display_string(&num(-3.0)), "-3");
    assert_eq!(display_string(&num(0.0)), "0");
    assert_eq!(display_string(&num(-0.0)), "-0");
    assert_eq!(display_string(&num(f64::NAN)), "NaN");
    assert_eq!(display_string(&num(f64::INFINITY)), "inf");
    assert_eq!(display_string(&num(f64::NEG_INFINITY)), "-inf");
    assert_eq!(display_string(&num(1.5)), "3*2^-1");
    assert_eq!(display_string(&num(1048576.0)), "1048576");
    assert_eq!(display_string(&text("hello")), "hello");
    assert_eq!(
        display_string(&Value::Range { start: -4, end: 4 }),
        "[-4..4]"
    );
    assert_eq!(
        display_string(&Value::IndexRange { start: 1, end: Some(9) }),
        "[1..9]"
    );
}

#[test]
fn display_composite_values() {
    let list = Value::List(Rc::new(vec![num(1.0), num(2.0), text("x")]));
    assert_eq!(display_string(&list), "[1, 2, x]");
    let empty_list = Value::List(Rc::new(vec![]));
    assert_eq!(display_string(&empty_list), "[]");
    let v4 = Value::Vec4(
        1.0f32.to_bits(),
        2.0f32.to_bits(),
        3.0f32.to_bits(),
        4.0f32.to_bits(),
    );
    assert_eq!(display_string(&v4), "(1, 2, 3, 4)");
    assert_eq!(display_string(&wrap(num(1.0))), "Ref 1");
    assert_eq!(display_string(&wrap(wrap(num(1.0)))), "Ref 1");
    let foreign = Value::BuiltinValue(Rc::new(BuiltinData {
        id: 3,
        value_type: String::from("Clock"),
        rendered: String::from("a clock"),
    }));
    assert_eq!(display_string(&foreign), "a clock");
    let for_def = Rc::new(koto_parser::AstFor { args: vec![], iterable: 0, body: 0 });
    assert_eq!(display_string(&Value::For(for_def)), "For loop");
    let while_def = Rc::new(WhileLoop { condition: 0, body: 1 });
    assert_eq!(display_string(&Value::While(while_def)), "While loop");
    assert_eq!(display_string(&Value::Function { id: 12, def: function_def() }), "Function: 12");
}

#[test]
fn type_names() {
    assert_eq!(type_as_string(&Value::Empty), "Empty");
    assert_eq!(type_as_string(&Value::Bool(false)), "Bool");
    assert_eq!(type_as_string(&num(0.0)), "Number");
    assert_eq!(type_as_string(&Value::Vec4(0, 0, 0, 0)), "Vec4");
    assert_eq!(type_as_string(&Value::List(Rc::new(vec![]))), "List");
    assert_eq!(type_as_string(&Value::Range { start: 0, end: 1 }), "Range");
    assert_eq!(
        type_as_string(&Value::IndexRange { start: 0, end: None }),
        "IndexRange"
    );
    assert_eq!(
        type_as_string(&Value::MapValue(Rc::new(ValueMap::new()))),
        "Map"
    );
    assert_eq!(type_as_string(&text("t")), "String");
    assert_eq!(
        type_as_string(&Value::Function { id: 0, def: function_def() }),
        "Function"
    );
    assert_eq!(
        type_as_string(&Value::BuiltinFunction(BuiltinFunction::new(0, false))),
        "BuiltinFunction"
    );
    let foreign = Value::BuiltinValue(Rc::new(BuiltinData {
        id: 0,
        value_type: String::from("Clock"),
        rendered: String::new(),
    }));
    assert_eq!(type_as_string(&foreign), "Clock");
    assert_eq!(type_as_string(&wrap(num(0.0))), "Ref Number");
    assert_eq!(type_as_string(&wrap(wrap(text("s")))), "Ref String");
}

#[test]
fn unorderable_comparison() {
    let map = Value::MapValue(Rc::new(ValueMap::new()));
    let err: UnorderableError = Value::Bool(true).total_order(&map).unwrap_err();
    assert_eq!(err.lhs_type, "Bool");
    assert_eq!(err.rhs_type, "Map");
    let err = Value::Bool(true).partial_order(&map).unwrap_err();
    assert_eq!(err.lhs_type, "Bool");
    assert_eq!(err.rhs_type, "Map");
    let v4 = Value::Vec4(0, 0, 0, 0);
    assert!(v4.total_order(&v4).is_err());
    assert!(v4.partial_order(&v4).is_ok());
}

#[test]
fn ordering_numbers_and_text() {
    assert_eq!(num(1.0).partial_order(&num(2.0)), Ok(Some(Ordering::Less)));
    assert_eq!(num(2.0).total_order(&num(2.0)), Ok(Ordering::Equal));
    assert_eq!(num(f64::NAN).partial_order(&num(1.0)), Ok(None));
    assert_eq!(text("a").total_order(&text("b")), Ok(Ordering::Less));
    assert_eq!(text("b").total_order(&text("ab")), Ok(Ordering::Greater));
    assert_eq!(text("ab").total_order(&text("ab")), Ok(Ordering::Equal));
    assert_eq!(text("ab").partial_order(&text("abc")), Ok(Some(Ordering::Less)));
    let a = Value::Vec4(1.0f32.to_bits(), 0, 0, 0);
    let b = Value::Vec4(2.0f32.to_bits(), 0, 0, 0);
    assert_eq!(a.partial_order(&b), Ok(Some(Ordering::Less)));
}

#[test]
fn structural_equality() {
    assert!(Value::Bool(true) == Value::Bool(true));
    assert!(Value::Bool(true) != Value::Bool(false));
    assert!(num(1.0) != text("1"));
    assert!(Value::Empty != Value::Empty);
    assert!(text("ab") == text("ab"));
    let l1 = Value::List(Rc::new(vec![num(1.0), num(2.0)]));
    let l2 = Value::List(Rc::new(vec![num(1.0), num(2.0)]));
    let l3 = Value::List(Rc::new(vec![num(1.0), num(3.0)]));
    assert!(l1 == l2);
    assert!(l1 != l3);
    assert!(num(0.0) == num(-0.0));
    assert!(num(f64::NAN) != num(f64::NAN));
    let mut map_a = ValueMap::new();
    map_a.insert(text("k"), num(1.0));
    let mut map_b = ValueMap::new();
    map_b.insert(text("k"), num(1.0));
    map_b.meta.insert(MetaKey::Type, text("Point"));
    // The meta table is dispatch, not data: it plays no part in equality.
    assert!(Value::MapValue(Rc::new(map_a)) == Value::MapValue(Rc::new(map_b)));
}

#[test]
fn value_map_lookup() {
    let mut map = ValueMap::new();
    map.insert(text("k"), num(1.0));
    map.insert(num(2.0), text("two"));
    map.insert(text("k"), num(7.0));
    assert_eq!(map.len(), 2);
    assert!(value_eq(map.get(&text("k")).unwrap(), &num(7.0)));
    assert!(value_eq(map.get(&num(2.0)).unwrap(), &text("two")));
    assert!(map.get(&num(9.0)).is_none());
    // Lookup is transparent through references, like equality itself.
    assert!(value_eq(map.get(&wrap(text("k"))).unwrap(), &num(7.0)));
}

#[test]
fn deref_and_from() {
    let x = num(8.0);
    let wrapped = wrap(wrap(x.clone()));
    assert!(value_eq(&deref_value(&wrapped), &x));
    assert!(value_eq(&deref_value(&x), &x));
    assert!(Value::from(true) == Value::Bool(true));
    assert!(Value::from(false) == Value::Bool(false));
}

#[test]
fn tests_enumerate_in_declaration_order() {
    let mut meta = MetaMap::new();
    meta.insert(MetaKey::Test(String::from("a")), num(1.0));
    meta.insert(MetaKey::PreTest, num(0.0));
    meta.insert(MetaKey::Test(String::from("b")), num(2.0));
    meta.insert(MetaKey::Type, text("Point"));
    meta.insert(MetaKey::Test(String::from("c")), num(3.0));
    let tests = meta.tests_in_order();
    assert_eq!(tests.len(), 3);
    assert_eq!(tests[0].0, MetaKey::Test(String::from("a")));
    assert_eq!(tests[1].0, MetaKey::Test(String::from("b")));
    assert_eq!(tests[2].0, MetaKey::Test(String::from("c")));
    let all = meta.entries_in_order();
    assert_eq!(all.len(), 5);
    assert_eq!(all[1].0, MetaKey::PreTest);
    assert_eq!(all[3].0, MetaKey::Type);
}

#[test]
fn integer_text_forms() {
    assert_eq!(u64_to_text(0), "0");
    assert_eq!(u64_to_text(1048576), "1048576");
    assert_eq!(u64_to_text(u64::MAX), "18446744073709551615");
    assert_eq!(i64_to_text(-42), "-42");
    assert_eq!(i64_to_text(i64::MIN), "-9223372036854775808");
    assert_eq!(number_to_text(9007199254740992.0f64.to_bits()), "9007199254740992");
    assert_eq!(number_to_text(0.25f64.to_bits()), "1*2^-2");
    assert_eq!(number_to_text(5e-324f64.to_bits()), "1*2^-1074");
    assert_eq!(number_to_text((-1.5f64).to_bits()), "-3*2^-1");
}
