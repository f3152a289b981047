use vstd::prelude::*;

verus! {

use indexmap::IndexMap;
use rustc_hash::FxHasher;
use std::hash::BuildHasherDefault;
use koto_parser::MetaKeyId;
use crate::value::Value;
use vstd::string::StringExecFns;

// The meta-dispatch protocol: a Map value carries an insertion-ordered
// table from meta keys (operator symbols, test names, lifecycle hooks and
// the type name) to callable values. Enumerating the table must visit the
// entries in the order in which they were inserted, so that tests run in
// declaration order.

/// A parser-level meta key identifier.
///
/// Relies on `koto_parser::MetaKeyId`: a plain fieldless enum; declaring it
/// lets the translation below take it apart variant by variant.
#[verifier::external_type_specification]
pub struct ExMetaKeyId(MetaKeyId);

/// The twelve binary operators that a map may override.
#[derive(Clone, Copy, Debug, Eq, Hash, PartialEq)]
pub enum BinaryOp {
    Add,
    Subtract,
    Multiply,
    Divide,
    Modulo,
    Less,
    LessOrEqual,
    Greater,
    GreaterOrEqual,
    Equal,
    NotEqual,
    Index,
}

/// The two unary operators that a map may override.
#[derive(Clone, Copy, Debug, Eq, Hash, PartialEq)]
pub enum UnaryOp {
    Negate,
    Display,
}

/// The symbol of a binary operator.
pub open spec fn binary_op_text(op: BinaryOp) -> Seq<char> {
    match op {
        BinaryOp::Add => "+"@,
        BinaryOp::Subtract => "-"@,
        BinaryOp::Multiply => "*"@,
        BinaryOp::Divide => "/"@,
        BinaryOp::Modulo => "%"@,
        BinaryOp::Less => "<"@,
        BinaryOp::LessOrEqual => "<="@,
        BinaryOp::Greater => ">"@,
        BinaryOp::GreaterOrEqual => ">="@,
        BinaryOp::Equal => "=="@,
        BinaryOp::NotEqual => "!="@,
        BinaryOp::Index => "[]"@,
    }
}

/// The name of a unary operator.
pub open spec fn unary_op_text(op: UnaryOp) -> Seq<char> {
    match op {
        UnaryOp::Negate => "negate"@,
        UnaryOp::Display => "display"@,
    }
}

impl BinaryOp {
    /// The operator's symbol, as it is written in a script.
    pub fn symbol(&self) -> (r: &'static str)
        ensures
            r@ == binary_op_text(*self),
    {
        match self {
            BinaryOp::Add => "+",
            BinaryOp::Subtract => "-",
            BinaryOp::Multiply => "*",
            BinaryOp::Divide => "/",
            BinaryOp::Modulo => "%",
            BinaryOp::Less => "<",
            BinaryOp::LessOrEqual => "<=",
            BinaryOp::Greater => ">",
            BinaryOp::GreaterOrEqual => ">=",
            BinaryOp::Equal => "==",
            BinaryOp::NotEqual => "!=",
            BinaryOp::Index => "[]",
        }
    }
}

impl UnaryOp {
    /// The operator's name, as it is written in a script.
    pub fn name(&self) -> (r: &'static str)
        ensures
            r@ == unary_op_text(*self),
    {
        match self {
            UnaryOp::Negate => "negate",
            UnaryOp::Display => "display",
        }
    }
}

/// A key of the meta table: a binary or unary operator, a named test, the
/// collection of all tests, the pre- and post-test hooks, or the type name.
#[derive(Clone, Debug, Eq, Hash, PartialEq)]
pub enum MetaKey {
    BinaryOp(BinaryOp),
    UnaryOp(UnaryOp),
    Test(String),
    Tests,
    PreTest,
    PostTest,
    Type,
}

impl From<BinaryOp> for MetaKey {
    fn from(op: BinaryOp) -> (r: Self) {
        MetaKey::BinaryOp(op)
    }
}

impl vstd::std_specs::convert::FromSpecImpl<BinaryOp> for MetaKey {
    open spec fn obeys_from_spec() -> bool {
        true
    }

    open spec fn from_spec(op: BinaryOp) -> Self {
        MetaKey::BinaryOp(op)
    }
}

impl From<UnaryOp> for MetaKey {
    fn from(op: UnaryOp) -> (r: Self) {
        MetaKey::UnaryOp(op)
    }
}

impl vstd::std_specs::convert::FromSpecImpl<UnaryOp> for MetaKey {
    open spec fn obeys_from_spec() -> bool {
        true
    }

    open spec fn from_spec(op: UnaryOp) -> Self {
        MetaKey::UnaryOp(op)
    }
}

/// Whether two meta keys denote the same table slot: the same operator,
/// hook or type-name key, or tests with the same name.
pub open spec fn key_matches(a: MetaKey, b: MetaKey) -> bool {
    match (a, b) {
        (MetaKey::BinaryOp(x), MetaKey::BinaryOp(y)) => x == y,
        (MetaKey::UnaryOp(x), MetaKey::UnaryOp(y)) => x == y,
        (MetaKey::Test(x), MetaKey::Test(y)) => x@ == y@,
        (MetaKey::Tests, MetaKey::Tests) => true,
        (MetaKey::PreTest, MetaKey::PreTest) => true,
        (MetaKey::PostTest, MetaKey::PostTest) => true,
        (MetaKey::Type, MetaKey::Type) => true,
        _ => false,
    }
}

/// Whether some entry holds the key.
pub open spec fn has_key(entries: Seq<(MetaKey, Value)>, key: MetaKey) -> bool {
    exists|i: int| 0 <= i < entries.len() && key_matches(entries[i].0, key)
}

/// Whether no two entries hold the same key.
pub open spec fn distinct_keys(entries: Seq<(MetaKey, Value)>) -> bool {
    forall|i: int, j: int|
        0 <= i < j < entries.len() ==> !key_matches(entries[i].0, entries[j].0)
}

/// The entries of a meta table, in insertion order.
pub uninterp spec fn meta_entries(m: MetaMap) -> Seq<(MetaKey, Value)>;

/// An insertion-order-preserving table from meta keys to values.
///
/// The table is an `indexmap::IndexMap` keyed by `MetaKey`, hashed with
/// `rustc_hash::FxHasher` (fast, not adversary-resistant: keys come from
/// trusted script and runtime code only). Its contracts speak of
/// `meta_entries`, the table's entries in insertion order.
#[verifier::external_body]
pub struct MetaMap {
    map: IndexMap<MetaKey, Value, BuildHasherDefault<FxHasher>>,
}

impl MetaMap {
    /// An empty meta table.
    ///
    /// Relies on `IndexMap::default`, which makes an empty map.
    #[verifier::external_body]
    pub fn new() -> (r: MetaMap)
        ensures
            meta_entries(r) == Seq::<(MetaKey, Value)>::empty(),
    {
        MetaMap { map: IndexMap::default() }
    }

    /// The number of entries.
    ///
    /// Relies on `IndexMap::len`.
    #[verifier::external_body]
    pub fn len(&self) -> (r: usize)
        ensures
            r == meta_entries(*self).len(),
    {
        self.map.len()
    }

    /// Inserts a key and value. An equivalent key keeps its place and its
    /// original key, and only the value is replaced; a new key goes to the
    /// end, after all existing entries.
    ///
    /// Relies on `IndexMap::insert`: "If an equivalent key already exists
    /// in the map: the key remains and retains in its place in the order,
    /// its corresponding value is updated"; otherwise the pair is appended.
    /// `MetaKey`'s derived `Hash` and `Eq` compare the keys structurally,
    /// as `key_matches` does.
    #[verifier::external_body]
    pub fn insert(&mut self, key: MetaKey, value: Value)
        ensures
            !has_key(meta_entries(*old(self)), key) ==> meta_entries(*final(self)) == meta_entries(
                *old(self),
            ).push((key, value)),
            distinct_keys(meta_entries(*old(self))) ==> forall|i: int|
                0 <= i < meta_entries(*old(self)).len() && key_matches(
                    meta_entries(*old(self))[i].0,
                    key,
                ) ==> meta_entries(*final(self)) == meta_entries(*old(self)).update(
                    i,
                    (meta_entries(*old(self))[i].0, value),
                ),
            distinct_keys(meta_entries(*old(self))) ==> distinct_keys(meta_entries(*final(self))),
    {
        self.map.insert(key, value);
    }

    /// The value stored under the key, if there is one.
    ///
    /// Relies on `IndexMap::get`, which finds the entry whose key equals
    /// the argument, and on `Clone` for the returned value (clones of the
    /// stored key and value equal the stored ones).
    #[verifier::external_body]
    pub fn get(&self, key: &MetaKey) -> (r: Option<Value>)
        ensures
            (r is Some) <==> has_key(meta_entries(*self), *key),
            distinct_keys(meta_entries(*self)) ==> forall|i: int|
                0 <= i < meta_entries(*self).len() && key_matches(
                    meta_entries(*self)[i].0,
                    *key,
                ) ==> r == Some(meta_entries(*self)[i].1),
    {
        self.map.get(key).cloned()
    }

    /// The entry at a position, in insertion order.
    ///
    /// Relies on `IndexMap::get_index`, which returns the key-value pair at
    /// the position in the map's order, and on `Clone` for both parts.
    #[verifier::external_body]
    pub fn entry_at(&self, i: usize) -> (r: (MetaKey, Value))
        requires
            i < meta_entries(*self).len(),
        ensures
            r == meta_entries(*self)[i as int],
    {
        let (key, value) = self.map.get_index(i).unwrap();
        (key.clone(), value.clone())
    }
}

/// Translates a parser-level meta key identifier, plus the required name
/// for named tests, into a meta key. `Test` without a name, the sentinel
/// `Invalid` identifier, and identifiers outside this core's closed key
/// set are caller-recoverable errors.
pub fn meta_id_to_key(id: MetaKeyId, name: Option<&str>) -> (r: Result<MetaKey, String>)
    ensures
        ({
            match id {
                MetaKeyId::Add => r == Ok::<MetaKey, String>(MetaKey::BinaryOp(BinaryOp::Add)),
                MetaKeyId::Subtract => r == Ok::<MetaKey, String>(
                    MetaKey::BinaryOp(BinaryOp::Subtract),
                ),
                MetaKeyId::Multiply => r == Ok::<MetaKey, String>(
                    MetaKey::BinaryOp(BinaryOp::Multiply),
                ),
                MetaKeyId::Divide => r == Ok::<MetaKey, String>(
                    MetaKey::BinaryOp(BinaryOp::Divide),
                ),
                MetaKeyId::Remainder => r == Ok::<MetaKey, String>(
                    MetaKey::BinaryOp(BinaryOp::Modulo),
                ),
                MetaKeyId::Less => r == Ok::<MetaKey, String>(MetaKey::BinaryOp(BinaryOp::Less)),
                MetaKeyId::LessOrEqual => r == Ok::<MetaKey, String>(
                    MetaKey::BinaryOp(BinaryOp::LessOrEqual),
                ),
                MetaKeyId::Greater => r == Ok::<MetaKey, String>(
                    MetaKey::BinaryOp(BinaryOp::Greater),
                ),
                MetaKeyId::GreaterOrEqual => r == Ok::<MetaKey, String>(
                    MetaKey::BinaryOp(BinaryOp::GreaterOrEqual),
                ),
                MetaKeyId::Equal => r == Ok::<MetaKey, String>(MetaKey::BinaryOp(BinaryOp::Equal)),
                MetaKeyId::NotEqual => r == Ok::<MetaKey, String>(
                    MetaKey::BinaryOp(BinaryOp::NotEqual),
                ),
                MetaKeyId::Index => r == Ok::<MetaKey, String>(MetaKey::BinaryOp(BinaryOp::Index)),
                MetaKeyId::Negate => r == Ok::<MetaKey, String>(MetaKey::UnaryOp(UnaryOp::Negate)),
                MetaKeyId::Display => r == Ok::<MetaKey, String>(
                    MetaKey::UnaryOp(UnaryOp::Display),
                ),
                MetaKeyId::Tests => r == Ok::<MetaKey, String>(MetaKey::Tests),
                MetaKeyId::PreTest => r == Ok::<MetaKey, String>(MetaKey::PreTest),
                MetaKeyId::PostTest => r == Ok::<MetaKey, String>(MetaKey::PostTest),
                MetaKeyId::Type => r == Ok::<MetaKey, String>(MetaKey::Type),
                MetaKeyId::Test => match name {
                    Some(n) => r matches Ok(k) && k matches MetaKey::Test(t) && t@ == n@,
                    None => r matches Err(e) && e@ == "Missing name for test"@,
                },
                _ => r matches Err(e) && e@ == "Invalid MetaKeyId"@,
            }
        }),
{
    match id {
        MetaKeyId::Add => Ok(MetaKey::BinaryOp(BinaryOp::Add)),
        MetaKeyId::Subtract => Ok(MetaKey::BinaryOp(BinaryOp::Subtract)),
        MetaKeyId::Multiply => Ok(MetaKey::BinaryOp(BinaryOp::Multiply)),
        MetaKeyId::Divide => Ok(MetaKey::BinaryOp(BinaryOp::Divide)),
        MetaKeyId::Remainder => Ok(MetaKey::BinaryOp(BinaryOp::Modulo)),
        MetaKeyId::Less => Ok(MetaKey::BinaryOp(BinaryOp::Less)),
        MetaKeyId::LessOrEqual => Ok(MetaKey::BinaryOp(BinaryOp::LessOrEqual)),
        MetaKeyId::Greater => Ok(MetaKey::BinaryOp(BinaryOp::Greater)),
        MetaKeyId::GreaterOrEqual => Ok(MetaKey::BinaryOp(BinaryOp::GreaterOrEqual)),
        MetaKeyId::Equal => Ok(MetaKey::BinaryOp(BinaryOp::Equal)),
        MetaKeyId::NotEqual => Ok(MetaKey::BinaryOp(BinaryOp::NotEqual)),
        MetaKeyId::Index => Ok(MetaKey::BinaryOp(BinaryOp::Index)),
        MetaKeyId::Negate => Ok(MetaKey::UnaryOp(UnaryOp::Negate)),
        MetaKeyId::Display => Ok(MetaKey::UnaryOp(UnaryOp::Display)),
        MetaKeyId::Tests => Ok(MetaKey::Tests),
        MetaKeyId::PreTest => Ok(MetaKey::PreTest),
        MetaKeyId::PostTest => Ok(MetaKey::PostTest),
        MetaKeyId::Type => Ok(MetaKey::Type),
        MetaKeyId::Test => match name {
            Some(n) => Ok(MetaKey::Test(String::from_str(n))),
            None => Err(String::from_str("Missing name for test")),
        },
        _ => Err(String::from_str("Invalid MetaKeyId")),
    }
}


/// The named-test entries of a table, in their declaration order.
pub open spec fn test_entries(entries: Seq<(MetaKey, Value)>) -> Seq<(MetaKey, Value)>
    decreases entries.len(),
{
    if entries.len() == 0 {
        Seq::empty()
    } else {
        let fore = test_entries(entries.drop_last());
        if entries.last().0 is Test {
            fore.push(entries.last())
        } else {
            fore
        }
    }
}

impl MetaMap {
    /// Every entry, in insertion order.
    #[verifier::loop_isolation(false)]
    pub fn entries_in_order(&self) -> (r: Vec<(MetaKey, Value)>)
        ensures
            r@ == meta_entries(*self),
    {
        let mut r: Vec<(MetaKey, Value)> = Vec::new();
        let n = self.len();
        let mut i: usize = 0;
        while i < n
            invariant
                0 <= i <= n,
                n == meta_entries(*self).len(),
                r@ == meta_entries(*self).take(i as int),
            decreases n - i,
        {
            r.push(self.entry_at(i));
            proof {
                assert(r@ =~= meta_entries(*self).take(i + 1 as int));
            }
            i = i + 1;
        }
        proof {
            assert(meta_entries(*self).take(n as int) =~= meta_entries(*self));
        }
        r
    }

    /// The named tests, in the order in which they were declared. A
    /// consumer that runs all tests visits exactly these, in this order,
    /// with the pre- and post-test hooks (when present) around each one.
    #[verifier::loop_isolation(false)]
    pub fn tests_in_order(&self) -> (r: Vec<(MetaKey, Value)>)
        ensures
            r@ == test_entries(meta_entries(*self)),
    {
        let mut r: Vec<(MetaKey, Value)> = Vec::new();
        let n = self.len();
        let mut i: usize = 0;
        while i < n
            invariant
                0 <= i <= n,
                n == meta_entries(*self).len(),
                r@ == test_entries(meta_entries(*self).take(i as int)),
            decreases n - i,
        {
            let entry = self.entry_at(i);
            let keep = match &entry.0 {
                MetaKey::Test(_) => true,
                _ => false,
            };
            if keep {
                r.push(entry);
            }
            proof {
                let taken = meta_entries(*self).take(i + 1 as int);
                assert(taken.drop_last() =~= meta_entries(*self).take(i as int));
                assert(taken.last() == meta_entries(*self)[i as int]);
            }
            i = i + 1;
        }
        proof {
            assert(meta_entries(*self).take(n as int) =~= meta_entries(*self));
        }
        r
    }
}

} // verus!
