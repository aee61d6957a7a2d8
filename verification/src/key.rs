//! Specialization keys: a kernel entry-point name plus an optional ordered
//! list of specialization constants. The pipeline cache is keyed by the full
//! key under the equivalence defined here.
//!
//! Float-valued constants contribute no information to the key: two float
//! entries are never told apart, whatever their bit patterns, so callers must
//! not rely on distinguishing two keys that differ only in a float constant's
//! magnitude. Only discrete-valued entries differentiate cache buckets.

use vstd::prelude::*;

verus! {

/// Addresses one specialization constant: by positional index or by
/// symbolic name.
#[derive(Clone, Debug)]
pub enum ConstantValueId {
    Index(u64),
    Name(String),
}

/// One specialization constant value. A 32-bit float is carried by its raw
/// bit pattern, so the crate itself stays free of float arithmetic; the
/// pattern is handed through unchanged to the device compiler.
#[derive(Clone, Debug)]
pub enum ConstantValue {
    Float(u32),
    Uint(u32),
    UShort(u16),
    Bool(bool),
}

/// An ordered list of `(identifier, value)` specialization constants.
#[derive(Clone, Debug)]
pub struct ConstantValues(pub Vec<(ConstantValueId, ConstantValue)>);

/// A pipeline-cache key: entry-point name and optional constants.
#[derive(Clone, Debug)]
pub struct KernelKey {
    pub name: String,
    pub constants: Option<ConstantValues>,
}

/// Two identifiers address the same constant.
pub open spec fn id_equiv(a: ConstantValueId, b: ConstantValueId) -> bool {
    match (a, b) {
        (ConstantValueId::Index(x), ConstantValueId::Index(y)) => x == y,
        (ConstantValueId::Name(p), ConstantValueId::Name(q)) => p@ == q@,
        _ => false,
    }
}

/// Two constant values coincide under the cache's rule: discrete values by
/// their payload, float values unconditionally (their magnitude carries no
/// information for caching).
pub open spec fn value_equiv(a: ConstantValue, b: ConstantValue) -> bool {
    match (a, b) {
        (ConstantValue::Float(_), ConstantValue::Float(_)) => true,
        (ConstantValue::Uint(x), ConstantValue::Uint(y)) => x == y,
        (ConstantValue::UShort(x), ConstantValue::UShort(y)) => x == y,
        (ConstantValue::Bool(x), ConstantValue::Bool(y)) => x == y,
        _ => false,
    }
}

/// Element-wise equivalence of two constant lists.
pub open spec fn constants_equiv(a: ConstantValues, b: ConstantValues) -> bool {
    &&& a.0@.len() == b.0@.len()
    &&& forall|i: int|
        #![auto]
        0 <= i < a.0@.len() ==> id_equiv(a.0@[i].0, b.0@[i].0) && value_equiv(
            a.0@[i].1,
            b.0@[i].1,
        )
}

/// The cache's equality rule over full keys: equal names, and constant lists
/// equivalent element-wise (both absent counts as equivalent).
pub open spec fn key_equiv(k1: KernelKey, k2: KernelKey) -> bool {
    &&& k1.name@ == k2.name@
    &&& match (k1.constants, k2.constants) {
        (Option::None, Option::None) => true,
        (Option::Some(a), Option::Some(b)) => constants_equiv(a, b),
        _ => false,
    }
}

/// Decides `id_equiv`.
pub fn id_eq(a: &ConstantValueId, b: &ConstantValueId) -> (r: bool)
    ensures
        r == id_equiv(*a, *b),
{
    match (a, b) {
        (ConstantValueId::Index(x), ConstantValueId::Index(y)) => *x == *y,
        (ConstantValueId::Name(p), ConstantValueId::Name(q)) => *p == *q,
        _ => false,
    }
}

/// Decides `value_equiv`.
pub fn value_eq(a: &ConstantValue, b: &ConstantValue) -> (r: bool)
    ensures
        r == value_equiv(*a, *b),
{
    match (a, b) {
        (ConstantValue::Float(_), ConstantValue::Float(_)) => true,
        (ConstantValue::Uint(x), ConstantValue::Uint(y)) => *x == *y,
        (ConstantValue::UShort(x), ConstantValue::UShort(y)) => *x == *y,
        (ConstantValue::Bool(x), ConstantValue::Bool(y)) => *x == *y,
        _ => false,
    }
}

/// Decides `constants_equiv`.
pub fn constants_eq(a: &ConstantValues, b: &ConstantValues) -> (r: bool)
    ensures
        r == constants_equiv(*a, *b),
{
    if a.0.len() != b.0.len() {
        return false;
    }
    let n = a.0.len();
    let mut i: usize = 0;
    while i < n
        invariant
            i <= n,
            n == a.0@.len(),
            n == b.0@.len(),
            forall|j: int|
                #![auto]
                0 <= j < i ==> id_equiv(a.0@[j].0, b.0@[j].0) && value_equiv(
                    a.0@[j].1,
                    b.0@[j].1,
                ),
        decreases n - i,
    {
        if !id_eq(&a.0[i].0, &b.0[i].0) {
            return false;
        }
        if !value_eq(&a.0[i].1, &b.0[i].1) {
            return false;
        }
        i += 1;
    }
    true
}

/// Decides `key_equiv`.
pub fn key_eq(k1: &KernelKey, k2: &KernelKey) -> (r: bool)
    ensures
        r == key_equiv(*k1, *k2),
{
    if !(k1.name == k2.name) {
        return false;
    }
    match (&k1.constants, &k2.constants) {
        (Option::None, Option::None) => true,
        (Option::Some(a), Option::Some(b)) => constants_eq(a, b),
        _ => false,
    }
}

/// The cache's equality rule is reflexive.
pub proof fn lemma_key_equiv_reflexive(k: KernelKey)
    ensures
        key_equiv(k, k),
{
}

/// The cache's equality rule is symmetric.
pub proof fn lemma_key_equiv_symmetric(k1: KernelKey, k2: KernelKey)
    ensures
        key_equiv(k1, k2) == key_equiv(k2, k1),
{
}

/// The cache's equality rule is transitive.
pub proof fn lemma_key_equiv_transitive(k1: KernelKey, k2: KernelKey, k3: KernelKey)
    requires
        key_equiv(k1, k2),
        key_equiv(k2, k3),
    ensures
        key_equiv(k1, k3),
{
}

/// Two values that are either identical or both floats coincide under the
/// cache's rule.
pub open spec fn equal_or_both_float(a: ConstantValue, b: ConstantValue) -> bool {
    a == b || (a is Float && b is Float)
}

/// Float insensitivity of the key: two keys with identical names and
/// identical constants — except that float-valued entries may differ in
/// value — are equal under the cache's equality rule, and therefore share
/// one cache bucket.
pub proof fn lemma_key_equiv_float_insensitive(k1: KernelKey, k2: KernelKey)
    requires
        k1.name@ == k2.name@,
        k1.constants is Some && k2.constants is Some,
        (k1.constants->0).0@.len() == (k2.constants->0).0@.len(),
        forall|i: int|
            #![auto]
            0 <= i < (k1.constants->0).0@.len() ==> id_equiv(
                (k1.constants->0).0@[i].0,
                (k2.constants->0).0@[i].0,
            ) && equal_or_both_float((k1.constants->0).0@[i].1, (k2.constants->0).0@[i].1),
    ensures
        key_equiv(k1, k2),
{
    let a = k1.constants->0;
    let b = k2.constants->0;
    assert forall|i: int| #![auto] 0 <= i < a.0@.len() implies value_equiv(
        a.0@[i].1,
        b.0@[i].1,
    ) by {
        assert(equal_or_both_float(a.0@[i].1, b.0@[i].1));
    }
}

} // verus!
