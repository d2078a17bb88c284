use vstd::prelude::*;

verus! {

/// A literal or bindable scalar. Each variant carries an optional payload:
/// `None` is the SQL `NULL` of that variant's type.
#[derive(Debug, Clone, PartialEq)]
pub enum Value {
    Bool(Option<bool>),
    TinyInt(Option<i8>),
    SmallInt(Option<i16>),
    Int(Option<i32>),
    BigInt(Option<i64>),
    TinyUnsigned(Option<u8>),
    SmallUnsigned(Option<u16>),
    Unsigned(Option<u32>),
    BigUnsigned(Option<u64>),
    String(Option<String>),
    Char(Option<char>),
    Bytes(Option<Vec<u8>>),
}

/// Two values are the same when they have the same variant and payload; byte
/// payloads are compared by their contents.
pub open spec fn same_value(a: Value, b: Value) -> bool {
    match (a, b) {
        (Value::Bytes(Some(x)), Value::Bytes(Some(y))) => x@ == y@,
        (Value::Bytes(Some(_)), _) => false,
        (_, Value::Bytes(Some(_))) => false,
        _ => a == b,
    }
}

/// Two sequences of the same length agree position by position.
#[verifier::opaque]
pub open spec fn pointwise_same(a: Seq<Value>, b: Seq<Value>) -> bool {
    forall|i: int| 0 <= i < a.len() ==> #[trigger] same_value(a[i], b[i])
}

/// Two sequences of values agree position by position.
pub open spec fn same_values(a: Seq<Value>, b: Seq<Value>) -> bool {
    &&& a.len() == b.len()
    &&& pointwise_same(a, b)
}

pub proof fn lemma_same_values_refl(a: Seq<Value>)
    ensures
        same_values(a, a),
{
    reveal(pointwise_same);
}

pub proof fn lemma_same_values_append(a: Seq<Value>, b: Seq<Value>, c: Seq<Value>, d: Seq<Value>)
    requires
        same_values(a, b),
        same_values(c, d),
    ensures
        same_values(a + c, b + d),
{
    reveal(pointwise_same);
    assert forall|i: int| 0 <= i < (a + c).len() implies #[trigger] same_value((a + c)[i], (b + d)[i]) by {
        if i < a.len() {
            assert(same_value(a[i], b[i]));
        } else {
            assert(same_value(c[i - a.len()], d[i - a.len()]));
        }
    }
}

impl Value {
    /// A copy of this value.
    pub fn duplicate(&self) -> (r: Value)
        ensures
            same_value(r, *self),
    {
        match self {
            Value::Bool(x) => Value::Bool(*x),
            Value::TinyInt(x) => Value::TinyInt(*x),
            Value::SmallInt(x) => Value::SmallInt(*x),
            Value::Int(x) => Value::Int(*x),
            Value::BigInt(x) => Value::BigInt(*x),
            Value::TinyUnsigned(x) => Value::TinyUnsigned(*x),
            Value::SmallUnsigned(x) => Value::SmallUnsigned(*x),
            Value::Unsigned(x) => Value::Unsigned(*x),
            Value::BigUnsigned(x) => Value::BigUnsigned(*x),
            Value::String(None) => Value::String(None),
            Value::String(Some(s)) => Value::String(Some(s.clone())),
            Value::Char(x) => Value::Char(*x),
            Value::Bytes(None) => Value::Bytes(None),
            Value::Bytes(Some(b)) => {
                let mut out: Vec<u8> = Vec::new();
                let mut i: usize = 0;
                while i < b.len()
                    invariant
                        i <= b@.len(),
                        out@ == b@.subrange(0, i as int),
                    decreases b@.len() - i,
                {
                    out.push(b[i]);
                    i = i + 1;
                }
                assert(out@ == b@);
                Value::Bytes(Some(out))
            },
        }
    }
}

} // verus!

verus! {

pub proof fn lemma_same_values_push(a: Seq<Value>, x: Value, y: Value)
    requires
        same_value(x, y),
    ensures
        same_values(a.push(x), a + seq![y]),
{
    reveal(pointwise_same);
    assert forall|i: int| 0 <= i < a.push(x).len() implies #[trigger] same_value(a.push(x)[i], (a + seq![y])[i]) by {
        if i < a.len() {
            assert(a.push(x)[i] == (a + seq![y])[i]);
        }
    }
}

/// Values collected in two steps: first `p`, then `q`.
pub proof fn lemma_same_values_chain(v0: Seq<Value>, v1: Seq<Value>, v2: Seq<Value>, p: Seq<Value>, q: Seq<Value>)
    requires
        same_values(v1, v0 + p),
        same_values(v2, v1 + q),
    ensures
        same_values(v2, v0 + (p + q)),
        v2.len() == v0.len() + p.len() + q.len(),
{
    reveal(pointwise_same);
    lemma_same_values_refl(q);
    lemma_same_values_append(v1, v0 + p, q, q);
    assert((v0 + p) + q =~= v0 + (p + q));
    assert forall|i: int| 0 <= i < v2.len() implies #[trigger] same_value(v2[i], (v0 + (p + q))[i]) by {
        assert(same_value(v2[i], (v1 + q)[i]));
        assert(same_value((v1 + q)[i], (v0 + (p + q))[i]));
    }
}

} // verus!

verus! {

/// Two sequences that agree with a third agree with each other.
pub proof fn lemma_same_values_both(a: Seq<Value>, b: Seq<Value>, c: Seq<Value>)
    requires
        same_values(a, c),
        same_values(b, c),
    ensures
        same_values(a, b),
{
    reveal(pointwise_same);
    assert forall|i: int| 0 <= i < a.len() implies #[trigger] same_value(a[i], b[i]) by {
        assert(same_value(a[i], c[i]));
        assert(same_value(b[i], c[i]));
    }
}

} // verus!
