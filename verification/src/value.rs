//! Field values of simulated entities: a tagged scalar, or a list of
//! scalars, together with the canonical string form that assertions
//! compare against.

use vstd::prelude::*;
use crate::text::{hex_seq, int_seq, push_hex, push_int};

verus! {

/// One tagged scalar value of an entity field. Large numerals are carried
/// in their decimal string form.
#[derive(Debug, Clone, PartialEq, Eq)]
pub enum ScalarValue {
    Str(String),
    Int(i32),
    BigDecimal(String),
    Bool(bool),
    Null,
    Bytes(Vec<u8>),
    BigInt(String),
}

/// One entity field value: a scalar or a list of scalars.
#[derive(Debug, Clone, PartialEq, Eq)]
pub enum Value {
    Scalar(ScalarValue),
    List(Vec<ScalarValue>),
}

/// Mathematical model of a scalar value.
#[verifier::ext_equal]
pub enum ScalarView {
    Str(Seq<char>),
    Int(int),
    BigDecimal(Seq<char>),
    Bool(bool),
    Null,
    Bytes(Seq<u8>),
    BigInt(Seq<char>),
}

/// Mathematical model of a field value.
#[verifier::ext_equal]
pub enum ValueView {
    Scalar(ScalarView),
    List(Seq<ScalarView>),
}

impl View for ScalarValue {
    type V = ScalarView;

    open spec fn view(&self) -> ScalarView {
        match self {
            ScalarValue::Str(s) => ScalarView::Str(s@),
            ScalarValue::Int(n) => ScalarView::Int(*n as int),
            ScalarValue::BigDecimal(d) => ScalarView::BigDecimal(d@),
            ScalarValue::Bool(b) => ScalarView::Bool(*b),
            ScalarValue::Null => ScalarView::Null,
            ScalarValue::Bytes(bs) => ScalarView::Bytes(bs@),
            ScalarValue::BigInt(n) => ScalarView::BigInt(n@),
        }
    }
}

/// The models of a sequence of scalars, element by element.
pub open spec fn views_of(items: Seq<ScalarValue>) -> Seq<ScalarView> {
    items.map_values(|x: ScalarValue| x@)
}

/// Taking models commutes with appending one element.
pub proof fn lemma_views_of_push(s: Seq<ScalarValue>, x: ScalarValue)
    ensures
        views_of(s.push(x)) =~= views_of(s).push(x@),
{
    assert forall|k: int| 0 <= k < s.len() + 1 implies
        views_of(s.push(x))[k] == views_of(s).push(x@)[k] by {
        if k < s.len() {
            assert(s.push(x)[k] == s[k]);
        } else {
            assert(s.push(x)[k] == x);
        }
    }
}

impl View for Value {
    type V = ValueView;

    open spec fn view(&self) -> ValueView {
        match self {
            Value::Scalar(sv) => ValueView::Scalar(sv@),
            Value::List(items) => ValueView::List(views_of(items@)),
        }
    }
}

/// Canonical string form of a scalar value.
pub open spec fn scalar_text(v: ScalarView) -> Seq<char> {
    match v {
        ScalarView::Str(s) => s,
        ScalarView::Int(n) => int_seq(n),
        ScalarView::BigDecimal(d) => d,
        ScalarView::Bool(b) => if b { "true"@ } else { "false"@ },
        ScalarView::Null => "null"@,
        ScalarView::Bytes(bs) => "0x"@ + hex_seq(bs),
        ScalarView::BigInt(n) => n,
    }
}

/// Canonical string form of the elements of a list, separated by ", ".
pub open spec fn list_text(items: Seq<ScalarView>) -> Seq<char>
    decreases items.len(),
{
    if items.len() == 0 {
        Seq::<char>::empty()
    } else if items.len() == 1 {
        scalar_text(items[0])
    } else {
        list_text(items.drop_last()) + ", "@ + scalar_text(items.last())
    }
}

/// Canonical string form of a field value; lists are bracketed.
pub open spec fn value_text(v: ValueView) -> Seq<char> {
    match v {
        ValueView::Scalar(sv) => scalar_text(sv),
        ValueView::List(items) => "["@ + list_text(items) + "]"@,
    }
}

/// Appends the canonical form of a scalar to `out`.
pub fn push_scalar_text(out: &mut String, v: &ScalarValue)
    ensures
        final(out)@ == old(out)@ + scalar_text(v@),
{
    match v {
        ScalarValue::Str(s) => {
            out.append(s.as_str());
        }
        ScalarValue::Int(n) => {
            push_int(out, *n as i64);
        }
        ScalarValue::BigDecimal(d) => {
            out.append(d.as_str());
        }
        ScalarValue::Bool(b) => {
            if *b {
                out.append("true");
            } else {
                out.append("false");
            }
        }
        ScalarValue::Null => {
            out.append("null");
        }
        ScalarValue::Bytes(bs) => {
            out.append("0x");
            push_hex(out, bs);
            proof {
                assert(final(out)@ =~= old(out)@ + scalar_text(v@));
            }
        }
        ScalarValue::BigInt(n) => {
            out.append(n.as_str());
        }
    }
}

/// Appends the canonical form of a value to `out`.
pub fn push_value_text(out: &mut String, v: &Value)
    ensures
        final(out)@ == old(out)@ + value_text(v@),
{
    match v {
        Value::Scalar(sv) => {
            push_scalar_text(out, sv);
        }
        Value::List(items) => {
            out.append("[");
            let mut i: usize = 0;
            while i < items.len()
                invariant
                    i <= items.len(),
                    out@ == old(out)@ + "["@ + list_text(views_of(items@.subrange(0, i as int))),
                decreases items.len() - i,
            {
                if i > 0 {
                    out.append(", ");
                }
                push_scalar_text(out, &items[i]);
                proof {
                    let pre = views_of(items@.subrange(0, i as int));
                    let post = views_of(items@.subrange(0, i + 1 as int));
                    assert(post.drop_last() =~= pre);
                    assert(post.last() == items@[i as int]@);
                    assert(out@ =~= old(out)@ + "["@ + list_text(post));
                }
                i = i + 1;
            }
            out.append("]");
            proof {
                assert(views_of(items@.subrange(0, items@.len() as int)) =~= views_of(items@));
                assert(final(out)@ =~= old(out)@ + value_text(v@));
            }
        }
    }
}

/// The canonical string form of a value, as a fresh string.
pub fn value_to_text(v: &Value) -> (r: String)
    ensures
        r@ == value_text(v@),
{
    let mut out = String::new();
    push_value_text(&mut out, v);
    proof {
        assert(out@ =~= value_text(v@));
    }
    out
}

/// An exact copy of a byte string.
pub fn dup_bytes(v: &Vec<u8>) -> (r: Vec<u8>)
    ensures
        r@ == v@,
{
    let mut r: Vec<u8> = Vec::new();
    let mut i: usize = 0;
    while i < v.len()
        invariant
            i <= v.len(),
            r@ == v@.subrange(0, i as int),
        decreases v.len() - i,
    {
        r.push(v[i]);
        proof {
            assert(v@.subrange(0, i + 1 as int) =~= v@.subrange(0, i as int).push(v@[i as int]));
        }
        i = i + 1;
    }
    proof {
        assert(v@.subrange(0, v@.len() as int) =~= v@);
    }
    r
}

/// A copy of a scalar value with the same model.
pub fn dup_scalar(v: &ScalarValue) -> (r: ScalarValue)
    ensures
        r@ == v@,
{
    match v {
        ScalarValue::Str(s) => ScalarValue::Str(s.clone()),
        ScalarValue::Int(n) => ScalarValue::Int(*n),
        ScalarValue::BigDecimal(d) => ScalarValue::BigDecimal(d.clone()),
        ScalarValue::Bool(b) => ScalarValue::Bool(*b),
        ScalarValue::Null => ScalarValue::Null,
        ScalarValue::Bytes(bs) => ScalarValue::Bytes(dup_bytes(bs)),
        ScalarValue::BigInt(n) => ScalarValue::BigInt(n.clone()),
    }
}

/// A copy of a value with the same model.
pub fn dup_value(v: &Value) -> (r: Value)
    ensures
        r@ == v@,
{
    match v {
        Value::Scalar(sv) => Value::Scalar(dup_scalar(sv)),
        Value::List(items) => {
            let mut out: Vec<ScalarValue> = Vec::new();
            let mut i: usize = 0;
            while i < items.len()
                invariant
                    i <= items.len(),
                    views_of(out@) == views_of(items@.subrange(0, i as int)),
                decreases items.len() - i,
            {
                let d = dup_scalar(&items[i]);
                let ghost dv = d@;
                let ghost prev = out@;
                out.push(d);
                proof {
                    lemma_views_of_push(prev, out@.last());
                    lemma_views_of_push(items@.subrange(0, i as int), items@[i as int]);
                    assert(items@.subrange(0, i + 1 as int)
                        =~= items@.subrange(0, i as int).push(items@[i as int]));
                    assert(views_of(out@) =~= views_of(items@.subrange(0, i + 1 as int)));
                }
                i = i + 1;
            }
            proof {
                assert(views_of(items@.subrange(0, items@.len() as int)) =~= views_of(items@));
                assert(Value::List(out)@ =~= v@);
            }
            Value::List(out)
        }
    }
}

} // verus!
