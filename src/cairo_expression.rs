//! Serialization of configuration values into Cairo expressions that rebuild
//! them through explicit constructors.
use crate::tokens::{empty_stream, extend_stream, push_ident, stream_tokens};
use cairo_lang_macro::TokenStream;
use vstd::prelude::*;

verus! {

/// A value that can be written as a Cairo expression.
pub trait CairoExpression {
    /// The tokens of the expression that rebuilds this value.
    spec fn expression_tokens(&self) -> Seq<Seq<char>>;

    fn as_cairo_expression(&self) -> (r: TokenStream)
        ensures
            stream_tokens(r) == self.expression_tokens(),
    ;
}

/// The decimal digits of `n`, most significant first.
pub open spec fn decimal_text(n: nat) -> Seq<char>
    decreases n,
{
    if n < 10 {
        seq![digit_char(n)]
    } else {
        decimal_text(n / 10).push(digit_char(n % 10))
    }
}

pub open spec fn digit_char(d: nat) -> char {
    seq!['0', '1', '2', '3', '4', '5', '6', '7', '8', '9'][d as int]
}

/// Relies on `Display for u64` (through `ToString`), which writes the value in
/// decimal, without sign or leading zeros.
#[verifier::external_body]
fn decimal_string(n: u64) -> (r: String)
    ensures
        r@ == decimal_text(n as nat),
{
    n.to_string()
}

impl CairoExpression for u64 {
    open spec fn expression_tokens(&self) -> Seq<Seq<char>> {
        seq![decimal_text(*self as nat)]
    }

    fn as_cairo_expression(&self) -> (r: TokenStream) {
        let mut r = empty_stream();
        let digits = decimal_string(*self);
        push_ident(&mut r, digits.as_str());
        assert(stream_tokens(r) =~= self.expression_tokens());
        r
    }
}

/// An absent value is `Option::None`; a present one is `Option::Some(..)`
/// around the expression of the value it holds.
pub open spec fn option_tokens(inner: Option<Seq<Seq<char>>>) -> Seq<Seq<char>> {
    match inner {
        Some(t) => seq!["Option::Some("@] + t + seq![")"@],
        None => seq!["Option::None"@],
    }
}

impl<T: CairoExpression> CairoExpression for Option<T> {
    open spec fn expression_tokens(&self) -> Seq<Seq<char>> {
        match self {
            Some(v) => option_tokens(Some(v.expression_tokens())),
            None => option_tokens(None),
        }
    }

    fn as_cairo_expression(&self) -> (r: TokenStream) {
        match self {
            Some(v) => {
                let inner = v.as_cairo_expression();
                let mut r = empty_stream();
                push_ident(&mut r, "Option::Some(");
                extend_stream(&mut r, inner);
                push_ident(&mut r, ")");
                assert(stream_tokens(r) =~= self.expression_tokens());
                r
            },
            None => {
                let mut r = empty_stream();
                push_ident(&mut r, "Option::None");
                assert(stream_tokens(r) =~= self.expression_tokens());
                r
            },
        }
    }
}

/// The expressions of the elements, each followed by a comma, the last one too.
pub open spec fn elements_tokens<T: CairoExpression>(elements: Seq<T>) -> Seq<Seq<char>>
    decreases elements.len(),
{
    if elements.len() == 0 {
        Seq::empty()
    } else {
        elements_tokens(elements.drop_last()) + elements.last().expression_tokens() + seq![","@]
    }
}

impl<T: CairoExpression> CairoExpression for Vec<T> {
    /// A sequence is an `array![..]` literal of its elements' expressions.
    open spec fn expression_tokens(&self) -> Seq<Seq<char>> {
        seq!["array!["@] + elements_tokens(self@) + seq!["]"@]
    }

    fn as_cairo_expression(&self) -> (r: TokenStream) {
        let mut r = empty_stream();
        push_ident(&mut r, "array![");
        let mut i: usize = 0;
        while i < self.len()
            invariant
                i <= self@.len(),
                stream_tokens(r) == seq!["array!["@] + elements_tokens(self@.subrange(0, i as int)),
            decreases self.len() - i,
        {
            let e = self[i].as_cairo_expression();
            extend_stream(&mut r, e);
            push_ident(&mut r, ",");
            proof {
                let next = self@.subrange(0, i + 1);
                assert(next.drop_last() =~= self@.subrange(0, i as int));
                assert(stream_tokens(r) =~= seq!["array!["@] + elements_tokens(next));
            }
            i = i + 1;
        }
        assert(self@.subrange(0, self@.len() as int) =~= self@);
        push_ident(&mut r, "]");
        assert(stream_tokens(r) =~= self.expression_tokens());
        r
    }
}

/// Distinct values of `T` have distinct expressions.
pub open spec fn expressions_distinct<T: CairoExpression>() -> bool {
    forall|x: T, y: T|
        #![trigger x.expression_tokens(), y.expression_tokens()]
        x.expression_tokens() == y.expression_tokens() ==> x == y
}

/// No expression of a `T` holds a comma token.
pub open spec fn comma_free<T: CairoExpression>() -> bool {
    forall|x: T, i: int|
        0 <= i < x.expression_tokens().len() ==> #[trigger] x.expression_tokens()[i] != ","@
}

proof fn lemma_decimal_nonempty(n: nat)
    ensures
        decimal_text(n).len() >= 1,
        n >= 10 ==> decimal_text(n).len() >= 2,
    decreases n,
{
    if n >= 10 {
        lemma_decimal_nonempty(n / 10);
    }
}

proof fn lemma_digit_injective(a: nat, b: nat)
    requires
        a < 10,
        b < 10,
        digit_char(a) == digit_char(b),
    ensures
        a == b,
{
}

proof fn lemma_decimal_injective(a: nat, b: nat)
    requires
        decimal_text(a) == decimal_text(b),
    ensures
        a == b,
    decreases a,
{
    lemma_decimal_nonempty(a);
    lemma_decimal_nonempty(b);
    if a < 10 && b < 10 {
        assert(decimal_text(a) == seq![digit_char(a)]);
        assert(decimal_text(b) == seq![digit_char(b)]);
        assert(decimal_text(a)[0] == decimal_text(b)[0]);
        assert(seq![digit_char(a)][0] == digit_char(a));
        assert(seq![digit_char(b)][0] == digit_char(b));
        lemma_digit_injective(a, b);
    } else if a >= 10 && b >= 10 {
        let ta = decimal_text(a);
        let tb = decimal_text(b);
        assert(ta.last() == tb.last());
        lemma_digit_injective(a % 10, b % 10);
        assert(ta.drop_last() =~= decimal_text(a / 10));
        assert(tb.drop_last() =~= decimal_text(b / 10));
        lemma_decimal_injective(a / 10, b / 10);
    }
}

/// A number's expression is its decimal literal: distinct numbers give distinct
/// expressions, and none of them is a comma.
pub proof fn lemma_u64_expressions_distinct()
    ensures
        expressions_distinct::<u64>(),
        comma_free::<u64>(),
{
    assert forall|x: u64, y: u64|
        #![trigger x.expression_tokens(), y.expression_tokens()]
        x.expression_tokens() == y.expression_tokens() implies x == y by {
        assert(x.expression_tokens()[0] == y.expression_tokens()[0]);
        lemma_decimal_injective(x as nat, y as nat);
    }
    assert forall|x: u64, i: int| 0 <= i < x.expression_tokens().len() implies #[trigger] x.expression_tokens()[i] != ","@ by {
        reveal_strlit(",");
        lemma_decimal_nonempty(x as nat);
        if decimal_text(x as nat) == ","@ {
            assert(decimal_text(x as nat).len() == 1);
            assert(decimal_text(x as nat)[0] == ',');
            assert((x as nat) < 10);
        }
    }
}

/// An optional value's expression tells absent from present, and present
/// values apart whenever their own expressions do; it adds no comma.
pub proof fn lemma_option_expressions_distinct<T: CairoExpression>()
    ensures
        expressions_distinct::<T>() ==> expressions_distinct::<Option<T>>(),
        comma_free::<T>() ==> comma_free::<Option<T>>(),
{
    reveal_strlit("Option::Some(");
    reveal_strlit("Option::None");
    reveal_strlit(")");
    reveal_strlit(",");
    if expressions_distinct::<T>() {
        assert forall|x: Option<T>, y: Option<T>|
            #![trigger x.expression_tokens(), y.expression_tokens()]
            x.expression_tokens() == y.expression_tokens() implies x == y by {
            let tx = x.expression_tokens();
            let ty = y.expression_tokens();
            match (x, y) {
                (Some(a), Some(b)) => {
                    let n = tx.len();
                    assert(tx.subrange(1, n - 1) =~= a.expression_tokens());
                    assert(ty.subrange(1, n - 1) =~= b.expression_tokens());
                },
                (Some(a), None) => {
                    assert(tx[0] != ty[0]);
                },
                (None, Some(b)) => {
                    assert(tx[0] != ty[0]);
                },
                (None, None) => {},
            }
        }
    }
    if comma_free::<T>() {
        assert forall|x: Option<T>, i: int| 0 <= i < x.expression_tokens().len() implies #[trigger] x.expression_tokens()[i] != ","@ by {
            match x {
                Some(a) => {
                    let t = a.expression_tokens();
                    if 1 <= i < t.len() + 1 {
                        assert(x.expression_tokens()[i] == t[i - 1]);
                    } else if i == 0 {
                        assert(x.expression_tokens()[i] == "Option::Some("@);
                        assert("Option::Some("@.len() != ","@.len());
                    } else {
                        assert(x.expression_tokens()[i] == ")"@);
                        assert(")"@[0] != ","@[0]);
                    }
                },
                None => {
                    assert(x.expression_tokens()[i] == "Option::None"@);
                    assert("Option::None"@.len() != ","@.len());
                },
            }
        }
    }
}

proof fn lemma_elements_end_with_comma<T: CairoExpression>(s: Seq<T>)
    ensures
        s.len() == 0 <==> elements_tokens(s).len() == 0,
        s.len() > 0 ==> elements_tokens(s).last() == ","@,
{
    if s.len() > 0 {
        let e = elements_tokens(s);
        assert(e == elements_tokens(s.drop_last()) + s.last().expression_tokens() + seq![","@]);
    }
}

proof fn lemma_comma_at<T: CairoExpression>(
    pa: Seq<Seq<char>>,
    ta: Seq<Seq<char>>,
    pb: Seq<Seq<char>>,
    tb: Seq<Seq<char>>,
    x: T,
)
    requires
        comma_free::<T>(),
        tb == x.expression_tokens(),
        pa + ta == pb + tb,
        pa.len() > 0 ==> pa.last() == ","@,
    ensures
        pa.len() <= pb.len(),
{
    if pa.len() > pb.len() {
        let k = pa.len() - 1;
        assert((pa + ta).len() == pa.len() + ta.len());
        assert((pb + tb).len() == pb.len() + tb.len());
        assert((pa + ta).len() == (pb + tb).len());
        assert(k - pb.len() < tb.len());
        assert((pa + ta)[k] == ","@);
        assert((pb + tb)[k] == tb[k - pb.len()]);
        assert(x.expression_tokens()[k - pb.len()] != ","@);
    }
}

proof fn lemma_elements_injective<T: CairoExpression>(s1: Seq<T>, s2: Seq<T>)
    requires
        expressions_distinct::<T>(),
        comma_free::<T>(),
        elements_tokens(s1) == elements_tokens(s2),
    ensures
        s1 == s2,
    decreases s1.len(),
{
    lemma_elements_end_with_comma(s1);
    lemma_elements_end_with_comma(s2);
    if s1.len() == 0 {
        assert(s1 =~= s2);
    } else {
        let (da, db) = (s1.drop_last(), s2.drop_last());
        let (pa, pb) = (elements_tokens(da), elements_tokens(db));
        let (ta, tb) = (s1.last().expression_tokens(), s2.last().expression_tokens());
        let e = elements_tokens(s1);
        assert(e == pa + ta + seq![","@]);
        assert(e == pb + tb + seq![","@]);
        assert(pa + ta =~= e.drop_last());
        assert(pb + tb =~= e.drop_last());
        lemma_elements_end_with_comma(da);
        lemma_elements_end_with_comma(db);
        lemma_comma_at(pa, ta, pb, tb, s2.last());
        lemma_comma_at(pb, tb, pa, ta, s1.last());
        assert(pa =~= (pa + ta).subrange(0, pa.len() as int));
        assert(pb =~= (pb + tb).subrange(0, pb.len() as int));
        assert(ta =~= (pa + ta).subrange(pa.len() as int, (pa + ta).len() as int));
        assert(tb =~= (pb + tb).subrange(pb.len() as int, (pb + tb).len() as int));
        assert(s1.last() == s2.last());
        lemma_elements_injective(da, db);
        assert(s1 =~= da.push(s1.last()));
        assert(s2 =~= db.push(s2.last()));
    }
}

/// Sequences of comma-free values that have distinct expressions are told
/// apart by their `array![..]` literals: equal literals mean equal elements.
pub proof fn lemma_vec_expressions_distinct<T: CairoExpression>(x: Vec<T>, y: Vec<T>)
    requires
        expressions_distinct::<T>(),
        comma_free::<T>(),
        x.expression_tokens() == y.expression_tokens(),
    ensures
        x@ == y@,
{
    let (tx, ty) = (x.expression_tokens(), y.expression_tokens());
    assert(elements_tokens(x@) =~= tx.subrange(1, tx.len() - 1));
    assert(elements_tokens(y@) =~= ty.subrange(1, ty.len() - 1));
    lemma_elements_injective(x@, y@);
}

} // verus!
