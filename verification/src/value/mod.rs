//! The values of the language.

pub mod map;
pub mod number;
pub mod ops;

use crate::color::{color_text, same_color, Color, ColorView};
use crate::common::{Brackets, ListSeparator, QuoteKind};
use crate::error::{ErrorKind, ErrorView, SassError, SassResult};
use crate::text::{quote, quote_mark, quoted_text, starts_with, str_eq, str_starts_with};
use crate::unit::Unit;
use crate::value::map::SassMap;
use crate::value::number::{number_text, Number};
use codemap::Span;
use vstd::prelude::*;

verus! {

/// A value: what an expression of the language evaluates to.
#[derive(Debug)]
pub enum Value {
    /// The absence of a value.
    Null,
    Bool(bool),
    /// A number with its unit.
    Dimension(Number, Unit),
    Color(Color),
    /// A text, and whether and in which quotes it is written.
    String(String, QuoteKind),
    /// Values in a row, what separates them, and whether they stand in
    /// square brackets.
    List(Vec<Value>, ListSeparator, Brackets),
    /// A map from values to values.
    Mapping(SassMap),
    /// The arguments that a call passed beyond those that were declared.
    ArgList(Vec<Value>),
    /// A function, by its name.
    Function(String),
}

/// The mathematical content of a value.
pub enum ValueView {
    Null,
    Bool(bool),
    /// A number, in ten-billionths, with its unit.
    Dimension(int, Unit),
    Color(ColorView),
    String(Seq<char>, QuoteKind),
    List(Seq<ValueView>, ListSeparator, Brackets),
    /// The entries of a map, each a key and what it maps to, in the order in
    /// which the keys were first inserted.
    Mapping(Seq<(ValueView, ValueView)>),
    ArgList(Seq<ValueView>),
    Function(Seq<char>),
}

/// The contents of a sequence of values.
pub open spec fn values_view(items: Seq<Value>) -> Seq<ValueView>
    decreases items,
{
    Seq::new(
        items.len(),
        |i: int|
            if 0 <= i < items.len() {
                items[i]@
            } else {
                ValueView::Null
            },
    )
}

/// The contents of a sequence of pairs of values.
pub open spec fn pairs_view(pairs: Seq<(Value, Value)>) -> Seq<(ValueView, ValueView)>
    decreases pairs,
{
    Seq::new(
        pairs.len(),
        |i: int|
            if 0 <= i < pairs.len() {
                (pairs[i].0@, pairs[i].1@)
            } else {
                (ValueView::Null, ValueView::Null)
            },
    )
}

impl View for Value {
    type V = ValueView;

    open spec fn view(&self) -> ValueView
        decreases self,
    {
        match self {
            Value::Null => ValueView::Null,
            Value::Bool(b) => ValueView::Bool(*b),
            Value::Dimension(n, u) => ValueView::Dimension(n@, *u),
            Value::Color(c) => ValueView::Color(c@),
            Value::String(s, q) => ValueView::String(s@, *q),
            Value::List(items, separator, brackets) => ValueView::List(
                values_view(items@),
                *separator,
                *brackets,
            ),
            Value::Mapping(m) => ValueView::Mapping(m@),
            Value::ArgList(items) => ValueView::ArgList(values_view(items@)),
            Value::Function(name) => ValueView::Function(name@),
        }
    }
}

/// Whether two numbers with units are equal: with the same unit they are the
/// same number; with two units of one quantity they are the same once both
/// are measured in that quantity's smallest part.
pub open spec fn dimension_eq(n1: int, u1: Unit, n2: int, u2: Unit) -> bool {
    if u1 == u2 {
        n1 == n2
    } else {
        match (u1.size(), u2.size()) {
            (Some((d1, k1)), Some((d2, k2))) => d1 == d2 && n1 * k1 == n2 * k2,
            _ => false,
        }
    }
}

/// Whether two sequences of values are equal, element by element.
pub open spec fn all_eq(a: Seq<ValueView>, b: Seq<ValueView>) -> bool
    decreases a,
{
    a.len() == b.len() && forall|i: int| 0 <= i < a.len() ==> sem_eq(#[trigger] a[i], b[i])
}

/// Whether two sequences of entries are equal, entry by entry, in keys and in
/// what they map to.
pub open spec fn all_pairs_eq(a: Seq<(ValueView, ValueView)>, b: Seq<(ValueView, ValueView)>) -> bool
    decreases a,
{
    a.len() == b.len() && forall|i: int|
        0 <= i < a.len() ==> sem_eq((#[trigger] a[i]).0, b[i].0) && sem_eq(a[i].1, b[i].1)
}

/// Equality of values as the language sees it. Numbers are equal across
/// units that convert into each other; strings are equal by their text,
/// quoted or not; colors by red, green, blue and alpha; lists by separator,
/// brackets and elements; captured arguments and a comma-separated list of
/// the same elements equal each other.
pub open spec fn sem_eq(a: ValueView, b: ValueView) -> bool
    decreases a,
{
    match (a, b) {
        (ValueView::Null, ValueView::Null) => true,
        (ValueView::Bool(x), ValueView::Bool(y)) => x == y,
        (ValueView::Dimension(n1, u1), ValueView::Dimension(n2, u2)) => dimension_eq(
            n1,
            u1,
            n2,
            u2,
        ),
        (ValueView::Color(c1), ValueView::Color(c2)) => same_color(c1, c2),
        (ValueView::String(s1, _), ValueView::String(s2, _)) => s1 == s2,
        (ValueView::List(l1, s1, b1), ValueView::List(l2, s2, b2)) => s1 == s2 && b1 == b2
            && all_eq(l1, l2),
        (ValueView::Mapping(m1), ValueView::Mapping(m2)) => all_pairs_eq(m1, m2),
        (ValueView::ArgList(l1), ValueView::ArgList(l2)) => all_eq(l1, l2),
        (ValueView::ArgList(l1), ValueView::List(l2, ListSeparator::Comma, _)) => all_eq(l1, l2),
        (ValueView::List(l1, ListSeparator::Comma, _), ValueView::ArgList(l2)) => all_eq(l1, l2),
        (ValueView::Function(f1), ValueView::Function(f2)) => f1 == f2,
        _ => false,
    }
}

/// The value as CSS writes it, or why CSS cannot hold it. A quoted string
/// stands in the quote character that it was written in. Null, maps and
/// functions have no place in CSS, nor has a list without elements and
/// without brackets; a list that holds such a value has none either.
pub open spec fn css_text(v: ValueView) -> Result<Seq<char>, Seq<char>>
    decreases v,
{
    match v {
        ValueView::Null => Err("null isn't a valid CSS value."@),
        ValueView::Bool(b) => Ok(
            if b {
                "true"@
            } else {
                "false"@
            },
        ),
        ValueView::Dimension(n, u) => Ok(number_text(n) + u.text()),
        ValueView::Color(c) => Ok(color_text(c)),
        ValueView::String(s, QuoteKind::Quoted) => Ok(quoted_text(s, quote_mark(false))),
        ValueView::String(s, QuoteKind::SingleQuoted) => Ok(quoted_text(s, quote_mark(true))),
        ValueView::String(s, QuoteKind::Unquoted) => Ok(s),
        ValueView::List(items, separator, brackets) => if items.len() == 0 && brackets
            == Brackets::Bare {
            Err("() isn't a valid CSS value."@)
        } else {
            match joined_text(items, separator.text()) {
                Ok(t) => Ok(
                    if brackets == Brackets::Bracketed {
                        "["@ + t + "]"@
                    } else {
                        t
                    },
                ),
                Err(m) => Err(m),
            }
        },
        ValueView::Mapping(_) => Err("A map isn't a valid CSS value."@),
        ValueView::ArgList(items) => if items.len() == 0 {
            Err("() isn't a valid CSS value."@)
        } else {
            joined_text(items, ", "@)
        },
        ValueView::Function(_) => Err("A function isn't a valid CSS value."@),
    }
}

/// The values of `items` as CSS writes them, with `separator` between one and
/// the next; or why CSS cannot hold the first of them that it cannot hold.
pub open spec fn joined_text(items: Seq<ValueView>, separator: Seq<char>) -> Result<
    Seq<char>,
    Seq<char>,
>
    decreases items,
{
    if items.len() == 0 {
        Ok(Seq::empty())
    } else {
        match joined_text(items.drop_last(), separator) {
            Ok(head) => match css_text(items.last()) {
                Ok(t) => Ok(
                    if items.len() == 1 {
                        t
                    } else {
                        head + separator + t
                    },
                ),
                Err(m) => Err(m),
            },
            Err(m) => Err(m),
        }
    }
}

/// Whether `r` is what stringifying a value at `span` gives, when the value
/// as CSS, or the reason why it is none, is `text`.
pub open spec fn is_css_result(r: SassResult<String>, text: Result<Seq<char>, Seq<char>>, span: Span) -> bool {
    match text {
        Ok(t) => r matches Ok(s) && s@ == t,
        Err(m) => r matches Err(e) && e@ == (ErrorView {
            kind: ErrorKind::Type,
            message: m,
            span,
        }),
    }
}

/// Whether the value is a call of a CSS function that has to reach the
/// output as it is: an unquoted string that begins like a call of `calc`,
/// `var`, `env`, `min` or `max`.
pub open spec fn is_special(v: ValueView) -> bool {
    v matches ValueView::String(s, QuoteKind::Unquoted) && (starts_with(s, "calc("@)
        || starts_with(s, "var("@) || starts_with(s, "env("@) || starts_with(s, "min("@)
        || starts_with(s, "max("@))
}

/// The values of `items` as CSS writes them, with `separator` between one and
/// the next.
pub fn join_css(items: &Vec<Value>, separator: &str, span: Span) -> (r: SassResult<String>)
    ensures
        is_css_result(r, joined_text(values_view(items@), separator@), span),
    decreases items,
{
    let mut out = String::new();
    let mut i: usize = 0;
    while i < items.len()
        invariant
            i <= items.len(),
            joined_text(values_view(items@).take(i as int), separator@) == Ok::<
                Seq<char>,
                Seq<char>,
            >(out@),
        decreases items.len() - i,
    {
        let ghost next = values_view(items@).take(i + 1);
        assert(next.drop_last() =~= values_view(items@).take(i as int));
        assert(next.last() == items[i as int]@);
        let text = match items[i].to_css_string(span) {
            Ok(t) => t,
            Err(e) => {
                proof {
                    lemma_joined_error(values_view(items@), separator@, i as int);
                }
                return Err(e);
            },
        };
        if i > 0 {
            out.append(separator);
        }
        out.append(text.as_str());
        assert(joined_text(next, separator@) == Ok::<Seq<char>, Seq<char>>(out@)) by {
            if i == 0 {
                assert(out@ =~= text@);
            }
        }
        i += 1;
    }
    assert(values_view(items@).take(items.len() as int) =~= values_view(items@));
    Ok(out)
}

/// Where the values before `i` can all be written and the one at `i` cannot,
/// the whole sequence fails as the value at `i` does.
pub proof fn lemma_joined_error(items: Seq<ValueView>, separator: Seq<char>, i: int)
    requires
        0 <= i < items.len(),
        joined_text(items.take(i), separator) is Ok,
        css_text(items[i]) is Err,
    ensures
        joined_text(items, separator) == Err::<Seq<char>, Seq<char>>(css_text(items[i])->Err_0),
    decreases items.len(),
{
    if i == items.len() - 1 {
        assert(items.drop_last() =~= items.take(i));
    } else {
        assert(items.drop_last().take(i) =~= items.take(i));
        lemma_joined_error(items.drop_last(), separator, i);
    }
}

/// Every value equals itself.
pub proof fn law_equality_is_reflexive(a: ValueView)
    ensures
        sem_eq(a, a),
    decreases a,
{
    match a {
        ValueView::List(items, _, _) => {
            assert forall|i: int| 0 <= i < items.len() implies sem_eq(
                #[trigger] items[i],
                items[i],
            ) by {
                law_equality_is_reflexive(items[i]);
            }
        },
        ValueView::ArgList(items) => {
            assert forall|i: int| 0 <= i < items.len() implies sem_eq(
                #[trigger] items[i],
                items[i],
            ) by {
                law_equality_is_reflexive(items[i]);
            }
        },
        ValueView::Mapping(entries) => {
            assert forall|i: int| 0 <= i < entries.len() implies sem_eq(
                (#[trigger] entries[i]).0,
                entries[i].0,
            ) && sem_eq(entries[i].1, entries[i].1) by {
                law_equality_is_reflexive(entries[i].0);
                law_equality_is_reflexive(entries[i].1);
            }
        },
        _ => {},
    }
}

/// Equality of values does not depend on which of the two stands first.
pub proof fn law_equality_is_symmetric(a: ValueView, b: ValueView)
    ensures
        sem_eq(a, b) == sem_eq(b, a),
    decreases a,
{
    match (a, b) {
        (ValueView::List(l1, _, _), ValueView::List(l2, _, _)) => lemma_all_symmetric(l1, l2),
        (ValueView::ArgList(l1), ValueView::ArgList(l2)) => lemma_all_symmetric(l1, l2),
        (ValueView::ArgList(l1), ValueView::List(l2, _, _)) => lemma_all_symmetric(l1, l2),
        (ValueView::List(l1, _, _), ValueView::ArgList(l2)) => lemma_all_symmetric(l1, l2),
        (ValueView::Mapping(m1), ValueView::Mapping(m2)) => lemma_pairs_symmetric(m1, m2),
        _ => {},
    }
}

/// Equality of sequences of values does not depend on which of the two
/// stands first.
proof fn lemma_all_symmetric(a: Seq<ValueView>, b: Seq<ValueView>)
    ensures
        all_eq(a, b) == all_eq(b, a),
    decreases a,
{
    if a.len() == b.len() {
        assert forall|i: int| 0 <= i < a.len() implies sem_eq(#[trigger] a[i], b[i]) == sem_eq(
            b[i],
            a[i],
        ) by {
            law_equality_is_symmetric(a[i], b[i]);
        }
        if all_eq(a, b) {
            assert forall|i: int| 0 <= i < b.len() implies sem_eq(#[trigger] b[i], a[i]) by {
                assert(sem_eq(a[i], b[i]));
            }
        }
        if all_eq(b, a) {
            assert forall|i: int| 0 <= i < a.len() implies sem_eq(#[trigger] a[i], b[i]) by {
                assert(sem_eq(b[i], a[i]));
            }
        }
    }
}

/// Equality of sequences of entries does not depend on which of the two
/// stands first.
proof fn lemma_pairs_symmetric(a: Seq<(ValueView, ValueView)>, b: Seq<(ValueView, ValueView)>)
    ensures
        all_pairs_eq(a, b) == all_pairs_eq(b, a),
    decreases a,
{
    if a.len() == b.len() {
        assert forall|i: int| 0 <= i < a.len() implies sem_eq((#[trigger] a[i]).0, b[i].0)
            == sem_eq(b[i].0, a[i].0) && sem_eq(a[i].1, b[i].1) == sem_eq(b[i].1, a[i].1) by {
            law_equality_is_symmetric(a[i].0, b[i].0);
            law_equality_is_symmetric(a[i].1, b[i].1);
        }
        if all_pairs_eq(a, b) {
            assert forall|i: int| 0 <= i < b.len() implies sem_eq((#[trigger] b[i]).0, a[i].0)
                && sem_eq(b[i].1, a[i].1) by {
                assert(sem_eq(a[i].0, b[i].0) && sem_eq(a[i].1, b[i].1));
            }
        }
        if all_pairs_eq(b, a) {
            assert forall|i: int| 0 <= i < a.len() implies sem_eq((#[trigger] a[i]).0, b[i].0)
                && sem_eq(a[i].1, b[i].1) by {
                assert(sem_eq(b[i].0, a[i].0) && sem_eq(b[i].1, a[i].1));
            }
        }
    }
}

/// Whether two numbers with units are equal.
pub fn dimension_equals(n1: &Number, u1: Unit, n2: &Number, u2: Unit) -> (r: bool)
    ensures
        r == dimension_eq(n1@, u1, n2@, u2),
{
    if u1 == u2 {
        return n1.units == n2.units;
    }
    match (u1.measure(), u2.measure()) {
        (Some((d1, k1)), Some((d2, k2))) => d1 == d2 && n1.eq_scaled(k1, n2, k2),
        _ => false,
    }
}

/// Whether two sequences of values are equal, element by element.
pub fn values_equal(a: &Vec<Value>, b: &Vec<Value>) -> (r: bool)
    ensures
        r == all_eq(values_view(a@), values_view(b@)),
    decreases a,
{
    if a.len() != b.len() {
        return false;
    }
    let mut i: usize = 0;
    while i < a.len()
        invariant
            i <= a.len(),
            a.len() == b.len(),
            forall|j: int| 0 <= j < i ==> sem_eq(#[trigger] values_view(a@)[j], values_view(b@)[j]),
        decreases a.len() - i,
    {
        if !a[i].equals(&b[i]) {
            assert(!sem_eq(values_view(a@)[i as int], values_view(b@)[i as int]));
            return false;
        }
        i += 1;
    }
    true
}

/// A copy of each of `items`.
pub fn clone_values(items: &Vec<Value>) -> (r: Vec<Value>)
    ensures
        values_view(r@) == values_view(items@),
    decreases items,
{
    let mut copies: Vec<Value> = Vec::new();
    let mut i: usize = 0;
    while i < items.len()
        invariant
            i <= items.len(),
            values_view(copies@) =~= values_view(items@).take(i as int),
        decreases items.len() - i,
    {
        let ghost before = values_view(copies@);
        let copy = items[i].clone();
        copies.push(copy);
        assert(values_view(copies@) =~= before.push(copy@));
        i += 1;
    }
    assert(values_view(items@).take(items.len() as int) =~= values_view(items@));
    copies
}

impl vstd::std_specs::cmp::PartialEqSpecImpl for Value {
    open spec fn obeys_eq_spec() -> bool {
        true
    }

    open spec fn eq_spec(&self, other: &Value) -> bool {
        sem_eq(self@, other@)
    }
}

impl PartialEq for Value {
    /// Whether the two values are equal as the language sees it.
    fn eq(&self, other: &Value) -> (r: bool) {
        self.equals(other)
    }
}

impl Clone for Value {
    /// A copy with the same content.
    fn clone(&self) -> (r: Value)
        ensures
            r@ == self@,
        decreases self,
    {
        match self {
            Value::Null => Value::Null,
            Value::Bool(b) => Value::Bool(*b),
            Value::Dimension(n, u) => Value::Dimension(*n, *u),
            Value::Color(c) => Value::Color(*c),
            Value::String(s, q) => Value::String(s.clone(), *q),
            Value::List(items, separator, brackets) => Value::List(
                clone_values(items),
                *separator,
                *brackets,
            ),
            Value::Mapping(m) => Value::Mapping(m.duplicate()),
            Value::ArgList(items) => Value::ArgList(clone_values(items)),
            Value::Function(name) => Value::Function(name.clone()),
        }
    }
}

impl Value {
    /// Whether the value is a call of a CSS function that has to reach the
    /// output as it is.
    pub fn is_special_function(&self) -> (r: bool)
        ensures
            r == is_special(self@),
    {
        match self {
            Value::String(s, QuoteKind::Unquoted) => {
                let s = s.as_str();
                str_starts_with(s, "calc(") || str_starts_with(s, "var(") || str_starts_with(
                    s,
                    "env(",
                ) || str_starts_with(s, "min(") || str_starts_with(s, "max(")
            },
            _ => false,
        }
    }

    /// The value as CSS writes it. A value that CSS cannot hold is an error
    /// at `span`.
    pub fn to_css_string(&self, span: Span) -> (r: SassResult<String>)
        ensures
            is_css_result(r, css_text(self@), span),
        decreases self,
    {
        match self {
            Value::Null => Err(
                SassError::new(
                    ErrorKind::Type,
                    String::from_str("null isn't a valid CSS value."),
                    span,
                ),
            ),
            Value::Bool(b) => Ok(
                String::from_str(
                    if *b {
                        "true"
                    } else {
                        "false"
                    },
                ),
            ),
            Value::Dimension(n, u) => {
                let mut s = n.to_string();
                s.append(u.as_str());
                Ok(s)
            },
            Value::Color(c) => Ok(c.to_string()),
            Value::String(s, QuoteKind::Quoted) => Ok(quote(s.as_str(), false)),
            Value::String(s, QuoteKind::SingleQuoted) => Ok(quote(s.as_str(), true)),
            Value::String(s, QuoteKind::Unquoted) => Ok(s.clone()),
            Value::List(items, separator, brackets) => {
                if items.len() == 0 && *brackets == Brackets::Bare {
                    assert(values_view(items@) =~= Seq::<ValueView>::empty());
                    return Err(
                        SassError::new(
                            ErrorKind::Type,
                            String::from_str("() isn't a valid CSS value."),
                            span,
                        ),
                    );
                }
                let text = join_css(items, separator.as_str(), span)?;
                if *brackets == Brackets::Bracketed {
                    let mut s = String::from_str("[");
                    s.append(text.as_str());
                    s.append("]");
                    Ok(s)
                } else {
                    Ok(text)
                }
            },
            Value::Mapping(_) => Err(
                SassError::new(
                    ErrorKind::Type,
                    String::from_str("A map isn't a valid CSS value."),
                    span,
                ),
            ),
            Value::ArgList(items) => {
                if items.len() == 0 {
                    assert(values_view(items@) =~= Seq::<ValueView>::empty());
                    return Err(
                        SassError::new(
                            ErrorKind::Type,
                            String::from_str("() isn't a valid CSS value."),
                            span,
                        ),
                    );
                }
                join_css(items, ", ", span)
            },
            Value::Function(_) => Err(
                SassError::new(
                    ErrorKind::Type,
                    String::from_str("A function isn't a valid CSS value."),
                    span,
                ),
            ),
        }
    }

    /// Whether the two values are equal as the language sees it.
    pub fn equals(&self, other: &Value) -> (r: bool)
        ensures
            r == sem_eq(self@, other@),
        decreases self,
    {
        match (self, other) {
            (Value::Null, Value::Null) => true,
            (Value::Bool(x), Value::Bool(y)) => *x == *y,
            (Value::Dimension(n1, u1), Value::Dimension(n2, u2)) => dimension_equals(
                n1,
                *u1,
                n2,
                *u2,
            ),
            (Value::Color(c1), Value::Color(c2)) => c1.equals(c2),
            (Value::String(s1, _), Value::String(s2, _)) => str_eq(s1.as_str(), s2.as_str()),
            (Value::List(l1, s1, b1), Value::List(l2, s2, b2)) => *s1 == *s2 && *b1 == *b2
                && values_equal(l1, l2),
            (Value::Mapping(m1), Value::Mapping(m2)) => m1.equals(m2),
            (Value::ArgList(l1), Value::ArgList(l2)) => values_equal(l1, l2),
            (Value::ArgList(l1), Value::List(l2, ListSeparator::Comma, _)) => values_equal(l1, l2),
            (Value::List(l1, ListSeparator::Comma, _), Value::ArgList(l2)) => values_equal(l1, l2),
            (Value::Function(f1), Value::Function(f2)) => str_eq(f1.as_str(), f2.as_str()),
            _ => false,
        }
    }
}

} // verus!
