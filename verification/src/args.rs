//! The arguments of a call, and how they are bound to parameters.

use crate::error::{ErrorKind, ErrorView, SassError, SassResult};
use crate::parse::Parser;
use crate::text::{append_nat, nat_text, str_eq};
use crate::value::{values_view, Value, ValueView};
use codemap::Span;
use vstd::prelude::*;

verus! {

/// How a call passes an argument: under a parameter's name, or at a place
/// counted from zero.
#[derive(Debug)]
pub enum CallArg {
    Named(String),
    Positional(usize),
}

/// The mathematical content of a [`CallArg`].
pub enum ArgKey {
    Named(Seq<char>),
    Positional(nat),
}

impl View for CallArg {
    type V = ArgKey;

    open spec fn view(&self) -> ArgKey {
        match self {
            CallArg::Named(name) => ArgKey::Named(name@),
            CallArg::Positional(position) => ArgKey::Positional(*position as nat),
        }
    }
}

impl CallArg {
    /// Whether the two say the same name or the same place.
    pub fn equals(&self, other: &CallArg) -> (r: bool)
        ensures
            r == (self@ == other@),
    {
        match (self, other) {
            (CallArg::Named(a), CallArg::Named(b)) => str_eq(a.as_str(), b.as_str()),
            (CallArg::Positional(a), CallArg::Positional(b)) => *a == *b,
            _ => false,
        }
    }
}

/// The arguments that are left of a call, each with how it was passed.
pub type Bindings = Seq<(ArgKey, ValueView)>;

/// The mathematical content of the arguments of a call.
pub struct CallArgsView {
    pub entries: Bindings,
    pub span: Span,
}

/// The contents of a sequence of arguments.
pub open spec fn bindings_view(entries: Seq<(CallArg, Value)>) -> Bindings {
    Seq::new(entries.len(), |i: int| (entries[i].0@, entries[i].1@))
}

/// Whether no two arguments were passed in the same way.
pub open spec fn distinct_keys(entries: Bindings) -> bool {
    forall|i: int, j: int|
        0 <= i < j < entries.len() ==> (#[trigger] entries[i]).0 != (#[trigger] entries[j]).0
}

/// The place in `entries`, from `start` on, of the first argument passed as
/// `key`.
pub open spec fn index_from(entries: Bindings, key: ArgKey, start: int) -> Option<int>
    decreases entries.len() - start,
{
    if start < 0 || start >= entries.len() {
        None
    } else if entries[start].0 == key {
        Some(start)
    } else {
        index_from(entries, key, start + 1)
    }
}

/// The place in `entries` of the argument for the parameter `name` at
/// `position`: the one passed at that position or, where there is none, the
/// one passed under that name.
pub open spec fn slot(entries: Bindings, position: nat, name: Seq<char>) -> Option<int> {
    match index_from(entries, ArgKey::Positional(position), 0) {
        Some(i) => Some(i),
        None => index_from(entries, ArgKey::Named(name), 0),
    }
}

/// Binding the parameter `name` at `position`: the value that the call
/// passed for it, and the arguments that are left once it is taken; or
/// nothing, where the call passed none.
pub open spec fn bound(a: CallArgsView, position: nat, name: Seq<char>) -> Option<
    (ValueView, CallArgsView),
> {
    match slot(a.entries, position, name) {
        Some(i) => Some(
            (a.entries[i].1, CallArgsView { entries: a.entries.remove(i), span: a.span }),
        ),
        None => None,
    }
}

/// The arguments of a call at `span` that passes `values` by position, in
/// order.
pub open spec fn positional(values: Seq<ValueView>, span: Span) -> CallArgsView {
    CallArgsView {
        entries: Seq::new(values.len(), |i: int| (ArgKey::Positional(i as nat), values[i])),
        span,
    }
}

/// The arguments of a call at `span` that passes the one value `value`, under
/// the name `name`.
pub open spec fn named(name: Seq<char>, value: ValueView, span: Span) -> CallArgsView {
    CallArgsView { entries: seq![(ArgKey::Named(name), value)], span }
}

/// The error for a parameter that the call passed nothing for.
pub open spec fn missing_argument(name: Seq<char>, span: Span) -> ErrorView {
    ErrorView {
        kind: ErrorKind::Arity,
        message: "Missing argument $"@ + name + "."@,
        span,
    }
}

/// The error for a call that passed `len` arguments where at most `max` are
/// allowed.
pub open spec fn too_many_arguments(max: nat, len: nat, span: Span) -> ErrorView {
    ErrorView {
        kind: ErrorKind::Arity,
        message: "Only "@ + nat_text(max) + (if max == 1 {
            " argument allowed, but "@
        } else {
            " arguments allowed, but "@
        }) + nat_text(len) + (if len == 1 {
            " was passed."@
        } else {
            " were passed."@
        }),
        span,
    }
}

/// Where `key` stands at `i` and nowhere from `start` up to `i`, the search
/// from `start` finds it at `i`.
pub proof fn lemma_index_found(entries: Bindings, key: ArgKey, start: int, i: int)
    requires
        0 <= start <= i < entries.len(),
        entries[i].0 == key,
        forall|j: int| start <= j < i ==> (#[trigger] entries[j]).0 != key,
    ensures
        index_from(entries, key, start) == Some(i),
    decreases i - start,
{
    if start < i {
        lemma_index_found(entries, key, start + 1, i);
    }
}

/// Where `key` stands nowhere from `start` on, the search from `start` finds
/// nothing.
pub proof fn lemma_index_absent(entries: Bindings, key: ArgKey, start: int)
    requires
        0 <= start,
        forall|j: int| start <= j < entries.len() ==> (#[trigger] entries[j]).0 != key,
    ensures
        index_from(entries, key, start) is None,
    decreases entries.len() - start,
{
    if start < entries.len() {
        lemma_index_absent(entries, key, start + 1);
    }
}

/// The arguments of a call: values passed at places and under names, and
/// where in the source the call stands. Binding a parameter takes its
/// argument out, so that none is bound twice and what is left can be counted.
#[derive(Debug)]
pub struct CallArgs {
    entries: Vec<(CallArg, Value)>,
    span: Span,
}

impl View for CallArgs {
    type V = CallArgsView;

    closed spec fn view(&self) -> CallArgsView {
        CallArgsView { entries: bindings_view(self.entries@), span: self.span }
    }
}

impl CallArgs {
    #[verifier::type_invariant]
    closed spec fn keys_are_distinct(self) -> bool {
        distinct_keys(self@.entries)
    }

    /// A call without arguments at `span`.
    pub fn new(span: Span) -> (a: CallArgs)
        ensures
            a@ == (CallArgsView { entries: Seq::empty(), span }),
    {
        let entries: Vec<(CallArg, Value)> = Vec::new();
        assert(bindings_view(entries@) =~= Seq::<(ArgKey, ValueView)>::empty());
        CallArgs { entries, span }
    }

    /// A call at `span` that passes `values` by position, in order.
    pub fn from_positional(values: Vec<Value>, span: Span) -> (a: CallArgs)
        ensures
            a@ == positional(values_view(values@), span),
    {
        let mut entries: Vec<(CallArg, Value)> = Vec::new();
        let ghost all = values@;
        for value in it: values
            invariant
                it.seq() == all,
                bindings_view(entries@) =~= positional(
                    values_view(all.take(it.index() as int)),
                    span,
                ).entries,
        {
            let ghost before = bindings_view(entries@);
            let i = entries.len();
            entries.push((CallArg::Positional(i), value));
            assert(bindings_view(entries@) =~= before.push((ArgKey::Positional(i as nat), value@)));
        }
        assert(all.take(all.len() as int) =~= all);
        CallArgs { entries, span }
    }

    /// Where in the source the call stands.
    pub fn span(&self) -> (s: Span)
        ensures
            s == self@.span,
    {
        self.span
    }

    /// How many arguments are left.
    pub fn len(&self) -> (n: usize)
        ensures
            n == self@.entries.len(),
    {
        self.entries.len()
    }

    /// Whether no argument is left.
    pub fn is_empty(&self) -> (r: bool)
        ensures
            r == (self@.entries.len() == 0),
    {
        self.entries.len() == 0
    }

    /// The place of the argument passed as `key`.
    fn find(&self, key: &CallArg) -> (r: Option<usize>)
        ensures
            match r {
                Some(i) => index_from(self@.entries, key@, 0) == Some(i as int) && i
                    < self@.entries.len() && self@.entries[i as int].0 == key@,
                None => index_from(self@.entries, key@, 0) is None,
            },
    {
        let mut i: usize = 0;
        while i < self.entries.len()
            invariant
                i <= self.entries.len(),
                forall|j: int| 0 <= j < i ==> (#[trigger] self@.entries[j]).0 != key@,
            decreases self.entries.len() - i,
        {
            if self.entries[i].0.equals(key) {
                proof {
                    lemma_index_found(self@.entries, key@, 0, i as int);
                }
                return Some(i);
            }
            i += 1;
        }
        proof {
            lemma_index_absent(self@.entries, key@, 0);
        }
        None
    }

    /// Adds an argument passed as `key`; one that was passed in the same way
    /// before gives way to it.
    pub fn insert(&mut self, key: CallArg, value: Value)
        ensures
            final(self)@.span == old(self)@.span,
            final(self)@.entries == match index_from(old(self)@.entries, key@, 0) {
                Some(i) => old(self)@.entries.update(i, (key@, value@)),
                None => old(self)@.entries.push((key@, value@)),
            },
    {
        proof {
            use_type_invariant(&*self);
        }
        let found = self.find(&key);
        let ghost before = self@.entries;
        let mut entries: Vec<(CallArg, Value)> = Vec::new();
        assert(bindings_view(entries@) =~= Seq::<(ArgKey, ValueView)>::empty());
        core::mem::swap(&mut self.entries, &mut entries);
        match found {
            Some(i) => {
                entries.remove(i);
                entries.insert(i, (key, value));
                let ghost after = before.update(i as int, (key@, value@));
                assert(bindings_view(entries@) =~= after);
                assert forall|a: int, b: int| 0 <= a < b < after.len() implies (
                #[trigger] after[a]).0 != (#[trigger] after[b]).0 by {
                    assert(after[a].0 == before[a].0);
                    assert(after[b].0 == before[b].0);
                }
            },
            None => {
                entries.push((key, value));
                assert(bindings_view(entries@) =~= before.push((key@, value@)));
                assert forall|j: int| 0 <= j < before.len() implies (#[trigger] before[j]).0
                    != key@ by {
                    lemma_index_here(before, key@, 0, j);
                }
            },
        }
        self.entries = entries;
    }

    /// Takes out the argument for the parameter `name` at `position`: the one
    /// passed at that position or, where there is none, the one passed under
    /// that name.
    pub fn take(&mut self, position: usize, name: &str) -> (r: Option<Value>)
        ensures
            match bound(old(self)@, position as nat, name@) {
                Some((v, rest)) => r matches Some(x) && x@ == v && final(self)@ == rest,
                None => r is None && final(self)@ == old(self)@,
            },
    {
        proof {
            use_type_invariant(&*self);
        }
        let at = match self.find(&CallArg::Positional(position)) {
            Some(i) => Some(i),
            None => self.find(&CallArg::Named(String::from_str(name))),
        };
        match at {
            Some(i) => {
                let ghost before = self@.entries;
                let mut entries: Vec<(CallArg, Value)> = Vec::new();
                assert(bindings_view(entries@) =~= Seq::<(ArgKey, ValueView)>::empty());
                core::mem::swap(&mut self.entries, &mut entries);
                let (_, v) = entries.remove(i);
                assert(bindings_view(entries@) =~= before.remove(i as int));
                self.entries = entries;
                Some(v)
            },
            None => None,
        }
    }

    /// Fails where more than `max` arguments are left.
    pub fn max_args(&self, max: usize) -> (r: SassResult<()>)
        ensures
            match r {
                Ok(_) => self@.entries.len() <= max,
                Err(e) => self@.entries.len() > max && e@ == too_many_arguments(
                    max as nat,
                    self@.entries.len(),
                    self@.span,
                ),
            },
    {
        let len = self.entries.len();
        if len > max {
            let mut message = String::from_str("Only ");
            append_nat(&mut message, max as u128);
            if max == 1 {
                message.append(" argument allowed, but ");
            } else {
                message.append(" arguments allowed, but ");
            }
            append_nat(&mut message, len as u128);
            if len == 1 {
                message.append(" was passed.");
            } else {
                message.append(" were passed.");
            }
            return Err(SassError::new(ErrorKind::Arity, message, self.span));
        }
        Ok(())
    }
}

/// Where the search from `start` finds nothing, `key` stands at no place from
/// `start` on.
pub proof fn lemma_index_here(entries: Bindings, key: ArgKey, start: int, j: int)
    requires
        0 <= start <= j < entries.len(),
        index_from(entries, key, start) is None,
    ensures
        entries[j].0 != key,
    decreases j - start,
{
    if start < j {
        lemma_index_here(entries, key, start + 1, j);
    }
}

/// The error for a parameter that the call passed nothing for.
pub fn new_missing_argument(name: &str, span: Span) -> (e: SassError)
    ensures
        e@ == missing_argument(name@, span),
{
    let mut message = String::from_str("Missing argument $");
    message.append(name);
    message.append(".");
    SassError::new(ErrorKind::Arity, message, span)
}

impl Parser {
    /// Binds the parameter `name` at `position`: takes its argument out of
    /// `args`, the one passed at that position or, where there is none, the
    /// one passed under that name. Where the call passed neither, that is an
    /// error.
    pub fn arg(&mut self, args: &mut CallArgs, position: usize, name: &'static str) -> (r:
        SassResult<Value>)
        ensures
            *final(self) == *old(self),
            match bound(old(args)@, position as nat, name@) {
                Some((v, rest)) => r matches Ok(x) && x@ == v && final(args)@ == rest,
                None => r matches Err(e) && e@ == missing_argument(name@, old(args)@.span)
                    && final(args)@ == old(args)@,
            },
    {
        match args.take(position, name) {
            Some(v) => Ok(v),
            None => Err(new_missing_argument(name, args.span())),
        }
    }

    /// Binds the parameter `name` at `position` as `arg` does, but where the
    /// call passed nothing for it, the parameter takes `default`.
    pub fn default_arg(
        &mut self,
        args: &mut CallArgs,
        position: usize,
        name: &'static str,
        default: Value,
    ) -> (r: SassResult<Value>)
        ensures
            *final(self) == *old(self),
            match bound(old(args)@, position as nat, name@) {
                Some((v, rest)) => r matches Ok(x) && x@ == v && final(args)@ == rest,
                None => r matches Ok(x) && x@ == default@ && final(args)@ == old(args)@,
            },
    {
        match args.take(position, name) {
            Some(v) => Ok(v),
            None => Ok(default),
        }
    }
}

} // verus!
