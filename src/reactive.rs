//! Bindings whose reactive source yields a bindable value rather than a
//! string: each firing reads the source and hands the value read to the
//! nested binding, updating the nested state in place. Both wrappers are
//! bindable values themselves, so they nest.

use crate::style::{IntoStyle, PropChange, StyleOp};
use vstd::prelude::*;

verus! {

/// A source that yields a bindable value each time it is read. A source that
/// may have no value yields an `Option`, which is bindable too. Clones share
/// whatever the source captured by reference-counted handle.
#[derive(Clone)]
pub struct ReactiveStyle<F> {
    pub source: F,
}

impl<F> ReactiveStyle<F> {
    /// A binding that can be duplicated for reuse across render passes.
    pub fn into_cloneable(self) -> (r: Self)
        ensures
            r == self,
    {
        self
    }
}

impl<C: IntoStyle, F: Fn() -> C> IntoStyle for ReactiveStyle<F> {
    type State = C::State;

    open spec fn ready(&self) -> bool {
        &&& call_requires(self.source, ())
        &&& forall|v: C| #[trigger] call_ensures(self.source, (), v) ==> v.ready()
    }

    open spec fn html(&self, before: Seq<char>, after: Seq<char>) -> bool {
        exists|v: C| #[trigger] call_ensures(self.source, (), v) && v.html(before, after)
    }

    open spec fn bound(&self, write: bool, s: C::State, c: Option<PropChange>) -> bool {
        exists|v: C| #[trigger] call_ensures(self.source, (), v) && v.bound(write, s, c)
    }

    open spec fn updated(&self, s0: C::State, s1: C::State, c: Option<PropChange>) -> bool {
        exists|v: C| #[trigger] call_ensures(self.source, (), v) && v.updated(s0, s1, c)
    }

    open spec fn cleared(s0: C::State, s1: C::State, c: Option<PropChange>) -> bool {
        C::cleared(s0, s1, c)
    }

    /// Reads the source once and serializes the value read.
    fn to_html(&self, style: &mut String) {
        let v: C = (self.source)();
        v.to_html(style);
    }

    /// Reads the source and builds the nested binding for the value read.
    fn build(&self) -> (r: (C::State, Option<StyleOp>)) {
        let v: C = (self.source)();
        v.build()
    }

    /// Reads the source and hydrates the nested binding for the value read.
    fn hydrate(&self, from_server: bool) -> (r: (C::State, Option<StyleOp>)) {
        let v: C = (self.source)();
        v.hydrate(from_server)
    }

    /// Reads the source again and updates the previous nested state with the
    /// new value: an incremental update, never a fresh bind.
    fn rebuild(&self, state: &mut C::State) -> (r: Option<StyleOp>) {
        let v: C = (self.source)();
        v.rebuild(state)
    }

    /// Tears down the nested binding.
    fn reset(state: &mut C::State) -> (r: Option<StyleOp>) {
        C::reset(state)
    }

    /// Reads the source and whatever the value read holds.
    fn dry_resolve(&self) {
        let v: C = (self.source)();
        v.dry_resolve();
    }
}

/// State of a binding whose source may have no value: the nested state once
/// a value has been bound, and whether a first bind writes (`false` when
/// hydrating markup that came from the server).
#[derive(Debug)]
pub struct MaybeStyleState<S> {
    pub inner: Option<S>,
    pub write_first: bool,
}

/// A firing that read `read`: a value updates the nested state, or binds
/// afresh when there is none; an absent read keeps what there is.
pub open spec fn maybe_updated<C: IntoStyle>(
    read: Option<C>,
    s0: MaybeStyleState<C::State>,
    s1: MaybeStyleState<C::State>,
    c: Option<PropChange>,
) -> bool {
    &&& s1.write_first == s0.write_first
    &&& match (s0.inner, read, s1.inner) {
        (Some(i), Some(v), Some(j)) => v.updated(i, j, c),
        (None, Some(v), Some(j)) => v.bound(s0.write_first, j, c),
        (_, None, _) => s1.inner == s0.inner && c is None,
        _ => false,
    }
}

pub open spec fn maybe_bound<C: IntoStyle>(
    read: Option<C>,
    write: bool,
    s: MaybeStyleState<C::State>,
    c: Option<PropChange>,
) -> bool {
    &&& s.write_first == write
    &&& match (read, s.inner) {
        (Some(v), Some(j)) => v.bound(write, j, c),
        (None, None) => c is None,
        _ => false,
    }
}

/// A value read from a source that may have none: `None` when the entry the
/// source points at does not exist at the time of the read.
impl<C: IntoStyle> IntoStyle for Option<C> {
    type State = MaybeStyleState<C::State>;

    open spec fn ready(&self) -> bool {
        match self {
            Some(x) => x.ready(),
            None => true,
        }
    }

    open spec fn html(&self, before: Seq<char>, after: Seq<char>) -> bool {
        match self {
            Some(x) => x.html(before, after),
            None => after == before,
        }
    }

    open spec fn bound(&self, write: bool, s: Self::State, c: Option<PropChange>) -> bool {
        maybe_bound::<C>(*self, write, s, c)
    }

    open spec fn updated(&self, s0: Self::State, s1: Self::State, c: Option<PropChange>) -> bool {
        maybe_updated::<C>(*self, s0, s1, c)
    }

    open spec fn cleared(s0: Self::State, s1: Self::State, c: Option<PropChange>) -> bool {
        &&& s1.write_first == s0.write_first
        &&& match (s0.inner, s1.inner) {
            (Some(i), Some(j)) => C::cleared(i, j, c),
            (None, None) => c is None,
            _ => false,
        }
    }

    /// Serializes the value, if any.
    fn to_html(&self, style: &mut String) {
        match self {
            Some(v) => v.to_html(style),
            None => {},
        }
    }

    /// Binds the value, if any, writing it.
    fn build(&self) -> (r: (Self::State, Option<StyleOp>)) {
        match self {
            Some(v) => {
                let (s, op): (C::State, Option<StyleOp>) = v.build();
                (MaybeStyleState { inner: Some(s), write_first: true }, op)
            },
            None => (MaybeStyleState { inner: None, write_first: true }, None),
        }
    }

    /// Binds the value, if any, to existing markup.
    fn hydrate(&self, from_server: bool) -> (r: (Self::State, Option<StyleOp>)) {
        match self {
            Some(v) => {
                let (s, op): (C::State, Option<StyleOp>) = v.hydrate(from_server);
                (MaybeStyleState { inner: Some(s), write_first: !from_server }, op)
            },
            None => (MaybeStyleState { inner: None, write_first: !from_server }, None),
        }
    }

    /// A value updates the nested state, or binds afresh when there is none;
    /// no value keeps what there is.
    fn rebuild(&self, state: &mut Self::State) -> (r: Option<StyleOp>) {
        match self {
            Some(v) => match &mut state.inner {
                Some(s) => v.rebuild(s),
                None => {
                    let (s, op): (C::State, Option<StyleOp>) = v.hydrate(!state.write_first);
                    state.inner = Some(s);
                    op
                },
            },
            None => None,
        }
    }

    /// Tears down the nested binding, if any.
    fn reset(state: &mut Self::State) -> (r: Option<StyleOp>) {
        match &mut state.inner {
            Some(s) => C::reset(s),
            None => None,
        }
    }

    /// Reads whatever the value holds.
    fn dry_resolve(&self) {
        match self {
            Some(v) => v.dry_resolve(),
            None => {},
        }
    }
}

} // verus!
