//! Properties that hold of every run of a property binding.

use crate::style::{
    IntoStyle, NamedValue, PropChange, PropertyModel, PropertyState, ValueModel, apply_change,
    leaf_bind, leaf_reset, leaf_update,
};
use crate::reactive::MaybeStyleState;
use vstd::prelude::*;

verus! {

/// The changes a sequence of firings issues, as a sequence.
pub open spec fn with_change(c: Option<PropChange>, rest: Seq<PropChange>) -> Seq<PropChange> {
    match c {
        Some(x) => seq![x] + rest,
        None => rest,
    }
}

/// Applies the firings `reads` after the first one, in order: the final state
/// and every change issued.
pub open spec fn run_updates(s: PropertyModel, reads: Seq<ValueModel>) -> (
    PropertyModel,
    Seq<PropChange>,
)
    decreases reads.len(),
{
    if reads.len() == 0 {
        (s, Seq::empty())
    } else {
        let (s1, c) = leaf_update(s, reads[0]);
        let (s2, cs) = run_updates(s1, reads.drop_first());
        (s2, with_change(c, cs))
    }
}

/// Re-reading an unchanged value issues nothing and keeps the state.
proof fn lemma_unchanged_reads(s: PropertyModel, v: Seq<char>, n: nat)
    requires
        s.1 == Some(v),
    ensures
        run_updates(s, Seq::new(n, |i: int| (s.0, Some(v)))) == (s, Seq::<PropChange>::empty()),
    decreases n,
{
    let reads = Seq::new(n, |i: int| (s.0, Some(v)));
    if n > 0 {
        let rest = Seq::new((n - 1) as nat, |i: int| (s.0, Some(v)));
        assert(reads.drop_first() =~= rest);
        assert(leaf_update(s, reads[0]) == (s, None::<PropChange>));
        lemma_unchanged_reads(s, v, (n - 1) as nat);
    }
}

/// A binding whose source keeps the value `v` writes exactly once, when it
/// is built, however many times it fires afterwards.
pub proof fn unchanged_source_writes_once(name: Seq<char>, v: Seq<char>, n: nat)
    ensures
        leaf_bind((name, Some(v)), true).1 == Some(PropChange::Write(name, v)),
        run_updates(leaf_bind((name, Some(v)), true).0, Seq::new(n, |i: int| (name, Some(v)))).1
            == Seq::<PropChange>::empty(),
{
    lemma_unchanged_reads(leaf_bind((name, Some(v)), true).0, v, n);
}

/// Hydrating markup from the server writes nothing; the next firing writes
/// only if the value read differs from the one hydrated.
pub proof fn server_markup_is_trusted(name: Seq<char>, v: Seq<char>, w: Seq<char>)
    ensures
        leaf_bind((name, Some(v)), false).1 is None,
        leaf_update(leaf_bind((name, Some(v)), false).0, (name, Some(w))).1 == if v == w {
            None
        } else {
            Some(PropChange::Write(name, w))
        },
{
}

/// A firing whose source has no value never touches the property and keeps
/// the retained value.
pub proof fn absent_read_keeps_property(s: PropertyModel, name: Seq<char>)
    ensures
        leaf_update(s, (name, None)) == ((name, s.1), None::<PropChange>),
{
}

/// A value that goes absent and comes back unchanged is written only once,
/// when the binding is built, and never cleared.
pub proof fn flicker_is_suppressed(name: Seq<char>, v: Seq<char>)
    ensures
        ({
            let b = leaf_bind((name, Some(v)), true);
            let gap = leaf_update(b.0, (name, None));
            let back = leaf_update(gap.0, (name, Some(v)));
            &&& b.1 == Some(PropChange::Write(name, v))
            &&& gap.1 is None
            &&& back.1 is None
        }),
{
}

/// Once a binding retains a value it keeps one until it is reset.
proof fn lemma_retained_stays(s: PropertyModel, reads: Seq<ValueModel>)
    requires
        s.1 is Some,
    ensures
        run_updates(s, reads).0.1 is Some,
    decreases reads.len(),
{
    if reads.len() > 0 {
        lemma_retained_stays(leaf_update(s, reads[0]).0, reads.drop_first());
    }
}

/// After a binding that started with a value has fired any number of times,
/// a reset removes the property exactly once, leaves it absent from the
/// declaration, and a second reset issues nothing.
pub proof fn reset_clears_once(
    first: ValueModel,
    write: bool,
    reads: Seq<ValueModel>,
    decl: Map<Seq<char>, Seq<char>>,
)
    requires
        first.1 is Some,
    ensures
        ({
            let s = run_updates(leaf_bind(first, write).0, reads).0;
            &&& leaf_reset(s).1 == Some(PropChange::Erase(s.0))
            &&& !apply_change(decl, leaf_reset(s).1).dom().contains(s.0)
            &&& leaf_reset(leaf_reset(s).0).1 is None
        }),
{
    lemma_retained_stays(leaf_bind(first, write).0, reads);
}

/// Resetting a binding that retains no value does nothing.
pub proof fn reset_of_empty_state_does_nothing(s: PropertyModel)
    requires
        s.1 is None,
    ensures
        leaf_reset(s) == (s, None::<PropChange>),
{
}

/// A composite binding whose source yields `v1` and then `v2` (built with
/// `v1`, updated with `v2`) leaves the declaration as building `v1` and then
/// `v2` directly does, for values of one property name.
pub proof fn composite_matches_direct(
    v1: NamedValue,
    v2: NamedValue,
    s0: PropertyState,
    s1: PropertyState,
    c1: Option<PropChange>,
    c2: Option<PropChange>,
    d1: PropertyState,
    d2: PropertyState,
    e1: Option<PropChange>,
    e2: Option<PropChange>,
    decl: Map<Seq<char>, Seq<char>>,
)
    requires
        v1.name@ == v2.name@,
        v1.bound(true, s0, c1),
        v2.updated(s0, s1, c2),
        v1.bound(true, d1, e1),
        v2.bound(true, d2, e2),
    ensures
        apply_change(apply_change(decl, c1), c2) == apply_change(apply_change(decl, e1), e2),
{
    lemma_same_declaration(v1.model(), v2.model(), decl);
}

/// The same, for a source that may have no value and yields both `v1` and
/// `v2`.
pub proof fn fallible_composite_matches_direct(
    v1: NamedValue,
    v2: NamedValue,
    s0: MaybeStyleState<PropertyState>,
    s1: MaybeStyleState<PropertyState>,
    c1: Option<PropChange>,
    c2: Option<PropChange>,
    d1: PropertyState,
    d2: PropertyState,
    e1: Option<PropChange>,
    e2: Option<PropChange>,
    decl: Map<Seq<char>, Seq<char>>,
)
    requires
        v1.name@ == v2.name@,
        Some(v1).bound(true, s0, c1),
        Some(v2).updated(s0, s1, c2),
        v1.bound(true, d1, e1),
        v2.bound(true, d2, e2),
    ensures
        apply_change(apply_change(decl, c1), c2) == apply_change(apply_change(decl, e1), e2),
{
    lemma_same_declaration(v1.model(), v2.model(), decl);
}

proof fn lemma_same_declaration(v1: ValueModel, v2: ValueModel, decl: Map<Seq<char>, Seq<char>>)
    requires
        v1.0 == v2.0,
    ensures
        ({
            let b = leaf_bind(v1, true);
            let u = leaf_update(b.0, v2);
            apply_change(apply_change(decl, b.1), u.1) == apply_change(
                apply_change(decl, leaf_bind(v1, true).1),
                leaf_bind(v2, true).1,
            )
        }),
{
    match (v1.1, v2.1) {
        (Some(a), Some(b)) => {
            if a == b {
                assert(decl.insert(v1.0, a).insert(v1.0, b) =~= decl.insert(v1.0, a));
            }
        },
        _ => {},
    }
}

/// How many neighbouring entries of `vals` differ.
pub open spec fn value_changes(vals: Seq<Seq<char>>) -> nat
    decreases vals.len(),
{
    if vals.len() < 2 {
        0
    } else {
        (if vals[0] != vals[1] {
            1nat
        } else {
            0nat
        }) + value_changes(vals.drop_first())
    }
}

/// Every change in `cs` writes property `name`.
pub open spec fn all_write(cs: Seq<PropChange>, name: Seq<char>) -> bool {
    forall|i: int| 0 <= i < cs.len() ==> #[trigger] cs[i] is Write && cs[i]->Write_0 == name
}

pub open spec fn present_reads(name: Seq<char>, vals: Seq<Seq<char>>) -> Seq<ValueModel> {
    Seq::new(vals.len(), |i: int| (name, Some(vals[i])))
}

proof fn lemma_counted_writes(name: Seq<char>, p: Seq<char>, vals: Seq<Seq<char>>)
    ensures
        ({
            let r = run_updates((name, Some(p)), present_reads(name, vals));
            &&& r.1.len() == value_changes(seq![p] + vals)
            &&& all_write(r.1, name)
        }),
    decreases vals.len(),
{
    let reads = present_reads(name, vals);
    if vals.len() > 0 {
        let rest = vals.drop_first();
        assert(reads.drop_first() =~= present_reads(name, rest));
        assert((seq![p] + vals).drop_first() =~= vals);
        assert(seq![vals[0]] + rest =~= vals);
        lemma_counted_writes(name, vals[0], rest);
        let c = leaf_update((name, Some(p)), reads[0]).1;
        let cs = run_updates((name, Some(vals[0])), present_reads(name, rest)).1;
        assert(with_change(c, cs).len() == value_changes(seq![p] + vals));
        assert(all_write(with_change(c, cs), name)) by {
            if c is Some {
                assert forall|i: int| 0 <= i < with_change(c, cs).len() implies #[trigger]
                    with_change(c, cs)[i] is Write && with_change(c, cs)[i]->Write_0 == name by {
                    if i > 0 {
                        assert(with_change(c, cs)[i] == cs[i - 1]);
                    }
                }
            }
        }
    } else {
        assert(reads =~= Seq::<ValueModel>::empty());
    }
}

/// A source that always has a value, built and then fired with the values
/// `vals[1..]`, writes its property once when built and then once for each
/// value that differs from the one before it.
pub proof fn writes_follow_changes(name: Seq<char>, vals: Seq<Seq<char>>)
    requires
        vals.len() > 0,
    ensures
        ({
            let b = leaf_bind((name, Some(vals[0])), true);
            let r = run_updates(b.0, present_reads(name, vals.drop_first()));
            &&& b.1 == Some(PropChange::Write(name, vals[0]))
            &&& r.1.len() == value_changes(vals)
            &&& all_write(r.1, name)
        }),
{
    lemma_counted_writes(name, vals[0], vals.drop_first());
    assert(seq![vals[0]] + vals.drop_first() =~= vals);
}

} // verus!
