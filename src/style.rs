//! Binding of one named style property to a value that is read each time its
//! reactive source fires.
//!
//! Every operation is a pure decision: it takes the retained binding state and
//! the value just read, updates the state, and returns the single property
//! operation (if any) that the renderer must perform on the element's style
//! declaration. [`IntoStyle`] is the contract every bindable value meets;
//! [`NamedValue`] is its leaf, and reactive wrappers compose over it.

use vstd::prelude::*;

verus! {

/// One physical mutation of an element's style declaration.
#[derive(Debug)]
pub enum StyleOp {
    /// Set property `name` to `value`.
    SetProperty { name: String, value: String },
    /// Remove property `name`.
    RemoveProperty { name: String },
}

/// The mathematical form of a [`StyleOp`].
pub enum PropChange {
    Write(Seq<char>, Seq<char>),
    Erase(Seq<char>),
}

impl StyleOp {
    pub open spec fn change(&self) -> PropChange {
        match self {
            StyleOp::SetProperty { name, value } => PropChange::Write(name@, value@),
            StyleOp::RemoveProperty { name } => PropChange::Erase(name@),
        }
    }
}

pub open spec fn change_of(op: Option<StyleOp>) -> Option<PropChange> {
    match op {
        Some(o) => Some(o.change()),
        None => None,
    }
}

pub open spec fn opt_view(o: Option<String>) -> Option<Seq<char>> {
    match o {
        Some(s) => Some(s@),
        None => None,
    }
}

/// A style declaration as a map from property name to value.
pub open spec fn apply_change(decl: Map<Seq<char>, Seq<char>>, c: Option<PropChange>) -> Map<
    Seq<char>,
    Seq<char>,
> {
    match c {
        Some(PropChange::Write(n, v)) => decl.insert(n, v),
        Some(PropChange::Erase(n)) => decl.remove(n),
        None => decl,
    }
}

/// Retained state of a named-property binding: the property name and the
/// effect's retained value.
#[derive(Debug)]
pub struct RenderEffectWithCssStyleName<T> {
    pub name: String,
    pub effect: T,
}

impl<T> RenderEffectWithCssStyleName<T> {
    pub fn new(name: String, effect: T) -> (r: Self)
        ensures
            r.name == name,
            r.effect == effect,
    {
        Self { effect, name }
    }
}

/// State of a binding whose bound value is one named string property: the
/// value last put on the property, if any.
pub type PropertyState = RenderEffectWithCssStyleName<Option<String>>;

/// The model of a property binding's state: its name and retained value.
pub type PropertyModel = (Seq<char>, Option<Seq<char>>);

/// The model of a value read: its name and the value, if any.
pub type ValueModel = (Seq<char>, Option<Seq<char>>);

impl RenderEffectWithCssStyleName<Option<String>> {
    pub open spec fn model(&self) -> PropertyModel {
        (self.name@, opt_view(self.effect))
    }
}

/// First firing: a present value is retained, and written when `write`
/// holds; an absent one leaves nothing retained.
pub open spec fn bind_step(name: Seq<char>, read: Option<Seq<char>>, write: bool) -> (
    Option<Seq<char>>,
    Option<PropChange>,
) {
    match read {
        Some(v) => (Some(v), if write {
            Some(PropChange::Write(name, v))
        } else {
            None
        }),
        None => (None, None),
    }
}

/// Every later firing. A value read after a value is written iff the two
/// differ; an absent read keeps the retained value and leaves the property
/// as it is, so that a transient gap neither clears nor re-writes it; a value
/// read when none is retained is written as on a first bind.
pub open spec fn update_step(last: Option<Seq<char>>, name: Seq<char>, read: Option<Seq<char>>) -> (
    Option<Seq<char>>,
    Option<PropChange>,
) {
    match (last, read) {
        (Some(p), Some(v)) => (Some(v), if p == v {
            None
        } else {
            Some(PropChange::Write(name, v))
        }),
        (None, Some(v)) => (Some(v), Some(PropChange::Write(name, v))),
        (_, None) => (last, None),
    }
}

/// Teardown: remove the property if a value is retained, then forget it.
pub open spec fn reset_step(last: Option<Seq<char>>, name: Seq<char>) -> (
    Option<Seq<char>>,
    Option<PropChange>,
) {
    (None, if last is Some {
        Some(PropChange::Erase(name))
    } else {
        None
    })
}

/// `name:value;`, or nothing for an absent value.
pub open spec fn css_text(name: Seq<char>, value: Option<Seq<char>>) -> Seq<char> {
    match value {
        Some(v) => name + seq![':'] + v + seq![';'],
        None => Seq::empty(),
    }
}

pub open spec fn leaf_bind(v: ValueModel, write: bool) -> (PropertyModel, Option<PropChange>) {
    ((v.0, bind_step(v.0, v.1, write).0), bind_step(v.0, v.1, write).1)
}

pub open spec fn leaf_update(s: PropertyModel, v: ValueModel) -> (PropertyModel, Option<PropChange>) {
    ((v.0, update_step(s.1, v.0, v.1).0), update_step(s.1, v.0, v.1).1)
}

pub open spec fn leaf_reset(s: PropertyModel) -> (PropertyModel, Option<PropChange>) {
    ((s.0, reset_step(s.1, s.0).0), reset_step(s.1, s.0).1)
}

/// A value that can be bound to an element's style. Each firing of a reactive
/// source hands the bound value's state back to `rebuild`; `reset` tears it
/// down.
pub trait IntoStyle: Sized {
    /// What a binding of this value retains between firings.
    type State;

    /// The value's sources may be read.
    spec fn ready(&self) -> bool;

    /// Serializing the value may turn `before` into `after`.
    spec fn html(&self, before: Seq<char>, after: Seq<char>) -> bool;

    /// Binding the value may give state `s` and change `c`; `write` is false
    /// when existing markup is trusted to show the value already.
    spec fn bound(&self, write: bool, s: Self::State, c: Option<PropChange>) -> bool;

    /// A firing with this value may turn state `s0` into `s1` with change `c`.
    spec fn updated(&self, s0: Self::State, s1: Self::State, c: Option<PropChange>) -> bool;

    /// Teardown may turn state `s0` into `s1` with change `c`.
    spec fn cleared(s0: Self::State, s1: Self::State, c: Option<PropChange>) -> bool;

    /// Appends the value's textual form to `style`.
    fn to_html(&self, style: &mut String)
        requires
            self.ready(),
        ensures
            self.html(old(style)@, final(style)@),
    ;

    /// Binds to a target with no prior representation of the value.
    fn build(&self) -> (r: (Self::State, Option<StyleOp>))
        requires
            self.ready(),
        ensures
            self.bound(true, r.0, change_of(r.1)),
    ;

    /// Binds to existing markup; with `from_server` the markup is trusted.
    fn hydrate(&self, from_server: bool) -> (r: (Self::State, Option<StyleOp>))
        requires
            self.ready(),
        ensures
            self.bound(!from_server, r.0, change_of(r.1)),
    ;

    /// Applies a later firing to the retained state.
    fn rebuild(&self, state: &mut Self::State) -> (r: Option<StyleOp>)
        requires
            self.ready(),
        ensures
            self.updated(*old(state), *final(state), change_of(r)),
    ;

    /// Clears the value's effect on the target and forgets what was retained.
    fn reset(state: &mut Self::State) -> (r: Option<StyleOp>)
        ensures
            Self::cleared(*old(state), *final(state), change_of(r)),
    ;

    /// Reads the value's sources once, for their effect on the reactive graph
    /// alone.
    fn dry_resolve(&self)
        requires
            self.ready(),
    ;
}

/// A named style value as read at one firing of its source: `None` when a
/// fallible source had no value.
#[derive(Debug, Clone)]
pub struct NamedValue {
    pub name: String,
    pub value: Option<String>,
}

impl NamedValue {
    pub open spec fn model(&self) -> ValueModel {
        (self.name@, opt_view(self.value))
    }

    fn bind(&self, write: bool) -> (r: (PropertyState, Option<StyleOp>))
        ensures
            (r.0.model(), change_of(r.1)) == leaf_bind(self.model(), write),
    {
        match &self.value {
            Some(v) => {
                let op = if write {
                    Some(StyleOp::SetProperty { name: self.name.clone(), value: v.clone() })
                } else {
                    None
                };
                (RenderEffectWithCssStyleName::new(self.name.clone(), Some(v.clone())), op)
            },
            None => (RenderEffectWithCssStyleName::new(self.name.clone(), None), None),
        }
    }
}

impl IntoStyle for NamedValue {
    type State = PropertyState;

    open spec fn ready(&self) -> bool {
        true
    }

    open spec fn html(&self, before: Seq<char>, after: Seq<char>) -> bool {
        after == before + css_text(self.name@, opt_view(self.value))
    }

    open spec fn bound(&self, write: bool, s: PropertyState, c: Option<PropChange>) -> bool {
        (s.model(), c) == leaf_bind(self.model(), write)
    }

    open spec fn updated(&self, s0: PropertyState, s1: PropertyState, c: Option<PropChange>) -> bool {
        (s1.model(), c) == leaf_update(s0.model(), self.model())
    }

    open spec fn cleared(s0: PropertyState, s1: PropertyState, c: Option<PropChange>) -> bool {
        (s1.model(), c) == leaf_reset(s0.model())
    }

    /// Appends `name:value;` to `style`, or nothing when the value is absent.
    fn to_html(&self, style: &mut String) {
        match &self.value {
            Some(v) => {
                style.append(self.name.as_str());
                proof {
                    reveal_strlit(":");
                    reveal_strlit(";");
                }
                style.append(":");
                style.append(v.as_str());
                style.append(";");
                assert(style@ =~= old(style)@ + css_text(self.name@, Some(v@)));
            },
            None => {
                assert(old(style)@ + Seq::<char>::empty() =~= old(style)@);
            },
        }
    }

    /// A present value is always written.
    fn build(&self) -> (r: (PropertyState, Option<StyleOp>)) {
        self.bind(true)
    }

    /// With `from_server` nothing is written; otherwise as `build`.
    fn hydrate(&self, from_server: bool) -> (r: (PropertyState, Option<StyleOp>)) {
        self.bind(!from_server)
    }

    /// Takes over this value's name and applies [`update_step`]. When the
    /// name changes, the property under the old name is left as it is;
    /// clearing it is up to the caller.
    fn rebuild(&self, state: &mut PropertyState) -> (r: Option<StyleOp>) {
        state.name = self.name.clone();
        match (&state.effect, &self.value) {
            (Some(p), Some(v)) => {
                let op = if *p == *v {
                    None
                } else {
                    Some(StyleOp::SetProperty { name: state.name.clone(), value: v.clone() })
                };
                state.effect = Some(v.clone());
                op
            },
            (None, Some(v)) => {
                state.effect = Some(v.clone());
                Some(StyleOp::SetProperty { name: state.name.clone(), value: v.clone() })
            },
            (_, None) => None,
        }
    }

    /// Removes the property if a value is retained and forgets it, so that
    /// a second reset does nothing.
    fn reset(state: &mut PropertyState) -> (r: Option<StyleOp>) {
        let op = if state.effect.is_some() {
            Some(StyleOp::RemoveProperty { name: state.name.clone() })
        } else {
            None
        };
        state.effect = None;
        op
    }

    /// A value already read has no source left to read.
    fn dry_resolve(&self) {
    }
}

} // verus!
