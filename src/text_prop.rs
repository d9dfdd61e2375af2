//! A uniform source of string values: a fixed string, a reactive signal or a
//! reactive store, all read through one call.

use reactive_graph::traits::Get;
use reactive_graph::signal::ArcRwSignal;
use reactive_graph::signal::ArcReadSignal;
use reactive_stores::ArcStore;
use vstd::prelude::*;

verus! {

#[verifier::external_type_specification]
#[verifier::external_body]
#[verifier::reject_recursive_types(T)]
pub struct ExArcRwSignal<T>(ArcRwSignal<T>);

#[verifier::external_type_specification]
#[verifier::external_body]
#[verifier::reject_recursive_types(T)]
pub struct ExArcReadSignal<T>(ArcReadSignal<T>);

#[verifier::external_type_specification]
#[verifier::external_body]
#[verifier::reject_recursive_types(T)]
pub struct ExArcStore<T>(ArcStore<T>);

/// Relies on `Clone for reactive_graph::signal::ArcRwSignal`: another handle
/// to the same signal.
pub assume_specification<T>[ <ArcRwSignal<T> as Clone>::clone ](s: &ArcRwSignal<T>) -> ArcRwSignal<T>;

/// Relies on `Clone for reactive_graph::signal::ArcReadSignal`: another
/// handle to the same signal.
pub assume_specification<T>[ <ArcReadSignal<T> as Clone>::clone ](s: &ArcReadSignal<T>) -> ArcReadSignal<T>;

/// Relies on `Clone for reactive_stores::ArcStore`: another handle to the
/// same store.
pub assume_specification<T>[ <ArcStore<T> as Clone>::clone ](s: &ArcStore<T>) -> ArcStore<T>;

/// Relies on `reactive_graph::traits::Get::try_get` for `ArcRwSignal`: the
/// signal's current value, or `None` while it cannot be read. What it holds
/// depends on the state of the reactive graph, so nothing is stated of it.
#[verifier::external_body]
fn signal_try_get(s: &ArcRwSignal<String>) -> Option<String> {
    s.try_get()
}

/// Relies on `reactive_graph::traits::Get::try_get` for `ArcReadSignal`: the
/// signal's current value, or `None` while it cannot be read. What it holds
/// depends on the state of the reactive graph, so nothing is stated of it.
#[verifier::external_body]
fn read_signal_try_get(s: &ArcReadSignal<String>) -> Option<String> {
    s.try_get()
}

/// Relies on `reactive_graph::traits::Get::try_get` for a whole `ArcStore`:
/// the store's current value, or `None` while it cannot be read. What it
/// holds depends on the store's state, so nothing is stated of it.
#[verifier::external_body]
fn store_try_get(s: &ArcStore<String>) -> Option<String> {
    s.try_get()
}

/// A value that is either a fixed string or a reactive one.
#[derive(Clone, Debug)]
pub enum TextProp {
    /// Always reads as this string.
    Static(String),
    /// Reads the signal's current value.
    Signal(ArcRwSignal<String>),
    /// Reads the read-only signal's current value.
    ReadSignal(ArcReadSignal<String>),
    /// Reads the store's current value.
    Store(ArcStore<String>),
}

impl TextProp {
    /// Whether `read` is a possible result of `try_get`: a fixed string
    /// always reads as itself, a reactive source may read as anything.
    pub open spec fn can_read(&self, read: Option<Seq<char>>) -> bool {
        match self {
            TextProp::Static(s) => read == Some(s@),
            _ => true,
        }
    }

    /// Reads the current value, or `None` when a reactive source has none.
    pub fn try_get(&self) -> (r: Option<String>)
        ensures
            self.can_read(crate::style::opt_view(r)),
    {
        match self {
            TextProp::Static(s) => Some(s.clone()),
            TextProp::Signal(s) => signal_try_get(s),
            TextProp::ReadSignal(s) => read_signal_try_get(s),
            TextProp::Store(s) => store_try_get(s),
        }
    }

    /// Reads the current value; a reactive source with no value reads as the
    /// empty string.
    pub fn get(&self) -> (r: String)
        ensures
            self is Static ==> r@ == self->Static_0@,
    {
        match self.try_get() {
            Some(s) => s,
            None => String::new(),
        }
    }
}

impl From<String> for TextProp {
    fn from(s: String) -> (r: TextProp)
        ensures
            r == TextProp::Static(s),
    {
        TextProp::Static(s)
    }
}

impl vstd::std_specs::convert::FromSpecImpl<String> for TextProp {
    open spec fn obeys_from_spec() -> bool {
        true
    }

    open spec fn from_spec(s: String) -> TextProp {
        TextProp::Static(s)
    }
}

impl From<ArcRwSignal<String>> for TextProp {
    fn from(s: ArcRwSignal<String>) -> (r: TextProp)
        ensures
            r == TextProp::Signal(s),
    {
        TextProp::Signal(s)
    }
}

impl vstd::std_specs::convert::FromSpecImpl<ArcRwSignal<String>> for TextProp {
    open spec fn obeys_from_spec() -> bool {
        true
    }

    open spec fn from_spec(s: ArcRwSignal<String>) -> TextProp {
        TextProp::Signal(s)
    }
}

impl From<ArcReadSignal<String>> for TextProp {
    fn from(s: ArcReadSignal<String>) -> (r: TextProp)
        ensures
            r == TextProp::ReadSignal(s),
    {
        TextProp::ReadSignal(s)
    }
}

impl vstd::std_specs::convert::FromSpecImpl<ArcReadSignal<String>> for TextProp {
    open spec fn obeys_from_spec() -> bool {
        true
    }

    open spec fn from_spec(s: ArcReadSignal<String>) -> TextProp {
        TextProp::ReadSignal(s)
    }
}

impl From<ArcStore<String>> for TextProp {
    fn from(s: ArcStore<String>) -> (r: TextProp)
        ensures
            r == TextProp::Store(s),
    {
        TextProp::Store(s)
    }
}

impl vstd::std_specs::convert::FromSpecImpl<ArcStore<String>> for TextProp {
    open spec fn obeys_from_spec() -> bool {
        true
    }

    open spec fn from_spec(s: ArcStore<String>) -> TextProp {
        TextProp::Store(s)
    }
}

impl Default for TextProp {
    /// The empty string.
    fn default() -> (r: TextProp)
        ensures
            r is Static,
            r->Static_0@ == Seq::<char>::empty(),
    {
        TextProp::Static(String::new())
    }
}

/// Reading an optional [`TextProp`].
pub trait OptionTextPropExt {
    /// The current value, or `None` when no property was given: an explicitly
    /// empty value stays distinct from a missing one.
    fn get(&self) -> Option<String>;
}

impl OptionTextPropExt for Option<TextProp> {
    fn get(&self) -> (r: Option<String>)
        ensures
            self is None ==> r is None,
            self is Some ==> r is Some,
            self is Some && self->Some_0 is Static ==> r->Some_0@ == self->Some_0->Static_0@,
    {
        match self {
            Some(p) => Some(p.get()),
            None => None,
        }
    }
}

} // verus!
