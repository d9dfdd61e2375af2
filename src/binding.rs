//! A named style property bound to a [`TextProp`]: each firing reads the
//! source and applies the value read to the property binding.

use crate::style::{
    IntoStyle, NamedValue, PropChange, PropertyState, StyleOp, css_text, leaf_bind, leaf_reset,
    leaf_update, opt_view,
};
use crate::text_prop::TextProp;
use vstd::prelude::*;

verus! {

/// The property `name` bound to the values of `source`.
#[derive(Clone, Debug)]
pub struct StyleBinding {
    pub name: String,
    pub source: TextProp,
}

impl StyleBinding {
    pub fn new(name: String, source: TextProp) -> (r: Self)
        ensures
            r.name == name,
            r.source == source,
    {
        StyleBinding { name, source }
    }

    /// Reads the source once.
    pub fn read(&self) -> (r: NamedValue)
        ensures
            r.name@ == self.name@,
            self.source.can_read(opt_view(r.value)),
    {
        NamedValue { name: self.name.clone(), value: self.source.try_get() }
    }

    /// A binding that can be duplicated for reuse across render passes: its
    /// clones share the same reactive source.
    pub fn into_cloneable(self) -> (r: Self)
        ensures
            r == self,
    {
        self
    }
}

impl IntoStyle for StyleBinding {
    type State = PropertyState;

    open spec fn ready(&self) -> bool {
        true
    }

    open spec fn html(&self, before: Seq<char>, after: Seq<char>) -> bool {
        exists|read: Option<Seq<char>>| #[trigger]
            self.source.can_read(read) && after == before + css_text(self.name@, read)
    }

    open spec fn bound(&self, write: bool, s: PropertyState, c: Option<PropChange>) -> bool {
        exists|read: Option<Seq<char>>| #[trigger]
            self.source.can_read(read) && (s.model(), c) == leaf_bind((self.name@, read), write)
    }

    open spec fn updated(&self, s0: PropertyState, s1: PropertyState, c: Option<PropChange>) -> bool {
        exists|read: Option<Seq<char>>| #[trigger]
            self.source.can_read(read) && (s1.model(), c) == leaf_update(
                s0.model(),
                (self.name@, read),
            )
    }

    open spec fn cleared(s0: PropertyState, s1: PropertyState, c: Option<PropChange>) -> bool {
        (s1.model(), c) == leaf_reset(s0.model())
    }

    /// Reads the source and serializes `name:value;`, or nothing when the
    /// source has no value.
    fn to_html(&self, style: &mut String) {
        let v = self.read();
        v.to_html(style);
    }

    /// Reads the source and binds the property, writing a present value.
    fn build(&self) -> (r: (PropertyState, Option<StyleOp>)) {
        let v = self.read();
        v.build()
    }

    /// Reads the source and binds the property to existing markup; with
    /// `from_server` nothing is written.
    fn hydrate(&self, from_server: bool) -> (r: (PropertyState, Option<StyleOp>)) {
        let v = self.read();
        v.hydrate(from_server)
    }

    /// Reads the source again and updates the property binding, which takes
    /// over this binding's name.
    fn rebuild(&self, state: &mut PropertyState) -> (r: Option<StyleOp>) {
        let v = self.read();
        v.rebuild(state)
    }

    /// Tears the property binding down.
    fn reset(state: &mut PropertyState) -> (r: Option<StyleOp>) {
        NamedValue::reset(state)
    }

    /// Reads the source once, for its effect on the reactive graph alone.
    fn dry_resolve(&self) {
        let _ = self.source.try_get();
    }
}

} // verus!
