//! Reactive style-property bindings: the decisions that keep one named CSS
//! property of an element in step with a reactive string source, and the
//! value sources that feed them.

pub mod binding;
pub mod laws;
pub mod reactive;
pub mod style;
pub mod text_prop;
