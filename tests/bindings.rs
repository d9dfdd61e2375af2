use std::cell::Cell;
use std::collections::BTreeMap;

use reactive_graph::signal::{ArcReadSignal, ArcRwSignal};
use reactive_graph::traits::Set as _;
use reactive_stores::ArcStore;
use style_binding::binding::StyleBinding;
use style_binding::reactive::ReactiveStyle;
use style_binding::style::{IntoStyle, NamedValue, PropertyState, StyleOp};
use style_binding::text_prop::{OptionTextPropExt, TextProp};

fn value(name: &str, v: &str) -> NamedValue {
    NamedValue { name: name.to_string(), value: Some(v.to_string()) }
}

fn absent(name: &str) -> NamedValue {
    NamedValue { name: name.to_string(), value: None }
}

fn apply(decl: &mut BTreeMap<String, String>, op: &Option<StyleOp>) {
    match op {
        Some(StyleOp::SetProperty { name, value }) => {
            decl.insert(name.clone(), value.clone());
        }
        Some(StyleOp::RemoveProperty { name }) => {
            decl.remove(name);
        }
        None => {}
    }
}

fn writes(ops: &[Option<StyleOp>]) -> Vec<String> {
    ops.iter()
        .filter_map(|op| match op {
            Some(StyleOp::SetProperty { value, .. }) => Some(value.clone()),
            _ => None,
        })
        .collect()
}

fn clears(ops: &[Option<StyleOp>]) -> usize {
    ops.iter().filter(|op| matches!(op, Some(StyleOp::RemoveProperty { .. }))).count()
}

#[test]
fn unchanged_value_writes_once() {
    let (mut state, op) = value("color", "red").build();
    let mut ops = vec![op];
    for _ in 0..10 {
        ops.push(value("color", "red").rebuild(&mut state));
    }
    assert_eq!(writes(&ops), vec!["red".to_string()]);
    assert_eq!(clears(&ops), 0);
}

#[test]
fn change_detection_writes_each_change() {
    let seq = ["A", "A", "B", "B", "A"];
    let (mut state, op) = value("color", seq[0]).build();
    let mut ops = vec![op];
    for v in &seq[1..] {
        ops.push(value("color", v).rebuild(&mut state));
    }
    assert_eq!(writes(&ops), vec!["A".to_string(), "B".to_string(), "A".to_string()]);
    assert_eq!(ops.iter().filter(|op| op.is_none()).count(), 2);
}

#[test]
fn from_server_hydration_writes_nothing() {
    let (mut state, op) = value("color", "red").hydrate(true);
    assert!(op.is_none());
    assert!(value("color", "red").rebuild(&mut state).is_none());
    let op = value("color", "blue").rebuild(&mut state);
    assert_eq!(writes(&[op]), vec!["blue".to_string()]);
}

#[test]
fn hydration_without_server_markup_writes() {
    let (_, op) = value("color", "red").hydrate(false);
    assert_eq!(writes(&[op]), vec!["red".to_string()]);
}

#[test]
fn fresh_bind_always_writes() {
    let mut decl = BTreeMap::new();
    decl.insert("color".to_string(), "red".to_string());
    let (state, op) = value("color", "red").build();
    assert_eq!(writes(&[op]), vec!["red".to_string()]);
    assert_eq!(state.name, "color");
    assert_eq!(state.effect, Some("red".to_string()));
}

#[test]
fn absent_read_does_not_clear() {
    let mut decl = BTreeMap::new();
    let (mut state, op) = value("color", "x").build();
    apply(&mut decl, &op);
    let mut ops = vec![op];
    let op = absent("color").rebuild(&mut state);
    assert!(op.is_none());
    apply(&mut decl, &op);
    assert_eq!(decl.get("color"), Some(&"x".to_string()));
    assert_eq!(state.effect, Some("x".to_string()));
    ops.push(op);
    let op = value("color", "x").rebuild(&mut state);
    assert!(op.is_none());
    apply(&mut decl, &op);
    ops.push(op);
    assert_eq!(clears(&ops), 0);
    assert_eq!(writes(&ops), vec!["x".to_string()]);
    assert_eq!(decl.get("color"), Some(&"x".to_string()));
}

#[test]
fn absent_first_read_binds_without_writing() {
    let (mut state, op) = absent("color").build();
    assert!(op.is_none());
    assert_eq!(state.effect, None);
    assert!(absent("color").rebuild(&mut state).is_none());
    let op = value("color", "green").rebuild(&mut state);
    assert_eq!(writes(&[op]), vec!["green".to_string()]);
}

#[test]
fn reset_clears_once() {
    let mut decl = BTreeMap::new();
    let (mut state, op) = value("color", "red").build();
    apply(&mut decl, &op);
    for v in ["blue", "blue", "green"] {
        let op = value("color", v).rebuild(&mut state);
        apply(&mut decl, &op);
    }
    let first = NamedValue::reset(&mut state);
    assert!(matches!(&first, Some(StyleOp::RemoveProperty { name }) if name == "color"));
    apply(&mut decl, &first);
    assert!(decl.get("color").is_none());
    assert!(NamedValue::reset(&mut state).is_none());
    assert_eq!(state.effect, None);
}

#[test]
fn reset_after_absent_read_still_clears() {
    let (mut state, _) = value("color", "red").build();
    assert!(absent("color").rebuild(&mut state).is_none());
    assert_eq!(clears(&[NamedValue::reset(&mut state)]), 1);
}

#[test]
fn reset_of_empty_state_does_nothing() {
    let (mut state, _) = absent("color").build();
    assert!(NamedValue::reset(&mut state).is_none());
    assert_eq!(state.effect, None);
    assert_eq!(state.name, "color");
}

#[test]
fn rebuild_after_reset_writes_again() {
    let (mut state, _) = value("color", "red").build();
    NamedValue::reset(&mut state);
    let op = value("color", "red").rebuild(&mut state);
    assert_eq!(writes(&[op]), vec!["red".to_string()]);
}

#[test]
fn rebind_to_new_name_keeps_retained_value() {
    let (mut state, _) = value("color", "red").build();
    assert!(value("background", "red").rebuild(&mut state).is_none());
    assert_eq!(state.name, "background");
    let op = value("background", "blue").rebuild(&mut state);
    assert!(matches!(&op, Some(StyleOp::SetProperty { name, value })
        if name == "background" && value == "blue"));
}

#[test]
fn serializes_name_and_value() {
    let mut style = String::from("margin:0;");
    value("color", "red").to_html(&mut style);
    assert_eq!(style, "margin:0;color:red;");
    absent("color").to_html(&mut style);
    assert_eq!(style, "margin:0;color:red;");
}

#[test]
fn composite_matches_direct_binding() {
    let values = ["red", "blue"];
    let step = Cell::new(0usize);
    let source = ReactiveStyle { source: || value("color", values[step.get()]) };
    let mut composite = BTreeMap::new();
    let (mut state, op) = source.build();
    apply(&mut composite, &op);
    step.set(1);
    let op = source.rebuild(&mut state);
    apply(&mut composite, &op);

    let mut direct = BTreeMap::new();
    let (_, op) = value("color", "red").build();
    apply(&mut direct, &op);
    let (_, op) = value("color", "blue").build();
    apply(&mut direct, &op);
    assert_eq!(composite, direct);
    assert_eq!(composite.get("color"), Some(&"blue".to_string()));
}

#[test]
fn composite_serializes_and_resets() {
    let source = ReactiveStyle { source: || value("width", "10px") };
    let mut style = String::new();
    source.to_html(&mut style);
    assert_eq!(style, "width:10px;");
    let (mut state, _) = source.hydrate(true);
    assert!(source.rebuild(&mut state).is_none());
    assert_eq!(clears(&[<ReactiveStyle<fn() -> NamedValue> as IntoStyle>::reset(&mut state)]), 1);
}

#[test]
fn fallible_composite_follows_reads() {
    let reads: [Option<&str>; 4] = [None, Some("a"), None, Some("b")];
    let step = Cell::new(0usize);
    let source = ReactiveStyle {
        source: || reads[step.get()].map(|v| value("color", v)),
    };
    let (mut state, op) = source.build();
    assert!(op.is_none());
    assert!(state.inner.is_none());
    let mut ops = Vec::new();
    for i in 1..4 {
        step.set(i);
        ops.push(source.rebuild(&mut state));
    }
    assert_eq!(writes(&ops), vec!["a".to_string(), "b".to_string()]);
    assert_eq!(clears(&ops), 0);
    let op = <Option<NamedValue> as IntoStyle>::reset(&mut state);
    assert_eq!(clears(&[op]), 1);
}

#[test]
fn fallible_composite_from_server_binds_silently() {
    let step = Cell::new(0usize);
    let reads: [Option<&str>; 2] = [None, Some("a")];
    let source = ReactiveStyle {
        source: || reads[step.get()].map(|v| value("color", v)),
    };
    let (mut state, _) = source.hydrate(true);
    step.set(1);
    assert!(source.rebuild(&mut state).is_none());
    let mut style = String::new();
    source.to_html(&mut style);
    assert_eq!(style, "color:a;");
}

#[test]
fn text_prop_reads_fixed_value() {
    let p = TextProp::from("red".to_string());
    assert_eq!(p.get(), "red");
    assert_eq!(p.try_get(), Some("red".to_string()));
    assert_eq!(TextProp::default().get(), "");
}

#[test]
fn optional_text_prop_keeps_absence() {
    let none: Option<TextProp> = None;
    assert_eq!(none.get(), None);
    let empty: Option<TextProp> = Some(TextProp::default());
    assert_eq!(empty.get(), Some(String::new()));
}

#[test]
fn signal_source_drives_binding() {
    let signal = ArcRwSignal::new("red".to_string());
    let binding = StyleBinding::new("color".to_string(), TextProp::from(signal.clone()));
    let (mut state, op) = binding.build();
    assert_eq!(writes(&[op]), vec!["red".to_string()]);
    assert!(binding.rebuild(&mut state).is_none());
    signal.set("blue".to_string());
    assert_eq!(binding.source.get(), "blue");
    let op = binding.rebuild(&mut state);
    assert_eq!(writes(&[op]), vec!["blue".to_string()]);
    assert_eq!(clears(&[StyleBinding::reset(&mut state)]), 1);
}

#[test]
fn store_source_reads_value() {
    let store = ArcStore::new("1px".to_string());
    let binding = StyleBinding::new("border".to_string(), TextProp::from(store));
    assert_eq!(binding.source.try_get(), Some("1px".to_string()));
    let mut style = String::new();
    binding.to_html(&mut style);
    assert_eq!(style, "border:1px;");
}

#[test]
fn fixed_source_binding_hydrates_and_clones() {
    let binding = StyleBinding::new("color".to_string(), TextProp::from("red".to_string()));
    let copy = binding.clone().into_cloneable();
    let (mut state, op): (PropertyState, _) = copy.hydrate(true);
    assert!(op.is_none());
    assert!(binding.rebuild(&mut state).is_none());
    binding.dry_resolve();
    let read = binding.read();
    assert_eq!(read.value, Some("red".to_string()));
}

#[test]
fn read_signal_source_reads_value() {
    let signal = ArcRwSignal::new("2em".to_string());
    let reader: ArcReadSignal<String> = signal.read_only();
    let prop = TextProp::from(reader);
    assert_eq!(prop.get(), "2em");
    signal.set("3em".to_string());
    assert_eq!(prop.try_get(), Some("3em".to_string()));
}

#[test]
fn nested_composite_updates_incrementally() {
    let values = ["red", "red", "blue"];
    let step = Cell::new(0usize);
    let inner = || ReactiveStyle { source: || value("color", values[step.get()]) };
    let outer = ReactiveStyle { source: inner };
    let (mut state, op) = outer.build();
    let mut ops = vec![op];
    for i in 1..3 {
        step.set(i);
        ops.push(outer.rebuild(&mut state));
    }
    assert_eq!(writes(&ops), vec!["red".to_string(), "blue".to_string()]);
    let mut style = String::new();
    outer.to_html(&mut style);
    assert_eq!(style, "color:blue;");
}

#[test]
fn fallible_composite_keeps_state_through_gap() {
    let reads: [Option<&str>; 3] = [Some("a"), None, Some("a")];
    let step = Cell::new(0usize);
    let source = ReactiveStyle {
        source: || reads[step.get()].map(|v| value("color", v)),
    };
    let (mut state, op) = source.build();
    let mut ops = vec![op];
    for i in 1..3 {
        step.set(i);
        ops.push(source.rebuild(&mut state));
    }
    assert_eq!(writes(&ops), vec!["a".to_string()]);
    assert_eq!(clears(&ops), 0);
}
