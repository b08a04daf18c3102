use mocking_builder_pattern::{Accumulator, Builder, Field, ProductionBuilder};

#[test]
fn test_builder_empty() {
    let builder = ProductionBuilder::new();
    assert_eq!(Builder::to_string(builder), "");
}

#[test]
fn test_builder_all_fields_in_order() {
    let mut builder = ProductionBuilder::new();
    builder.with_foo("some foo");
    builder.with_bar("some bar");
    builder.with_baz("some baz");
    builder.with_quux("some quux");
    assert_eq!(
        Builder::to_string(builder),
        "foo: some foo\nbar: some bar\nbaz: some baz\nquux: some quux"
    );
}

#[test]
fn test_builder_single_field() {
    let mut builder = ProductionBuilder::new();
    builder.with_bar("x");
    assert_eq!(Builder::to_string(builder), "bar: x");
}

#[test]
fn test_builder_overwrite() {
    let mut builder = ProductionBuilder::new();
    builder.with_quux("a");
    builder.with_quux("b");
    assert_eq!(Builder::to_string(builder), "quux: b");
}

#[test]
fn test_builder_order_independent() {
    let mut first = ProductionBuilder::new();
    first.with_foo("f");
    first.with_baz("z");
    let mut second = ProductionBuilder::new();
    second.with_baz("z");
    second.with_foo("f");
    assert_eq!(Builder::to_string(first), Builder::to_string(second));
}

#[test]
fn test_builder_skips_unset_middle_fields() {
    let mut builder = ProductionBuilder::new();
    builder.with_foo("a");
    builder.with_quux("d");
    assert_eq!(Builder::to_string(builder), "foo: a\nquux: d");
}

#[test]
fn test_accumulator_single_assignment() {
    let mut acc = Accumulator::new();
    acc.assign(Field::Foo, "1");
    assert_eq!(acc.finalize(), "foo: 1");
}

#[test]
fn test_accumulator_empty() {
    let acc = Accumulator::new();
    assert_eq!(acc.finalize(), "");
}

#[test]
fn test_accumulator_overwrite_last_wins() {
    let mut acc = Accumulator::new();
    acc.assign(Field::Baz, "old");
    acc.assign(Field::Baz, "new");
    assert_eq!(acc.finalize(), "baz: new");
}

#[test]
fn test_accumulator_value_may_hold_newline() {
    let mut acc = Accumulator::new();
    acc.assign(Field::Foo, "a\nb");
    acc.assign(Field::Bar, "c");
    assert_eq!(acc.finalize(), "foo: a\nb\nbar: c");
}
