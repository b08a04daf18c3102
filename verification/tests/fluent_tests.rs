use mocking_builder_pattern::{process_via_builder, FluentBuilder, ProductionBuilder};

#[test]
fn test_fluent_full_chain() {
    let result = ProductionBuilder::new()
        .with_foo("some foo")
        .with_bar("some bar")
        .with_baz("some baz")
        .with_quux("some quux")
        .to_string();
    assert_eq!(result, "foo: some foo\nbar: some bar\nbaz: some baz\nquux: some quux");
}

#[test]
fn test_fluent_empty() {
    assert_eq!(ProductionBuilder::new().to_string(), "");
}

#[test]
fn test_fluent_overwrite_chain() {
    let result = ProductionBuilder::new().with_quux("a").with_quux("b").to_string();
    assert_eq!(result, "quux: b");
}

#[test]
fn test_process_via_builder_production() {
    let result = process_via_builder(ProductionBuilder::new());
    assert_eq!(result, "foo: some foo\nbar: some bar\nbaz: some baz\nquux: some quux");
}
