//! The consuming ("fluent") builder: each setter takes ownership of the
//! builder and returns a new one, so a whole chain ending in `to_string` can
//! stand as a single expression, with reuse after finalize ruled out by
//! ownership transfer alone.

use vstd::prelude::*;
use crate::accumulator::{AccView, Field, render};
use crate::builder::ProductionBuilder;

verus! {

/// A builder whose setters consume and return it. Semantically identical to
/// the mutating form: `to_string` answers exactly `render` of the fields
/// assigned so far.
pub trait FluentBuilder: Sized {
    /// The value last assigned to each field, if any.
    spec fn state(&self) -> AccView;

    fn with_foo(self, value: &str) -> (r: Self)
        ensures
            r.state() == self.state().assign(Field::Foo, value@),
    ;

    fn with_bar(self, value: &str) -> (r: Self)
        ensures
            r.state() == self.state().assign(Field::Bar, value@),
    ;

    fn with_baz(self, value: &str) -> (r: Self)
        ensures
            r.state() == self.state().assign(Field::Baz, value@),
    ;

    fn with_quux(self, value: &str) -> (r: Self)
        ensures
            r.state() == self.state().assign(Field::Quux, value@),
    ;

    /// To be called at the end of a chained sequence of method calls.
    ///
    /// This consumes self in the process, so the builder may not be used
    /// again afterward.
    fn to_string(self) -> (r: String)
        ensures
            r@ == render(self.state()),
    ;
}

impl FluentBuilder for ProductionBuilder {
    open spec fn state(&self) -> AccView {
        self@
    }

    fn with_foo(self, value: &str) -> Self {
        self.with_key_owned(Field::Foo, value)
    }

    fn with_bar(self, value: &str) -> Self {
        self.with_key_owned(Field::Bar, value)
    }

    fn with_baz(self, value: &str) -> Self {
        self.with_key_owned(Field::Baz, value)
    }

    fn with_quux(self, value: &str) -> Self {
        self.with_key_owned(Field::Quux, value)
    }

    fn to_string(self) -> String {
        self.finalize_items()
    }
}

/// Takes a FluentBuilder and returns the result of a single chained
/// expression of method calls.
///
/// Pure delegation: the result is exactly `render` of the builder's initial
/// fields with the four fixed literals assigned, in the fixed order.
pub fn process_via_builder<B: FluentBuilder>(builder: B) -> (result: String)
    ensures
        result@ == render(
            builder.state().assign(Field::Foo, "some foo"@).assign(Field::Bar, "some bar"@).assign(
                Field::Baz,
                "some baz"@,
            ).assign(Field::Quux, "some quux"@),
        ),
{
    builder.with_foo("some foo").with_bar("some bar").with_baz("some baz").with_quux("some quux")
        .to_string()
}

} // verus!
