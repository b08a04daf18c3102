//! The wrapper: a reduced, set-and-discard capability set over a builder,
//! kept abstract so that orchestration code can run against a substitute,
//! and the orchestration function itself.

use vstd::prelude::*;
use crate::accumulator::{AccView, Field, render};
use crate::builder::{Builder, ProductionBuilder};

verus! {

/// A set-and-discard view of a builder. What `to_string` returns is left to
/// the implementation as a function `output` of the assigned fields alone, so
/// a substitute (say, one answering a canned string) satisfies the same
/// contract as the production wrapper.
pub trait BuilderWrapper: Sized {
    /// The value last assigned to each field, if any.
    spec fn fields(&self) -> AccView;

    /// What `to_string` answers for given field assignments.
    spec fn output(m: AccView) -> Seq<char>;

    fn set_foo(&mut self, value: &str)
        ensures
            final(self).fields() == old(self).fields().assign(Field::Foo, value@),
    ;

    fn set_bar(&mut self, value: &str)
        ensures
            final(self).fields() == old(self).fields().assign(Field::Bar, value@),
    ;

    fn set_baz(&mut self, value: &str)
        ensures
            final(self).fields() == old(self).fields().assign(Field::Baz, value@),
    ;

    fn set_quux(&mut self, value: &str)
        ensures
            final(self).fields() == old(self).fields().assign(Field::Quux, value@),
    ;

    /// Consumes the wrapper; answers `output` of the fields assigned so far.
    fn to_string(self) -> (r: String)
        ensures
            r@ == Self::output(self.fields()),
    ;
}

/// The production wrapper: holds exactly one [`ProductionBuilder`] and
/// translates each call to it, so its `output` is exactly [`render`].
pub struct ProductionBuilderWrapper {
    pub builder: ProductionBuilder,
}

impl BuilderWrapper for ProductionBuilderWrapper {
    open spec fn fields(&self) -> AccView {
        self.builder@
    }

    open spec fn output(m: AccView) -> Seq<char> {
        render(m)
    }

    fn set_foo(&mut self, value: &str) {
        self.builder.with_foo(value);
    }

    fn set_bar(&mut self, value: &str) {
        self.builder.with_bar(value);
    }

    fn set_baz(&mut self, value: &str) {
        self.builder.with_baz(value);
    }

    fn set_quux(&mut self, value: &str) {
        self.builder.with_quux(value);
    }

    fn to_string(self) -> String {
        Builder::to_string(self.builder)
    }
}

/// Takes a BuilderWrapper and returns the result of a sequence
/// of method calls.
///
/// Pure delegation: the result is exactly the wrapper's own `output` of its
/// initial fields with the four fixed literals assigned, in the fixed order.
pub fn process<A: BuilderWrapper>(builder_wrapper: A) -> (result: String)
    ensures
        result@ == A::output(
            builder_wrapper.fields().assign(Field::Foo, "some foo"@).assign(
                Field::Bar,
                "some bar"@,
            ).assign(Field::Baz, "some baz"@).assign(Field::Quux, "some quux"@),
        ),
{
    let mut wrapper = builder_wrapper;
    wrapper.set_foo("some foo");
    wrapper.set_bar("some bar");
    wrapper.set_baz("some baz");
    wrapper.set_quux("some quux");
    wrapper.to_string()
}

} // verus!
