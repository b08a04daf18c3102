//! The mutating builder: per-field setters that mutate in place and return a
//! reference to self, and a consuming finalize.

use vstd::prelude::*;
use crate::accumulator::{AccView, Accumulator, Field, render};

verus! {

/// A builder mutated in place by its setters. `to_string` consumes the
/// builder, so it cannot be used again afterward; the serialized result is
/// exactly `render` of the fields assigned so far.
pub trait Builder: Sized {
    /// The value last assigned to each field, if any.
    spec fn fields(&self) -> AccView;

    fn with_foo<'a>(&'a mut self, value: &str) -> (r: &'a Self)
        ensures
            final(self).fields() == old(self).fields().assign(Field::Foo, value@),
            r.fields() == final(self).fields(),
    ;

    fn with_bar<'a>(&'a mut self, value: &str) -> (r: &'a Self)
        ensures
            final(self).fields() == old(self).fields().assign(Field::Bar, value@),
            r.fields() == final(self).fields(),
    ;

    fn with_baz<'a>(&'a mut self, value: &str) -> (r: &'a Self)
        ensures
            final(self).fields() == old(self).fields().assign(Field::Baz, value@),
            r.fields() == final(self).fields(),
    ;

    fn with_quux<'a>(&'a mut self, value: &str) -> (r: &'a Self)
        ensures
            final(self).fields() == old(self).fields().assign(Field::Quux, value@),
            r.fields() == final(self).fields(),
    ;

    /// To be called at the end of a chained sequence of method calls.
    ///
    /// This consumes self in the process, so the builder may not be used
    /// again afterward.
    fn to_string(self) -> (r: String)
        ensures
            r@ == render(self.fields()),
    ;
}

/// The production builder: a thin pass-through to an [`Accumulator`].
pub struct ProductionBuilder {
    items: Accumulator,
}

impl View for ProductionBuilder {
    type V = AccView;

    closed spec fn view(&self) -> AccView {
        self.items@
    }
}

impl ProductionBuilder {
    /// A builder with no field assigned.
    pub fn new() -> (r: Self)
        ensures
            r@ == AccView::empty(),
    {
        ProductionBuilder { items: Accumulator::new() }
    }
}

impl ProductionBuilder {
    fn with_key<'a>(&'a mut self, key: Field, value: &str) -> (r: &'a Self)
        ensures
            final(self)@ == old(self)@.assign(key, value@),
            r@ == final(self)@,
    {
        self.items.assign(key, value);
        self
    }

    /// Ownership-transferring form of `with_key`, for the consuming setters.
    pub(crate) fn with_key_owned(self, key: Field, value: &str) -> (r: Self)
        ensures
            r@ == self@.assign(key, value@),
    {
        let mut this = self;
        this.with_key(key, value);
        this
    }

    /// Consuming finalize shared by both builder forms.
    pub(crate) fn finalize_items(self) -> (r: String)
        ensures
            r@ == render(self@),
    {
        self.items.finalize()
    }
}

impl Builder for ProductionBuilder {
    open spec fn fields(&self) -> AccView {
        self@
    }

    fn with_foo<'a>(&'a mut self, value: &str) -> &'a Self {
        self.with_key(Field::Foo, value)
    }

    fn with_bar<'a>(&'a mut self, value: &str) -> &'a Self {
        self.with_key(Field::Bar, value)
    }

    fn with_baz<'a>(&'a mut self, value: &str) -> &'a Self {
        self.with_key(Field::Baz, value)
    }

    fn with_quux<'a>(&'a mut self, value: &str) -> &'a Self {
        self.with_key(Field::Quux, value)
    }

    fn to_string(self) -> String {
        self.items.finalize()
    }
}

} // verus!
