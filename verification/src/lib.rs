//! A small key-value builder: four fixed fields (foo, bar, baz, quux) are
//! assigned string values through setter calls and serialized to one line per
//! assigned field, in fixed field order, joined by single newlines.
//!
//! Two interchangeable call styles sit on top of the accumulator: a mutating
//! builder trait, and a wrapper trait that narrows it to a set-and-discard
//! capability so that orchestration code can run against a substitute.

pub mod accumulator;
pub mod builder;
pub mod fluent;
pub mod wrapper;

pub use accumulator::{Accumulator, AccView, Field};
pub use builder::{Builder, ProductionBuilder};
pub use fluent::{process_via_builder, FluentBuilder};
pub use wrapper::{process, BuilderWrapper, ProductionBuilderWrapper};
