//! The accumulator: a mapping from the four fixed field names to the string
//! value last assigned to each, and its serialization to the fixed-format
//! output string.

use vstd::prelude::*;
use vstd::string::StringExecFns;

verus! {

/// The four field names a value can be assigned to. Field identity is part of
/// the operation, so an unknown field is not representable.
#[derive(Clone, Copy)]
pub enum Field {
    Foo,
    Bar,
    Baz,
    Quux,
}

/// Mathematical contents of an accumulator: for each field, the value last
/// assigned to it, if any.
#[verifier::ext_equal]
pub struct AccView {
    pub foo: Option<Seq<char>>,
    pub bar: Option<Seq<char>>,
    pub baz: Option<Seq<char>>,
    pub quux: Option<Seq<char>>,
}

impl AccView {
    /// Contents with no field assigned.
    pub open spec fn empty() -> AccView {
        AccView { foo: None, bar: None, baz: None, quux: None }
    }

    /// Assign `value` to `field`, overwriting any earlier assignment.
    pub open spec fn assign(self, field: Field, value: Seq<char>) -> AccView {
        match field {
            Field::Foo => AccView { foo: Some(value), ..self },
            Field::Bar => AccView { bar: Some(value), ..self },
            Field::Baz => AccView { baz: Some(value), ..self },
            Field::Quux => AccView { quux: Some(value), ..self },
        }
    }
}

/// One output line: `<label>: <value>`.
pub open spec fn line(label: Seq<char>, value: Seq<char>) -> Seq<char> {
    label + ": "@ + value
}

/// The line of one field, if the field is assigned; no line otherwise.
pub open spec fn opt_line(label: Seq<char>, value: Option<Seq<char>>) -> Seq<Seq<char>> {
    match value {
        Some(v) => seq![line(label, v)],
        None => seq![],
    }
}

/// The output lines: exactly one line per assigned field, in the fixed field
/// order foo, bar, baz, quux; fields never assigned contribute nothing.
pub open spec fn lines_of(v: AccView) -> Seq<Seq<char>> {
    opt_line("foo"@, v.foo) + opt_line("bar"@, v.bar) + opt_line("baz"@, v.baz)
        + opt_line("quux"@, v.quux)
}

/// Lines joined by a single newline: no leading or trailing separator, and the
/// empty sequence of lines gives the empty string.
pub open spec fn join_lines(lines: Seq<Seq<char>>) -> Seq<char>
    decreases lines.len(),
{
    if lines.len() == 0 {
        Seq::empty()
    } else if lines.len() == 1 {
        lines[0]
    } else {
        lines[0] + "\n"@ + join_lines(lines.drop_first())
    }
}

/// The serialized form of accumulator contents `v`.
pub open spec fn render(v: AccView) -> Seq<char> {
    join_lines(lines_of(v))
}

/// Appending one more line extends the join by a separator exactly when some
/// line was already present.
pub proof fn lemma_join_lines_push(lines: Seq<Seq<char>>, l: Seq<char>)
    ensures
        join_lines(lines.push(l)) == if lines.len() == 0 {
            l
        } else {
            join_lines(lines) + "\n"@ + l
        },
    decreases lines.len(),
{
    if lines.len() == 0 {
        assert(lines.push(l)[0] == l);
    } else if lines.len() == 1 {
        assert(lines.push(l).drop_first() =~= seq![l]);
        assert(join_lines(seq![l]) == l);
    } else {
        lemma_join_lines_push(lines.drop_first(), l);
        assert(lines.push(l).drop_first() =~= lines.drop_first().push(l));
        assert(join_lines(lines.push(l)) == lines[0] + "\n"@ + join_lines(
            lines.drop_first().push(l),
        ));
        assert(join_lines(lines) + "\n"@ + l =~= lines[0] + "\n"@ + (join_lines(
            lines.drop_first(),
        ) + "\n"@ + l));
    }
}

/// Assignments to two different fields commute: together with
/// [`lemma_assign_overwrites`], the contents — and so the serialized output,
/// which is a function of the contents alone — do not depend on the order in
/// which the setters were called, only on the value last assigned to each
/// field.
pub proof fn lemma_assign_commutes(v: AccView, f1: Field, x: Seq<char>, f2: Field, y: Seq<char>)
    requires
        f1 != f2,
    ensures
        v.assign(f1, x).assign(f2, y) == v.assign(f2, y).assign(f1, x),
{
}

/// A later assignment to a field overwrites an earlier one without trace.
pub proof fn lemma_assign_overwrites(v: AccView, f: Field, x: Seq<char>, y: Seq<char>)
    ensures
        v.assign(f, x).assign(f, y) == v.assign(f, y),
{
}

/// If no field is assigned, the serialized output is the empty string.
pub proof fn lemma_render_empty()
    ensures
        render(AccView::empty()) == Seq::<char>::empty(),
{
    assert(lines_of(AccView::empty()) =~= Seq::<Seq<char>>::empty());
}

/// The accumulator. Created empty, filled by `assign`, consumed once by
/// `finalize`.
pub struct Accumulator {
    foo: Option<String>,
    bar: Option<String>,
    baz: Option<String>,
    quux: Option<String>,
}

impl View for Accumulator {
    type V = AccView;

    closed spec fn view(&self) -> AccView {
        AccView {
            foo: match self.foo {
                Some(s) => Some(s@),
                None => None,
            },
            bar: match self.bar {
                Some(s) => Some(s@),
                None => None,
            },
            baz: match self.baz {
                Some(s) => Some(s@),
                None => None,
            },
            quux: match self.quux {
                Some(s) => Some(s@),
                None => None,
            },
        }
    }
}

impl Accumulator {
    /// An accumulator with no field assigned.
    pub fn new() -> (r: Accumulator)
        ensures
            r@ == AccView::empty(),
    {
        Accumulator { foo: None, bar: None, baz: None, quux: None }
    }

    /// Assign `value` to `field`, overwriting any earlier value.
    pub fn assign(&mut self, field: Field, value: &str)
        ensures
            final(self)@ == old(self)@.assign(field, value@),
    {
        let owned = value.to_owned();
        match field {
            Field::Foo => {
                self.foo = Some(owned);
            },
            Field::Bar => {
                self.bar = Some(owned);
            },
            Field::Baz => {
                self.baz = Some(owned);
            },
            Field::Quux => {
                self.quux = Some(owned);
            },
        }
    }

    /// Serialize the contents: one `<field>: <value>` line per assigned field,
    /// in fixed field order, joined by single newlines, with no leading or
    /// trailing newline; the empty string if nothing was assigned. Consumes
    /// the accumulator.
    pub fn finalize(self) -> (r: String)
        ensures
            r@ == render(self@),
    {
        let ghost v = self@;
        let Accumulator { foo, bar, baz, quux } = self;
        let mut result = String::new();
        let mut empty = true;
        let ghost mut emitted: Seq<Seq<char>> = Seq::empty();
        if let Some(value) = foo {
            append_line(&mut result, empty, "foo", value.as_str());
            proof {
                lemma_join_lines_push(emitted, line("foo"@, value@));
                emitted = emitted.push(line("foo"@, value@));
            }
            empty = false;
        }
        if let Some(value) = bar {
            append_line(&mut result, empty, "bar", value.as_str());
            proof {
                lemma_join_lines_push(emitted, line("bar"@, value@));
                emitted = emitted.push(line("bar"@, value@));
            }
            empty = false;
        }
        if let Some(value) = baz {
            append_line(&mut result, empty, "baz", value.as_str());
            proof {
                lemma_join_lines_push(emitted, line("baz"@, value@));
                emitted = emitted.push(line("baz"@, value@));
            }
            empty = false;
        }
        if let Some(value) = quux {
            append_line(&mut result, empty, "quux", value.as_str());
            proof {
                lemma_join_lines_push(emitted, line("quux"@, value@));
                emitted = emitted.push(line("quux"@, value@));
            }
            empty = false;
        }
        proof {
            assert(emitted =~= lines_of(v));
        }
        result
    }
}

/// Append one formatted line to `result`, preceded by a newline separator
/// unless the result so far is empty.
fn append_line(result: &mut String, empty: bool, label: &str, value: &str)
    ensures
        final(result)@ == if empty {
            old(result)@ + line(label@, value@)
        } else {
            old(result)@ + "\n"@ + line(label@, value@)
        },
{
    if !empty {
        result.append("\n");
    }
    result.append(label);
    result.append(": ");
    result.append(value);
    proof {
        if empty {
            assert(result@ =~= old(result)@ + line(label@, value@));
        } else {
            assert(result@ =~= old(result)@ + "\n"@ + line(label@, value@));
        }
    }
}

} // verus!
