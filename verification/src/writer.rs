//! The sink of a rendering: the SQL text written so far and the values bound
//! so far, in the order in which their placeholders were written.

use vstd::prelude::*;
use vstd::string::*;
use crate::backend::query_builder::QueryBuilder;
use crate::text::{decimal, write_decimal};
use crate::value::{values_view, Value, ValueView};

verus! {

/// What a [`SqlWriter`] holds.
pub struct SqlOutput {
    /// The text that stands in for a bound value, such as `?` or `$`.
    pub placeholder: Seq<char>,
    /// Whether the position of the value follows the placeholder (`$1`, `$2`).
    pub numbered: bool,
    /// The SQL text written so far.
    pub text: Seq<char>,
    /// The values bound so far.
    pub params: Seq<ValueView>,
    /// For each bound value, where in `text` its placeholder begins.
    pub holes: Seq<int>,
}

impl SqlOutput {
    /// The output of a writer that has written nothing yet.
    pub open spec fn empty(placeholder: Seq<char>, numbered: bool) -> SqlOutput {
        SqlOutput {
            placeholder,
            numbered,
            text: Seq::empty(),
            params: Seq::empty(),
            holes: Seq::empty(),
        }
    }

    /// The output of a writer that has written nothing yet, with the
    /// placeholder style of the dialect `q`.
    pub open spec fn start<Q: QueryBuilder>(q: &Q) -> SqlOutput {
        SqlOutput::empty(q.placeholder_style().0, q.placeholder_style().1)
    }

    /// The placeholder of the `position`-th bound value, counted from one.
    pub open spec fn mark(self, position: int) -> Seq<char> {
        if self.numbered {
            self.placeholder + decimal(position as nat)
        } else {
            self.placeholder
        }
    }

    /// This output after `text` has been written.
    pub open spec fn push_text(self, text: Seq<char>) -> SqlOutput {
        SqlOutput { text: self.text + text, ..self }
    }

    /// This output after `value` has been bound: its placeholder is written
    /// at the end of the text and the value becomes the last parameter.
    pub open spec fn push_param(self, value: ValueView) -> SqlOutput {
        SqlOutput {
            text: self.text + self.mark(self.params.len() as int + 1),
            params: self.params.push(value),
            holes: self.holes.push(self.text.len() as int),
            ..self
        }
    }

    /// The text holds the placeholder of the `i`-th value (from zero) where
    /// `holes` says, before the placeholder of the next value begins.
    pub open spec fn hole_ok(self, i: int) -> bool {
        let end = self.holes[i] + self.mark(i + 1).len();
        &&& 0 <= self.holes[i]
        &&& end <= self.text.len()
        &&& self.text.subrange(self.holes[i], end) == self.mark(i + 1)
        &&& i + 1 < self.holes.len() ==> end <= self.holes[i + 1]
    }

    /// Placeholders and values correspond: there is one placeholder for each
    /// value, and the placeholders stand in the text in the order of the
    /// values, without overlap.
    pub open spec fn wf(self) -> bool {
        &&& self.holes.len() == self.params.len()
        &&& forall|i: int| 0 <= i < self.holes.len() ==> #[trigger] self.hole_ok(i)
    }

    /// `self` continues `earlier`: same placeholder style, and the earlier
    /// text, values and placeholder positions are a prefix of the present ones.
    pub open spec fn extends(self, earlier: SqlOutput) -> bool {
        &&& self.placeholder == earlier.placeholder
        &&& self.numbered == earlier.numbered
        &&& earlier.text.is_prefix_of(self.text)
        &&& earlier.params.is_prefix_of(self.params)
        &&& earlier.holes.is_prefix_of(self.holes)
    }
}

/// Writing text binds nothing and moves no placeholder; where placeholders
/// and values corresponded before, they still do.
pub proof fn lemma_push_text(out: SqlOutput, text: Seq<char>)
    ensures
        out.push_text(text).extends(out),
        out.push_text(text).params == out.params,
        out.wf() ==> out.push_text(text).wf(),
{
    let next = out.push_text(text);
    assert(out.text.is_prefix_of(next.text));
    if out.wf() {
        assert forall|i: int| 0 <= i < next.holes.len() implies #[trigger] next.hole_ok(i) by {
            assert(out.hole_ok(i));
            let end = out.holes[i] + out.mark(i + 1).len();
            assert(next.text.subrange(out.holes[i], end) =~= out.text.subrange(
                out.holes[i],
                end,
            ));
        }
    }
}

/// Binding a value adds it after the values bound before and writes its
/// placeholder after all the text written before; where placeholders and
/// values corresponded before, they still do.
pub proof fn lemma_push_param(out: SqlOutput, value: ValueView)
    ensures
        out.push_param(value).extends(out),
        out.push_param(value).params == out.params + seq![value],
        out.wf() ==> out.push_param(value).wf(),
{
    let next = out.push_param(value);
    let n = out.holes.len() as int;
    assert(out.text.is_prefix_of(next.text));
    assert(out.params.is_prefix_of(next.params));
    assert(out.holes.is_prefix_of(next.holes));
    assert(next.params =~= out.params + seq![value]);
    if out.wf() {
        assert forall|i: int| 0 <= i < next.holes.len() implies #[trigger] next.hole_ok(i) by {
            if i < n {
                assert(out.hole_ok(i));
                let end = out.holes[i] + out.mark(i + 1).len();
                assert(next.text.subrange(out.holes[i], end) =~= out.text.subrange(
                    out.holes[i],
                    end,
                ));
            } else {
                let end = out.text.len() as int + out.mark(n + 1).len();
                assert(next.text.subrange(out.text.len() as int, end) =~= out.mark(n + 1));
            }
        }
    }
}

/// What continues a continuation of an output continues that output.
pub proof fn lemma_extends_transitive(last: SqlOutput, middle: SqlOutput, first: SqlOutput)
    requires
        last.extends(middle),
        middle.extends(first),
    ensures
        last.extends(first),
{
    assert(first.text.is_prefix_of(last.text));
    assert(first.params.is_prefix_of(last.params));
    assert(first.holes.is_prefix_of(last.holes));
}

/// Where placeholders and values correspond, an earlier placeholder ends
/// before a later one begins.
pub proof fn lemma_holes_in_order(out: SqlOutput, earlier: int, later: int)
    requires
        out.wf(),
        0 <= earlier < later < out.holes.len(),
    ensures
        out.holes[earlier] + out.mark(earlier + 1).len() <= out.holes[later],
    decreases later - earlier,
{
    assert(out.hole_ok(earlier));
    if earlier + 1 < later {
        assert(out.hole_ok(earlier + 1));
        lemma_holes_in_order(out, earlier + 1, later);
    }
}

/// The sink that a renderer writes into.
pub struct SqlWriter {
    placeholder: String,
    numbered: bool,
    sql: String,
    values: Vec<Value>,
    holes: Ghost<Seq<int>>,
}

impl View for SqlWriter {
    type V = SqlOutput;

    closed spec fn view(&self) -> SqlOutput {
        SqlOutput {
            placeholder: self.placeholder@,
            numbered: self.numbered,
            text: self.sql@,
            params: values_view(self.values@),
            holes: self.holes@,
        }
    }
}

impl SqlWriter {
    /// A writer that has written nothing, with the placeholder style given.
    pub fn new(placeholder: &str, numbered: bool) -> (writer: SqlWriter)
        ensures
            writer@ == SqlOutput::empty(placeholder@, numbered),
            writer@.wf(),
    {
        let writer = SqlWriter {
            placeholder: placeholder.to_owned(),
            numbered,
            sql: String::new(),
            values: Vec::new(),
            holes: Ghost(Seq::empty()),
        };
        assert(values_view(writer.values@) =~= Seq::<ValueView>::empty());
        writer
    }

    /// Writes `text` as it is.
    pub fn push_str(&mut self, text: &str)
        ensures
            final(self)@ == old(self)@.push_text(text@),
            old(self)@.wf() ==> final(self)@.wf(),
    {
        self.sql.append(text);
        proof {
            lemma_push_text(old(self)@, text@);
        }
    }

    /// Binds `value`: writes the next placeholder and appends the value to
    /// the parameters.
    pub fn push_param(&mut self, value: Value)
        ensures
            final(self)@ == old(self)@.push_param(value@),
            old(self)@.wf() ==> final(self)@.wf(),
    {
        let ghost at = self.sql@.len() as int;
        self.values.push(value);
        self.sql.append(self.placeholder.as_str());
        if self.numbered {
            write_decimal(self.values.len() as u64, &mut self.sql);
        }
        proof {
            self.holes@ = self.holes@.push(at);
            assert(values_view(self.values@) =~= values_view(old(self).values@).push(value@));
            assert(self.sql@ =~= old(self).sql@ + old(self)@.mark(old(self)@.params.len() as int + 1));
            lemma_push_param(old(self)@, value@);
        }
    }

    /// The SQL text written so far.
    pub fn sql(&self) -> (text: &str)
        ensures
            text@ == self@.text,
    {
        self.sql.as_str()
    }

    /// The values bound so far, in the order of their placeholders.
    pub fn values(&self) -> (values: &Vec<Value>)
        ensures
            values_view(values@) == self@.params,
    {
        &self.values
    }

    /// Ends the writing: the SQL text and the values bound to it.
    pub fn into_parts(self) -> (parts: (String, Vec<Value>))
        ensures
            parts.0@ == self@.text,
            values_view(parts.1@) == self@.params,
    {
        (self.sql, self.values)
    }
}

} // verus!
