//! Functions, units and expression forms of the BigQuery dialect.

use vstd::prelude::*;
use vstd::string::*;
use crate::backend::query_builder::QueryBuilder;
use crate::backend::render::render_expr;
use crate::expr::{ExprView, SimpleExpr};
use crate::types::{Iden, Keyword, KeywordView};
use crate::writer::SqlOutput;

pub mod expr;
pub mod func;

pub use expr::BqExpr;
pub use func::{BqFunc, BqFunction};

verus! {

/// A calendar unit accepted by interval and truncation expressions.
#[derive(Debug, Clone, Copy, PartialEq, Eq, Structural)]
pub enum DateTimePart {
    Microsecond,
    Millisecond,
    Second,
    Minute,
    Hour,
    Day,
    Week,
    IsoWeek,
    Month,
    Quarter,
    Year,
    IsoYear,
}

impl DateTimePart {
    /// The one upper-case token of this unit.
    pub open spec fn token(self) -> Seq<char> {
        match self {
            DateTimePart::Microsecond => "MICROSECOND"@,
            DateTimePart::Millisecond => "MILLISECOND"@,
            DateTimePart::Second => "SECOND"@,
            DateTimePart::Minute => "MINUTE"@,
            DateTimePart::Hour => "HOUR"@,
            DateTimePart::Day => "DAY"@,
            DateTimePart::Week => "WEEK"@,
            DateTimePart::IsoWeek => "ISOWEEK"@,
            DateTimePart::Month => "MONTH"@,
            DateTimePart::Quarter => "QUARTER"@,
            DateTimePart::Year => "YEAR"@,
            DateTimePart::IsoYear => "ISOYEAR"@,
        }
    }

    pub fn as_str(&self) -> (s: &'static str)
        ensures
            s@ == self.token(),
    {
        match self {
            DateTimePart::Microsecond => "MICROSECOND",
            DateTimePart::Millisecond => "MILLISECOND",
            DateTimePart::Second => "SECOND",
            DateTimePart::Minute => "MINUTE",
            DateTimePart::Hour => "HOUR",
            DateTimePart::Day => "DAY",
            DateTimePart::Week => "WEEK",
            DateTimePart::IsoWeek => "ISOWEEK",
            DateTimePart::Month => "MONTH",
            DateTimePart::Quarter => "QUARTER",
            DateTimePart::Year => "YEAR",
            DateTimePart::IsoYear => "ISOYEAR",
        }
    }
}

/// No two units share a token.
pub proof fn lemma_tokens_distinct(one: DateTimePart, other: DateTimePart)
    requires
        one != other,
    ensures
        one.token() != other.token(),
{
    reveal_strlit("MICROSECOND");
    reveal_strlit("MILLISECOND");
    reveal_strlit("SECOND");
    reveal_strlit("MINUTE");
    reveal_strlit("HOUR");
    reveal_strlit("DAY");
    reveal_strlit("WEEK");
    reveal_strlit("ISOWEEK");
    reveal_strlit("MONTH");
    reveal_strlit("QUARTER");
    reveal_strlit("YEAR");
    reveal_strlit("ISOYEAR");
    // Tokens of one length differ in some character.
    let a = one.token();
    let b = other.token();
    assert(a.len() != b.len() || a[0] != b[0] || a[2] != b[2] || a[3] != b[3]);
}

/// A unit renders as its token and nothing else: whatever was written
/// before, and however often it is rendered, the same text is appended, in
/// every dialect, and no value is bound.
pub proof fn lemma_unit_renders_same_text<Q: QueryBuilder>(
    q: &Q,
    unit: DateTimePart,
    first: SqlOutput,
    second: SqlOutput,
)
    ensures
        render_expr(q, ExprView::Keyword(KeywordView::Custom(unit.token())), first)
            == first.push_text(unit.token()),
        render_expr(q, ExprView::Keyword(KeywordView::Custom(unit.token())), second)
            == second.push_text(unit.token()),
{
}

impl Iden for DateTimePart {
    open spec fn unquoted_text(&self) -> Seq<char> {
        self.token()
    }

    fn unquoted(&self, s: &mut String) {
        s.append(self.as_str());
    }
}

impl From<DateTimePart> for SimpleExpr {
    /// The unit as a keyword: its token, never quoted, never bound.
    fn from(part: DateTimePart) -> (expr: SimpleExpr)
        ensures
            expr@ == ExprView::Keyword(KeywordView::Custom(part.token())),
    {
        SimpleExpr::Keyword(Keyword::Custom(part.into_iden()))
    }
}

/// The keyword made from a unit holds a string of its own, which no
/// specification can name: the conversion is stated in the contract of
/// `from`, by what its result stands for.
impl vstd::std_specs::convert::FromSpecImpl<DateTimePart> for SimpleExpr {
    open spec fn obeys_from_spec() -> bool {
        false
    }

    open spec fn from_spec(part: DateTimePart) -> SimpleExpr {
        arbitrary()
    }
}

} // verus!
