//! What a dialect has to say for itself, and the walk over an expression
//! that all dialects share.

use vstd::prelude::*;
use vstd::string::*;
use crate::backend::render::{
    binds, expr_values, exprs_values, lemma_render_expr_binds_in_order,
    lemma_render_exprs_binds_in_order, render_expr, render_exprs, supports_expr, supports_exprs,
};
use crate::expr::{exprs_view, SimpleExpr};
use crate::func::{CommonFunction, Function};
use crate::text::{quoted, write_quoted};
use crate::types::{keyword_text, DynIden, Keyword};
use crate::value::Value;
use crate::writer::SqlWriter;

verus! {

/// The name of a common function: the same in every dialect.
pub open spec fn common_function_name(function: CommonFunction) -> Seq<char> {
    match function {
        CommonFunction::Max => "MAX"@,
        CommonFunction::Min => "MIN"@,
        CommonFunction::Sum => "SUM"@,
        CommonFunction::Avg => "AVG"@,
        CommonFunction::Abs => "ABS"@,
        CommonFunction::Count => "COUNT"@,
        CommonFunction::Coalesce => "COALESCE"@,
        CommonFunction::CharLength => "CHAR_LENGTH"@,
        CommonFunction::Lower => "LOWER"@,
        CommonFunction::Upper => "UPPER"@,
        CommonFunction::Round => "ROUND"@,
    }
}

/// The renderer of one dialect. A dialect says how it quotes identifiers,
/// what stands in for a bound value, and what it calls each function; the
/// walk over an expression is the same for all of them.
pub trait QueryBuilder {
    /// The character that encloses an identifier.
    spec fn quote_char(&self) -> char;

    /// The text that stands in for a bound value, and whether the position
    /// of the value follows it.
    spec fn placeholder_style(&self) -> (Seq<char>, bool);

    /// Whether this dialect has a name for `function`. It has one for every
    /// common function; a function of another dialect it does not know.
    spec fn supports(&self, function: Function) -> bool;

    /// The name under which this dialect writes `function`.
    spec fn function_name(&self, function: Function) -> Seq<char>;

    /// Every dialect knows the common functions, under their common names.
    proof fn lemma_common_functions(&self, function: CommonFunction)
        ensures
            self.supports(Function::Common(function)),
            self.function_name(Function::Common(function)) == common_function_name(function),
    ;

    fn quote(&self) -> (q: char)
        ensures
            q == self.quote_char(),
    ;

    fn placeholder(&self) -> (style: (&'static str, bool))
        ensures
            style.0@ == self.placeholder_style().0,
            style.1 == self.placeholder_style().1,
    ;

    /// Binds `value`: its placeholder goes to the end of the text, the value
    /// to the end of the parameters.
    fn prepare_value(&self, value: &Value, sql: &mut SqlWriter)
        ensures
            final(sql)@ == old(sql)@.push_param(value@),
    ;

    /// Writes the name of `function`, as it is: a name is neither quoted nor
    /// bound.
    fn prepare_function(&self, function: &Function, sql: &mut SqlWriter)
        requires
            self.supports(*function),
        ensures
            final(sql)@ == old(sql)@.push_text(self.function_name(*function)),
    ;
}

/// Writes the name of a common function. This shared path knows the common
/// set only: a function that belongs to a dialect has no name here, and is
/// to be written by that dialect.
pub fn prepare_function_common(function: &Function, sql: &mut SqlWriter)
    requires
        *function is Common,
    ensures
        final(sql)@ == old(sql)@.push_text(common_function_name(function->Common_0)),
{
    match function {
        Function::Common(function) => {
            let name = match function {
                CommonFunction::Max => "MAX",
                CommonFunction::Min => "MIN",
                CommonFunction::Sum => "SUM",
                CommonFunction::Avg => "AVG",
                CommonFunction::Abs => "ABS",
                CommonFunction::Count => "COUNT",
                CommonFunction::Coalesce => "COALESCE",
                CommonFunction::CharLength => "CHAR_LENGTH",
                CommonFunction::Lower => "LOWER",
                CommonFunction::Upper => "UPPER",
                CommonFunction::Round => "ROUND",
            };
            sql.push_str(name);
        },
        _ => unreached(),
    }
}

/// Writes `keyword` as a bare token.
pub fn prepare_keyword(keyword: &Keyword, sql: &mut SqlWriter)
    ensures
        final(sql)@ == old(sql)@.push_text(keyword_text(keyword@)),
{
    match keyword {
        Keyword::Null => sql.push_str("NULL"),
        Keyword::CurrentDate => sql.push_str("CURRENT_DATE"),
        Keyword::CurrentTime => sql.push_str("CURRENT_TIME"),
        Keyword::CurrentTimestamp => sql.push_str("CURRENT_TIMESTAMP"),
        Keyword::Custom(iden) => sql.push_str(iden.text.as_str()),
    }
}

/// Writes `iden` as an identifier in the quotes of `q`.
pub fn prepare_iden<Q: QueryBuilder>(q: &Q, iden: &DynIden, sql: &mut SqlWriter)
    ensures
        final(sql)@ == old(sql)@.push_text(quoted(iden@, q.quote_char())),
{
    let mut text = String::new();
    write_quoted(iden.text.as_str(), q.quote(), &mut text);
    assert(text@ =~= quoted(iden@, q.quote_char()));
    sql.push_str(text.as_str());
}

/// Renders `expr` onto `sql`.
pub fn prepare_simple_expr<Q: QueryBuilder>(q: &Q, expr: &SimpleExpr, sql: &mut SqlWriter)
    requires
        supports_expr(q, expr@),
    ensures
        final(sql)@ == render_expr(q, expr@, old(sql)@),
        binds(final(sql)@, old(sql)@, expr_values(expr@)),
    decreases expr,
{
    proof {
        lemma_render_expr_binds_in_order(q, expr@, old(sql)@);
    }
    match expr {
        SimpleExpr::Value(value) => q.prepare_value(value, sql),
        SimpleExpr::Column(name) => prepare_iden(q, name, sql),
        SimpleExpr::FunctionCall(call) => {
            q.prepare_function(&call.func, sql);
            sql.push_str("(");
            prepare_exprs(q, &call.args, sql);
            sql.push_str(")");
        },
        SimpleExpr::Keyword(keyword) => prepare_keyword(keyword, sql),
        SimpleExpr::Custom(text) => sql.push_str(text.as_str()),
        SimpleExpr::SubQuery(query) => {
            sql.push_str("(");
            query.prepare_statement(q, sql);
            sql.push_str(")");
        },
    }
}

/// Renders `exprs` onto `sql`, separated by commas.
pub fn prepare_exprs<Q: QueryBuilder>(q: &Q, exprs: &Vec<SimpleExpr>, sql: &mut SqlWriter)
    requires
        supports_exprs(q, exprs_view(exprs@)),
    ensures
        final(sql)@ == render_exprs(q, exprs_view(exprs@), old(sql)@),
        binds(final(sql)@, old(sql)@, exprs_values(exprs_view(exprs@))),
    decreases exprs,
{
    proof {
        lemma_render_exprs_binds_in_order(q, exprs_view(exprs@), old(sql)@);
    }
    let ghost all = exprs_view(exprs@);
    let mut i: usize = 0;
    while i < exprs.len()
        invariant
            i <= exprs.len(),
            all == exprs_view(exprs@),
            supports_exprs(q, all),
            sql@ == render_exprs(q, all.take(i as int), old(sql)@),
        decreases exprs.len() - i,
    {
        if i > 0 {
            sql.push_str(", ");
        }
        proof {
            assert(all.take(i + 1).drop_last() =~= all.take(i as int));
            assert(all.take(i + 1).last() == exprs[i as int]@);
            assert(supports_expr(q, all[i as int]));
        }
        prepare_simple_expr(q, &exprs[i], sql);
        i += 1;
    }
    proof {
        assert(all.take(exprs.len() as int) =~= all);
    }
}

} // verus!
