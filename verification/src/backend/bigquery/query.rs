//! How the BigQuery dialect renders: its quotes, its placeholder and the
//! names of its functions.

use vstd::prelude::*;
use crate::backend::bigquery::BigQueryQueryBuilder;
use crate::backend::query_builder::{
    common_function_name, prepare_function_common, prepare_simple_expr, QueryBuilder,
};
use crate::backend::render::{
    binds, expr_values, exprs_values, lemma_call_renders_name, render_expr, render_statement, supports_expr,
    supports_exprs,
};
use crate::expr::{ExprView, SimpleExpr};
use crate::extension::bigquery::BqFunction;
use crate::func::{CommonFunction, Function, FunctionCallView};
use crate::writer::SqlOutput;
use crate::query::SubQueryStatement;
use crate::value::Value;
use crate::writer::SqlWriter;

verus! {

/// The name of each function of the BigQuery dialect.
pub open spec fn bq_function_name(function: BqFunction) -> Seq<char> {
    match function {
        BqFunction::Timestamp => "TIMESTAMP"@,
        BqFunction::TimestampAdd => "TIMESTAMP_ADD"@,
        BqFunction::TimestampSub => "TIMESTAMP_SUB"@,
        BqFunction::TimestampDiff => "TIMESTAMP_DIFF"@,
        BqFunction::TimestampTrunc => "TIMESTAMP_TRUNC"@,
        BqFunction::FormatTimestamp => "FORMAT_TIMESTAMP"@,
        BqFunction::ParseTimestamp => "PARSE_TIMESTAMP"@,
        BqFunction::TimestampSeconds => "TIMESTAMP_SECONDS"@,
        BqFunction::TimestampMillis => "TIMESTAMP_MILLIS"@,
        BqFunction::TimestampMicros => "TIMESTAMP_MICROS"@,
        BqFunction::UnixSeconds => "UNIX_SECONDS"@,
        BqFunction::UnixMillis => "UNIX_MILLIS"@,
        BqFunction::UnixMicros => "UNIX_MICROS"@,
        BqFunction::Greatest => "GREATEST"@,
        BqFunction::JsonExtractScalar => "JSON_EXTRACT_SCALAR"@,
    }
}

impl QueryBuilder for BigQueryQueryBuilder {
    open spec fn quote_char(&self) -> char {
        '`'
    }

    open spec fn placeholder_style(&self) -> (Seq<char>, bool) {
        ("?"@, false)
    }

    open spec fn supports(&self, function: Function) -> bool {
        true
    }

    open spec fn function_name(&self, function: Function) -> Seq<char> {
        match function {
            Function::BqFunction(function) => bq_function_name(function),
            Function::Common(function) => common_function_name(function),
        }
    }

    proof fn lemma_common_functions(&self, function: CommonFunction) {
    }

    fn quote(&self) -> (q: char) {
        '`'
    }

    fn placeholder(&self) -> (style: (&'static str, bool)) {
        ("?", false)
    }

    fn prepare_value(&self, value: &Value, sql: &mut SqlWriter) {
        sql.push_param(value.clone());
    }

    fn prepare_function(&self, function: &Function, sql: &mut SqlWriter) {
        match function {
            Function::BqFunction(function) => {
                let fn_name = match function {
                    BqFunction::Timestamp => "TIMESTAMP",
                    BqFunction::TimestampAdd => "TIMESTAMP_ADD",
                    BqFunction::TimestampSub => "TIMESTAMP_SUB",
                    BqFunction::TimestampDiff => "TIMESTAMP_DIFF",
                    BqFunction::TimestampTrunc => "TIMESTAMP_TRUNC",
                    BqFunction::FormatTimestamp => "FORMAT_TIMESTAMP",
                    BqFunction::ParseTimestamp => "PARSE_TIMESTAMP",
                    BqFunction::TimestampSeconds => "TIMESTAMP_SECONDS",
                    BqFunction::TimestampMillis => "TIMESTAMP_MILLIS",
                    BqFunction::TimestampMicros => "TIMESTAMP_MICROS",
                    BqFunction::UnixSeconds => "UNIX_SECONDS",
                    BqFunction::UnixMillis => "UNIX_MILLIS",
                    BqFunction::UnixMicros => "UNIX_MICROS",
                    // Mathematical Functions
                    BqFunction::Greatest => "GREATEST",
                    // Json Functions
                    BqFunction::JsonExtractScalar => "JSON_EXTRACT_SCALAR",
                };
                sql.push_str(fn_name)
            },
            _ => prepare_function_common(function, sql),
        }
    }
}

/// The BigQuery dialect has a name for every function that an expression can
/// call.
pub proof fn lemma_bigquery_supports_expr(expr: ExprView)
    ensures
        supports_expr(&BigQueryQueryBuilder, expr),
    decreases expr,
{
    match expr {
        ExprView::FunctionCall(call) => lemma_bigquery_supports_exprs(call.args),
        ExprView::SubQuery(query) => lemma_bigquery_supports_exprs(query.exprs),
        _ => {},
    }
}

/// The BigQuery dialect has a name for every function that a sequence of
/// expressions can call.
pub proof fn lemma_bigquery_supports_exprs(exprs: Seq<ExprView>)
    ensures
        supports_exprs(&BigQueryQueryBuilder, exprs),
    decreases exprs,
{
    assert forall|i: int| 0 <= i < exprs.len() implies supports_expr(
        &BigQueryQueryBuilder,
        #[trigger] exprs[i],
    ) by {
        lemma_bigquery_supports_expr(exprs[i]);
    }
}

/// Every function of the BigQuery dialect renders under its own name from
/// the table of [`bq_function_name`]: a call of it is written as that name,
/// an opening parenthesis, the arguments and a closing parenthesis, and a
/// call without arguments as the name and an empty pair of parentheses.
pub proof fn lemma_bq_function_renders_its_name(
    function: BqFunction,
    args: Seq<ExprView>,
    out: SqlOutput,
)
    ensures
        (out.text + bq_function_name(function) + "("@).is_prefix_of(
            render_expr(
                &BigQueryQueryBuilder,
                ExprView::FunctionCall(
                    FunctionCallView { func: Function::BqFunction(function), args },
                ),
                out,
            ).text,
        ),
        args.len() == 0 ==> render_expr(
            &BigQueryQueryBuilder,
            ExprView::FunctionCall(FunctionCallView { func: Function::BqFunction(function), args }),
            out,
        ) == out.push_text(bq_function_name(function) + "()"@),
{
    lemma_call_renders_name(&BigQueryQueryBuilder, Function::BqFunction(function), args, out);
}

/// No two functions of the BigQuery dialect share a name.
pub proof fn lemma_bq_function_names_distinct(one: BqFunction, other: BqFunction)
    requires
        one != other,
    ensures
        bq_function_name(one) != bq_function_name(other),
{
    reveal_strlit("TIMESTAMP");
    reveal_strlit("TIMESTAMP_ADD");
    reveal_strlit("TIMESTAMP_SUB");
    reveal_strlit("TIMESTAMP_DIFF");
    reveal_strlit("TIMESTAMP_TRUNC");
    reveal_strlit("FORMAT_TIMESTAMP");
    reveal_strlit("PARSE_TIMESTAMP");
    reveal_strlit("TIMESTAMP_SECONDS");
    reveal_strlit("TIMESTAMP_MILLIS");
    reveal_strlit("TIMESTAMP_MICROS");
    reveal_strlit("UNIX_SECONDS");
    reveal_strlit("UNIX_MILLIS");
    reveal_strlit("UNIX_MICROS");
    reveal_strlit("GREATEST");
    reveal_strlit("JSON_EXTRACT_SCALAR");
    // Names of one length differ in some character.
    let a = bq_function_name(one);
    let b = bq_function_name(other);
    assert(a.len() != b.len() || a[0] != b[0] || a[7] != b[7] || a[10] != b[10] || a[12] != b[12]);
}

/// No function of the BigQuery dialect goes by the name of a common
/// function.
pub proof fn lemma_bq_function_names_apart_from_common(own: BqFunction, common: CommonFunction)
    ensures
        bq_function_name(own) != common_function_name(common),
{
    reveal_strlit("TIMESTAMP");
    reveal_strlit("TIMESTAMP_ADD");
    reveal_strlit("TIMESTAMP_SUB");
    reveal_strlit("TIMESTAMP_DIFF");
    reveal_strlit("TIMESTAMP_TRUNC");
    reveal_strlit("FORMAT_TIMESTAMP");
    reveal_strlit("PARSE_TIMESTAMP");
    reveal_strlit("TIMESTAMP_SECONDS");
    reveal_strlit("TIMESTAMP_MILLIS");
    reveal_strlit("TIMESTAMP_MICROS");
    reveal_strlit("UNIX_SECONDS");
    reveal_strlit("UNIX_MILLIS");
    reveal_strlit("UNIX_MICROS");
    reveal_strlit("GREATEST");
    reveal_strlit("JSON_EXTRACT_SCALAR");
    reveal_strlit("MAX");
    reveal_strlit("MIN");
    reveal_strlit("SUM");
    reveal_strlit("AVG");
    reveal_strlit("ABS");
    reveal_strlit("COUNT");
    reveal_strlit("COALESCE");
    reveal_strlit("CHAR_LENGTH");
    reveal_strlit("LOWER");
    reveal_strlit("UPPER");
    reveal_strlit("ROUND");
    let a = bq_function_name(own);
    let b = common_function_name(common);
    assert(a.len() != b.len() || a[0] != b[0]);
}

impl BigQueryQueryBuilder {
    /// Renders an expression in this dialect. Every expression can be
    /// rendered, since the dialect has a name for every function.
    pub fn prepare_simple_expr(&self, expr: &SimpleExpr, sql: &mut SqlWriter)
        ensures
            final(sql)@ == render_expr(self, expr@, old(sql)@),
            binds(final(sql)@, old(sql)@, expr_values(expr@)),
    {
        proof {
            lemma_bigquery_supports_expr(expr@);
        }
        prepare_simple_expr(self, expr, sql)
    }

    /// Renders a whole nested statement: the statement renders itself, with
    /// this dialect for every function, identifier and value in it.
    pub fn prepare_query_statement(&self, query: &SubQueryStatement, sql: &mut SqlWriter)
        ensures
            final(sql)@ == render_statement(self, query@, old(sql)@),
            binds(final(sql)@, old(sql)@, exprs_values(query@.exprs)),
    {
        proof {
            lemma_bigquery_supports_exprs(query@.exprs);
        }
        query.prepare_statement(self, sql)
    }
}

} // verus!
