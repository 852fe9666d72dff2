//! The functions of the BigQuery dialect and helpers that build calls of them.

use vstd::prelude::*;
use crate::expr::{converts_into, ExprView, SimpleExpr};
use crate::extension::bigquery::DateTimePart;
use crate::func::{Function, FunctionCall};
use crate::types::KeywordView;

verus! {

/// The functions that only the BigQuery dialect names.
#[derive(Debug, Clone, Copy, PartialEq, Eq, Structural)]
pub enum BqFunction {
    // Timestamp functions
    Timestamp,
    TimestampAdd,
    TimestampSub,
    TimestampDiff,
    TimestampTrunc,
    FormatTimestamp,
    ParseTimestamp,
    TimestampSeconds,
    TimestampMillis,
    TimestampMicros,
    UnixSeconds,
    UnixMillis,
    UnixMicros,
    // Mathematical functions
    Greatest,
    // Json functions
    JsonExtractScalar,
}

/// Builders of calls to the functions of the BigQuery dialect.
#[derive(Debug, Clone, Copy)]
pub struct BqFunc;

impl BqFunc {
    /// A call of `TIMESTAMP(expr[, time_zone])`: with the time zone as second
    /// argument when one is given, with `expr` alone otherwise.
    pub fn timestamp<T: Into<SimpleExpr>, U: Into<SimpleExpr>>(
        expr: T,
        tz: Option<U>,
    ) -> (call: FunctionCall)
        ensures
            call.func == Function::BqFunction(BqFunction::Timestamp),
            converts_into(expr, call.args@[0]),
            match tz {
                Some(tz) => call.args@.len() == 2 && converts_into(tz, call.args@[1]),
                None => call.args@.len() == 1,
            },
    {
        match tz {
            Some(tz) => FunctionCall::new(Function::BqFunction(BqFunction::Timestamp)).args(
                vec![expr.into(), tz.into()],
            ),
            None => FunctionCall::new(Function::BqFunction(BqFunction::Timestamp)).arg(expr),
        }
    }

    /// A call of `TIMESTAMP_ADD(ts_expr, date_part)`.
    pub fn timestamp_add<T: Into<SimpleExpr>, U: Into<SimpleExpr>>(
        ts_expr: T,
        date_part: U,
    ) -> (call: FunctionCall)
        ensures
            call.func == Function::BqFunction(BqFunction::TimestampAdd),
            call.args@.len() == 2,
            converts_into(ts_expr, call.args@[0]),
            converts_into(date_part, call.args@[1]),
    {
        FunctionCall::new(Function::BqFunction(BqFunction::TimestampAdd)).args(
            vec![ts_expr.into(), date_part.into()],
        )
    }

    /// A call of `TIMESTAMP_SUB(ts_expr, date_part)`.
    pub fn timestamp_sub<T: Into<SimpleExpr>, U: Into<SimpleExpr>>(
        ts_expr: T,
        date_part: U,
    ) -> (call: FunctionCall)
        ensures
            call.func == Function::BqFunction(BqFunction::TimestampSub),
            call.args@.len() == 2,
            converts_into(ts_expr, call.args@[0]),
            converts_into(date_part, call.args@[1]),
    {
        FunctionCall::new(Function::BqFunction(BqFunction::TimestampSub)).args(
            vec![ts_expr.into(), date_part.into()],
        )
    }

    /// A call of `TIMESTAMP_TRUNC(expr, date_part)`, the unit as a keyword.
    pub fn timestamp_trunc<T: Into<SimpleExpr>>(
        expr: T,
        date_part: DateTimePart,
    ) -> (call: FunctionCall)
        ensures
            call.func == Function::BqFunction(BqFunction::TimestampTrunc),
            call.args@.len() == 2,
            converts_into(expr, call.args@[0]),
            call.args@[1]@ == ExprView::Keyword(KeywordView::Custom(date_part.token())),
    {
        FunctionCall::new(Function::BqFunction(BqFunction::TimestampTrunc)).args(
            vec![expr.into(), date_part.into()],
        )
    }

    /// A call of `TIMESTAMP_MILLIS(expr)`.
    pub fn timestamp_millis<T: Into<SimpleExpr>>(expr: T) -> (call: FunctionCall)
        ensures
            call.func == Function::BqFunction(BqFunction::TimestampMillis),
            call.args@.len() == 1,
            converts_into(expr, call.args@[0]),
    {
        FunctionCall::new(Function::BqFunction(BqFunction::TimestampMillis)).arg(expr)
    }

    /// A call of `GREATEST` with `args` as its arguments, in their order.
    pub fn greatest(args: Vec<SimpleExpr>) -> (call: FunctionCall)
        ensures
            call.func == Function::BqFunction(BqFunction::Greatest),
            call.args == args,
    {
        FunctionCall::new(Function::BqFunction(BqFunction::Greatest)).args(args)
    }

    /// A call of `JSON_EXTRACT_SCALAR(expr, json_path)`.
    pub fn json_extract_scalar<T: Into<SimpleExpr>, U: Into<SimpleExpr>>(
        expr: T,
        json_path: U,
    ) -> (call: FunctionCall)
        ensures
            call.func == Function::BqFunction(BqFunction::JsonExtractScalar),
            call.args@.len() == 2,
            converts_into(expr, call.args@[0]),
            converts_into(json_path, call.args@[1]),
    {
        FunctionCall::new(Function::BqFunction(BqFunction::JsonExtractScalar)).args(
            vec![expr.into(), json_path.into()],
        )
    }
}

} // verus!
