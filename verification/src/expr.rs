//! The expression tree that every dialect renders.

use vstd::prelude::*;
use crate::func::{FunctionCall, FunctionCallView};
use crate::query::{SubQueryStatement, SubQueryView};
use crate::types::{DynIden, Keyword, KeywordView};
use crate::value::{Value, ValueView};

verus! {

/// What a [`SimpleExpr`] stands for.
pub enum ExprView {
    Value(ValueView),
    Column(Seq<char>),
    FunctionCall(FunctionCallView),
    Keyword(KeywordView),
    Custom(Seq<char>),
    SubQuery(SubQueryView),
}

/// An expression.
#[derive(Debug, PartialEq, Eq)]
pub enum SimpleExpr {
    /// A literal, bound as a parameter.
    Value(Value),
    /// A column, written as a quoted identifier.
    Column(DynIden),
    /// A call of a function.
    FunctionCall(FunctionCall),
    /// A bare token.
    Keyword(Keyword),
    /// Text of the dialect, written as it is. Nothing checks it: whoever
    /// builds it answers for what it says.
    Custom(String),
    /// A nested statement, written in parentheses.
    SubQuery(Box<SubQueryStatement>),
}

/// What a sequence of expressions stands for, in the same order.
pub open spec fn exprs_view(exprs: Seq<SimpleExpr>) -> Seq<ExprView>
    decreases exprs,
{
    Seq::new(
        exprs.len(),
        |i: int|
            if 0 <= i < exprs.len() {
                expr_view(exprs[i])
            } else {
                arbitrary()
            },
    )
}

/// What an expression stands for.
pub open spec fn expr_view(expr: SimpleExpr) -> ExprView
    decreases expr,
{
    match expr {
        SimpleExpr::Value(value) => ExprView::Value(value@),
        SimpleExpr::Column(name) => ExprView::Column(name@),
        SimpleExpr::FunctionCall(call) => ExprView::FunctionCall(
            FunctionCallView { func: call.func, args: exprs_view(call.args@) },
        ),
        SimpleExpr::Keyword(keyword) => ExprView::Keyword(keyword@),
        SimpleExpr::Custom(text) => ExprView::Custom(text@),
        SimpleExpr::SubQuery(query) => ExprView::SubQuery(
            SubQueryView {
                exprs: exprs_view(query.exprs@),
                from: match query.from {
                    Some(table) => Some(table@),
                    None => None,
                },
            },
        ),
    }
}

impl View for SimpleExpr {
    type V = ExprView;

    open spec fn view(&self) -> ExprView {
        expr_view(*self)
    }
}

/// A duplicate of `expr` that stands for the same expression.
pub(crate) fn clone_expr(expr: &SimpleExpr) -> (copy: SimpleExpr)
    ensures
        copy@ == expr@,
    decreases expr,
{
    match expr {
        SimpleExpr::Value(value) => SimpleExpr::Value(value.clone()),
        SimpleExpr::Column(name) => SimpleExpr::Column(name.clone()),
        SimpleExpr::FunctionCall(call) => SimpleExpr::FunctionCall(
            FunctionCall { func: call.func, args: clone_exprs(&call.args) },
        ),
        SimpleExpr::Keyword(keyword) => SimpleExpr::Keyword(keyword.clone()),
        SimpleExpr::Custom(text) => SimpleExpr::Custom(text.clone()),
        SimpleExpr::SubQuery(query) => {
            let from = match &query.from {
                Some(table) => Some(table.clone()),
                None => None,
            };
            SimpleExpr::SubQuery(
                Box::new(SubQueryStatement { exprs: clone_exprs(&query.exprs), from }),
            )
        },
    }
}

/// Duplicates of `exprs`, in the same order.
pub(crate) fn clone_exprs(exprs: &Vec<SimpleExpr>) -> (copy: Vec<SimpleExpr>)
    ensures
        exprs_view(copy@) == exprs_view(exprs@),
    decreases exprs,
{
    let mut copy: Vec<SimpleExpr> = Vec::new();
    let mut i: usize = 0;
    while i < exprs.len()
        invariant
            i <= exprs.len(),
            copy@.len() == i,
            forall|j: int| 0 <= j < i ==> copy@[j]@ == exprs@[j]@,
        decreases exprs.len() - i,
    {
        copy.push(clone_expr(&exprs[i]));
        i += 1;
    }
    assert(exprs_view(copy@) =~= exprs_view(exprs@));
    copy
}

impl Clone for SimpleExpr {
    fn clone(&self) -> (copy: SimpleExpr)
        ensures
            copy@ == self@,
    {
        clone_expr(self)
    }
}

/// The conversion of a value into its own type, which the standard library
/// gives to every type: `From::from` hands its argument back unchanged.
pub assume_specification<X>[ <X as core::convert::From<X>>::from ](x: X) -> (same: X)
    ensures
        same == x,
;

/// `e` is what `t` becomes when it is converted into an expression.
pub open spec fn converts_into<T: Into<SimpleExpr>>(t: T, e: SimpleExpr) -> bool {
    call_ensures(<T as Into<SimpleExpr>>::into, (t,), e)
}

impl From<Value> for SimpleExpr {
    /// The value as a literal.
    fn from(value: Value) -> (expr: SimpleExpr)
        ensures
            expr == SimpleExpr::Value(value),
    {
        SimpleExpr::Value(value)
    }
}

impl vstd::std_specs::convert::FromSpecImpl<Value> for SimpleExpr {
    open spec fn obeys_from_spec() -> bool {
        true
    }

    open spec fn from_spec(value: Value) -> SimpleExpr {
        SimpleExpr::Value(value)
    }
}

impl From<i64> for SimpleExpr {
    /// The integer as a literal.
    fn from(value: i64) -> (expr: SimpleExpr)
        ensures
            expr == SimpleExpr::Value(Value::Int(value)),
    {
        SimpleExpr::Value(Value::Int(value))
    }
}

impl vstd::std_specs::convert::FromSpecImpl<i64> for SimpleExpr {
    open spec fn obeys_from_spec() -> bool {
        true
    }

    open spec fn from_spec(value: i64) -> SimpleExpr {
        SimpleExpr::Value(Value::Int(value))
    }
}

impl From<bool> for SimpleExpr {
    /// The truth value as a literal.
    fn from(value: bool) -> (expr: SimpleExpr)
        ensures
            expr == SimpleExpr::Value(Value::Bool(value)),
    {
        SimpleExpr::Value(Value::Bool(value))
    }
}

impl vstd::std_specs::convert::FromSpecImpl<bool> for SimpleExpr {
    open spec fn obeys_from_spec() -> bool {
        true
    }

    open spec fn from_spec(value: bool) -> SimpleExpr {
        SimpleExpr::Value(Value::Bool(value))
    }
}

impl<'a> From<&'a str> for SimpleExpr {
    /// The text as a string literal.
    fn from(text: &'a str) -> (expr: SimpleExpr)
        ensures
            expr@ == ExprView::Value(ValueView::Text(text@)),
    {
        SimpleExpr::Value(Value::String(text.to_owned()))
    }
}

/// The expression made from a text holds a string of its own, which no
/// specification can name: the conversion is stated in the contract of
/// `from`, by what its result stands for.
impl<'a> vstd::std_specs::convert::FromSpecImpl<&'a str> for SimpleExpr {
    open spec fn obeys_from_spec() -> bool {
        false
    }

    open spec fn from_spec(text: &'a str) -> SimpleExpr {
        arbitrary()
    }
}

impl From<FunctionCall> for SimpleExpr {
    /// The call as an expression.
    fn from(call: FunctionCall) -> (expr: SimpleExpr)
        ensures
            expr == SimpleExpr::FunctionCall(call),
    {
        SimpleExpr::FunctionCall(call)
    }
}

impl vstd::std_specs::convert::FromSpecImpl<FunctionCall> for SimpleExpr {
    open spec fn obeys_from_spec() -> bool {
        true
    }

    open spec fn from_spec(call: FunctionCall) -> SimpleExpr {
        SimpleExpr::FunctionCall(call)
    }
}

impl From<SubQueryStatement> for SimpleExpr {
    /// The statement as a nested expression.
    fn from(query: SubQueryStatement) -> (expr: SimpleExpr)
        ensures
            expr == SimpleExpr::SubQuery(Box::new(query)),
    {
        SimpleExpr::SubQuery(Box::new(query))
    }
}

impl vstd::std_specs::convert::FromSpecImpl<SubQueryStatement> for SimpleExpr {
    open spec fn obeys_from_spec() -> bool {
        true
    }

    open spec fn from_spec(query: SubQueryStatement) -> SimpleExpr {
        SimpleExpr::SubQuery(Box::new(query))
    }
}

} // verus!
