//! Functions and calls of them.

use vstd::prelude::*;
use crate::expr::{clone_exprs, converts_into, exprs_view, ExprView, SimpleExpr};
use crate::extension::bigquery::BqFunction;

verus! {

/// The functions that every dialect names alike.
#[derive(Debug, Clone, Copy, PartialEq, Eq, Structural)]
pub enum CommonFunction {
    Max,
    Min,
    Sum,
    Avg,
    Abs,
    Count,
    Coalesce,
    CharLength,
    Lower,
    Upper,
    Round,
}

/// The identity of a function: one of the common set, or one that belongs to
/// a single dialect.
#[derive(Debug, Clone, Copy, PartialEq, Eq, Structural)]
pub enum Function {
    Common(CommonFunction),
    BqFunction(BqFunction),
}

/// What a [`FunctionCall`] stands for.
pub struct FunctionCallView {
    pub func: Function,
    pub args: Seq<ExprView>,
}

/// A function with its arguments in order.
#[derive(Debug, PartialEq, Eq)]
pub struct FunctionCall {
    pub func: Function,
    pub args: Vec<SimpleExpr>,
}

impl View for FunctionCall {
    type V = FunctionCallView;

    open spec fn view(&self) -> FunctionCallView {
        FunctionCallView { func: self.func, args: exprs_view(self.args@) }
    }
}

impl Clone for FunctionCall {
    fn clone(&self) -> (copy: FunctionCall)
        ensures
            copy@ == self@,
    {
        FunctionCall { func: self.func, args: clone_exprs(&self.args) }
    }
}

impl FunctionCall {
    /// A call of `func` without arguments.
    pub fn new(func: Function) -> (call: FunctionCall)
        ensures
            call.func == func,
            call.args@ == Seq::<SimpleExpr>::empty(),
    {
        FunctionCall { func, args: Vec::new() }
    }

    /// The same call with `arg` appended to its arguments.
    pub fn arg<T: Into<SimpleExpr>>(self, arg: T) -> (call: FunctionCall)
        ensures
            call.func == self.func,
            call.args@.len() == self.args@.len() + 1,
            call.args@.drop_last() == self.args@,
            converts_into(arg, call.args@.last()),
    {
        let mut args = self.args;
        args.push(arg.into());
        assert(args@.drop_last() =~= self.args@);
        FunctionCall { func: self.func, args }
    }

    /// The same call with `args` in place of its arguments.
    pub fn args(self, args: Vec<SimpleExpr>) -> (call: FunctionCall)
        ensures
            call.func == self.func,
            call.args == args,
    {
        FunctionCall { func: self.func, args }
    }

    pub fn get_func(&self) -> (func: &Function)
        ensures
            *func == self.func,
    {
        &self.func
    }

    pub fn get_args(&self) -> (args: &Vec<SimpleExpr>)
        ensures
            *args == self.args,
    {
        &self.args
    }
}

} // verus!
