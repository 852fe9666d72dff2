//! A statement nested in an expression.

use vstd::prelude::*;
use crate::backend::query_builder::{prepare_exprs, prepare_iden, QueryBuilder};
use crate::backend::render::{
    binds, exprs_values, lemma_render_statement_binds_in_order, render_statement, supports_exprs,
};
use crate::expr::{clone_exprs, converts_into, exprs_view, ExprView, SimpleExpr};
use crate::types::DynIden;
use crate::value::{values_view, Value};
use crate::writer::{SqlOutput, SqlWriter};

verus! {

/// What a [`SubQueryStatement`] stands for.
pub struct SubQueryView {
    pub exprs: Seq<ExprView>,
    pub from: Option<Seq<char>>,
}

/// A selection nested in an expression: the expressions it yields and the
/// table, if any, that it reads.
#[derive(Debug, PartialEq, Eq)]
pub struct SubQueryStatement {
    pub exprs: Vec<SimpleExpr>,
    pub from: Option<DynIden>,
}

impl View for SubQueryStatement {
    type V = SubQueryView;

    open spec fn view(&self) -> SubQueryView {
        SubQueryView {
            exprs: exprs_view(self.exprs@),
            from: match self.from {
                Some(table) => Some(table@),
                None => None,
            },
        }
    }
}

impl Clone for SubQueryStatement {
    fn clone(&self) -> (copy: SubQueryStatement)
        ensures
            copy@ == self@,
    {
        let from = match &self.from {
            Some(table) => Some(table.clone()),
            None => None,
        };
        SubQueryStatement { exprs: clone_exprs(&self.exprs), from }
    }
}

impl SubQueryStatement {
    /// A selection that yields nothing yet and reads no table.
    pub fn new() -> (query: SubQueryStatement)
        ensures
            query.exprs@ == Seq::<SimpleExpr>::empty(),
            query.from is None,
    {
        SubQueryStatement { exprs: Vec::new(), from: None }
    }

    /// The same selection with one more expression at the end of what it yields.
    pub fn expr<T: Into<SimpleExpr>>(self, expr: T) -> (query: SubQueryStatement)
        ensures
            query.exprs@.len() == self.exprs@.len() + 1,
            query.exprs@.drop_last() == self.exprs@,
            converts_into(expr, query.exprs@.last()),
            query.from == self.from,
    {
        let mut exprs = self.exprs;
        exprs.push(expr.into());
        assert(exprs@.drop_last() =~= self.exprs@);
        SubQueryStatement { exprs, from: self.from }
    }

    /// The same selection, reading `table`.
    pub fn from(self, table: DynIden) -> (query: SubQueryStatement)
        ensures
            query.exprs == self.exprs,
            query.from == Some(table),
    {
        SubQueryStatement { exprs: self.exprs, from: Some(table) }
    }

    /// Renders this statement onto `sql` in the dialect of `q`.
    pub fn prepare_statement<Q: QueryBuilder>(&self, q: &Q, sql: &mut SqlWriter)
        requires
            supports_exprs(q, self@.exprs),
        ensures
            final(sql)@ == render_statement(q, self@, old(sql)@),
            binds(final(sql)@, old(sql)@, exprs_values(self@.exprs)),
        decreases self,
    {
        proof {
            lemma_render_statement_binds_in_order(q, self@, old(sql)@);
        }
        sql.push_str("SELECT ");
        prepare_exprs(q, &self.exprs, sql);
        match &self.from {
            Some(table) => {
                sql.push_str(" FROM ");
                prepare_iden(q, table, sql);
            },
            None => {},
        }
    }

    /// Renders this statement in the dialect of `q`, from nothing: the SQL
    /// text with the placeholders of `q`, and the values bound to them, in
    /// the order of their placeholders.
    pub fn build<Q: QueryBuilder>(&self, q: &Q) -> (built: (String, Vec<Value>))
        requires
            supports_exprs(q, self@.exprs),
        ensures
            built.0@ == render_statement(q, self@, SqlOutput::start(q)).text,
            values_view(built.1@) == render_statement(q, self@, SqlOutput::start(q)).params,
            values_view(built.1@) == exprs_values(self@.exprs),
    {
        let style = q.placeholder();
        let mut sql = SqlWriter::new(style.0, style.1);
        self.prepare_statement(q, &mut sql);
        assert(SqlOutput::start(q).params + exprs_values(self@.exprs) =~= exprs_values(
            self@.exprs,
        ));
        sql.into_parts()
    }
}

} // verus!
