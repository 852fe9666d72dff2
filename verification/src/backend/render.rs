//! What rendering means: the output that a dialect produces for an
//! expression, as a function of the expression and of the output so far, and
//! what holds of it in every dialect.

use vstd::prelude::*;
use crate::backend::query_builder::QueryBuilder;
use crate::expr::ExprView;
use crate::func::{Function, FunctionCallView};
use crate::query::SubQueryView;
use crate::text::quoted;
use crate::types::{keyword_text, KeywordView};
use crate::value::ValueView;
use crate::writer::{
    lemma_extends_transitive, lemma_holes_in_order, lemma_push_param, lemma_push_text, SqlOutput,
};

verus! {

/// Whether `q` has a name for every function called in `expr`.
pub open spec fn supports_expr<Q: QueryBuilder>(q: &Q, expr: ExprView) -> bool
    decreases expr,
{
    match expr {
        ExprView::FunctionCall(call) => q.supports(call.func) && supports_exprs(q, call.args),
        ExprView::SubQuery(query) => supports_exprs(q, query.exprs),
        _ => true,
    }
}

/// Whether `q` has a name for every function called in `exprs`.
pub open spec fn supports_exprs<Q: QueryBuilder>(q: &Q, exprs: Seq<ExprView>) -> bool
    decreases exprs,
{
    forall|i: int| 0 <= i < exprs.len() ==> supports_expr(q, #[trigger] exprs[i])
}

/// The output after `q` has rendered `expr` onto `out`.
pub open spec fn render_expr<Q: QueryBuilder>(q: &Q, expr: ExprView, out: SqlOutput) -> SqlOutput
    decreases expr,
{
    match expr {
        ExprView::Value(value) => out.push_param(value),
        ExprView::Column(name) => out.push_text(quoted(name, q.quote_char())),
        ExprView::FunctionCall(call) => render_exprs(
            q,
            call.args,
            out.push_text(q.function_name(call.func)).push_text("("@),
        ).push_text(")"@),
        ExprView::Keyword(keyword) => out.push_text(keyword_text(keyword)),
        ExprView::Custom(text) => out.push_text(text),
        ExprView::SubQuery(query) => render_statement(q, query, out.push_text("("@)).push_text(
            ")"@,
        ),
    }
}

/// The output after `q` has rendered `exprs` onto `out`, in order, with a
/// comma and a space between one and the next.
pub open spec fn render_exprs<Q: QueryBuilder>(
    q: &Q,
    exprs: Seq<ExprView>,
    out: SqlOutput,
) -> SqlOutput
    decreases exprs,
{
    if exprs.len() == 0 {
        out
    } else if exprs.len() == 1 {
        render_expr(q, exprs.last(), out)
    } else {
        render_expr(q, exprs.last(), render_exprs(q, exprs.drop_last(), out).push_text(", "@))
    }
}

/// The output after `q` has rendered the statement `query` onto `out`.
pub open spec fn render_statement<Q: QueryBuilder>(
    q: &Q,
    query: SubQueryView,
    out: SqlOutput,
) -> SqlOutput
    decreases query,
{
    let selected = render_exprs(q, query.exprs, out.push_text("SELECT "@));
    match query.from {
        Some(table) => selected.push_text(" FROM "@).push_text(quoted(table, q.quote_char())),
        None => selected,
    }
}

/// The literals of `expr`, as they are met from left to right.
pub open spec fn expr_values(expr: ExprView) -> Seq<ValueView>
    decreases expr,
{
    match expr {
        ExprView::Value(value) => seq![value],
        ExprView::FunctionCall(call) => exprs_values(call.args),
        ExprView::SubQuery(query) => exprs_values(query.exprs),
        _ => Seq::empty(),
    }
}

/// The literals of `exprs`, as they are met from left to right.
pub open spec fn exprs_values(exprs: Seq<ExprView>) -> Seq<ValueView>
    decreases exprs,
{
    if exprs.len() == 0 {
        Seq::empty()
    } else {
        exprs_values(exprs.drop_last()) + expr_values(exprs.last())
    }
}

/// `after` continues `before` and has bound exactly `bound` since, in that
/// order; if placeholders and values corresponded in `before`, they do in
/// `after`.
pub open spec fn binds(after: SqlOutput, before: SqlOutput, bound: Seq<ValueView>) -> bool {
    &&& after.extends(before)
    &&& after.params == before.params + bound
    &&& before.wf() ==> after.wf()
}

proof fn lemma_binds_text(out: SqlOutput, text: Seq<char>)
    ensures
        binds(out.push_text(text), out, Seq::empty()),
{
    lemma_push_text(out, text);
    assert(out.params =~= out.params + Seq::<ValueView>::empty());
}

proof fn lemma_binds_then(
    last: SqlOutput,
    middle: SqlOutput,
    first: SqlOutput,
    before: Seq<ValueView>,
    after: Seq<ValueView>,
)
    requires
        binds(middle, first, before),
        binds(last, middle, after),
    ensures
        binds(last, first, before + after),
{
    lemma_extends_transitive(last, middle, first);
    assert(last.params =~= first.params + (before + after));
}

/// Rendering an expression binds its literals in the order in which they
/// stand in it, after the values bound before, and writes one placeholder
/// for each, in the same order: where the n-th placeholder of the text
/// belonged to the n-th value before, it does so afterwards. Nothing that
/// was written or bound before is changed.
pub proof fn lemma_render_expr_binds_in_order<Q: QueryBuilder>(
    q: &Q,
    expr: ExprView,
    out: SqlOutput,
)
    ensures
        binds(render_expr(q, expr, out), out, expr_values(expr)),
    decreases expr,
{
    match expr {
        ExprView::Value(value) => {
            lemma_push_param(out, value);
        },
        ExprView::Column(name) => {
            lemma_binds_text(out, quoted(name, q.quote_char()));
        },
        ExprView::FunctionCall(call) => {
            let named = out.push_text(q.function_name(call.func));
            let opened = named.push_text("("@);
            let listed = render_exprs(q, call.args, opened);
            let closed = listed.push_text(")"@);
            let none = Seq::<ValueView>::empty();
            lemma_binds_text(out, q.function_name(call.func));
            lemma_binds_text(named, "("@);
            lemma_binds_then(opened, named, out, none, none);
            lemma_render_exprs_binds_in_order(q, call.args, opened);
            lemma_binds_then(listed, opened, out, none + none, exprs_values(call.args));
            lemma_binds_text(listed, ")"@);
            lemma_binds_then(closed, listed, out, none + none + exprs_values(call.args), none);
            assert(none + none + exprs_values(call.args) + none =~= exprs_values(call.args));
        },
        ExprView::Keyword(keyword) => {
            lemma_binds_text(out, keyword_text(keyword));
        },
        ExprView::Custom(text) => {
            lemma_binds_text(out, text);
        },
        ExprView::SubQuery(query) => {
            let opened = out.push_text("("@);
            let stated = render_statement(q, query, opened);
            let closed = stated.push_text(")"@);
            let none = Seq::<ValueView>::empty();
            lemma_binds_text(out, "("@);
            lemma_render_statement_binds_in_order(q, query, opened);
            lemma_binds_then(stated, opened, out, none, exprs_values(query.exprs));
            lemma_binds_text(stated, ")"@);
            lemma_binds_then(closed, stated, out, none + exprs_values(query.exprs), none);
            assert(none + exprs_values(query.exprs) + none =~= exprs_values(query.exprs));
        },
    }
}

/// Rendering a list of expressions binds the literals of all of them, from
/// the first expression to the last, and keeps placeholders and values in
/// correspondence.
pub proof fn lemma_render_exprs_binds_in_order<Q: QueryBuilder>(
    q: &Q,
    exprs: Seq<ExprView>,
    out: SqlOutput,
)
    ensures
        binds(render_exprs(q, exprs, out), out, exprs_values(exprs)),
    decreases exprs,
{
    let none = Seq::<ValueView>::empty();
    if exprs.len() == 0 {
        lemma_binds_text(out, Seq::empty());
        assert(out.push_text(Seq::empty()) =~= out) by {
            assert(out.text + Seq::<char>::empty() =~= out.text);
        }
    } else if exprs.len() == 1 {
        lemma_render_expr_binds_in_order(q, exprs.last(), out);
        assert(exprs_values(exprs.drop_last()) =~= none);
        assert(exprs_values(exprs) =~= expr_values(exprs.last()));
    } else {
        let init = render_exprs(q, exprs.drop_last(), out);
        let separated = init.push_text(", "@);
        let all = render_expr(q, exprs.last(), separated);
        lemma_render_exprs_binds_in_order(q, exprs.drop_last(), out);
        lemma_binds_text(init, ", "@);
        lemma_binds_then(separated, init, out, exprs_values(exprs.drop_last()), none);
        lemma_render_expr_binds_in_order(q, exprs.last(), separated);
        lemma_binds_then(
            all,
            separated,
            out,
            exprs_values(exprs.drop_last()) + none,
            expr_values(exprs.last()),
        );
        assert(exprs_values(exprs.drop_last()) + none + expr_values(exprs.last()) =~= exprs_values(
            exprs,
        ));
    }
}

/// Rendering a statement binds the literals of the expressions it yields,
/// in their order, and keeps placeholders and values in correspondence.
pub proof fn lemma_render_statement_binds_in_order<Q: QueryBuilder>(
    q: &Q,
    query: SubQueryView,
    out: SqlOutput,
)
    ensures
        binds(render_statement(q, query, out), out, exprs_values(query.exprs)),
    decreases query,
{
    let none = Seq::<ValueView>::empty();
    let started = out.push_text("SELECT "@);
    let selected = render_exprs(q, query.exprs, started);
    lemma_binds_text(out, "SELECT "@);
    lemma_render_exprs_binds_in_order(q, query.exprs, started);
    lemma_binds_then(selected, started, out, none, exprs_values(query.exprs));
    assert(none + exprs_values(query.exprs) =~= exprs_values(query.exprs));
    match query.from {
        Some(table) => {
            let reading = selected.push_text(" FROM "@);
            let named = reading.push_text(quoted(table, q.quote_char()));
            lemma_binds_text(selected, " FROM "@);
            lemma_binds_then(reading, selected, out, exprs_values(query.exprs), none);
            lemma_binds_text(reading, quoted(table, q.quote_char()));
            lemma_binds_then(named, reading, out, exprs_values(query.exprs) + none, none);
            assert(exprs_values(query.exprs) + none + none =~= exprs_values(query.exprs));
        },
        None => {},
    }
}

/// Rendered from nothing, an expression yields its literals as the values,
/// in the order in which they stand in it, and a text with one placeholder
/// for each of them: the placeholder of the n-th value stands in the text
/// where the n-th hole says, and it ends before that of any later value
/// begins.
pub proof fn lemma_placeholders_match_values<Q: QueryBuilder>(
    q: &Q,
    expr: ExprView,
    placeholder: Seq<char>,
    numbered: bool,
)
    ensures
        ({
            let out = render_expr(q, expr, SqlOutput::empty(placeholder, numbered));
            &&& out.params == expr_values(expr)
            &&& out.holes.len() == expr_values(expr).len()
            &&& forall|n: int|
                0 <= n < out.holes.len() ==> 0 <= #[trigger] out.holes[n] && out.holes[n]
                    + out.mark(n + 1).len() <= out.text.len() && out.text.subrange(
                    out.holes[n],
                    out.holes[n] + out.mark(n + 1).len(),
                ) == out.mark(n + 1)
            &&& forall|m: int, n: int|
                0 <= m < n < out.holes.len() ==> #[trigger] out.holes[m] + out.mark(m + 1).len()
                    <= #[trigger] out.holes[n]
        }),
{
    let start = SqlOutput::empty(placeholder, numbered);
    let out = render_expr(q, expr, start);
    lemma_render_expr_binds_in_order(q, expr, start);
    assert(out.params =~= expr_values(expr));
    assert forall|n: int| 0 <= n < out.holes.len() implies 0 <= #[trigger] out.holes[n]
        && out.holes[n] + out.mark(n + 1).len() <= out.text.len() && out.text.subrange(
        out.holes[n],
        out.holes[n] + out.mark(n + 1).len(),
    ) == out.mark(n + 1) by {
        assert(out.hole_ok(n));
    }
    assert forall|m: int, n: int| 0 <= m < n < out.holes.len() implies #[trigger] out.holes[m]
        + out.mark(m + 1).len() <= #[trigger] out.holes[n] by {
        lemma_holes_in_order(out, m, n);
    }
}

/// A keyword renders as its own text and nothing else: whatever was written
/// before, and however often it is rendered, the same text is appended, in
/// every dialect, and no value is bound.
pub proof fn lemma_keyword_renders_same_text<Q: QueryBuilder>(
    q: &Q,
    keyword: KeywordView,
    first: SqlOutput,
    second: SqlOutput,
)
    ensures
        render_expr(q, ExprView::Keyword(keyword), first) == first.push_text(
            keyword_text(keyword),
        ),
        render_expr(q, ExprView::Keyword(keyword), second) == second.push_text(
            keyword_text(keyword),
        ),
        render_expr(q, ExprView::Keyword(keyword), first).text.skip(first.text.len() as int)
            == render_expr(q, ExprView::Keyword(keyword), second).text.skip(
            second.text.len() as int,
        ),
{
    let text = keyword_text(keyword);
    assert((first.text + text).skip(first.text.len() as int) =~= text);
    assert((second.text + text).skip(second.text.len() as int) =~= text);
}

/// Text of the dialect renders as it is: the text written is exactly the
/// text given, with nothing added around it or changed in it, and no value
/// is bound.
pub proof fn lemma_custom_renders_verbatim<Q: QueryBuilder>(
    q: &Q,
    text: Seq<char>,
    out: SqlOutput,
)
    ensures
        render_expr(q, ExprView::Custom(text), out) == out.push_text(text),
        render_expr(q, ExprView::Custom(text), out).text == out.text + text,
        render_expr(q, ExprView::Custom(text), out).text.skip(out.text.len() as int) == text,
        render_expr(q, ExprView::Custom(text), out).params == out.params,
        render_expr(q, ExprView::Custom(text), out).holes == out.holes,
{
    assert((out.text + text).skip(out.text.len() as int) =~= text);
}

/// A call renders as the name that the dialect has for the function, an
/// opening parenthesis, the arguments and a closing parenthesis: the text
/// written begins with exactly that name, and a call without arguments is
/// the name and an empty pair of parentheses.
pub proof fn lemma_call_renders_name<Q: QueryBuilder>(
    q: &Q,
    function: Function,
    args: Seq<ExprView>,
    out: SqlOutput,
)
    ensures
        (out.text + q.function_name(function) + "("@).is_prefix_of(
            render_expr(
                q,
                ExprView::FunctionCall(FunctionCallView { func: function, args }),
                out,
            ).text,
        ),
        args.len() == 0 ==> render_expr(
            q,
            ExprView::FunctionCall(FunctionCallView { func: function, args }),
            out,
        ) == out.push_text(q.function_name(function) + "()"@),
{
    let opened = out.push_text(q.function_name(function)).push_text("("@);
    let listed = render_exprs(q, args, opened);
    lemma_render_exprs_binds_in_order(q, args, opened);
    lemma_binds_text(listed, ")"@);
    lemma_extends_transitive(listed.push_text(")"@), listed, opened);
    assert(opened.text =~= out.text + q.function_name(function) + "("@);
    if args.len() == 0 {
        reveal_strlit("(");
        reveal_strlit(")");
        reveal_strlit("()");
        assert(out.text + q.function_name(function) + "("@ + ")"@ =~= out.text + (
        q.function_name(function) + "()"@));
    }
}

} // verus!
