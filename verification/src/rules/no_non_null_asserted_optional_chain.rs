//! No non-null assertion on an optional chain.

use vstd::prelude::*;
use crate::context::Context;
use crate::context::DiagnosticView;
use crate::context::Span;
use crate::syntax::Expr;
use crate::syntax::ExprOrSuper;
use crate::syntax::TsNonNullExpr;

verus! {

pub struct NoNonNullAssertedOptionalChain;

impl NoNonNullAssertedOptionalChain {
    pub fn new() -> (r: Box<Self>) {
        Box::new(NoNonNullAssertedOptionalChain)
    }

    pub fn code(&self) -> (r: &'static str)
        ensures
            r@ == "no-non-null-asserted-optional-chain"@,
    {
        "no-non-null-asserted-optional-chain"
    }
}

/// The diagnostic of this rule at `span`.
pub open spec fn chain_report(span: Span) -> DiagnosticView {
    DiagnosticView {
        span,
        code: "no-non-null-asserted-optional-chain"@,
        message: "Optional chain expressions can return undefined by design - using a non-null assertion is unsafe and wrong."@,
        hint: None,
    }
}

/// What one expression draws when it is looked at under an assertion at
/// `span`: one diagnostic if it is an optional chain.
pub open spec fn nested_reports(span: Span, expr: &Expr) -> Seq<DiagnosticView> {
    if expr is OptChain {
        seq![chain_report(span)]
    } else {
        Seq::empty()
    }
}

pub open spec fn operand_reports(span: Span, operand: &ExprOrSuper) -> Seq<DiagnosticView> {
    match operand {
        ExprOrSuper::Expr(expr) => nested_reports(span, &**expr),
        ExprOrSuper::Super => Seq::empty(),
    }
}

/// What the expression directly inside the asserted one draws: the object
/// of a member access, the callee of a call, or what stands in parentheses.
pub open spec fn inner_reports(span: Span, expr: &Expr) -> Seq<DiagnosticView> {
    match expr {
        Expr::Member(obj) => operand_reports(span, obj),
        Expr::Call(callee) => operand_reports(span, callee),
        Expr::Paren(inner) => nested_reports(span, &**inner),
        _ => Seq::empty(),
    }
}

/// What a non-null assertion draws: first for the expression directly inside
/// the asserted one, then for the asserted expression itself.
pub open spec fn non_null_reports(ts_non_null_expr: &TsNonNullExpr) -> Seq<DiagnosticView> {
    inner_reports(ts_non_null_expr.span, &ts_non_null_expr.expr) + nested_reports(
        ts_non_null_expr.span,
        &ts_non_null_expr.expr,
    )
}

pub struct NoNonNullAssertedOptionalChainVisitor<'c> {
    pub context: &'c mut Context,
}

impl<'c> NoNonNullAssertedOptionalChainVisitor<'c> {
    pub fn new(context: &'c mut Context) -> (r: Self)
        ensures
            *r.context == *old(context),
            *final(r.context) == *final(context),
    {
        Self { context }
    }

    pub fn add_diagnostic(&mut self, span: Span)
        ensures
            final(self).context@ == old(self).context@.push(chain_report(span)),
            *final(final(self).context) == *final(old(self).context),
    {
        self.context.add_diagnostic(
            span,
            "no-non-null-asserted-optional-chain",
            "Optional chain expressions can return undefined by design - using a non-null assertion is unsafe and wrong.",
        );
    }

    pub fn check_expr_for_nested_optional_assert(&mut self, span: Span, expr: &Expr)
        ensures
            final(self).context@ == old(self).context@ + nested_reports(span, expr),
            *final(final(self).context) == *final(old(self).context),
    {
        if let Expr::OptChain = expr {
            self.add_diagnostic(span)
        }
        assert(self.context@ =~= old(self).context@ + nested_reports(span, expr));
    }

    fn check_operand(&mut self, span: Span, operand: &ExprOrSuper)
        ensures
            final(self).context@ == old(self).context@ + operand_reports(span, operand),
            *final(final(self).context) == *final(old(self).context),
    {
        if let ExprOrSuper::Expr(expr) = operand {
            self.check_expr_for_nested_optional_assert(span, expr);
        }
        assert(self.context@ =~= old(self).context@ + operand_reports(span, operand));
    }

    pub fn visit_ts_non_null_expr(&mut self, ts_non_null_expr: &TsNonNullExpr)
        ensures
            final(self).context@ == old(self).context@ + non_null_reports(ts_non_null_expr),
            *final(final(self).context) == *final(old(self).context),
    {
        match &ts_non_null_expr.expr {
            Expr::Member(obj) => self.check_operand(ts_non_null_expr.span, obj),
            Expr::Call(callee) => self.check_operand(ts_non_null_expr.span, callee),
            Expr::Paren(inner) => self.check_expr_for_nested_optional_assert(
                ts_non_null_expr.span,
                inner,
            ),
            _ => {},
        };
        assert(self.context@ =~= old(self).context@ + inner_reports(
            ts_non_null_expr.span,
            &ts_non_null_expr.expr,
        ));
        self.check_expr_for_nested_optional_assert(ts_non_null_expr.span, &ts_non_null_expr.expr);
        assert(self.context@ =~= old(self).context@ + non_null_reports(ts_non_null_expr));
    }
}

/// An assertion never draws more than one diagnostic, and draws one exactly
/// if the asserted expression is an optional chain or directly holds one.
pub proof fn lemma_at_most_one_report(ts_non_null_expr: &TsNonNullExpr)
    ensures
        non_null_reports(ts_non_null_expr).len() <= 1,
        non_null_reports(ts_non_null_expr).len() == 1 ==> non_null_reports(ts_non_null_expr)[0]
            == chain_report(ts_non_null_expr.span),
{
}

} // verus!
