//! What is thrown is an error object, not a literal.

use vstd::prelude::*;
use vstd::string::StringExecFns;
use crate::context::Context;
use crate::context::DiagnosticView;
use crate::syntax::Expr;
use crate::syntax::ThrowStmt;

verus! {

pub struct NoThrowLiteral;

impl NoThrowLiteral {
    pub fn new() -> (r: Box<Self>) {
        Box::new(NoThrowLiteral)
    }

    pub fn code(&self) -> (r: &'static str)
        ensures
            r@ == "no-throw-literal"@,
    {
        "no-throw-literal"
    }
}

/// What a `throw` draws: one diagnostic if a literal is thrown, another if
/// the identifier `undefined` is thrown, nothing otherwise.
pub open spec fn throw_reports(throw_stmt: &ThrowStmt) -> Seq<DiagnosticView> {
    match throw_stmt.arg {
        Expr::Lit(_) => seq![
            DiagnosticView {
                span: throw_stmt.span,
                code: "no-throw-literal"@,
                message: "expected an error object to be thrown"@,
                hint: None,
            },
        ],
        Expr::Ident(name) => if name@ == "undefined"@ {
            seq![
                DiagnosticView {
                    span: throw_stmt.span,
                    code: "no-throw-literal"@,
                    message: "do not throw undefined"@,
                    hint: None,
                },
            ]
        } else {
            Seq::empty()
        },
        _ => Seq::empty(),
    }
}

pub struct NoThrowLiteralVisitor<'c> {
    pub context: &'c mut Context,
}

impl<'c> NoThrowLiteralVisitor<'c> {
    pub fn new(context: &'c mut Context) -> (r: Self)
        ensures
            *r.context == *old(context),
            *final(r.context) == *final(context),
    {
        Self { context }
    }

    pub fn visit_throw_stmt(&mut self, throw_stmt: &ThrowStmt)
        ensures
            final(self).context@ == old(self).context@ + throw_reports(throw_stmt),
            *final(final(self).context) == *final(old(self).context),
    {
        match &throw_stmt.arg {
            Expr::Lit(_) => self.context.add_diagnostic(
                throw_stmt.span,
                "no-throw-literal",
                "expected an error object to be thrown",
            ),
            Expr::Ident(name) => {
                let undefined = String::from_str("undefined");
                if String::eq(name, &undefined) {
                    self.context.add_diagnostic(
                        throw_stmt.span,
                        "no-throw-literal",
                        "do not throw undefined",
                    )
                }
            },
            _ => {},
        }
        assert(self.context@ =~= old(self).context@ + throw_reports(throw_stmt));
    }
}

} // verus!
