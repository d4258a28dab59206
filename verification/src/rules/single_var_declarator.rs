//! One declarator per variable declaration.

use vstd::prelude::*;
use crate::context::Context;
use crate::context::DiagnosticView;
use crate::syntax::VarDecl;

verus! {

pub struct SingleVarDeclarator;

impl SingleVarDeclarator {
    pub fn new() -> (r: Box<Self>) {
        Box::new(SingleVarDeclarator)
    }

    pub fn code(&self) -> (r: &'static str)
        ensures
            r@ == "single-var-declarator"@,
    {
        "single-var-declarator"
    }
}

/// What a variable declaration draws: one diagnostic at its place if it has
/// more than one declarator, nothing otherwise.
pub open spec fn var_decl_reports(var_decl: &VarDecl) -> Seq<DiagnosticView> {
    if var_decl.decls@.len() > 1 {
        seq![
            DiagnosticView {
                span: var_decl.span,
                code: "single-var-declarator"@,
                message: "Multiple variable declarators are not allowed"@,
                hint: None,
            },
        ]
    } else {
        Seq::empty()
    }
}

pub struct SingleVarDeclaratorVisitor<'c> {
    pub context: &'c mut Context,
}

impl<'c> SingleVarDeclaratorVisitor<'c> {
    pub fn new(context: &'c mut Context) -> (r: Self)
        ensures
            *r.context == *old(context),
            *final(r.context) == *final(context),
    {
        Self { context }
    }

    pub fn visit_var_decl(&mut self, var_decl: &VarDecl)
        ensures
            final(self).context@ == old(self).context@ + var_decl_reports(var_decl),
            *final(final(self).context) == *final(old(self).context),
    {
        if var_decl.decls.len() > 1 {
            self.context.add_diagnostic(
                var_decl.span,
                "single-var-declarator",
                "Multiple variable declarators are not allowed",
            );
        }
        assert(self.context@ =~= old(self).context@ + var_decl_reports(var_decl));
    }
}

} // verus!
