//! Every function states its return type.

use vstd::prelude::*;
use crate::context::Context;
use crate::context::DiagnosticView;
use crate::syntax::Function;

verus! {

pub struct ExplicitFunctionReturnType;

impl ExplicitFunctionReturnType {
    pub fn new() -> (r: Box<Self>) {
        Box::new(ExplicitFunctionReturnType)
    }

    pub fn code(&self) -> (r: &'static str)
        ensures
            r@ == "explicit-function-return-type"@,
    {
        "explicit-function-return-type"
    }
}

/// What a function draws: one diagnostic at its place if it has no return
/// type, nothing if it has one.
pub open spec fn function_reports(function: &Function) -> Seq<DiagnosticView> {
    if function.has_return_type {
        Seq::empty()
    } else {
        seq![
            DiagnosticView {
                span: function.span,
                code: "explicit-function-return-type"@,
                message: "Missing return type on function"@,
                hint: Some("Add a return type to the function signature"@),
            },
        ]
    }
}

pub struct ExplicitFunctionReturnTypeVisitor<'c> {
    pub context: &'c mut Context,
}

impl<'c> ExplicitFunctionReturnTypeVisitor<'c> {
    pub fn new(context: &'c mut Context) -> (r: Self)
        ensures
            *r.context == *old(context),
            *final(r.context) == *final(context),
    {
        Self { context }
    }

    pub fn visit_function(&mut self, function: &Function)
        ensures
            final(self).context@ == old(self).context@ + function_reports(function),
            *final(final(self).context) == *final(old(self).context),
    {
        if !function.has_return_type {
            self.context.add_diagnostic_with_hint(
                function.span,
                "explicit-function-return-type",
                "Missing return type on function",
                "Add a return type to the function signature",
            );
        }
        assert(self.context@ =~= old(self).context@ + function_reports(function));
    }
}

} // verus!
