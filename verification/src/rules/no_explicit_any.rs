//! The type `any` is not written out.

use vstd::prelude::*;
use crate::context::Context;
use crate::context::DiagnosticView;
use crate::syntax::TsKeywordType;
use crate::syntax::TsKeywordTypeKind;

verus! {

pub struct NoExplicitAny;

pub const CODE: &'static str = "no-explicit-any";

pub const MESSAGE: &'static str = "`any` type is not allowed";

pub const HINT: &'static str = "Use a specific type other than `any`";

impl NoExplicitAny {
    pub fn new() -> (r: Box<Self>) {
        Box::new(NoExplicitAny)
    }

    pub fn tags(&self) -> (r: &'static [&'static str])
        ensures
            r@ == seq!["recommended"],
    {
        &["recommended"]
    }

    pub fn code(&self) -> (r: &'static str)
        ensures
            r@ == "no-explicit-any"@,
    {
        CODE
    }
}

/// What a keyword type draws: one diagnostic at its place if it is `any`,
/// nothing otherwise.
pub open spec fn keyword_reports(ts_keyword_type: &TsKeywordType) -> Seq<DiagnosticView> {
    if ts_keyword_type.kind == TsKeywordTypeKind::TsAnyKeyword {
        seq![
            DiagnosticView {
                span: ts_keyword_type.span,
                code: "no-explicit-any"@,
                message: "`any` type is not allowed"@,
                hint: Some("Use a specific type other than `any`"@),
            },
        ]
    } else {
        Seq::empty()
    }
}

pub struct NoExplicitAnyVisitor<'c> {
    pub context: &'c mut Context,
}

impl<'c> NoExplicitAnyVisitor<'c> {
    pub fn new(context: &'c mut Context) -> (r: Self)
        ensures
            *r.context == *old(context),
            *final(r.context) == *final(context),
    {
        Self { context }
    }

    pub fn visit_ts_keyword_type(&mut self, ts_keyword_type: &TsKeywordType)
        ensures
            final(self).context@ == old(self).context@ + keyword_reports(ts_keyword_type),
            *final(final(self).context) == *final(old(self).context),
    {
        if ts_keyword_type.kind == TsKeywordTypeKind::TsAnyKeyword {
            self.context.add_diagnostic_with_hint(ts_keyword_type.span, CODE, MESSAGE, HINT);
        }
        assert(self.context@ =~= old(self).context@ + keyword_reports(ts_keyword_type));
    }
}

} // verus!
