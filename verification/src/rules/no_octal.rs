//! No number literal is written with a leading zero before a digit.

use vstd::prelude::*;
use regex::Regex;
use crate::context::Context;
use crate::context::DiagnosticView;
use crate::syntax::Number;

verus! {

pub struct NoOctal;

pub const CODE: &'static str = "no-octal";

pub const MESSAGE: &'static str = "`Octal number` is not allowed";

/// The pattern that an octal-looking literal matches.
pub const OCTAL: &'static str = "^0[0-9]";

impl NoOctal {
    pub fn new() -> (r: Box<Self>) {
        Box::new(NoOctal)
    }

    pub fn tags(&self) -> (r: &'static [&'static str])
        ensures
            r@ == seq!["recommended"],
    {
        &["recommended"]
    }

    pub fn code(&self) -> (r: &'static str)
        ensures
            r@ == "no-octal"@,
    {
        CODE
    }
}

/// The text begins with the digit zero and goes on with a decimal digit.
pub open spec fn looks_octal(text: Seq<char>) -> bool {
    text.len() >= 2 && text[0] == '0' && '0' <= text[1] <= '9'
}

/// Compiles `pattern` with `regex::Regex::new` and asks `Regex::is_match`
/// whether it matches anywhere in `text`. Only the pattern `^0[0-9]` is
/// admitted, which compiles. Of it the contract claims what the pattern says
/// in the crate's syntax: `^` holds the match to the start of the text, `0` is
/// that character, and `[0-9]` is one character from `0` to `9`.
#[verifier::external_body]
fn is_match(pattern: &str, text: &str) -> (r: bool)
    requires
        pattern@ == "^0[0-9]"@,
    ensures
        r == looks_octal(text@),
{
    Regex::new(pattern).unwrap().is_match(text)
}

/// What a number literal draws: one diagnostic at its place if its text
/// looks octal, nothing otherwise.
pub open spec fn number_reports(literal_num: &Number) -> Seq<DiagnosticView> {
    if looks_octal(literal_num.raw@) {
        seq![
            DiagnosticView {
                span: literal_num.span,
                code: "no-octal"@,
                message: "`Octal number` is not allowed"@,
                hint: None,
            },
        ]
    } else {
        Seq::empty()
    }
}

pub struct NoOctalVisitor<'c> {
    pub context: &'c mut Context,
}

impl<'c> NoOctalVisitor<'c> {
    pub fn new(context: &'c mut Context) -> (r: Self)
        ensures
            *r.context == *old(context),
            *final(r.context) == *final(context),
    {
        Self { context }
    }

    pub fn visit_number(&mut self, literal_num: &Number)
        ensures
            final(self).context@ == old(self).context@ + number_reports(literal_num),
            *final(final(self).context) == *final(old(self).context),
    {
        if is_match(OCTAL, literal_num.raw.as_str()) {
            self.context.add_diagnostic(literal_num.span, CODE, MESSAGE);
        }
        assert(self.context@ =~= old(self).context@ + number_reports(literal_num));
    }
}

} // verus!
