use vstd::prelude::*;

verus! {

/// A half-open range of byte offsets in a source text.
#[derive(Clone, Copy, Debug, PartialEq, Eq, Structural)]
pub struct Span {
    pub lo: u32,
    pub hi: u32,
}

/// One finding of a rule.
#[derive(Debug)]
pub struct LintDiagnostic {
    pub span: Span,
    pub code: String,
    pub message: String,
    pub hint: Option<String>,
}

/// The mathematical value of a [`LintDiagnostic`].
pub ghost struct DiagnosticView {
    pub span: Span,
    pub code: Seq<char>,
    pub message: Seq<char>,
    pub hint: Option<Seq<char>>,
}

impl View for LintDiagnostic {
    type V = DiagnosticView;

    open spec fn view(&self) -> DiagnosticView {
        DiagnosticView {
            span: self.span,
            code: self.code@,
            message: self.message@,
            hint: match self.hint {
                Some(h) => Some(h@),
                None => None,
            },
        }
    }
}

/// The collector that rules report to: diagnostics in the order in which they
/// were added.
pub struct Context {
    diagnostics: Vec<LintDiagnostic>,
}

impl View for Context {
    type V = Seq<DiagnosticView>;

    closed spec fn view(&self) -> Seq<DiagnosticView> {
        self.diagnostics@.map_values(|d: LintDiagnostic| d@)
    }
}

impl Context {
    /// A collector that holds nothing yet.
    pub fn new() -> (r: Context)
        ensures
            r@ == Seq::<DiagnosticView>::empty(),
    {
        let r = Context { diagnostics: Vec::new() };
        assert(r@ =~= Seq::<DiagnosticView>::empty());
        r
    }

    /// Appends a diagnostic without a hint.
    pub fn add_diagnostic(&mut self, span: Span, code: &str, message: &str)
        ensures
            final(self)@ == old(self)@.push(
                (DiagnosticView { span, code: code@, message: message@, hint: None }),
            ),
    {
        let d = LintDiagnostic {
            span,
            code: code.to_owned(),
            message: message.to_owned(),
            hint: None,
        };
        self.diagnostics.push(d);
        assert(self@ =~= old(self)@.push(d@));
    }

    /// Appends a diagnostic that carries a remediation hint.
    pub fn add_diagnostic_with_hint(&mut self, span: Span, code: &str, message: &str, hint: &str)
        ensures
            final(self)@ == old(self)@.push(
                (DiagnosticView { span, code: code@, message: message@, hint: Some(hint@) }),
            ),
    {
        let d = LintDiagnostic {
            span,
            code: code.to_owned(),
            message: message.to_owned(),
            hint: Some(hint.to_owned()),
        };
        self.diagnostics.push(d);
        assert(self@ =~= old(self)@.push(d@));
    }

    /// The diagnostics collected so far, oldest first.
    pub fn diagnostics(&self) -> (r: &Vec<LintDiagnostic>)
        ensures
            r@.len() == self@.len(),
            forall|i: int| 0 <= i < r@.len() ==> (#[trigger] r@[i])@ == self@[i],
    {
        &self.diagnostics
    }
}

} // verus!
