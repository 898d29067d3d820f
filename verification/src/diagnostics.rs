//! Diagnostics: spanned messages that the parser and the static checks hand
//! to their caller. A diagnostic is a value; none of them stops a run.
use vstd::prelude::*;
use vstd::string::StringExecFns;
use crate::span::Span;

verus! {

/// What a diagnostic is about.
#[derive(Clone, Copy, Debug, PartialEq, Eq, Hash, Structural)]
pub enum ErrorKind {
    /// A malformed construct, or one that is not allowed where it stands.
    Syntax,
    /// A name that is not declared, or is declared twice.
    Name,
    /// Types that do not fit together.
    Type,
    /// Valid code that is likely to misbehave when it runs.
    Warning,
}

/// A diagnostic: its kind, its message and the span of the text it is about.
#[derive(Clone, Debug, PartialEq, Eq, Hash)]
pub struct XSError {
    pub kind: ErrorKind,
    pub msg: String,
    pub span: Span,
}

/// The mathematical value of an [`XSError`].
pub struct Diagnostic {
    pub kind: ErrorKind,
    pub msg: Seq<char>,
    pub span: Span,
}

impl View for XSError {
    type V = Diagnostic;

    open spec fn view(&self) -> Diagnostic {
        Diagnostic { kind: self.kind, msg: self.msg@, span: self.span }
    }
}

/// The values of a list of diagnostics, in order.
pub open spec fn diagnostics(errs: Seq<XSError>) -> Seq<Diagnostic> {
    Seq::new(errs.len(), |i: int| errs[i]@)
}

/// Appending a diagnostic to a list appends its value to the list's values.
pub proof fn lemma_diagnostics_push(errs: Seq<XSError>, e: XSError)
    ensures
        diagnostics(errs.push(e)) == diagnostics(errs).push(e@),
{
    assert(diagnostics(errs.push(e)) =~= diagnostics(errs).push(e@));
}

/// The values of two lists in a row are the values of the first, then those
/// of the second.
pub proof fn lemma_diagnostics_concat(a: Seq<XSError>, b: Seq<XSError>)
    ensures
        diagnostics(a + b) == diagnostics(a) + diagnostics(b),
{
    assert(diagnostics(a + b) =~= diagnostics(a) + diagnostics(b));
}

/// How many diagnostics of `diags` are of kind `kind`.
pub open spec fn count_kind(diags: Seq<Diagnostic>, kind: ErrorKind) -> nat
    decreases diags.len(),
{
    if diags.len() == 0 {
        0
    } else {
        count_kind(diags.drop_last(), kind) + if diags.last().kind == kind {
            1nat
        } else {
            0nat
        }
    }
}

/// The diagnostics of `a + b` of one kind are those of `a` and those of `b`.
pub proof fn lemma_count_kind_concat(a: Seq<Diagnostic>, b: Seq<Diagnostic>, kind: ErrorKind)
    ensures
        count_kind(a + b, kind) == count_kind(a, kind) + count_kind(b, kind),
    decreases b.len(),
{
    if b.len() == 0 {
        assert(a + b =~= a);
    } else {
        assert((a + b).drop_last() =~= a + b.drop_last());
        lemma_count_kind_concat(a, b.drop_last(), kind);
    }
}

/// Of at most one diagnostic, one is of kind `kind` if it is there and of
/// that kind.
pub proof fn lemma_count_kind_short(diags: Seq<Diagnostic>, kind: ErrorKind)
    requires
        diags.len() <= 1,
    ensures
        count_kind(diags, kind) == if diags.len() == 1 && diags[0].kind == kind {
            1nat
        } else {
            0nat
        },
{
    if diags.len() == 1 {
        assert(diags.drop_last() =~= Seq::empty());
        assert(count_kind(diags.drop_last(), kind) == 0);
    }
}

/// The syntax error with message `msg` about the text at `span`.
pub open spec fn syntax_diag(msg: Seq<char>, span: Span) -> Diagnostic {
    Diagnostic { kind: ErrorKind::Syntax, msg, span }
}

/// The name error with message `msg` about the text at `span`.
pub open spec fn name_diag(msg: Seq<char>, span: Span) -> Diagnostic {
    Diagnostic { kind: ErrorKind::Name, msg, span }
}

/// The type error with message `msg` about the text at `span`.
pub open spec fn type_diag(msg: Seq<char>, span: Span) -> Diagnostic {
    Diagnostic { kind: ErrorKind::Type, msg, span }
}

/// The warning with message `msg` about the text at `span`.
pub open spec fn warn_diag(msg: Seq<char>, span: Span) -> Diagnostic {
    Diagnostic { kind: ErrorKind::Warning, msg, span }
}

/// A syntax error about the text at `span`.
pub fn syntax_err(msg: &str, span: &Span) -> (e: XSError)
    ensures
        e@ == syntax_diag(msg@, *span),
{
    XSError { kind: ErrorKind::Syntax, msg: String::from_str(msg), span: *span }
}

/// A name error about the text at `span`.
pub fn name_err(msg: &str, span: &Span) -> (e: XSError)
    ensures
        e@ == name_diag(msg@, *span),
{
    XSError { kind: ErrorKind::Name, msg: String::from_str(msg), span: *span }
}

/// A type error about the text at `span`.
pub fn type_err(msg: &str, span: &Span) -> (e: XSError)
    ensures
        e@ == type_diag(msg@, *span),
{
    XSError { kind: ErrorKind::Type, msg: String::from_str(msg), span: *span }
}

/// A warning about the text at `span`.
pub fn warn(msg: &str, span: &Span) -> (e: XSError)
    ensures
        e@ == warn_diag(msg@, *span),
{
    XSError { kind: ErrorKind::Warning, msg: String::from_str(msg), span: *span }
}

impl XSError {
    /// Whether the diagnostic is an error: anything but a warning.
    pub fn is_error(&self) -> (r: bool)
        ensures
            r == (self@.kind != ErrorKind::Warning),
    {
        match self.kind {
            ErrorKind::Warning => false,
            _ => true,
        }
    }
}

/// Appends `e` to `errs`.
pub fn report(errs: &mut Vec<XSError>, e: XSError)
    ensures
        final(errs)@ == old(errs)@.push(e),
        diagnostics(final(errs)@) == diagnostics(old(errs)@).push(e@),
{
    proof {
        lemma_diagnostics_push(errs@, e);
    }
    errs.push(e);
}

} // verus!
