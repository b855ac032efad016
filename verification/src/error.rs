//! The diagnostics of the shader front end and code generators.
use vstd::prelude::*;

verus! {

/// A failure of the front end or of a code generator.
#[derive(Debug)]
pub enum CodegenError {
    /// A diagnostic, with the text the user sees.
    Message(String),
    /// The layout of the named struct is needed and has not been loaded into the
    /// registry yet; the caller loads it and runs the step again.
    Unresolved(String),
}

/// The mathematical value of a `CodegenError`.
pub enum ErrorView {
    Message(Seq<char>),
    Unresolved(Seq<char>),
}

impl View for CodegenError {
    type V = ErrorView;

    open spec fn view(&self) -> ErrorView {
        match self {
            CodegenError::Message(m) => ErrorView::Message(m@),
            CodegenError::Unresolved(n) => ErrorView::Unresolved(n@),
        }
    }
}

/// A diagnostic whose text is `m`.
pub open spec fn msg(m: Seq<char>) -> ErrorView {
    ErrorView::Message(m)
}

/// Builds the diagnostic whose text is `m`.
pub fn message(m: &str) -> (e: CodegenError)
    ensures
        e@ == msg(m@),
{
    CodegenError::Message(String::from_str(m))
}

/// The text of `a` followed by `b`.
pub fn cat(a: &str, b: &str) -> (r: String)
    ensures
        r@ == a@ + b@,
{
    let mut s = String::from_str(a);
    s.append(b);
    s
}

/// The text of `a`, `b` and `c` in order.
pub fn cat3(a: &str, b: &str, c: &str) -> (r: String)
    ensures
        r@ == a@ + b@ + c@,
{
    let mut s = String::from_str(a);
    s.append(b);
    s.append(c);
    s
}

} // verus!
