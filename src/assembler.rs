pub mod lexer;
pub mod mnemonics;
pub mod parser;
pub mod token;

use vstd::prelude::*;

verus! {

/// Why a source text could not be assembled. Positions are 1-based line and
/// column, where known.
#[derive(Debug, Clone)]
pub enum AssemblerError {
    /// A malformed token stream: an invalid character, a token of the wrong
    /// class, a missing statement terminator.
    SyntaxError(String, Option<usize>, Option<usize>),
    /// Well-formed but meaningless: an unknown register, a value out of range,
    /// a mnemonic used as a label name.
    SemanticError(String, Option<usize>, Option<usize>),
    /// A label that is referenced but never declared.
    LabelNotDefined(String),
}

/// An assembler error with its message left out.
pub enum ErrorKind {
    Syntax { line: Option<nat>, column: Option<nat> },
    Semantic { line: Option<nat>, column: Option<nat> },
    LabelNotDefined { name: Seq<char> },
}

pub open spec fn opt_nat(o: Option<usize>) -> Option<nat> {
    match o {
        Some(x) => Some(x as nat),
        None => None,
    }
}

impl View for AssemblerError {
    type V = ErrorKind;

    open spec fn view(&self) -> ErrorKind {
        match self {
            AssemblerError::SyntaxError(_, l, c) => ErrorKind::Syntax {
                line: opt_nat(*l),
                column: opt_nat(*c),
            },
            AssemblerError::SemanticError(_, l, c) => ErrorKind::Semantic {
                line: opt_nat(*l),
                column: opt_nat(*c),
            },
            AssemblerError::LabelNotDefined(name) => ErrorKind::LabelNotDefined { name: name@ },
        }
    }
}

/// `Ok` values mapped through `f`, errors through their view.
pub open spec fn result_view<T, V>(r: Result<T, AssemblerError>, f: spec_fn(T) -> V) -> Result<
    V,
    ErrorKind,
> {
    match r {
        Ok(v) => Ok(f(v)),
        Err(e) => Err(e@),
    }
}

/// Relies on `String::push`: appends one character.
#[verifier::external_body]
pub(crate) fn push_char(s: &mut String, c: char)
    ensures
        final(s)@ == old(s)@.push(c),
{
    s.push(c);
}

/// Relies on `String::push_str`: appends a string slice.
#[verifier::external_body]
pub(crate) fn push_str(s: &mut String, t: &str)
    ensures
        final(s)@ == old(s)@ + t@,
{
    s.push_str(t);
}

/// `a`, then `b` in double quotes: the usual shape of a message that names
/// the offending text.
pub(crate) fn quoted(a: &str, b: &str) -> (r: String)
    ensures
        r@ == a@ + " \""@ + b@ + "\""@,
{
    let mut m = a.to_owned();
    push_str(&mut m, " \"");
    push_str(&mut m, b);
    push_str(&mut m, "\"");
    m
}

} // verus!
