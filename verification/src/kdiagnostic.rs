//! A diagnostic paired with the token it refers to, so that a parse failure
//! can always be traced back to the offending token.
use vstd::prelude::*;

use crate::diagnostic::{diag_render, Diagnostic};
use crate::token::{Token, TokenV};

verus! {

/// A diagnostic together with the offending token.
#[derive(Debug)]
pub struct KDiagnInfo {
    inner: Diagnostic,
    tok: Token,
}

impl KDiagnInfo {
    /// The message text.
    pub closed spec fn spec_msg(&self) -> Seq<char> {
        self.inner.spec_msg()
    }

    /// The offending token.
    pub closed spec fn spec_tok(&self) -> TokenV {
        self.tok@
    }

    /// Whether the severity has been downgraded to a warning.
    pub closed spec fn spec_is_warn(&self) -> bool {
        self.inner.spec_is_warn()
    }

    /// The reporting source line.
    pub closed spec fn spec_line(&self) -> Seq<char> {
        self.inner.spec_line()
    }

    /// The reporting source file.
    pub closed spec fn spec_file(&self) -> Seq<char> {
        self.inner.spec_file()
    }

    /// A new error-severity diagnostic on the given token.
    pub fn new(msg: &str, tok: Token, line: String, file: String) -> (r: KDiagnInfo)
        ensures
            r.spec_msg() == msg@,
            r.spec_tok() == tok@,
            !r.spec_is_warn(),
            r.spec_line() == line@,
            r.spec_file() == file@,
    {
        let span = tok.span();
        KDiagnInfo { inner: Diagnostic::new(String::from_str(msg), span, line, file), tok }
    }

    /// The offending token.
    pub fn span(&self) -> (r: Token)
        ensures
            r@ == self.spec_tok(),
    {
        self.tok.clone()
    }

    /// Downgrade the severity to a warning.
    pub fn warn(self) -> (r: KDiagnInfo)
        ensures
            r.spec_is_warn(),
            r.spec_msg() == self.spec_msg(),
            r.spec_tok() == self.spec_tok(),
            r.spec_line() == self.spec_line(),
            r.spec_file() == self.spec_file(),
    {
        let mut r = self;
        r.inner.is_warn();
        r
    }

    /// Render the diagnostic.
    pub fn emit(self) -> (r: String)
        ensures
            r@ == diag_render(
                self.spec_is_warn(),
                self.spec_file(),
                self.spec_line(),
                self.spec_msg(),
            ),
    {
        self.inner.emit()
    }
}

} // verus!
