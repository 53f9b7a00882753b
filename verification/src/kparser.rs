//! The tracing capability injected into each parse call, and the error
//! value that every grammar sub-parser returns when it cannot satisfy a
//! required token.
use vstd::prelude::*;

use crate::diagnostic::diag_render;
use crate::kdiagnostic::KDiagnInfo;
use crate::kproc_macros::KTokenStream;
use crate::token::{token_text, Token, TokenV};

verus! {

/// A tracing capability: the parsers report their progress through this.
pub trait KParserTracer {
    fn log(&self, msg: &str);
}

/// A tracer that discards every message.
pub struct DummyTracer;

impl KParserTracer for DummyTracer {
    fn log(&self, msg: &str) {
    }
}

/// The model of a parser error: the message, the offending token, and the
/// severity.
pub struct KParserErrorV {
    pub msg: Seq<char>,
    pub tok: TokenV,
    pub warn: bool,
}

/// A parse failure: a diagnostic on the token that could not be consumed.
#[derive(Debug)]
pub struct KParserError {
    dig: KDiagnInfo,
}

impl View for KParserError {
    type V = KParserErrorV;

    closed spec fn view(&self) -> KParserErrorV {
        KParserErrorV {
            msg: self.dig.spec_msg(),
            tok: self.dig.spec_tok(),
            warn: self.dig.spec_is_warn(),
        }
    }
}

/// The message of an `expect` failure.
pub open spec fn expect_msg(expected: Seq<char>, found: Seq<char>) -> Seq<char> {
    "expected `"@ + expected + "` but got `"@ + found + "`"@
}

impl KParserError {
    /// The reporting source line.
    pub closed spec fn spec_line(&self) -> Seq<char> {
        self.dig.spec_line()
    }

    /// The reporting source file.
    pub closed spec fn spec_file(&self) -> Seq<char> {
        self.dig.spec_file()
    }

    /// Wrap a diagnostic as an error value.
    pub fn new(dig: KDiagnInfo) -> (r: KParserError)
        ensures
            r@.msg == dig.spec_msg(),
            r@.tok == dig.spec_tok(),
            r@.warn == dig.spec_is_warn(),
    {
        KParserError { dig }
    }

    /// An error with the given message on the given token.
    pub fn with_msg(tok: Token, msg: &str, line: String, file: String) -> (r: KParserError)
        ensures
            r@.msg == msg@,
            r@.tok == tok@,
            !r@.warn,
    {
        let diag = KDiagnInfo::new(msg, tok, line, file);
        KParserError::new(diag)
    }

    /// Check that the given token's text is the expected one; on a mismatch,
    /// fail with a diagnostic that names both.
    pub fn expect(expect_tok: &str, tok: &Token, line: String, file: String) -> (r: Result<
        (),
        KParserError,
    >)
        ensures
            r is Ok <==> token_text(tok@) == expect_tok@,
            r matches Err(e) ==> {
                &&& e@.msg == expect_msg(expect_tok@, token_text(tok@))
                &&& e@.tok == tok@
                &&& !e@.warn
            },
    {
        if !tok.match_text(expect_tok) {
            let found = tok.to_text();
            let msg = String::from_str("expected `").concat(expect_tok).concat(
                "` but got `",
            ).concat(found.as_str()).concat("`");
            let copy = tok.clone();
            return Err(KParserError { dig: KDiagnInfo::new(msg.as_str(), copy, line, file) });
        }
        Ok(())
    }

    /// Render the error's diagnostic.
    pub fn emit(self) -> (r: String)
        ensures
            r@ == diag_render(self@.warn, self.spec_file(), self.spec_line(), self@.msg),
    {
        self.dig.emit()
    }

    /// The offending token.
    pub fn span(&self) -> (r: Token)
        ensures
            r@ == self@.tok,
    {
        self.dig.span()
    }
}

/// A parser from a token stream to some node type.
pub trait KParser {
    fn parse<E, T: KParserTracer>(&self, stream: &mut KTokenStream, tracer: &T) -> Result<
        E,
        KParserError,
    >;
}

} // verus!
