//! The diagnostic model: an error or warning message tied to a source
//! position.  A diagnostic is an ordinary value; rendering it produces the
//! text that a caller may surface, and the decision to abort belongs to the
//! outermost caller, never to the parser.
use vstd::prelude::*;

use crate::token::Span;

verus! {

/// Severity of a diagnostic.
#[derive(Clone, Copy, Debug, PartialEq, Eq, Structural)]
pub enum Level {
    Error,
    Warn,
}

/// An error or warning message with the position it refers to.
#[derive(Debug)]
pub struct Diagnostic {
    msg: String,
    span: Span,
    level: Level,
    line: String,
    file: String,
}

/// The colored severity prefix used when rendering a diagnostic.
pub open spec fn level_prefix(warn: bool) -> Seq<char> {
    if warn {
        "\u{1b}[1;33mwarning\u{1b}[1;97m"@
    } else {
        "\u{1b}[1;31merror\u{1b}[1;97m"@
    }
}

/// The rendered text of a diagnostic: severity, position, and message.
pub open spec fn diag_render(warn: bool, file: Seq<char>, line: Seq<char>, msg: Seq<char>) -> Seq<
    char,
> {
    level_prefix(warn) + ": `"@ + file + ":"@ + line + "` "@ + msg
}

impl Diagnostic {
    /// The message text.
    pub closed spec fn spec_msg(&self) -> Seq<char> {
        self.msg@
    }

    /// Whether the severity has been downgraded to a warning.
    pub closed spec fn spec_is_warn(&self) -> bool {
        self.level is Warn
    }

    /// The position the diagnostic refers to.
    pub closed spec fn spec_span(&self) -> Span {
        self.span
    }

    /// The reporting source line.
    pub closed spec fn spec_line(&self) -> Seq<char> {
        self.line@
    }

    /// The reporting source file.
    pub closed spec fn spec_file(&self) -> Seq<char> {
        self.file@
    }

    /// A new error-severity diagnostic.
    pub fn new(msg: String, span: Span, line: String, file: String) -> (r: Diagnostic)
        ensures
            r.spec_msg() == msg@,
            !r.spec_is_warn(),
            r.spec_span() == span,
            r.spec_line() == line@,
            r.spec_file() == file@,
    {
        Diagnostic { msg, span, level: Level::Error, line, file }
    }

    /// The colored severity prefix for this diagnostic.
    fn get_colored_string(&self) -> (r: String)
        ensures
            r@ == level_prefix(self.spec_is_warn()),
    {
        match self.level {
            Level::Error => String::from_str("\u{1b}[1;31merror\u{1b}[1;97m"),
            Level::Warn => String::from_str("\u{1b}[1;33mwarning\u{1b}[1;97m"),
        }
    }

    /// Render the diagnostic with its own severity.
    pub fn emit(self) -> (r: String)
        ensures
            r@ == diag_render(
                self.spec_is_warn(),
                self.spec_file(),
                self.spec_line(),
                self.spec_msg(),
            ),
    {
        match self.level {
            Level::Error => self.emit_error(),
            Level::Warn => self.emit_warn(),
        }
    }

    /// Render the diagnostic as an error.
    pub fn emit_error(self) -> (r: String)
        requires
            !self.spec_is_warn(),
        ensures
            r@ == diag_render(false, self.spec_file(), self.spec_line(), self.spec_msg()),
    {
        self.render()
    }

    /// Render the diagnostic as a warning.
    pub fn emit_warn(self) -> (r: String)
        requires
            self.spec_is_warn(),
        ensures
            r@ == diag_render(true, self.spec_file(), self.spec_line(), self.spec_msg()),
    {
        self.render()
    }

    /// Render the diagnostic.
    fn render(self) -> (r: String)
        ensures
            r@ == diag_render(
                self.spec_is_warn(),
                self.spec_file(),
                self.spec_line(),
                self.spec_msg(),
            ),
    {
        let prefix = self.get_colored_string();
        prefix.concat(": `").concat(self.file.as_str()).concat(":").concat(
            self.line.as_str(),
        ).concat("` ").concat(self.msg.as_str())
    }

    /// Downgrade the severity to a warning.
    pub fn is_warn(&mut self)
        ensures
            final(self).spec_is_warn(),
            final(self).spec_msg() == old(self).spec_msg(),
            final(self).spec_span() == old(self).spec_span(),
            final(self).spec_line() == old(self).spec_line(),
            final(self).spec_file() == old(self).spec_file(),
    {
        self.level = Level::Warn;
    }
}

} // verus!
