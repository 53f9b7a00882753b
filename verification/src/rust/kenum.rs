//! The enum parser: attributes, visibility, the `enum` keyword, the name,
//! and a delimited variant list.  Each variant is simple (no payload),
//! named (a brace group of `name: type` pairs) or positional (a paren
//! group of types).
use vstd::prelude::*;

use crate::kparser::{KParserError, KParserErrorV, KParserTracer};
use crate::kproc_macros::KTokenStream;
use crate::rust::ast_nodes::{AttributeV2Token, AttributeV2TokenV, KMap};
use crate::rust::kattr::{
    check_and_parser_attributes_v2, lemma_attributes_v2_progress, spec_parse_attributes_v2,
};
use crate::rust::kcore::{
    blame_tok, check_and_parse_visibility, eof_err, expect_err, expected_group_msg, make_eof_err,
    make_expected_group_err, perr, spec_advance, spec_parse_visibility,
};
use crate::token::{token_text, tokens_view, Delim, Token, TokenV};

verus! {

broadcast use crate::kproc_macros::KTokenStream::lemma_wf_bounds;

/// An enum declaration.
#[derive(Debug, PartialEq, Eq)]
pub struct EnumToken {
    pub attributes: KMap<AttributeV2Token>,
    pub visibility: Option<Token>,
    pub identifier: Token,
    pub raw_body: Vec<Token>,
    pub values: Vec<EnumValue>,
}

/// One variant of an enum declaration.
#[derive(Debug, PartialEq, Eq)]
pub struct EnumValue {
    pub attributes: KMap<AttributeV2Token>,
    pub kind: EnumValueKind,
    pub identifier: Token,
}

/// The payload shape of an enum variant.
#[derive(Debug, PartialEq, Eq)]
pub enum EnumValueKind {
    Named(KMap<Token>),
    Anonymus(Vec<Token>),
    Simple,
}

/// View of [`EnumValueKind`].
pub enum EnumValueKindV {
    Named(Seq<(Seq<char>, TokenV)>),
    Anonymus(Seq<TokenV>),
    Simple,
}

/// View of [`EnumValue`].
pub struct EnumValueV {
    pub attributes: Seq<(Seq<char>, AttributeV2TokenV)>,
    pub kind: EnumValueKindV,
    pub identifier: TokenV,
}

/// View of [`EnumToken`].
pub struct EnumTokenV {
    pub attributes: Seq<(Seq<char>, AttributeV2TokenV)>,
    pub visibility: Option<TokenV>,
    pub identifier: TokenV,
    pub raw_body: Seq<TokenV>,
    pub values: Seq<EnumValueV>,
}

pub open spec fn enum_value_kind_view(k: EnumValueKind) -> EnumValueKindV {
    match k {
        EnumValueKind::Named(m) => EnumValueKindV::Named(m.entries_view()),
        EnumValueKind::Anonymus(v) => EnumValueKindV::Anonymus(tokens_view(v@)),
        EnumValueKind::Simple => EnumValueKindV::Simple,
    }
}

pub open spec fn enum_value_view(v: EnumValue) -> EnumValueV {
    EnumValueV {
        attributes: v.attributes.entries_view(),
        kind: enum_value_kind_view(v.kind),
        identifier: crate::token::token_view(v.identifier),
    }
}

pub open spec fn enum_value_seq_view(s: Seq<EnumValue>) -> Seq<EnumValueV> {
    Seq::new(s.len(), |i: int| enum_value_view(s[i]))
}

pub open spec fn enum_view(e: EnumToken) -> EnumTokenV {
    EnumTokenV {
        attributes: e.attributes.entries_view(),
        visibility: crate::rust::ast_nodes::opt_token_view(e.visibility),
        identifier: crate::token::token_view(e.identifier),
        raw_body: tokens_view(e.raw_body@),
        values: enum_value_seq_view(e.values@),
    }
}

impl View for EnumValueKind {
    type V = EnumValueKindV;

    open spec fn view(&self) -> EnumValueKindV {
        enum_value_kind_view(*self)
    }
}

impl View for EnumValue {
    type V = EnumValueV;

    open spec fn view(&self) -> EnumValueV {
        enum_value_view(*self)
    }
}

impl View for EnumToken {
    type V = EnumTokenV;

    open spec fn view(&self) -> EnumTokenV {
        enum_view(*self)
    }
}

/// The message for a bracket group standing as a variant payload.
pub open spec fn invalid_enum_tok_msg() -> Seq<char> {
    "invalid token inside enum"@
}

/// The message for a variant payload that is neither a group nor a
/// punctuation mark.
pub open spec fn unexpected_tok_msg(t: Seq<char>) -> Seq<char> {
    "token `"@ + t + "` not expected"@
}

/// What parsing the `name: type` pairs of a named variant yields.
pub open spec fn spec_parse_named_value(toks: Seq<TokenV>, pos: int) -> Result<
    Seq<(Seq<char>, TokenV)>,
    KParserErrorV,
>
    decreases toks.len() - pos,
{
    if pos >= toks.len() {
        Ok(Seq::empty())
    } else {
        let (identifier, p1) = spec_advance(toks, pos);
        let (sep, p2) = spec_advance(toks, p1);
        if token_text(sep) != ":"@ {
            Err(expect_err(":"@, sep))
        } else {
            let (ttype, p3) = spec_advance(toks, p2);
            let p4 = if p3 < toks.len() {
                if token_text(toks[p3]) == ","@ {
                    p3 + 1
                } else {
                    p3
                }
            } else {
                p3
            };
            if p3 < toks.len() && token_text(toks[p3]) != ","@ {
                Err(expect_err(","@, toks[p3]))
            } else if pos < p4 && p4 <= toks.len() {
                match spec_parse_named_value(toks, p4) {
                    Err(e) => Err(e),
                    Ok(rest) => Ok(seq![(token_text(identifier), ttype)] + rest),
                }
            } else {
                Err(eof_err(toks))
            }
        }
    }
}

/// What parsing the types of a positional variant yields.
pub open spec fn spec_parse_anonymus_value(toks: Seq<TokenV>, pos: int) -> Result<
    Seq<TokenV>,
    KParserErrorV,
>
    decreases toks.len() - pos,
{
    if pos >= toks.len() {
        Ok(Seq::empty())
    } else {
        let (ttype, p1) = spec_advance(toks, pos);
        let p2 = if p1 < toks.len() {
            if token_text(toks[p1]) == ","@ {
                p1 + 1
            } else {
                p1
            }
        } else {
            p1
        };
        if p1 < toks.len() && token_text(toks[p1]) != ","@ {
            Err(expect_err(","@, toks[p1]))
        } else if pos < p2 && p2 <= toks.len() {
            match spec_parse_anonymus_value(toks, p2) {
                Err(e) => Err(e),
                Ok(rest) => Ok(seq![ttype] + rest),
            }
        } else {
            Err(eof_err(toks))
        }
    }
}

/// What parsing the variant list of an enum body yields.
pub open spec fn spec_parse_enum_body(toks: Seq<TokenV>, pos: int) -> Result<
    Seq<EnumValueV>,
    KParserErrorV,
>
    decreases toks.len() - pos,
{
    if pos >= toks.len() {
        Ok(Seq::empty())
    } else {
        match spec_parse_attributes_v2(toks, pos) {
            Err(e) => Err(e),
            Ok((attrs, p1)) => {
                if p1 >= toks.len() {
                    Err(eof_err(toks))
                } else {
                    let identifier = toks[p1];
                    let p2 = p1 + 1;
                    let kind_or_err: Result<(EnumValueKindV, int), KParserErrorV> = if p2
                        >= toks.len() {
                        Ok((EnumValueKindV::Simple, p2))
                    } else {
                        match toks[p2] {
                            TokenV::Group(d, inner) => {
                                if d == Delim::Brace {
                                    match spec_parse_named_value(inner, 0) {
                                        Err(e) => Err(e),
                                        Ok(fields) => Ok((EnumValueKindV::Named(fields), p2 + 1)),
                                    }
                                } else if d == Delim::Paren {
                                    match spec_parse_anonymus_value(inner, 0) {
                                        Err(e) => Err(e),
                                        Ok(fields) => Ok((EnumValueKindV::Anonymus(fields), p2 + 1)),
                                    }
                                } else {
                                    Err(perr(invalid_enum_tok_msg(), toks[p2]))
                                }
                            },
                            TokenV::Punct(t) => Ok((EnumValueKindV::Simple, p2)),
                            _ => Err(perr(unexpected_tok_msg(token_text(toks[p2])), toks[p2])),
                        }
                    };
                    match kind_or_err {
                        Err(e) => Err(e),
                        Ok((kind, p3)) => {
                            let (p4r, p4): (Result<int, KParserErrorV>, int) = if p3 < toks.len() {
                                if token_text(toks[p3]) == ","@ {
                                    (Ok(p3 + 1), p3 + 1)
                                } else {
                                    (Err(expect_err(","@, toks[p3])), p3)
                                }
                            } else {
                                (Ok(p3), p3)
                            };
                            match p4r {
                                Err(e) => Err(e),
                                Ok(_) => {
                                    if pos < p4 && p4 <= toks.len() {
                                        match spec_parse_enum_body(toks, p4) {
                                            Err(e) => Err(e),
                                            Ok(rest) => Ok(
                                                seq![
                                                    EnumValueV { attributes: attrs, kind, identifier },
                                                ] + rest,
                                            ),
                                        }
                                    } else {
                                        Err(eof_err(toks))
                                    }
                                },
                            }
                        },
                    }
                }
            },
        }
    }
}

/// What parsing an enum declaration yields: the enum and the position of
/// its variant-list group.
pub open spec fn spec_parse_enum(toks: Seq<TokenV>, pos: int) -> Result<
    (EnumTokenV, int),
    KParserErrorV,
> {
    match spec_parse_attributes_v2(toks, pos) {
        Err(e) => Err(e),
        Ok((attrs, p1)) => {
            let (vis, p2) = spec_parse_visibility(toks, p1);
            let (tok, p3) = spec_advance(toks, p2);
            if token_text(tok) != "enum"@ {
                Err(expect_err("enum"@, tok))
            } else {
                let (identifier, p4) = spec_advance(toks, p3);
                if p4 < toks.len() && toks[p4] is Group {
                    let inner = toks[p4]->Group_1;
                    match spec_parse_enum_body(inner, 0) {
                        Err(e) => Err(e),
                        Ok(values) => Ok(
                            (
                                EnumTokenV {
                                    attributes: attrs,
                                    visibility: vis,
                                    identifier,
                                    raw_body: inner,
                                    values,
                                },
                                p4,
                            ),
                        ),
                    }
                } else {
                    Err(perr(expected_group_msg(), blame_tok(toks, p4)))
                }
            }
        },
    }
}

/// Parse the `name: type` pairs of a named variant.
fn parse_named_value<T: KParserTracer + ?Sized>(stream: &mut KTokenStream, tracer: &T) -> (r:
    Result<KMap<Token>, KParserError>)
    requires
        old(stream).wf(),
    ensures
        final(stream).wf(),
        final(stream).toks() == old(stream).toks(),
        match spec_parse_named_value(old(stream).toks(), old(stream).pos()) {
            Ok(s) => r matches Ok(m) && m@ == s,
            Err(e) => r matches Err(er) && er@ == e,
        },
    decreases old(stream).toks().len() - old(stream).pos(),
{
    if stream.is_end() {
        let r: KMap<Token> = KMap::new();
        return Ok(r);
    }
    let identifier = stream.advance();
    let sep = stream.advance();
    if let Err(e) = KParserError::expect(":", &sep, String::new(), String::new()) {
        return Err(e);
    }
    let ttype = stream.advance();
    if !stream.is_end() {
        let comma = stream.advance();
        if let Err(e) = KParserError::expect(",", &comma, String::new(), String::new()) {
            return Err(e);
        }
    }
    let key = identifier.to_text();
    match parse_named_value(stream, tracer) {
        Err(e) => Err(e),
        Ok(rest) => {
            let mut m: KMap<Token> = KMap::new();
            m.insert(key, ttype);
            m.extend(rest);
            Ok(m)
        },
    }
}

/// Parse the types of a positional variant.
fn parse_anonymus_value<T: KParserTracer + ?Sized>(stream: &mut KTokenStream, tracer: &T) -> (r:
    Result<Vec<Token>, KParserError>)
    requires
        old(stream).wf(),
    ensures
        final(stream).wf(),
        final(stream).toks() == old(stream).toks(),
        match spec_parse_anonymus_value(old(stream).toks(), old(stream).pos()) {
            Ok(s) => r matches Ok(v) && tokens_view(v@) == s,
            Err(e) => r matches Err(er) && er@ == e,
        },
    decreases old(stream).toks().len() - old(stream).pos(),
{
    if stream.is_end() {
        let r: Vec<Token> = Vec::new();
        return Ok(r);
    }
    let ttype = stream.advance();
    tracer.log("positional variant entry");
    if !stream.is_end() {
        let comma = stream.advance();
        if let Err(e) = KParserError::expect(",", &comma, String::new(), String::new()) {
            return Err(e);
        }
    }
    let ghost tg = ttype;
    match parse_anonymus_value(stream, tracer) {
        Err(e) => Err(e),
        Ok(rest) => {
            let ghost restg = rest@;
            let mut out = rest;
            out.insert(0, ttype);
            proof {
                assert(out@ == restg.insert(0, tg));
                assert(out@[0] == tg);
                assert(out@.drop_first() =~= restg);
                assert(tokens_view(out@) == seq![crate::token::token_view(out@[0])] + tokens_view(
                    out@.drop_first(),
                ));
            }
            Ok(out)
        },
    }
}

/// Parse the variant list of an enum body until the stream is exhausted.
#[verifier::rlimit(100)]
fn parse_body<T: KParserTracer + ?Sized>(stream: &mut KTokenStream, tracer: &T) -> (r: Result<
    Vec<EnumValue>,
    KParserError,
>)
    requires
        old(stream).wf(),
    ensures
        final(stream).wf(),
        final(stream).toks() == old(stream).toks(),
        match spec_parse_enum_body(old(stream).toks(), old(stream).pos()) {
            Ok(s) => r matches Ok(v) && enum_value_seq_view(v@) == s,
            Err(e) => r matches Err(er) && er@ == e,
        },
    decreases old(stream).toks().len() - old(stream).pos(),
{
    if stream.is_end() {
        let r: Vec<EnumValue> = Vec::new();
        proof {
            assert(enum_value_seq_view(r@) =~= Seq::<EnumValueV>::empty());
        }
        return Ok(r);
    }
    let ghost toks = old(stream).toks();
    let ghost pos0 = old(stream).pos();
    let attributes = match check_and_parser_attributes_v2(stream, tracer) {
        Err(e) => {
            return Err(e);
        },
        Ok(m) => m,
    };
    proof {
        lemma_attributes_v2_progress(toks, pos0);
    }
    if stream.is_end() {
        return Err(make_eof_err(stream));
    }
    let identifier = stream.advance();
    tracer.log("parsing one enum variant");
    let kind: EnumValueKind = if stream.is_end() {
        EnumValueKind::Simple
    } else {
        let is_brace_group = match stream.peek() {
            Token::Group { delim: Delim::Brace, toks, span } => true,
            _ => false,
        };
        let is_paren_group = match stream.peek() {
            Token::Group { delim: Delim::Paren, toks, span } => true,
            _ => false,
        };
        let is_bracket_group = match stream.peek() {
            Token::Group { delim: Delim::Bracket, toks, span } => true,
            _ => false,
        };
        let is_punct = match stream.peek() {
            Token::Punct { text, span } => true,
            _ => false,
        };
        if is_brace_group {
            let mut group = stream.to_ktoken_stream();
            stream.next();
            match parse_named_value(&mut group, tracer) {
                Err(e) => {
                    return Err(e);
                },
                Ok(fields) => EnumValueKind::Named(fields),
            }
        } else if is_paren_group {
            let mut group = stream.to_ktoken_stream();
            stream.next();
            match parse_anonymus_value(&mut group, tracer) {
                Err(e) => {
                    return Err(e);
                },
                Ok(fields) => EnumValueKind::Anonymus(fields),
            }
        } else if is_bracket_group {
            let content = stream.peek().clone();
            return Err(
                KParserError::with_msg(
                    content,
                    "invalid token inside enum",
                    String::new(),
                    String::new(),
                ),
            );
        } else if is_punct {
            EnumValueKind::Simple
        } else {
            let content = stream.peek().clone();
            let text = content.to_text();
            let msg = String::from_str("token `").concat(text.as_str()).concat("` not expected");
            return Err(KParserError::with_msg(content, msg.as_str(), String::new(), String::new()));
        }
    };
    if !stream.is_end() {
        let tok = stream.peek().clone();
        if let Err(e) = KParserError::expect(",", &tok, String::new(), String::new()) {
            return Err(e);
        }
        stream.next();
    }
    let value = EnumValue { attributes, kind, identifier };
    let ghost vg = value;
    match parse_body(stream, tracer) {
        Err(e) => Err(e),
        Ok(rest) => {
            let ghost restg = rest@;
            let mut out = rest;
            out.insert(0, value);
            proof {
                assert(out@ == restg.insert(0, vg));
                assert(out@[0] == vg);
                assert(out@.drop_first() =~= restg);
                assert(enum_value_seq_view(out@) =~= seq![enum_value_view(vg)]
                    + enum_value_seq_view(restg));
            }
            Ok(out)
        },
    }
}

/// Parse an enum declaration into its AST node.  The cursor is left on the
/// variant-list group.
pub fn parse<T: KParserTracer + ?Sized>(stream: &mut KTokenStream, tracer: &T) -> (r: Result<
    EnumToken,
    KParserError,
>)
    requires
        old(stream).wf(),
        old(stream).toks().len() > 0,
    ensures
        final(stream).wf(),
        final(stream).toks() == old(stream).toks(),
        match spec_parse_enum(old(stream).toks(), old(stream).pos()) {
            Ok((e, p)) => {
                &&& r matches Ok(x)
                &&& x@ == e
                &&& final(stream).pos() == p
            },
            Err(e) => r matches Err(er) && er@ == e,
        },
{
    tracer.log("parsing an enum declaration");
    let attributes = match check_and_parser_attributes_v2(stream, tracer) {
        Err(e) => {
            return Err(e);
        },
        Ok(m) => m,
    };
    let visibility = check_and_parse_visibility(stream);
    let tok = stream.advance();
    if let Err(e) = KParserError::expect("enum", &tok, String::new(), String::new()) {
        return Err(e);
    }
    let identifier = stream.advance();
    if stream.is_end() || !stream.is_group() {
        return Err(make_expected_group_err(stream));
    }
    let raw_body = stream.unwrap_group_as_stream();
    let mut body_stream = KTokenStream::new(&raw_body);
    let values = match parse_body(&mut body_stream, tracer) {
        Err(e) => {
            return Err(e);
        },
        Ok(v) => v,
    };
    Ok(EnumToken { attributes, visibility, identifier, raw_body, values })
}

} // verus!
