//! The type-expression parser: optional reference, lifetime, `dyn` and
//! `mut` markers, a base identifier, and an optional recursive
//! generic-argument list.
//!
//! After a complete type expression the next token must be one of the stop
//! words `,`, `>`, `;`, `:` or a group; only a `,` is consumed, and a `>`
//! is always left for the enclosing clause.  A `:` immediately after the
//! base identifier means the tokens form a trait-bound clause, not a type,
//! and the parser reports "no type" so the caller can reinterpret them.
use vstd::prelude::*;

use crate::kparser::{KParserError, KParserErrorV, KParserTracer};
use crate::kproc_macros::KTokenStream;
use crate::rust::ast_nodes::{
    lemma_ty_seq_view_len, opt_ty_view, ty_seq_view, ty_view,
    LifetimeParam, LifetimeParamV, TyKind, TyToken, TyTokenV,
};
use crate::rust::kcore::{
    check_and_parse_dyn, check_and_parse_lifetime, check_and_parse_mut, check_and_parse_ref,
    eof_err, make_eof_err, perr, spec_parse_lifetime, spec_parse_marker,
};
use crate::token::{token_text, Token, TokenV};

verus! {

broadcast use crate::kproc_macros::KTokenStream::lemma_wf_bounds;

/// The stop words allowed after a complete type expression.
pub open spec fn ty_stop_words() -> Seq<Seq<char>> {
    seq![","@, ">"@, ";"@, ":"@]
}

/// The message reported for a type expression followed by a token outside
/// the stop-word set.
pub open spec fn unterminated_ty_msg(sep: Seq<char>) -> Seq<char> {
    "unterminated type expression: unexpected separator `"@ + sep + "`"@
}

/// The message reported when a generic-argument slot is a bound clause
/// rather than a type.
pub open spec fn bound_in_generics_msg() -> Seq<char> {
    "failing to parse the type, this is a bug, please report it"@
}

/// An error that no run can produce: the progress lemma shows every
/// recursive step of the type grammar consumes at least one token, so the
/// guards that return this value are never taken.
pub open spec fn stall_err(toks: Seq<TokenV>) -> KParserErrorV {
    perr("the type parser made no progress"@, toks[0])
}

/// What the terminator check after a complete type expression yields: the
/// next position, or a diagnostic on the offending separator.
pub open spec fn spec_ty_terminator(toks: Seq<TokenV>, pos: int) -> Result<int, KParserErrorV> {
    if pos >= toks.len() {
        Ok(pos)
    } else if token_text(toks[pos]) == ","@ {
        Ok(pos + 1)
    } else if toks[pos] is Group || ty_stop_words().contains(token_text(toks[pos])) {
        Ok(pos)
    } else {
        Err(perr(unterminated_ty_msg(token_text(toks[pos])), toks[pos]))
    }
}

/// What parsing a type expression yields: the type (or `None` for a
/// trait-bound clause) and the next position, or a diagnostic.
pub open spec fn spec_parse_ty(toks: Seq<TokenV>, pos: int) -> Result<
    (Option<TyTokenV>, int),
    KParserErrorV,
>
    decreases toks.len() - pos, 1int,
{
    let (ref_tok, p1) = spec_parse_marker(toks, pos, "&"@);
    let (lt, p2) = spec_parse_lifetime(toks, p1);
    let (dyn_tok, p3) = spec_parse_marker(toks, p2, "dyn"@);
    let (mut_tok, p4) = spec_parse_marker(toks, p3, "mut"@);
    if p4 >= toks.len() {
        Err(eof_err(toks))
    } else {
        let identifier = toks[p4];
        let p5 = p4 + 1;
        if p5 < toks.len() && token_text(toks[p5]) == ":"@ {
            Ok((None, p5))
        } else {
            let lifetime = match lt {
                Some(l) => Some(LifetimeParamV { lifetime_or_label: l, bounds: Seq::empty() }),
                None => None,
            };
            if p5 < toks.len() && token_text(toks[p5]) == "<"@ {
                if pos < p5 && p5 <= toks.len() {
                    match spec_parse_recursive_ty(toks, p5) {
                        Err(e) => Err(e),
                        Ok((subtypes, p6)) => {
                            let generics = if subtypes.len() == 0 {
                                None
                            } else {
                                Some(subtypes)
                            };
                            match spec_ty_terminator(toks, p6) {
                                Err(e) => Err(e),
                                Ok(p7) => Ok(
                                    (
                                        Some(
                                            TyTokenV {
                                                kind: TyKind::NeverType,
                                                ref_tok,
                                                mut_tok,
                                                identifier,
                                                dyn_tok,
                                                lifetime,
                                                generics,
                                                bounds: Seq::empty(),
                                            },
                                        ),
                                        p7,
                                    ),
                                ),
                            }
                        },
                    }
                } else {
                    Err(stall_err(toks))
                }
            } else {
                match spec_ty_terminator(toks, p5) {
                    Err(e) => Err(e),
                    Ok(p7) => Ok(
                        (
                            Some(
                                TyTokenV {
                                    kind: TyKind::NeverType,
                                    ref_tok,
                                    mut_tok,
                                    identifier,
                                    dyn_tok,
                                    lifetime,
                                    generics: None,
                                    bounds: Seq::empty(),
                                },
                            ),
                            p7,
                        ),
                    ),
                }
            }
        }
    }
}

/// What parsing a `<`-opened generic-argument list yields: the argument
/// types and the position after the closing `>`.  Without a leading `<`
/// the list is empty and nothing is consumed.
pub open spec fn spec_parse_recursive_ty(toks: Seq<TokenV>, pos: int) -> Result<
    (Seq<TyTokenV>, int),
    KParserErrorV,
>
    decreases toks.len() - pos, 3int,
{
    if pos < toks.len() && token_text(toks[pos]) == "<"@ {
        spec_parse_ty_list(toks, pos + 1)
    } else {
        Ok((Seq::empty(), pos))
    }
}

/// What parsing the comma-separated entries up to and over the closing `>`
/// yields.
pub open spec fn spec_parse_ty_list(toks: Seq<TokenV>, pos: int) -> Result<
    (Seq<TyTokenV>, int),
    KParserErrorV,
>
    decreases toks.len() - pos, 2int,
{
    if pos >= toks.len() {
        Err(eof_err(toks))
    } else if token_text(toks[pos]) == ">"@ {
        Ok((Seq::empty(), pos + 1))
    } else {
        match spec_parse_ty(toks, pos) {
            Err(e) => Err(e),
            Ok((None, p2)) => Err(perr(bound_in_generics_msg(), toks[p2])),
            Ok((Some(ty), p2)) => {
                if pos < p2 && p2 <= toks.len() {
                    match spec_parse_ty_list(toks, p2) {
                        Err(e) => Err(e),
                        Ok((rest, p3)) => Ok((seq![ty] + rest, p3)),
                    }
                } else {
                    Err(stall_err(toks))
                }
            },
        }
    }
}

/// Every step of the type grammar moves the position strictly forward and
/// never past the end; a "no type" answer stands on a `:` token.
pub proof fn lemma_ty_progress(toks: Seq<TokenV>, pos: int)
    requires
        0 <= pos <= toks.len(),
    ensures
        match spec_parse_ty(toks, pos) {
            Ok((v, p)) => pos < p <= toks.len() && (v is None ==> p < toks.len() && token_text(
                toks[p],
            ) == ":"@),
            Err(e) => true,
        },
        match spec_parse_ty_list(toks, pos) {
            Ok((s, p)) => pos < p <= toks.len(),
            Err(e) => true,
        },
        match spec_parse_recursive_ty(toks, pos) {
            Ok((s, p)) => pos <= p <= toks.len(),
            Err(e) => true,
        },
    decreases toks.len() - pos,
{
    let (ref_tok, p1) = spec_parse_marker(toks, pos, "&"@);
    let (lt, p2) = spec_parse_lifetime(toks, p1);
    let (dyn_tok, p3) = spec_parse_marker(toks, p2, "dyn"@);
    let (mut_tok, p4) = spec_parse_marker(toks, p3, "mut"@);
    assert(pos <= p1 <= p2 <= p3 <= p4 <= toks.len());
    if p4 < toks.len() {
        let p5 = p4 + 1;
        if !(p5 < toks.len() && token_text(toks[p5]) == ":"@) {
            if p5 < toks.len() && token_text(toks[p5]) == "<"@ {
                lemma_ty_progress(toks, p5);
            }
        }
    }
    if pos < toks.len() && token_text(toks[pos]) != ">"@ {
        match spec_parse_ty(toks, pos) {
            Ok((Some(ty), p2x)) => {
                if pos < p2x && p2x <= toks.len() {
                    lemma_ty_progress(toks, p2x);
                }
            },
            _ => {},
        }
    }
    if pos < toks.len() && token_text(toks[pos]) == "<"@ {
        lemma_ty_progress(toks, pos + 1);
    }
}

/// Parse a type expression, returning the type if one is found, or `None`
/// when the tokens are a trait-bound clause for the caller to reinterpret.
#[verifier::rlimit(100)]
pub fn parse_ty<T: KParserTracer + ?Sized>(stream: &mut KTokenStream, tracer: &T) -> (r: Result<
    Option<TyToken>,
    KParserError,
>)
    requires
        old(stream).wf(),
        old(stream).toks().len() > 0,
    ensures
        final(stream).wf(),
        final(stream).toks() == old(stream).toks(),
        match spec_parse_ty(old(stream).toks(), old(stream).pos()) {
            Ok((v, p)) => {
                &&& r matches Ok(x)
                &&& opt_ty_view(x) == v
                &&& final(stream).pos() == p
            },
            Err(e) => r matches Err(er) && er@ == e,
        },
    decreases old(stream).toks().len() - old(stream).pos(), 1int,
{
    tracer.log("parsing a type expression");
    let ghost toks = old(stream).toks();
    let ghost pos0 = old(stream).pos();
    let ref_tok = check_and_parse_ref(stream);
    let lifetime_tok = check_and_parse_lifetime(stream);
    let lifetime = match lifetime_tok {
        Some(l) => Some(LifetimeParam { lifetime_or_label: l, bounds: Vec::new() }),
        None => None,
    };
    let dyn_tok = check_and_parse_dyn(stream);
    let mut_tok = check_and_parse_mut(stream);
    if stream.is_end() {
        return Err(make_eof_err(stream));
    }
    let identifier = stream.advance();
    if !stream.is_end() && stream.match_tok(":") {
        return Ok(None);
    }
    let mut generics: Option<Vec<TyToken>> = None;
    if !stream.is_end() && stream.match_tok("<") {
        proof {
            lemma_ty_progress(toks, stream.pos());
        }
        let subtypes = match parse_recursive_ty(stream, tracer) {
            Ok(s) => s,
            Err(e) => {
                return Err(e);
            },
        };
        if subtypes.len() > 0 {
            proof {
                lemma_ty_seq_view_len(subtypes@);
            }
            generics = Some(subtypes);
        } else {
            proof {
                lemma_ty_seq_view_len(subtypes@);
            }
        }
    }
    if !stream.is_end() {
        let is_grp = stream.is_group();
        if stream.match_tok(",") {
            stream.next();
        } else if is_grp || stream.match_tok(">") || stream.match_tok(";") || stream.match_tok(
            ":",
        ) {
            proof {
                let t = token_text(stream.toks()[stream.pos()]);
                if t == ">"@ {
                    assert(ty_stop_words()[1] == ">"@);
                    assert(ty_stop_words().contains(t));
                }
                if t == ";"@ {
                    assert(ty_stop_words()[2] == ";"@);
                    assert(ty_stop_words().contains(t));
                }
                if t == ":"@ {
                    assert(ty_stop_words()[3] == ":"@);
                    assert(ty_stop_words().contains(t));
                }
            }
        } else {
            proof {
                let t = token_text(stream.toks()[stream.pos()]);
                assert(!ty_stop_words().contains(t)) by {
                    if ty_stop_words().contains(t) {
                        let k = choose|k: int| 0 <= k < 4 && ty_stop_words()[k] == t;
                        assert(ty_stop_words()[0] == ","@);
                        assert(ty_stop_words()[1] == ">"@);
                        assert(ty_stop_words()[2] == ";"@);
                        assert(ty_stop_words()[3] == ":"@);
                    }
                }
            }
            let sep = stream.peek().clone();
            let sep_text = sep.to_text();
            let msg = String::from_str(
                "unterminated type expression: unexpected separator `",
            ).concat(sep_text.as_str()).concat("`");
            return Err(KParserError::with_msg(sep, msg.as_str(), String::new(), String::new()));
        }
    }
    Ok(
        Some(
            TyToken {
                kind: TyKind::NeverType,
                ref_tok,
                mut_tok,
                identifier,
                dyn_tok,
                lifetime,
                generics,
                bounds: Vec::new(),
            },
        ),
    )
}

/// Parse a `<`-opened generic-argument list; without a leading `<` the
/// list is empty and nothing is consumed.
pub fn parse_recursive_ty<T: KParserTracer + ?Sized>(ast: &mut KTokenStream, tracer: &T) -> (r:
    Result<Vec<TyToken>, KParserError>)
    requires
        old(ast).wf(),
    ensures
        final(ast).wf(),
        final(ast).toks() == old(ast).toks(),
        match spec_parse_recursive_ty(old(ast).toks(), old(ast).pos()) {
            Ok((s, p)) => {
                &&& r matches Ok(v)
                &&& ty_seq_view(v@) == s
                &&& final(ast).pos() == p
            },
            Err(e) => r matches Err(er) && er@ == e,
        },
    decreases old(ast).toks().len() - old(ast).pos(), 3int,
{
    if !ast.is_end() && ast.match_tok("<") {
        ast.next();
        parse_ty_list(ast, tracer)
    } else {
        Ok(Vec::new())
    }
}

/// Parse the comma-separated entries of a generic-argument list up to and
/// over the closing `>`.
fn parse_ty_list<T: KParserTracer + ?Sized>(ast: &mut KTokenStream, tracer: &T) -> (r: Result<
    Vec<TyToken>,
    KParserError,
>)
    requires
        old(ast).wf(),
        old(ast).toks().len() > 0,
    ensures
        final(ast).wf(),
        final(ast).toks() == old(ast).toks(),
        match spec_parse_ty_list(old(ast).toks(), old(ast).pos()) {
            Ok((s, p)) => {
                &&& r matches Ok(v)
                &&& ty_seq_view(v@) == s
                &&& final(ast).pos() == p
            },
            Err(e) => r matches Err(er) && er@ == e,
        },
    decreases old(ast).toks().len() - old(ast).pos(), 2int,
{
    if ast.is_end() {
        return Err(make_eof_err(ast));
    }
    if ast.match_tok(">") {
        ast.next();
        return Ok(Vec::new());
    }
    let ghost toks = old(ast).toks();
    let ghost pos0 = old(ast).pos();
    proof {
        lemma_ty_progress(toks, pos0);
    }
    match parse_ty(ast, tracer) {
        Err(e) => Err(e),
        Ok(None) => {
            let tok = ast.peek().clone();
            Err(
                KParserError::with_msg(
                    tok,
                    "failing to parse the type, this is a bug, please report it",
                    String::new(),
                    String::new(),
                ),
            )
        },
        Ok(Some(ty)) => {
            let ghost tyg = ty;
            match parse_ty_list(ast, tracer) {
                Err(e) => Err(e),
                Ok(rest) => {
                    let ghost restg = rest@;
                    let mut out = rest;
                    out.insert(0, ty);
                    proof {
                        assert(out@ == restg.insert(0, tyg));
                        assert(out@.len() == restg.len() + 1);
                        assert(out@[0] == tyg);
                        assert(out@.drop_first() =~= restg);
                        assert(ty_seq_view(out@) == seq![ty_view(out@[0])] + ty_seq_view(
                            out@.drop_first(),
                        ));
                        assert(ty_seq_view(out@) == seq![ty_view(tyg)] + ty_seq_view(restg));
                    }
                    Ok(out)
                },
            }
        },
    }
}

} // verus!
