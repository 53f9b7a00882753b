//! The function and method parser: attributes, conditional visibility, an
//! optional qualifier, the `fn` keyword, the name, an optional bounds
//! clause, the parameter list (with the receiver handled specially), an
//! optional return clause, and either an opaque body group or a bodyless
//! `;` terminator.
use vstd::prelude::*;

use crate::kparser::{KParserError, KParserErrorV, KParserTracer};
use crate::kproc_macros::KTokenStream;
use crate::rust::ast_nodes::{
    method_view, opt_generics_view, opt_token_view, opt_ty_view, param_seq_view, ty_view, KMap,
    MethodDeclToken, MethodDeclTokenV, TyToken, TyTokenV,
};
use crate::rust::kattr::{
    check_and_parse_cond_attribute, lemma_cond_attrs_progress, spec_parse_cond_attrs,
};
use crate::rust::kcore::{
    blame_tok, check_and_parse_bounds, check_and_parse_fn_qualifier, check_and_parse_return_type,
    check_and_parse_visibility, check_is_fun_with_visibility, eof_err, expect_err,
    expected_group_msg, lemma_bounds_list_progress, make_eof_err, make_expected_group_err, perr,
    spec_advance, spec_is_fun_with_visibility, spec_parse_bounds, spec_parse_fn_qualifier,
    spec_parse_return_type,
};
use crate::rust::ty::{lemma_ty_progress, parse_ty, spec_parse_ty};
use crate::token::{token_text, Token, TokenV};

verus! {

broadcast use crate::kproc_macros::KTokenStream::lemma_wf_bounds;

/// The message for a parameter whose type cannot be parsed.
pub open spec fn param_ty_msg() -> Seq<char> {
    "fails to parse the rust type, this is a bug, please open a issue"@
}

/// The receiver-introducing token texts.
pub open spec fn is_receiver_tok(t: Seq<char>) -> bool {
    t == "&"@ || t == "self"@ || t == "mut"@
}

/// Where skipping a receiver parameter ends: at the `,` after it or at the
/// end of the stream.
pub open spec fn spec_skip_receiver(toks: Seq<TokenV>, pos: int) -> int
    decreases toks.len() - pos,
{
    if pos >= toks.len() || token_text(toks[pos]) == ","@ {
        pos
    } else {
        spec_skip_receiver(toks, pos + 1)
    }
}

/// Skipping a receiver never leaves the stream.
pub proof fn lemma_skip_receiver(toks: Seq<TokenV>, pos: int)
    requires
        0 <= pos <= toks.len(),
    ensures
        pos <= spec_skip_receiver(toks, pos) <= toks.len(),
    decreases toks.len() - pos,
{
    if !(pos >= toks.len() || token_text(toks[pos]) == ","@) {
        lemma_skip_receiver(toks, pos + 1);
    }
}

/// What parsing the typed parameters of a parameter list yields.  A leading
/// receiver parameter (`self` in its forms) is skipped, not collected.
pub open spec fn spec_parse_fn_params(toks: Seq<TokenV>, pos: int) -> Result<
    Seq<(TokenV, TyTokenV)>,
    KParserErrorV,
>
    decreases toks.len() - pos, 1int,
{
    if pos >= toks.len() {
        Ok(Seq::empty())
    } else if is_receiver_tok(token_text(toks[pos])) {
        let p1 = spec_skip_receiver(toks, pos);
        if p1 >= toks.len() {
            Ok(Seq::empty())
        } else {
            let p2 = p1 + 1;
            if pos < p2 && p2 <= toks.len() {
                spec_parse_fn_typed_params(toks, p2)
            } else {
                Err(eof_err(toks))
            }
        }
    } else {
        spec_parse_fn_typed_params(toks, pos)
    }
}

/// What parsing the `name: type` parameters yields, one per loop step.
pub open spec fn spec_parse_fn_typed_params(toks: Seq<TokenV>, pos: int) -> Result<
    Seq<(TokenV, TyTokenV)>,
    KParserErrorV,
>
    decreases toks.len() - pos, 0int,
{
    if pos >= toks.len() {
        Ok(Seq::empty())
    } else {
        let (ident, p1) = spec_advance(toks, pos);
        let (sep, p2) = spec_advance(toks, p1);
        if token_text(sep) != ":"@ {
            Err(expect_err(":"@, sep))
        } else {
            match spec_parse_ty(toks, p2) {
                Err(e) => Err(e),
                Ok((None, p3)) => Err(perr(param_ty_msg(), ident)),
                Ok((Some(ty), p3)) => {
                    if pos < p3 && p3 <= toks.len() {
                        match spec_parse_fn_params(toks, p3) {
                            Err(e) => Err(e),
                            Ok(rest) => Ok(seq![(ident, ty)] + rest),
                        }
                    } else {
                        Err(eof_err(toks))
                    }
                },
            }
        }
    }
}

/// What parsing a function or method declaration yields, with the position
/// after its body group or terminator.
pub open spec fn spec_parse_fn(toks: Seq<TokenV>, pos: int) -> Result<
    (MethodDeclTokenV, int),
    KParserErrorV,
> {
    match spec_parse_cond_attrs(toks, pos) {
        Err(e) => Err(e),
        Ok((attrs, p1)) => {
            let (vis, p2) = if spec_is_fun_with_visibility(toks, p1) {
                (Some(toks[p1]), p1 + 1)
            } else {
                (None, p1)
            };
            let (qualifier, p3) = spec_parse_fn_qualifier(toks, p2);
            let (fn_tok, p4) = spec_advance(toks, p3);
            if token_text(fn_tok) != "fn"@ {
                Err(expect_err("fn"@, fn_tok))
            } else {
                let (ident, p5) = spec_advance(toks, p4);
                match spec_parse_bounds(toks, p5) {
                    Err(e) => Err(e),
                    Ok((generics, p6)) => {
                        if p6 < toks.len() && toks[p6] is Group {
                            let raw_params = toks[p6]->Group_1;
                            match spec_parse_fn_params(raw_params, 0) {
                                Err(e) => Err(e),
                                Ok(params) => {
                                    let p7 = p6 + 1;
                                    match spec_parse_return_type(toks, p7) {
                                        Err(e) => Err(e),
                                        Ok((return_ty, p8)) => {
                                            if p8 < toks.len() && toks[p8] is Group {
                                                Ok(
                                                    (
                                                        MethodDeclTokenV {
                                                            attrs,
                                                            visibility: vis,
                                                            qualifier,
                                                            ident,
                                                            generics,
                                                            raw_params,
                                                            params,
                                                            return_ty,
                                                            raw_body: Some(toks[p8]->Group_1),
                                                        },
                                                        p8 + 1,
                                                    ),
                                                )
                                            } else {
                                                let (term, p9) = spec_advance(toks, p8);
                                                if token_text(term) != ";"@ {
                                                    Err(expect_err(";"@, term))
                                                } else {
                                                    Ok(
                                                        (
                                                            MethodDeclTokenV {
                                                                attrs,
                                                                visibility: vis,
                                                                qualifier,
                                                                ident,
                                                                generics,
                                                                raw_params,
                                                                params,
                                                                return_ty,
                                                                raw_body: None,
                                                            },
                                                            p9,
                                                        ),
                                                    )
                                                }
                                            }
                                        },
                                    }
                                },
                            }
                        } else {
                            Err(perr(expected_group_msg(), blame_tok(toks, p6)))
                        }
                    },
                }
            }
        },
    }
}

/// Parse the parameter list of a function or method, skipping a leading
/// receiver parameter and collecting the `name: type` pairs.
pub fn parse_fn_params<T: KParserTracer + ?Sized>(raw_params: &mut KTokenStream, tracer: &T) -> (r:
    Result<Vec<(Token, TyToken)>, KParserError>)
    requires
        old(raw_params).wf(),
    ensures
        final(raw_params).wf(),
        final(raw_params).toks() == old(raw_params).toks(),
        match spec_parse_fn_params(old(raw_params).toks(), old(raw_params).pos()) {
            Ok(s) => r matches Ok(v) && param_seq_view(v@) == s,
            Err(e) => r matches Err(er) && er@ == e,
        },
    decreases old(raw_params).toks().len() - old(raw_params).pos(), 1int,
{
    tracer.log("parsing fn params");
    if raw_params.is_end() {
        let r: Vec<(Token, TyToken)> = Vec::new();
        proof {
            assert(param_seq_view(r@) =~= Seq::<(TokenV, TyTokenV)>::empty());
        }
        return Ok(r);
    }
    let ghost toks = old(raw_params).toks();
    let ghost pos0 = old(raw_params).pos();
    if raw_params.match_tok("&") || raw_params.match_tok("self") || raw_params.match_tok("mut") {
        while !raw_params.is_end() && !raw_params.match_tok(",")
            invariant
                raw_params.wf(),
                raw_params.toks() == toks,
                0 <= pos0 <= raw_params.pos() <= toks.len(),
                spec_skip_receiver(toks, pos0) == spec_skip_receiver(toks, raw_params.pos()),
            decreases toks.len() - raw_params.pos(),
        {
            let receiver_piece = raw_params.advance();
            tracer.log("skipped one receiver token");
        }
        proof {
            assert(spec_skip_receiver(toks, raw_params.pos()) == raw_params.pos());
            lemma_skip_receiver(toks, pos0);
        }
        if raw_params.is_end() {
            let r: Vec<(Token, TyToken)> = Vec::new();
            proof {
                assert(param_seq_view(r@) =~= Seq::<(TokenV, TyTokenV)>::empty());
            }
            return Ok(r);
        }
        raw_params.next();
        return parse_fn_typed_params(raw_params, tracer);
    }
    parse_fn_typed_params(raw_params, tracer)
}

/// Parse the `name: type` parameters of a parameter list.
fn parse_fn_typed_params<T: KParserTracer + ?Sized>(raw_params: &mut KTokenStream, tracer: &T) -> (r:
    Result<Vec<(Token, TyToken)>, KParserError>)
    requires
        old(raw_params).wf(),
    ensures
        final(raw_params).wf(),
        final(raw_params).toks() == old(raw_params).toks(),
        match spec_parse_fn_typed_params(old(raw_params).toks(), old(raw_params).pos()) {
            Ok(s) => r matches Ok(v) && param_seq_view(v@) == s,
            Err(e) => r matches Err(er) && er@ == e,
        },
    decreases old(raw_params).toks().len() - old(raw_params).pos(), 0int,
{
    if raw_params.is_end() {
        let r: Vec<(Token, TyToken)> = Vec::new();
        proof {
            assert(param_seq_view(r@) =~= Seq::<(TokenV, TyTokenV)>::empty());
        }
        return Ok(r);
    }
    let ghost toks = old(raw_params).toks();
    let ghost pos0 = old(raw_params).pos();
    let ident = raw_params.advance();
    let sep = raw_params.advance();
    if let Err(e) = KParserError::expect(":", &sep, String::new(), String::new()) {
        return Err(e);
    }
    proof {
        lemma_ty_progress(toks, raw_params.pos());
    }
    let ty = match parse_ty(raw_params, tracer) {
        Err(e) => {
            return Err(e);
        },
        Ok(None) => {
            return Err(
                KParserError::with_msg(
                    ident,
                    "fails to parse the rust type, this is a bug, please open a issue",
                    String::new(),
                    String::new(),
                ),
            );
        },
        Ok(Some(ty)) => ty,
    };
    let ghost pairg = (ident, ty);
    match parse_fn_params(raw_params, tracer) {
        Err(e) => Err(e),
        Ok(rest) => {
            let ghost restg = rest@;
            let mut out = rest;
            out.insert(0, (ident, ty));
            proof {
                assert(out@ == restg.insert(0, pairg));
                assert(out@[0] == pairg);
                assert(out@.drop_first() =~= restg);
                assert(param_seq_view(out@) =~= seq![
                    (crate::token::token_view(pairg.0), ty_view(pairg.1)),
                ] + param_seq_view(restg));
            }
            Ok(out)
        },
    }
}

/// Parse a function or method declaration into its AST node.
#[verifier::rlimit(100)]
pub fn parse_fn<T: KParserTracer + ?Sized>(toks: &mut KTokenStream, tracer: &T) -> (r: Result<
    MethodDeclToken,
    KParserError,
>)
    requires
        old(toks).wf(),
        old(toks).toks().len() > 0,
    ensures
        final(toks).wf(),
        final(toks).toks() == old(toks).toks(),
        match spec_parse_fn(old(toks).toks(), old(toks).pos()) {
            Ok((m, p)) => {
                &&& r matches Ok(x)
                &&& x@ == m
                &&& final(toks).pos() == p
            },
            Err(e) => r matches Err(er) && er@ == e,
        },
{
    tracer.log("parsing a function declaration");
    let attrs = match check_and_parse_cond_attribute(toks, tracer) {
        Err(e) => {
            return Err(e);
        },
        Ok(m) => m,
    };
    let visibility: Option<Token> = if check_is_fun_with_visibility(toks) {
        check_and_parse_visibility(toks)
    } else {
        None
    };
    let qualifier = check_and_parse_fn_qualifier(toks);
    let fn_tok = toks.advance();
    if let Err(e) = KParserError::expect("fn", &fn_tok, String::new(), String::new()) {
        return Err(e);
    }
    let ident = toks.advance();
    let generics = match check_and_parse_bounds(toks, tracer) {
        Err(e) => {
            return Err(e);
        },
        Ok(g) => g,
    };
    if toks.is_end() || !toks.is_group() {
        return Err(make_expected_group_err(toks));
    }
    let raw_params = toks.unwrap_group_as_stream();
    let mut params_stream = KTokenStream::new(&raw_params);
    let params = match parse_fn_params(&mut params_stream, tracer) {
        Err(e) => {
            return Err(e);
        },
        Ok(p) => p,
    };
    toks.next();
    let rt_ty = match check_and_parse_return_type(toks, tracer) {
        Err(e) => {
            return Err(e);
        },
        Ok(t) => t,
    };
    let body: Option<Vec<Token>> = if !toks.is_end() && toks.is_group() {
        let body = toks.unwrap_group_as_stream();
        toks.next();
        Some(body)
    } else {
        let term = toks.advance();
        if let Err(e) = KParserError::expect(";", &term, String::new(), String::new()) {
            return Err(e);
        }
        None
    };
    let method = MethodDeclToken {
        attrs,
        visibility,
        qualifier,
        ident,
        generics,
        raw_params,
        params,
        raw_body: body,
        return_ty: rt_ty,
    };
    Ok(method)
}

/// A successfully parsed function declaration consumes at least one token.
pub proof fn lemma_parse_fn_progress(toks: Seq<TokenV>, pos: int)
    requires
        0 <= pos <= toks.len(),
    ensures
        match spec_parse_fn(toks, pos) {
            Ok((m, p)) => pos < p <= toks.len(),
            Err(e) => true,
        },
{
    crate::rust::kattr::lemma_cond_attrs_progress(toks, pos);
    match spec_parse_cond_attrs(toks, pos) {
        Ok((attrs, p1)) => {
            let (vis, p2) = if spec_is_fun_with_visibility(toks, p1) {
                (Some(toks[p1]), p1 + 1)
            } else {
                (None::<TokenV>, p1)
            };
            let (qualifier, p3) = spec_parse_fn_qualifier(toks, p2);
            let (fn_tok, p4) = spec_advance(toks, p3);
            if token_text(fn_tok) == "fn"@ {
                let (ident, p5) = spec_advance(toks, p4);
                match spec_parse_bounds(toks, p5) {
                    Ok((generics, p6)) => {
                        if p5 < toks.len() && token_text(toks[p5]) == "<"@ {
                            lemma_bounds_list_progress(toks, p5 + 1);
                        }
                        if p6 < toks.len() && toks[p6] is Group {
                            match spec_parse_fn_params(toks[p6]->Group_1, 0) {
                                Ok(params) => {
                                    if p6 + 1 < toks.len() && token_text(toks[p6 + 1]) == "-"@ && p6
                                        + 2 < toks.len() && token_text(toks[p6 + 2]) == ">"@ {
                                        crate::rust::ty::lemma_ty_progress(toks, p6 + 3);
                                    }
                                },
                                Err(e) => {},
                            }
                        }
                    },
                    Err(e) => {},
                }
            }
        },
        Err(e) => {},
    }
}


/// What parsing a whole stream of method declarations yields.
pub open spec fn spec_parse_fn_seq(toks: Seq<TokenV>, pos: int) -> Result<
    Seq<MethodDeclTokenV>,
    KParserErrorV,
>
    decreases toks.len() - pos,
{
    if pos >= toks.len() {
        Ok(Seq::empty())
    } else {
        match spec_parse_fn(toks, pos) {
            Err(e) => Err(e),
            Ok((m, p2)) => {
                if pos < p2 && p2 <= toks.len() {
                    match spec_parse_fn_seq(toks, p2) {
                        Err(e) => Err(e),
                        Ok(rest) => Ok(seq![m] + rest),
                    }
                } else {
                    Err(eof_err(toks))
                }
            },
        }
    }
}

/// Parse a stream of method declarations until it is exhausted.
pub(crate) fn parse_fn_seq<T: KParserTracer + ?Sized>(block: &mut KTokenStream, tracer: &T) -> (r:
    Result<Vec<MethodDeclToken>, KParserError>)
    requires
        old(block).wf(),
    ensures
        final(block).wf(),
        final(block).toks() == old(block).toks(),
        match spec_parse_fn_seq(old(block).toks(), old(block).pos()) {
            Ok(s) => r matches Ok(v) && crate::rust::ast_nodes::method_seq_view(v@) == s,
            Err(e) => r matches Err(er) && er@ == e,
        },
    decreases old(block).toks().len() - old(block).pos(),
{
    if block.is_end() {
        let r: Vec<MethodDeclToken> = Vec::new();
        proof {
            assert(crate::rust::ast_nodes::method_seq_view(r@) =~= Seq::<
                MethodDeclTokenV,
            >::empty());
        }
        return Ok(r);
    }
    let ghost toks = old(block).toks();
    let ghost pos0 = old(block).pos();
    proof {
        lemma_parse_fn_progress(toks, pos0);
    }
    let m = match parse_fn(block, tracer) {
        Err(e) => {
            return Err(e);
        },
        Ok(m) => m,
    };
    let ghost mg = m;
    match parse_fn_seq(block, tracer) {
        Err(e) => Err(e),
        Ok(rest) => {
            let ghost restg = rest@;
            let mut out = rest;
            out.insert(0, m);
            proof {
                assert(out@ == restg.insert(0, mg));
                assert(out@[0] == mg);
                assert(out@.drop_first() =~= restg);
                assert(crate::rust::ast_nodes::method_seq_view(out@) =~= seq![method_view(mg)]
                    + crate::rust::ast_nodes::method_seq_view(restg));
            }
            Ok(out)
        },
    }
}

} // verus!
