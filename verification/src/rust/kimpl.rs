//! The `impl`-block parser: attributes, the `impl` keyword, an optional
//! bounds clause, the name, an optional `for` clause, and a delimited body
//! whose contents are parsed as a sequence of method declarations.
use vstd::prelude::*;

use crate::kparser::{KParserError, KParserErrorV, KParserTracer};
use crate::kproc_macros::KTokenStream;
use crate::rust::ast_nodes::{impl_view, ImplToken, ImplTokenV};
use crate::rust::kattr::{check_and_parse_cond_attribute, spec_parse_cond_attrs};
use crate::rust::kcore::{
    blame_tok, check_and_parse_bounds, expect_err, expected_group_msg, make_expected_group_err,
    perr, spec_advance, spec_parse_bounds,
};
use crate::rust::kfunc::{parse_fn_seq, spec_parse_fn_seq};
use crate::token::{token_text, Token, TokenV};

verus! {

broadcast use crate::kproc_macros::KTokenStream::lemma_wf_bounds;

/// What parsing an `impl` block yields: the block and the position of its
/// body group.
pub open spec fn spec_parse_impl(toks: Seq<TokenV>, pos: int) -> Result<
    (ImplTokenV, int),
    KParserErrorV,
> {
    match spec_parse_cond_attrs(toks, pos) {
        Err(e) => Err(e),
        Ok((attrs, p1)) => {
            let (impl_tok, p2) = spec_advance(toks, p1);
            if token_text(impl_tok) != "impl"@ {
                Err(expect_err("impl"@, impl_tok))
            } else {
                match spec_parse_bounds(toks, p2) {
                    Err(e) => Err(e),
                    Ok((generics, p3)) => {
                        let (name, p4) = spec_advance(toks, p3);
                        let p5 = if p4 < toks.len() && token_text(toks[p4]) == "for"@ {
                            if p4 + 1 < toks.len() {
                                p4 + 2
                            } else {
                                p4 + 1
                            }
                        } else {
                            p4
                        };
                        if p5 < toks.len() && toks[p5] is Group {
                            let inner = toks[p5]->Group_1;
                            match spec_parse_fn_seq(inner, 0) {
                                Err(e) => Err(e),
                                Ok(functions) => Ok(
                                    (
                                        ImplTokenV {
                                            attributes: attrs,
                                            generics,
                                            name,
                                            for_ty: None,
                                            raw_block: inner,
                                            functions,
                                        },
                                        p5,
                                    ),
                                ),
                            }
                        } else {
                            Err(perr(expected_group_msg(), blame_tok(toks, p5)))
                        }
                    },
                }
            }
        },
    }
}

/// Parse an `impl` block into its AST node.  The cursor is left on the
/// body group.  The type after a `for` clause is consumed but, as an
/// abstraction for it is still missing, not recorded.
pub fn parse_impl<T: KParserTracer + ?Sized>(toks: &mut KTokenStream, tracer: &T) -> (r: Result<
    ImplToken,
    KParserError,
>)
    requires
        old(toks).wf(),
        old(toks).toks().len() > 0,
    ensures
        final(toks).wf(),
        final(toks).toks() == old(toks).toks(),
        match spec_parse_impl(old(toks).toks(), old(toks).pos()) {
            Ok((t, p)) => {
                &&& r matches Ok(x)
                &&& x@ == t
                &&& final(toks).pos() == p
            },
            Err(e) => r matches Err(er) && er@ == e,
        },
{
    tracer.log("parsing an impl block");
    let attr = match check_and_parse_cond_attribute(toks, tracer) {
        Err(e) => {
            return Err(e);
        },
        Ok(m) => m,
    };
    let impl_tok = toks.advance();
    if let Err(e) = KParserError::expect("impl", &impl_tok, String::new(), String::new()) {
        return Err(e);
    }
    let generics = match check_and_parse_bounds(toks, tracer) {
        Err(e) => {
            return Err(e);
        },
        Ok(g) => g,
    };
    let name = toks.advance();
    if !toks.is_end() && toks.match_tok("for") {
        let for_tok = toks.advance();
        if !toks.is_end() {
            let target = toks.advance();
            tracer.log("consumed the target type of a for clause");
        }
    }
    if toks.is_end() || !toks.is_group() {
        return Err(make_expected_group_err(toks));
    }
    let raw_impl_block = toks.unwrap_group_as_stream();
    let mut impl_block = toks.to_ktoken_stream();
    let funs = match parse_fn_seq(&mut impl_block, tracer) {
        Err(e) => {
            return Err(e);
        },
        Ok(f) => f,
    };
    let impl_tok = ImplToken {
        attributes: attr,
        generics,
        name,
        for_ty: None,
        raw_block: raw_impl_block,
        functions: funs,
    };
    Ok(impl_tok)
}

} // verus!
