//! The trait parser: attributes, visibility, the `trait` keyword, the
//! name, an optional bounds clause, and a delimited body whose contents
//! are parsed as a sequence of method declarations, bodyless ones
//! permitted.
use vstd::prelude::*;

use crate::kparser::{KParserError, KParserErrorV, KParserTracer};
use crate::kproc_macros::KTokenStream;
use crate::rust::ast_nodes::{trait_view, TraitToken, TraitTokenV};
use crate::rust::kattr::{check_and_parse_cond_attribute, spec_parse_cond_attrs};
use crate::rust::kcore::{
    blame_tok, check_and_parse_bounds, check_and_parse_visibility, expect_err, expected_group_msg,
    make_expected_group_err, perr, spec_advance, spec_parse_bounds, spec_parse_visibility,
};
use crate::rust::kfunc::{parse_fn_seq, spec_parse_fn_seq};
use crate::token::{token_text, Token, TokenV};

verus! {

broadcast use crate::kproc_macros::KTokenStream::lemma_wf_bounds;

/// What parsing a trait declaration yields: the trait and the position of
/// its body group.
pub open spec fn spec_parse_trait(toks: Seq<TokenV>, pos: int) -> Result<
    (TraitTokenV, int),
    KParserErrorV,
> {
    match spec_parse_cond_attrs(toks, pos) {
        Err(e) => Err(e),
        Ok((attrs, p1)) => {
            let (vis, p2) = spec_parse_visibility(toks, p1);
            let (trait_tok, p3) = spec_advance(toks, p2);
            if token_text(trait_tok) != "trait"@ {
                Err(expect_err("trait"@, trait_tok))
            } else {
                let (name, p4) = spec_advance(toks, p3);
                match spec_parse_bounds(toks, p4) {
                    Err(e) => Err(e),
                    Ok((generics, p5)) => {
                        if p5 < toks.len() && toks[p5] is Group {
                            let inner = toks[p5]->Group_1;
                            match spec_parse_fn_seq(inner, 0) {
                                Err(e) => Err(e),
                                Ok(functions) => Ok(
                                    (
                                        TraitTokenV {
                                            attrs,
                                            visibility: vis,
                                            ident: name,
                                            generics,
                                            inn_attrs: None,
                                            associated_items: Seq::empty(),
                                            raw_block: inner,
                                            functions,
                                        },
                                        p5,
                                    ),
                                ),
                            }
                        } else {
                            Err(perr(expected_group_msg(), blame_tok(toks, p5)))
                        }
                    },
                }
            }
        },
    }
}

/// Parse a trait declaration into its AST node.  The cursor is left on the
/// body group.
pub fn parse_trait<T: KParserTracer + ?Sized>(ast: &mut KTokenStream, tracer: &T) -> (r: Result<
    TraitToken,
    KParserError,
>)
    requires
        old(ast).wf(),
        old(ast).toks().len() > 0,
    ensures
        final(ast).wf(),
        final(ast).toks() == old(ast).toks(),
        match spec_parse_trait(old(ast).toks(), old(ast).pos()) {
            Ok((t, p)) => {
                &&& r matches Ok(x)
                &&& x@ == t
                &&& final(ast).pos() == p
            },
            Err(e) => r matches Err(er) && er@ == e,
        },
{
    tracer.log("parsing a trait declaration");
    let attrs = match check_and_parse_cond_attribute(ast, tracer) {
        Err(e) => {
            return Err(e);
        },
        Ok(m) => m,
    };
    let vist = check_and_parse_visibility(ast);
    let trait_tok = ast.advance();
    if let Err(e) = KParserError::expect("trait", &trait_tok, String::new(), String::new()) {
        return Err(e);
    }
    let name = ast.advance();
    let generics = match check_and_parse_bounds(ast, tracer) {
        Err(e) => {
            return Err(e);
        },
        Ok(g) => g,
    };
    if ast.is_end() || !ast.is_group() {
        return Err(make_expected_group_err(ast));
    }
    let raw_block = ast.unwrap_group_as_stream();
    let mut block = ast.to_ktoken_stream();
    let funs = match parse_fn_seq(&mut block, tracer) {
        Err(e) => {
            return Err(e);
        },
        Ok(f) => f,
    };
    let trait_tok = TraitToken {
        attrs,
        visibility: vist,
        ident: name,
        generics,
        inn_attrs: None,
        associated_items: Vec::new(),
        raw_block,
        functions: funs,
    };
    proof {
        assert(crate::rust::ast_nodes::assoc_seq_view(trait_tok.associated_items@) =~= Seq::<
            crate::rust::ast_nodes::AssociatedItemV,
        >::empty());
    }
    Ok(trait_tok)
}

} // verus!
