//! A high-level node for callers that work with more than one declaration
//! kind, with renderers that turn a node back into source text.
use vstd::prelude::*;

use crate::rust::ast_nodes::{ImplToken, ImplTokenV, StructToken, StructTokenV};
use crate::rust::fmt::{
    generics_tokens, join_tokens, spec_generics_tokens, spec_struct_tokens, struct_tokens,
};
use crate::token::{texts_join, tokens_view, Delim, Span, Token, TokenV};

verus! {

/// A parsed declaration of one of the renderable kinds.
#[derive(Debug)]
pub enum RustAST {
    Struct(StructToken),
    Impl(ImplToken),
}

/// The token sequence of a rendered `impl` block: the keyword, an optional
/// generics clause, the name, and the raw body in braces.
pub open spec fn spec_impl_tokens(t: ImplTokenV) -> Seq<TokenV> {
    seq![TokenV::Ident("impl"@)] + (match t.generics {
        Some(g) => spec_generics_tokens(g),
        None => Seq::empty(),
    }) + seq![t.name, TokenV::Group(Delim::Brace, t.raw_block)]
}

impl RustAST {
    /// Render a struct declaration as source text.
    pub fn fmt_struct(&self, token: &StructToken) -> (r: String)
        ensures
            r@ == texts_join(spec_struct_tokens(token@)),
    {
        let toks = struct_tokens(token);
        join_tokens(&toks)
    }

    /// Render an `impl` block as source text.
    pub fn fmt_impl(&self, token: &ImplToken) -> (r: String)
        ensures
            r@ == texts_join(spec_impl_tokens(token@)),
    {
        broadcast use crate::token::lemma_tokens_view_concat;
        broadcast use crate::token::lemma_tokens_view_push;

        let mut out: Vec<Token> = Vec::new();
        proof {
            assert(tokens_view(out@) =~= Seq::<TokenV>::empty());
        }
        out.push(Token::Ident { text: String::from_str("impl"), span: Span::zero() });
        match &token.generics {
            Some(g) => {
                let mut clause = generics_tokens(g);
                out.append(&mut clause);
            },
            None => {},
        }
        out.push(token.name.clone());
        let body = crate::kproc_macros::clone_tokens(&token.raw_block);
        out.push(Token::Group { delim: Delim::Brace, toks: body, span: Span::zero() });
        proof {
            assert(tokens_view(out@) =~= spec_impl_tokens(token@));
        }
        join_tokens(&out)
    }

    /// Render this node as source text.
    pub fn render(&self) -> (r: String)
        ensures
            match self {
                RustAST::Struct(t) => r@ == texts_join(spec_struct_tokens(t@)),
                RustAST::Impl(t) => r@ == texts_join(spec_impl_tokens(t@)),
            },
    {
        match self {
            RustAST::Struct(token) => {
                let toks = struct_tokens(token);
                join_tokens(&toks)
            },
            RustAST::Impl(token) => self.fmt_impl(token),
        }
    }
}

} // verus!
