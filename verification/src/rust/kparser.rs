//! The top-level dispatcher: given an unclassified fragment, try the
//! struct, impl, trait and function grammars in that fixed order on fresh
//! cursors, and return the first structural match, or a diagnostic on the
//! first token when none of them matches.
use vstd::prelude::*;

use crate::kparser::{DummyTracer, KParserError, KParserErrorV, KParserTracer};
use crate::kproc_macros::KTokenStream;
use crate::rust::ast_nodes::{
    KMap, MethodDeclToken, MethodDeclTokenV, StructToken, StructTokenV, TopLevelNode,
    TopLevelNodeV,
};
use crate::rust::kcore::perr;
use crate::rust::kenum::{parse as parse_enum_decl, spec_parse_enum, EnumToken, EnumTokenV};
use crate::rust::kfunc::{parse_fn, spec_parse_fn};
use crate::rust::kimpl::{parse_impl, spec_parse_impl};
use crate::rust::kstruct::{parse_struct, spec_parse_struct};
use crate::rust::ktrait::{parse_trait, spec_parse_trait};
use crate::rust::ty::{parse_ty, spec_parse_ty};
use crate::token::{tokens_view, Span, Token, TokenV};

verus! {

broadcast use crate::kproc_macros::KTokenStream::lemma_wf_bounds;

/// The message reported when no grammar matches the fragment.
pub open spec fn not_recognized_msg() -> Seq<char> {
    "token sequence not recognized as any known declaration kind"@
}

/// What dispatching an unclassified fragment yields: the first grammar
/// that matches, in the order struct, impl, trait, function; or a
/// diagnostic on the fragment's first token.
pub open spec fn spec_dispatch(toks: Seq<TokenV>) -> Result<TopLevelNodeV, KParserErrorV> {
    if spec_parse_struct(toks, 0) is Ok {
        Ok(TopLevelNodeV::Struct(spec_parse_struct(toks, 0)->Ok_0.0))
    } else if spec_parse_impl(toks, 0) is Ok {
        Ok(TopLevelNodeV::Impl(spec_parse_impl(toks, 0)->Ok_0.0))
    } else if spec_parse_trait(toks, 0) is Ok {
        Ok(TopLevelNodeV::Trait(spec_parse_trait(toks, 0)->Ok_0.0))
    } else if spec_parse_fn(toks, 0) is Ok {
        Ok(TopLevelNodeV::Fn(spec_parse_fn(toks, 0)->Ok_0.0))
    } else {
        Err(perr(not_recognized_msg(), toks[0]))
    }
}

/// The grammar dispatcher, with the tracing capability injected into each
/// parse call.
pub struct RustParser<'tcx, T: KParserTracer> {
    pub tracer: &'tcx T,
}

impl<'tcx> RustParser<'tcx, DummyTracer> {
    /// A parser that traces nothing.
    pub fn new() -> (r: RustParser<'tcx, DummyTracer>) {
        RustParser { tracer: &DummyTracer }
    }
}

impl<'tcx, T: KParserTracer> RustParser<'tcx, T> {
    /// A parser that reports its progress through the given tracer.
    pub fn with_tracer(tracer: &'tcx T) -> (r: RustParser<'tcx, T>) {
        RustParser { tracer }
    }

    /// Try each grammar in the fixed priority order on a fresh cursor and
    /// return the first structural match; when none matches, report that
    /// the fragment is not recognized, blaming its first token.
    pub fn parse(&self, stream: &Vec<Token>) -> (r: Result<TopLevelNode, KParserError>)
        requires
            stream@.len() > 0,
        ensures
            match spec_dispatch(tokens_view(stream@)) {
                Ok(n) => r matches Ok(x) && x@ == n,
                Err(e) => r matches Err(er) && er@ == e,
            },
    {
        let mut ast = KTokenStream::new(stream);
        let first = ast.peek().clone();
        match parse_struct(&mut ast, self.tracer) {
            Ok(tok) => {
                return Ok(TopLevelNode::Struct(tok));
            },
            Err(e) => {
                self.tracer.log("the struct grammar did not match");
            },
        }
        let mut ast = KTokenStream::new(stream);
        match parse_impl(&mut ast, self.tracer) {
            Ok(tok) => {
                return Ok(TopLevelNode::Impl(tok));
            },
            Err(e) => {
                self.tracer.log("the impl grammar did not match");
            },
        }
        let mut ast = KTokenStream::new(stream);
        match parse_trait(&mut ast, self.tracer) {
            Ok(tok) => {
                return Ok(TopLevelNode::Trait(tok));
            },
            Err(e) => {
                self.tracer.log("the trait grammar did not match");
            },
        }
        let mut ast = KTokenStream::new(stream);
        match parse_fn(&mut ast, self.tracer) {
            Ok(tok) => {
                return Ok(TopLevelNode::Fn(tok));
            },
            Err(e) => {
                self.tracer.log("the function grammar did not match");
            },
        }
        Err(
            KParserError::with_msg(
                first,
                "token sequence not recognized as any known declaration kind",
                String::new(),
                String::new(),
            ),
        )
    }

    /// Parse a fragment known to be a struct declaration.
    pub fn parse_struct(&self, stream: &Vec<Token>) -> (r: StructToken)
        requires
            stream@.len() > 0,
            spec_parse_struct(tokens_view(stream@), 0) is Ok,
        ensures
            r@ == spec_parse_struct(tokens_view(stream@), 0)->Ok_0.0,
    {
        let mut cursor = KTokenStream::new(stream);
        match parse_struct(&mut cursor, self.tracer) {
            Ok(t) => t,
            Err(e) => {
                proof {
                    assert(false);
                }
                StructToken {
                    attrs: KMap::new(),
                    visibility: None,
                    name: Token::Ident { text: String::new(), span: Span::zero() },
                    fields: Vec::new(),
                    generics: None,
                }
            },
        }
    }

    /// Parse a fragment known to be an `impl` block.
    pub fn parse_impl(&self, stream: &Vec<Token>) -> (r: crate::rust::ast_nodes::ImplToken)
        requires
            stream@.len() > 0,
            spec_parse_impl(tokens_view(stream@), 0) is Ok,
        ensures
            r@ == spec_parse_impl(tokens_view(stream@), 0)->Ok_0.0,
    {
        let mut cursor = KTokenStream::new(stream);
        match parse_impl(&mut cursor, self.tracer) {
            Ok(t) => t,
            Err(e) => {
                proof {
                    assert(false);
                }
                crate::rust::ast_nodes::ImplToken {
                    attributes: KMap::new(),
                    generics: None,
                    name: Token::Ident { text: String::new(), span: Span::zero() },
                    for_ty: None,
                    raw_block: Vec::new(),
                    functions: Vec::new(),
                }
            },
        }
    }

    /// Parse a fragment known to be a trait declaration.
    pub fn parse_trait(&self, stream: &Vec<Token>) -> (r: crate::rust::ast_nodes::TraitToken)
        requires
            stream@.len() > 0,
            spec_parse_trait(tokens_view(stream@), 0) is Ok,
        ensures
            r@ == spec_parse_trait(tokens_view(stream@), 0)->Ok_0.0,
    {
        let mut cursor = KTokenStream::new(stream);
        match parse_trait(&mut cursor, self.tracer) {
            Ok(t) => t,
            Err(e) => {
                proof {
                    assert(false);
                }
                crate::rust::ast_nodes::TraitToken {
                    attrs: KMap::new(),
                    visibility: None,
                    ident: Token::Ident { text: String::new(), span: Span::zero() },
                    generics: None,
                    inn_attrs: None,
                    associated_items: Vec::new(),
                    raw_block: Vec::new(),
                    functions: Vec::new(),
                }
            },
        }
    }

    /// Parse a fragment known to be a function declaration.
    pub fn parse_fn(&self, stream: &Vec<Token>) -> (r: MethodDeclToken)
        requires
            stream@.len() > 0,
            spec_parse_fn(tokens_view(stream@), 0) is Ok,
        ensures
            r@ == spec_parse_fn(tokens_view(stream@), 0)->Ok_0.0,
    {
        let mut cursor = KTokenStream::new(stream);
        match parse_fn(&mut cursor, self.tracer) {
            Ok(t) => t,
            Err(e) => {
                proof {
                    assert(false);
                }
                MethodDeclToken {
                    attrs: KMap::new(),
                    visibility: None,
                    qualifier: None,
                    ident: Token::Ident { text: String::new(), span: Span::zero() },
                    generics: None,
                    raw_params: Vec::new(),
                    params: Vec::new(),
                    return_ty: None,
                    raw_body: None,
                }
            },
        }
    }

    /// Parse a fragment known to be an enum declaration.
    pub fn parse_enum(&self, stream: &Vec<Token>) -> (r: EnumToken)
        requires
            stream@.len() > 0,
            spec_parse_enum(tokens_view(stream@), 0) is Ok,
        ensures
            r@ == spec_parse_enum(tokens_view(stream@), 0)->Ok_0.0,
    {
        let mut cursor = KTokenStream::new(stream);
        match parse_enum_decl(&mut cursor, self.tracer) {
            Ok(t) => t,
            Err(e) => {
                proof {
                    assert(false);
                }
                EnumToken {
                    attributes: KMap::new(),
                    visibility: None,
                    identifier: Token::Ident { text: String::new(), span: Span::zero() },
                    raw_body: Vec::new(),
                    values: Vec::new(),
                }
            },
        }
    }
}

} // verus!
