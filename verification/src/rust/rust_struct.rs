//! A second, simpler struct grammar beside the main one: a field-type
//! parser with its own node family and a lifetimes-only generics scanner.
//!
//! These parsers have no error channel, so they demand their inputs up
//! front: every function carries a `requires` stating that its piece of
//! the grammar applies, through `spec` functions that yield `None` on the
//! fragments the grammar has no answer for.
use vstd::prelude::*;

use crate::kparser::KParserTracer;
use crate::kproc_macros::KTokenStream;
use crate::token::{token_text, token_view, tokens_view, Token, TokenV};

verus! {

broadcast use crate::kproc_macros::KTokenStream::lemma_wf_bounds;

/// The lifetimes and generics tokens of a struct's generics clause.
#[derive(Debug, PartialEq, Eq)]
pub struct StructTyToken {
    pub lifetimes: Vec<Token>,
    pub generics: Vec<Token>,
}

/// A field's type in this node family: markers, a recursive generics
/// list, and the base name.
#[derive(Debug, PartialEq, Eq)]
pub struct FieldTyToken {
    pub reference: Option<Token>,
    pub mutable: Option<Token>,
    pub lifetime: Option<Token>,
    pub dyn_tok: Option<Token>,
    pub generics: Vec<FieldTyToken>,
    pub name: Token,
}

/// A field in this node family.
#[derive(Debug, PartialEq, Eq)]
pub struct FieldToken {
    pub visibility: Option<Token>,
    pub name: Token,
    pub ty: FieldTyToken,
}

/// A struct declaration in this node family; its field list sits in the
/// member named `attributes`.
#[derive(Debug, PartialEq, Eq)]
pub struct StructToken {
    pub visibility: Option<Token>,
    pub name: Token,
    pub attributes: Vec<FieldToken>,
    pub generics: Option<StructTyToken>,
}

/// View of [`StructTyToken`].
pub struct StructTyTokenV {
    pub lifetimes: Seq<TokenV>,
    pub generics: Seq<TokenV>,
}

/// View of [`FieldTyToken`].
pub struct FieldTyTokenV {
    pub reference: Option<TokenV>,
    pub mutable: Option<TokenV>,
    pub lifetime: Option<TokenV>,
    pub dyn_tok: Option<TokenV>,
    pub generics: Seq<FieldTyTokenV>,
    pub name: TokenV,
}

/// View of [`FieldToken`].
pub struct FieldDeclV {
    pub visibility: Option<TokenV>,
    pub name: TokenV,
    pub ty: FieldTyTokenV,
}

/// View of [`StructToken`].
pub struct StructDeclV {
    pub visibility: Option<TokenV>,
    pub name: TokenV,
    pub attributes: Seq<FieldDeclV>,
    pub generics: Option<StructTyTokenV>,
}

pub open spec fn field_ty_view(t: FieldTyToken) -> FieldTyTokenV
    decreases t,
{
    FieldTyTokenV {
        reference: crate::rust::ast_nodes::opt_token_view(t.reference),
        mutable: crate::rust::ast_nodes::opt_token_view(t.mutable),
        lifetime: crate::rust::ast_nodes::opt_token_view(t.lifetime),
        dyn_tok: crate::rust::ast_nodes::opt_token_view(t.dyn_tok),
        generics: field_ty_seq_view(t.generics@),
        name: token_view(t.name),
    }
}

pub open spec fn field_ty_seq_view(s: Seq<FieldTyToken>) -> Seq<FieldTyTokenV>
    decreases s,
{
    if s.len() == 0 {
        Seq::empty()
    } else {
        seq![field_ty_view(s[0])] + field_ty_seq_view(s.drop_first())
    }
}

impl View for FieldTyToken {
    type V = FieldTyTokenV;

    open spec fn view(&self) -> FieldTyTokenV {
        field_ty_view(*self)
    }
}

pub open spec fn field_decl_view(f: FieldToken) -> FieldDeclV {
    FieldDeclV {
        visibility: crate::rust::ast_nodes::opt_token_view(f.visibility),
        name: token_view(f.name),
        ty: field_ty_view(f.ty),
    }
}

pub open spec fn field_decl_seq_view(s: Seq<FieldToken>) -> Seq<FieldDeclV> {
    Seq::new(s.len(), |i: int| field_decl_view(s[i]))
}

impl View for FieldToken {
    type V = FieldDeclV;

    open spec fn view(&self) -> FieldDeclV {
        field_decl_view(*self)
    }
}

impl View for StructTyToken {
    type V = StructTyTokenV;

    open spec fn view(&self) -> StructTyTokenV {
        StructTyTokenV { lifetimes: tokens_view(self.lifetimes@), generics: tokens_view(self.generics@) }
    }
}

impl View for StructToken {
    type V = StructDeclV;

    open spec fn view(&self) -> StructDeclV {
        StructDeclV {
            visibility: crate::rust::ast_nodes::opt_token_view(self.visibility),
            name: token_view(self.name),
            attributes: field_decl_seq_view(self.attributes@),
            generics: match self.generics {
                Some(g) => Some(
                    StructTyTokenV {
                        lifetimes: tokens_view(g.lifetimes@),
                        generics: tokens_view(g.generics@),
                    },
                ),
                None => None,
            },
        }
    }
}

/// What an optional single-token marker yields, or `None` at the end of
/// the stream, where the lookahead has nothing to read.
pub open spec fn spec_old_marker(toks: Seq<TokenV>, pos: int, text: Seq<char>) -> Option<
    (Option<TokenV>, int),
> {
    if pos >= toks.len() {
        None
    } else {
        Some(crate::rust::kcore::spec_parse_marker(toks, pos, text))
    }
}

/// What an optional lifetime yields, or `None` at the end of the stream.
pub open spec fn spec_old_lifetime(toks: Seq<TokenV>, pos: int) -> Option<(Option<TokenV>, int)> {
    if pos >= toks.len() {
        None
    } else {
        Some(crate::rust::kcore::spec_parse_lifetime(toks, pos))
    }
}

/// What the simple field-type grammar yields: markers in the order
/// reference, lifetime, mutability, `dyn`; the base name; a recursive
/// generics list; and a consumed trailing comma.  `None` stands for the
/// inputs the grammar has no answer for.
pub open spec fn spec_old_field_ty(toks: Seq<TokenV>, pos: int) -> Option<(FieldTyTokenV, int)>
    decreases toks.len() - pos, 1int,
{
    match spec_old_marker(toks, pos, "&"@) {
        None => None,
        Some((reference, p1)) => match spec_old_lifetime(toks, p1) {
            None => None,
            Some((lifetime, p2)) => match spec_old_marker(toks, p2, "mut"@) {
                None => None,
                Some((mutable, p3)) => match spec_old_marker(toks, p3, "dyn"@) {
                    None => None,
                    Some((dyn_tok, p4)) => {
                        if p4 >= toks.len() {
                            None
                        } else {
                            let name = toks[p4];
                            let p5 = p4 + 1;
                            if p5 >= toks.len() {
                                None
                            } else {
                                let gres: Option<(Seq<FieldTyTokenV>, int)> = if token_text(
                                    toks[p5],
                                ) == "<"@ {
                                    if pos < p5 + 1 && p5 + 1 <= toks.len() {
                                        match spec_old_generics_list(toks, p5 + 1) {
                                            None => None,
                                            Some((gs, p6)) => Some((gs, p6)),
                                        }
                                    } else {
                                        None
                                    }
                                } else {
                                    Some((Seq::empty(), p5))
                                };
                                match gres {
                                    None => None,
                                    Some((generics, p6)) => {
                                        if p6 >= toks.len() {
                                            None
                                        } else {
                                            let p7 = if token_text(toks[p6]) == ","@ {
                                                p6 + 1
                                            } else {
                                                p6
                                            };
                                            Some(
                                                (
                                                    FieldTyTokenV {
                                                        reference,
                                                        mutable,
                                                        lifetime,
                                                        dyn_tok,
                                                        generics,
                                                        name,
                                                    },
                                                    p7,
                                                ),
                                            )
                                        }
                                    },
                                }
                            }
                        }
                    },
                },
            },
        },
    }
}

/// What the recursive generics list of the simple field-type grammar
/// yields, up to and over the closing `>`.
pub open spec fn spec_old_generics_list(toks: Seq<TokenV>, pos: int) -> Option<
    (Seq<FieldTyTokenV>, int),
>
    decreases toks.len() - pos, 2int,
{
    if pos >= toks.len() {
        None
    } else if token_text(toks[pos]) == ">"@ {
        Some((Seq::empty(), pos + 1))
    } else {
        match spec_old_field_ty(toks, pos) {
            None => None,
            Some((ty, p2)) => {
                if pos < p2 && p2 <= toks.len() {
                    match spec_old_generics_list(toks, p2) {
                        None => None,
                        Some((rest, p3)) => Some((seq![ty] + rest, p3)),
                    }
                } else {
                    None
                }
            },
        }
    }
}

/// The simple field-type grammar moves the position strictly forward.
pub proof fn lemma_old_field_ty_progress(toks: Seq<TokenV>, pos: int)
    requires
        0 <= pos <= toks.len(),
    ensures
        match spec_old_field_ty(toks, pos) {
            Some((t, p)) => pos < p <= toks.len(),
            None => true,
        },
        match spec_old_generics_list(toks, pos) {
            Some((s, p)) => pos < p <= toks.len(),
            None => true,
        },
    decreases toks.len() - pos,
{
    match spec_old_marker(toks, pos, "&"@) {
        None => {},
        Some((reference, p1)) => match spec_old_lifetime(toks, p1) {
            None => {},
            Some((lifetime, p2)) => match spec_old_marker(toks, p2, "mut"@) {
                None => {},
                Some((mutable, p3)) => match spec_old_marker(toks, p3, "dyn"@) {
                    None => {},
                    Some((dyn_tok, p4)) => {
                        if p4 + 1 < toks.len() && token_text(toks[p4 + 1]) == "<"@ {
                            lemma_old_field_ty_progress(toks, p4 + 2);
                        }
                    },
                },
            },
        },
    }
    if pos < toks.len() && token_text(toks[pos]) != ">"@ {
        match spec_old_field_ty(toks, pos) {
            Some((ty, p2)) => {
                if pos < p2 && p2 <= toks.len() {
                    lemma_old_field_ty_progress(toks, p2);
                }
            },
            None => {},
        }
    }
}

/// Check and parse the reference marker `&`.
pub fn check_and_parse_ref(ast: &mut KTokenStream) -> (r: Option<Token>)
    requires
        old(ast).wf(),
        spec_old_marker(old(ast).toks(), old(ast).pos(), "&"@) is Some,
    ensures
        final(ast).wf(),
        final(ast).toks() == old(ast).toks(),
        Some((crate::rust::ast_nodes::opt_token_view(r), final(ast).pos())) == spec_old_marker(
            old(ast).toks(),
            old(ast).pos(),
            "&"@,
        ),
{
    if ast.match_tok("&") {
        Some(ast.advance())
    } else {
        None
    }
}

/// Check and parse the lifetime marker `'` with the label after it.
pub fn check_and_parse_lifetime(ast: &mut KTokenStream) -> (r: Option<Token>)
    requires
        old(ast).wf(),
        spec_old_lifetime(old(ast).toks(), old(ast).pos()) is Some,
    ensures
        final(ast).wf(),
        final(ast).toks() == old(ast).toks(),
        Some((crate::rust::ast_nodes::opt_token_view(r), final(ast).pos())) == spec_old_lifetime(
            old(ast).toks(),
            old(ast).pos(),
        ),
{
    if ast.match_tok("'") {
        ast.next();
        Some(ast.advance())
    } else {
        None
    }
}

/// Check and parse the mutability marker `mut`.
pub fn check_and_parse_mut(ast: &mut KTokenStream) -> (r: Option<Token>)
    requires
        old(ast).wf(),
        spec_old_marker(old(ast).toks(), old(ast).pos(), "mut"@) is Some,
    ensures
        final(ast).wf(),
        final(ast).toks() == old(ast).toks(),
        Some((crate::rust::ast_nodes::opt_token_view(r), final(ast).pos())) == spec_old_marker(
            old(ast).toks(),
            old(ast).pos(),
            "mut"@,
        ),
{
    if ast.match_tok("mut") {
        Some(ast.advance())
    } else {
        None
    }
}

/// Check and parse the trait-object marker `dyn`.
pub fn check_and_parse_dyn(ast: &mut KTokenStream) -> (r: Option<Token>)
    requires
        old(ast).wf(),
        spec_old_marker(old(ast).toks(), old(ast).pos(), "dyn"@) is Some,
    ensures
        final(ast).wf(),
        final(ast).toks() == old(ast).toks(),
        Some((crate::rust::ast_nodes::opt_token_view(r), final(ast).pos())) == spec_old_marker(
            old(ast).toks(),
            old(ast).pos(),
            "dyn"@,
        ),
{
    if ast.match_tok("dyn") {
        Some(ast.advance())
    } else {
        None
    }
}

/// Parse a field's type in the simple grammar.
#[verifier::rlimit(100)]
pub fn parse_field_ty<T: KParserTracer + ?Sized>(ast: &mut KTokenStream, tracer: &T) -> (r:
    FieldTyToken)
    requires
        old(ast).wf(),
        old(ast).toks().len() > 0,
        spec_old_field_ty(old(ast).toks(), old(ast).pos()) is Some,
    ensures
        final(ast).wf(),
        final(ast).toks() == old(ast).toks(),
        Some((r@, final(ast).pos())) == spec_old_field_ty(old(ast).toks(), old(ast).pos()),
    decreases old(ast).toks().len() - old(ast).pos(), 1int,
{
    tracer.log("parsing field ty");
    let ghost toks = old(ast).toks();
    let ghost pos0 = old(ast).pos();
    let ty_ref = check_and_parse_ref(ast);
    let lifetime = check_and_parse_lifetime(ast);
    let ty_mutability = check_and_parse_mut(ast);
    let dyn_tok = check_and_parse_dyn(ast);
    let field_ty = ast.advance();
    let mut generics: Vec<FieldTyToken> = Vec::new();
    proof {
        assert(field_ty_seq_view(generics@) =~= Seq::<FieldTyTokenV>::empty());
    }
    if ast.match_tok("<") {
        let _ = ast.advance();
        proof {
            lemma_old_field_ty_progress(toks, ast.pos());
        }
        generics = parse_old_generics_list(ast, tracer);
        let tok = ast.advance();
        tracer.log("closed the generics list of the simple grammar");
    }
    if ast.match_tok(",") {
        let tok = ast.advance();
    }
    tracer.log("finish decoding");
    FieldTyToken {
        reference: ty_ref,
        mutable: ty_mutability,
        lifetime,
        dyn_tok,
        generics,
        name: field_ty,
    }
}

/// Parse the entries of a simple-grammar generics list up to its closing
/// `>`, which is left for the caller.
fn parse_old_generics_list<T: KParserTracer + ?Sized>(ast: &mut KTokenStream, tracer: &T) -> (r:
    Vec<FieldTyToken>)
    requires
        old(ast).wf(),
        old(ast).toks().len() > 0,
        spec_old_generics_list(old(ast).toks(), old(ast).pos()) is Some,
    ensures
        final(ast).wf(),
        final(ast).toks() == old(ast).toks(),
        ({
            let (gs, p) = spec_old_generics_list(old(ast).toks(), old(ast).pos())->0;
            &&& field_ty_seq_view(r@) == gs
            &&& final(ast).pos() + 1 == p
        }),
    decreases old(ast).toks().len() - old(ast).pos(), 2int,
{
    let ghost toks = old(ast).toks();
    let ghost pos0 = old(ast).pos();
    if ast.match_tok(">") {
        let r: Vec<FieldTyToken> = Vec::new();
        proof {
            assert(field_ty_seq_view(r@) =~= Seq::<FieldTyTokenV>::empty());
        }
        return r;
    }
    proof {
        lemma_old_field_ty_progress(toks, pos0);
    }
    let ty = parse_field_ty(ast, tracer);
    let ghost tyg = ty;
    let rest = parse_old_generics_list(ast, tracer);
    let ghost restg = rest@;
    let mut out = rest;
    out.insert(0, ty);
    proof {
        assert(out@ == restg.insert(0, tyg));
        assert(out@[0] == tyg);
        assert(out@.drop_first() =~= restg);
        assert(field_ty_seq_view(out@) == seq![field_ty_view(tyg)] + field_ty_seq_view(restg));
    }
    out
}


/// What the lifetimes-only generics scanner yields for one loop
/// step: it first discards a token (the `<` or a separator), then takes a
/// lifetime if one follows.
pub open spec fn spec_old_lifetimes_loop(toks: Seq<TokenV>, pos: int) -> Option<
    (Seq<TokenV>, int),
>
    decreases toks.len() - pos,
{
    if pos >= toks.len() {
        None
    } else if token_text(toks[pos]) == ">"@ {
        Some((Seq::empty(), pos + 1))
    } else {
        let p1 = pos + 1;
        match spec_old_lifetime(toks, p1) {
            None => None,
            Some((lt, p2)) => {
                if pos < p2 && p2 <= toks.len() {
                    match spec_old_lifetimes_loop(toks, p2) {
                        None => None,
                        Some((rest, p3)) => match lt {
                            Some(l) => Some((seq![l] + rest, p3)),
                            None => Some((rest, p3)),
                        },
                    }
                } else {
                    None
                }
            },
        }
    }
}

/// What the lifetimes-only generics scanner yields: the lifetimes it found, or
/// nothing when the clause is absent.
pub open spec fn spec_old_struct_generics(toks: Seq<TokenV>, pos: int) -> Option<
    (Option<StructTyTokenV>, int),
> {
    if pos >= toks.len() {
        None
    } else if token_text(toks[pos]) == "<"@ {
        match spec_old_lifetimes_loop(toks, pos) {
            None => None,
            Some((lifetimes, p2)) => Some(
                (Some(StructTyTokenV { lifetimes, generics: Seq::empty() }), p2),
            ),
        }
    } else {
        Some((None, pos))
    }
}

/// The lifetimes scanner stays within the stream.
pub proof fn lemma_old_lifetimes_progress(toks: Seq<TokenV>, pos: int)
    requires
        0 <= pos <= toks.len(),
    ensures
        match spec_old_lifetimes_loop(toks, pos) {
            Some((ls, p)) => pos < p <= toks.len(),
            None => true,
        },
    decreases toks.len() - pos,
{
    if pos < toks.len() && token_text(toks[pos]) != ">"@ {
        match spec_old_lifetime(toks, pos + 1) {
            Some((lt, p2)) => {
                if pos < p2 && p2 <= toks.len() {
                    lemma_old_lifetimes_progress(toks, p2);
                }
            },
            None => {},
        }
    }
}

/// Parse the lifetimes-only generics clause of a struct.
pub fn parse_struct_generics_and_lifetime<T: KParserTracer + ?Sized>(
    ast: &mut KTokenStream,
    tracer: &T,
) -> (r: Option<StructTyToken>)
    requires
        old(ast).wf(),
        old(ast).toks().len() > 0,
        spec_old_struct_generics(old(ast).toks(), old(ast).pos()) is Some,
    ensures
        final(ast).wf(),
        final(ast).toks() == old(ast).toks(),
        ({
            let (g, p) = spec_old_struct_generics(old(ast).toks(), old(ast).pos())->0;
            &&& (r matches Some(st) ==> (g matches Some(gv) && st@ == gv))
            &&& (r is None ==> g is None)
            &&& final(ast).pos() == p
        }),
{
    tracer.log("scanning the lifetimes-only generics clause");
    if ast.match_tok("<") {
        let mut lifetimes: Vec<Token> = Vec::new();
        proof {
            assert(tokens_view(lifetimes@) =~= Seq::<TokenV>::empty());
        }
        let lifetimes = parse_old_lifetimes_loop(ast, tracer);
        let ty = StructTyToken { lifetimes, generics: Vec::new() };
        proof {
            assert(tokens_view(ty.generics@) =~= Seq::<TokenV>::empty());
        }
        return Some(ty);
    }
    None
}

/// Run the lifetimes scanner until its closing `>` is consumed.
fn parse_old_lifetimes_loop<T: KParserTracer + ?Sized>(ast: &mut KTokenStream, tracer: &T) -> (r:
    Vec<Token>)
    requires
        old(ast).wf(),
        old(ast).toks().len() > 0,
        spec_old_lifetimes_loop(old(ast).toks(), old(ast).pos()) is Some,
    ensures
        final(ast).wf(),
        final(ast).toks() == old(ast).toks(),
        ({
            let (ls, p) = spec_old_lifetimes_loop(old(ast).toks(), old(ast).pos())->0;
            &&& tokens_view(r@) == ls
            &&& final(ast).pos() == p
        }),
    decreases old(ast).toks().len() - old(ast).pos(),
{
    let ghost toks = old(ast).toks();
    let ghost pos0 = old(ast).pos();
    if ast.match_tok(">") {
        let _ = ast.advance();
        let r: Vec<Token> = Vec::new();
        proof {
            assert(tokens_view(r@) =~= Seq::<TokenV>::empty());
        }
        return r;
    }
    let _ = ast.advance();
    let lifetime = check_and_parse_lifetime(ast);
    let rest = parse_old_lifetimes_loop(ast, tracer);
    match lifetime {
        Some(l) => {
            let ghost lg = l;
            let ghost restg = rest@;
            let mut out = rest;
            out.insert(0, l);
            proof {
                assert(out@ == restg.insert(0, lg));
                assert(out@[0] == lg);
                assert(out@.drop_first() =~= restg);
                assert(tokens_view(out@) == seq![token_view(lg)] + tokens_view(restg));
            }
            out
        },
        None => rest,
    }
}

/// What the single-attribute scanner yields: at most one attribute,
/// and the position after whatever it consumed.
pub open spec fn spec_old_cond_attr(toks: Seq<TokenV>, pos: int) -> Option<
    (Option<crate::rust::ast_nodes::AttrTokenV>, int),
> {
    if pos >= toks.len() {
        None
    } else if token_text(toks[pos]) != "#"@ {
        Some((None, pos))
    } else {
        let p1 = pos + 1;
        if p1 >= toks.len() {
            None
        } else if token_text(toks[p1]) == "!"@ {
            Some((None, p1 + 1))
        } else if toks[p1] is Group {
            if p1 + 2 >= toks.len() {
                None
            } else if toks[p1 + 2] is Group {
                let name = toks[p1];
                let (attr, p3) = crate::rust::kattr::spec_parse_attribute(toks, p1 + 2);
                Some(
                    (
                        Some(
                            crate::rust::ast_nodes::AttrTokenV::CondAttr(
                                crate::rust::ast_nodes::CondAttributeTokenV { name, value: attr },
                            ),
                        ),
                        p3,
                    ),
                )
            } else {
                let inner = toks[p1]->Group_1;
                if inner.len() == 0 {
                    None
                } else {
                    let (attr, q) = crate::rust::kattr::spec_parse_attribute(inner, 0);
                    Some((Some(crate::rust::ast_nodes::AttrTokenV::Attr(attr)), p1 + 1))
                }
            }
        } else {
            Some((None, p1))
        }
    }
}

/// Parse at most one attribute in the single-attribute form.
pub fn check_and_parse_cond_attribute<T: KParserTracer + ?Sized>(
    ast: &mut KTokenStream,
    tracer: &T,
) -> (r: Option<crate::rust::ast_nodes::AttrToken>)
    requires
        old(ast).wf(),
        old(ast).toks().len() > 0,
        spec_old_cond_attr(old(ast).toks(), old(ast).pos()) is Some,
    ensures
        final(ast).wf(),
        final(ast).toks() == old(ast).toks(),
        ({
            let (a, p) = spec_old_cond_attr(old(ast).toks(), old(ast).pos())->0;
            &&& (r matches Some(at) ==> (a matches Some(av) && at@ == av))
            &&& (r is None ==> a is None)
            &&& final(ast).pos() == p
        }),
{
    tracer.log("check and parse an attribute in the single-attribute form");
    if ast.match_tok("#") {
        let _ = ast.advance();
        if ast.match_tok("!") {
            let _ = ast.advance();
        } else if ast.is_group() {
            let second_is_group = match ast.lookup(2) {
                Token::Group { delim, toks, span } => true,
                _ => false,
            };
            if second_is_group {
                let name = ast.advance();
                let _ = ast.advance();
                let attr = match check_and_parse_attribute(ast) {
                    Some(a) => a,
                    None => {
                        proof {
                            assert(false);
                        }
                        return None;
                    },
                };
                let conf_attr = crate::rust::ast_nodes::CondAttributeToken { name, value: attr };
                return Some(crate::rust::ast_nodes::AttrToken::CondAttr(conf_attr));
            } else {
                let mut inner = ast.to_ktoken_stream();
                if let Some(attr) = check_and_parse_attribute(&mut inner) {
                    let _ = ast.advance();
                    return Some(crate::rust::ast_nodes::AttrToken::Attr(attr));
                }
            }
        }
    }
    None
}

/// Parse a plain attribute body in the single-attribute form: a name, optionally
/// followed by `=` and a value.
pub fn check_and_parse_attribute(ast: &mut KTokenStream) -> (r: Option<
    crate::rust::ast_nodes::AttributeToken,
>)
    requires
        old(ast).wf(),
        old(ast).toks().len() > 0,
    ensures
        final(ast).wf(),
        final(ast).toks() == old(ast).toks(),
        ({
            let (attr, p) = crate::rust::kattr::spec_parse_attribute(
                old(ast).toks(),
                old(ast).pos(),
            );
            &&& r matches Some(a)
            &&& a@ == attr
            &&& final(ast).pos() == p
        }),
{
    let name = ast.advance();
    if !ast.is_end() && ast.match_tok("=") {
        ast.next();
        let value = ast.advance();
        return Some(crate::rust::ast_nodes::AttributeToken { name, value: Some(value) });
    }
    Some(crate::rust::ast_nodes::AttributeToken { name, value: None })
}

/// Parse the visibility keyword without consuming it; the caller steps
/// over it.
pub fn parse_visibility_identifier(ast: &mut KTokenStream) -> (r: Option<Token>)
    requires
        old(ast).wf(),
        old(ast).pos() < old(ast).toks().len(),
    ensures
        final(ast).wf(),
        final(ast).toks() == old(ast).toks(),
        final(ast).pos() == old(ast).pos(),
        ({
            let t = old(ast).toks()[old(ast).pos()];
            &&& (t is Ident && token_text(t) == "pub"@ ==> (r matches Some(v) && v@ == t))
            &&& (!(t is Ident && token_text(t) == "pub"@) ==> r is None)
        }),
{
    let visibility = ast.peek();
    if visibility.is_ident() && visibility.match_text("pub") {
        return Some(ast.peek().clone());
    }
    None
}

/// What one field of the simple grammar yields.
pub open spec fn spec_old_struct_field(toks: Seq<TokenV>, pos: int) -> Option<(FieldDeclV, int)> {
    if pos >= toks.len() {
        None
    } else {
        let t = toks[pos];
        let (vis, p1): (Option<TokenV>, int) = if t is Ident && token_text(t) == "pub"@ {
            (Some(t), pos + 1)
        } else {
            (None, pos)
        };
        let (name, p2) = crate::rust::kcore::spec_advance(toks, p1);
        let (sep, p3) = crate::rust::kcore::spec_advance(toks, p2);
        if token_text(sep) != ":"@ {
            None
        } else {
            match spec_old_field_ty(toks, p3) {
                None => None,
                Some((ty, p4)) => Some((FieldDeclV { visibility: vis, name, ty }, p4)),
            }
        }
    }
}

/// What the field list of the simple grammar yields; an attribute before
/// a field is scanned, reported to the tracer, and set aside.
pub open spec fn spec_old_struct_fields(toks: Seq<TokenV>, pos: int) -> Option<Seq<FieldDeclV>>
    decreases toks.len() - pos,
{
    if pos >= toks.len() {
        Some(Seq::empty())
    } else {
        match spec_old_cond_attr(toks, pos) {
            None => None,
            Some((attr, p1)) => match spec_old_struct_field(toks, p1) {
                None => None,
                Some((f, p2)) => {
                    if pos < p2 && p2 <= toks.len() {
                        match spec_old_struct_fields(toks, p2) {
                            None => None,
                            Some(rest) => Some(seq![f] + rest),
                        }
                    } else {
                        None
                    }
                },
            },
        }
    }
}

/// One field of the simple grammar moves the position strictly forward.
pub proof fn lemma_old_struct_field_progress(toks: Seq<TokenV>, pos: int)
    requires
        0 <= pos <= toks.len(),
    ensures
        match spec_old_struct_field(toks, pos) {
            Some((f, p)) => pos < p <= toks.len(),
            None => true,
        },
{
    if pos < toks.len() {
        let t = toks[pos];
        let (vis, p1): (Option<TokenV>, int) = if t is Ident && token_text(t) == "pub"@ {
            (Some(t), pos + 1)
        } else {
            (None, pos)
        };
        let (name, p2) = crate::rust::kcore::spec_advance(toks, p1);
        let (sep, p3) = crate::rust::kcore::spec_advance(toks, p2);
        if token_text(sep) == ":"@ {
            lemma_old_field_ty_progress(toks, p3);
        }
    }
}

/// The single-attribute scanner never moves backwards.
pub proof fn lemma_old_cond_attr_progress(toks: Seq<TokenV>, pos: int)
    requires
        0 <= pos <= toks.len(),
    ensures
        match spec_old_cond_attr(toks, pos) {
            Some((a, p)) => pos <= p <= toks.len(),
            None => true,
        },
{
}

/// Parse one field of the simple grammar.
pub fn parse_struct_field<T: KParserTracer + ?Sized>(ast: &mut KTokenStream, tracer: &T) -> (r:
    FieldToken)
    requires
        old(ast).wf(),
        old(ast).toks().len() > 0,
        spec_old_struct_field(old(ast).toks(), old(ast).pos()) is Some,
    ensures
        final(ast).wf(),
        final(ast).toks() == old(ast).toks(),
        Some((r@, final(ast).pos())) == spec_old_struct_field(old(ast).toks(), old(ast).pos()),
{
    let visibility = match parse_visibility_identifier(ast) {
        Some(vs) => {
            let res = Some(vs);
            ast.next();
            res
        },
        None => None,
    };
    let field_name = ast.advance();
    let separator = ast.advance();
    let ty = parse_field_ty(ast, tracer);
    tracer.log("parsed one field of the simple grammar");
    FieldToken { visibility, name: field_name, ty }
}

/// Parse the fields of a struct body in the simple grammar until the
/// stream is exhausted.
pub fn parse_struct_fields<T: KParserTracer + ?Sized>(ast: &mut KTokenStream, tracer: &T) -> (r:
    Vec<FieldToken>)
    requires
        old(ast).wf(),
        spec_old_struct_fields(old(ast).toks(), old(ast).pos()) is Some,
    ensures
        final(ast).wf(),
        final(ast).toks() == old(ast).toks(),
        Some(field_decl_seq_view(r@)) == spec_old_struct_fields(old(ast).toks(), old(ast).pos()),
    decreases old(ast).toks().len() - old(ast).pos(),
{
    if ast.is_end() {
        let r: Vec<FieldToken> = Vec::new();
        proof {
            assert(field_decl_seq_view(r@) =~= Seq::<FieldDeclV>::empty());
        }
        return r;
    }
    let ghost toks = old(ast).toks();
    let ghost pos0 = old(ast).pos();
    if let Some(attr) = check_and_parse_cond_attribute(ast, tracer) {
        tracer.log("attribute found and set aside");
    }
    proof {
        lemma_old_cond_attr_progress(toks, pos0);
        lemma_old_struct_field_progress(toks, ast.pos());
    }
    let field = parse_struct_field(ast, tracer);
    let ghost fg = field;
    let rest = parse_struct_fields(ast, tracer);
    let ghost restg = rest@;
    let mut out = rest;
    out.insert(0, field);
    proof {
        assert(out@ == restg.insert(0, fg));
        assert(out@[0] == fg);
        assert(out@.drop_first() =~= restg);
        assert(field_decl_seq_view(out@) =~= seq![field_decl_view(fg)] + field_decl_seq_view(
            restg,
        ));
    }
    out
}

/// What a struct declaration of the simple grammar yields, with the
/// position of its field-list group.
pub open spec fn spec_old_struct(toks: Seq<TokenV>, pos: int) -> Option<(StructDeclV, int)> {
    if pos >= toks.len() {
        None
    } else {
        let t = toks[pos];
        let (vis, p1): (Option<TokenV>, int) = if t is Ident && token_text(t) == "pub"@ {
            (Some(t), pos + 1)
        } else {
            (None, pos)
        };
        let (tok, p2) = crate::rust::kcore::spec_advance(toks, p1);
        if token_text(tok) != "struct"@ {
            None
        } else {
            let (name, p3) = crate::rust::kcore::spec_advance(toks, p2);
            match spec_old_struct_generics(toks, p3) {
                None => None,
                Some((generics, p4)) => {
                    if p4 >= toks.len() || !(toks[p4] is Group) {
                        None
                    } else {
                        match spec_old_struct_fields(toks[p4]->Group_1, 0) {
                            None => None,
                            Some(fields) => Some(
                                (
                                    StructDeclV {
                                        visibility: vis,
                                        name,
                                        attributes: fields,
                                        generics,
                                    },
                                    p4,
                                ),
                            ),
                        }
                    }
                },
            }
        }
    }
}

/// Parse a struct declaration in the simple grammar.  The cursor is left
/// on the field-list group.
pub fn parse_struct<T: KParserTracer + ?Sized>(ast: &mut KTokenStream, tracer: &T) -> (r:
    StructToken)
    requires
        old(ast).wf(),
        old(ast).toks().len() > 0,
        spec_old_struct(old(ast).toks(), old(ast).pos()) is Some,
    ensures
        final(ast).wf(),
        final(ast).toks() == old(ast).toks(),
        Some((r@, final(ast).pos())) == spec_old_struct(old(ast).toks(), old(ast).pos()),
{
    let visibility = match parse_visibility_identifier(ast) {
        Some(vs) => {
            let res = Some(vs);
            ast.next();
            res
        },
        None => None,
    };
    let tok = ast.advance();
    let name = ast.advance();
    let generics = parse_struct_generics_and_lifetime(ast, tracer);
    tracer.log("scanned the lifetimes-only generics clause of a struct");
    let mut group = ast.to_ktoken_stream();
    let attributes = parse_struct_fields(&mut group, tracer);
    StructToken { visibility, name, attributes, generics }
}

} // verus!
