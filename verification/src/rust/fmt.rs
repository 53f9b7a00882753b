//! The renderer: convert AST nodes back into token sequences and source
//! text that the grammar parses back to the same node.
//!
//! The well-formedness predicates in this module describe exactly the
//! shape of the nodes the parsers build; the round-trip law
//! [`lemma_struct_round_trip`] shows that rendering such a node and
//! parsing the result gives the node back.
use vstd::prelude::*;

use crate::kparser::KParserTracer;
use crate::rust::ast_nodes::{
    generic_param_seq_view, generic_params_view, ty_seq_view, ty_view, FieldTokenV, GenericParam,
    GenericParamV, GenericParams, GenericParamsV, LifetimeParamV, StructToken, StructTokenV,
    TyKind, TyToken, TyTokenV,
};
use crate::token::tokens_view;
use crate::token::{
    lemma_tokens_view_push, texts_join, token_text, token_view, Delim, Span, Token, TokenV,
};

verus! {

/// The token sequence of a rendered lifetime use: an apostrophe and the
/// label.
pub open spec fn spec_lifetime_tokens(l: LifetimeParamV) -> Seq<TokenV> {
    seq![TokenV::Punct("'"@), l.lifetime_or_label]
}

/// The token sequence of a rendered type expression: the markers in parse
/// order, the base identifier, and the generic arguments in angle
/// brackets, each argument followed by a comma.
pub open spec fn spec_ty_tokens(ty: TyTokenV) -> Seq<TokenV>
    decreases ty,
{
    (match ty.ref_tok {
        Some(t) => seq![t],
        None => Seq::empty(),
    }) + (match ty.lifetime {
        Some(l) => spec_lifetime_tokens(l),
        None => Seq::empty(),
    }) + (match ty.dyn_tok {
        Some(t) => seq![t],
        None => Seq::empty(),
    }) + (match ty.mut_tok {
        Some(t) => seq![t],
        None => Seq::empty(),
    }) + seq![ty.identifier] + (match ty.generics {
        Some(args) => seq![TokenV::Punct("<"@)] + spec_ty_args_tokens(args) + seq![
            TokenV::Punct(">"@),
        ],
        None => Seq::empty(),
    })
}

/// The token sequence of rendered generic arguments: each argument
/// followed by a comma.
pub open spec fn spec_ty_args_tokens(args: Seq<TyTokenV>) -> Seq<TokenV>
    decreases args,
{
    if args.len() == 0 {
        Seq::empty()
    } else {
        spec_ty_tokens(args[0]) + seq![TokenV::Punct(","@)] + spec_ty_args_tokens(args.drop_first())
    }
}

/// The token sequence of a rendered generics clause parameter: a lifetime
/// parameter renders bare, a type parameter renders with a trailing comma.
pub open spec fn spec_gparam_tokens(p: GenericParamV) -> Seq<TokenV> {
    match p {
        GenericParamV::LifetimeParam(l) => spec_lifetime_tokens(l),
        GenericParamV::TypeParam(ty) => spec_ty_tokens(ty) + seq![TokenV::Punct(","@)],
        GenericParamV::Bounds(b) => Seq::empty(),
    }
}

/// The token sequence of the parameters of a rendered generics clause.
pub open spec fn spec_gparams_tokens(params: Seq<GenericParamV>) -> Seq<TokenV>
    decreases params,
{
    if params.len() == 0 {
        Seq::empty()
    } else {
        spec_gparam_tokens(params[0]) + spec_gparams_tokens(params.drop_first())
    }
}

/// The token sequence of a rendered generics clause, brackets included.
pub open spec fn spec_generics_tokens(g: GenericParamsV) -> Seq<TokenV> {
    seq![TokenV::Punct("<"@)] + spec_gparams_tokens(g.params) + seq![TokenV::Punct(">"@)]
}

/// The token sequence of one rendered attribute body: the name, with an
/// optional `=` value.
pub open spec fn spec_attr_body_tokens(a: crate::rust::ast_nodes::AttributeTokenV) -> Seq<TokenV> {
    match a.value {
        Some(v) => seq![a.name, TokenV::Punct("="@), v],
        None => seq![a.name],
    }
}

/// The token sequence of one rendered attribute: `#` and a bracket group
/// holding the name, an `=` value, or a nested parenthesized attribute.
pub open spec fn spec_attr_tokens(a: crate::rust::ast_nodes::AttrTokenV) -> Seq<TokenV> {
    match a {
        crate::rust::ast_nodes::AttrTokenV::Attr(at) => seq![
            TokenV::Punct("#"@),
            TokenV::Group(Delim::Bracket, spec_attr_body_tokens(at)),
        ],
        crate::rust::ast_nodes::AttrTokenV::CondAttr(c) => seq![
            TokenV::Punct("#"@),
            TokenV::Group(
                Delim::Bracket,
                seq![c.name, TokenV::Group(Delim::Paren, spec_attr_body_tokens(c.value))],
            ),
        ],
    }
}

/// The token sequence of a rendered attribute run, in insertion order.
pub open spec fn spec_attrs_tokens(attrs: Seq<(Seq<char>, crate::rust::ast_nodes::AttrTokenV)>) -> Seq<
    TokenV,
>
    decreases attrs,
{
    if attrs.len() == 0 {
        Seq::empty()
    } else {
        spec_attr_tokens(attrs[0].1) + spec_attrs_tokens(attrs.drop_first())
    }
}

/// An attribute entry as the attribute parser builds it: the key is the
/// attribute's name text.
pub open spec fn wf_attr(entry: (Seq<char>, crate::rust::ast_nodes::AttrTokenV)) -> bool {
    entry.0 == crate::rust::ast_nodes::attr_name_text(entry.1)
}

/// Every entry of an attribute run is well-formed.
pub open spec fn wf_attrs(attrs: Seq<(Seq<char>, crate::rust::ast_nodes::AttrTokenV)>) -> bool {
    forall|i: int| 0 <= i < attrs.len() ==> wf_attr(#[trigger] attrs[i])
}

/// The token sequence of one rendered field: its attributes, optional
/// visibility, the name, a colon, and the type.
pub open spec fn spec_field_tokens(f: FieldTokenV) -> Seq<TokenV> {
    spec_attrs_tokens(f.attrs) + (match f.visibility {
        Some(v) => seq![v],
        None => Seq::empty(),
    }) + seq![f.identifier, TokenV::Punct(":"@)] + spec_ty_tokens(f.ty)
}

/// The token sequence of a rendered field list: the fields separated by
/// commas.
pub open spec fn spec_fields_tokens(fields: Seq<FieldTokenV>) -> Seq<TokenV>
    decreases fields,
{
    if fields.len() == 0 {
        Seq::empty()
    } else if fields.len() == 1 {
        spec_field_tokens(fields[0])
    } else {
        spec_field_tokens(fields[0]) + seq![TokenV::Punct(","@)] + spec_fields_tokens(
            fields.drop_first(),
        )
    }
}

/// The token sequence of a rendered struct declaration: its attributes,
/// optional visibility, the `struct` keyword, the name, an optional
/// generics clause, and the brace-delimited field list.
pub open spec fn spec_struct_tokens(s: StructTokenV) -> Seq<TokenV> {
    spec_attrs_tokens(s.attrs) + (match s.visibility {
        Some(v) => seq![v],
        None => Seq::empty(),
    }) + seq![TokenV::Ident("struct"@), s.name] + (match s.generics {
        Some(g) => spec_generics_tokens(g),
        None => Seq::empty(),
    }) + seq![TokenV::Group(Delim::Brace, spec_fields_tokens(s.fields))]
}

/// Texts that a rendered token may not share with the grammar's markers,
/// so that the reparse reads the rendered tokens the way they were meant.
pub open spec fn wf_ident_tok(t: TokenV) -> bool {
    &&& t is Ident
    &&& token_text(t) != "&"@
    &&& token_text(t) != "'"@
    &&& token_text(t) != "dyn"@
    &&& token_text(t) != "mut"@
    &&& token_text(t) != "pub"@
    &&& token_text(t) != "struct"@
    &&& token_text(t) != "#"@
    &&& token_text(t) != "<"@
    &&& token_text(t) != ">"@
    &&& token_text(t) != ","@
    &&& token_text(t) != ";"@
    &&& token_text(t) != ":"@
}

/// A lifetime as the parsers build it: a bare label with no bounds.
pub open spec fn wf_lifetime(l: LifetimeParamV) -> bool {
    &&& l.lifetime_or_label is Ident
    &&& l.bounds.len() == 0
}

/// A type expression as the type parser builds it: marker tokens carry the
/// marker texts, the base identifier is a plain identifier, the bound list
/// is empty, and a present generic-argument list is non-empty and
/// well-formed throughout.
pub open spec fn wf_ty(ty: TyTokenV) -> bool
    decreases ty,
{
    &&& ty.kind == TyKind::NeverType
    &&& (ty.ref_tok matches Some(t) ==> token_text(t) == "&"@)
    &&& (ty.lifetime matches Some(l) ==> wf_lifetime(l))
    &&& (ty.dyn_tok matches Some(t) ==> token_text(t) == "dyn"@)
    &&& (ty.mut_tok matches Some(t) ==> token_text(t) == "mut"@)
    &&& wf_ident_tok(ty.identifier)
    &&& ty.bounds.len() == 0
    &&& match ty.generics {
        Some(args) => args.len() > 0 && wf_ty_args(args),
        None => true,
    }
}

/// Every argument of a generic-argument list is well-formed.
pub open spec fn wf_ty_args(args: Seq<TyTokenV>) -> bool
    decreases args,
{
    if args.len() == 0 {
        true
    } else {
        wf_ty(args[0]) && wf_ty_args(args.drop_first())
    }
}

/// A generics-clause parameter as the clause parser builds it: a bare
/// lifetime, or a type parameter whose rendering cannot be mistaken for a
/// lifetime parameter.
pub open spec fn wf_gparam(p: GenericParamV) -> bool {
    match p {
        GenericParamV::LifetimeParam(l) => wf_lifetime(l),
        GenericParamV::TypeParam(ty) => wf_ty(ty) && (ty.lifetime is Some ==> ty.ref_tok is Some),
        GenericParamV::Bounds(b) => false,
    }
}

/// A field as the struct parser builds it, restricted to the shapes the
/// round-trip law covers: keyed attributes, visibility either absent or
/// the `pub` keyword, a plain identifier, and a well-formed type.
pub open spec fn wf_field(f: FieldTokenV) -> bool {
    &&& wf_attrs(f.attrs)
    &&& (f.visibility matches Some(v) ==> v is Ident && token_text(v) == "pub"@)
    &&& wf_ident_tok(f.identifier)
    &&& wf_ty(f.ty)
}

/// A struct declaration restricted to the shapes the round-trip law
/// covers: keyed attributes, visibility either absent or the `pub`
/// keyword, a plain name, a well-formed generics clause if any, and
/// well-formed fields.
pub open spec fn wf_struct(s: StructTokenV) -> bool {
    &&& wf_attrs(s.attrs)
    &&& (s.visibility matches Some(v) ==> v is Ident && token_text(v) == "pub"@)
    &&& wf_ident_tok(s.name)
    &&& match s.generics {
        Some(g) => forall|i: int| 0 <= i < g.params.len() ==> wf_gparam(#[trigger] g.params[i]),
        None => true,
    }
    &&& forall|i: int| 0 <= i < s.fields.len() ==> wf_field(#[trigger] s.fields[i])
}


/// The marker texts are pairwise distinct and distinct from a group's
/// rendered text.
proof fn lemma_marker_texts()
    ensures
        "&"@ != "'"@ && "&"@ != "dyn"@ && "&"@ != "mut"@ && "&"@ != ":"@ && "&"@ != "<"@ && "&"@
            != ","@ && "&"@ != ">"@ && "&"@ != ";"@ && "&"@ != "#"@,
        "'"@ != "dyn"@ && "'"@ != "mut"@ && "'"@ != ":"@ && "'"@ != "<"@ && "'"@ != ","@ && "'"@
            != ">"@ && "'"@ != ";"@ && "'"@ != "#"@,
        "dyn"@ != "mut"@ && "dyn"@ != ":"@ && "dyn"@ != "<"@ && "dyn"@ != ","@ && "dyn"@ != ">"@
            && "dyn"@ != ";"@ && "dyn"@ != "#"@,
        "mut"@ != ":"@ && "mut"@ != "<"@ && "mut"@ != ","@ && "mut"@ != ">"@ && "mut"@ != ";"@
            && "mut"@ != "#"@,
        ":"@ != "<"@ && ":"@ != ","@ && ":"@ != ">"@ && ":"@ != ";"@,
        ","@ != "<"@ && ","@ != ">"@ && ","@ != ";"@ && ","@ != ":"@,
        ">"@ != "<"@ && ";"@ != "<"@,
        "pub"@ != "#"@ && "pub"@ != "struct"@ && "pub"@ != "<"@,
        "struct"@ != "#"@ && "struct"@ != "<"@ && "struct"@ != "pub"@,
        "&"@.len() == 1 && "'"@.len() == 1 && ":"@.len() == 1 && "<"@.len() == 1 && ","@.len()
            == 1 && ">"@.len() == 1 && ";"@.len() == 1 && "#"@.len() == 1,
        "dyn"@.len() == 3 && "mut"@.len() == 3 && "pub"@.len() == 3 && "struct"@.len() == 6,
{
    reveal_strlit("&");
    reveal_strlit("'");
    reveal_strlit("dyn");
    reveal_strlit("mut");
    reveal_strlit(":");
    reveal_strlit("<");
    reveal_strlit(",");
    reveal_strlit(">");
    reveal_strlit(";");
    reveal_strlit("#");
    reveal_strlit("!");
    reveal_strlit("pub");
    reveal_strlit("struct");
    assert("!"@.len() == 1);
    assert("&"@[0] == '&');
    assert("'"@[0] == '\'');
    assert(":"@[0] == ':');
    assert("<"@[0] == '<');
    assert(","@[0] == ',');
    assert(">"@[0] == '>');
    assert(";"@[0] == ';');
    assert("#"@[0] == '#');
    assert("dyn"@[0] == 'd');
    assert("mut"@[0] == 'm');
    assert("pub"@[0] == 'p');
}

/// A group token's text is at least two characters, so it never equals a
/// one- or three-character marker text.
proof fn lemma_group_text_long(t: TokenV)
    requires
        t is Group,
    ensures
        token_text(t).len() >= 2,
        token_text(t)[0] == '(' || token_text(t)[0] == '{' || token_text(t)[0] == '[',
{
    let d = t->Group_0;
    reveal_strlit("(");
    reveal_strlit(")");
    reveal_strlit("{");
    reveal_strlit("}");
    reveal_strlit("[");
    reveal_strlit("]");
    assert(crate::token::delim_open(d).len() == 1);
    assert(crate::token::delim_close(d).len() == 1);
    assert("("@[0] == '(' && "{"@[0] == '{' && "["@[0] == '[');
    assert(token_text(t)[0] == crate::token::delim_open(d)[0]);
}

/// A token in the follow set of a type expression never carries a marker
/// text of length one or three.
proof fn lemma_follow_not_marker(t: TokenV)
    requires
        t is Group || token_text(t) == ","@ || token_text(t) == ">"@ || token_text(t) == ";"@,
    ensures
        token_text(t) != "&"@,
        token_text(t) != "'"@,
        token_text(t) != "dyn"@,
        token_text(t) != "mut"@,
        token_text(t) != ":"@,
        token_text(t) != "<"@,
{
    lemma_marker_texts();
    if t is Group {
        lemma_group_text_long(t);
        assert("dyn"@[0] == 'd' && "mut"@[0] == 'm') by {
            reveal_strlit("dyn");
            reveal_strlit("mut");
        }
    }
}

/// The position just past a rendered type expression, after the comma that
/// the type parser itself consumes.
pub open spec fn after_ty_pos(toks: Seq<TokenV>, end: int) -> int {
    if end < toks.len() && token_text(toks[end]) == ","@ {
        end + 1
    } else {
        end
    }
}

/// The number of rendered marker tokens before a type's base identifier.
pub open spec fn ty_prefix_len(ty: TyTokenV) -> int {
    (if ty.ref_tok is Some {
        1int
    } else {
        0
    }) + (if ty.lifetime is Some {
        2int
    } else {
        0
    }) + (if ty.dyn_tok is Some {
        1int
    } else {
        0
    }) + (if ty.mut_tok is Some {
        1int
    } else {
        0
    })
}

/// The marker steps of the type parser walk a rendered type's marker
/// prefix and land on its base identifier.
#[verifier::rlimit(100)]
proof fn lemma_ty_round_prefix(toks: Seq<TokenV>, pos: int, ty: TyTokenV)
    requires
        wf_ty(ty),
        0 <= pos,
        pos + spec_ty_tokens(ty).len() <= toks.len(),
        forall|i: int|
            0 <= i < spec_ty_tokens(ty).len() ==> toks[pos + i] == #[trigger] spec_ty_tokens(
                ty,
            )[i],
    ensures
        ({
            let (ref_tok, p1) = crate::rust::kcore::spec_parse_marker(toks, pos, "&"@);
            let (lt, p2) = crate::rust::kcore::spec_parse_lifetime(toks, p1);
            let (dyn_tok, p3) = crate::rust::kcore::spec_parse_marker(toks, p2, "dyn"@);
            let (mut_tok, p4) = crate::rust::kcore::spec_parse_marker(toks, p3, "mut"@);
            &&& ref_tok == ty.ref_tok
            &&& dyn_tok == ty.dyn_tok
            &&& mut_tok == ty.mut_tok
            &&& (ty.lifetime matches Some(l) ==> lt == Some(l.lifetime_or_label))
            &&& (ty.lifetime is None ==> lt is None)
            &&& p4 == pos + ty_prefix_len(ty)
            &&& p4 < toks.len()
            &&& toks[p4] == ty.identifier
        }),
{
    lemma_marker_texts();
    let render = spec_ty_tokens(ty);
    let n_ref: int = if ty.ref_tok is Some {
        1
    } else {
        0
    };
    let n_lt: int = if ty.lifetime is Some {
        2
    } else {
        0
    };
    let n_dyn: int = if ty.dyn_tok is Some {
        1
    } else {
        0
    };
    let n_mut: int = if ty.mut_tok is Some {
        1
    } else {
        0
    };
    let idix = n_ref + n_lt + n_dyn + n_mut;
    assert(render.len() >= idix + 1);
    assert(ty.ref_tok matches Some(t) ==> render[0] == t);
    assert(ty.lifetime matches Some(l) ==> render[n_ref] == TokenV::Punct("'"@) && render[n_ref
        + 1] == l.lifetime_or_label);
    assert(ty.dyn_tok matches Some(t) ==> render[n_ref + n_lt] == t);
    assert(ty.mut_tok matches Some(t) ==> render[n_ref + n_lt + n_dyn] == t);
    assert(render[idix] == ty.identifier);
    let (ref_tok, p1) = crate::rust::kcore::spec_parse_marker(toks, pos, "&"@);
    assert(ref_tok == ty.ref_tok && p1 == pos + n_ref) by {
        if ty.ref_tok is None {
            if n_lt > 0 {
            } else if n_dyn > 0 {
            } else if n_mut > 0 {
            }
        }
    }
    let (lt, p2) = crate::rust::kcore::spec_parse_lifetime(toks, p1);
    assert(p2 == p1 + n_lt && (ty.lifetime matches Some(l) ==> lt == Some(l.lifetime_or_label))
        && (ty.lifetime is None ==> lt is None)) by {
        if ty.lifetime is Some {
            assert(toks[p1] == TokenV::Punct("'"@));
            assert(p1 + 1 < toks.len());
        }
    }
    let (dyn_tok, p3) = crate::rust::kcore::spec_parse_marker(toks, p2, "dyn"@);
    assert(dyn_tok == ty.dyn_tok && p3 == p2 + n_dyn);
    let (mut_tok, p4) = crate::rust::kcore::spec_parse_marker(toks, p3, "mut"@);
    assert(mut_tok == ty.mut_tok && p4 == p3 + n_mut);
}

/// The generic-argument part of a rendered type reparses to the type's
/// arguments, ending just past the whole rendered type.
#[verifier::rlimit(100)]
proof fn lemma_ty_round_generics(toks: Seq<TokenV>, pos: int, ty: TyTokenV)
    requires
        wf_ty(ty),
        ty.generics is Some,
        0 <= pos,
        pos + spec_ty_tokens(ty).len() <= toks.len(),
        forall|i: int|
            0 <= i < spec_ty_tokens(ty).len() ==> toks[pos + i] == #[trigger] spec_ty_tokens(
                ty,
            )[i],
    ensures
        ({
            let p5 = pos + ty_prefix_len(ty) + 1;
            &&& toks[p5] == TokenV::Punct("<"@)
            &&& crate::rust::ty::spec_parse_recursive_ty(toks, p5) == Ok::<
                _,
                crate::kparser::KParserErrorV,
            >((ty.generics->0, pos + spec_ty_tokens(ty).len()))
        }),
    decreases ty_size(ty), 0int,
{
    let render = spec_ty_tokens(ty);
    let idix = ty_prefix_len(ty);
    let args = ty.generics->0;
    let la = spec_ty_args_tokens(args).len();
    assert(render.len() == idix + 1 + la + 2);
    let p5 = pos + idix + 1;
    assert(render[idix + 1] == TokenV::Punct("<"@));
    assert(toks[p5] == TokenV::Punct("<"@));
    assert(forall|j: int|
        0 <= j < la ==> toks[p5 + 1 + j] == #[trigger] spec_ty_args_tokens(args)[j]) by {
        assert(forall|j: int|
            0 <= j < la ==> render[idix + 2 + j] == #[trigger] spec_ty_args_tokens(args)[j]);
    }
    assert(render[idix + 1 + la + 1] == TokenV::Punct(">"@));
    assert(toks[p5 + 1 + la] == TokenV::Punct(">"@));
    lemma_ty_args_round(toks, p5 + 1, args);
}

/// Reparsing a rendered well-formed type expression gives the type back,
/// whenever the token after it (if any) belongs to the type grammar's
/// follow set.
#[verifier::rlimit(100)]
pub proof fn lemma_ty_round(toks: Seq<TokenV>, pos: int, ty: TyTokenV)
    requires
        wf_ty(ty),
        0 <= pos,
        pos + spec_ty_tokens(ty).len() <= toks.len(),
        forall|i: int|
            0 <= i < spec_ty_tokens(ty).len() ==> toks[pos + i] == #[trigger] spec_ty_tokens(
                ty,
            )[i],
        pos + spec_ty_tokens(ty).len() < toks.len() ==> {
            let next = toks[pos + spec_ty_tokens(ty).len()];
            ||| next is Group
            ||| token_text(next) == ","@
            ||| token_text(next) == ">"@
            ||| token_text(next) == ";"@
        },
    ensures
        crate::rust::ty::spec_parse_ty(toks, pos) == Ok::<_, crate::kparser::KParserErrorV>(
            (Some(ty), after_ty_pos(toks, pos + spec_ty_tokens(ty).len())),
        ),
    decreases ty_size(ty), 1int,
{
    lemma_marker_texts();
    let render = spec_ty_tokens(ty);
    let n_ref: int = if ty.ref_tok is Some {
        1
    } else {
        0
    };
    let n_lt: int = if ty.lifetime is Some {
        2
    } else {
        0
    };
    let n_dyn: int = if ty.dyn_tok is Some {
        1
    } else {
        0
    };
    let n_mut: int = if ty.mut_tok is Some {
        1
    } else {
        0
    };
    let n_gen: int = match ty.generics {
        Some(args) => spec_ty_args_tokens(args).len() as int + 2,
        None => 0,
    };
    let idix = n_ref + n_lt + n_dyn + n_mut;
    assert(render.len() == idix + 1 + n_gen);
    let end = pos + render.len();
    assert(render[idix] == ty.identifier);
    lemma_ty_round_prefix(toks, pos, ty);
    let (ref_tok, p1) = crate::rust::kcore::spec_parse_marker(toks, pos, "&"@);
    let (lt, p2) = crate::rust::kcore::spec_parse_lifetime(toks, p1);
    let (dyn_tok, p3) = crate::rust::kcore::spec_parse_marker(toks, p2, "dyn"@);
    let (mut_tok, p4) = crate::rust::kcore::spec_parse_marker(toks, p3, "mut"@);
    assert(p4 == pos + idix && p4 < toks.len());
    assert(toks[p4] == ty.identifier);
    let p5 = p4 + 1;
    if p5 < toks.len() && ty.generics is None {
        lemma_follow_not_marker(toks[p5]);
    }
    let built_generics: Option<Seq<TyTokenV>>;
    let p6: int;
    match ty.generics {
        Some(args) => {
            lemma_ty_round_generics(toks, pos, ty);
            built_generics = Some(args);
            p6 = end;
        },
        None => {
            built_generics = None;
            p6 = p5;
            assert(p6 == end);
        },
    }
    if p6 < toks.len() {
        lemma_follow_not_marker(toks[p6]);
    }
    // The terminator step.
    assert(crate::rust::ty::spec_ty_terminator(toks, p6) == Ok::<
        _,
        crate::kparser::KParserErrorV,
    >(after_ty_pos(toks, end))) by {
        if p6 < toks.len() {
            let t = token_text(toks[p6]);
            if t == ">"@ {
                assert(crate::rust::ty::ty_stop_words()[1] == ">"@);
                assert(crate::rust::ty::ty_stop_words().contains(t));
            }
            if t == ";"@ {
                assert(crate::rust::ty::ty_stop_words()[2] == ";"@);
                assert(crate::rust::ty::ty_stop_words().contains(t));
            }
        }
    }
    let built = TyTokenV {
        kind: TyKind::NeverType,
        ref_tok,
        mut_tok,
        identifier: toks[p4],
        dyn_tok,
        lifetime: match lt {
            Some(l) => Some(LifetimeParamV { lifetime_or_label: l, bounds: Seq::empty() }),
            None => None,
        },
        generics: built_generics,
        bounds: Seq::empty(),
    };
    assert(built.lifetime == ty.lifetime) by {
        match ty.lifetime {
            Some(l) => {
                assert(l.bounds =~= Seq::<crate::rust::ast_nodes::BoundV>::empty());
            },
            None => {},
        }
    }
    assert(built.bounds =~= ty.bounds);
    assert(built == ty);
}

/// Reparsing a rendered well-formed argument list, up to and over the `>`
/// that follows it, gives the arguments back.
#[verifier::rlimit(100)]
pub proof fn lemma_ty_args_round(toks: Seq<TokenV>, pos: int, args: Seq<TyTokenV>)
    requires
        wf_ty_args(args),
        0 <= pos,
        pos + spec_ty_args_tokens(args).len() < toks.len(),
        forall|i: int|
            0 <= i < spec_ty_args_tokens(args).len() ==> toks[pos + i]
                == #[trigger] spec_ty_args_tokens(args)[i],
        token_text(toks[pos + spec_ty_args_tokens(args).len()]) == ">"@,
    ensures
        crate::rust::ty::spec_parse_ty_list(toks, pos) == Ok::<_, crate::kparser::KParserErrorV>(
            (args, pos + spec_ty_args_tokens(args).len() + 1),
        ),
    decreases ty_args_size(args), 2int,
{
    lemma_marker_texts();
    if args.len() == 0 {
        assert(args =~= Seq::<TyTokenV>::empty());
    } else {
        let a0 = args[0];
        assert(wf_ty(a0));
        let arender = spec_ty_tokens(a0);
        let alen = arender.len();
        let la = spec_ty_args_tokens(args).len();
        assert(la == alen + 1 + spec_ty_args_tokens(args.drop_first()).len());
        assert(forall|i: int|
            0 <= i < alen ==> toks[pos + i] == #[trigger] arender[i]) by {
            assert(forall|i: int|
                0 <= i < alen ==> spec_ty_args_tokens(args)[i] == #[trigger] arender[i]);
        }
        assert(toks[pos + alen] == TokenV::Punct(","@)) by {
            assert(spec_ty_args_tokens(args)[alen as int] == TokenV::Punct(","@));
        }
        // The first token of the argument is not the closing `>`.
        assert(token_text(toks[pos]) != ">"@) by {
            let first = arender[0];
            if a0.ref_tok is Some {
            } else if a0.lifetime is Some {
                assert(first == TokenV::Punct("'"@));
            } else if a0.dyn_tok is Some {
            } else if a0.mut_tok is Some {
            } else {
                assert(first == a0.identifier);
            }
        }
        lemma_ty_round(toks, pos, a0);
        let p2 = pos + alen + 1;
        assert(after_ty_pos(toks, pos + alen) == p2);
        let rest = args.drop_first();
        assert(forall|j: int|
            0 <= j < spec_ty_args_tokens(rest).len() ==> toks[p2 + j]
                == #[trigger] spec_ty_args_tokens(rest)[j]) by {
            assert(forall|j: int|
                0 <= j < spec_ty_args_tokens(rest).len() ==> spec_ty_args_tokens(args)[alen + 1
                    + j] == #[trigger] spec_ty_args_tokens(rest)[j]);
        }
        assert(ty_args_size(args) == ty_size(a0) + ty_args_size(rest));
        assert(ty_size(a0) >= 1);
        lemma_ty_args_round(toks, p2, rest);
        assert(seq![a0] + rest =~= args);
    }
}


/// Reparsing a rendered well-formed generics-clause parameter list, up to
/// and over the `>` that follows it, gives the parameters back.
#[verifier::rlimit(100)]
pub proof fn lemma_gparams_round(toks: Seq<TokenV>, pos: int, params: Seq<GenericParamV>)
    requires
        forall|i: int| 0 <= i < params.len() ==> wf_gparam(#[trigger] params[i]),
        0 <= pos,
        pos + spec_gparams_tokens(params).len() < toks.len(),
        forall|i: int|
            0 <= i < spec_gparams_tokens(params).len() ==> toks[pos + i]
                == #[trigger] spec_gparams_tokens(params)[i],
        token_text(toks[pos + spec_gparams_tokens(params).len()]) == ">"@,
    ensures
        crate::rust::kcore::spec_generics_list(toks, pos) == Ok::<
            _,
            crate::kparser::KParserErrorV,
        >((params, pos + spec_gparams_tokens(params).len() + 1)),
    decreases params.len(),
{
    lemma_marker_texts();
    if params.len() == 0 {
        assert(params =~= Seq::<GenericParamV>::empty());
    } else {
        let p0 = params[0];
        assert(wf_gparam(p0));
        let prender = spec_gparam_tokens(p0);
        let plen = prender.len();
        let lg = spec_gparams_tokens(params).len();
        assert(lg == plen + spec_gparams_tokens(params.drop_first()).len());
        assert(forall|i: int|
            0 <= i < plen ==> toks[pos + i] == #[trigger] prender[i]) by {
            assert(forall|i: int|
                0 <= i < plen ==> spec_gparams_tokens(params)[i] == #[trigger] prender[i]);
        }
        let rest = params.drop_first();
        assert(forall|j: int|
            0 <= j < spec_gparams_tokens(rest).len() ==> toks[pos + plen + j]
                == #[trigger] spec_gparams_tokens(rest)[j]) by {
            assert(forall|j: int|
                0 <= j < spec_gparams_tokens(rest).len() ==> spec_gparams_tokens(params)[plen + j]
                    == #[trigger] spec_gparams_tokens(rest)[j]);
        }
        match p0 {
            GenericParamV::LifetimeParam(l) => {
                assert(prender[0] == TokenV::Punct("'"@));
                assert(prender[1] == l.lifetime_or_label);
                assert(token_text(toks[pos]) != ">"@);
                let (lt, p2) = crate::rust::kcore::spec_parse_lifetime(toks, pos);
                assert(pos + 1 < toks.len());
                assert(lt == Some(l.lifetime_or_label) && p2 == pos + 2);
                assert(LifetimeParamV { lifetime_or_label: l.lifetime_or_label, bounds: Seq::empty() }
                    == l) by {
                    assert(l.bounds =~= Seq::<crate::rust::ast_nodes::BoundV>::empty());
                }
                lemma_gparams_round(toks, p2, rest);
                assert(seq![p0] + rest =~= params);
            },
            GenericParamV::TypeParam(ty) => {
                let alen = spec_ty_tokens(ty).len();
                assert(forall|i: int|
                    0 <= i < alen ==> toks[pos + i] == #[trigger] spec_ty_tokens(ty)[i]) by {
                    assert(forall|i: int|
                        0 <= i < alen ==> prender[i] == #[trigger] spec_ty_tokens(ty)[i]);
                }
                assert(toks[pos + alen] == TokenV::Punct(","@)) by {
                    assert(prender[alen as int] == TokenV::Punct(","@));
                }
                assert(token_text(toks[pos]) != ">"@ && token_text(toks[pos]) != "'"@) by {
                    let first = spec_ty_tokens(ty)[0];
                    if ty.ref_tok is Some {
                    } else if ty.lifetime is Some {
                    } else if ty.dyn_tok is Some {
                    } else if ty.mut_tok is Some {
                    } else {
                        assert(first == ty.identifier);
                    }
                }
                let (lt, p2x) = crate::rust::kcore::spec_parse_lifetime(toks, pos);
                assert(lt is None);
                lemma_ty_round(toks, pos, ty);
                let p2 = pos + alen + 1;
                assert(after_ty_pos(toks, pos + alen) == p2);
                lemma_gparams_round(toks, p2, rest);
                assert(seq![p0] + rest =~= params);
            },
            GenericParamV::Bounds(b) => {
                assert(false);
            },
        }
    }
}

/// Reparsing the contents of one rendered attribute group gives the
/// keyed attribute back.
proof fn lemma_attr_inner_round(inner: Seq<TokenV>, grouptok: TokenV, key: Seq<char>, a: crate::rust::ast_nodes::AttrTokenV)
    requires
        wf_attr((key, a)),
        inner == (match a {
            crate::rust::ast_nodes::AttrTokenV::Attr(at) => spec_attr_body_tokens(at),
            crate::rust::ast_nodes::AttrTokenV::CondAttr(c) => seq![
                c.name,
                TokenV::Group(Delim::Paren, spec_attr_body_tokens(c.value)),
            ],
        }),
    ensures
        crate::rust::kattr::spec_parse_attr_inner(inner, grouptok) == Ok::<
            _,
            crate::kparser::KParserErrorV,
        >((key, a)),
{
    lemma_marker_texts();
    match a {
        crate::rust::ast_nodes::AttrTokenV::Attr(at) => {
            match at.value {
                Some(v) => {
                    assert(inner[1] == TokenV::Punct("="@));
                    assert(crate::rust::kattr::spec_parse_attribute(inner, 0) == (
                        crate::rust::ast_nodes::AttributeTokenV { name: at.name, value: Some(v) },
                        3int,
                    ));
                    assert(crate::rust::ast_nodes::AttributeTokenV { name: at.name, value: Some(v) }
                        == at);
                },
                None => {
                    assert(inner.len() == 1);
                    assert(crate::rust::ast_nodes::AttributeTokenV { name: at.name, value: None }
                        == at);
                },
            }
        },
        crate::rust::ast_nodes::AttrTokenV::CondAttr(c) => {
            assert(inner.len() == 2);
            assert(inner[1] is Group);
            let sub = inner[1]->Group_1;
            assert(sub == spec_attr_body_tokens(c.value));
            match c.value.value {
                Some(v) => {
                    assert(sub.len() == 3);
                    assert(sub[1] == TokenV::Punct("="@));
                    assert(crate::rust::kattr::spec_parse_attribute(sub, 0) == (
                        crate::rust::ast_nodes::AttributeTokenV {
                            name: c.value.name,
                            value: Some(v),
                        },
                        3int,
                    ));
                    assert(crate::rust::ast_nodes::AttributeTokenV {
                        name: c.value.name,
                        value: Some(v),
                    } == c.value);
                },
                None => {
                    assert(sub.len() == 1);
                    assert(crate::rust::ast_nodes::AttributeTokenV {
                        name: c.value.name,
                        value: None,
                    } == c.value);
                },
            }
            assert(crate::rust::ast_nodes::CondAttributeTokenV { name: c.name, value: c.value }
                == c);
        },
    }
}

/// Reparsing a rendered attribute run gives the keyed attributes back;
/// the token after the run, if any, must not start another attribute.
#[verifier::rlimit(100)]
pub proof fn lemma_attrs_round(
    toks: Seq<TokenV>,
    pos: int,
    attrs: Seq<(Seq<char>, crate::rust::ast_nodes::AttrTokenV)>,
)
    requires
        wf_attrs(attrs),
        0 <= pos,
        pos + spec_attrs_tokens(attrs).len() <= toks.len(),
        forall|i: int|
            0 <= i < spec_attrs_tokens(attrs).len() ==> toks[pos + i]
                == #[trigger] spec_attrs_tokens(attrs)[i],
        pos + spec_attrs_tokens(attrs).len() < toks.len() ==> token_text(
            toks[pos + spec_attrs_tokens(attrs).len()],
        ) != "#"@,
    ensures
        crate::rust::kattr::spec_parse_cond_attrs(toks, pos) == Ok::<
            _,
            crate::kparser::KParserErrorV,
        >((attrs, pos + spec_attrs_tokens(attrs).len())),
    decreases attrs.len(),
{
    lemma_marker_texts();
    if attrs.len() == 0 {
        assert(attrs =~= Seq::<(Seq<char>, crate::rust::ast_nodes::AttrTokenV)>::empty());
    } else {
        let entry = attrs[0];
        assert(wf_attr(entry));
        let erender = spec_attr_tokens(entry.1);
        let elen = erender.len();
        assert(elen == 2);
        let la = spec_attrs_tokens(attrs).len();
        assert(la == 2 + spec_attrs_tokens(attrs.drop_first()).len());
        assert(forall|i: int|
            0 <= i < elen ==> toks[pos + i] == #[trigger] erender[i]) by {
            assert(forall|i: int|
                0 <= i < elen ==> spec_attrs_tokens(attrs)[i] == #[trigger] erender[i]);
        }
        assert(toks[pos] == TokenV::Punct("#"@));
        assert(toks[pos + 1] == erender[1]);
        assert(toks[pos + 1] is Group);
        assert(token_text(toks[pos + 1]) != "!"@) by {
            lemma_group_text_long(toks[pos + 1]);
            reveal_strlit("!");
        }
        let inner = toks[pos + 1]->Group_1;
        assert(inner == (match entry.1 {
            crate::rust::ast_nodes::AttrTokenV::Attr(at) => spec_attr_body_tokens(at),
            crate::rust::ast_nodes::AttrTokenV::CondAttr(c) => seq![
                c.name,
                TokenV::Group(Delim::Paren, spec_attr_body_tokens(c.value)),
            ],
        }));
        lemma_attr_inner_round(inner, toks[pos + 1], entry.0, entry.1);
        let rest = attrs.drop_first();
        assert(forall|j: int|
            0 <= j < spec_attrs_tokens(rest).len() ==> toks[pos + 2 + j]
                == #[trigger] spec_attrs_tokens(rest)[j]) by {
            assert(forall|j: int|
                0 <= j < spec_attrs_tokens(rest).len() ==> spec_attrs_tokens(attrs)[2 + j]
                    == #[trigger] spec_attrs_tokens(rest)[j]);
        }
        lemma_attrs_round(toks, pos + 2, rest);
        assert(seq![entry] + rest =~= attrs);
    }
}

/// Reparsing a rendered well-formed field list gives the fields back.
#[verifier::rlimit(100)]
pub proof fn lemma_fields_round(toks: Seq<TokenV>, pos: int, fields: Seq<FieldTokenV>)
    requires
        forall|i: int| 0 <= i < fields.len() ==> wf_field(#[trigger] fields[i]),
        0 <= pos,
        pos + spec_fields_tokens(fields).len() == toks.len(),
        forall|i: int|
            0 <= i < spec_fields_tokens(fields).len() ==> toks[pos + i]
                == #[trigger] spec_fields_tokens(fields)[i],
    ensures
        crate::rust::kstruct::spec_parse_struct_fields(toks, pos) == Ok::<
            _,
            crate::kparser::KParserErrorV,
        >(fields),
    decreases fields.len(),
{
    lemma_marker_texts();
    if fields.len() == 0 {
        assert(fields =~= Seq::<FieldTokenV>::empty());
    } else {
        let f = fields[0];
        assert(wf_field(f));
        let frender = spec_field_tokens(f);
        let flen = frender.len();
        let alen = spec_attrs_tokens(f.attrs).len();
        let tylen = spec_ty_tokens(f.ty).len();
        let n_vis: int = if f.visibility is Some {
            1
        } else {
            0
        };
        assert(flen == alen + n_vis + 2 + tylen);
        // Every rendered-field offset holds the expected token.
        assert(forall|i: int|
            0 <= i < flen ==> toks[pos + i] == #[trigger] frender[i]) by {
            if fields.len() == 1 {
            } else {
                assert(forall|i: int|
                    0 <= i < flen ==> spec_fields_tokens(fields)[i] == #[trigger] frender[i]);
            }
        }
        assert(forall|i: int|
            0 <= i < alen ==> frender[i] == #[trigger] spec_attrs_tokens(f.attrs)[i]);
        assert(f.visibility matches Some(v) ==> frender[alen as int] == v);
        assert(frender[alen + n_vis] == f.identifier);
        assert(frender[alen + n_vis + 1] == TokenV::Punct(":"@));
        assert(forall|j: int|
            0 <= j < tylen ==> frender[alen + n_vis + 2 + j] == #[trigger] spec_ty_tokens(
                f.ty,
            )[j]);
        // The attribute run before the field.
        assert(token_text(frender[alen as int]) != "#"@);
        lemma_attrs_round(toks, pos, f.attrs);
        let q0 = pos + alen;
        // The visibility step.
        let (vis, q1) = crate::rust::kcore::spec_parse_visibility(toks, q0);
        assert(vis == f.visibility && q1 == q0 + n_vis);
        // The name and the separator.
        assert(toks[q1] == f.identifier);
        assert(toks[q1 + 1] == TokenV::Punct(":"@));
        assert(q1 + 1 < toks.len());
        // The type, with its follow token.
        let tystart = q0 + n_vis + 2;
        assert(forall|j: int|
            0 <= j < tylen ==> toks[tystart + j] == #[trigger] spec_ty_tokens(f.ty)[j]);
        let tyend = tystart + tylen;
        if fields.len() == 1 {
            assert(tyend == toks.len());
        } else {
            assert(toks[tyend] == TokenV::Punct(","@)) by {
                assert(spec_fields_tokens(fields)[flen as int] == TokenV::Punct(","@));
            }
        }
        lemma_ty_round(toks, tystart, f.ty);
        let p2 = after_ty_pos(toks, tyend);
        assert(crate::rust::kstruct::spec_parse_struct_ty(toks, q0) == Ok::<
            _,
            crate::kparser::KParserErrorV,
        >(
            (
                FieldTokenV {
                    attrs: Seq::empty(),
                    visibility: f.visibility,
                    identifier: f.identifier,
                    ty: f.ty,
                },
                p2,
            ),
        ));
        // The rest of the field list.
        let rest = fields.drop_first();
        if fields.len() == 1 {
            assert(p2 == toks.len());
            assert(spec_fields_tokens(rest).len() == 0);
            lemma_fields_round(toks, p2, rest);
        } else {
            assert(p2 == pos + flen + 1);
            assert(forall|j: int|
                0 <= j < spec_fields_tokens(rest).len() ==> toks[p2 + j]
                    == #[trigger] spec_fields_tokens(rest)[j]) by {
                assert(forall|j: int|
                    0 <= j < spec_fields_tokens(rest).len() ==> spec_fields_tokens(fields)[flen + 1
                        + j] == #[trigger] spec_fields_tokens(rest)[j]);
            }
            lemma_fields_round(toks, p2, rest);
        }
        let field2 = FieldTokenV {
            attrs: Seq::empty() + f.attrs,
            visibility: f.visibility,
            identifier: f.identifier,
            ty: f.ty,
        };
        assert(field2.attrs =~= f.attrs);
        assert(field2 == f);
        assert(seq![field2] + rest =~= fields);
    }
}

/// The round-trip law: rendering a well-formed struct declaration back to
/// tokens and parsing those tokens gives a structurally equal declaration.
#[verifier::rlimit(100)]
pub proof fn lemma_struct_round_trip(s: StructTokenV)
    requires
        wf_struct(s),
    ensures
        ({
            let toks = spec_struct_tokens(s);
            &&& crate::rust::kstruct::spec_parse_struct(toks, 0) matches Ok((s2, p)) && s2 == s
        }),
{
    lemma_marker_texts();
    let toks = spec_struct_tokens(s);
    let alen = spec_attrs_tokens(s.attrs).len();
    let n_vis: int = if s.visibility is Some {
        1
    } else {
        0
    };
    let n_gen: int = match s.generics {
        Some(g) => spec_gparams_tokens(g.params).len() as int + 2,
        None => 0,
    };
    assert(toks.len() == alen + n_vis + 2 + n_gen + 1);
    assert(forall|i: int|
        0 <= i < alen ==> toks[i] == #[trigger] spec_attrs_tokens(s.attrs)[i]);
    assert(s.visibility matches Some(v) ==> toks[alen as int] == v);
    assert(toks[alen + n_vis] == TokenV::Ident("struct"@));
    assert(toks[alen + n_vis + 1] == s.name);
    let inner = spec_fields_tokens(s.fields);
    let gpos = alen + n_vis + 2 + n_gen;
    assert(toks[gpos] == TokenV::Group(Delim::Brace, inner));
    // The attribute run before the declaration.
    assert(token_text(toks[alen as int]) != "#"@);
    lemma_attrs_round(toks, 0, s.attrs);
    let (vis, p2) = crate::rust::kcore::spec_parse_visibility(toks, alen as int);
    assert(vis == s.visibility && p2 == alen + n_vis);
    let (kw, p3) = crate::rust::kcore::spec_advance(toks, p2);
    assert(token_text(kw) == "struct"@ && p3 == alen + n_vis + 1);
    let (name, p4) = crate::rust::kcore::spec_advance(toks, p3);
    assert(name == s.name && p4 == alen + n_vis + 2);
    match s.generics {
        Some(g) => {
            assert(toks[p4] == TokenV::Punct("<"@));
            let lg = spec_gparams_tokens(g.params).len();
            assert(forall|j: int|
                0 <= j < lg ==> toks[p4 + 1 + j] == #[trigger] spec_gparams_tokens(g.params)[j]);
            assert(toks[p4 + 1 + lg] == TokenV::Punct(">"@));
            lemma_gparams_round(toks, p4 + 1, g.params);
            assert(crate::rust::kcore::spec_parse_generics_params(toks, p4) == Ok::<
                _,
                crate::kparser::KParserErrorV,
            >((Some(GenericParamsV { params: g.params }), gpos as int)));
            assert(GenericParamsV { params: g.params } == g);
        },
        None => {
            assert(crate::rust::kcore::spec_parse_generics_params(toks, p4) == Ok::<
                _,
                crate::kparser::KParserErrorV,
            >((None::<GenericParamsV>, p4))) by {
                lemma_group_text_long(toks[p4]);
            }
        },
    }
    lemma_fields_round(inner, 0, s.fields);
    let built = StructTokenV {
        attrs: s.attrs,
        visibility: vis,
        name,
        fields: s.fields,
        generics: s.generics,
    };
    assert(built == s);
}

/// The node count of a type expression; the renderer's termination
/// measure.
pub open spec fn ty_size(ty: TyTokenV) -> nat
    decreases ty,
{
    1 + (match ty.generics {
        Some(args) => ty_args_size(args),
        None => 0,
    })
}

/// The summed node counts of a generic-argument list.
pub open spec fn ty_args_size(args: Seq<TyTokenV>) -> nat
    decreases args,
{
    if args.len() == 0 {
        0
    } else {
        ty_size(args[0]) + ty_args_size(args.drop_first())
    }
}

proof fn lemma_ty_args_size_elem(args: Seq<TyTokenV>, i: int)
    requires
        0 <= i < args.len(),
    ensures
        ty_size(args[i]) <= ty_args_size(args),
    decreases args,
{
    if i > 0 {
        lemma_ty_args_size_elem(args.drop_first(), i - 1);
    }
}

/// Render a type expression back to tokens.
#[verifier::rlimit(100)]
pub fn ty_tokens(ty: &TyToken) -> (r: Vec<Token>)
    ensures
        tokens_view(r@) == spec_ty_tokens(ty@),
    decreases ty_size(ty@), 1int,
{
    broadcast use crate::token::lemma_tokens_view_concat;
    broadcast use crate::token::lemma_tokens_view_push;

    let mut out: Vec<Token> = Vec::new();
    proof {
        assert(tokens_view(out@) =~= Seq::<TokenV>::empty());
    }
    match &ty.ref_tok {
        Some(t) => {
            out.push(t.clone());
        },
        None => {},
    }
    match &ty.lifetime {
        Some(l) => {
            out.push(Token::Punct { text: String::from_str("'"), span: Span::zero() });
            out.push(l.lifetime_or_label.clone());
        },
        None => {},
    }
    match &ty.dyn_tok {
        Some(t) => {
            out.push(t.clone());
        },
        None => {},
    }
    match &ty.mut_tok {
        Some(t) => {
            out.push(t.clone());
        },
        None => {},
    }
    out.push(ty.identifier.clone());
    match &ty.generics {
        Some(args) => {
            proof {
                assert(ty_seq_view(args@).skip(0) =~= ty_seq_view(args@));
                assert(ty_size(ty@) == 1 + ty_args_size(ty_seq_view(args@)));
            }
            out.push(Token::Punct { text: String::from_str("<"), span: Span::zero() });
            let mut rendered_args = ty_args_tokens(args, 0);
            out.append(&mut rendered_args);
            out.push(Token::Punct { text: String::from_str(">"), span: Span::zero() });
            proof {
                assert(ty@.generics == Some(ty_seq_view(args@)));
            }
        },
        None => {},
    }
    proof {
        assert(tokens_view(out@) =~= spec_ty_tokens(ty@));
    }
    out
}

/// Render the generic arguments from index `i` on, each followed by a
/// comma.
fn ty_args_tokens(args: &Vec<TyToken>, i: usize) -> (r: Vec<Token>)
    requires
        i <= args@.len(),
    ensures
        tokens_view(r@) == spec_ty_args_tokens(ty_seq_view(args@).skip(i as int)),
    decreases ty_args_size(ty_seq_view(args@).skip(i as int)), 2int,
{
    broadcast use crate::token::lemma_tokens_view_concat;
    broadcast use crate::token::lemma_tokens_view_push;

    proof {
        crate::rust::ast_nodes::lemma_ty_seq_view_len(args@);
    }
    if i == args.len() {
        let r: Vec<Token> = Vec::new();
        proof {
            assert(ty_seq_view(args@).skip(i as int).len() == 0);
            assert(tokens_view(r@) =~= spec_ty_args_tokens(ty_seq_view(args@).skip(i as int)));
        }
        return r;
    }
    proof {
        crate::rust::ast_nodes::lemma_ty_seq_view_index(args@, i as int);
        lemma_ty_args_size_elem(ty_seq_view(args@).skip(i as int), 0);
        assert(ty_seq_view(args@).skip(i as int)[0] == ty_view(args@[i as int]));
        assert(ty_seq_view(args@).skip(i as int).drop_first() =~= ty_seq_view(args@).skip(
            i as int + 1,
        ));
    }
    let mut out = ty_tokens(&args[i]);
    out.push(Token::Punct { text: String::from_str(","), span: Span::zero() });
    let mut rest = ty_args_tokens(args, i + 1);
    out.append(&mut rest);
    proof {
        assert(tokens_view(out@) =~= spec_ty_args_tokens(ty_seq_view(args@).skip(i as int)));
    }
    out
}

/// Render one generics-clause parameter.
fn gparam_tokens(p: &GenericParam) -> (r: Vec<Token>)
    ensures
        tokens_view(r@) == spec_gparam_tokens(p@),
{
    broadcast use crate::token::lemma_tokens_view_concat;
    broadcast use crate::token::lemma_tokens_view_push;

    match p {
        GenericParam::LifetimeParam(l) => {
            let mut out: Vec<Token> = Vec::new();
            proof {
                assert(tokens_view(out@) =~= Seq::<TokenV>::empty());
            }
            out.push(Token::Punct { text: String::from_str("'"), span: Span::zero() });
            out.push(l.lifetime_or_label.clone());
            proof {
                assert(tokens_view(out@) =~= spec_gparam_tokens(p@));
            }
            out
        },
        GenericParam::TypeParam(ty) => {
            let mut out = ty_tokens(ty);
            out.push(Token::Punct { text: String::from_str(","), span: Span::zero() });
            proof {
                assert(tokens_view(out@) =~= spec_gparam_tokens(p@));
            }
            out
        },
        GenericParam::Bounds(b) => {
            let r: Vec<Token> = Vec::new();
            proof {
                assert(tokens_view(r@) =~= spec_gparam_tokens(p@));
            }
            r
        },
    }
}

/// Render the parameters of a generics clause from index `i` on.
fn gparams_tokens(params: &Vec<GenericParam>, i: usize) -> (r: Vec<Token>)
    requires
        i <= params@.len(),
    ensures
        tokens_view(r@) == spec_gparams_tokens(generic_param_seq_view(params@).skip(i as int)),
    decreases params@.len() - i,
{
    broadcast use crate::token::lemma_tokens_view_concat;

    if i == params.len() {
        let r: Vec<Token> = Vec::new();
        proof {
            assert(tokens_view(r@) =~= spec_gparams_tokens(
                generic_param_seq_view(params@).skip(i as int),
            ));
        }
        return r;
    }
    let mut out = gparam_tokens(&params[i]);
    let mut rest = gparams_tokens(params, i + 1);
    out.append(&mut rest);
    proof {
        assert(generic_param_seq_view(params@).skip(i as int)[0] == generic_param_seq_view(
            params@,
        )[i as int]);
        assert(generic_param_seq_view(params@).skip(i as int).drop_first()
            =~= generic_param_seq_view(params@).skip(i as int + 1));
        assert(tokens_view(out@) =~= spec_gparams_tokens(
            generic_param_seq_view(params@).skip(i as int),
        ));
    }
    out
}

/// Render a generics clause, brackets included.
pub fn generics_tokens(g: &GenericParams) -> (r: Vec<Token>)
    ensures
        tokens_view(r@) == spec_generics_tokens(g@),
{
    broadcast use crate::token::lemma_tokens_view_concat;
    broadcast use crate::token::lemma_tokens_view_push;

    let mut out: Vec<Token> = Vec::new();
    proof {
        assert(tokens_view(out@) =~= Seq::<TokenV>::empty());
    }
    out.push(Token::Punct { text: String::from_str("<"), span: Span::zero() });
    let mut inner = gparams_tokens(&g.params, 0);
    out.append(&mut inner);
    out.push(Token::Punct { text: String::from_str(">"), span: Span::zero() });
    proof {
        assert(generic_param_seq_view(g.params@).skip(0) =~= generic_param_seq_view(g.params@));
        assert(tokens_view(out@) =~= spec_generics_tokens(g@));
    }
    out
}

/// Render one attribute body: the name with an optional `=` value.
fn attr_body_tokens(a: &crate::rust::ast_nodes::AttributeToken) -> (r: Vec<Token>)
    ensures
        tokens_view(r@) == spec_attr_body_tokens(a@),
{
    broadcast use crate::token::lemma_tokens_view_push;

    let mut out: Vec<Token> = Vec::new();
    proof {
        assert(tokens_view(out@) =~= Seq::<TokenV>::empty());
    }
    out.push(a.name.clone());
    match &a.value {
        Some(v) => {
            out.push(Token::Punct { text: String::from_str("="), span: Span::zero() });
            out.push(v.clone());
        },
        None => {},
    }
    proof {
        assert(tokens_view(out@) =~= spec_attr_body_tokens(a@));
    }
    out
}

/// Render one attribute: `#` and its bracket group.
fn attr_tokens_one(a: &crate::rust::ast_nodes::AttrToken) -> (r: Vec<Token>)
    ensures
        tokens_view(r@) == spec_attr_tokens(a@),
{
    broadcast use crate::token::lemma_tokens_view_push;

    let mut out: Vec<Token> = Vec::new();
    proof {
        assert(tokens_view(out@) =~= Seq::<TokenV>::empty());
    }
    out.push(Token::Punct { text: String::from_str("#"), span: Span::zero() });
    match a {
        crate::rust::ast_nodes::AttrToken::Attr(at) => {
            let body = attr_body_tokens(at);
            out.push(Token::Group { delim: Delim::Bracket, toks: body, span: Span::zero() });
        },
        crate::rust::ast_nodes::AttrToken::CondAttr(c) => {
            let body = attr_body_tokens(&c.value);
            let mut inner: Vec<Token> = Vec::new();
            proof {
                assert(tokens_view(inner@) =~= Seq::<TokenV>::empty());
            }
            inner.push(c.name.clone());
            inner.push(Token::Group { delim: Delim::Paren, toks: body, span: Span::zero() });
            proof {
                assert(tokens_view(inner@) =~= seq![
                    c.name@,
                    TokenV::Group(Delim::Paren, spec_attr_body_tokens(c.value@)),
                ]);
            }
            out.push(Token::Group { delim: Delim::Bracket, toks: inner, span: Span::zero() });
        },
    }
    proof {
        assert(tokens_view(out@) =~= spec_attr_tokens(a@));
    }
    out
}

/// Render an attribute run from entry `i` on, in insertion order.
fn attrs_tokens(m: &crate::rust::ast_nodes::KMap<crate::rust::ast_nodes::AttrToken>, i: usize) -> (r:
    Vec<Token>)
    requires
        i <= m.entries_view().len(),
    ensures
        tokens_view(r@) == spec_attrs_tokens(m.entries_view().skip(i as int)),
    decreases m.entries_view().len() - i,
{
    broadcast use crate::token::lemma_tokens_view_concat;

    let n = m.len();
    if i == n {
        let r: Vec<Token> = Vec::new();
        proof {
            assert(tokens_view(r@) =~= spec_attrs_tokens(m.entries_view().skip(i as int)));
        }
        return r;
    }
    let entry = m.entry_at(i);
    let mut out = attr_tokens_one(&entry.1);
    let mut rest = attrs_tokens(m, i + 1);
    out.append(&mut rest);
    proof {
        assert(m.entries_view().skip(i as int)[0] == m.entries_view()[i as int]);
        assert(m.entries_view().skip(i as int).drop_first() =~= m.entries_view().skip(
            i as int + 1,
        ));
        assert(tokens_view(out@) =~= spec_attrs_tokens(m.entries_view().skip(i as int)));
    }
    out
}

/// Render one field.
fn field_tokens(f: &crate::rust::ast_nodes::FieldToken) -> (r: Vec<Token>)
    ensures
        tokens_view(r@) == spec_field_tokens(f@),
{
    broadcast use crate::token::lemma_tokens_view_concat;
    broadcast use crate::token::lemma_tokens_view_push;

    let mut out = attrs_tokens(&f.attrs, 0);
    proof {
        assert(f.attrs.entries_view().skip(0) =~= f.attrs.entries_view());
    }
    match &f.visibility {
        Some(v) => {
            out.push(v.clone());
        },
        None => {},
    }
    out.push(f.identifier.clone());
    out.push(Token::Punct { text: String::from_str(":"), span: Span::zero() });
    let mut ty = ty_tokens(&f.ty);
    out.append(&mut ty);
    proof {
        assert(tokens_view(out@) =~= spec_field_tokens(f@));
    }
    out
}

/// Render a field list from index `i` on, the fields separated by commas.
fn fields_tokens(fields: &Vec<crate::rust::ast_nodes::FieldToken>, i: usize) -> (r: Vec<Token>)
    requires
        i <= fields@.len(),
    ensures
        tokens_view(r@) == spec_fields_tokens(
            crate::rust::ast_nodes::field_seq_view(fields@).skip(i as int),
        ),
    decreases fields@.len() - i,
{
    broadcast use crate::token::lemma_tokens_view_concat;
    broadcast use crate::token::lemma_tokens_view_push;

    let ghost fsv = crate::rust::ast_nodes::field_seq_view(fields@);
    if i == fields.len() {
        let r: Vec<Token> = Vec::new();
        proof {
            assert(tokens_view(r@) =~= spec_fields_tokens(fsv.skip(i as int)));
        }
        return r;
    }
    let mut out = field_tokens(&fields[i]);
    proof {
        assert(fsv.skip(i as int)[0] == fsv[i as int]);
        assert(fsv.skip(i as int).drop_first() =~= fsv.skip(i as int + 1));
    }
    if i + 1 == fields.len() {
        proof {
            assert(fsv.skip(i as int).len() == 1);
            assert(tokens_view(out@) =~= spec_fields_tokens(fsv.skip(i as int)));
        }
        return out;
    }
    out.push(Token::Punct { text: String::from_str(","), span: Span::zero() });
    let mut rest = fields_tokens(fields, i + 1);
    out.append(&mut rest);
    proof {
        assert(tokens_view(out@) =~= spec_fields_tokens(fsv.skip(i as int)));
    }
    out
}

/// Render a struct declaration back to tokens; parsing them gives the
/// declaration back whenever it is well-formed (see
/// [`lemma_struct_round_trip`]).
pub fn struct_tokens(s: &StructToken) -> (r: Vec<Token>)
    ensures
        tokens_view(r@) == spec_struct_tokens(s@),
{
    broadcast use crate::token::lemma_tokens_view_concat;
    broadcast use crate::token::lemma_tokens_view_push;

    let mut out = attrs_tokens(&s.attrs, 0);
    proof {
        assert(s.attrs.entries_view().skip(0) =~= s.attrs.entries_view());
    }
    match &s.visibility {
        Some(v) => {
            out.push(v.clone());
        },
        None => {},
    }
    out.push(Token::Ident { text: String::from_str("struct"), span: Span::zero() });
    out.push(s.name.clone());
    match &s.generics {
        Some(g) => {
            let mut clause = generics_tokens(g);
            out.append(&mut clause);
        },
        None => {},
    }
    let body = fields_tokens(&s.fields, 0);
    proof {
        assert(crate::rust::ast_nodes::field_seq_view(s.fields@).skip(0)
            =~= crate::rust::ast_nodes::field_seq_view(s.fields@));
    }
    out.push(Token::Group { delim: Delim::Brace, toks: body, span: Span::zero() });
    proof {
        assert(tokens_view(out@) =~= spec_struct_tokens(s@));
    }
    out
}

/// Join the texts of a token sequence with single spaces.
pub fn join_tokens(v: &Vec<Token>) -> (r: String)
    ensures
        r@ == texts_join(tokens_view(v@)),
{
    let mut out = String::new();
    let n = v.len();
    let mut i: usize = 0;
    while i < n
        invariant
            n == v.len(),
            i <= n,
            out@ == crate::token::texts_join_prefix(tokens_view(v@), i as int),
        decreases n - i,
    {
        proof {
            crate::token::lemma_tokens_view_index(v@, i as int);
        }
        if i > 0 {
            out.append(" ");
        }
        let piece = v[i].to_text();
        out.append(piece.as_str());
        proof {
            crate::token::lemma_texts_join_prefix_step(tokens_view(v@), i as int);
        }
        i = i + 1;
    }
    proof {
        crate::token::lemma_tokens_view_len(v@);
        crate::token::lemma_texts_join_prefix_all(tokens_view(v@));
    }
    out
}

/// Render a type expression as source text: the space-joined texts of its
/// rendered tokens.
pub fn fmt_ty(ty: &TyToken) -> (r: String)
    ensures
        r@ == texts_join(spec_ty_tokens(ty@)),
{
    let toks = ty_tokens(ty);
    join_tokens(&toks)
}

/// Render a generics clause as source text; a clause with no parameters
/// renders as the empty string.
pub fn fmt_generics(generics: &GenericParams) -> (r: String)
    ensures
        generics@.params.len() == 0 ==> r@ == Seq::<char>::empty(),
        generics@.params.len() > 0 ==> r@ == texts_join(spec_generics_tokens(generics@)),
{
    if generics.params.len() == 0 {
        return String::new();
    }
    let toks = generics_tokens(generics);
    join_tokens(&toks)
}

} // verus!
