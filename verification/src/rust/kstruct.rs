//! The struct parser: attributes, visibility, the `struct` keyword, the
//! name, an optional generics clause, and a delimited field list.
use vstd::prelude::*;

use crate::kparser::{KParserError, KParserErrorV, KParserTracer};
use crate::kproc_macros::KTokenStream;
use crate::rust::ast_nodes::{
    field_seq_view, field_view, FieldToken, FieldTokenV, KMap, StructToken, StructTokenV,
};
use crate::rust::kattr::{
    check_and_parse_cond_attribute, lemma_cond_attrs_progress, spec_parse_cond_attrs,
};
use crate::rust::kcore::{
    blame_tok, check_and_parse_generics_params, check_and_parse_visibility, expect_err,
    expected_group_msg, make_expected_group_err, perr, spec_advance, spec_parse_generics_params,
    spec_parse_visibility,
};
use crate::rust::ty::{lemma_ty_progress, parse_ty, spec_parse_ty};
use crate::token::{token_text, Token, TokenV};

verus! {

broadcast use crate::kproc_macros::KTokenStream::lemma_wf_bounds;

/// The message for a field whose type is a trait-bound clause.
pub open spec fn field_bound_msg() -> Seq<char> {
    "failing to parse a type, it may be a Trait Bound so please report a bug"@
}

/// What parsing one field yields: the field (without its attributes, which
/// the field-list loop attaches) and the next position.
pub open spec fn spec_parse_struct_ty(toks: Seq<TokenV>, pos: int) -> Result<
    (FieldTokenV, int),
    KParserErrorV,
> {
    let (vis, p1) = spec_parse_visibility(toks, pos);
    let (field_name, p2) = spec_advance(toks, p1);
    let (separator, p3) = spec_advance(toks, p2);
    if token_text(separator) != ":"@ {
        Err(perr(crate::kparser::expect_msg(":"@, token_text(separator)), field_name))
    } else {
        match spec_parse_ty(toks, p3) {
            Err(e) => Err(e),
            Ok((None, p4)) => Err(perr(field_bound_msg(), separator)),
            Ok((Some(ty), p4)) => Ok(
                (
                    FieldTokenV {
                        attrs: Seq::empty(),
                        visibility: vis,
                        identifier: field_name,
                        ty,
                    },
                    p4,
                ),
            ),
        }
    }
}

/// A successfully parsed field consumes at least one token.
pub proof fn lemma_struct_ty_progress(toks: Seq<TokenV>, pos: int)
    requires
        0 <= pos <= toks.len(),
    ensures
        match spec_parse_struct_ty(toks, pos) {
            Ok((f, p)) => pos < p <= toks.len(),
            Err(e) => true,
        },
{
    let (vis, p1) = spec_parse_visibility(toks, pos);
    let (field_name, p2) = spec_advance(toks, p1);
    let (separator, p3) = spec_advance(toks, p2);
    if token_text(separator) == ":"@ {
        lemma_ty_progress(toks, p3);
    }
}

/// What parsing the whole field list yields: the fields, each with its
/// attributes attached.
pub open spec fn spec_parse_struct_fields(toks: Seq<TokenV>, pos: int) -> Result<
    Seq<FieldTokenV>,
    KParserErrorV,
>
    decreases toks.len() - pos,
{
    if pos >= toks.len() {
        Ok(Seq::empty())
    } else {
        match spec_parse_cond_attrs(toks, pos) {
            Err(e) => Err(e),
            Ok((attrs, p1)) => match spec_parse_struct_ty(toks, p1) {
                Err(e) => Err(e),
                Ok((field, p2)) => {
                    let field2 = FieldTokenV { attrs: field.attrs + attrs, ..field };
                    if pos < p2 && p2 <= toks.len() {
                        match spec_parse_struct_fields(toks, p2) {
                            Err(e) => Err(e),
                            Ok(rest) => Ok(seq![field2] + rest),
                        }
                    } else {
                        Err(perr(field_bound_msg(), blame_tok(toks, pos)))
                    }
                },
            },
        }
    }
}

/// What parsing a struct declaration yields: the struct and the position
/// of its field-list group.
pub open spec fn spec_parse_struct(toks: Seq<TokenV>, pos: int) -> Result<
    (StructTokenV, int),
    KParserErrorV,
> {
    match spec_parse_cond_attrs(toks, pos) {
        Err(e) => Err(e),
        Ok((attrs, p1)) => {
            let (vis, p2) = spec_parse_visibility(toks, p1);
            let (tok, p3) = spec_advance(toks, p2);
            if token_text(tok) != "struct"@ {
                Err(expect_err("struct"@, tok))
            } else {
                let (name, p4) = spec_advance(toks, p3);
                match spec_parse_generics_params(toks, p4) {
                    Err(e) => Err(e),
                    Ok((generics, p5)) => {
                        if p5 < toks.len() && toks[p5] is Group {
                            match spec_parse_struct_fields(toks[p5]->Group_1, 0) {
                                Err(e) => Err(e),
                                Ok(fields) => Ok(
                                    (
                                        StructTokenV {
                                            attrs,
                                            visibility: vis,
                                            name,
                                            fields,
                                            generics,
                                        },
                                        p5,
                                    ),
                                ),
                            }
                        } else {
                            Err(perr(expected_group_msg(), blame_tok(toks, p5)))
                        }
                    },
                }
            }
        },
    }
}

/// Parse one struct field: optional visibility, the field name, `:`, and
/// the field's type expression.
pub fn parse_struct_ty<T: KParserTracer + ?Sized>(ast: &mut KTokenStream, tracer: &T) -> (r:
    Result<FieldToken, KParserError>)
    requires
        old(ast).wf(),
        old(ast).toks().len() > 0,
    ensures
        final(ast).wf(),
        final(ast).toks() == old(ast).toks(),
        match spec_parse_struct_ty(old(ast).toks(), old(ast).pos()) {
            Ok((f, p)) => {
                &&& r matches Ok(x)
                &&& x@ == f
                &&& final(ast).pos() == p
            },
            Err(e) => r matches Err(er) && er@ == e,
        },
{
    let visibility = check_and_parse_visibility(ast);
    let field_name = ast.advance();
    let separator = ast.advance();
    if !separator.match_text(":") {
        // The diagnostic points at the field's name, so a caller can show
        // which field lacks its `:` separator.
        let found = separator.to_text();
        let msg = String::from_str("expected `").concat(":").concat("` but got `").concat(
            found.as_str(),
        ).concat("`");
        return Err(KParserError::with_msg(field_name, msg.as_str(), String::new(), String::new()));
    }
    let ty = match parse_ty(ast, tracer) {
        Err(e) => {
            return Err(e);
        },
        Ok(None) => {
            return Err(
                KParserError::with_msg(
                    separator,
                    "failing to parse a type, it may be a Trait Bound so please report a bug",
                    String::new(),
                    String::new(),
                ),
            );
        },
        Ok(Some(ty)) => ty,
    };
    tracer.log("parsed the type of a field");
    let field = FieldToken {
        visibility,
        identifier: field_name,
        ty,
        attrs: KMap::new(),
    };
    Ok(field)
}

/// Parse the fields of a struct body until the stream is exhausted.
pub fn parse_struct_fields<T: KParserTracer + ?Sized>(ast: &mut KTokenStream, tracer: &T) -> (r:
    Result<Vec<FieldToken>, KParserError>)
    requires
        old(ast).wf(),
    ensures
        final(ast).wf(),
        final(ast).toks() == old(ast).toks(),
        match spec_parse_struct_fields(old(ast).toks(), old(ast).pos()) {
            Ok(s) => r matches Ok(v) && field_seq_view(v@) == s,
            Err(e) => r matches Err(er) && er@ == e,
        },
    decreases old(ast).toks().len() - old(ast).pos(),
{
    if ast.is_end() {
        let r: Vec<FieldToken> = Vec::new();
        proof {
            assert(field_seq_view(r@) =~= Seq::<FieldTokenV>::empty());
        }
        return Ok(r);
    }
    let ghost toks = old(ast).toks();
    let ghost pos0 = old(ast).pos();
    let attr = match check_and_parse_cond_attribute(ast, tracer) {
        Err(e) => {
            return Err(e);
        },
        Ok(m) => m,
    };
    proof {
        lemma_cond_attrs_progress(toks, pos0);
        lemma_struct_ty_progress(toks, ast.pos());
    }
    tracer.log("parsing one struct field");
    let mut field = match parse_struct_ty(ast, tracer) {
        Err(e) => {
            return Err(e);
        },
        Ok(f) => f,
    };
    let ghost attrsg = attr@;
    field.attrs.extend(attr);
    let ghost fieldg = field;
    match parse_struct_fields(ast, tracer) {
        Err(e) => Err(e),
        Ok(rest) => {
            let ghost restg = rest@;
            let mut out = rest;
            out.insert(0, field);
            proof {
                assert(out@ == restg.insert(0, fieldg));
                assert(out@[0] == fieldg);
                assert(out@.drop_first() =~= restg);
                assert(field_seq_view(out@) =~= seq![field_view(fieldg)] + field_seq_view(restg));
            }
            Ok(out)
        },
    }
}

/// Parse a struct declaration into its AST node.  The cursor is left on
/// the field-list group.
pub fn parse_struct<T: KParserTracer + ?Sized>(stream: &mut KTokenStream, tracer: &T) -> (r:
    Result<StructToken, KParserError>)
    requires
        old(stream).wf(),
        old(stream).toks().len() > 0,
    ensures
        final(stream).wf(),
        final(stream).toks() == old(stream).toks(),
        match spec_parse_struct(old(stream).toks(), old(stream).pos()) {
            Ok((s, p)) => {
                &&& r matches Ok(x)
                &&& x@ == s
                &&& final(stream).pos() == p
            },
            Err(e) => r matches Err(er) && er@ == e,
        },
{
    tracer.log("parsing a struct declaration");
    let attrs = match check_and_parse_cond_attribute(stream, tracer) {
        Err(e) => {
            return Err(e);
        },
        Ok(m) => m,
    };
    let visibility = check_and_parse_visibility(stream);
    let tok = stream.advance();
    if let Err(e) = KParserError::expect("struct", &tok, String::new(), String::new()) {
        return Err(e);
    }
    let name = stream.advance();
    let generics = match check_and_parse_generics_params(stream, tracer) {
        Err(e) => {
            return Err(e);
        },
        Ok(g) => g,
    };
    if stream.is_end() || !stream.is_group() {
        return Err(make_expected_group_err(stream));
    }
    let mut group = stream.to_ktoken_stream();
    let fields = match parse_struct_fields(&mut group, tracer) {
        Err(e) => {
            return Err(e);
        },
        Ok(f) => f,
    };
    let struct_tok = StructToken { attrs, visibility, name, fields, generics };
    Ok(struct_tok)
}


/// A struct declaration whose field group holds no tokens parses to a
/// field list of length zero, never to an error: whenever the header up to
/// the field group parses and the group is empty, the whole declaration
/// parses and its field list is empty.
pub proof fn lemma_zero_field_struct(toks: Seq<TokenV>, pos: int)
    requires
        spec_parse_cond_attrs(toks, pos) matches Ok((attrs, p1)) && ({
            let (vis, p2) = spec_parse_visibility(toks, p1);
            let (kw, p3) = spec_advance(toks, p2);
            &&& token_text(kw) == "struct"@
            &&& ({
                let (name, p4) = spec_advance(toks, p3);
                &&& spec_parse_generics_params(toks, p4) matches Ok((g, p5))
                &&& spec_parse_generics_params(toks, p4)->Ok_0.1 < toks.len()
                &&& toks[spec_parse_generics_params(toks, p4)->Ok_0.1] is Group
                &&& toks[spec_parse_generics_params(toks, p4)->Ok_0.1]->Group_1.len() == 0
            })
        }),
    ensures
        spec_parse_struct(toks, pos) matches Ok((s, p)) && s.fields.len() == 0,
{
}

} // verus!
