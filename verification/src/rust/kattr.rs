//! The attribute parsers: `#[...]` and `#![...]` metadata items attached
//! to a declaration or field, in two forms.  The first form builds the
//! simple/conditional [`AttrToken`] map; the richer form builds
//! [`AttributeV2Token`] values that classify inner and outer attributes.
use vstd::prelude::*;

use crate::kparser::{KParserError, KParserErrorV, KParserTracer};
use crate::kproc_macros::KTokenStream;
use crate::rust::ast_nodes::{
    attr_token_view, attribute_token_view, Attr, AttrToken, AttrTokenV, AttrV, AttributeToken,
    AttributeTokenV, AttributeV2Token, AttributeV2TokenV, CondAttributeToken, CondAttributeTokenV,
    KMap,
};
use crate::rust::kcore::{blame_tok, perr};
use crate::token::{
    lemma_suffix_size_group, lemma_suffix_size_mono, lemma_suffix_size_step, suffix_size,
    token_text, toks_size, Token, TokenV,
};

verus! {

broadcast use crate::kproc_macros::KTokenStream::lemma_wf_bounds;

/// The message for an attribute whose group holds no tokens.
pub open spec fn empty_attr_msg() -> Seq<char> {
    "empty attribute group"@
}

/// The message for a `#` that is not followed by a delimited group.
pub open spec fn expected_attr_group_msg() -> Seq<char> {
    "expected a delimited attribute group"@
}

/// What parsing a name with an optional `=` value yields, together with
/// the next position.
pub open spec fn spec_parse_attribute(toks: Seq<TokenV>, pos: int) -> (AttributeTokenV, int) {
    let (name, p1) = if pos < toks.len() {
        (toks[pos], pos + 1)
    } else {
        (toks[toks.len() - 1], pos)
    };
    if p1 < toks.len() && token_text(toks[p1]) == "="@ {
        let p2 = p1 + 1;
        let (value, p3) = if p2 < toks.len() {
            (toks[p2], p2 + 1)
        } else {
            (toks[toks.len() - 1], p2)
        };
        (AttributeTokenV { name, value: Some(value) }, p3)
    } else {
        (AttributeTokenV { name, value: None }, p1)
    }
}

/// Parse a plain attribute body: a name, optionally followed by `=` and a
/// value.
pub fn check_and_parse_attribute(ast: &mut KTokenStream) -> (r: Option<AttributeToken>)
    requires
        old(ast).wf(),
        old(ast).toks().len() > 0,
    ensures
        final(ast).wf(),
        final(ast).toks() == old(ast).toks(),
        ({
            let (attr, p) = spec_parse_attribute(old(ast).toks(), old(ast).pos());
            &&& r matches Some(a)
            &&& a@ == attr
            &&& final(ast).pos() == p
        }),
{
    let name = ast.advance();
    if !ast.is_end() && ast.match_tok("=") {
        ast.next();
        let value = ast.advance();
        return Some(AttributeToken { name, value: Some(value) });
    }
    Some(AttributeToken { name, value: None })
}

/// What parsing the contents of one attribute group yields: the map key
/// (the attribute's name text) and the attribute.  `grouptok` is the group
/// itself, blamed when it is empty.
pub open spec fn spec_parse_attr_inner(inner: Seq<TokenV>, grouptok: TokenV) -> Result<
    (Seq<char>, AttrTokenV),
    KParserErrorV,
> {
    if inner.len() == 0 {
        Err(perr(empty_attr_msg(), grouptok))
    } else if inner.len() >= 2 && inner[1] is Group {
        let sub = inner[1]->Group_1;
        if sub.len() == 0 {
            Err(perr(empty_attr_msg(), inner[1]))
        } else {
            let (value, p) = spec_parse_attribute(sub, 0);
            Ok(
                (
                    token_text(inner[0]),
                    AttrTokenV::CondAttr(CondAttributeTokenV { name: inner[0], value }),
                ),
            )
        }
    } else {
        let (attr, p) = spec_parse_attribute(inner, 0);
        Ok((token_text(inner[0]), AttrTokenV::Attr(attr)))
    }
}

/// What parsing the run of `#`-introduced attributes before a declaration
/// or field yields: the keyed attributes in source order, and the position
/// of the first token after them.
pub open spec fn spec_parse_cond_attrs(toks: Seq<TokenV>, pos: int) -> Result<
    (Seq<(Seq<char>, AttrTokenV)>, int),
    KParserErrorV,
>
    decreases toks.len() - pos,
{
    if pos < toks.len() && token_text(toks[pos]) == "#"@ {
        let p1 = pos + 1;
        let p2 = if p1 < toks.len() && token_text(toks[p1]) == "!"@ {
            p1 + 1
        } else {
            p1
        };
        if p2 < toks.len() && toks[p2] is Group {
            match spec_parse_attr_inner(toks[p2]->Group_1, toks[p2]) {
                Err(e) => Err(e),
                Ok((key, attr)) => {
                    if pos < p2 + 1 && p2 + 1 <= toks.len() {
                        match spec_parse_cond_attrs(toks, p2 + 1) {
                            Err(e) => Err(e),
                            Ok((rest, p3)) => Ok((seq![(key, attr)] + rest, p3)),
                        }
                    } else {
                        Err(perr(empty_attr_msg(), toks[p2]))
                    }
                },
            }
        } else {
            Err(perr(expected_attr_group_msg(), blame_tok(toks, p2)))
        }
    } else {
        Ok((Seq::empty(), pos))
    }
}

/// Parse the contents of one attribute group.
fn parse_attr_inner(inner: &mut KTokenStream, grouptok: &Token) -> (r: Result<
    (String, AttrToken),
    KParserError,
>)
    requires
        old(inner).wf(),
        old(inner).pos() == 0,
    ensures
        match spec_parse_attr_inner(old(inner).toks(), grouptok@) {
            Ok((key, attr)) => {
                &&& r matches Ok(x)
                &&& x.0@ == key
                &&& x.1@ == attr
            },
            Err(e) => r matches Err(er) && er@ == e,
        },
{
    if inner.is_end() {
        return Err(
            KParserError::with_msg(
                grouptok.clone(),
                "empty attribute group",
                String::new(),
                String::new(),
            ),
        );
    }
    let second_is_group = if inner.has(1) {
        match inner.lookup(1) {
            Token::Group { delim, toks, span } => true,
            _ => false,
        }
    } else {
        false
    };
    if second_is_group {
        let name = inner.advance();
        let sub_group = inner.unwrap_group();
        let mut sub = inner.to_ktoken_stream();
        if sub.is_end() {
            return Err(
                KParserError::with_msg(
                    sub_group,
                    "empty attribute group",
                    String::new(),
                    String::new(),
                ),
            );
        }
        let value = match check_and_parse_attribute(&mut sub) {
            Some(v) => v,
            None => {
                proof {
                    assert(false);
                }
                AttributeToken { name: sub_group, value: None }
            },
        };
        let key = name.to_text();
        return Ok((key, AttrToken::CondAttr(CondAttributeToken { name, value })));
    }
    let attr = match check_and_parse_attribute(inner) {
        Some(v) => v,
        None => {
            proof {
                assert(false);
            }
            return Err(
                KParserError::with_msg(
                    grouptok.clone(),
                    "empty attribute group",
                    String::new(),
                    String::new(),
                ),
            );
        },
    };
    let key = attr.name.to_text();
    Ok((key, AttrToken::Attr(attr)))
}

/// Check and parse the run of attributes before a declaration or field:
/// while the cursor sees `#`, consume it, optionally consume `!`, unwrap
/// the following group, and parse its contents.
pub fn check_and_parse_cond_attribute<T: KParserTracer + ?Sized>(
    ast: &mut KTokenStream,
    tracer: &T,
) -> (r: Result<KMap<AttrToken>, KParserError>)
    requires
        old(ast).wf(),
    ensures
        final(ast).wf(),
        final(ast).toks() == old(ast).toks(),
        match spec_parse_cond_attrs(old(ast).toks(), old(ast).pos()) {
            Ok((s, p)) => {
                &&& r matches Ok(m)
                &&& m@ == s
                &&& final(ast).pos() == p
            },
            Err(e) => r matches Err(er) && er@ == e,
        },
    decreases old(ast).toks().len() - old(ast).pos(),
{
    tracer.log("check and parse an attribute");
    if !ast.is_end() && ast.match_tok("#") {
        ast.next();
        if !ast.is_end() && ast.match_tok("!") {
            ast.next();
        }
        if ast.is_end() || !ast.is_group() {
            let tok = if ast.is_end() {
                ast.last().clone()
            } else {
                ast.peek().clone()
            };
            return Err(
                KParserError::with_msg(
                    tok,
                    "expected a delimited attribute group",
                    String::new(),
                    String::new(),
                ),
            );
        }
        let grouptok = ast.unwrap_group();
        let mut inner = ast.to_ktoken_stream();
        let entry = match parse_attr_inner(&mut inner, &grouptok) {
            Err(e) => {
                return Err(e);
            },
            Ok(x) => x,
        };
        ast.next();
        let rest = match check_and_parse_cond_attribute(ast, tracer) {
            Err(e) => {
                return Err(e);
            },
            Ok(m) => m,
        };
        let mut m: KMap<AttrToken> = KMap::new();
        m.insert(entry.0, entry.1);
        m.extend(rest);
        Ok(m)
    } else {
        Ok(KMap::new())
    }
}

/// What parsing one `[...]`-grouped attribute in the richer form yields:
/// the map key and the attribute, and the position after the group.
pub open spec fn spec_parse_attribute_v2(toks: Seq<TokenV>, pos: int) -> Result<
    ((Seq<char>, AttrV), int),
    KParserErrorV,
>
    decreases suffix_size(toks, pos),
    via spec_parse_attribute_v2_decreases
{
    if pos < 0 || pos >= toks.len() || !(toks[pos] is Group) {
        Err(perr(expected_attr_group_msg(), blame_tok(toks, pos)))
    } else {
        let inner = toks[pos]->Group_1;
        let raw = toks[pos];
        if inner.len() == 0 {
            Err(perr(empty_attr_msg(), raw))
        } else {
            let identifier = inner[0];
            if inner.len() == 1 {
                Ok(
                    (
                        (
                            token_text(identifier),
                            AttrV {
                                path: Seq::empty(),
                                identifier,
                                value: Seq::empty(),
                                raw_attr: raw,
                            },
                        ),
                        pos + 1,
                    ),
                )
            } else if inner[1] is Group {
                match spec_parse_attribute_v2(inner, 1) {
                    Err(e) => Err(e),
                    Ok(((k2, value), p2)) => Ok(
                        (
                            (
                                token_text(identifier),
                                AttrV {
                                    path: Seq::empty(),
                                    identifier,
                                    value: seq![value],
                                    raw_attr: raw,
                                },
                            ),
                            pos + 1,
                        ),
                    ),
                }
            } else if inner[1] is Punct {
                let vtok = if inner.len() >= 3 {
                    inner[2]
                } else {
                    inner[inner.len() - 1]
                };
                Ok(
                    (
                        (
                            token_text(identifier),
                            AttrV {
                                path: Seq::empty(),
                                identifier,
                                value: seq![
                                    AttrV {
                                        path: Seq::empty(),
                                        identifier: vtok,
                                        value: Seq::empty(),
                                        raw_attr: vtok,
                                    },
                                ],
                                raw_attr: raw,
                            },
                        ),
                        pos + 1,
                    ),
                )
            } else {
                Err(
                    perr(
                        "Error while parsing an attribute, token `"@ + token_text(inner[1])
                            + "` not expected"@,
                        inner[1],
                    ),
                )
            }
        }
    }
}

#[via_fn]
proof fn spec_parse_attribute_v2_decreases(toks: Seq<TokenV>, pos: int) {
    if 0 <= pos < toks.len() && toks[pos] is Group {
        let inner = toks[pos]->Group_1;
        if inner.len() >= 2 && inner[1] is Group {
            lemma_suffix_size_group(toks, pos);
            lemma_suffix_size_mono(inner, 0, 1);
            assert(inner.skip(0) =~= inner);
            assert(suffix_size(inner, 0) == toks_size(inner));
        }
    }
}

/// What parsing the run of `#`-introduced attributes in the richer form
/// yields: the keyed attributes in source order, each classified as inner
/// or outer, and the position after them.
pub open spec fn spec_parse_attributes_v2(toks: Seq<TokenV>, pos: int) -> Result<
    (Seq<(Seq<char>, AttributeV2TokenV)>, int),
    KParserErrorV,
>
    decreases toks.len() - pos,
{
    if pos < toks.len() && token_text(toks[pos]) == "#"@ {
        let p1 = pos + 1;
        let inner_mark = p1 < toks.len() && token_text(toks[p1]) == "!"@;
        let p2 = if inner_mark {
            p1 + 1
        } else {
            p1
        };
        match spec_parse_attribute_v2(toks, p2) {
            Err(e) => Err(e),
            Ok(((key, attr), p3)) => {
                let wrapped = if inner_mark {
                    AttributeV2TokenV::InnerAttribute(attr)
                } else {
                    AttributeV2TokenV::OuterAttribute(attr)
                };
                if pos < p3 && p3 <= toks.len() {
                    match spec_parse_attributes_v2(toks, p3) {
                        Err(e) => Err(e),
                        Ok((rest, p4)) => Ok((seq![(key, wrapped)] + rest, p4)),
                    }
                } else {
                    Err(perr(empty_attr_msg(), toks[pos]))
                }
            },
        }
    } else {
        Ok((Seq::empty(), pos))
    }
}

/// A successful richer-form attribute parse consumes exactly the group.
pub proof fn lemma_attribute_v2_step(toks: Seq<TokenV>, pos: int)
    ensures
        match spec_parse_attribute_v2(toks, pos) {
            Ok((ka, p)) => p == pos + 1 && 0 <= pos < toks.len(),
            Err(e) => true,
        },
{
}

/// Parse one `[...]`-grouped attribute in the richer form.  The returned
/// pair is the attribute's name text and the attribute itself.
pub fn check_and_parse_attribute_v2<T: KParserTracer + ?Sized>(
    stream: &mut KTokenStream,
    tracer: &T,
) -> (r: Result<(String, Attr), KParserError>)
    requires
        old(stream).wf(),
        old(stream).toks().len() > 0,
    ensures
        final(stream).wf(),
        final(stream).toks() == old(stream).toks(),
        match spec_parse_attribute_v2(old(stream).toks(), old(stream).pos()) {
            Ok(((key, a), p)) => {
                &&& r matches Ok(x)
                &&& x.0@ == key
                &&& x.1@ == a
                &&& final(stream).pos() == p
            },
            Err(e) => r matches Err(er) && er@ == e,
        },
    decreases suffix_size(old(stream).toks(), old(stream).pos()),
{
    tracer.log("parsing an attribute group");
    if stream.is_end() || !stream.is_group() {
        let tok = if stream.is_end() {
            stream.last().clone()
        } else {
            stream.peek().clone()
        };
        return Err(
            KParserError::with_msg(
                tok,
                "expected a delimited attribute group",
                String::new(),
                String::new(),
            ),
        );
    }
    let mut inner = stream.to_ktoken_stream();
    let raw_attr = stream.advance();
    if inner.is_end() {
        return Err(
            KParserError::with_msg(raw_attr, "empty attribute group", String::new(), String::new()),
        );
    }
    let identifier = inner.advance();
    if inner.is_end() {
        let key = identifier.to_text();
        return Ok(
            (key, Attr { path: Vec::new(), identifier, value: None, raw_attr }),
        );
    }
    if inner.is_group() {
        proof {
            lemma_suffix_size_group(old(stream).toks(), old(stream).pos());
            lemma_suffix_size_mono(inner.toks(), 0, 1);
            assert(inner.toks().skip(0) =~= inner.toks());
            assert(suffix_size(inner.toks(), 0) == toks_size(inner.toks()));
        }
        let value = match check_and_parse_attribute_v2(&mut inner, tracer) {
            Err(e) => {
                return Err(e);
            },
            Ok((k2, v)) => v,
        };
        let key = identifier.to_text();
        return Ok(
            (
                key,
                Attr { path: Vec::new(), identifier, value: Some(Box::new(value)), raw_attr },
            ),
        );
    }
    let is_punct = match inner.peek() {
        Token::Punct { text, span } => true,
        _ => false,
    };
    if is_punct {
        inner.next();
        let value = inner.advance();
        let value2 = value.clone();
        let key = identifier.to_text();
        let ghost vtokg = value@;
        let nested = Attr { path: Vec::new(), identifier: value, value: None, raw_attr: value2 };
        proof {
            assert(nested@ == AttrV {
                path: Seq::<TokenV>::empty(),
                identifier: vtokg,
                value: Seq::<AttrV>::empty(),
                raw_attr: vtokg,
            });
        }
        let boxed = Box::new(nested);
        let outer = Attr { path: Vec::new(), identifier, value: Some(boxed), raw_attr };
        proof {
            assert(outer@.value =~= seq![
                AttrV {
                    path: Seq::<TokenV>::empty(),
                    identifier: vtokg,
                    value: Seq::<AttrV>::empty(),
                    raw_attr: vtokg,
                },
            ]);
        }
        return Ok((key, outer));
    }
    let bad = inner.peek().clone();
    let bad_text = bad.to_text();
    let msg = String::from_str("Error while parsing an attribute, token `").concat(
        bad_text.as_str(),
    ).concat("` not expected");
    Err(KParserError::with_msg(bad, msg.as_str(), String::new(), String::new()))
}

/// Check and parse the run of `#`-introduced attributes in the richer
/// form, keyed by each attribute's name text.
pub fn check_and_parser_attributes_v2<T: KParserTracer + ?Sized>(
    stream: &mut KTokenStream,
    tracer: &T,
) -> (r: Result<KMap<AttributeV2Token>, KParserError>)
    requires
        old(stream).wf(),
    ensures
        final(stream).wf(),
        final(stream).toks() == old(stream).toks(),
        match spec_parse_attributes_v2(old(stream).toks(), old(stream).pos()) {
            Ok((s, p)) => {
                &&& r matches Ok(m)
                &&& m@ == s
                &&& final(stream).pos() == p
            },
            Err(e) => r matches Err(er) && er@ == e,
        },
    decreases old(stream).toks().len() - old(stream).pos(),
{
    tracer.log("checking and parsing attributes");
    if !stream.is_end() && stream.match_tok("#") {
        stream.next();
        let mut inner_mark = false;
        if !stream.is_end() && stream.match_tok("!") {
            stream.next();
            inner_mark = true;
        }
        let ghost toks = old(stream).toks();
        let ghost p2 = stream.pos();
        let (key, attr) = match check_and_parse_attribute_v2(stream, tracer) {
            Err(e) => {
                return Err(e);
            },
            Ok(x) => x,
        };
        proof {
            lemma_attribute_v2_step(toks, p2);
        }
        let wrapped = if inner_mark {
            AttributeV2Token::InnerAttribute(attr)
        } else {
            AttributeV2Token::OuterAttribute(attr)
        };
        let rest = match check_and_parser_attributes_v2(stream, tracer) {
            Err(e) => {
                return Err(e);
            },
            Ok(m) => m,
        };
        let mut m: KMap<AttributeV2Token> = KMap::new();
        m.insert(key, wrapped);
        m.extend(rest);
        Ok(m)
    } else {
        Ok(KMap::new())
    }
}


/// The attribute run never moves backwards and stays within the stream.
pub proof fn lemma_cond_attrs_progress(toks: Seq<TokenV>, pos: int)
    requires
        0 <= pos <= toks.len(),
    ensures
        match spec_parse_cond_attrs(toks, pos) {
            Ok((s, p)) => pos <= p <= toks.len(),
            Err(e) => true,
        },
    decreases toks.len() - pos,
{
    if pos < toks.len() && token_text(toks[pos]) == "#"@ {
        let p1 = pos + 1;
        let p2 = if p1 < toks.len() && token_text(toks[p1]) == "!"@ {
            p1 + 1
        } else {
            p1
        };
        if p2 < toks.len() && toks[p2] is Group {
            lemma_cond_attrs_progress(toks, p2 + 1);
        }
    }
}

/// The richer attribute run never moves backwards and stays within the
/// stream.
pub proof fn lemma_attributes_v2_progress(toks: Seq<TokenV>, pos: int)
    requires
        0 <= pos <= toks.len(),
    ensures
        match spec_parse_attributes_v2(toks, pos) {
            Ok((s, p)) => pos <= p <= toks.len(),
            Err(e) => true,
        },
    decreases toks.len() - pos,
{
    if pos < toks.len() && token_text(toks[pos]) == "#"@ {
        let p1 = pos + 1;
        let inner_mark = p1 < toks.len() && token_text(toks[p1]) == "!"@;
        let p2 = if inner_mark {
            p1 + 1
        } else {
            p1
        };
        lemma_attribute_v2_step(toks, p2);
        match spec_parse_attribute_v2(toks, p2) {
            Ok(((key, attr), p3)) => {
                if pos < p3 && p3 <= toks.len() {
                    lemma_attributes_v2_progress(toks, p3);
                }
            },
            Err(e) => {},
        }
    }
}

} // verus!
