//! Helper parsers shared by the grammar modules: keyword and marker
//! checks, visibility and qualifier parsing, generic-parameter and bound
//! clauses, and the return-type clause.
//!
//! Each executable parser is specified against a `spec` function over the
//! token-view sequence and the cursor position; the `spec` function is the
//! grammar's mathematical definition.
use vstd::prelude::*;

use crate::kparser::{KParserError, KParserErrorV, KParserTracer};
use crate::kproc_macros::KTokenStream;
use crate::rust::ast_nodes::{
    generic_param_seq_view, generic_param_view, opt_generics_view, opt_token_view, opt_ty_view,
    spec_bound_add, spec_gparam_add, Bound, BoundV, GenericParam, GenericParamV, GenericParams,
    GenericParamsV, LifetimeParam, LifetimeParamV, TyToken, TyTokenV, TypeParam, TypeParamV,
};
use crate::token::{token_text, Token, TokenV};

verus! {

broadcast use crate::kproc_macros::KTokenStream::lemma_wf_bounds;

/// An error-severity parser error value.
pub open spec fn perr(msg: Seq<char>, tok: TokenV) -> KParserErrorV {
    KParserErrorV { msg, tok, warn: false }
}

/// The error reported when a parser runs out of tokens: it points at the
/// last token of the stream.
pub open spec fn eof_err(toks: Seq<TokenV>) -> KParserErrorV {
    perr("unexpected end of the token stream"@, toks[toks.len() - 1])
}

/// Build the out-of-tokens error for this stream.
pub(crate) fn make_eof_err(stream: &KTokenStream) -> (r: KParserError)
    requires
        stream.toks().len() > 0,
    ensures
        r@ == eof_err(stream.toks()),
{
    KParserError::with_msg(
        stream.last().clone(),
        "unexpected end of the token stream",
        String::new(),
        String::new(),
    )
}

/// Whether the token `step` places ahead is an identifier with exactly the
/// given text.
pub open spec fn spec_identifier_at(
    toks: Seq<TokenV>,
    pos: int,
    id: Seq<char>,
    step: int,
) -> bool {
    &&& pos + step < toks.len()
    &&& toks[pos + step] is Ident
    &&& token_text(toks[pos + step]) == id
}

/// Whether the token `step` places ahead has exactly the given text.
pub open spec fn spec_tok_at(toks: Seq<TokenV>, pos: int, id: Seq<char>, step: int) -> bool {
    &&& pos + step < toks.len()
    &&& token_text(toks[pos + step]) == id
}

/// Whether the token `step` places ahead is an identifier whose text is one
/// of the given texts.
pub open spec fn spec_identifiers_at(
    toks: Seq<TokenV>,
    pos: int,
    ids: Seq<&str>,
    step: int,
) -> bool {
    &&& pos + step < toks.len()
    &&& toks[pos + step] is Ident
    &&& exists|k: int| 0 <= k < ids.len() && (#[trigger] ids[k]@) == token_text(toks[pos + step])
}

/// Whether the token `step` places ahead has one of the given texts.
pub open spec fn spec_raw_toks_at(toks: Seq<TokenV>, pos: int, ids: Seq<&str>, step: int) -> bool {
    &&& pos + step < toks.len()
    &&& exists|k: int| 0 <= k < ids.len() && (#[trigger] ids[k]@) == token_text(toks[pos + step])
}

/// Check that the token `step` places ahead is the identifier `ident`.
pub fn check_identifier(toks: &KTokenStream, ident: &str, step: usize) -> (r: bool)
    requires
        toks.wf(),
    ensures
        r == spec_identifier_at(toks.toks(), toks.pos(), ident@, step as int),
{
    if !toks.has(step) {
        return false;
    }
    let tok = toks.lookup(step);
    tok.is_ident() && tok.match_text(ident)
}

/// Check that the token `step` places ahead has exactly the text `ident`.
pub fn check_tok(toks: &KTokenStream, ident: &str, step: usize) -> (r: bool)
    requires
        toks.wf(),
    ensures
        r == spec_tok_at(toks.toks(), toks.pos(), ident@, step as int),
{
    if !toks.has(step) {
        return false;
    }
    toks.lookup(step).match_text(ident)
}

/// Check that the token `step` places ahead is an identifier with one of
/// the texts in `ident`.
pub fn check_identifiers(toks: &KTokenStream, ident: &[&str], step: usize) -> (r: bool)
    requires
        toks.wf(),
    ensures
        r == spec_identifiers_at(toks.toks(), toks.pos(), ident@, step as int),
{
    if !toks.has(step) {
        return false;
    }
    let tok = toks.lookup(step);
    if !tok.is_ident() {
        return false;
    }
    let text = tok.to_text();
    let n = ident.len();
    let mut k: usize = 0;
    while k < n
        invariant
            toks.wf(),
            toks.pos() + step < toks.toks().len(),
            toks.toks()[toks.pos() + step] is Ident,
            n == ident@.len(),
            k <= n,
            text@ == token_text(toks.toks()[toks.pos() + step]),
            forall|m: int| 0 <= m < k ==> ident@[m]@ != text@,
        decreases n - k,
    {
        if crate::token::str_eq(ident[k], text.as_str()) {
            proof {
                assert(ident@[k as int]@ == text@);
            }
            return true;
        }
        k = k + 1;
    }
    false
}

/// Check that the token `step` places ahead has one of the texts in
/// `ident`.
pub fn check_raw_toks(toks: &KTokenStream, ident: &[&str], step: usize) -> (r: bool)
    requires
        toks.wf(),
    ensures
        r == spec_raw_toks_at(toks.toks(), toks.pos(), ident@, step as int),
{
    if !toks.has(step) {
        return false;
    }
    let tok = toks.lookup(step);
    let text = tok.to_text();
    let n = ident.len();
    let mut k: usize = 0;
    while k < n
        invariant
            toks.wf(),
            toks.pos() + step < toks.toks().len(),
            n == ident@.len(),
            k <= n,
            text@ == token_text(toks.toks()[toks.pos() + step]),
            forall|m: int| 0 <= m < k ==> ident@[m]@ != text@,
        decreases n - k,
    {
        if crate::token::str_eq(ident[k], text.as_str()) {
            proof {
                assert(ident@[k as int]@ == text@);
            }
            return true;
        }
        k = k + 1;
    }
    false
}

/// What parsing an optional single-token marker with the given text yields:
/// the marker token and the position after it, or nothing.
pub open spec fn spec_parse_marker(toks: Seq<TokenV>, pos: int, text: Seq<char>) -> (
    Option<TokenV>,
    int,
) {
    if pos < toks.len() && token_text(toks[pos]) == text {
        (Some(toks[pos]), pos + 1)
    } else {
        (None, pos)
    }
}

/// Check and parse the reference marker `&`.
pub fn check_and_parse_ref(ast: &mut KTokenStream) -> (r: Option<Token>)
    requires
        old(ast).wf(),
    ensures
        final(ast).wf(),
        final(ast).toks() == old(ast).toks(),
        (opt_token_view(r), final(ast).pos()) == spec_parse_marker(
            old(ast).toks(),
            old(ast).pos(),
            "&"@,
        ),
{
    if !ast.is_end() && ast.match_tok("&") {
        Some(ast.advance())
    } else {
        None
    }
}

/// What parsing an optional lifetime (`'` followed by its label) yields.
pub open spec fn spec_parse_lifetime(toks: Seq<TokenV>, pos: int) -> (Option<TokenV>, int) {
    if pos < toks.len() && token_text(toks[pos]) == "'"@ {
        if pos + 1 < toks.len() {
            (Some(toks[pos + 1]), pos + 2)
        } else {
            (Some(toks[toks.len() - 1]), pos + 1)
        }
    } else {
        (None, pos)
    }
}

/// Check and parse the lifetime marker `'` with the label after it.
pub fn check_and_parse_lifetime(ast: &mut KTokenStream) -> (r: Option<Token>)
    requires
        old(ast).wf(),
    ensures
        final(ast).wf(),
        final(ast).toks() == old(ast).toks(),
        (opt_token_view(r), final(ast).pos()) == spec_parse_lifetime(
            old(ast).toks(),
            old(ast).pos(),
        ),
{
    if !ast.is_end() && ast.match_tok("'") {
        ast.next();
        Some(ast.advance())
    } else {
        None
    }
}

/// Check and parse the mutability marker `mut`.
pub fn check_and_parse_mut(ast: &mut KTokenStream) -> (r: Option<Token>)
    requires
        old(ast).wf(),
    ensures
        final(ast).wf(),
        final(ast).toks() == old(ast).toks(),
        (opt_token_view(r), final(ast).pos()) == spec_parse_marker(
            old(ast).toks(),
            old(ast).pos(),
            "mut"@,
        ),
{
    if !ast.is_end() && ast.match_tok("mut") {
        Some(ast.advance())
    } else {
        None
    }
}

/// Check and parse the trait-object marker `dyn`.
pub fn check_and_parse_dyn(ast: &mut KTokenStream) -> (r: Option<Token>)
    requires
        old(ast).wf(),
    ensures
        final(ast).wf(),
        final(ast).toks() == old(ast).toks(),
        (opt_token_view(r), final(ast).pos()) == spec_parse_marker(
            old(ast).toks(),
            old(ast).pos(),
            "dyn"@,
        ),
{
    if !ast.is_end() && ast.match_tok("dyn") {
        Some(ast.advance())
    } else {
        None
    }
}

/// What parsing an optional visibility marker yields.
pub open spec fn spec_parse_visibility(toks: Seq<TokenV>, pos: int) -> (Option<TokenV>, int) {
    if spec_identifier_at(toks, pos, "pub"@, 0) {
        (Some(toks[pos]), pos + 1)
    } else {
        (None, pos)
    }
}

/// Check and parse the visibility keyword `pub`.
pub fn check_and_parse_visibility(toks: &mut KTokenStream) -> (r: Option<Token>)
    requires
        old(toks).wf(),
    ensures
        final(toks).wf(),
        final(toks).toks() == old(toks).toks(),
        (opt_token_view(r), final(toks).pos()) == spec_parse_visibility(
            old(toks).toks(),
            old(toks).pos(),
        ),
{
    if check_identifier(toks, "pub", 0) {
        return Some(toks.advance());
    }
    None
}

/// The function qualifier keywords.
pub open spec fn spec_fn_qualifiers() -> Seq<Seq<char>> {
    seq!["async"@, "const"@, "unsafe"@]
}

/// What parsing an optional function qualifier yields.
pub open spec fn spec_parse_fn_qualifier(toks: Seq<TokenV>, pos: int) -> (Option<TokenV>, int) {
    if pos < toks.len() && toks[pos] is Ident && spec_fn_qualifiers().contains(
        token_text(toks[pos]),
    ) {
        (Some(toks[pos]), pos + 1)
    } else {
        (None, pos)
    }
}

/// Check and parse a function qualifier (`async`, `const` or `unsafe`).
pub fn check_and_parse_fn_qualifier(toks: &mut KTokenStream) -> (r: Option<Token>)
    requires
        old(toks).wf(),
    ensures
        final(toks).wf(),
        final(toks).toks() == old(toks).toks(),
        (opt_token_view(r), final(toks).pos()) == spec_parse_fn_qualifier(
            old(toks).toks(),
            old(toks).pos(),
        ),
{
    let quals: [&str; 3] = ["async", "const", "unsafe"];
    if check_identifiers(toks, quals.as_slice(), 0) {
        proof {
            lemma_qualifier_texts(old(toks).toks(), old(toks).pos());
        }
        return Some(toks.advance());
    }
    proof {
        lemma_qualifier_texts(old(toks).toks(), old(toks).pos());
    }
    None
}

/// The slice membership check and the keyword-sequence membership agree.
proof fn lemma_qualifier_texts(toks: Seq<TokenV>, pos: int)
    ensures
        forall|s: Seq<&str>|
            s.len() == 3 && s[0]@ == "async"@ && s[1]@ == "const"@ && s[2]@ == "unsafe"@ ==> (
            spec_identifiers_at(toks, pos, s, 0) == (pos < toks.len() && toks[pos] is Ident
                && spec_fn_qualifiers().contains(token_text(toks[pos])))),
{
    assert forall|s: Seq<&str>|
        s.len() == 3 && s[0]@ == "async"@ && s[1]@ == "const"@ && s[2]@ == "unsafe"@ implies (
    spec_identifiers_at(toks, pos, s, 0) == (pos < toks.len() && toks[pos] is Ident
        && spec_fn_qualifiers().contains(token_text(toks[pos])))) by {
        if pos < toks.len() && toks[pos] is Ident {
            let t = token_text(toks[pos]);
            if spec_identifiers_at(toks, pos, s, 0) {
                let k = choose|k: int| 0 <= k < s.len() && s[k]@ == t;
                assert(spec_fn_qualifiers()[k] == t);
                assert(spec_fn_qualifiers().contains(t));
            }
            if spec_fn_qualifiers().contains(t) {
                let k = choose|k: int| 0 <= k < 3 && spec_fn_qualifiers()[k] == t;
                assert(s[k]@ == t);
            }
        }
    }
}

/// What parsing the `fn` keyword yields.
pub open spec fn spec_parse_fn_tok(toks: Seq<TokenV>, pos: int) -> (Option<TokenV>, int) {
    if spec_identifier_at(toks, pos, "fn"@, 0) {
        (Some(toks[pos]), pos + 1)
    } else {
        (None, pos)
    }
}

/// Check and parse the `fn` keyword.
pub fn check_and_parse_fn_tok(toks: &mut KTokenStream) -> (r: Option<Token>)
    requires
        old(toks).wf(),
    ensures
        final(toks).wf(),
        final(toks).toks() == old(toks).toks(),
        (opt_token_view(r), final(toks).pos()) == spec_parse_fn_tok(
            old(toks).toks(),
            old(toks).pos(),
        ),
{
    if check_identifier(toks, "fn", 0) {
        return Some(toks.advance());
    }
    None
}

/// Whether the cursor stands on a function declaration that begins with a
/// visibility keyword: `pub fn`, or `pub` plus a qualifier plus `fn`.
pub open spec fn spec_is_fun_with_visibility(toks: Seq<TokenV>, pos: int) -> bool {
    if spec_identifier_at(toks, pos, "pub"@, 0) {
        if pos + 1 < toks.len() && toks[pos + 1] is Ident && spec_fn_qualifiers().contains(
            token_text(toks[pos + 1]),
        ) {
            spec_identifier_at(toks, pos, "fn"@, 2)
        } else {
            spec_identifier_at(toks, pos, "fn"@, 1)
        }
    } else {
        false
    }
}

/// Check whether a function declaration with a visibility keyword starts
/// at the cursor.
pub fn check_is_fun_with_visibility(toks: &mut KTokenStream) -> (r: bool)
    requires
        old(toks).wf(),
    ensures
        final(toks).wf(),
        final(toks).toks() == old(toks).toks(),
        final(toks).pos() == old(toks).pos(),
        r == spec_is_fun_with_visibility(old(toks).toks(), old(toks).pos()),
{
    let quals: [&str; 3] = ["async", "const", "unsafe"];
    proof {
        lemma_qualifier_texts_at(old(toks).toks(), old(toks).pos() + 1);
    }
    if check_identifier(toks, "pub", 0) {
        if check_identifiers(toks, quals.as_slice(), 1) {
            return check_identifier(toks, "fn", 2);
        } else if check_identifier(toks, "fn", 1) {
            return true;
        }
    }
    false
}

/// The slice membership check at an absolute position and the
/// keyword-sequence membership agree.
proof fn lemma_qualifier_texts_at(toks: Seq<TokenV>, at: int)
    ensures
        forall|s: Seq<&str>|
            s.len() == 3 && s[0]@ == "async"@ && s[1]@ == "const"@ && s[2]@ == "unsafe"@ ==> (
            spec_identifiers_at(toks, at - 1, s, 1) == (at < toks.len() && toks[at] is Ident
                && spec_fn_qualifiers().contains(token_text(toks[at])))),
{
    assert forall|s: Seq<&str>|
        s.len() == 3 && s[0]@ == "async"@ && s[1]@ == "const"@ && s[2]@ == "unsafe"@ implies (
    spec_identifiers_at(toks, at - 1, s, 1) == (at < toks.len() && toks[at] is Ident
        && spec_fn_qualifiers().contains(token_text(toks[at])))) by {
        if at < toks.len() && toks[at] is Ident {
            let t = token_text(toks[at]);
            if spec_identifiers_at(toks, at - 1, s, 1) {
                let k = choose|k: int| 0 <= k < s.len() && s[k]@ == t;
                assert(spec_fn_qualifiers()[k] == t);
                assert(spec_fn_qualifiers().contains(t));
            }
            if spec_fn_qualifiers().contains(t) {
                let k = choose|k: int| 0 <= k < 3 && spec_fn_qualifiers()[k] == t;
                assert(s[k]@ == t);
            }
        }
    }
}


/// The message for a `+`/`:` continuation with no open parameter.
pub open spec fn concat_bound_msg() -> Seq<char> {
    "concatenation bound `+` on generic used in the wrong way"@
}

/// The message for a new parameter started while one is still open.
pub open spec fn decl_bound_msg() -> Seq<char> {
    "declaration bound with `:` used in the wrong way"@
}

/// The message for a parameter slot that holds no parameter at all.
pub open spec fn empty_slot_msg() -> Seq<char> {
    "malformed generics clause: empty parameter slot"@
}

/// The message for a bound clause in a generics clause that takes none.
pub open spec fn unsupported_bound_msg() -> Seq<char> {
    "bound clauses are not supported in this generics clause"@
}

/// An error that no run can produce: the progress lemmas show each step of
/// the clause grammars consumes at least one token.
pub open spec fn clause_stall_err(toks: Seq<TokenV>) -> KParserErrorV {
    perr("the clause parser made no progress"@, toks[0])
}

/// The token blamed at position `pos`, falling back to the last token at
/// the end of the stream.
pub open spec fn blame_tok(toks: Seq<TokenV>, pos: int) -> TokenV {
    if pos < toks.len() {
        toks[pos]
    } else {
        toks[toks.len() - 1]
    }
}

/// What parsing the generics clause of a struct-like declaration yields:
/// lifetime parameters and plain type parameters between `<` and `>`.
pub open spec fn spec_parse_generics_params(toks: Seq<TokenV>, pos: int) -> Result<
    (Option<GenericParamsV>, int),
    KParserErrorV,
>
    decreases toks.len() - pos, 3int,
{
    if pos < toks.len() && token_text(toks[pos]) == "<"@ {
        match spec_generics_list(toks, pos + 1) {
            Err(e) => Err(e),
            Ok((params, p2)) => Ok((Some(GenericParamsV { params }), p2)),
        }
    } else {
        Ok((None, pos))
    }
}

/// What parsing the parameters of a generics clause up to and over the
/// closing `>` yields.
pub open spec fn spec_generics_list(toks: Seq<TokenV>, pos: int) -> Result<
    (Seq<GenericParamV>, int),
    KParserErrorV,
>
    decreases toks.len() - pos, 2int,
{
    if pos >= toks.len() {
        Err(eof_err(toks))
    } else if token_text(toks[pos]) == ">"@ {
        Ok((Seq::empty(), pos + 1))
    } else {
        let (lt, p2) = spec_parse_lifetime(toks, pos);
        match lt {
            Some(l) => {
                let param = GenericParamV::LifetimeParam(
                    LifetimeParamV { lifetime_or_label: l, bounds: Seq::empty() },
                );
                if pos < p2 && p2 <= toks.len() {
                    match spec_generics_list(toks, p2) {
                        Err(e) => Err(e),
                        Ok((rest, p3)) => Ok((seq![param] + rest, p3)),
                    }
                } else {
                    Err(clause_stall_err(toks))
                }
            },
            None => match crate::rust::ty::spec_parse_ty(toks, pos) {
                Err(e) => Err(e),
                Ok((None, p2x)) => Err(perr(unsupported_bound_msg(), blame_tok(toks, p2x))),
                Ok((Some(ty), p2x)) => {
                    let param = GenericParamV::TypeParam(ty);
                    if pos < p2x && p2x <= toks.len() {
                        match spec_generics_list(toks, p2x) {
                            Err(e) => Err(e),
                            Ok((rest, p3)) => Ok((seq![param] + rest, p3)),
                        }
                    } else {
                        Err(clause_stall_err(toks))
                    }
                },
            },
        }
    }
}

/// Every step of the generics-clause grammar moves strictly forward.
pub proof fn lemma_generics_progress(toks: Seq<TokenV>, pos: int)
    requires
        0 <= pos <= toks.len(),
    ensures
        match spec_generics_list(toks, pos) {
            Ok((s, p)) => pos < p <= toks.len(),
            Err(e) => true,
        },
        match spec_parse_generics_params(toks, pos) {
            Ok((v, p)) => pos <= p <= toks.len(),
            Err(e) => true,
        },
    decreases toks.len() - pos,
{
    if pos < toks.len() && token_text(toks[pos]) != ">"@ {
        let (lt, p2) = spec_parse_lifetime(toks, pos);
        match lt {
            Some(l) => {
                if pos < p2 && p2 <= toks.len() {
                    lemma_generics_progress(toks, p2);
                }
            },
            None => {
                crate::rust::ty::lemma_ty_progress(toks, pos);
                match crate::rust::ty::spec_parse_ty(toks, pos) {
                    Ok((Some(ty), p2x)) => {
                        if pos < p2x && p2x <= toks.len() {
                            lemma_generics_progress(toks, p2x);
                        }
                    },
                    _ => {},
                }
            },
        }
    }
    if pos < toks.len() && token_text(toks[pos]) == "<"@ {
        lemma_generics_progress(toks, pos + 1);
    }
}

/// Parse the declaration of the lifetimes and generics of a struct-like
/// declaration.
pub fn check_and_parse_generics_params<T: KParserTracer + ?Sized>(
    ast: &mut KTokenStream,
    tracer: &T,
) -> (r: Result<Option<GenericParams>, KParserError>)
    requires
        old(ast).wf(),
        old(ast).toks().len() > 0,
    ensures
        final(ast).wf(),
        final(ast).toks() == old(ast).toks(),
        match spec_parse_generics_params(old(ast).toks(), old(ast).pos()) {
            Ok((v, p)) => {
                &&& r matches Ok(x)
                &&& opt_generics_view(x) == v
                &&& final(ast).pos() == p
            },
            Err(e) => r matches Err(er) && er@ == e,
        },
{
    tracer.log("parsing generics params");
    if !ast.is_end() && ast.match_tok("<") {
        ast.next();
        match parse_generics_list(ast, tracer) {
            Err(e) => Err(e),
            Ok(params) => Ok(Some(GenericParams { params })),
        }
    } else {
        Ok(None)
    }
}

/// Parse the parameters of a generics clause up to and over the closing
/// `>`.
fn parse_generics_list<T: KParserTracer + ?Sized>(ast: &mut KTokenStream, tracer: &T) -> (r:
    Result<Vec<GenericParam>, KParserError>)
    requires
        old(ast).wf(),
        old(ast).toks().len() > 0,
    ensures
        final(ast).wf(),
        final(ast).toks() == old(ast).toks(),
        match spec_generics_list(old(ast).toks(), old(ast).pos()) {
            Ok((s, p)) => {
                &&& r matches Ok(v)
                &&& generic_param_seq_view(v@) == s
                &&& final(ast).pos() == p
            },
            Err(e) => r matches Err(er) && er@ == e,
        },
    decreases old(ast).toks().len() - old(ast).pos(),
{
    if ast.is_end() {
        return Err(make_eof_err(ast));
    }
    if ast.match_tok(">") {
        ast.next();
        let r: Vec<GenericParam> = Vec::new();
        proof {
            assert(generic_param_seq_view(r@) =~= Seq::<GenericParamV>::empty());
        }
        return Ok(r);
    }
    let ghost toks = old(ast).toks();
    let ghost pos0 = old(ast).pos();
    let param: GenericParam = if let Some(lifetime) = check_and_parse_lifetime(ast) {
        GenericParam::LifetimeParam(
            LifetimeParam { lifetime_or_label: lifetime, bounds: Vec::new() },
        )
    } else {
        proof {
            crate::rust::ty::lemma_ty_progress(toks, pos0);
        }
        match crate::rust::ty::parse_ty(ast, tracer) {
            Err(e) => {
                return Err(e);
            },
            Ok(None) => {
                let tok = if ast.is_end() {
                    ast.last().clone()
                } else {
                    ast.peek().clone()
                };
                return Err(
                    KParserError::with_msg(
                        tok,
                        "bound clauses are not supported in this generics clause",
                        String::new(),
                        String::new(),
                    ),
                );
            },
            Ok(Some(ty)) => GenericParam::TypeParam(ty),
        }
    };
    let ghost paramg = param;
    match parse_generics_list(ast, tracer) {
        Err(e) => Err(e),
        Ok(rest) => {
            let ghost restg = rest@;
            let mut out = rest;
            out.insert(0, param);
            proof {
                assert(out@ == restg.insert(0, paramg));
                assert(out@[0] == paramg);
                assert(out@.drop_first() =~= restg);
                assert(generic_param_seq_view(out@) =~= seq![generic_param_view(paramg)]
                    + generic_param_seq_view(restg));
            }
            Ok(out)
        },
    }
}

/// What one parameter slot of a bounds clause yields: the finished
/// parameter and the position of the slot's terminator (`,`, `>` or the
/// end).  `cur` is the parameter open so far.
pub open spec fn spec_bounds_slot(toks: Seq<TokenV>, pos: int, cur: Option<GenericParamV>) -> Result<
    (GenericParamV, int),
    KParserErrorV,
>
    decreases toks.len() - pos, 1int,
{
    if pos >= toks.len() || token_text(toks[pos]) == ","@ || token_text(toks[pos]) == ">"@ {
        match cur {
            Some(g) => Ok((g, pos)),
            None => Err(perr(empty_slot_msg(), blame_tok(toks, pos))),
        }
    } else if token_text(toks[pos]) == "+"@ || token_text(toks[pos]) == ":"@ {
        match cur {
            None => Err(perr(concat_bound_msg(), toks[pos])),
            Some(g) => {
                let p1 = pos + 1;
                let (lt, p2) = spec_parse_lifetime(toks, p1);
                match lt {
                    Some(l) => {
                        let b = BoundV::Lifetime(
                            LifetimeParamV { lifetime_or_label: l, bounds: Seq::empty() },
                        );
                        if pos < p2 && p2 <= toks.len() {
                            spec_bounds_slot(toks, p2, Some(spec_gparam_add(g, b)))
                        } else {
                            Err(clause_stall_err(toks))
                        }
                    },
                    None => {
                        if p1 < toks.len() {
                            let b = BoundV::Trait(
                                TypeParamV { identifier: toks[p1], bounds: Seq::empty() },
                            );
                            spec_bounds_slot(toks, p1 + 1, Some(spec_gparam_add(g, b)))
                        } else {
                            Err(eof_err(toks))
                        }
                    },
                }
            },
        }
    } else {
        match cur {
            Some(g) => Err(perr(decl_bound_msg(), toks[pos])),
            None => {
                let (lt, p2) = spec_parse_lifetime(toks, pos);
                match lt {
                    Some(l) => {
                        let g = GenericParamV::LifetimeParam(
                            LifetimeParamV { lifetime_or_label: l, bounds: Seq::empty() },
                        );
                        if pos < p2 && p2 <= toks.len() {
                            spec_bounds_slot(toks, p2, Some(g))
                        } else {
                            Err(clause_stall_err(toks))
                        }
                    },
                    None => {
                        let g = GenericParamV::Bounds(
                            BoundV::Trait(TypeParamV { identifier: toks[pos], bounds: Seq::empty() }),
                        );
                        spec_bounds_slot(toks, pos + 1, Some(g))
                    },
                }
            },
        }
    }
}

/// What the comma-separated parameter slots of a bounds clause yield, up
/// to and over the closing `>` (or the end of the stream).
pub open spec fn spec_bounds_list(toks: Seq<TokenV>, pos: int) -> Result<
    (Seq<GenericParamV>, int),
    KParserErrorV,
>
    decreases toks.len() - pos, 2int,
{
    if pos >= toks.len() {
        Ok((Seq::empty(), pos))
    } else if token_text(toks[pos]) == ">"@ {
        Ok((Seq::empty(), pos + 1))
    } else {
        match spec_bounds_slot(toks, pos, None) {
            Err(e) => Err(e),
            Ok((g, p2)) => {
                let p3 = if p2 < toks.len() && token_text(toks[p2]) == ","@ {
                    p2 + 1
                } else {
                    p2
                };
                if pos < p3 && p3 <= toks.len() {
                    match spec_bounds_list(toks, p3) {
                        Err(e) => Err(e),
                        Ok((rest, p4)) => Ok((seq![g] + rest, p4)),
                    }
                } else {
                    Err(clause_stall_err(toks))
                }
            },
        }
    }
}

/// What parsing a `<`-opened bounds clause yields.  A cursor that does not
/// stand on `<` yields nothing and is left unmoved.
pub open spec fn spec_parse_bounds(toks: Seq<TokenV>, pos: int) -> Result<
    (Option<GenericParamsV>, int),
    KParserErrorV,
>
    decreases toks.len() - pos, 3int,
{
    if pos < toks.len() && token_text(toks[pos]) == "<"@ {
        match spec_bounds_list(toks, pos + 1) {
            Err(e) => Err(e),
            Ok((params, p2)) => Ok((Some(GenericParamsV { params }), p2)),
        }
    } else {
        Ok((None, pos))
    }
}

/// Every step of a bounds-clause parameter slot moves forward, and
/// strictly so when no parameter is open yet.
pub proof fn lemma_bounds_slot_progress(toks: Seq<TokenV>, pos: int, cur: Option<GenericParamV>)
    requires
        0 <= pos <= toks.len(),
    ensures
        match spec_bounds_slot(toks, pos, cur) {
            Ok((g, p)) => pos <= p <= toks.len() && (cur is None ==> pos < p),
            Err(e) => true,
        },
    decreases toks.len() - pos,
{
    if !(pos >= toks.len() || token_text(toks[pos]) == ","@ || token_text(toks[pos]) == ">"@) {
        if token_text(toks[pos]) == "+"@ || token_text(toks[pos]) == ":"@ {
            if cur is Some {
                let g = cur->0;
                let p1 = pos + 1;
                let (lt, p2) = spec_parse_lifetime(toks, p1);
                match lt {
                    Some(l) => {
                        if pos < p2 && p2 <= toks.len() {
                            let b = BoundV::Lifetime(
                                LifetimeParamV { lifetime_or_label: l, bounds: Seq::empty() },
                            );
                            lemma_bounds_slot_progress(toks, p2, Some(spec_gparam_add(g, b)));
                        }
                    },
                    None => {
                        if p1 < toks.len() {
                            let b = BoundV::Trait(
                                TypeParamV { identifier: toks[p1], bounds: Seq::empty() },
                            );
                            lemma_bounds_slot_progress(toks, p1 + 1, Some(spec_gparam_add(g, b)));
                        }
                    },
                }
            }
        } else if cur is None {
            let (lt, p2) = spec_parse_lifetime(toks, pos);
            match lt {
                Some(l) => {
                    if pos < p2 && p2 <= toks.len() {
                        let g = GenericParamV::LifetimeParam(
                            LifetimeParamV { lifetime_or_label: l, bounds: Seq::empty() },
                        );
                        lemma_bounds_slot_progress(toks, p2, Some(g));
                    }
                },
                None => {
                    let g = GenericParamV::Bounds(
                        BoundV::Trait(TypeParamV { identifier: toks[pos], bounds: Seq::empty() }),
                    );
                    lemma_bounds_slot_progress(toks, pos + 1, Some(g));
                },
            }
        }
    }
}

/// Every parameter slot of a bounds clause moves the list strictly
/// forward, so the clause parser terminates within the stream.
pub proof fn lemma_bounds_list_progress(toks: Seq<TokenV>, pos: int)
    requires
        0 <= pos <= toks.len(),
    ensures
        match spec_bounds_list(toks, pos) {
            Ok((s, p)) => pos <= p <= toks.len(),
            Err(e) => true,
        },
    decreases toks.len() - pos,
{
    if pos < toks.len() && token_text(toks[pos]) != ">"@ {
        lemma_bounds_slot_progress(toks, pos, None);
        match spec_bounds_slot(toks, pos, None) {
            Ok((g, p2)) => {
                let p3 = if p2 < toks.len() && token_text(toks[p2]) == ","@ {
                    p2 + 1
                } else {
                    p2
                };
                if pos < p3 && p3 <= toks.len() {
                    lemma_bounds_list_progress(toks, p3);
                }
            },
            Err(e) => {},
        }
    }
}

/// Parse one parameter slot of a bounds clause; `generic` is the
/// parameter open so far.
fn parse_bounds_slot<T: KParserTracer + ?Sized>(
    stream: &mut KTokenStream,
    tracer: &T,
    generic: Option<GenericParam>,
) -> (r: Result<GenericParam, KParserError>)
    requires
        old(stream).wf(),
        old(stream).toks().len() > 0,
    ensures
        final(stream).wf(),
        final(stream).toks() == old(stream).toks(),
        match spec_bounds_slot(old(stream).toks(), old(stream).pos(), opt_gparam_view(generic)) {
            Ok((g, p)) => {
                &&& r matches Ok(x)
                &&& x@ == g
                &&& final(stream).pos() == p
            },
            Err(e) => r matches Err(er) && er@ == e,
        },
    decreases old(stream).toks().len() - old(stream).pos(), 1int,
{
    let ghost toks = old(stream).toks();
    let ghost pos0 = old(stream).pos();
    if stream.is_end() || stream.match_tok(",") || stream.match_tok(">") {
        match generic {
            Some(g) => {
                return Ok(g);
            },
            None => {
                let tok = if stream.is_end() {
                    stream.last().clone()
                } else {
                    stream.peek().clone()
                };
                return Err(
                    KParserError::with_msg(
                        tok,
                        "malformed generics clause: empty parameter slot",
                        String::new(),
                        String::new(),
                    ),
                );
            },
        }
    }
    if stream.match_tok("+") || stream.match_tok(":") {
        match generic {
            None => {
                let tok = stream.peek().clone();
                return Err(
                    KParserError::with_msg(
                        tok,
                        "concatenation bound `+` on generic used in the wrong way",
                        String::new(),
                        String::new(),
                    ),
                );
            },
            Some(g) => {
                stream.next();
                let bound: Bound = if let Some(lifetime) = check_and_parse_lifetime(stream) {
                    Bound::Lifetime(LifetimeParam { lifetime_or_label: lifetime, bounds: Vec::new() })
                } else {
                    if stream.is_end() {
                        return Err(make_eof_err(stream));
                    }
                    let trait_bound = stream.advance();
                    Bound::Trait(TypeParam { identifier: trait_bound, bounds: Vec::new() })
                };
                let mut g2 = g;
                g2.add_bound(bound);
                return parse_bounds_slot(stream, tracer, Some(g2));
            },
        }
    }
    match generic {
        Some(g) => {
            let tok = stream.peek().clone();
            Err(
                KParserError::with_msg(
                    tok,
                    "declaration bound with `:` used in the wrong way",
                    String::new(),
                    String::new(),
                ),
            )
        },
        None => {
            if let Some(lifetime) = check_and_parse_lifetime(stream) {
                let g = GenericParam::LifetimeParam(
                    LifetimeParam { lifetime_or_label: lifetime, bounds: Vec::new() },
                );
                parse_bounds_slot(stream, tracer, Some(g))
            } else {
                let identifier = stream.advance();
                tracer.log("trait name in a bounds clause");
                let g = GenericParam::Bounds(
                    Bound::Trait(TypeParam { identifier, bounds: Vec::new() }),
                );
                parse_bounds_slot(stream, tracer, Some(g))
            }
        },
    }
}

/// The view of an optional generic parameter.
pub open spec fn opt_gparam_view(g: Option<GenericParam>) -> Option<GenericParamV> {
    match g {
        Some(p) => Some(generic_param_view(p)),
        None => None,
    }
}

/// Parse the comma-separated parameter slots of a bounds clause up to and
/// over the closing `>` (or the end of the stream).
fn parse_bounds_list<T: KParserTracer + ?Sized>(stream: &mut KTokenStream, tracer: &T) -> (r:
    Result<Vec<GenericParam>, KParserError>)
    requires
        old(stream).wf(),
        old(stream).toks().len() > 0,
    ensures
        final(stream).wf(),
        final(stream).toks() == old(stream).toks(),
        match spec_bounds_list(old(stream).toks(), old(stream).pos()) {
            Ok((s, p)) => {
                &&& r matches Ok(v)
                &&& generic_param_seq_view(v@) == s
                &&& final(stream).pos() == p
            },
            Err(e) => r matches Err(er) && er@ == e,
        },
    decreases old(stream).toks().len() - old(stream).pos(), 2int,
{
    if stream.is_end() || stream.match_tok(">") {
        if !stream.is_end() {
            stream.next();
        }
        let r: Vec<GenericParam> = Vec::new();
        proof {
            assert(generic_param_seq_view(r@) =~= Seq::<GenericParamV>::empty());
        }
        return Ok(r);
    }
    let ghost toks = old(stream).toks();
    let ghost pos0 = old(stream).pos();
    proof {
        lemma_bounds_slot_progress(toks, pos0, None);
    }
    match parse_bounds_slot(stream, tracer, None) {
        Err(e) => Err(e),
        Ok(g) => {
            if !stream.is_end() && stream.match_tok(",") {
                stream.next();
            }
            let ghost gg = g;
            match parse_bounds_list(stream, tracer) {
                Err(e) => Err(e),
                Ok(rest) => {
                    let ghost restg = rest@;
                    let mut out = rest;
                    out.insert(0, g);
                    proof {
                        assert(out@ == restg.insert(0, gg));
                        assert(out@[0] == gg);
                        assert(out@.drop_first() =~= restg);
                        assert(generic_param_seq_view(out@) =~= seq![generic_param_view(gg)]
                            + generic_param_seq_view(restg));
                    }
                    Ok(out)
                },
            }
        },
    }
}

/// Check and parse the `<...>` bounds clause of a declaration: a mixed
/// list of lifetime parameters, type parameters and bound clauses joined
/// by `:` and `+`.  The clause is only entered when the cursor stands on
/// `<`.
pub fn check_and_parse_bounds<T: KParserTracer + ?Sized>(stream: &mut KTokenStream, tracer: &T) -> (r:
    Result<Option<GenericParams>, KParserError>)
    requires
        old(stream).wf(),
        old(stream).toks().len() > 0,
    ensures
        final(stream).wf(),
        final(stream).toks() == old(stream).toks(),
        match spec_parse_bounds(old(stream).toks(), old(stream).pos()) {
            Ok((v, p)) => {
                &&& r matches Ok(x)
                &&& opt_generics_view(x) == v
                &&& final(stream).pos() == p
            },
            Err(e) => r matches Err(er) && er@ == e,
        },
{
    tracer.log("check and parsing the type bounds");
    if !stream.is_end() && stream.match_tok("<") {
        stream.next();
        match parse_bounds_list(stream, tracer) {
            Err(e) => Err(e),
            Ok(params) => Ok(Some(GenericParams { params })),
        }
    } else {
        Ok(None)
    }
}

/// What parsing an optional `-> type` return clause yields.
pub open spec fn spec_parse_return_type(toks: Seq<TokenV>, pos: int) -> Result<
    (Option<TyTokenV>, int),
    KParserErrorV,
> {
    if pos >= toks.len() {
        Ok((None, pos))
    } else if token_text(toks[pos]) == "-"@ {
        let p1 = pos + 1;
        if p1 < toks.len() && token_text(toks[p1]) == ">"@ {
            crate::rust::ty::spec_parse_ty(toks, p1 + 1)
        } else {
            Ok((None, p1))
        }
    } else {
        Ok((None, pos))
    }
}

/// Check and parse the `-> type` return clause of a function declaration.
pub fn check_and_parse_return_type<T: KParserTracer + ?Sized>(
    toks: &mut KTokenStream,
    tracer: &T,
) -> (r: Result<Option<TyToken>, KParserError>)
    requires
        old(toks).wf(),
        old(toks).toks().len() > 0,
    ensures
        final(toks).wf(),
        final(toks).toks() == old(toks).toks(),
        match spec_parse_return_type(old(toks).toks(), old(toks).pos()) {
            Ok((v, p)) => {
                &&& r matches Ok(x)
                &&& opt_ty_view(x) == v
                &&& final(toks).pos() == p
            },
            Err(e) => r matches Err(er) && er@ == e,
        },
{
    if toks.is_end() {
        return Ok(None);
    }
    if check_tok(toks, "-", 0) {
        toks.next();
        tracer.log("parsed the arrow lead-in of a return clause");
        if check_tok(toks, ">", 0) {
            toks.next();
            return crate::rust::ty::parse_ty(toks, tracer);
        }
        return Ok(None);
    }
    Ok(None)
}


/// The token returned by a best-effort advance, with the next position: at
/// the end of the stream the last token comes back and the position stays.
pub open spec fn spec_advance(toks: Seq<TokenV>, pos: int) -> (TokenV, int) {
    if pos < toks.len() {
        (toks[pos], pos + 1)
    } else {
        (toks[toks.len() - 1], pos)
    }
}

/// The error produced when a required token does not match.
pub open spec fn expect_err(expected: Seq<char>, t: TokenV) -> KParserErrorV {
    perr(crate::kparser::expect_msg(expected, token_text(t)), t)
}

/// The message for a missing delimited group.
pub open spec fn expected_group_msg() -> Seq<char> {
    "expected a delimited group"@
}

/// Build the missing-group error for the current position.
pub(crate) fn make_expected_group_err(stream: &KTokenStream) -> (r: KParserError)
    requires
        stream.wf(),
        stream.toks().len() > 0,
    ensures
        r@ == perr(expected_group_msg(), blame_tok(stream.toks(), stream.pos())),
{
    let tok = if stream.is_end() {
        stream.last().clone()
    } else {
        stream.peek().clone()
    };
    KParserError::with_msg(tok, "expected a delimited group", String::new(), String::new())
}

} // verus!
