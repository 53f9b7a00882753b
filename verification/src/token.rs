//! The token model: the single lexical units that the parsers consume.
//!
//! A token is an identifier, a punctuation mark, a literal, or a delimited
//! group that owns a nested token sequence.  Each token carries a source
//! position.  The mathematical model of a token is [`TokenV`], which drops
//! the source position and keeps only the structure and the text.
use vstd::prelude::*;

verus! {

/// The delimiter kind of a token group.
#[derive(Clone, Copy, Debug, PartialEq, Eq, Structural)]
pub enum Delim {
    Paren,
    Brace,
    Bracket,
}

/// Source position attached to a token: line and column.
#[derive(Clone, Copy, Debug, PartialEq, Eq, Structural)]
pub struct Span {
    pub line: usize,
    pub column: usize,
}

impl Span {
    /// The position used for synthesized tokens, line 0 and column 0.
    pub fn zero() -> (r: Span)
        ensures
            r.line == 0 && r.column == 0,
    {
        Span { line: 0, column: 0 }
    }
}

/// One lexical unit: identifier, punctuation, literal, or delimited group.
#[derive(Debug, PartialEq, Eq)]
pub enum Token {
    Ident { text: String, span: Span },
    Punct { text: String, span: Span },
    Literal { text: String, span: Span },
    Group { delim: Delim, toks: Vec<Token>, span: Span },
}

/// The mathematical view of a token: its structure and text, without the
/// source position.
pub enum TokenV {
    Ident(Seq<char>),
    Punct(Seq<char>),
    Literal(Seq<char>),
    Group(Delim, Seq<TokenV>),
}

pub open spec fn token_view(t: Token) -> TokenV
    decreases t,
{
    match t {
        Token::Ident { text, span } => TokenV::Ident(text@),
        Token::Punct { text, span } => TokenV::Punct(text@),
        Token::Literal { text, span } => TokenV::Literal(text@),
        Token::Group { delim, toks, span } => TokenV::Group(delim, tokens_view(toks@)),
    }
}

pub open spec fn tokens_view(s: Seq<Token>) -> Seq<TokenV>
    decreases s,
{
    if s.len() == 0 {
        Seq::empty()
    } else {
        seq![token_view(s[0])] + tokens_view(s.drop_first())
    }
}

impl View for Token {
    type V = TokenV;

    open spec fn view(&self) -> TokenV {
        token_view(*self)
    }
}

pub broadcast proof fn lemma_tokens_view_len(s: Seq<Token>)
    ensures
        #[trigger] tokens_view(s).len() == s.len(),
    decreases s,
{
    if s.len() > 0 {
        lemma_tokens_view_len(s.drop_first());
    }
}

pub broadcast proof fn lemma_tokens_view_index(s: Seq<Token>, i: int)
    requires
        0 <= i < s.len(),
    ensures
        tokens_view(s).len() == s.len(),
        #[trigger] tokens_view(s)[i] == token_view(s[i]),
    decreases s,
{
    lemma_tokens_view_len(s);
    if i > 0 {
        lemma_tokens_view_index(s.drop_first(), i - 1);
    }
}

pub broadcast proof fn lemma_tokens_view_push(s: Seq<Token>, t: Token)
    ensures
        #[trigger] tokens_view(s.push(t)) == tokens_view(s).push(token_view(t)),
    decreases s,
{
    if s.len() == 0 {
        assert(s.push(t).drop_first() =~= Seq::<Token>::empty());
        assert(tokens_view(s.push(t)) == seq![token_view(t)] + tokens_view(Seq::empty()));
        assert(tokens_view(s.push(t)) =~= tokens_view(s).push(token_view(t)));
    } else {
        lemma_tokens_view_push(s.drop_first(), t);
        assert(s.push(t).drop_first() =~= s.drop_first().push(t));
        assert(s.push(t)[0] == s[0]);
        assert(tokens_view(s.push(t)) == seq![token_view(s[0])] + tokens_view(
            s.drop_first().push(t),
        ));
        assert(tokens_view(s) == seq![token_view(s[0])] + tokens_view(s.drop_first()));
        assert((seq![token_view(s[0])] + tokens_view(s.drop_first())).push(token_view(t)) =~= seq![
            token_view(s[0]),
        ] + tokens_view(s.drop_first()).push(token_view(t)));
    }
}

/// The size of a token: one for a leaf, one plus the sizes of the contents
/// for a group.  Parsers use this as their termination measure.
pub open spec fn tok_size(t: TokenV) -> nat
    decreases t,
{
    match t {
        TokenV::Group(d, ts) => 1 + toks_size(ts),
        _ => 1,
    }
}

/// The summed sizes of a token sequence.
pub open spec fn toks_size(ts: Seq<TokenV>) -> nat
    decreases ts,
{
    if ts.len() == 0 {
        0
    } else {
        tok_size(ts[0]) + toks_size(ts.drop_first())
    }
}

pub proof fn lemma_toks_size_elem(ts: Seq<TokenV>, i: int)
    requires
        0 <= i < ts.len(),
    ensures
        tok_size(ts[i]) <= toks_size(ts),
    decreases ts,
{
    if i > 0 {
        lemma_toks_size_elem(ts.drop_first(), i - 1);
    }
}

/// The size of the suffix of `ts` that starts at `pos`.
pub open spec fn suffix_size(ts: Seq<TokenV>, pos: int) -> nat {
    toks_size(ts.skip(pos))
}

pub proof fn lemma_suffix_size_step(ts: Seq<TokenV>, pos: int)
    requires
        0 <= pos < ts.len(),
    ensures
        suffix_size(ts, pos) == tok_size(ts[pos]) + suffix_size(ts, pos + 1),
        suffix_size(ts, pos + 1) < suffix_size(ts, pos),
{
    assert(ts.skip(pos).len() > 0);
    assert(ts.skip(pos)[0] == ts[pos]);
    assert(ts.skip(pos).drop_first() =~= ts.skip(pos + 1));
    assert(toks_size(ts.skip(pos)) == tok_size(ts[pos]) + toks_size(ts.skip(pos + 1)));
    assert(tok_size(ts[pos]) >= 1) by {
        if !(ts[pos] is Group) {
        }
    }
}

pub proof fn lemma_suffix_size_mono(ts: Seq<TokenV>, p: int, q: int)
    requires
        0 <= p <= q <= ts.len(),
    ensures
        suffix_size(ts, q) <= suffix_size(ts, p),
        p < q ==> suffix_size(ts, q) < suffix_size(ts, p),
    decreases q - p,
{
    if p < q {
        lemma_suffix_size_step(ts, p);
        lemma_suffix_size_mono(ts, p + 1, q);
    }
}

/// Descending into a group's contents strictly shrinks the measure.
pub proof fn lemma_suffix_size_group(ts: Seq<TokenV>, pos: int)
    requires
        0 <= pos < ts.len(),
        ts[pos] is Group,
    ensures
        toks_size(ts[pos]->Group_1) < suffix_size(ts, pos),
{
    lemma_suffix_size_step(ts, pos);
}


pub broadcast proof fn lemma_tokens_view_concat(a: Seq<Token>, b: Seq<Token>)
    ensures
        #[trigger] tokens_view(a + b) == tokens_view(a) + tokens_view(b),
    decreases a,
{
    if a.len() == 0 {
        assert(a + b =~= b);
        assert(tokens_view(a) + tokens_view(b) =~= tokens_view(b));
    } else {
        lemma_tokens_view_concat(a.drop_first(), b);
        assert((a + b).drop_first() =~= a.drop_first() + b);
        assert((a + b)[0] == a[0]);
        assert(tokens_view(a + b) == seq![token_view(a[0])] + tokens_view(a.drop_first() + b));
        assert(tokens_view(a) == seq![token_view(a[0])] + tokens_view(a.drop_first()));
        assert((seq![token_view(a[0])] + tokens_view(a.drop_first())) + tokens_view(b) =~= seq![
            token_view(a[0]),
        ] + (tokens_view(a.drop_first()) + tokens_view(b)));
    }
}

/// The opening character of a delimiter, as text.
pub open spec fn delim_open(d: Delim) -> Seq<char> {
    match d {
        Delim::Paren => "("@,
        Delim::Brace => "{"@,
        Delim::Bracket => "["@,
    }
}

/// The closing character of a delimiter, as text.
pub open spec fn delim_close(d: Delim) -> Seq<char> {
    match d {
        Delim::Paren => ")"@,
        Delim::Brace => "}"@,
        Delim::Bracket => "]"@,
    }
}

/// The source text of a token.  A group renders as its delimiters around the
/// space-joined texts of its inner tokens.
pub open spec fn token_text(t: TokenV) -> Seq<char>
    decreases t,
{
    match t {
        TokenV::Ident(s) => s,
        TokenV::Punct(s) => s,
        TokenV::Literal(s) => s,
        TokenV::Group(d, toks) => delim_open(d) + texts_join(toks) + delim_close(d),
    }
}

/// The texts of a token sequence joined by single spaces.
pub open spec fn texts_join(ts: Seq<TokenV>) -> Seq<char>
    decreases ts,
{
    if ts.len() == 0 {
        Seq::empty()
    } else if ts.len() == 1 {
        token_text(ts[0])
    } else {
        token_text(ts[0]) + " "@ + texts_join(ts.drop_first())
    }
}

impl Token {
    /// The source position of this token.
    pub fn span(&self) -> (r: Span) {
        match self {
            Token::Ident { text, span } => *span,
            Token::Punct { text, span } => *span,
            Token::Literal { text, span } => *span,
            Token::Group { delim, toks, span } => *span,
        }
    }

    /// Render this token back to source text.
    pub fn to_text(&self) -> (r: String)
        ensures
            r@ == token_text(self@),
        decreases tok_size(self@),
    {
        match self {
            Token::Ident { text, span } => text.clone(),
            Token::Punct { text, span } => text.clone(),
            Token::Literal { text, span } => text.clone(),
            Token::Group { delim, toks, span } => {
                let open = match delim {
                    Delim::Paren => "(",
                    Delim::Brace => "{",
                    Delim::Bracket => "[",
                };
                let close = match delim {
                    Delim::Paren => ")",
                    Delim::Brace => "}",
                    Delim::Bracket => "]",
                };
                let mut out = String::from_str(open);
                let n = toks.len();
                let mut i: usize = 0;
                while i < n
                    invariant
                        n == toks.len(),
                        i <= n,
                        tok_size(self@) == 1 + toks_size(tokens_view(toks@)),
                        out@ == delim_open(*delim) + texts_join_prefix(tokens_view(toks@), i as int),
                    decreases n - i,
                {
                    proof {
                        lemma_tokens_view_index(toks@, i as int);
                        lemma_toks_size_elem(tokens_view(toks@), i as int);
                    }
                    if i > 0 {
                        out.append(" ");
                    }
                    let piece = toks[i].to_text();
                    out.append(piece.as_str());
                    proof {
                        lemma_texts_join_prefix_step(tokens_view(toks@), i as int);
                    }
                    i = i + 1;
                }
                proof {
                    lemma_tokens_view_len(toks@);
                    lemma_texts_join_prefix_all(tokens_view(toks@));
                }
                out.append(close);
                out
            },
        }
    }
}

/// The space-joined texts of the first `i` tokens of `ts`.
pub open spec fn texts_join_prefix(ts: Seq<TokenV>, i: int) -> Seq<char>
    decreases i,
{
    if i <= 0 {
        Seq::empty()
    } else if i == 1 {
        token_text(ts[0])
    } else {
        texts_join_prefix(ts, i - 1) + " "@ + token_text(ts[i - 1])
    }
}

pub proof fn lemma_texts_join_prefix_step(ts: Seq<TokenV>, i: int)
    requires
        0 <= i < ts.len(),
    ensures
        i == 0 ==> texts_join_prefix(ts, i + 1) == token_text(ts[0]),
        i > 0 ==> texts_join_prefix(ts, i + 1) == texts_join_prefix(ts, i) + " "@ + token_text(
            ts[i],
        ),
{
}

pub proof fn lemma_texts_join_prefix_all(ts: Seq<TokenV>)
    ensures
        texts_join(ts) == texts_join_prefix(ts, ts.len() as int),
    decreases ts,
{
    if ts.len() > 1 {
        lemma_texts_join_prefix_all(ts.drop_first());
        lemma_texts_join_prefix_shift(ts, ts.len() as int - 1);
        assert(texts_join(ts) == token_text(ts[0]) + " "@ + texts_join(ts.drop_first()));
    }
}

pub proof fn lemma_texts_join_prefix_shift(ts: Seq<TokenV>, i: int)
    requires
        ts.len() >= 2,
        1 <= i < ts.len(),
    ensures
        texts_join_prefix(ts, i + 1) == token_text(ts[0]) + " "@ + texts_join_prefix(
            ts.drop_first(),
            i,
        ),
    decreases i,
{
    if i == 1 {
        assert(texts_join_prefix(ts, 1) == token_text(ts[0]));
        assert(texts_join_prefix(ts, 2) == texts_join_prefix(ts, 1) + " "@ + token_text(ts[1]));
        assert(texts_join_prefix(ts.drop_first(), 1) == token_text(ts.drop_first()[0]));
        assert(ts.drop_first()[0] == ts[1]);
    } else {
        lemma_texts_join_prefix_shift(ts, i - 1);
        assert(ts.drop_first()[i - 1] == ts[i]);
        assert((token_text(ts[0]) + " "@ + texts_join_prefix(ts.drop_first(), i - 1)) + " "@
            + token_text(ts[i]) =~= token_text(ts[0]) + " "@ + (texts_join_prefix(
            ts.drop_first(),
            i - 1,
        ) + " "@ + token_text(ts[i])));
    }
}

impl Clone for Token {
    /// Deep copy; the copy has the same view as the source value.
    fn clone(&self) -> (r: Token)
        ensures
            r@ == self@,
        decreases tok_size(self@),
    {
        match self {
            Token::Ident { text, span } => Token::Ident { text: text.clone(), span: *span },
            Token::Punct { text, span } => Token::Punct { text: text.clone(), span: *span },
            Token::Literal { text, span } => Token::Literal { text: text.clone(), span: *span },
            Token::Group { delim, toks, span } => {
                let mut out: Vec<Token> = Vec::new();
                let n = toks.len();
                let mut i: usize = 0;
                while i < n
                    invariant
                        n == toks.len(),
                        i <= n,
                        out@.len() == i,
                        tok_size(self@) == 1 + toks_size(tokens_view(toks@)),
                        tokens_view(out@) == tokens_view(toks@.subrange(0, i as int)),
                    decreases n - i,
                {
                    proof {
                        lemma_tokens_view_index(toks@, i as int);
                        lemma_toks_size_elem(tokens_view(toks@), i as int);
                    }
                    let t = toks[i].clone();
                    let ghost tg = t;
                    let ghost prev = out@;
                    out.push(t);
                    proof {
                        lemma_tokens_view_push(prev, tg);
                        lemma_tokens_view_push(toks@.subrange(0, i as int), toks@[i as int]);
                        assert(toks@.subrange(0, i as int).push(toks@[i as int]) =~= toks@.subrange(
                            0,
                            i as int + 1,
                        ));
                        assert(tokens_view(out@) == tokens_view(prev).push(token_view(tg)));
                        assert(token_view(tg) == token_view(toks@[i as int]));
                    }
                    i = i + 1;
                }
                proof {
                    assert(toks@.subrange(0, n as int) =~= toks@);
                }
                Token::Group { delim: *delim, toks: out, span: *span }
            },
        }
    }
}

/// Compare two string slices character by character.
pub fn str_eq(a: &str, b: &str) -> (r: bool)
    ensures
        r == (a@ == b@),
{
    let na = a.unicode_len();
    let nb = b.unicode_len();
    if na != nb {
        proof {
            assert(a@ != b@) by {
                if a@ == b@ {
                    assert(a@.len() == b@.len());
                }
            }
        }
        return false;
    }
    let mut i: usize = 0;
    while i < na
        invariant
            na == a@.len(),
            nb == b@.len(),
            na == nb,
            i <= na,
            forall|j: int| 0 <= j < i ==> a@[j] == b@[j],
        decreases na - i,
    {
        if a.get_char(i) != b.get_char(i) {
            return false;
        }
        i = i + 1;
    }
    proof {
        assert(a@ =~= b@);
    }
    true
}

impl Token {
    /// The text of this token equals the given text.
    pub fn match_text(&self, expected: &str) -> (r: bool)
        ensures
            r == (token_text(self@) == expected@),
    {
        let own = self.to_text();
        str_eq(own.as_str(), expected)
    }

    /// Whether this token is an identifier.
    pub fn is_ident(&self) -> (r: bool)
        ensures
            r == (self@ is Ident),
    {
        match self {
            Token::Ident { text, span } => true,
            _ => false,
        }
    }
}

} // verus!
