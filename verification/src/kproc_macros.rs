//! The token cursor: a steppable, lookahead-capable view over a flat token
//! sequence, with nested-group unwrapping.  Every parser consumes one of
//! these by exclusive reference.
use vstd::prelude::*;

use crate::token::{
    lemma_tokens_view_index, lemma_tokens_view_len, lemma_tokens_view_push, token_text, token_view,
    tokens_view, Token, TokenV,
};

verus! {

/// Deep-copy a token vector; the copy has the same view.
pub fn clone_tokens(v: &Vec<Token>) -> (r: Vec<Token>)
    ensures
        r@.len() == v@.len(),
        tokens_view(r@) == tokens_view(v@),
{
    let mut out: Vec<Token> = Vec::new();
    let n = v.len();
    let mut i: usize = 0;
    while i < n
        invariant
            n == v.len(),
            i <= n,
            out@.len() == i,
            tokens_view(out@) == tokens_view(v@.subrange(0, i as int)),
        decreases n - i,
    {
        let t = v[i].clone();
        let ghost tg = t;
        let ghost prev = out@;
        out.push(t);
        proof {
            lemma_tokens_view_push(prev, tg);
            lemma_tokens_view_push(v@.subrange(0, i as int), v@[i as int]);
            assert(v@.subrange(0, i as int).push(v@[i as int]) =~= v@.subrange(0, i as int + 1));
            lemma_tokens_view_index(v@, i as int);
        }
        i = i + 1;
    }
    proof {
        assert(v@.subrange(0, n as int) =~= v@);
    }
    out
}

/// A position-tracking cursor over a token sequence.  The position only
/// ever moves forward and never runs past the end of the sequence.
#[derive(Debug)]
pub struct KTokenStream {
    pos: usize,
    kstream: Vec<Token>,
    size: usize,
}

impl KTokenStream {
    /// The model of the underlying token sequence.
    pub closed spec fn toks(&self) -> Seq<TokenV> {
        tokens_view(self.kstream@)
    }

    /// The model of the current position.
    pub closed spec fn pos(&self) -> int {
        self.pos as int
    }

    /// Well-formed: the recorded size matches the sequence and the position
    /// has not run past the end.
    pub closed spec fn wf(&self) -> bool {
        self.size == self.kstream@.len() && self.pos <= self.size
    }

    /// A well-formed cursor's position lies within its token sequence.
    pub broadcast proof fn lemma_wf_bounds(s: KTokenStream)
        requires
            #[trigger] s.wf(),
        ensures
            0 <= s.pos() <= s.toks().len(),
    {
        lemma_tokens_view_len(s.kstream@);
    }

    /// Create a cursor at position zero over a copy of the given tokens.
    pub fn new(tokens: &Vec<Token>) -> (r: KTokenStream)
        ensures
            r.wf(),
            r.pos() == 0,
            r.toks() == tokens_view(tokens@),
            r.toks().len() == tokens@.len(),
    {
        KTokenStream::new_with_pos(tokens, 0)
    }

    /// Create a cursor at the given position over a copy of the given tokens.
    pub fn new_with_pos(tokens: &Vec<Token>, pos: usize) -> (r: KTokenStream)
        requires
            pos <= tokens@.len(),
        ensures
            r.wf(),
            r.pos() == pos,
            r.toks() == tokens_view(tokens@),
            r.toks().len() == tokens@.len(),
    {
        let kstream = clone_tokens(tokens);
        let size = kstream.len();
        proof {
            lemma_tokens_view_len(kstream@);
        }
        KTokenStream { pos, kstream, size }
    }

    /// Return the token at the current position and step past it; at the
    /// end of the stream, return the last token without moving.
    pub fn advance(&mut self) -> (r: Token)
        requires
            old(self).wf(),
            old(self).toks().len() > 0,
        ensures
            final(self).wf(),
            final(self).toks() == old(self).toks(),
            old(self).pos() < old(self).toks().len() ==> {
                &&& final(self).pos() == old(self).pos() + 1
                &&& r@ == old(self).toks()[old(self).pos()]
            },
            old(self).pos() >= old(self).toks().len() ==> {
                &&& final(self).pos() == old(self).pos()
                &&& r@ == old(self).toks()[old(self).toks().len() - 1]
            },
    {
        proof {
            lemma_tokens_view_len(self.kstream@);
        }
        if self.pos >= self.size {
            proof {
                lemma_tokens_view_index(self.kstream@, self.kstream@.len() - 1);
            }
            self.kstream[self.size - 1].clone()
        } else {
            proof {
                lemma_tokens_view_index(self.kstream@, self.pos as int);
            }
            let t = self.kstream[self.pos].clone();
            self.pos = self.pos + 1;
            t
        }
    }

    /// Look `step` tokens ahead of the current position.
    pub fn lookup(&self, step: usize) -> (r: &Token)
        requires
            self.wf(),
            self.pos() + step < self.toks().len(),
        ensures
            r@ == self.toks()[self.pos() + step],
    {
        proof {
            lemma_tokens_view_len(self.kstream@);
            lemma_tokens_view_index(self.kstream@, self.pos + step);
        }
        &self.kstream[self.pos + step]
    }

    /// Whether a token exists `step` positions ahead.
    pub fn has(&self, step: usize) -> (r: bool)
        requires
            self.wf(),
        ensures
            r == (self.pos() + step < self.toks().len()),
    {
        proof {
            lemma_tokens_view_len(self.kstream@);
        }
        self.size - self.pos > step
    }

    /// Step over the current token.
    pub fn next(&mut self)
        requires
            old(self).wf(),
            old(self).pos() < old(self).toks().len(),
        ensures
            final(self).wf(),
            final(self).toks() == old(self).toks(),
            final(self).pos() == old(self).pos() + 1,
    {
        proof {
            lemma_tokens_view_len(self.kstream@);
        }
        self.pos = self.pos + 1;
    }

    /// The token just before the current position.
    pub fn prev(&self) -> (r: &Token)
        requires
            self.wf(),
            1 <= self.pos() < self.toks().len(),
        ensures
            r@ == self.toks()[self.pos() - 1],
    {
        proof {
            lemma_tokens_view_len(self.kstream@);
            lemma_tokens_view_index(self.kstream@, self.pos - 1);
        }
        &self.kstream[self.pos - 1]
    }

    /// The token at the current position.
    pub fn peek(&self) -> (r: &Token)
        requires
            self.wf(),
            self.pos() < self.toks().len(),
        ensures
            r@ == self.toks()[self.pos()],
    {
        proof {
            lemma_tokens_view_len(self.kstream@);
            lemma_tokens_view_index(self.kstream@, self.pos as int);
        }
        &self.kstream[self.pos]
    }

    /// The last token of the stream.
    pub fn last(&self) -> (r: &Token)
        requires
            self.toks().len() > 0,
        ensures
            r@ == self.toks()[self.toks().len() - 1],
    {
        proof {
            lemma_tokens_view_len(self.kstream@);
            lemma_tokens_view_index(self.kstream@, self.kstream@.len() - 1);
        }
        &self.kstream[self.kstream.len() - 1]
    }

    /// Whether the current token's text equals the given text.
    pub fn match_tok(&self, tok: &str) -> (r: bool)
        requires
            self.wf(),
            self.pos() < self.toks().len(),
        ensures
            r == (token_text(self.toks()[self.pos()]) == tok@),
    {
        self.peek().match_text(tok)
    }

    /// Whether the position has reached the end of the stream.
    pub fn is_end(&self) -> (r: bool)
        requires
            self.wf(),
        ensures
            r == (self.pos() >= self.toks().len()),
    {
        proof {
            lemma_tokens_view_len(self.kstream@);
        }
        self.pos >= self.size
    }

    /// Unwrap the group at the current position into an independent cursor
    /// over its contents, positioned at zero.
    pub fn to_ktoken_stream(&self) -> (r: KTokenStream)
        requires
            self.wf(),
            self.pos() < self.toks().len(),
            self.toks()[self.pos()] is Group,
        ensures
            r.wf(),
            r.pos() == 0,
            r.toks() == self.toks()[self.pos()]->Group_1,
    {
        proof {
            lemma_tokens_view_len(self.kstream@);
            lemma_tokens_view_index(self.kstream@, self.pos as int);
        }
        match self.peek() {
            Token::Group { delim, toks, span } => KTokenStream::new(toks),
            _ => {
                proof {
                    assert(false);
                }
                KTokenStream { pos: 0, kstream: Vec::new(), size: 0 }
            },
        }
    }

    /// Unwrap the group at the current position if there is one.
    pub fn opt_ktoken_stream(&self) -> (r: Option<KTokenStream>)
        requires
            self.wf(),
            self.pos() < self.toks().len(),
        ensures
            match r {
                Some(s) => {
                    &&& self.toks()[self.pos()] is Group
                    &&& s.wf()
                    &&& s.pos() == 0
                    &&& s.toks() == self.toks()[self.pos()]->Group_1
                },
                None => !(self.toks()[self.pos()] is Group),
            },
    {
        if self.is_group() {
            Some(self.to_ktoken_stream())
        } else {
            None
        }
    }

    /// The group token at the current position, copied.
    pub fn unwrap_group(&self) -> (r: Token)
        requires
            self.wf(),
            self.pos() < self.toks().len(),
            self.toks()[self.pos()] is Group,
        ensures
            r@ == self.toks()[self.pos()],
    {
        proof {
            lemma_tokens_view_len(self.kstream@);
            lemma_tokens_view_index(self.kstream@, self.pos as int);
        }
        self.kstream[self.pos].clone()
    }

    /// The contents of the group at the current position, copied.
    pub fn unwrap_group_as_stream(&self) -> (r: Vec<Token>)
        requires
            self.wf(),
            self.pos() < self.toks().len(),
            self.toks()[self.pos()] is Group,
        ensures
            tokens_view(r@) == self.toks()[self.pos()]->Group_1,
            r@.len() == self.toks()[self.pos()]->Group_1.len(),
    {
        proof {
            lemma_tokens_view_len(self.kstream@);
            lemma_tokens_view_index(self.kstream@, self.pos as int);
        }
        match self.peek() {
            Token::Group { delim, toks, span } => {
                let r = clone_tokens(toks);
                proof {
                    lemma_tokens_view_len(r@);
                }
                r
            },
            _ => {
                proof {
                    assert(false);
                }
                Vec::new()
            },
        }
    }

    /// Whether the current token is a group.
    pub fn is_group(&self) -> (r: bool)
        requires
            self.wf(),
            self.pos() < self.toks().len(),
        ensures
            r == (self.toks()[self.pos()] is Group),
    {
        match self.peek() {
            Token::Group { delim, toks, span } => true,
            _ => false,
        }
    }

    /// Step over the current token when it is a bare `{` or `}`.
    pub fn consume_brace(&mut self)
        requires
            old(self).wf(),
            old(self).pos() < old(self).toks().len(),
        ensures
            final(self).wf(),
            final(self).toks() == old(self).toks(),
            (token_text(old(self).toks()[old(self).pos()]) == "{"@ || token_text(
                old(self).toks()[old(self).pos()],
            ) == "}"@) ==> final(self).pos() == old(self).pos() + 1,
            !(token_text(old(self).toks()[old(self).pos()]) == "{"@ || token_text(
                old(self).toks()[old(self).pos()],
            ) == "}"@) ==> final(self).pos() == old(self).pos(),
    {
        if self.match_tok("{") || self.match_tok("}") {
            let _ = self.advance();
        }
    }
}

/// Matching a token against an expected text, and unwrapping it as a token
/// stream.
pub trait MatchTok {
    fn match_tok(&self, tok: &str) -> bool;

    fn to_token_stream(&self) -> KTokenStream;
}

impl MatchTok for Token {
    fn match_tok(&self, tok: &str) -> bool {
        self.match_text(tok)
    }

    /// A non-group token yields an empty stream.
    fn to_token_stream(&self) -> KTokenStream {
        match self {
            Token::Group { delim, toks, span } => KTokenStream::new(toks),
            _ => {
                let empty: Vec<Token> = Vec::new();
                KTokenStream::new(&empty)
            },
        }
    }
}

/// A token paired with an ordering index.
#[derive(Debug)]
pub struct OrderedTokenTree {
    idx: u64,
    token: Token,
}

impl OrderedTokenTree {
    pub closed spec fn spec_idx(&self) -> u64 {
        self.idx
    }

    pub closed spec fn spec_token(&self) -> TokenV {
        self.token@
    }

    pub fn new(idx: u64, token: Token) -> (r: OrderedTokenTree)
        ensures
            r.spec_idx() == idx,
            r.spec_token() == token@,
    {
        OrderedTokenTree { idx, token }
    }

    pub fn token(&self) -> (r: Token)
        ensures
            r@ == self.spec_token(),
    {
        self.token.clone()
    }

    pub fn idx(&mut self, idx: u64)
        ensures
            final(self).spec_idx() == idx,
            final(self).spec_token() == old(self).spec_token(),
    {
        self.idx = idx;
    }
}

impl PartialEq for OrderedTokenTree {
    /// Ordered token trees compare by index alone.
    fn eq(&self, other: &Self) -> (r: bool) {
        self.idx == other.idx
    }
}

impl vstd::std_specs::cmp::PartialEqSpecImpl for OrderedTokenTree {
    open spec fn obeys_eq_spec() -> bool {
        true
    }

    open spec fn eq_spec(&self, other: &Self) -> bool {
        self.spec_idx() == other.spec_idx()
    }
}

impl Eq for OrderedTokenTree {

}

impl PartialOrd for OrderedTokenTree {
    /// Ordered token trees order by index alone.
    fn partial_cmp(&self, other: &Self) -> (r: Option<core::cmp::Ordering>) {
        self.idx.partial_cmp(&other.idx)
    }
}

impl vstd::std_specs::cmp::PartialOrdSpecImpl for OrderedTokenTree {
    open spec fn obeys_partial_cmp_spec() -> bool {
        true
    }

    open spec fn partial_cmp_spec(&self, other: &Self) -> Option<core::cmp::Ordering> {
        if self.spec_idx() < other.spec_idx() {
            Some(core::cmp::Ordering::Less)
        } else if self.spec_idx() == other.spec_idx() {
            Some(core::cmp::Ordering::Equal)
        } else {
            Some(core::cmp::Ordering::Greater)
        }
    }
}

} // verus!
