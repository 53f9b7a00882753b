//! The typed syntax-tree nodes that the parsers build: declarations,
//! fields, type expressions, generic parameters, bounds and attributes.
//! Each node type has a mathematical view that drops source positions.
use vstd::prelude::*;

use crate::token::{token_view, tokens_view, Token, TokenV};

verus! {

/// An ordered key/value map for attributes.  Insertion appends; lookup
/// returns the most recently inserted value for a key, so on duplicate
/// keys the last write wins.
#[derive(Debug, PartialEq, Eq)]
pub struct KMap<V> {
    entries: Vec<(String, V)>,
}

/// Lookup in an entry sequence: the most recent entry for the key.
pub open spec fn kmap_get<VV>(s: Seq<(Seq<char>, VV)>, key: Seq<char>) -> Option<VV>
    decreases s,
{
    if s.len() == 0 {
        None
    } else if s.last().0 == key {
        Some(s.last().1)
    } else {
        kmap_get(s.drop_last(), key)
    }
}

impl<V: View> KMap<V> {
    /// The model: the entries in insertion order, keys as text.
    pub closed spec fn entries_view(&self) -> Seq<(Seq<char>, V::V)> {
        Seq::new(self.entries@.len(), |i: int| (self.entries@[i].0@, self.entries@[i].1@))
    }

    /// An empty map.
    pub fn new() -> (r: KMap<V>)
        ensures
            r.entries_view() =~= Seq::<(Seq<char>, V::V)>::empty(),
    {
        KMap { entries: Vec::new() }
    }

    /// Append an entry; a later entry for the same key wins on lookup.
    pub fn insert(&mut self, key: String, value: V)
        ensures
            final(self).entries_view() =~= old(self).entries_view().push((key@, value@)),
    {
        self.entries.push((key, value));
    }

    /// Append every entry of `other`, after the entries already present.
    pub fn extend(&mut self, other: KMap<V>)
        ensures
            final(self).entries_view() =~= old(self).entries_view() + other.entries_view(),
    {
        let mut o = other;
        self.entries.append(&mut o.entries);
    }

    /// The number of entries.
    pub fn len(&self) -> (r: usize)
        ensures
            r == self.entries_view().len(),
    {
        self.entries.len()
    }

    /// Whether the map holds no entry.
    pub fn is_empty(&self) -> (r: bool)
        ensures
            r == (self.entries_view().len() == 0),
    {
        self.entries.len() == 0
    }

    /// The most recently inserted value for the key, if any.
    pub fn get(&self, key: &str) -> (r: Option<&V>)
        ensures
            match r {
                Some(v) => kmap_get(self.entries_view(), key@) == Some(v@),
                None => kmap_get(self.entries_view(), key@) is None,
            },
    {
        let n = self.entries.len();
        proof {
            assert(self.entries_view().subrange(0, n as int) =~= self.entries_view());
        }
        let mut i: usize = n;
        while i > 0
            invariant
                n == self.entries@.len(),
                i <= n,
                kmap_get(self.entries_view(), key@) == kmap_get(
                    self.entries_view().subrange(0, i as int),
                    key@,
                ),
            decreases i,
        {
            i = i - 1;
            proof {
                assert(self.entries_view().subrange(0, i as int + 1).len() == i + 1);
                assert(self.entries_view().subrange(0, i as int + 1).last() == (
                    self.entries@[i as int].0@,
                    self.entries@[i as int].1@,
                ));
            }
            if crate::token::str_eq(self.entries[i].0.as_str(), key) {
                return Some(&self.entries[i].1);
            }
            proof {
                let s = self.entries_view().subrange(0, i as int + 1);
                assert(s.len() == i + 1 > 0);
                assert(s.last().0 != key@);
                assert(s.drop_last() =~= self.entries_view().subrange(0, i as int));
            }
        }
        proof {
            assert(self.entries_view().subrange(0, 0) =~= Seq::<(Seq<char>, V::V)>::empty());
        }
        None
    }

    /// The entry at the given insertion position.
    pub fn entry_at(&self, i: usize) -> (r: &(String, V))
        requires
            i < self.entries_view().len(),
        ensures
            (r.0@, r.1@) == self.entries_view()[i as int],
    {
        &self.entries[i]
    }

    /// Whether the map holds an entry for the key.
    pub fn contains_key(&self, key: &str) -> (r: bool)
        ensures
            r == (kmap_get(self.entries_view(), key@) is Some),
    {
        match self.get(key) {
            Some(v) => true,
            None => false,
        }
    }
}

impl<V: View> View for KMap<V> {
    type V = Seq<(Seq<char>, V::V)>;

    open spec fn view(&self) -> Seq<(Seq<char>, V::V)> {
        self.entries_view()
    }
}

/// The kind of a type expression, as classified by the host language's
/// grammar.
#[derive(Clone, Copy, Debug, PartialEq, Eq, Structural)]
pub enum TyKind {
    ImplTrait,
    Parenthesized,
    TraitObject,
    TypePath,
    TupleType,
    NeverType,
    RawPointerType,
    ReferenceType,
    ArrayType,
    SliceType,
    InferredType,
    QualifiedPathInType,
    BareFunctionType,
    MacroInvocation,
}

/// A lifetime parameter, such as `'a`, with the bounds attached to it.
#[derive(Debug, PartialEq, Eq)]
pub struct LifetimeParam {
    pub lifetime_or_label: Token,
    pub bounds: Vec<Bound>,
}

/// A type parameter or trait name with the bounds attached to it.
#[derive(Debug, PartialEq, Eq)]
pub struct TypeParam {
    pub identifier: Token,
    pub bounds: Vec<Bound>,
}

/// A bound attached to a generic parameter: a lifetime or a trait name.
#[derive(Debug, PartialEq, Eq)]
pub enum Bound {
    Lifetime(LifetimeParam),
    Trait(TypeParam),
}

/// A type expression: optional reference, mutability, lifetime and `dyn`
/// markers, a base identifier, and optional recursive generic arguments.
#[derive(Debug, PartialEq, Eq)]
pub struct TyToken {
    pub kind: TyKind,
    pub ref_tok: Option<Token>,
    pub mut_tok: Option<Token>,
    pub identifier: Token,
    pub dyn_tok: Option<Token>,
    pub lifetime: Option<LifetimeParam>,
    pub generics: Option<Vec<TyToken>>,
    pub bounds: Vec<Bound>,
}

/// One parameter of a generics clause.
#[derive(Debug, PartialEq, Eq)]
pub enum GenericParam {
    LifetimeParam(LifetimeParam),
    TypeParam(TyToken),
    Bounds(Bound),
}

/// The `<...>` clause of a declaration.
#[derive(Debug, PartialEq, Eq)]
pub struct GenericParams {
    pub params: Vec<GenericParam>,
}

/// View of [`LifetimeParam`].
pub struct LifetimeParamV {
    pub lifetime_or_label: TokenV,
    pub bounds: Seq<BoundV>,
}

/// View of [`TypeParam`].
pub struct TypeParamV {
    pub identifier: TokenV,
    pub bounds: Seq<BoundV>,
}

/// View of [`Bound`].
pub enum BoundV {
    Lifetime(LifetimeParamV),
    Trait(TypeParamV),
}

/// View of [`TyToken`].
pub struct TyTokenV {
    pub kind: TyKind,
    pub ref_tok: Option<TokenV>,
    pub mut_tok: Option<TokenV>,
    pub identifier: TokenV,
    pub dyn_tok: Option<TokenV>,
    pub lifetime: Option<LifetimeParamV>,
    pub generics: Option<Seq<TyTokenV>>,
    pub bounds: Seq<BoundV>,
}

/// View of [`GenericParam`].
pub enum GenericParamV {
    LifetimeParam(LifetimeParamV),
    TypeParam(TyTokenV),
    Bounds(BoundV),
}

/// View of [`GenericParams`].
pub struct GenericParamsV {
    pub params: Seq<GenericParamV>,
}

pub open spec fn opt_token_view(t: Option<Token>) -> Option<TokenV> {
    match t {
        Some(tok) => Some(token_view(tok)),
        None => None,
    }
}

pub open spec fn bound_view(b: Bound) -> BoundV
    decreases b,
{
    match b {
        Bound::Lifetime(l) => BoundV::Lifetime(lifetime_param_view(l)),
        Bound::Trait(t) => BoundV::Trait(type_param_view(t)),
    }
}

pub open spec fn lifetime_param_view(l: LifetimeParam) -> LifetimeParamV
    decreases l,
{
    LifetimeParamV {
        lifetime_or_label: token_view(l.lifetime_or_label),
        bounds: bound_seq_view(l.bounds@),
    }
}

pub open spec fn type_param_view(t: TypeParam) -> TypeParamV
    decreases t,
{
    TypeParamV { identifier: token_view(t.identifier), bounds: bound_seq_view(t.bounds@) }
}

pub open spec fn bound_seq_view(s: Seq<Bound>) -> Seq<BoundV>
    decreases s,
{
    if s.len() == 0 {
        Seq::empty()
    } else {
        seq![bound_view(s[0])] + bound_seq_view(s.drop_first())
    }
}

pub open spec fn ty_view(t: TyToken) -> TyTokenV
    decreases t,
{
    TyTokenV {
        kind: t.kind,
        ref_tok: opt_token_view(t.ref_tok),
        mut_tok: opt_token_view(t.mut_tok),
        identifier: token_view(t.identifier),
        dyn_tok: opt_token_view(t.dyn_tok),
        lifetime: match t.lifetime {
            Some(l) => Some(lifetime_param_view(l)),
            None => None,
        },
        generics: match t.generics {
            Some(g) => Some(ty_seq_view(g@)),
            None => None,
        },
        bounds: bound_seq_view(t.bounds@),
    }
}

pub open spec fn ty_seq_view(s: Seq<TyToken>) -> Seq<TyTokenV>
    decreases s,
{
    if s.len() == 0 {
        Seq::empty()
    } else {
        seq![ty_view(s[0])] + ty_seq_view(s.drop_first())
    }
}

pub open spec fn generic_param_view(p: GenericParam) -> GenericParamV
    decreases p,
{
    match p {
        GenericParam::LifetimeParam(l) => GenericParamV::LifetimeParam(lifetime_param_view(l)),
        GenericParam::TypeParam(t) => GenericParamV::TypeParam(ty_view(t)),
        GenericParam::Bounds(b) => GenericParamV::Bounds(bound_view(b)),
    }
}

pub open spec fn generic_param_seq_view(s: Seq<GenericParam>) -> Seq<GenericParamV> {
    Seq::new(s.len(), |i: int| generic_param_view(s[i]))
}

pub open spec fn generic_params_view(g: GenericParams) -> GenericParamsV {
    GenericParamsV { params: generic_param_seq_view(g.params@) }
}

pub open spec fn opt_generics_view(g: Option<GenericParams>) -> Option<GenericParamsV> {
    match g {
        Some(g) => Some(generic_params_view(g)),
        None => None,
    }
}

impl View for LifetimeParam {
    type V = LifetimeParamV;

    open spec fn view(&self) -> LifetimeParamV {
        lifetime_param_view(*self)
    }
}

impl View for TypeParam {
    type V = TypeParamV;

    open spec fn view(&self) -> TypeParamV {
        type_param_view(*self)
    }
}

impl View for Bound {
    type V = BoundV;

    open spec fn view(&self) -> BoundV {
        bound_view(*self)
    }
}

impl View for TyToken {
    type V = TyTokenV;

    open spec fn view(&self) -> TyTokenV {
        ty_view(*self)
    }
}

impl View for GenericParam {
    type V = GenericParamV;

    open spec fn view(&self) -> GenericParamV {
        generic_param_view(*self)
    }
}

impl View for GenericParams {
    type V = GenericParamsV;

    open spec fn view(&self) -> GenericParamsV {
        generic_params_view(*self)
    }
}

pub broadcast proof fn lemma_bound_seq_view_push(s: Seq<Bound>, b: Bound)
    ensures
        #[trigger] bound_seq_view(s.push(b)) == bound_seq_view(s).push(bound_view(b)),
    decreases s,
{
    if s.len() == 0 {
        assert(s.push(b).drop_first() =~= Seq::<Bound>::empty());
        assert(bound_seq_view(s.push(b)) == seq![bound_view(b)] + bound_seq_view(Seq::empty()));
        assert(bound_seq_view(s.push(b)) =~= bound_seq_view(s).push(bound_view(b)));
    } else {
        lemma_bound_seq_view_push(s.drop_first(), b);
        assert(s.push(b).drop_first() =~= s.drop_first().push(b));
        assert(s.push(b)[0] == s[0]);
        assert(bound_seq_view(s.push(b)) == seq![bound_view(s[0])] + bound_seq_view(
            s.drop_first().push(b),
        ));
        assert((seq![bound_view(s[0])] + bound_seq_view(s.drop_first())).push(bound_view(b)) =~= seq![
            bound_view(s[0]),
        ] + bound_seq_view(s.drop_first()).push(bound_view(b)));
    }
}


pub broadcast proof fn lemma_ty_seq_view_len(s: Seq<TyToken>)
    ensures
        #[trigger] ty_seq_view(s).len() == s.len(),
    decreases s,
{
    if s.len() > 0 {
        lemma_ty_seq_view_len(s.drop_first());
    }
}


/// Attaching a bound to the parameter a bound names.
pub open spec fn spec_bound_add(b0: BoundV, b: BoundV) -> BoundV {
    match b0 {
        BoundV::Trait(t) => BoundV::Trait(TypeParamV { bounds: t.bounds.push(b), ..t }),
        BoundV::Lifetime(l) => BoundV::Lifetime(LifetimeParamV { bounds: l.bounds.push(b), ..l }),
    }
}

/// Attaching a bound to whichever generic-parameter variant is open.
pub open spec fn spec_gparam_add(g: GenericParamV, b: BoundV) -> GenericParamV {
    match g {
        GenericParamV::TypeParam(t) => GenericParamV::TypeParam(
            TyTokenV { bounds: t.bounds.push(b), ..t },
        ),
        GenericParamV::LifetimeParam(l) => GenericParamV::LifetimeParam(
            LifetimeParamV { bounds: l.bounds.push(b), ..l },
        ),
        GenericParamV::Bounds(b0) => GenericParamV::Bounds(spec_bound_add(b0, b)),
    }
}


pub broadcast proof fn lemma_ty_seq_view_index(s: Seq<TyToken>, i: int)
    requires
        0 <= i < s.len(),
    ensures
        ty_seq_view(s).len() == s.len(),
        #[trigger] ty_seq_view(s)[i] == ty_view(s[i]),
    decreases s,
{
    lemma_ty_seq_view_len(s);
    if i > 0 {
        lemma_ty_seq_view_index(s.drop_first(), i - 1);
    }
}

impl GenericParam {
    /// Attach one more bound to whichever parameter variant this is.
    pub fn add_bound(&mut self, bound: Bound)
        ensures
            final(self)@ == spec_gparam_add(old(self)@, bound@),
    {
        proof {
            let ghost bg = bound;
        }
        match self {
            GenericParam::TypeParam(param) => {
                let ghost prev = param.bounds@;
                param.bounds.push(bound);
                proof {
                    lemma_bound_seq_view_push(prev, param.bounds@.last());
                }
            },
            GenericParam::LifetimeParam(param) => {
                let ghost prev = param.bounds@;
                param.bounds.push(bound);
                proof {
                    lemma_bound_seq_view_push(prev, param.bounds@.last());
                }
            },
            GenericParam::Bounds(params) => {
                params.add_bound(bound);
            },
        }
    }
}

impl Bound {
    /// Attach one more bound to the parameter this bound names.
    pub fn add_bound(&mut self, bound: Bound)
        ensures
            final(self)@ == spec_bound_add(old(self)@, bound@),
    {
        match self {
            Bound::Trait(param) => {
                let ghost prev = param.bounds@;
                param.bounds.push(bound);
                proof {
                    lemma_bound_seq_view_push(prev, param.bounds@.last());
                }
            },
            Bound::Lifetime(param) => {
                let ghost prev = param.bounds@;
                param.bounds.push(bound);
                proof {
                    lemma_bound_seq_view_push(prev, param.bounds@.last());
                }
            },
        }
    }
}


/// The simplest attribute form: a name with an optional `=` value.
#[derive(Debug, PartialEq, Eq)]
pub struct AttributeToken {
    pub name: Token,
    pub value: Option<Token>,
}

/// A conditional attribute: a name whose value is a nested attribute.
#[derive(Debug, PartialEq, Eq)]
pub struct CondAttributeToken {
    pub name: Token,
    pub value: AttributeToken,
}

/// An attribute attached to a declaration or field.
#[derive(Debug, PartialEq, Eq)]
pub enum AttrToken {
    Attr(AttributeToken),
    CondAttr(CondAttributeToken),
}

/// View of [`AttributeToken`].
pub struct AttributeTokenV {
    pub name: TokenV,
    pub value: Option<TokenV>,
}

/// View of [`CondAttributeToken`].
pub struct CondAttributeTokenV {
    pub name: TokenV,
    pub value: AttributeTokenV,
}

/// View of [`AttrToken`].
pub enum AttrTokenV {
    Attr(AttributeTokenV),
    CondAttr(CondAttributeTokenV),
}

pub open spec fn attribute_token_view(a: AttributeToken) -> AttributeTokenV {
    AttributeTokenV { name: token_view(a.name), value: opt_token_view(a.value) }
}

pub open spec fn attr_token_view(a: AttrToken) -> AttrTokenV {
    match a {
        AttrToken::Attr(t) => AttrTokenV::Attr(attribute_token_view(t)),
        AttrToken::CondAttr(c) => AttrTokenV::CondAttr(
            CondAttributeTokenV { name: token_view(c.name), value: attribute_token_view(c.value) },
        ),
    }
}

impl View for AttributeToken {
    type V = AttributeTokenV;

    open spec fn view(&self) -> AttributeTokenV {
        attribute_token_view(*self)
    }
}

impl View for CondAttributeToken {
    type V = CondAttributeTokenV;

    open spec fn view(&self) -> CondAttributeTokenV {
        CondAttributeTokenV { name: token_view(self.name), value: attribute_token_view(self.value) }
    }
}

impl View for AttrToken {
    type V = AttrTokenV;

    open spec fn view(&self) -> AttrTokenV {
        attr_token_view(*self)
    }
}

/// The name text of an attribute view.
pub open spec fn attr_name_text(a: AttrTokenV) -> Seq<char> {
    match a {
        AttrTokenV::Attr(t) => crate::token::token_text(t.name),
        AttrTokenV::CondAttr(c) => crate::token::token_text(c.name),
    }
}

impl AttrToken {
    /// The name of this attribute, as text.
    pub fn name(&self) -> (r: String)
        ensures
            r@ == attr_name_text(self@),
    {
        match self {
            AttrToken::Attr(tok) => tok.name.to_text(),
            AttrToken::CondAttr(tok) => tok.name.to_text(),
        }
    }

    /// The plain attribute carried by this entry: itself, or the value of a
    /// conditional attribute.
    pub fn attribute(&self) -> (r: AttributeToken)
        ensures
            r@ == match self@ {
                AttrTokenV::Attr(a) => a,
                AttrTokenV::CondAttr(c) => c.value,
            },
    {
        let inner = match self {
            AttrToken::Attr(attr) => attr,
            AttrToken::CondAttr(attr) => &attr.value,
        };
        AttributeToken {
            name: inner.name.clone(),
            value: match &inner.value {
                Some(v) => Some(v.clone()),
                None => None,
            },
        }
    }

    /// Whether this entry is a conditional attribute.
    pub fn is_conditional(&self) -> (r: bool)
        ensures
            r == (self@ is CondAttr),
    {
        match self {
            AttrToken::Attr(a) => false,
            AttrToken::CondAttr(c) => true,
        }
    }
}

/// A parsed attribute in the richer form: a path, an identifier, and an
/// optional nested value.
#[derive(Debug, PartialEq, Eq)]
pub struct Attr {
    pub path: Vec<Token>,
    pub identifier: Token,
    pub value: Option<Box<Attr>>,
    pub raw_attr: Token,
}

/// An attribute classified as inner (`#![...]`, targeting the enclosing
/// item) or outer (`#[...]`, targeting the next item).
#[derive(Debug, PartialEq, Eq)]
pub enum AttributeV2Token {
    InnerAttribute(Attr),
    OuterAttribute(Attr),
}

/// View of [`Attr`].  The nested value is an empty or singleton sequence,
/// standing for an optional nested attribute.
pub struct AttrV {
    pub path: Seq<TokenV>,
    pub identifier: TokenV,
    pub value: Seq<AttrV>,
    pub raw_attr: TokenV,
}

/// View of [`AttributeV2Token`].
pub enum AttributeV2TokenV {
    InnerAttribute(AttrV),
    OuterAttribute(AttrV),
}

pub open spec fn attr_v2_view(a: Attr) -> AttrV
    decreases a,
{
    AttrV {
        path: tokens_view(a.path@),
        identifier: token_view(a.identifier),
        value: match a.value {
            Some(b) => seq![attr_v2_view(*b)],
            None => Seq::empty(),
        },
        raw_attr: token_view(a.raw_attr),
    }
}

impl View for Attr {
    type V = AttrV;

    open spec fn view(&self) -> AttrV {
        attr_v2_view(*self)
    }
}

impl View for AttributeV2Token {
    type V = AttributeV2TokenV;

    open spec fn view(&self) -> AttributeV2TokenV {
        match *self {
            AttributeV2Token::InnerAttribute(a) => AttributeV2TokenV::InnerAttribute(
                attr_v2_view(a),
            ),
            AttributeV2Token::OuterAttribute(a) => AttributeV2TokenV::OuterAttribute(
                attr_v2_view(a),
            ),
        }
    }
}

/// One field of a struct declaration.
#[derive(Debug, PartialEq, Eq)]
pub struct FieldToken {
    pub attrs: KMap<AttrToken>,
    pub visibility: Option<Token>,
    pub identifier: Token,
    pub ty: TyToken,
}

/// View of [`FieldToken`].
pub struct FieldTokenV {
    pub attrs: Seq<(Seq<char>, AttrTokenV)>,
    pub visibility: Option<TokenV>,
    pub identifier: TokenV,
    pub ty: TyTokenV,
}

pub open spec fn field_view(f: FieldToken) -> FieldTokenV {
    FieldTokenV {
        attrs: f.attrs.entries_view(),
        visibility: opt_token_view(f.visibility),
        identifier: token_view(f.identifier),
        ty: ty_view(f.ty),
    }
}

pub open spec fn field_seq_view(s: Seq<FieldToken>) -> Seq<FieldTokenV> {
    Seq::new(s.len(), |i: int| field_view(s[i]))
}

impl View for FieldToken {
    type V = FieldTokenV;

    open spec fn view(&self) -> FieldTokenV {
        field_view(*self)
    }
}

/// A struct declaration.
#[derive(Debug, PartialEq, Eq)]
pub struct StructToken {
    pub attrs: KMap<AttrToken>,
    pub visibility: Option<Token>,
    pub name: Token,
    pub fields: Vec<FieldToken>,
    pub generics: Option<GenericParams>,
}

/// View of [`StructToken`].
pub struct StructTokenV {
    pub attrs: Seq<(Seq<char>, AttrTokenV)>,
    pub visibility: Option<TokenV>,
    pub name: TokenV,
    pub fields: Seq<FieldTokenV>,
    pub generics: Option<GenericParamsV>,
}

pub open spec fn struct_view(s: StructToken) -> StructTokenV {
    StructTokenV {
        attrs: s.attrs.entries_view(),
        visibility: opt_token_view(s.visibility),
        name: token_view(s.name),
        fields: field_seq_view(s.fields@),
        generics: opt_generics_view(s.generics),
    }
}

impl View for StructToken {
    type V = StructTokenV;

    open spec fn view(&self) -> StructTokenV {
        struct_view(*self)
    }
}

/// A function or method declaration.
#[derive(Debug, PartialEq, Eq)]
pub struct MethodDeclToken {
    pub attrs: KMap<AttrToken>,
    pub visibility: Option<Token>,
    pub qualifier: Option<Token>,
    pub ident: Token,
    pub generics: Option<GenericParams>,
    pub raw_params: Vec<Token>,
    pub params: Vec<(Token, TyToken)>,
    pub return_ty: Option<TyToken>,
    pub raw_body: Option<Vec<Token>>,
}

/// From the parser's point of view an associated function only lacks the
/// receiver parameter, so it shares the method representation.
pub type FnDeclTok = MethodDeclToken;

/// View of [`MethodDeclToken`].
pub struct MethodDeclTokenV {
    pub attrs: Seq<(Seq<char>, AttrTokenV)>,
    pub visibility: Option<TokenV>,
    pub qualifier: Option<TokenV>,
    pub ident: TokenV,
    pub generics: Option<GenericParamsV>,
    pub raw_params: Seq<TokenV>,
    pub params: Seq<(TokenV, TyTokenV)>,
    pub return_ty: Option<TyTokenV>,
    pub raw_body: Option<Seq<TokenV>>,
}

pub open spec fn opt_ty_view(t: Option<TyToken>) -> Option<TyTokenV> {
    match t {
        Some(ty) => Some(ty_view(ty)),
        None => None,
    }
}

pub open spec fn param_seq_view(s: Seq<(Token, TyToken)>) -> Seq<(TokenV, TyTokenV)> {
    Seq::new(s.len(), |i: int| (token_view(s[i].0), ty_view(s[i].1)))
}

pub open spec fn method_view(m: MethodDeclToken) -> MethodDeclTokenV {
    MethodDeclTokenV {
        attrs: m.attrs.entries_view(),
        visibility: opt_token_view(m.visibility),
        qualifier: opt_token_view(m.qualifier),
        ident: token_view(m.ident),
        generics: opt_generics_view(m.generics),
        raw_params: tokens_view(m.raw_params@),
        params: param_seq_view(m.params@),
        return_ty: opt_ty_view(m.return_ty),
        raw_body: match m.raw_body {
            Some(b) => Some(tokens_view(b@)),
            None => None,
        },
    }
}

pub open spec fn method_seq_view(s: Seq<MethodDeclToken>) -> Seq<MethodDeclTokenV> {
    Seq::new(s.len(), |i: int| method_view(s[i]))
}

impl View for MethodDeclToken {
    type V = MethodDeclTokenV;

    open spec fn view(&self) -> MethodDeclTokenV {
        method_view(*self)
    }
}

/// An associated item of a trait body.
#[derive(Debug, PartialEq, Eq)]
pub enum AssociatedItem {
    AssociatedFn(FnDeclTok),
    AssociatedMethod(MethodDeclToken),
}

/// View of [`AssociatedItem`].
pub enum AssociatedItemV {
    AssociatedFn(MethodDeclTokenV),
    AssociatedMethod(MethodDeclTokenV),
}

pub open spec fn assoc_view(a: AssociatedItem) -> AssociatedItemV {
    match a {
        AssociatedItem::AssociatedFn(m) => AssociatedItemV::AssociatedFn(method_view(m)),
        AssociatedItem::AssociatedMethod(m) => AssociatedItemV::AssociatedMethod(method_view(m)),
    }
}

pub open spec fn assoc_seq_view(s: Seq<AssociatedItem>) -> Seq<AssociatedItemV> {
    Seq::new(s.len(), |i: int| assoc_view(s[i]))
}

impl View for AssociatedItem {
    type V = AssociatedItemV;

    open spec fn view(&self) -> AssociatedItemV {
        assoc_view(*self)
    }
}

/// An `impl` block: a header and the methods parsed from its body.
#[derive(Debug, PartialEq, Eq)]
pub struct ImplToken {
    pub attributes: KMap<AttrToken>,
    pub generics: Option<GenericParams>,
    pub name: Token,
    pub for_ty: Option<TyToken>,
    pub raw_block: Vec<Token>,
    pub functions: Vec<MethodDeclToken>,
}

/// View of [`ImplToken`].
pub struct ImplTokenV {
    pub attributes: Seq<(Seq<char>, AttrTokenV)>,
    pub generics: Option<GenericParamsV>,
    pub name: TokenV,
    pub for_ty: Option<TyTokenV>,
    pub raw_block: Seq<TokenV>,
    pub functions: Seq<MethodDeclTokenV>,
}

pub open spec fn impl_view(t: ImplToken) -> ImplTokenV {
    ImplTokenV {
        attributes: t.attributes.entries_view(),
        generics: opt_generics_view(t.generics),
        name: token_view(t.name),
        for_ty: opt_ty_view(t.for_ty),
        raw_block: tokens_view(t.raw_block@),
        functions: method_seq_view(t.functions@),
    }
}

impl View for ImplToken {
    type V = ImplTokenV;

    open spec fn view(&self) -> ImplTokenV {
        impl_view(*self)
    }
}

/// A trait declaration: a header and the method declarations of its body.
#[derive(Debug, PartialEq, Eq)]
pub struct TraitToken {
    pub attrs: KMap<AttrToken>,
    pub visibility: Option<Token>,
    pub ident: Token,
    pub generics: Option<GenericParams>,
    pub inn_attrs: Option<AttrToken>,
    pub associated_items: Vec<AssociatedItem>,
    pub raw_block: Vec<Token>,
    pub functions: Vec<MethodDeclToken>,
}

/// View of [`TraitToken`].
pub struct TraitTokenV {
    pub attrs: Seq<(Seq<char>, AttrTokenV)>,
    pub visibility: Option<TokenV>,
    pub ident: TokenV,
    pub generics: Option<GenericParamsV>,
    pub inn_attrs: Option<AttrTokenV>,
    pub associated_items: Seq<AssociatedItemV>,
    pub raw_block: Seq<TokenV>,
    pub functions: Seq<MethodDeclTokenV>,
}

pub open spec fn trait_view(t: TraitToken) -> TraitTokenV {
    TraitTokenV {
        attrs: t.attrs.entries_view(),
        visibility: opt_token_view(t.visibility),
        ident: token_view(t.ident),
        generics: opt_generics_view(t.generics),
        inn_attrs: match t.inn_attrs {
            Some(a) => Some(attr_token_view(a)),
            None => None,
        },
        associated_items: assoc_seq_view(t.associated_items@),
        raw_block: tokens_view(t.raw_block@),
        functions: method_seq_view(t.functions@),
    }
}

impl View for TraitToken {
    type V = TraitTokenV;

    open spec fn view(&self) -> TraitTokenV {
        trait_view(*self)
    }
}

/// A successfully parsed top-level declaration of any supported kind.
#[derive(Debug, PartialEq, Eq)]
pub enum TopLevelNode {
    Struct(StructToken),
    Trait(TraitToken),
    Impl(ImplToken),
    Fn(MethodDeclToken),
}

/// View of [`TopLevelNode`].
pub enum TopLevelNodeV {
    Struct(StructTokenV),
    Trait(TraitTokenV),
    Impl(ImplTokenV),
    Fn(MethodDeclTokenV),
}

impl View for TopLevelNode {
    type V = TopLevelNodeV;

    open spec fn view(&self) -> TopLevelNodeV {
        match *self {
            TopLevelNode::Struct(t) => TopLevelNodeV::Struct(struct_view(t)),
            TopLevelNode::Trait(t) => TopLevelNodeV::Trait(trait_view(t)),
            TopLevelNode::Impl(t) => TopLevelNodeV::Impl(impl_view(t)),
            TopLevelNode::Fn(t) => TopLevelNodeV::Fn(method_view(t)),
        }
    }
}

/// Classification of a top-level AST node, with the token that names it.
pub trait TopLevelAST {
    fn span(&self) -> Token;

    fn is_trait(&self) -> bool {
        false
    }

    fn is_struct(&self) -> bool {
        false
    }

    fn is_impl(&self) -> bool {
        false
    }

    fn is_fn(&self) -> bool {
        false
    }
}

impl TopLevelAST for StructToken {
    fn span(&self) -> Token {
        self.name.clone()
    }

    fn is_struct(&self) -> bool {
        true
    }
}

impl TopLevelAST for ImplToken {
    fn span(&self) -> Token {
        self.name.clone()
    }

    fn is_impl(&self) -> bool {
        true
    }
}

impl TopLevelAST for TraitToken {
    fn span(&self) -> Token {
        self.ident.clone()
    }

    fn is_trait(&self) -> bool {
        true
    }
}

impl TopLevelAST for MethodDeclToken {
    fn span(&self) -> Token {
        self.ident.clone()
    }

    fn is_fn(&self) -> bool {
        true
    }
}

} // verus!
