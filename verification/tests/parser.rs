//! Tests for the token cursor, the grammar parsers, the renderer and the
//! diagnostics.
use kproc_parser::examples::{Boo, Foo};
use kproc_parser::kparser::{DummyTracer, KParserError};
use kproc_parser::kproc_macros::{KTokenStream, OrderedTokenTree};
use kproc_parser::rust::ast::RustAST;
use kproc_parser::rust::ast_nodes::{
    AttrToken, AttributeV2Token, Bound, GenericParam, GenericParams, KMap, StructToken,
};
use kproc_parser::rust::kcore::check_and_parse_bounds;
use kproc_parser::rust::kenum::EnumValueKind;
use kproc_parser::rust::kparser::RustParser;
use kproc_parser::rust::{fmt, kenum, kfunc, kimpl, kstruct, ktrait, rust_struct};
use kproc_parser::token::{Delim, Span, Token};

fn id(text: &str) -> Token {
    Token::Ident { text: text.to_string(), span: Span { line: 0, column: 0 } }
}

fn pn(text: &str) -> Token {
    Token::Punct { text: text.to_string(), span: Span { line: 0, column: 0 } }
}

fn lit(text: &str) -> Token {
    Token::Literal { text: text.to_string(), span: Span { line: 0, column: 0 } }
}

fn grp(delim: Delim, toks: Vec<Token>) -> Token {
    Token::Group { delim, toks, span: Span { line: 0, column: 0 } }
}

fn parse_struct_toks(toks: Vec<Token>) -> Result<StructToken, KParserError> {
    let mut stream = KTokenStream::new(&toks);
    kstruct::parse_struct(&mut stream, &DummyTracer)
}

#[test]
fn it_works() {
    let obj = Foo { attr: "Alibaba".to_string(), self_ref: 0 };
    assert_eq!(obj.get_attr(), obj.attr);
}

#[test]
fn generics_works() {
    let obj = Boo { attr: "Alibaba".to_string(), self_ref: 0, gen: vec![] };
    assert!(obj.gen.is_empty());
}

trait GenTrait {}

struct BooLifetimeDyn<'a> {
    attr: String,
    self_ref: u32,
    gen: Vec<&'a dyn GenTrait>,
}

impl<'a> BooLifetimeDyn<'a> {
    fn get_attr(&self) -> String {
        self.attr.clone()
    }
}

#[test]
fn generics_with_dyn_works() {
    let obj = BooLifetimeDyn { attr: "Alibaba".to_string(), self_ref: 0, gen: vec![] };
    assert!(obj.gen.is_empty());
    assert_eq!(obj.get_attr(), obj.attr);
}

#[test]
fn zero_field_struct_parses() {
    let ast = parse_struct_toks(vec![id("struct"), id("Empty"), grp(Delim::Brace, vec![])])
        .expect("an empty struct parses");
    assert_eq!(ast.fields.len(), 0);
    assert_eq!(ast.name, id("Empty"));
}

#[test]
fn simple_struct_fields_in_order() {
    // two plain fields, adjacent, separated by a comma
    let body = vec![
        id("attr"),
        pn(":"),
        id("String"),
        pn(","),
        id("self_ref"),
        pn(":"),
        id("u32"),
    ];
    let ast = parse_struct_toks(vec![
        id("pub"),
        id("struct"),
        id("Foo"),
        grp(Delim::Brace, body),
    ])
    .expect("a two-field struct parses");
    assert_eq!(ast.visibility, Some(id("pub")));
    assert_eq!(ast.fields.len(), 2);
    assert_eq!(ast.fields[0].identifier, id("attr"));
    assert_eq!(ast.fields[0].ty.identifier, id("String"));
    assert_eq!(ast.fields[1].identifier, id("self_ref"));
    assert_eq!(ast.fields[1].ty.identifier, id("u32"));
}

fn boo_lifetime_tokens() -> Vec<Token> {
    // struct Boo<'a> { attr: String, gen: Vec<&'a Foo> }
    let body = vec![
        id("attr"),
        pn(":"),
        id("String"),
        pn(","),
        id("gen"),
        pn(":"),
        id("Vec"),
        pn("<"),
        pn("&"),
        pn("'"),
        id("a"),
        id("Foo"),
        pn(">"),
    ];
    vec![
        id("struct"),
        id("Boo"),
        pn("<"),
        pn("'"),
        id("a"),
        pn(">"),
        grp(Delim::Brace, body),
    ]
}

#[test]
fn generics_lifetime_and_ref_field() {
    let ast = parse_struct_toks(boo_lifetime_tokens()).expect("the lifetime struct parses");
    let generics = ast.generics.as_ref().expect("a generics clause");
    assert_eq!(generics.params.len(), 1);
    match &generics.params[0] {
        GenericParam::LifetimeParam(l) => {
            assert_eq!(l.lifetime_or_label, id("a"));
            assert!(l.bounds.is_empty());
        }
        other => panic!("expected a lifetime parameter, got {:?}", other),
    }
    assert_eq!(ast.fields.len(), 2);
    let gen = &ast.fields[1];
    assert_eq!(gen.identifier, id("gen"));
    assert_eq!(gen.ty.identifier, id("Vec"));
    let args = gen.ty.generics.as_ref().expect("generic arguments");
    assert_eq!(args.len(), 1);
    let arg = &args[0];
    assert_eq!(arg.ref_tok, Some(pn("&")));
    assert_eq!(arg.identifier, id("Foo"));
    let lt = arg.lifetime.as_ref().expect("a lifetime on the argument");
    assert_eq!(lt.lifetime_or_label, id("a"));
    assert!(arg.generics.is_none());
}

#[test]
fn round_trip_struct() {
    // #[cli = "x"] pub struct Pair { #[build] left: &Foo, right: u8 }
    let ast = parse_struct_toks(vec![
        pn("#"),
        grp(Delim::Bracket, vec![id("cli"), pn("="), lit("\"x\"")]),
        id("pub"),
        id("struct"),
        id("Pair"),
        grp(
            Delim::Brace,
            vec![
                pn("#"),
                grp(Delim::Bracket, vec![id("build")]),
                id("left"),
                pn(":"),
                pn("&"),
                id("Foo"),
                pn(","),
                id("right"),
                pn(":"),
                id("u8"),
            ],
        ),
    ])
    .expect("the struct parses");
    let rendered = fmt::struct_tokens(&ast);
    let again = parse_struct_toks(rendered).expect("the rendered struct parses back");
    assert_eq!(ast, again);
}

#[test]
fn round_trip_struct_with_generics() {
    let ast = parse_struct_toks(boo_lifetime_tokens()).expect("the lifetime struct parses");
    let rendered = fmt::struct_tokens(&ast);
    let again = parse_struct_toks(rendered).expect("the rendered struct parses back");
    assert_eq!(ast, again);
}

#[test]
fn bound_clause_two_bounds() {
    // <T: Debug + ToString>
    let toks = vec![
        pn("<"),
        id("T"),
        pn(":"),
        id("Debug"),
        pn("+"),
        id("ToString"),
        pn(">"),
    ];
    let mut stream = KTokenStream::new(&toks);
    let generics = check_and_parse_bounds(&mut stream, &DummyTracer)
        .expect("the clause parses")
        .expect("the clause is present");
    assert_eq!(generics.params.len(), 1);
    match &generics.params[0] {
        GenericParam::Bounds(Bound::Trait(t)) => {
            assert_eq!(t.identifier, id("T"));
            assert_eq!(t.bounds.len(), 2);
            match &t.bounds[0] {
                Bound::Trait(b) => assert_eq!(b.identifier, id("Debug")),
                other => panic!("expected a trait bound, got {:?}", other),
            }
            match &t.bounds[1] {
                Bound::Trait(b) => assert_eq!(b.identifier, id("ToString")),
                other => panic!("expected a trait bound, got {:?}", other),
            }
        }
        other => panic!("expected a bound clause, got {:?}", other),
    }
}

#[test]
fn malformed_bound_concatenation() {
    let toks = vec![pn("<"), pn("+"), id("Debug"), pn(">")];
    let mut stream = KTokenStream::new(&toks);
    let err = check_and_parse_bounds(&mut stream, &DummyTracer)
        .expect_err("a leading + is a malformed bound");
    assert!(err.emit().contains("concatenation bound"));
}

#[test]
fn enum_three_variant_kinds() {
    // enum Message { Quit, Move { x: i32, y: i32 }, Write(String) }
    let body = vec![
        id("Quit"),
        pn(","),
        id("Move"),
        grp(
            Delim::Brace,
            vec![id("x"), pn(":"), id("i32"), pn(","), id("y"), pn(":"), id("i32")],
        ),
        pn(","),
        id("Write"),
        grp(Delim::Paren, vec![id("String")]),
    ];
    let toks = vec![id("enum"), id("Message"), grp(Delim::Brace, body)];
    let mut stream = KTokenStream::new(&toks);
    let ast = kenum::parse(&mut stream, &DummyTracer).expect("the enum parses");
    assert_eq!(ast.identifier, id("Message"));
    assert_eq!(ast.values.len(), 3);
    assert_eq!(ast.values[0].identifier, id("Quit"));
    assert!(matches!(ast.values[0].kind, EnumValueKind::Simple));
    assert_eq!(ast.values[1].identifier, id("Move"));
    match &ast.values[1].kind {
        EnumValueKind::Named(fields) => {
            assert_eq!(fields.len(), 2);
            assert_eq!(fields.get("x"), Some(&id("i32")));
            assert_eq!(fields.get("y"), Some(&id("i32")));
        }
        other => panic!("expected named fields, got {:?}", other),
    }
    assert_eq!(ast.values[2].identifier, id("Write"));
    match &ast.values[2].kind {
        EnumValueKind::Anonymus(tys) => assert_eq!(tys, &vec![id("String")]),
        other => panic!("expected positional fields, got {:?}", other),
    }
}

#[test]
fn enum_invalid_bracket_payload() {
    let body = vec![id("Boom"), grp(Delim::Bracket, vec![id("u8")])];
    let toks = vec![id("enum"), id("Broken"), grp(Delim::Brace, body)];
    let mut stream = KTokenStream::new(&toks);
    let err = kenum::parse(&mut stream, &DummyTracer).expect_err("a bracket payload is invalid");
    assert!(err.emit().contains("invalid token inside enum"));
}

#[test]
fn malformed_field_diagnostic() {
    // struct Mangled { attr String }
    let toks = vec![
        id("struct"),
        id("Mangled"),
        grp(Delim::Brace, vec![id("attr"), id("String")]),
    ];
    let err = parse_struct_toks(toks).expect_err("a field without `:` is malformed");
    assert_eq!(err.span(), id("attr"));
    assert!(err.emit().contains("expected `:`"));
}

#[test]
fn unterminated_type_diagnostic() {
    let toks = vec![
        id("struct"),
        id("Odd"),
        grp(Delim::Brace, vec![id("a"), pn(":"), id("Foo"), pn("!")]),
    ];
    let err = parse_struct_toks(toks).expect_err("a bad separator after a type is an error");
    assert_eq!(err.span(), pn("!"));
    assert!(err.emit().contains("unterminated type expression"));
}

#[test]
fn missing_field_group_diagnostic() {
    let toks = vec![id("struct"), id("NoBody")];
    let err = parse_struct_toks(toks).expect_err("a struct without a body is an error");
    assert!(err.emit().contains("expected a delimited group"));
}

#[test]
fn dispatcher_unrecognized_fragment() {
    let toks = vec![id("struct"), id("Foo"), lit("42"), id("boom")];
    let parser = RustParser::new();
    let err = parser.parse(&toks).expect_err("gibberish after a struct prefix is rejected");
    assert_eq!(err.span(), id("struct"));
    assert!(err.emit().contains("token sequence not recognized as any known declaration kind"));
}

#[test]
fn dispatcher_picks_struct() {
    let toks = vec![id("struct"), id("Empty"), grp(Delim::Brace, vec![])];
    let parser = RustParser::new();
    match parser.parse(&toks).expect("an empty struct is recognized") {
        kproc_parser::rust::ast_nodes::TopLevelNode::Struct(s) => {
            assert_eq!(s.name, id("Empty"))
        }
        other => panic!("expected a struct node, got {:?}", other),
    }
}

#[test]
fn fn_with_qualifier_bounds_and_receiver() {
    // pub async fn foo<T: Debug>(&self, x: T) -> u8;
    let toks = vec![
        id("pub"),
        id("async"),
        id("fn"),
        id("foo"),
        pn("<"),
        id("T"),
        pn(":"),
        id("Debug"),
        pn(">"),
        grp(
            Delim::Paren,
            vec![pn("&"), id("self"), pn(","), id("x"), pn(":"), id("T")],
        ),
        pn("-"),
        pn(">"),
        id("u8"),
        pn(";"),
    ];
    let mut stream = KTokenStream::new(&toks);
    let ast = kfunc::parse_fn(&mut stream, &DummyTracer).expect("the declaration parses");
    assert_eq!(ast.visibility, Some(id("pub")));
    assert_eq!(ast.qualifier, Some(id("async")));
    assert_eq!(ast.ident, id("foo"));
    assert!(ast.generics.is_some());
    assert_eq!(ast.params.len(), 1);
    assert_eq!(ast.params[0].0, id("x"));
    assert_eq!(ast.params[0].1.identifier, id("T"));
    let rt = ast.return_ty.expect("a return type");
    assert_eq!(rt.identifier, id("u8"));
    assert!(ast.raw_body.is_none());
}

#[test]
fn impl_block_methods() {
    // impl Foo { fn bar(&self) {} }
    let body = vec![
        id("fn"),
        id("bar"),
        grp(Delim::Paren, vec![pn("&"), id("self")]),
        grp(Delim::Brace, vec![]),
    ];
    let toks = vec![id("impl"), id("Foo"), grp(Delim::Brace, body)];
    let mut stream = KTokenStream::new(&toks);
    let ast = kimpl::parse_impl(&mut stream, &DummyTracer).expect("the impl parses");
    assert_eq!(ast.name, id("Foo"));
    assert_eq!(ast.functions.len(), 1);
    assert_eq!(ast.functions[0].ident, id("bar"));
    assert!(ast.functions[0].raw_body.is_some());
}

#[test]
fn trait_with_bodyless_method() {
    // pub trait Port { fn send(x: u8); }
    let body = vec![
        id("fn"),
        id("send"),
        grp(Delim::Paren, vec![id("x"), pn(":"), id("u8")]),
        pn(";"),
    ];
    let toks = vec![id("pub"), id("trait"), id("Port"), grp(Delim::Brace, body)];
    let mut stream = KTokenStream::new(&toks);
    let ast = ktrait::parse_trait(&mut stream, &DummyTracer).expect("the trait parses");
    assert_eq!(ast.ident, id("Port"));
    assert_eq!(ast.visibility, Some(id("pub")));
    assert_eq!(ast.functions.len(), 1);
    assert!(ast.functions[0].raw_body.is_none());
}

#[test]
fn field_attributes_by_name() {
    // struct F { #[build] attr: String }
    let body = vec![
        pn("#"),
        grp(Delim::Bracket, vec![id("build")]),
        id("attr"),
        pn(":"),
        id("String"),
    ];
    let toks = vec![id("struct"), id("F"), grp(Delim::Brace, body)];
    let ast = parse_struct_toks(toks).expect("the struct parses");
    assert_eq!(ast.fields.len(), 1);
    let field = &ast.fields[0];
    assert_eq!(field.attrs.len(), 1);
    match field.attrs.get("build").expect("the build attribute") {
        AttrToken::Attr(a) => {
            assert_eq!(a.name, id("build"));
            assert!(a.value.is_none());
        }
        other => panic!("expected a plain attribute, got {:?}", other),
    }
}

#[test]
fn struct_attribute_forms() {
    // #[cli = "foo"] #[allow(dead_code)] struct S {}
    let toks = vec![
        pn("#"),
        grp(Delim::Bracket, vec![id("cli"), pn("="), lit("\"foo\"")]),
        pn("#"),
        grp(Delim::Bracket, vec![id("allow"), grp(Delim::Paren, vec![id("dead_code")])]),
        id("struct"),
        id("S"),
        grp(Delim::Brace, vec![]),
    ];
    let ast = parse_struct_toks(toks).expect("the struct parses");
    assert_eq!(ast.attrs.len(), 2);
    match ast.attrs.get("cli").expect("the cli attribute") {
        AttrToken::Attr(a) => assert_eq!(a.value, Some(lit("\"foo\""))),
        other => panic!("expected a plain attribute, got {:?}", other),
    }
    match ast.attrs.get("allow").expect("the allow attribute") {
        AttrToken::CondAttr(c) => {
            assert_eq!(c.name, id("allow"));
            assert_eq!(c.value.name, id("dead_code"));
        }
        other => panic!("expected a conditional attribute, got {:?}", other),
    }
}

#[test]
fn enum_attributes_inner_and_outer() {
    // #[serde] #![warn] enum E { A, }
    let toks = vec![
        pn("#"),
        grp(Delim::Bracket, vec![id("serde")]),
        pn("#"),
        pn("!"),
        grp(Delim::Bracket, vec![id("warn")]),
        id("enum"),
        id("E"),
        grp(Delim::Brace, vec![id("A"), pn(",")]),
    ];
    let mut stream = KTokenStream::new(&toks);
    let ast = kenum::parse(&mut stream, &DummyTracer).expect("the enum parses");
    assert_eq!(ast.attributes.len(), 2);
    assert!(matches!(
        ast.attributes.get("serde"),
        Some(AttributeV2Token::OuterAttribute(_))
    ));
    assert!(matches!(
        ast.attributes.get("warn"),
        Some(AttributeV2Token::InnerAttribute(_))
    ));
}

#[test]
fn render_type_text() {
    let ast = parse_struct_toks(vec![
        id("struct"),
        id("R"),
        grp(
            Delim::Brace,
            vec![id("a"), pn(":"), pn("&"), pn("'"), id("x"), id("Foo")],
        ),
    ])
    .expect("the struct parses");
    let text = fmt::fmt_ty(&ast.fields[0].ty);
    assert_eq!(text, "& ' x Foo");
}

#[test]
fn render_struct_text() {
    let ast = parse_struct_toks(vec![
        id("struct"),
        id("P"),
        grp(Delim::Brace, vec![id("a"), pn(":"), id("u8")]),
    ])
    .expect("the struct parses");
    let node = RustAST::Struct(ast);
    match &node {
        RustAST::Struct(s) => {
            let text = node.fmt_struct(s);
            assert_eq!(text, "struct P {a : u8}");
        }
        other => panic!("expected a struct node, got {:?}", other),
    }
}

#[test]
fn token_text_of_group() {
    let tok = grp(Delim::Brace, vec![id("a"), pn(":"), id("u8")]);
    assert_eq!(tok.to_text(), "{a : u8}");
}

#[test]
fn expect_reports_both_tokens() {
    let tok = id("got_this");
    let err = KParserError::expect("wanted", &tok, String::new(), String::new())
        .expect_err("the texts differ");
    assert_eq!(err.span(), tok);
    assert!(err.emit().contains("expected `wanted` but got `got_this`"));
    assert!(KParserError::expect("same", &id("same"), String::new(), String::new()).is_ok());
}

#[test]
fn attr_map_last_write_wins() {
    let mut map: KMap<Token> = KMap::new();
    map.insert("k".to_string(), id("first"));
    map.insert("k".to_string(), id("second"));
    assert_eq!(map.get("k"), Some(&id("second")));
    assert!(map.get("missing").is_none());
    assert!(map.contains_key("k"));
    assert!(!map.is_empty());
}

#[test]
fn ordered_token_tree_orders_by_index() {
    let mut a = OrderedTokenTree::new(1, id("x"));
    let b = OrderedTokenTree::new(2, id("y"));
    assert!(a < b);
    assert!(a != b);
    a.idx(2);
    assert!(a == b);
    assert_eq!(a.token(), id("x"));
}

#[test]
fn cursor_operations() {
    let toks = vec![id("a"), pn(":"), id("u8")];
    let mut stream = KTokenStream::new(&toks);
    assert!(!stream.is_end());
    assert!(stream.match_tok("a"));
    assert!(stream.has(2));
    assert!(!stream.has(3));
    assert_eq!(stream.lookup(1), &pn(":"));
    assert_eq!(stream.advance(), id("a"));
    assert_eq!(stream.peek(), &pn(":"));
    assert_eq!(stream.prev(), &id("a"));
    assert_eq!(stream.last(), &id("u8"));
    stream.next();
    assert_eq!(stream.advance(), id("u8"));
    assert!(stream.is_end());
    // advancing at the end hands the last token back and stays put
    assert_eq!(stream.advance(), id("u8"));
    assert!(stream.is_end());
}

#[test]
fn cursor_group_unwrapping() {
    let toks = vec![grp(Delim::Paren, vec![id("inner")])];
    let stream = KTokenStream::new(&toks);
    assert!(stream.is_group());
    let mut inner = stream.to_ktoken_stream();
    assert_eq!(inner.advance(), id("inner"));
    assert!(inner.is_end());
    assert_eq!(stream.unwrap_group_as_stream(), vec![id("inner")]);
    assert!(stream.opt_ktoken_stream().is_some());
}

#[test]
fn diagnostic_warning_renders() {
    let info = kproc_parser::kdiagnostic::KDiagnInfo::new(
        "something to look at",
        id("here"),
        String::new(),
        String::new(),
    );
    let warned = info.warn();
    let rendered = warned.emit();
    assert!(rendered.contains("warning"));
    assert!(rendered.contains("something to look at"));
}

#[test]
fn field_type_eof_diagnostic() {
    let toks = vec![
        id("struct"),
        id("Cut"),
        grp(Delim::Brace, vec![id("a"), pn(":")]),
    ];
    let err = parse_struct_toks(toks).expect_err("a field without a type is an error");
    assert!(err.emit().contains("unexpected end of the token stream"));
}

#[test]
fn simple_grammar_field_type() {
    // &'a Foo, (the simple grammar needs a token after the type)
    let toks = vec![pn("&"), pn("'"), id("a"), id("Foo"), pn(",")];
    let mut stream = KTokenStream::new(&toks);
    let ty = rust_struct::parse_field_ty(&mut stream, &DummyTracer);
    assert_eq!(ty.reference, Some(pn("&")));
    assert_eq!(ty.lifetime, Some(id("a")));
    assert_eq!(ty.name, id("Foo"));
    assert!(ty.generics.is_empty());
    assert!(ty.mutable.is_none());
    assert!(ty.dyn_tok.is_none());
}

#[test]
fn simple_grammar_struct() {
    // struct S<'a> { x: u8, }
    let body = vec![id("x"), pn(":"), id("u8"), pn(",")];
    let toks = vec![
        id("struct"),
        id("S"),
        pn("<"),
        pn("'"),
        id("a"),
        pn(">"),
        grp(Delim::Brace, body),
    ];
    let mut stream = KTokenStream::new(&toks);
    let ast = rust_struct::parse_struct(&mut stream, &DummyTracer);
    assert_eq!(ast.name, id("S"));
    let generics = ast.generics.expect("the lifetimes-only generics clause");
    assert_eq!(generics.lifetimes, vec![id("a")]);
    assert!(generics.generics.is_empty());
    assert_eq!(ast.attributes.len(), 1);
    assert_eq!(ast.attributes[0].name, id("x"));
    assert_eq!(ast.attributes[0].ty.name, id("u8"));
}

#[test]
fn simple_grammar_single_attribute() {
    // the scanner looks two tokens past the group, so the field
    // tokens must follow
    let toks = vec![
        pn("#"),
        grp(Delim::Bracket, vec![id("build")]),
        id("x"),
        pn(":"),
        id("u8"),
        pn(","),
    ];
    let mut stream = KTokenStream::new(&toks);
    let attr = rust_struct::check_and_parse_cond_attribute(&mut stream, &DummyTracer)
        .expect("one attribute");
    match attr {
        AttrToken::Attr(a) => assert_eq!(a.name, id("build")),
        other => panic!("expected a plain attribute, got {:?}", other),
    }
    assert!(stream.match_tok("x"));
}

#[test]
fn struct_keyword_mismatch_diagnostic() {
    let toks = vec![id("enum"), id("E"), grp(Delim::Brace, vec![])];
    let err = parse_struct_toks(toks).expect_err("an enum is not a struct");
    assert_eq!(err.span(), id("enum"));
    assert!(err.emit().contains("expected `struct` but got `enum`"));
}

#[test]
fn enum_unexpected_variant_payload() {
    let body = vec![id("A"), id("B")];
    let toks = vec![id("enum"), id("E"), grp(Delim::Brace, body)];
    let mut stream = KTokenStream::new(&toks);
    let err = kenum::parse(&mut stream, &DummyTracer)
        .expect_err("an identifier is no variant payload");
    assert!(err.emit().contains("token `B` not expected"));
}

#[test]
fn fn_without_parameter_group() {
    let toks = vec![id("fn"), id("f")];
    let mut stream = KTokenStream::new(&toks);
    let err = kfunc::parse_fn(&mut stream, &DummyTracer)
        .expect_err("a declaration without a parameter list is an error");
    assert!(err.emit().contains("expected a delimited group"));
}

#[test]
fn fmt_generics_of_empty_clause() {
    let clause = GenericParams { params: vec![] };
    assert_eq!(fmt::fmt_generics(&clause), "");
}
