use stage0::ast::struc::Struct;
use stage0::ast::ty::TypeName;
use stage0::ast::{ParseError, SourceFile, TypeDefinition};
use stage0::lexer::{Identifier, Lexer, Span, SyntaxError, Token};

fn sp(col: usize) -> Span {
    Span::new(1, col)
}

fn id(col: usize, s: &str) -> Identifier {
    Identifier::new(sp(col), String::from(s))
}

fn ident(col: usize, s: &str) -> Token {
    Token::Identifier(id(col, s))
}

fn attr(col: usize, s: &str) -> Token {
    Token::AttributeName(id(col, s))
}

fn parse(stem: &str, tokens: Vec<Token>) -> Result<SourceFile, SyntaxError> {
    SourceFile::parse_source(String::from("/src/") + stem + ".nt", String::from(stem), tokens)
}

fn parse_err(stem: &str, tokens: Vec<Token>) -> SyntaxError {
    match parse(stem, tokens) {
        Ok(_) => panic!("expected a syntax error"),
        Err(e) => e,
    }
}

fn name_of(t: &Token) -> Option<String> {
    match t {
        Token::Identifier(i) => Some(i.value().to_string()),
        Token::SelfKeyword(_) => Some(String::from("self")),
        Token::FullStop(_) => Some(String::from(".")),
        _ => None,
    }
}

#[test]
fn empty_file_parses() {
    let f = parse("Foo", Vec::new()).unwrap();
    assert_eq!(f.path(), "/src/Foo.nt");
    assert!(f.ty().is_none());
    assert!(!f.has_type());
    assert_eq!(f.uses().len(), 0);
    assert_eq!(f.impls().len(), 0);
}

#[test]
fn use_declaration_keeps_its_path() {
    // use self.foo.Bar;
    let toks = vec![
        Token::UseKeyword(sp(1)),
        Token::SelfKeyword(sp(5)),
        Token::FullStop(sp(9)),
        ident(10, "foo"),
        Token::FullStop(sp(13)),
        ident(14, "Bar"),
        Token::Semicolon(sp(17)),
    ];
    let f = parse("Foo", toks).unwrap();
    assert_eq!(f.uses().len(), 1);
    let u = &f.uses()[0];
    assert_eq!(u.def, sp(1));
    let names: Vec<Option<String>> = u.name().components().iter().map(name_of).collect();
    assert_eq!(
        names,
        vec![
            Some(String::from("self")),
            Some(String::from(".")),
            Some(String::from("foo")),
            Some(String::from(".")),
            Some(String::from("Bar"))
        ]
    );
    assert!(u.rename.is_none());
}

#[test]
fn primitive_struct_with_repr() {
    // @repr(u8) struct Foo;
    let toks = vec![
        attr(1, "repr"),
        Token::OpenParenthesis(sp(6)),
        ident(7, "u8"),
        Token::CloseParenthesis(sp(9)),
        Token::StructKeyword(sp(11)),
        ident(18, "Foo"),
        Token::Semicolon(sp(21)),
    ];
    let f = parse("Foo", toks).unwrap();
    match f.ty().unwrap() {
        TypeDefinition::Struct(Struct::Primitive(attrs, repr, def, name)) => {
            assert_eq!(attrs.items.len(), 1);
            assert_eq!(repr.value(), "u8");
            assert_eq!(*def, sp(11));
            assert_eq!(name.value(), "Foo");
            let (n, r) = attrs.repr().unwrap();
            assert_eq!(n.value(), "repr");
            assert_eq!(r.value(), "u8");
        }
        _ => panic!("expected a primitive struct"),
    }
    assert_eq!(f.ty().unwrap().name().value(), "Foo");
}

#[test]
fn composite_struct_has_empty_body() {
    let toks = vec![
        Token::StructKeyword(sp(1)),
        ident(8, "Foo"),
        Token::OpenCurly(sp(12)),
        Token::CloseCurly(sp(13)),
    ];
    let f = parse("Foo", toks).unwrap();
    match f.ty().unwrap() {
        TypeDefinition::Struct(Struct::Composite(attrs, _, name)) => {
            assert_eq!(attrs.items.len(), 0);
            assert_eq!(name.value(), "Foo");
        }
        _ => panic!("expected a composite struct"),
    }
}

#[test]
fn struct_body_must_be_empty() {
    let toks = vec![
        Token::StructKeyword(sp(1)),
        ident(8, "Foo"),
        Token::OpenCurly(sp(12)),
        ident(14, "x"),
    ];
    let e = parse_err("Foo", toks);
    assert_eq!(e.reason(), "expect '}'");
    assert_eq!(*e.span(), sp(14));
}

#[test]
fn zero_sized_class() {
    let toks = vec![Token::ClassKeyword(sp(1)), ident(7, "Foo"), Token::Semicolon(sp(10))];
    let f = parse("Foo", toks).unwrap();
    match f.ty().unwrap() {
        TypeDefinition::Class(c) => assert_eq!(c.name().value(), "Foo"),
        _ => panic!("expected a class"),
    }
}

#[test]
fn class_with_empty_body() {
    let toks = vec![
        Token::ClassKeyword(sp(1)),
        ident(7, "Foo"),
        Token::OpenCurly(sp(11)),
        Token::CloseCurly(sp(12)),
    ];
    assert!(parse("Foo", toks).unwrap().has_type());
}

#[test]
fn class_without_body_at_end() {
    let toks = vec![Token::ClassKeyword(sp(1)), ident(7, "Foo")];
    let e = parse_err("Foo", toks);
    assert_eq!(e.reason(), "expect either ';' or '{' after the class name");
    assert_eq!(*e.span(), sp(7));
}

#[test]
fn class_body_with_field_is_refused() {
    let toks = vec![
        Token::ClassKeyword(sp(1)),
        ident(7, "Foo"),
        Token::OpenCurly(sp(11)),
        ident(13, "x"),
    ];
    assert_eq!(parse_err("Foo", toks).reason(), "syntax error");
}

#[test]
fn type_name_must_match_file_name() {
    let toks = vec![Token::ClassKeyword(sp(1)), ident(7, "Bar"), Token::Semicolon(sp(10))];
    let e = parse_err("Foo", toks);
    assert_eq!(e.reason(), "type name and file name must be matched");
    assert_eq!(*e.span(), sp(7));
}

#[test]
fn only_one_type_per_file() {
    let toks = vec![
        Token::ClassKeyword(sp(1)),
        ident(7, "Foo"),
        Token::Semicolon(sp(10)),
        Token::StructKeyword(sp(12)),
        ident(19, "Foo"),
        Token::Semicolon(sp(22)),
    ];
    let e = parse_err("Foo", toks);
    assert_eq!(e.reason(), "multiple type definition in a source file");
    assert_eq!(*e.span(), sp(19));
}

fn impl_tokens(ty: &str, items: Vec<Token>) -> Vec<Token> {
    let mut toks = vec![Token::ImplKeyword(sp(30)), ident(35, ty), Token::OpenCurly(sp(39))];
    toks.extend(items);
    toks.push(Token::CloseCurly(sp(80)));
    toks
}

fn class_foo() -> Vec<Token> {
    vec![Token::ClassKeyword(sp(1)), ident(7, "Foo"), Token::Semicolon(sp(10))]
}

#[test]
fn impl_with_functions() {
    // @pub fn new(a: *Foo, b: !): () { x { y } }  fn g();
    let items = vec![
        attr(40, "pub"),
        Token::FnKeyword(sp(45)),
        ident(48, "new"),
        Token::OpenParenthesis(sp(51)),
        ident(52, "a"),
        Token::Colon(sp(53)),
        Token::Asterisk(sp(55)),
        ident(56, "Foo"),
        Token::Comma(sp(59)),
        ident(61, "b"),
        Token::Colon(sp(62)),
        Token::ExclamationMark(sp(64)),
        Token::CloseParenthesis(sp(65)),
        Token::Colon(sp(66)),
        Token::OpenParenthesis(sp(68)),
        Token::CloseParenthesis(sp(69)),
        Token::OpenCurly(sp(71)),
        ident(72, "x"),
        Token::OpenCurly(sp(73)),
        ident(74, "y"),
        Token::CloseCurly(sp(75)),
        Token::CloseCurly(sp(76)),
        Token::FnKeyword(sp(77)),
        ident(78, "g"),
        Token::OpenParenthesis(sp(79)),
        Token::CloseParenthesis(sp(79)),
        Token::Semicolon(sp(79)),
    ];
    let mut toks = class_foo();
    toks.extend(impl_tokens("Foo", items));
    let f = parse("Foo", toks).unwrap();
    assert_eq!(f.impls().len(), 1);
    let imp = &f.impls()[0];
    assert_eq!(imp.ty().value(), "Foo");
    assert_eq!(imp.functions().len(), 2);

    let new = &imp.functions()[0];
    assert_eq!(new.name().value(), "new");
    assert_eq!(new.attrs.items.len(), 1);
    assert_eq!(new.attrs.items[0].name.value(), "pub");
    assert_eq!(new.params().len(), 2);
    assert_eq!(new.params()[0].name.value(), "a");
    assert_eq!(new.params()[0].ty.prefixes(), &[sp(55)][..]);
    match new.params()[0].ty.name() {
        TypeName::Ident(p) => assert_eq!(p.components().len(), 1),
        _ => panic!("expected a named type"),
    }
    match new.params()[1].ty.name() {
        TypeName::Never(s) => assert_eq!(*s, sp(64)),
        _ => panic!("expected the never type"),
    }
    match new.ret.as_ref().unwrap().name() {
        TypeName::Unit(o, c) => {
            assert_eq!(*o, sp(68));
            assert_eq!(*c, sp(69));
        }
        _ => panic!("expected the unit type"),
    }
    // The body keeps its tokens, nested braces included.
    assert_eq!(new.body.as_ref().unwrap().len(), 4);

    let g = &imp.functions()[1];
    assert_eq!(g.name().value(), "g");
    assert_eq!(g.attrs.items.len(), 0);
    assert!(g.params().is_empty());
    assert!(g.ret.is_none());
    assert!(g.body.is_none());
}

#[test]
fn dotted_type_keeps_its_tokens() {
    // fn f(x: a.b.c);  The path is stored as `. a . b c`.
    let items = vec![
        Token::FnKeyword(sp(40)),
        ident(43, "f"),
        Token::OpenParenthesis(sp(44)),
        ident(45, "x"),
        Token::Colon(sp(46)),
        ident(48, "a"),
        Token::FullStop(sp(49)),
        ident(50, "b"),
        Token::FullStop(sp(51)),
        ident(52, "c"),
        Token::CloseParenthesis(sp(53)),
        Token::Semicolon(sp(54)),
    ];
    let mut toks = class_foo();
    toks.extend(impl_tokens("Foo", items));
    let f = parse("Foo", toks).unwrap();
    let func = &f.impls()[0].functions()[0];
    match func.params()[0].ty.name() {
        TypeName::Ident(p) => {
            let names: Vec<Option<String>> = p.components().iter().map(name_of).collect();
            assert_eq!(
                names,
                vec![
                    Some(String::from(".")),
                    Some(String::from("a")),
                    Some(String::from(".")),
                    Some(String::from("b")),
                    Some(String::from("c"))
                ]
            );
        }
        _ => panic!("expected a named type"),
    }
}

#[test]
fn impl_for_another_type_is_refused() {
    let mut toks = class_foo();
    toks.extend(impl_tokens("Bar", Vec::new()));
    let e = parse_err("Foo", toks);
    assert_eq!(e.reason(), "an implementation is not matched with type in the file");
    assert_eq!(*e.span(), sp(35));
}

#[test]
fn impl_before_type_is_refused() {
    let toks = impl_tokens("Foo", Vec::new());
    assert_eq!(
        parse_err("Foo", toks).reason(),
        "type must be defined before define an implementation"
    );
}

#[test]
fn impl_without_brace() {
    let mut toks = class_foo();
    toks.push(Token::ImplKeyword(sp(30)));
    toks.push(ident(35, "Foo"));
    let e = parse_err("Foo", toks.clone());
    assert_eq!(e.reason(), "expect '{' after this");
    assert_eq!(*e.span(), sp(35));
    toks.push(Token::Semicolon(sp(39)));
    assert_eq!(parse_err("Foo", toks).reason(), "expect '{'");
}

#[test]
fn unknown_top_level_item() {
    let e = parse_err("Foo", vec![Token::Comma(sp(3))]);
    assert_eq!(e.reason(), "this item is not allowed as a top-level");
    assert_eq!(*e.span(), sp(3));
}

#[test]
fn use_errors() {
    let e = parse_err("Foo", vec![Token::UseKeyword(sp(1))]);
    assert_eq!(e.reason(), "expect an identifer or self keyword after this");
    assert_eq!(*e.span(), sp(1));
    let e = parse_err("Foo", vec![Token::UseKeyword(sp(1)), Token::Comma(sp(5))]);
    assert_eq!(e.reason(), "expect an identifer or self keyword");
    let e = parse_err("Foo", vec![Token::UseKeyword(sp(1)), ident(5, "a")]);
    assert_eq!(e.reason(), "expect '.' after this");
    assert_eq!(*e.span(), sp(5));
    let e = parse_err(
        "Foo",
        vec![Token::UseKeyword(sp(1)), ident(5, "a"), Token::FullStop(sp(6))],
    );
    assert_eq!(e.reason(), "expect an identifer after this");
    let e = parse_err(
        "Foo",
        vec![Token::UseKeyword(sp(1)), ident(5, "a"), Token::FullStop(sp(6)), ident(7, "b")],
    );
    assert_eq!(e.reason(), "expect ';' after this");
    let e = parse_err(
        "Foo",
        vec![
            Token::UseKeyword(sp(1)),
            ident(5, "a"),
            Token::FullStop(sp(6)),
            ident(7, "b"),
            Token::Comma(sp(8)),
        ],
    );
    assert_eq!(e.reason(), "expect ';'");
    assert_eq!(*e.span(), sp(8));
}

#[test]
fn function_errors() {
    let fn_items = |items: Vec<Token>| {
        let mut toks = class_foo();
        toks.extend(impl_tokens("Foo", items));
        parse_err("Foo", toks)
    };
    // A parameter list that the closing brace ends.
    let e = fn_items(vec![Token::FnKeyword(sp(40)), ident(43, "f"), Token::OpenParenthesis(sp(44))]);
    assert_eq!(e.reason(), "syntax error");
    // A parameter that is not followed by `,` or `)`.
    let e = fn_items(vec![
        Token::FnKeyword(sp(40)),
        ident(43, "f"),
        Token::OpenParenthesis(sp(44)),
        ident(45, "x"),
        Token::Colon(sp(46)),
        ident(48, "T"),
        Token::Semicolon(sp(49)),
    ]);
    assert_eq!(e.reason(), "syntax error");
    assert_eq!(*e.span(), sp(49));
    // A function that is followed by neither `{` nor `;`.
    let e = fn_items(vec![
        Token::FnKeyword(sp(40)),
        ident(43, "f"),
        Token::OpenParenthesis(sp(44)),
        Token::CloseParenthesis(sp(45)),
        Token::Comma(sp(46)),
    ]);
    assert_eq!(e.reason(), "expect either '{' or ';'");
    // A type that is not a type.
    let e = fn_items(vec![
        Token::FnKeyword(sp(40)),
        ident(43, "f"),
        Token::OpenParenthesis(sp(44)),
        Token::CloseParenthesis(sp(45)),
        Token::Colon(sp(46)),
        Token::Comma(sp(47)),
    ]);
    assert_eq!(e.reason(), "invalid type");
    assert_eq!(*e.span(), sp(47));
    // A parameter without `:`.
    let e = fn_items(vec![
        Token::FnKeyword(sp(40)),
        ident(43, "f"),
        Token::OpenParenthesis(sp(44)),
        ident(45, "x"),
        ident(47, "T"),
    ]);
    assert_eq!(e.reason(), "expect ':'");
}

#[test]
fn unterminated_body() {
    let mut toks = class_foo();
    toks.extend(vec![
        Token::ImplKeyword(sp(30)),
        ident(35, "Foo"),
        Token::OpenCurly(sp(39)),
        Token::FnKeyword(sp(40)),
        ident(43, "f"),
        Token::OpenParenthesis(sp(44)),
        Token::CloseParenthesis(sp(45)),
        Token::OpenCurly(sp(46)),
        ident(47, "x"),
    ]);
    let e = parse_err("Foo", toks);
    assert_eq!(e.reason(), "expect '}' after this");
    assert_eq!(*e.span(), sp(47));
}

#[test]
fn unterminated_attribute_arguments() {
    let toks = vec![attr(1, "repr"), Token::OpenParenthesis(sp(6)), ident(7, "u8")];
    let e = parse_err("Foo", toks);
    assert_eq!(e.reason(), "expect ')' after this");
    assert_eq!(*e.span(), sp(7));
}

#[test]
fn source_file_named_by_its_path() {
    let toks = vec![Token::ClassKeyword(sp(1)), ident(7, "Foo"), Token::Semicolon(sp(10))];
    let f = SourceFile::parse_tokens(String::from("/src/a/Foo.nt"), toks).unwrap();
    assert_eq!(f.ty().unwrap().name().value(), "Foo");

    let toks = vec![Token::ClassKeyword(sp(1)), ident(7, "Foo"), Token::Semicolon(sp(10))];
    match SourceFile::parse(String::from("/src/a/Bar.nt"), toks) {
        Some(Err(ParseError::ParseFailed(e))) => {
            assert_eq!(e.reason(), "type name and file name must be matched")
        }
        _ => panic!("expected a syntax error"),
    }
}

#[test]
fn path_without_file_name() {
    assert!(SourceFile::parse(String::from(""), Vec::new()).is_none());
    assert!(SourceFile::parse(String::from("/src/Foo.nt"), Vec::new()).is_some());
}

#[test]
fn lexer_reads_and_gives_back() {
    let mut lex = Lexer::new(vec![ident(1, "a"), Token::Semicolon(sp(2))]);
    assert!(lex.last().is_none());
    assert!(matches!(lex.next(), Some(Token::Identifier(_))));
    assert_eq!(lex.last(), Some(sp(1)));
    assert_eq!(lex.next_semicolon().unwrap(), sp(2));
    assert!(lex.next().is_none());
    lex.undo();
    assert!(matches!(lex.next(), Some(Token::Semicolon(_))));
    let e = lex.next_ident().unwrap_err();
    assert_eq!(e.reason(), "expect an identifier after this");
    assert_eq!(*e.span(), sp(2));
}

#[test]
fn more_item_errors() {
    let e = parse_err("Foo", vec![Token::StructKeyword(sp(1))]);
    assert_eq!(e.reason(), "expect an identifier after this");
    assert_eq!(*e.span(), sp(1));

    // A primitive struct ends with `;`.
    let e = parse_err(
        "Foo",
        vec![
            attr(1, "repr"),
            Token::OpenParenthesis(sp(6)),
            ident(7, "u8"),
            Token::CloseParenthesis(sp(9)),
            Token::StructKeyword(sp(11)),
            ident(18, "Foo"),
            Token::OpenCurly(sp(22)),
        ],
    );
    assert_eq!(e.reason(), "expect ';'");
    assert_eq!(*e.span(), sp(22));

    // An attribute without a single identifier argument is no `repr`.
    let f = parse(
        "Foo",
        vec![
            attr(1, "repr"),
            Token::StructKeyword(sp(11)),
            ident(18, "Foo"),
            Token::OpenCurly(sp(22)),
            Token::CloseCurly(sp(23)),
        ],
    )
    .unwrap();
    assert!(matches!(f.ty(), Some(TypeDefinition::Struct(Struct::Composite(..)))));

    let in_impl = |items: Vec<Token>| {
        let mut toks = class_foo();
        toks.push(Token::ImplKeyword(sp(30)));
        toks.push(ident(35, "Foo"));
        toks.push(Token::OpenCurly(sp(39)));
        toks.extend(items);
        parse_err("Foo", toks)
    };
    assert_eq!(in_impl(Vec::new()).reason(), "expect an '}'");
    assert_eq!(in_impl(vec![ident(41, "x")]).reason(), "syntax error");
    assert_eq!(
        in_impl(vec![Token::FnKeyword(sp(40)), ident(43, "f"), ident(45, "x")]).reason(),
        "expect '('"
    );
    let e = in_impl(vec![
        Token::FnKeyword(sp(40)),
        ident(43, "f"),
        Token::OpenParenthesis(sp(44)),
        ident(45, "x"),
        Token::Colon(sp(46)),
        Token::Asterisk(sp(47)),
    ]);
    assert_eq!(e.reason(), "expect an identifier after this");
    assert_eq!(*e.span(), sp(47));
    let e = in_impl(vec![
        Token::FnKeyword(sp(40)),
        ident(43, "f"),
        Token::OpenParenthesis(sp(44)),
        ident(45, "x"),
        Token::Colon(sp(46)),
        ident(48, "a"),
        Token::FullStop(sp(49)),
        Token::Semicolon(sp(50)),
    ]);
    assert_eq!(e.reason(), "expect an identifier");
    assert_eq!(*e.span(), sp(50));
    let e = in_impl(vec![
        Token::FnKeyword(sp(40)),
        ident(43, "f"),
        Token::OpenParenthesis(sp(44)),
        ident(45, "x"),
        Token::Colon(sp(46)),
        Token::OpenParenthesis(sp(48)),
        Token::Comma(sp(49)),
    ]);
    assert_eq!(e.reason(), "expect ')'");
    assert_eq!(*e.span(), sp(49));
}

#[test]
fn attributes_before_a_use_go_to_the_type() {
    let toks = vec![
        attr(1, "repr"),
        Token::OpenParenthesis(sp(6)),
        ident(7, "u16"),
        Token::CloseParenthesis(sp(10)),
        Token::UseKeyword(sp(12)),
        ident(16, "a"),
        Token::FullStop(sp(17)),
        ident(18, "B"),
        Token::Semicolon(sp(19)),
        Token::StructKeyword(sp(21)),
        ident(28, "Foo"),
        Token::Semicolon(sp(31)),
    ];
    let f = parse("Foo", toks).unwrap();
    match f.ty().unwrap() {
        TypeDefinition::Struct(Struct::Primitive(_, repr, _, _)) => assert_eq!(repr.value(), "u16"),
        _ => panic!("expected a primitive struct"),
    }
}
