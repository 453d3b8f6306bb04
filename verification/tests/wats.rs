use mycelium_vr::wats::ast::{Expression, Statement, Type};
use mycelium_vr::wats::lexer::{tokenize, LexError, Token};
use mycelium_vr::wats::parser::{parse_function, parse_type, ErrorKind, ParseError};

const SAMPLE: &str = "
    func move-lift(target: u32) -> u32 {
        let height: u32 = 100;
        return height;
    }
    ";

#[test]
fn lex_sample_function() {
    let tokens = tokenize(SAMPLE).unwrap();
    assert_eq!(
        tokens,
        vec![
            Token::KwFunc,
            Token::Identifier("move-lift".to_string()),
            Token::LParen,
            Token::Identifier("target".to_string()),
            Token::Colon,
            Token::TypeU32,
            Token::RParen,
            Token::Arrow,
            Token::TypeU32,
            Token::LBrace,
            Token::KwLet,
            Token::Identifier("height".to_string()),
            Token::Colon,
            Token::TypeU32,
            Token::Equals,
            Token::Number(100),
            Token::Semicolon,
            Token::KwReturn,
            Token::Identifier("height".to_string()),
            Token::Semicolon,
            Token::RBrace,
        ]
    );
}

#[test]
fn parse_sample_function() {
    let tokens = tokenize(SAMPLE).unwrap();
    let (rest, f) = parse_function(&tokens).unwrap();
    assert!(rest.is_empty());
    assert_eq!(f.name, "move-lift");
    assert_eq!(f.params.len(), 1);
    assert_eq!(f.params[0].name, "target");
    assert!(matches!(f.params[0].ty, Type::U32));
    assert!(matches!(f.ret_type, Type::U32));
    assert_eq!(f.body.len(), 2);
    match &f.body[0] {
        Statement::Let { name, ty, value } => {
            assert_eq!(name, "height");
            assert!(matches!(ty, Type::U32));
            assert!(matches!(value, Expression::Number(100)));
        }
        _ => panic!("Expected Let"),
    }
    match &f.body[1] {
        Statement::Return(Expression::Identifier(n)) => assert_eq!(n, "height"),
        _ => panic!("Expected Return"),
    }
}

#[test]
fn keywords_win_over_identifiers_only_on_whole_words() {
    let tokens = tokenize("func funcs u32 u32x string let-it").unwrap();
    assert_eq!(
        tokens,
        vec![
            Token::KwFunc,
            Token::Identifier("funcs".to_string()),
            Token::TypeU32,
            Token::Identifier("u32x".to_string()),
            Token::TypeString,
            Token::Identifier("let-it".to_string()),
        ]
    );
}

#[test]
fn longest_match_for_arrow_and_hyphen() {
    assert_eq!(tokenize("->").unwrap(), vec![Token::Arrow]);
    assert_eq!(tokenize("- >").unwrap(), vec![Token::Minus, Token::Greater]);
    // A hyphen continues an identifier, so `a->b` is `a-`, `>`, `b`.
    assert_eq!(
        tokenize("a->b").unwrap(),
        vec![
            Token::Identifier("a-".to_string()),
            Token::Greater,
            Token::Identifier("b".to_string()),
        ]
    );
}

#[test]
fn comments() {
    // Line comments are skipped up to the end of the line.
    assert_eq!(tokenize("// hi\nlet").unwrap(), vec![Token::KwLet]);
    // Block comments nest and yield one comment token.
    assert_eq!(
        tokenize("/* a /* b */ c */ let").unwrap(),
        vec![Token::_Comment, Token::KwLet]
    );
    // An unclosed block comment is an error at its start.
    assert_eq!(tokenize("let /* a /* b */"), Err(LexError { position: 4 }));
    assert_eq!(tokenize("/"), Ok(vec![Token::Div]));
}

#[test]
fn numbers_and_errors() {
    assert_eq!(tokenize("007 12ab").unwrap(), vec![
        Token::Number(7),
        Token::Number(12),
        Token::Identifier("ab".to_string()),
    ]);
    assert_eq!(tokenize("18446744073709551615").unwrap(), vec![Token::Number(u64::MAX)]);
    assert_eq!(tokenize("x 18446744073709551616"), Err(LexError { position: 2 }));
    assert_eq!(tokenize("a # b"), Err(LexError { position: 2 }));
    assert_eq!(tokenize(" \t\r\n"), Ok(vec![]));
}

#[test]
fn parse_type_alternatives() {
    let toks = vec![Token::TypeU32, Token::Comma];
    let (rest, ty) = parse_type(&toks).unwrap();
    assert!(matches!(ty, Type::U32));
    assert_eq!(rest, &[Token::Comma]);
    let toks = vec![Token::Identifier("vec3".to_string())];
    match parse_type(&toks).unwrap().1 {
        Type::Custom(s) => assert_eq!(s, "vec3"),
        _ => panic!("Expected Custom"),
    }
    let toks = vec![Token::TypeBool];
    assert_eq!(parse_type(&toks).err(), Some(ParseError { offset: 0, kind: ErrorKind::Alt }));
    assert_eq!(parse_type(&[]).err(), Some(ParseError { offset: 0, kind: ErrorKind::Alt }));
}

#[test]
fn parse_function_errors() {
    // Missing `func`.
    let toks = tokenize("fn f() -> u32 {}").unwrap();
    assert_eq!(parse_function(&toks).err(), Some(ParseError { offset: 0, kind: ErrorKind::Tag }));
    // A trailing comma in the parameter list is left unconsumed; `)` is then expected there.
    let toks = tokenize("func f(a: u32,) -> u32 {}").unwrap();
    assert_eq!(parse_function(&toks).err(), Some(ParseError { offset: 6, kind: ErrorKind::Tag }));
    // A broken statement ends the body; `}` is then expected where it starts.
    let toks = tokenize("func f() -> u32 { let x: u32 = ; }").unwrap();
    assert_eq!(parse_function(&toks).err(), Some(ParseError { offset: 7, kind: ErrorKind::Tag }));
    // Parameters, several, and a custom return type; trailing tokens are returned.
    let toks = tokenize("func g(a: u32, b: string) -> thing { return 5; } extra").unwrap();
    let (rest, f) = parse_function(&toks).unwrap();
    assert_eq!(rest, &[Token::Identifier("extra".to_string())]);
    assert_eq!(f.params.len(), 2);
    assert!(matches!(f.params[1].ty, Type::String));
    assert!(matches!(&f.ret_type, Type::Custom(s) if s == "thing"));
    assert!(matches!(f.body[0], Statement::Return(Expression::Number(5))));
}
