use front_end::lexer::{tokenize, LexError, Lexeme, Lexer, Token};

fn kinds(source: &str) -> Vec<Result<Token, LexError>> {
    tokenize(source.as_bytes()).into_iter().map(|l| l.kind).collect()
}

fn tokens(source: &str) -> Vec<Token> {
    kinds(source).into_iter().collect::<Result<_, _>>().unwrap()
}

#[test]
fn test_keywords() {
    let mut lex = Token::lexer(
        "var fn const struct enum union if else while for loop match
 mod return panic",
    );
    assert_eq!(lex.next(), Some(Ok(Token::Var)));
    assert_eq!(lex.next(), Some(Ok(Token::Fn)));
    assert_eq!(lex.next(), Some(Ok(Token::Const)));
    assert_eq!(lex.next(), Some(Ok(Token::Struct)));
    assert_eq!(lex.next(), Some(Ok(Token::Enum)));
    assert_eq!(lex.next(), Some(Ok(Token::Union)));
    assert_eq!(lex.next(), Some(Ok(Token::If)));
    assert_eq!(lex.next(), Some(Ok(Token::Else)));
    assert_eq!(lex.next(), Some(Ok(Token::While)));
    assert_eq!(lex.next(), Some(Ok(Token::For)));
    assert_eq!(lex.next(), Some(Ok(Token::Loop)));
    assert_eq!(lex.next(), Some(Ok(Token::Match)));
    assert_eq!(lex.next(), Some(Ok(Token::Mod)));
    assert_eq!(lex.next(), Some(Ok(Token::Return)));
    assert_eq!(lex.next(), Some(Ok(Token::Panic)));
}

#[test]
fn test_types() {
    let mut lex = Token::lexer("i32 f64 bool char str");
    assert_eq!(lex.next(), Some(Ok(Token::I32)));
    assert_eq!(lex.next(), Some(Ok(Token::F64)));
    assert_eq!(lex.next(), Some(Ok(Token::Bool)));
    assert_eq!(lex.next(), Some(Ok(Token::Char)));
    assert_eq!(lex.next(), Some(Ok(Token::Str)));
}

#[test]
fn test_literals() {
    let mut lex = Token::lexer(r#"42 3.14 "hello" 'c' true false"#);
    assert_eq!(lex.next(), Some(Ok(Token::IntegerLiteral)));
    assert_eq!(lex.next(), Some(Ok(Token::FloatLiteral)));
    assert_eq!(lex.next(), Some(Ok(Token::StringLiteral)));
    assert_eq!(lex.next(), Some(Ok(Token::CharLiteral)));
    assert_eq!(lex.next(), Some(Ok(Token::True)));
    assert_eq!(lex.next(), Some(Ok(Token::False)));
}

#[test]
fn test_identifiers() {
    let mut lex = Token::lexer("variable_name _test test123");
    assert_eq!(lex.next(), Some(Ok(Token::Identifier)));
    assert_eq!(lex.next(), Some(Ok(Token::Identifier)));
    assert_eq!(lex.next(), Some(Ok(Token::Identifier)));
}

#[test]
fn test_operators() {
    let mut lex = Token::lexer(
        "+ - * / % = == != < <= > 
>= && || ! & | ^ ~ << >>",
    );
    assert_eq!(lex.next(), Some(Ok(Token::Plus)));
    assert_eq!(lex.next(), Some(Ok(Token::Minus)));
    assert_eq!(lex.next(), Some(Ok(Token::Star)));
    assert_eq!(lex.next(), Some(Ok(Token::Slash)));
    assert_eq!(lex.next(), Some(Ok(Token::Percent)));
    assert_eq!(lex.next(), Some(Ok(Token::Assign)));
    assert_eq!(lex.next(), Some(Ok(Token::Eq)));
    assert_eq!(lex.next(), Some(Ok(Token::NotEq)));
    assert_eq!(lex.next(), Some(Ok(Token::Lt)));
    assert_eq!(lex.next(), Some(Ok(Token::LtEq)));
    assert_eq!(lex.next(), Some(Ok(Token::Gt)));
    assert_eq!(lex.next(), Some(Ok(Token::GtEq)));
    assert_eq!(lex.next(), Some(Ok(Token::And)));
    assert_eq!(lex.next(), Some(Ok(Token::Or)));
    assert_eq!(lex.next(), Some(Ok(Token::Not)));
    assert_eq!(lex.next(), Some(Ok(Token::BitAnd)));
    assert_eq!(lex.next(), Some(Ok(Token::BitOr)));
    assert_eq!(lex.next(), Some(Ok(Token::BitXor)));
    assert_eq!(lex.next(), Some(Ok(Token::BitNot)));
    assert_eq!(lex.next(), Some(Ok(Token::Shl)));
    assert_eq!(lex.next(), Some(Ok(Token::Shr)));
}

#[test]
fn test_delimiters() {
    let mut lex = Token::lexer("( ) { } [ ] ; : , . ->");
    assert_eq!(lex.next(), Some(Ok(Token::LParen)));
    assert_eq!(lex.next(), Some(Ok(Token::RParen)));
    assert_eq!(lex.next(), Some(Ok(Token::LBrace)));
    assert_eq!(lex.next(), Some(Ok(Token::RBrace)));
    assert_eq!(lex.next(), Some(Ok(Token::LBracket)));
    assert_eq!(lex.next(), Some(Ok(Token::RBracket)));
    assert_eq!(lex.next(), Some(Ok(Token::Semicolon)));
    assert_eq!(lex.next(), Some(Ok(Token::Colon)));
    assert_eq!(lex.next(), Some(Ok(Token::Comma)));
    assert_eq!(lex.next(), Some(Ok(Token::Dot)));
    assert_eq!(lex.next(), Some(Ok(Token::Arrow)));
}

#[test]
fn test_comments() {
    let mut lex = Token::lexer(
        "// This is a single line comment\n/* This is 
a\nmultiline comment */",
    );
    assert_eq!(lex.next(), Some(Ok(Token::SingleLineComment)));
    assert_eq!(lex.next(), Some(Ok(Token::MultiLineComment)));
}

#[test]
fn test_attributes_and_macros() {
    let mut lex = Token::lexer("#[inline] @macro_call");
    assert_eq!(lex.next(), Some(Ok(Token::Attribute)));
    assert_eq!(lex.next(), Some(Ok(Token::MacroInvoke)));
    assert_eq!(lex.next(), Some(Ok(Token::Identifier)));
}

#[test]
fn test_complex_code() {
    let code = r#"
fn main() -> i32 {
    var mut count: i32 = 0;
    // Count up to 10
    while count < 10 {
        count = count + 1;
    }
    return count;
}
"#;
    let tokens: Vec<Token> = tokens(code);

    println!("hi!");
    println!("{:?}", tokens);

    assert!(!tokens.is_empty());

    assert!(tokens.contains(&Token::Fn));
    assert!(tokens.contains(&Token::LBrace));
    assert!(tokens.contains(&Token::RBrace));
    assert!(tokens.contains(&Token::I32));
    assert!(tokens.contains(&Token::Return));
}

#[test]
fn all_keywords_in_order() {
    let got = tokens(
        "var mut fn const struct enum union if else while for loop match mod return panic",
    );
    assert_eq!(
        got,
        vec![
            Token::Var,
            Token::Mut,
            Token::Fn,
            Token::Const,
            Token::Struct,
            Token::Enum,
            Token::Union,
            Token::If,
            Token::Else,
            Token::While,
            Token::For,
            Token::Loop,
            Token::Match,
            Token::Mod,
            Token::Return,
            Token::Panic,
        ]
    );
}

#[test]
fn all_type_names() {
    let got = tokens("i8 i16 i32 i64 i128 u8 u16 u32 u64 u128 f32 f64 isize usize bool char str");
    assert_eq!(
        got,
        vec![
            Token::I8,
            Token::I16,
            Token::I32,
            Token::I64,
            Token::I128,
            Token::U8,
            Token::U16,
            Token::U32,
            Token::U64,
            Token::U128,
            Token::F32,
            Token::F64,
            Token::Isize,
            Token::Usize,
            Token::Bool,
            Token::Char,
            Token::Str,
        ]
    );
}

#[test]
fn keyword_prefix_is_one_identifier() {
    assert_eq!(tokens("ifx"), vec![Token::Identifier]);
    assert_eq!(tokens("if"), vec![Token::If]);
    assert_eq!(tokens("i"), vec![Token::Identifier]);
    assert_eq!(tokens("i3"), vec![Token::Identifier]);
    assert_eq!(tokens("i32x"), vec![Token::Identifier]);
    assert_eq!(tokens("truee falsey structs"), vec![Token::Identifier; 3]);
    let all = tokenize(b"ifx");
    assert_eq!(all, vec![Lexeme { kind: Ok(Token::Identifier), start: 0, end: 3 }]);
}

#[test]
fn two_byte_operators_are_one_token() {
    assert_eq!(tokens("<="), vec![Token::LtEq]);
    assert_eq!(tokens("< ="), vec![Token::Lt, Token::Assign]);
    assert_eq!(tokens("==="), vec![Token::Eq, Token::Assign]);
    assert_eq!(tokens("<<="), vec![Token::Shl, Token::Assign]);
    assert_eq!(tokens("->>"), vec![Token::Arrow, Token::Gt]);
    assert_eq!(tokens("&&&"), vec![Token::And, Token::BitAnd]);
    assert_eq!(tokens("|||"), vec![Token::Or, Token::BitOr]);
    assert_eq!(tokens("!=="), vec![Token::NotEq, Token::Assign]);
    assert_eq!(tokens(">>="), vec![Token::Shr, Token::Assign]);
}

#[test]
fn literal_kinds_in_order() {
    assert_eq!(
        tokens(r#"42 3.14 "hello" 'c' true false"#),
        vec![
            Token::IntegerLiteral,
            Token::FloatLiteral,
            Token::StringLiteral,
            Token::CharLiteral,
            Token::True,
            Token::False,
        ]
    );
}

#[test]
fn float_needs_digits_on_both_sides() {
    assert_eq!(tokens("1."), vec![Token::IntegerLiteral, Token::Dot]);
    assert_eq!(tokens(".5"), vec![Token::Dot, Token::IntegerLiteral]);
    assert_eq!(
        tokens("1.2.3"),
        vec![Token::FloatLiteral, Token::Dot, Token::IntegerLiteral]
    );
    assert_eq!(tokens("1.x"), vec![Token::IntegerLiteral, Token::Dot, Token::Identifier]);
    assert_eq!(tokens("12abc"), vec![Token::IntegerLiteral, Token::Identifier]);
    assert_eq!(
        tokenize(b"10.25"),
        vec![Lexeme { kind: Ok(Token::FloatLiteral), start: 0, end: 5 }]
    );
}

#[test]
fn line_then_block_comment() {
    assert_eq!(
        tokens("// line\n/* a\nb */"),
        vec![Token::SingleLineComment, Token::MultiLineComment]
    );
}

#[test]
fn block_comment_ends_at_first_close() {
    assert_eq!(
        tokenize(b"/* a * / b */ c */"),
        vec![
            Lexeme { kind: Ok(Token::MultiLineComment), start: 0, end: 13 },
            Lexeme { kind: Ok(Token::Identifier), start: 14, end: 15 },
            Lexeme { kind: Ok(Token::Star), start: 16, end: 17 },
            Lexeme { kind: Ok(Token::Slash), start: 17, end: 18 },
        ]
    );
    assert_eq!(tokens("/**/"), vec![Token::MultiLineComment]);
    assert_eq!(tokens("/***/"), vec![Token::MultiLineComment]);
    assert_eq!(tokens("/* x **/ y"), vec![Token::MultiLineComment, Token::Identifier]);
    assert_eq!(tokens("/*/"), vec![Token::Slash, Token::Star, Token::Slash]);
    assert_eq!(tokens("/* open"), vec![Token::Slash, Token::Star, Token::Identifier]);
}

#[test]
fn line_comment_stops_before_newline() {
    assert_eq!(
        tokenize(b"// a\nb"),
        vec![
            Lexeme { kind: Ok(Token::SingleLineComment), start: 0, end: 4 },
            Lexeme { kind: Ok(Token::Identifier), start: 5, end: 6 },
        ]
    );
    assert_eq!(tokens("//"), vec![Token::SingleLineComment]);
}

#[test]
fn strings_attributes_and_chars() {
    assert_eq!(
        tokenize(b"\"a b\"x"),
        vec![
            Lexeme { kind: Ok(Token::StringLiteral), start: 0, end: 5 },
            Lexeme { kind: Ok(Token::Identifier), start: 5, end: 6 },
        ]
    );
    assert_eq!(tokens("\"\""), vec![Token::StringLiteral]);
    assert_eq!(tokens("\"line\nbreak\""), vec![Token::StringLiteral]);
    assert_eq!(tokens("#[]"), vec![Token::Attribute]);
    assert_eq!(tokens("#[derive(Debug)]"), vec![Token::Attribute]);
    assert_eq!(tokens("'x'"), vec![Token::CharLiteral]);
    assert_eq!(
        tokenize("'é'".as_bytes()),
        vec![Lexeme { kind: Ok(Token::CharLiteral), start: 0, end: 4 }]
    );
    assert_eq!(
        tokenize("'😀'".as_bytes()),
        vec![Lexeme { kind: Ok(Token::CharLiteral), start: 0, end: 6 }]
    );
}

#[test]
fn unrecognised_input_is_reported_and_skipped() {
    assert_eq!(
        tokenize(b"a $ b"),
        vec![
            Lexeme { kind: Ok(Token::Identifier), start: 0, end: 1 },
            Lexeme { kind: Err(LexError { start: 2, end: 3 }), start: 2, end: 3 },
            Lexeme { kind: Ok(Token::Identifier), start: 4, end: 5 },
        ]
    );
    // one code point is skipped, of however many bytes
    assert_eq!(
        tokenize("é1".as_bytes()),
        vec![
            Lexeme { kind: Err(LexError { start: 0, end: 2 }), start: 0, end: 2 },
            Lexeme { kind: Ok(Token::IntegerLiteral), start: 2, end: 3 },
        ]
    );
    // several errors in one pass
    let got = kinds("$ ? `");
    assert_eq!(got.len(), 3);
    assert!(got.iter().all(|k| k.is_err()));
    // a quote, an apostrophe or `#` that opens nothing
    assert_eq!(
        kinds("\"abc"),
        vec![Err(LexError { start: 0, end: 1 }), Ok(Token::Identifier)]
    );
    assert_eq!(
        kinds("''"),
        vec![Err(LexError { start: 0, end: 1 }), Err(LexError { start: 1, end: 2 })]
    );
    assert_eq!(
        kinds("'ab'"),
        vec![
            Err(LexError { start: 0, end: 1 }),
            Ok(Token::Identifier),
            Err(LexError { start: 3, end: 4 }),
        ]
    );
    assert_eq!(kinds("#x"), vec![Err(LexError { start: 0, end: 1 }), Ok(Token::Identifier)]);
    assert_eq!(
        kinds("#[x"),
        vec![Err(LexError { start: 0, end: 1 }), Ok(Token::LBracket), Ok(Token::Identifier)]
    );
    // a carriage return is no whitespace
    assert_eq!(kinds("\r"), vec![Err(LexError { start: 0, end: 1 })]);
}

#[test]
fn whitespace_is_skipped() {
    assert_eq!(tokenize(b""), vec![]);
    assert_eq!(tokenize(b" \t\n\x0c "), vec![]);
    assert_eq!(
        tokenize(b"\t a\n"),
        vec![Lexeme { kind: Ok(Token::Identifier), start: 2, end: 3 }]
    );
}

#[test]
fn spans_and_gaps_cover_the_input() {
    let source = "fn f(x: i32) -> i32 { /* c */ x + 1.5 $ \"s\" } // end";
    let bytes = source.as_bytes();
    let all = tokenize(bytes);
    let mut rebuilt: Vec<u8> = Vec::new();
    let mut at = 0;
    for l in &all {
        assert!(at <= l.start && l.start < l.end && l.end <= bytes.len());
        assert!(bytes[at..l.start].iter().all(|b| b" \t\n\x0c".contains(b)));
        rebuilt.extend_from_slice(&bytes[at..l.start]);
        rebuilt.extend_from_slice(&bytes[l.start..l.end]);
        at = l.end;
    }
    assert!(bytes[at..].iter().all(|b| b" \t\n\x0c".contains(b)));
    rebuilt.extend_from_slice(&bytes[at..]);
    assert_eq!(rebuilt, bytes);
}

#[test]
fn cursor_reports_spans_and_end_of_input() {
    let mut lex = Lexer::new(b"  ab <= 7");
    assert_eq!(lex.span(), (0, 0));
    assert_eq!(lex.next(), Some(Ok(Token::Identifier)));
    assert_eq!(lex.span(), (2, 4));
    assert_eq!(lex.next(), Some(Ok(Token::LtEq)));
    assert_eq!(lex.span(), (5, 7));
    assert_eq!(lex.next(), Some(Ok(Token::IntegerLiteral)));
    assert_eq!(lex.span(), (8, 9));
    assert_eq!(lex.next(), None);
    assert_eq!(lex.next(), None);
    assert_eq!(lex.span(), (9, 9));
}

#[test]
fn token_text() {
    assert_eq!(Token::Var.render(), "Var");
    assert_eq!(Token::I32.render(), "I32");
    assert_eq!(Token::True.render(), "True");
    assert_eq!(Token::IntegerLiteral.render(), "IntegerLiteral");
    assert_eq!(Token::Identifier.render(), "Identifier");
    assert_eq!(Token::LtEq.render(), "<=");
    assert_eq!(Token::Arrow.render(), "->");
    assert_eq!(Token::MacroInvoke.render(), "@");
    assert_eq!(Token::MultiLineComment.render(), "MultiLineComment");
    assert_eq!(Token::Attribute.name(), "Attribute");
}
