use polyerror::create_error;
use polyerror::token::Token;

fn ident(s: &str) -> Token {
    Token::Ident(String::from(s))
}

#[test]
fn test_pub_crate_type_compiles() {
    // `pub(crate) PubCrate: MyError1, MyError2`: the qualified visibility
    // is copied verbatim onto the generated type.
    let tokens = vec![
        Token::KwPub,
        Token::OpenParen,
        ident("crate"),
        Token::CloseParen,
        ident("PubCrate"),
        Token::Colon,
        ident("MyError1"),
        Token::Comma,
        ident("MyError2"),
    ];
    let out = create_error(&tokens).expect("specification parses");
    assert!(out.starts_with(
        "#[derive(::std::fmt::Debug)]\npub(crate) enum PubCrate {\n    MyError1(MyError1),\n    MyError2(MyError2),\n}\n"
    ));
    assert!(out.contains("impl ::std::convert::From<MyError1> for PubCrate {"));
    assert!(out.contains("impl ::std::convert::From<MyError2> for PubCrate {"));
}

#[test]
fn test_names_valid() {
    // `MyError: std::str::ParseBoolError, aa::bb::cc::ABC`: the derived
    // names are exactly StdStrParseBoolError and AaBbCcAbc, and each
    // payload type is re-emitted verbatim.
    let tokens = vec![
        ident("MyError"),
        Token::Colon,
        ident("std"),
        Token::PathSep,
        ident("str"),
        Token::PathSep,
        ident("ParseBoolError"),
        Token::Comma,
        ident("aa"),
        Token::PathSep,
        ident("bb"),
        Token::PathSep,
        ident("cc"),
        Token::PathSep,
        ident("ABC"),
    ];
    let out = create_error(&tokens).expect("specification parses");
    assert!(out.starts_with(
        "#[derive(::std::fmt::Debug)]\nenum MyError {\n    StdStrParseBoolError(std::str::ParseBoolError),\n    AaBbCcAbc(aa::bb::cc::ABC),\n}\n"
    ));
    assert!(out.contains("        Self::StdStrParseBoolError(error)\n"));
    assert!(out.contains("        Self::AaBbCcAbc(error)\n"));
}

#[test]
fn trailing_comma_is_accepted() {
    let with_comma = vec![
        ident("E"),
        Token::Colon,
        ident("A"),
        Token::Comma,
        ident("B"),
        Token::Comma,
    ];
    let without_comma = vec![
        ident("E"),
        Token::Colon,
        ident("A"),
        Token::Comma,
        ident("B"),
    ];
    let a = create_error(&with_comma).expect("specification parses");
    let b = create_error(&without_comma).expect("specification parses");
    assert_eq!(a, b);
}
