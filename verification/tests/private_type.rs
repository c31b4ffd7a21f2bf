use std::num::ParseIntError;
use std::str::ParseBoolError;

use polyerror::create_error;
use polyerror::token::Token;

// The declarations below mirror what the generator emits for the
// specification `PrivateError: ParseBoolError, ParseIntError`, which has
// no visibility marker; `private_emitted_text` checks that.

#[derive(Debug)]
enum PrivateError {
    ParseBoolError(ParseBoolError),
    ParseIntError(ParseIntError),
}
impl ::std::fmt::Display for PrivateError {
    fn fmt(&self, f: &mut ::std::fmt::Formatter<'_>) -> ::std::fmt::Result {
        f.write_str(&format!("{:?}", self))
    }
}
impl ::std::error::Error for PrivateError {}
impl ::std::convert::From<ParseBoolError> for PrivateError {
    fn from(error: ParseBoolError) -> Self {
        Self::ParseBoolError(error)
    }
}
impl ::std::convert::From<ParseIntError> for PrivateError {
    fn from(error: ParseIntError) -> Self {
        Self::ParseIntError(error)
    }
}

fn parse_then_combine(a: &str, b: &str) -> Result<String, PrivateError> {
    let parsed_bool: bool = a.parse()?;
    let parsed_int: i32 = b.parse()?;
    Ok(format!("{} {}", parsed_bool, parsed_int))
}

#[test]
fn private_emitted_text() {
    let tokens = vec![
        Token::Ident(String::from("PrivateError")),
        Token::Colon,
        Token::Ident(String::from("ParseBoolError")),
        Token::Comma,
        Token::Ident(String::from("ParseIntError")),
    ];
    let out = create_error(&tokens).expect("specification parses");
    assert!(out.starts_with("#[derive(::std::fmt::Debug)]\nenum PrivateError {\n"));
}

#[test]
fn test_private_type_compiles() {
    let result = parse_then_combine("false", "THis string isn't an integer.");
    match &result {
        Ok(_) => panic!("Result was okay: {:?}", result),
        Err(PrivateError::ParseBoolError(_)) => panic!(
            "Result's error type is incorrect, expected integer: {:?}",
            result
        ),
        Err(PrivateError::ParseIntError(_)) => {} // Expected Okay
    }

    let result = parse_then_combine("This string isn't a boolean.", "52");
    match &result {
        Ok(_) => panic!("Result was okay: {:?}", result),
        Err(PrivateError::ParseBoolError(_)) => {} // Okay
        Err(PrivateError::ParseIntError(_)) => panic!(
            "Result's error type is incorrect, expected bool: {:?}",
            result
        ),
    }
}
