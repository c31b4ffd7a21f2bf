use std::num::ParseIntError;
use std::str::ParseBoolError;

use polyerror::create_error;
use polyerror::token::Token;

// The declarations below mirror what the generator emits for the
// specification `pub ParseThenCombineError: ParseBoolError, ParseIntError`;
// `emitted_text_matches` checks that character for character.

#[derive(Debug)]
pub enum ParseThenCombineError {
    ParseBoolError(ParseBoolError),
    ParseIntError(ParseIntError),
}
impl ::std::fmt::Display for ParseThenCombineError {
    fn fmt(&self, f: &mut ::std::fmt::Formatter<'_>) -> ::std::fmt::Result {
        f.write_str(&format!("{:?}", self))
    }
}
impl ::std::error::Error for ParseThenCombineError {}
impl ::std::convert::From<ParseBoolError> for ParseThenCombineError {
    fn from(error: ParseBoolError) -> Self {
        Self::ParseBoolError(error)
    }
}
impl ::std::convert::From<ParseIntError> for ParseThenCombineError {
    fn from(error: ParseIntError) -> Self {
        Self::ParseIntError(error)
    }
}

pub fn parse_then_combine(a: &str, b: &str) -> Result<String, ParseThenCombineError> {
    let parsed_bool: bool = a.parse()?;
    let parsed_int: i32 = b.parse()?;
    Ok(format!("{} {}", parsed_bool, parsed_int))
}

fn ident(s: &str) -> Token {
    Token::Ident(String::from(s))
}

#[test]
fn emitted_text_matches() {
    let tokens = vec![
        Token::KwPub,
        ident("ParseThenCombineError"),
        Token::Colon,
        ident("ParseBoolError"),
        Token::Comma,
        ident("ParseIntError"),
    ];
    let out = create_error(&tokens).expect("specification parses");
    let expected = String::new()
        + "#[derive(::std::fmt::Debug)]\n"
        + "pub enum ParseThenCombineError {\n"
        + "    ParseBoolError(ParseBoolError),\n"
        + "    ParseIntError(ParseIntError),\n"
        + "}\n"
        + "impl ::std::fmt::Display for ParseThenCombineError {\n"
        + "    fn fmt(&self, f: &mut ::std::fmt::Formatter<'_>) -> ::std::fmt::Result {\n"
        + "        write!(f, \"{:?}\", self)\n"
        + "    }\n"
        + "}\n"
        + "impl ::std::error::Error for ParseThenCombineError {}\n"
        + "impl ::std::convert::From<ParseBoolError> for ParseThenCombineError {\n"
        + "    fn from(error: ParseBoolError) -> Self {\n"
        + "        Self::ParseBoolError(error)\n"
        + "    }\n"
        + "}\n"
        + "impl ::std::convert::From<ParseIntError> for ParseThenCombineError {\n"
        + "    fn from(error: ParseIntError) -> Self {\n"
        + "        Self::ParseIntError(error)\n"
        + "    }\n"
        + "}\n";
    assert_eq!(out, expected);
}

#[test]
fn test_succeeds() {
    assert_eq!(
        parse_then_combine("true", "52").expect("Result didn't return Ok"),
        String::from("true 52")
    );
}

#[test]
fn test_malformed_bool() {
    let result = parse_then_combine("This string isn't a boolean.", "52");
    match &result {
        Ok(_) => panic!("Result was okay: {:?}", result),
        Err(ParseThenCombineError::ParseBoolError(_)) => {} // Okay
        Err(ParseThenCombineError::ParseIntError(_)) => panic!(
            "Result's error type is incorrect, expected bool: {:?}",
            result
        ),
    }
}

#[test]
fn test_malformed_int() {
    let result = parse_then_combine("false", "THis string isn't an integer.");
    match &result {
        Ok(_) => panic!("Result was okay: {:?}", result),
        Err(ParseThenCombineError::ParseBoolError(_)) => panic!(
            "Result's error type is incorrect, expected integer: {:?}",
            result
        ),
        Err(ParseThenCombineError::ParseIntError(_)) => {} // Expected Okay
    }
}

#[test]
fn display_equals_debug() {
    let err: ParseThenCombineError = "not a bool".parse::<bool>().unwrap_err().into();
    assert_eq!(format!("{}", err), format!("{:?}", err));
    let err: ParseThenCombineError = "not an int".parse::<i32>().unwrap_err().into();
    assert_eq!(format!("{}", err), format!("{:?}", err));
}

#[test]
fn propagation_tags_the_right_variant() {
    let bool_failure = parse_then_combine("no", "52").unwrap_err();
    assert!(matches!(
        bool_failure,
        ParseThenCombineError::ParseBoolError(_)
    ));
    let int_failure = parse_then_combine("false", "no").unwrap_err();
    assert!(matches!(int_failure, ParseThenCombineError::ParseIntError(_)));
}

#[test]
fn round_trip_exposes_the_value_unchanged() {
    let original = "x".parse::<i32>().unwrap_err();
    let wrapped = ParseThenCombineError::from(original.clone());
    match wrapped {
        ParseThenCombineError::ParseIntError(e) => assert_eq!(e, original),
        ParseThenCombineError::ParseBoolError(_) => panic!("wrong variant"),
    }
}
