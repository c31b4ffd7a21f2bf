use polyerror::create_error;
use polyerror::token::Token;

#[derive(Debug)]
struct MyError(i32);

// The declarations below mirror what the generator emits for the
// specification `OneVariantError: MyError`; `single_variant_emitted_text`
// checks that.

#[derive(Debug)]
enum OneVariantError {
    MyError(MyError),
}
impl ::std::fmt::Display for OneVariantError {
    fn fmt(&self, f: &mut ::std::fmt::Formatter<'_>) -> ::std::fmt::Result {
        f.write_str(&format!("{:?}", self))
    }
}
impl ::std::error::Error for OneVariantError {}
impl ::std::convert::From<MyError> for OneVariantError {
    fn from(error: MyError) -> Self {
        Self::MyError(error)
    }
}

fn parse_one_variant(a: &str) -> Result<String, OneVariantError> {
    let parsed_bool: bool = a.parse().map_err(|_| MyError(5))?;
    Ok(format!("{}", parsed_bool))
}

#[test]
fn single_variant_emitted_text() {
    let tokens = vec![
        Token::Ident(String::from("OneVariantError")),
        Token::Colon,
        Token::Ident(String::from("MyError")),
    ];
    let out = create_error(&tokens).expect("specification parses");
    let expected = String::new()
        + "#[derive(::std::fmt::Debug)]\n"
        + "enum OneVariantError {\n"
        + "    MyError(MyError),\n"
        + "}\n"
        + "impl ::std::fmt::Display for OneVariantError {\n"
        + "    fn fmt(&self, f: &mut ::std::fmt::Formatter<'_>) -> ::std::fmt::Result {\n"
        + "        write!(f, \"{:?}\", self)\n"
        + "    }\n"
        + "}\n"
        + "impl ::std::error::Error for OneVariantError {}\n"
        + "impl ::std::convert::From<MyError> for OneVariantError {\n"
        + "    fn from(error: MyError) -> Self {\n"
        + "        Self::MyError(error)\n"
        + "    }\n"
        + "}\n";
    assert_eq!(out, expected);
}

#[test]
fn test_single_error_type_compiles() {
    match parse_one_variant("true") {
        Ok(s) => assert_eq!("true", &s),
        Err(_) => panic!("Should be Ok"),
    }

    match parse_one_variant("sdfsdf") {
        Ok(_) => panic!("Should fail"),
        Err(OneVariantError::MyError(MyError(v))) => assert_eq!(v, 5),
    }
}
