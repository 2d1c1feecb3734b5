use struct_display::args::{ArgsError, DisplayArgs, Parser};
use struct_display::displayer::display;
use struct_display::fields::{Fields, StructFields};
use struct_display::text::{parse_u32, positional_field_name, same_text};
use struct_display::token::{Delimiter, LitKind, Token};

/// Splits `src` into tokens; spans are numbered from 1 in order.
fn lex(src: &str) -> Vec<Token> {
    let chars: Vec<char> = src.chars().collect();
    let mut out = Vec::new();
    let mut i = 0;
    let mut span = 1;
    while i < chars.len() {
        let c = chars[i];
        if c.is_whitespace() {
            i += 1;
            continue;
        }
        let start = i;
        if c.is_ascii_alphabetic() || c == '_' {
            while i < chars.len() && (chars[i].is_ascii_alphanumeric() || chars[i] == '_') {
                i += 1;
            }
            let name: String = chars[start..i].iter().collect();
            out.push(Token::ident(&name, span));
        } else if c.is_ascii_digit() {
            while i < chars.len() && chars[i].is_ascii_digit() {
                i += 1;
            }
            let digits: String = chars[start..i].iter().collect();
            let suffix_start = i;
            while i < chars.len() && chars[i].is_ascii_alphanumeric() {
                i += 1;
            }
            let suffix: String = chars[suffix_start..i].iter().collect();
            let text: String = chars[start..i].iter().collect();
            out.push(Token::int_literal(&text, &digits, &suffix, span));
        } else if c == '"' {
            i += 1;
            while chars[i] != '"' {
                if chars[i] == '\\' {
                    i += 1;
                }
                i += 1;
            }
            i += 1;
            let text: String = chars[start..i].iter().collect();
            out.push(Token::str_literal(&text, span));
        } else if let Some(d) = open_delim(c) {
            out.push(Token::open(d, span));
            i += 1;
        } else if let Some(d) = close_delim(c) {
            out.push(Token::close(d));
            i += 1;
        } else {
            i += 1;
            let joint = i < chars.len()
                && chars[i].is_ascii_punctuation()
                && open_delim(chars[i]).is_none()
                && close_delim(chars[i]).is_none()
                && chars[i] != '"'
                && chars[i] != '_';
            out.push(Token::punct(c, joint, span));
        }
        span += 1;
    }
    out
}

fn open_delim(c: char) -> Option<Delimiter> {
    match c {
        '(' => Some(Delimiter::Parenthesis),
        '{' => Some(Delimiter::Brace),
        '[' => Some(Delimiter::Bracket),
        _ => None,
    }
}

fn close_delim(c: char) -> Option<Delimiter> {
    match c {
        ')' => Some(Delimiter::Parenthesis),
        '}' => Some(Delimiter::Brace),
        ']' => Some(Delimiter::Bracket),
        _ => None,
    }
}

/// The tokens written out, separated by single spaces.
fn text(tokens: &[Token]) -> String {
    let parts: Vec<String> = tokens
        .iter()
        .map(|t| match t {
            Token::Ident { name, .. } => name.clone(),
            Token::Punct { ch, .. } => ch.to_string(),
            Token::Literal { text, .. } => text.clone(),
            Token::Open { delim: Delimiter::Parenthesis, .. } => "(".to_string(),
            Token::Open { delim: Delimiter::Brace, .. } => "{".to_string(),
            Token::Open { delim: Delimiter::Bracket, .. } => "[".to_string(),
            Token::Close { delim: Delimiter::Parenthesis } => ")".to_string(),
            Token::Close { delim: Delimiter::Brace } => "}".to_string(),
            Token::Close { delim: Delimiter::Bracket } => "]".to_string(),
        })
        .collect();
    parts.join(" ")
}

fn named(names: &[&str]) -> Fields {
    Fields::Named(names.iter().map(|n| n.to_string()).collect())
}

fn expand(args: &str, fields: Fields) -> String {
    text(&display(&lex(args), fields).unwrap())
}

const NAMED_BINDING: &str = "# [ allow ( unused_variables ) ] let Self { num , word } = self ;";
const TUPLE_BINDING: &str = "# [ allow ( unused_variables ) ] let Self ( _0 , _1 ) = self ;";

#[test]
fn test_simple() {
    assert_eq!(
        expand("\"A has number {} and word {}\", num, word", named(&["num", "word"])),
        format!("{} write ! ( __formatter , \"A has number {{}} and word {{}}\" , num , word )", NAMED_BINDING)
    );
    let (num, word) = (42, "HelloWorld");
    assert_eq!("A has number 42 and word HelloWorld", format!("A has number {} and word {}", num, word));
}

#[test]
fn test_long() {
    assert_eq!(
        expand("\"A has number {} and word {}\", self.num, self.word", named(&["num", "word"])),
        format!("{} write ! ( __formatter , \"A has number {{}} and word {{}}\" , num , word )", NAMED_BINDING)
    );
}

#[test]
fn in_format() {
    assert_eq!(
        expand("\"A has number {num} and word {word}\"", named(&["num", "word"])),
        format!("{} write ! ( __formatter , \"A has number {{num}} and word {{word}}\" )", NAMED_BINDING)
    );
    let (num, word) = (42, "HelloWorld");
    assert_eq!("A has number 42 and word HelloWorld", format!("A has number {num} and word {word}"));
}

#[test]
fn test_format_specifier() {
    assert_eq!(
        expand("\"A has number {my_num} and word {0}\", word, my_num = num", named(&["num", "word"])),
        format!(
            "{} write ! ( __formatter , \"A has number {{my_num}} and word {{0}}\" , word , my_num = num )",
            NAMED_BINDING
        )
    );
}

#[test]
fn test_debug() {
    assert_eq!(
        expand("\"A has number {:?} and word {:?}\", num, word", named(&["num", "word"])),
        format!("{} write ! ( __formatter , \"A has number {{:?}} and word {{:?}}\" , num , word )", NAMED_BINDING)
    );
    let (num, word) = (42, "HelloWorld");
    assert_eq!("A has number 42 and word \"HelloWorld\"", format!("A has number {:?} and word {:?}", num, word));
}

#[test]
fn test_debug_in_format() {
    assert_eq!(
        expand("\"A has number {num:?} and word {word:?}\"", named(&["num", "word"])),
        format!("{} write ! ( __formatter , \"A has number {{num:?}} and word {{word:?}}\" )", NAMED_BINDING)
    );
}

#[test]
fn test_generic() {
    // Generic parameters go to the impl header, not to the method body.
    assert_eq!(
        expand("\"A has number {} and word {}\", num, word", named(&["num", "word"])),
        format!("{} write ! ( __formatter , \"A has number {{}} and word {{}}\" , num , word )", NAMED_BINDING)
    );
}

#[test]
fn test_lifetime() {
    // Lifetimes go to the impl header, not to the method body.
    assert_eq!(
        expand("\"A has number {} and word {}\", num, word", named(&["num", "word"])),
        format!("{} write ! ( __formatter , \"A has number {{}} and word {{}}\" , num , word )", NAMED_BINDING)
    );
}

#[test]
fn tuple_simple() {
    assert_eq!(
        expand("\"A has number {} and word {}\", 0, 1", Fields::Unnamed(2)),
        format!("{} write ! ( __formatter , \"A has number {{}} and word {{}}\" , _0 , _1 )", TUPLE_BINDING)
    );
    let (_0, _1) = (42, "HelloWorld");
    assert_eq!("A has number 42 and word HelloWorld", format!("A has number {} and word {}", _0, _1));
}

#[test]
fn tuple_long() {
    assert_eq!(
        expand("\"A has number {} and word {}\", self.0, self.1", Fields::Unnamed(2)),
        format!("{} write ! ( __formatter , \"A has number {{}} and word {{}}\" , _0 , _1 )", TUPLE_BINDING)
    );
}

#[test]
fn tuple_format_specifier() {
    assert_eq!(
        expand("\"A has number {1} and word {0}\", 1, 0", Fields::Unnamed(2)),
        format!("{} write ! ( __formatter , \"A has number {{1}} and word {{0}}\" , _1 , _0 )", TUPLE_BINDING)
    );
    let (_0, _1) = (42, "HelloWorld");
    assert_eq!("A has number 42 and word HelloWorld", format!("A has number {1} and word {0}", _1, _0));
}

#[test]
fn tuple_debug() {
    assert_eq!(
        expand("\"A has number {:?} and word {:?}\", 0, 1", Fields::Unnamed(2)),
        format!("{} write ! ( __formatter , \"A has number {{:?}} and word {{:?}}\" , _0 , _1 )", TUPLE_BINDING)
    );
}

#[test]
fn tuple_debug_in_format() {
    assert_eq!(
        expand("\"A has number {:?} and word {:?}\", 0, 1", Fields::Unnamed(2)),
        format!("{} write ! ( __formatter , \"A has number {{:?}} and word {{:?}}\" , _0 , _1 )", TUPLE_BINDING)
    );
}

#[test]
fn tuple_generic() {
    assert_eq!(
        expand("\"A has number {} and word {}\", 0, 1", Fields::Unnamed(2)),
        format!("{} write ! ( __formatter , \"A has number {{}} and word {{}}\" , _0 , _1 )", TUPLE_BINDING)
    );
}

#[test]
fn tuple_lifetime() {
    assert_eq!(
        expand("\"A has number {} and word {}\", 0, 1", Fields::Unnamed(2)),
        format!("{} write ! ( __formatter , \"A has number {{}} and word {{}}\" , _0 , _1 )", TUPLE_BINDING)
    );
}

#[test]
fn unit() {
    assert_eq!(expand("\"This is a A.\"", Fields::Unit), "write ! ( __formatter , \"This is a A.\" )");
}

#[test]
fn missing_format_string() {
    assert_eq!(display(&lex(""), Fields::Unit), Err(ArgsError::ExpectedFormatString));
    assert_eq!(display(&lex("num, \"x\""), named(&["num"])), Err(ArgsError::ExpectedFormatString));
    assert_eq!(display(&lex("7"), Fields::Unnamed(1)), Err(ArgsError::ExpectedFormatString));
}

#[test]
fn suffixed_index() {
    // `0u8` is the third token: span 3.
    assert_eq!(display(&lex("\"{}\", 0u8"), Fields::Unnamed(1)), Err(ArgsError::SuffixedIndex { span: 3 }));
    assert_eq!(display(&lex("\"{}\", self.0u8"), Fields::Unnamed(1)), Err(ArgsError::SuffixedIndex { span: 5 }));
}

#[test]
fn index_too_large() {
    assert_eq!(
        display(&lex("\"{}\", 4294967296"), Fields::Unnamed(1)),
        Err(ArgsError::InvalidIndex { span: 3 })
    );
    assert_eq!(expand("\"{}\", 4294967295", Fields::Unit), "write ! ( __formatter , \"{}\" , 4294967295 )");
    assert_eq!(
        expand("\"{}\", 4294967295", Fields::Unnamed(1)),
        "# [ allow ( unused_variables ) ] let Self ( _0 ) = self ; write ! ( __formatter , \"{}\" , _4294967295 )"
    );
}

#[test]
fn index_with_leading_zeros() {
    assert_eq!(
        expand("\"{}\", 007", Fields::Unnamed(8)).ends_with("\"{}\" , _7 )"),
        true
    );
}

#[test]
fn integers_in_named_records_are_kept() {
    assert_eq!(
        expand("\"{}\", 0 + num", named(&["num"])),
        "# [ allow ( unused_variables ) ] let Self { num } = self ; write ! ( __formatter , \"{}\" , 0 + num )"
    );
}

#[test]
fn dot_shorthand() {
    assert_eq!(
        expand("\"{} {}\", .num, .0", named(&["num"])),
        "# [ allow ( unused_variables ) ] let Self { num } = self ; write ! ( __formatter , \"{} {}\" , num , _0 )"
    );
}

#[test]
fn member_access_after_field_is_kept() {
    assert_eq!(
        expand("\"{}\", self.num.len(), x.0", named(&["num"])),
        "# [ allow ( unused_variables ) ] let Self { num } = self ; write ! ( __formatter , \"{}\" , num . len ( ) , x . 0 )"
    );
}

#[test]
fn indices_inside_groups() {
    assert_eq!(
        expand("\"{}\", (0 + 1) * [1][0]", Fields::Unnamed(2)),
        format!("{} write ! ( __formatter , \"{{}}\" , ( _0 + _1 ) * [ _1 ] [ _0 ] )", TUPLE_BINDING)
    );
}

#[test]
fn keyed_argument_in_positional_record() {
    assert_eq!(
        expand("\"{n} {}\", n = 1, 0", Fields::Unnamed(2)),
        format!("{} write ! ( __formatter , \"{{n}} {{}}\" , n = _1 , _0 )", TUPLE_BINDING)
    );
}

#[test]
fn self_access_inside_expressions() {
    assert_eq!(
        expand("\"{:?}\", S { a: self.num }", named(&["num"])),
        "# [ allow ( unused_variables ) ] let Self { num } = self ; write ! ( __formatter , \"{:?}\" , S { a : num } )"
    );
    assert_eq!(
        expand("\"{:?}\", 0..self.1", Fields::Unnamed(2)),
        format!("{} write ! ( __formatter , \"{{:?}}\" , _0 . . _1 )", TUPLE_BINDING)
    );
}

#[test]
fn positional_names_in_decimal() {
    assert_eq!(positional_field_name(0), "_0");
    assert_eq!(positional_field_name(9), "_9");
    assert_eq!(positional_field_name(10), "_10");
    assert_eq!(positional_field_name(4096), "_4096");
}

#[test]
fn keyword_after_dot_is_kept() {
    assert_eq!(
        expand("\"{}\", .self", Fields::Unit),
        "write ! ( __formatter , \"{}\" , . self )"
    );
}

#[test]
fn expansion_is_deterministic() {
    let args = lex("\"A has number {} and word {}\", self.0, 1");
    let a = display(&args, Fields::Unnamed(2));
    let b = display(&args, Fields::Unnamed(2));
    assert_eq!(a, b);
}

#[test]
fn unit_record_has_no_binding() {
    let body = display(&lex("\"This is a A.\""), Fields::Unit).unwrap();
    assert!(!body.iter().any(|t| matches!(t, Token::Ident { name, .. } if name == "let")));
    assert_eq!(body[5], Token::str_literal("\"This is a A.\"", 1));
}

#[test]
fn canonical_names() {
    match StructFields::from(Fields::Unnamed(12)) {
        StructFields::TupleStruct(ns) => {
            assert_eq!(ns.len(), 12);
            assert_eq!(ns[0], "_0");
            assert_eq!(ns[11], "_11");
        }
        _ => panic!("expected positional fields"),
    }
    assert!(StructFields::from(Fields::Unnamed(0)).is_tuple_struct());
    assert!(!StructFields::from(named(&["a"])).is_tuple_struct());
    assert!(!StructFields::from(Fields::Unit).is_tuple_struct());
    let mut tokens = Vec::new();
    StructFields::from(named(&["a", "b", "c"])).to_tokens(&mut tokens);
    assert_eq!(text(&tokens), "{ a , b , c }");
    let mut tokens = Vec::new();
    StructFields::from(Fields::Unit).to_tokens(&mut tokens);
    assert!(tokens.is_empty());
}

#[test]
fn parsers() {
    assert_eq!(DisplayArgs::get_parser(true), Parser::TupleStruct);
    assert_eq!(DisplayArgs::get_parser(false), Parser::Struct);
    let input = lex("\"{}\", 0");
    let named_args = DisplayArgs::parse_struct(&input).unwrap();
    assert_eq!(text(&named_args.args), ", 0");
    let tuple_args = DisplayArgs::parse_tuple_struct(&input).unwrap();
    assert_eq!(text(&tuple_args.args), ", _0");
    assert_eq!(tuple_args.fmt, Token::str_literal("\"{}\"", 1));
    assert_eq!(text(&Parser::TupleStruct.parse(&input).unwrap().args), ", _0");
}

#[test]
fn decimal_reading() {
    assert_eq!(parse_u32("0"), Some(0));
    assert_eq!(parse_u32("4294967295"), Some(4294967295));
    assert_eq!(parse_u32("4294967296"), None);
    assert_eq!(parse_u32(""), None);
    assert_eq!(parse_u32("1a"), None);
    assert!(same_text("self", "self"));
    assert!(!same_text("self", "Self"));
    assert!(Token::ident("self", 0).is_ident_named("self"));
    assert_eq!(
        Token::int_literal("1u8", "1", "u8", 4).duplicate(),
        Token::Literal {
            text: "1u8".to_string(),
            kind: LitKind::Int { digits: "1".to_string(), suffix: "u8".to_string() },
            span: 4
        }
    );
}
