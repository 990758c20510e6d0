use bytestool::expand::{bs_expand, concat_expand};
use bytestool::mesg::{build_const_mesg, send_bye, send_hello};
use bytestool::registry::{plugin_registrar, Expander, Expansion, Registry};
use bytestool::resolve::{extract_u8_from_lit, extract_vec_from_token};
use bytestool::token::{Delim, Diagnostic, ErrorKind, Expected, Found, Lit, Span, Token};

fn at(lo: u32) -> Span {
    Span { lo, hi: lo + 1 }
}

fn bstr(s: &[u8]) -> Token {
    Token::Literal(at(0), Lit::ByteStr(s.to_vec()))
}

fn lit_int(n: u64) -> Token {
    Token::Literal(at(0), Lit::Int(n))
}

fn comma() -> Token {
    Token::Separator(at(0))
}

fn arr(ns: &[u64]) -> Token {
    let mut ts = Vec::new();
    for (i, n) in ns.iter().enumerate() {
        if i > 0 {
            ts.push(comma());
        }
        ts.push(lit_int(*n));
    }
    Token::Group(at(0), Delim::Bracket, ts)
}

fn size(t: Token) -> Result<usize, Diagnostic> {
    bs_expand(&[t])
}

fn concat(ts: Vec<Token>) -> Result<Vec<u8>, Diagnostic> {
    concat_expand(at(100), &ts)
}

fn sep_error(lo: u32, arg: usize) -> Diagnostic {
    Diagnostic { span: at(lo), kind: ErrorKind::Separator { arg } }
}

#[test]
fn test_byte_size_of() {
    assert_eq!(size(bstr(b"012345")), Ok(6));
    assert_eq!(size(bstr(b"A")), Ok(1));
    assert_eq!(size(bstr(b"")), Ok(0));
    assert_eq!(size(bstr(b"\\x00")), Ok(4));
    assert_eq!(size(arr(&[0, 1])), Ok(2));
}

#[test]
fn test_concat_bytes() {
    assert_eq!(concat(vec![bstr(b"0123"), comma(), bstr(b"45")]), Ok(b"012345".to_vec()));
    assert_eq!(
        concat(vec![bstr(b"0123"), comma(), bstr(b"45")]),
        Ok(vec![48u8, 49u8, 50u8, 51u8, 52u8, 53u8])
    );
    assert_eq!(concat(vec![bstr(b"0123"), comma(), arr(&[52, 53])]), Ok(b"012345".to_vec()));

    let joined = vec![arr(&[0]), comma(), bstr(b"AA"), comma(), arr(&[0])];
    assert_eq!(concat(joined), Ok(vec![0u8, 65u8, 65u8, 0u8]));

    let const_bytes = concat(vec![arr(&[0]), comma(), bstr(b"AA"), comma(), arr(&[0])]).unwrap();
    assert_eq!(const_bytes.len(), 4);
    assert_eq!(const_bytes, vec![0u8, 65u8, 65u8, 0u8]);

    let len = size(arr(&[0, 65, 65, 0])).unwrap();
    let const_bytes = concat(vec![arr(&[0]), comma(), bstr(b"AA"), comma(), arr(&[0])]).unwrap();
    assert_eq!(const_bytes.len(), len);
    assert_eq!(const_bytes, vec![0u8, 65u8, 65u8, 0u8]);

    let len = size(arr(&[65, 65])).unwrap() + 2;
    let const_bytes = concat(vec![arr(&[0]), comma(), bstr(b"AA"), comma(), arr(&[0])]).unwrap();
    assert_eq!(const_bytes.len(), len);
    assert_eq!(const_bytes, vec![0u8, 65u8, 65u8, 0u8]);
}

#[test]
fn test_in_macro() {
    let bound = |t: Token| Token::Reference(at(0), Box::new(t));
    let assembled = build_const_mesg(at(0), bound(bstr(b"0123")), bound(bstr(b"45")));
    assert_eq!(assembled, Ok(vec![48u8, 49u8, 50u8, 51u8, 52u8, 53u8]));

    let assembled =
        build_const_mesg(at(0), bound(arr(&[48, 49, 50, 51])), bound(arr(&[52, 53])));
    assert_eq!(assembled, Ok(vec![48u8, 49u8, 50u8, 51u8, 52u8, 53u8]));
}

#[test]
fn byte_size_of_ignores_later_tokens() {
    assert_eq!(bs_expand(&[bstr(b"abc"), comma(), bstr(b"defg")]), Ok(3));
    assert_eq!(bs_expand(&[arr(&[1, 2]), Token::Other(at(5))]), Ok(2));
}

#[test]
fn byte_size_of_empty_array() {
    assert_eq!(size(Token::Group(at(0), Delim::Bracket, vec![])), Ok(0));
}

#[test]
fn concat_single_argument() {
    assert_eq!(concat(vec![bstr(b"xyz")]), Ok(b"xyz".to_vec()));
    assert_eq!(concat(vec![arr(&[255, 0])]), Ok(vec![255u8, 0u8]));
}

#[test]
fn concat_without_arguments_is_arity_error() {
    assert_eq!(concat(vec![]), Err(Diagnostic { span: at(100), kind: ErrorKind::Arity }));
}

#[test]
fn concat_order_matters() {
    let ab = concat(vec![bstr(b"ab"), comma(), bstr(b"cd")]).unwrap();
    let ba = concat(vec![bstr(b"cd"), comma(), bstr(b"ab")]).unwrap();
    assert_eq!(ab, b"abcd".to_vec());
    assert_eq!(ba, b"cdab".to_vec());
    assert_ne!(ab, ba);
}

#[test]
fn concat_leading_comma() {
    let r = concat(vec![Token::Separator(at(7)), bstr(b"a")]);
    assert_eq!(r, Err(sep_error(7, 0)));
}

#[test]
fn concat_trailing_comma() {
    let r = concat(vec![bstr(b"a"), Token::Separator(at(7))]);
    assert_eq!(r, Err(sep_error(7, 0)));
}

#[test]
fn concat_doubled_comma() {
    let r = concat(vec![bstr(b"a"), comma(), Token::Separator(at(9)), bstr(b"b")]);
    assert_eq!(r, Err(sep_error(9, 1)));
}

#[test]
fn concat_value_in_comma_slot() {
    let r = concat(vec![bstr(b"a"), comma(), bstr(b"b"), Token::Literal(at(4), Lit::ByteStr(b"c".to_vec()))]);
    assert_eq!(r, Err(sep_error(4, 1)));
}

#[test]
fn concat_reports_first_error_left_to_right() {
    let wide = Token::Group(at(0), Delim::Bracket, vec![Token::Literal(at(2), Lit::Int(300))]);
    let r = concat(vec![wide, comma(), Token::Separator(at(3))]);
    assert_eq!(
        r,
        Err(Diagnostic {
            span: at(2),
            kind: ErrorKind::Type { expected: Expected::UnsignedByte, found: Found::Int(300) },
        })
    );
}

#[test]
fn array_reports_first_error_left_to_right() {
    let wide = || Token::Literal(at(2), Lit::Int(256));
    let type_256 = Err(Diagnostic {
        span: at(2),
        kind: ErrorKind::Type { expected: Expected::UnsignedByte, found: Found::Int(256) },
    });
    let t = Token::Group(at(0), Delim::Bracket, vec![wide(), comma()]);
    assert_eq!(size(t), type_256);
    let t = Token::Group(at(0), Delim::Bracket, vec![wide(), comma(), lit_int(1), comma()]);
    assert_eq!(size(t), type_256);
    let t = Token::Group(
        at(0),
        Delim::Bracket,
        vec![Token::Literal(at(3), Lit::ByteStr(b"A".to_vec())), comma()],
    );
    assert_eq!(
        size(t),
        Err(Diagnostic {
            span: at(3),
            kind: ErrorKind::Type { expected: Expected::UnsignedByte, found: Found::ByteStr },
        })
    );
    let t = Token::Group(at(0), Delim::Bracket, vec![Token::Other(at(4)), comma()]);
    assert_eq!(
        size(t),
        Err(Diagnostic {
            span: at(4),
            kind: ErrorKind::Type { expected: Expected::UnsignedByte, found: Found::Other },
        })
    );
    let t = Token::Group(at(0), Delim::Bracket, vec![lit_int(1), Token::Separator(at(5)), wide()]);
    assert_eq!(size(t), type_256);
    let t = Token::Group(at(0), Delim::Bracket, vec![Token::Separator(at(5)), wide()]);
    assert_eq!(size(t), Err(sep_error(5, 0)));
}

#[test]
fn concat_stops_at_first_failing_argument() {
    let bad1 = Token::Literal(at(11), Lit::Char('x'));
    let bad2 = Token::Other(at(12));
    let r = concat(vec![bstr(b"ok"), comma(), bad1, comma(), bad2]);
    assert_eq!(
        r,
        Err(Diagnostic {
            span: at(11),
            kind: ErrorKind::Type { expected: Expected::ByteStr, found: Found::Char },
        })
    );
}

#[test]
fn array_value_too_wide_is_type_error() {
    let t = Token::Group(
        at(0),
        Delim::Bracket,
        vec![lit_int(1), comma(), Token::Literal(at(6), Lit::Int(256))],
    );
    assert_eq!(
        size(t),
        Err(Diagnostic {
            span: at(6),
            kind: ErrorKind::Type { expected: Expected::UnsignedByte, found: Found::Int(256) },
        })
    );
    assert_eq!(size(arr(&[255])), Ok(1));
}

#[test]
fn array_value_of_wrong_kind_is_type_error() {
    let inner = Token::Group(at(2), Delim::Bracket, vec![lit_int(1)]);
    let t = Token::Group(at(0), Delim::Bracket, vec![inner]);
    assert_eq!(
        size(t),
        Err(Diagnostic {
            span: at(2),
            kind: ErrorKind::Type {
                expected: Expected::UnsignedByte,
                found: Found::Group(Delim::Bracket),
            },
        })
    );
    let t = Token::Group(at(0), Delim::Bracket, vec![Token::Literal(at(3), Lit::Str("s".to_string()))]);
    assert_eq!(
        size(t),
        Err(Diagnostic {
            span: at(3),
            kind: ErrorKind::Type { expected: Expected::UnsignedByte, found: Found::Str },
        })
    );
}

#[test]
fn array_separator_errors() {
    let leading = Token::Group(at(0), Delim::Bracket, vec![Token::Separator(at(1)), lit_int(1)]);
    assert_eq!(size(leading), Err(sep_error(1, 0)));
    let trailing = Token::Group(at(0), Delim::Bracket, vec![lit_int(1), Token::Separator(at(2))]);
    assert_eq!(size(trailing), Err(sep_error(2, 0)));
    let doubled =
        Token::Group(at(0), Delim::Bracket, vec![lit_int(1), comma(), Token::Separator(at(3)), lit_int(2)]);
    assert_eq!(size(doubled), Err(sep_error(3, 1)));
    let missing = Token::Group(at(0), Delim::Bracket, vec![lit_int(1), Token::Literal(at(4), Lit::Int(2))]);
    assert_eq!(size(missing), Err(sep_error(4, 0)));
}

#[test]
fn u8_classifier() {
    assert_eq!(extract_u8_from_lit(&lit_int(7)), Ok(7));
    assert_eq!(
        extract_u8_from_lit(&bstr(b"7")),
        Err(Diagnostic {
            span: at(0),
            kind: ErrorKind::Type { expected: Expected::UnsignedByte, found: Found::ByteStr },
        })
    );
}

#[test]
fn reference_resolves_like_its_literal() {
    let r = Token::Reference(at(9), Box::new(bstr(b"\\n!")));
    assert_eq!(extract_vec_from_token(&r), extract_vec_from_token(&bstr(b"\\n!")));
    assert_eq!(extract_vec_from_token(&r), Ok(b"\\n!".to_vec()));
    let r = Token::Reference(at(9), Box::new(arr(&[1, 2, 3])));
    assert_eq!(extract_vec_from_token(&r), Ok(vec![1u8, 2u8, 3u8]));
    assert_eq!(size(Token::Reference(at(9), Box::new(arr(&[1, 2, 3])))), Ok(3));
}

#[test]
fn reference_to_other_expressions_is_unsupported() {
    let r = Token::Reference(at(9), Box::new(lit_int(3)));
    assert_eq!(
        extract_vec_from_token(&r),
        Err(Diagnostic { span: at(9), kind: ErrorKind::Unsupported { found: Found::Int(3) } })
    );
    let twice = Token::Reference(at(8), Box::new(Token::Reference(at(9), Box::new(bstr(b"a")))));
    assert_eq!(
        extract_vec_from_token(&twice),
        Err(Diagnostic { span: at(8), kind: ErrorKind::Unsupported { found: Found::Reference } })
    );
}

#[test]
fn unsupported_tokens() {
    let paren = Token::Group(at(4), Delim::Paren, vec![lit_int(1)]);
    assert_eq!(
        size(paren),
        Err(Diagnostic {
            span: at(4),
            kind: ErrorKind::Unsupported { found: Found::Group(Delim::Paren) },
        })
    );
    assert_eq!(
        size(Token::Other(at(5))),
        Err(Diagnostic { span: at(5), kind: ErrorKind::Unsupported { found: Found::Other } })
    );
    assert_eq!(
        size(Token::Literal(at(6), Lit::Int(4))),
        Err(Diagnostic {
            span: at(6),
            kind: ErrorKind::Type { expected: Expected::ByteStr, found: Found::Int(4) },
        })
    );
}

#[test]
fn message_builder_reports_first_failure() {
    let r = build_const_mesg(at(0), Token::Other(at(1)), Token::Other(at(2)));
    assert_eq!(r, Err(Diagnostic { span: at(1), kind: ErrorKind::Unsupported { found: Found::Other } }));
    let r = build_const_mesg(at(0), bstr(b"a"), arr(&[999]));
    assert!(matches!(r, Err(Diagnostic { kind: ErrorKind::Type { .. }, .. })));
}

#[test]
fn hello_and_bye_messages() {
    assert_eq!(send_hello(), b"HELLO\x17\n\n\x00".to_vec());
    assert_eq!(send_bye(), b"BYE\x17\n\n\x00".to_vec());
}

#[test]
fn registrar_names_both_evaluators() {
    let mut reg = Registry::new();
    plugin_registrar(&mut reg);
    assert_eq!(reg.macros.len(), 2);
    assert_eq!(reg.macros[0].name, "byte_size_of");
    assert_eq!(reg.macros[0].expander, Expander::ByteSizeOf);
    assert_eq!(reg.macros[1].name, "concat_bytes");
    assert_eq!(reg.macros[1].expander, Expander::ConcatBytes);
}

#[test]
fn expanders_dispatch() {
    match Expander::ByteSizeOf.expand(at(0), &[bstr(b"012345")]) {
        Ok(Expansion::Size(n)) => assert_eq!(n, 6),
        _ => panic!("expected a size"),
    }
    match Expander::ConcatBytes.expand(at(0), &[bstr(b"0123"), comma(), bstr(b"45")]) {
        Ok(Expansion::Bytes(v)) => assert_eq!(v, b"012345".to_vec()),
        _ => panic!("expected bytes"),
    }
    assert!(Expander::ConcatBytes.expand(at(0), &[]).is_err());
}
