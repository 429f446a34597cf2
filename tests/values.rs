use replibyte::column::Column;
use replibyte::postgres::{port_text, Postgres, DUMP_PROGRAM, PASSWORD_VARIABLE};
use replibyte::statement::{
    get_column_names_from_insert_into_query, get_column_values_from_insert_into_query,
    get_word_value_at_position, insert_table_name, match_keyword_at_position,
};
use replibyte::token::{Keyword, Token};
use replibyte::transformer::{table_and_column_key, TransformerRegistry};
use replibyte::typing::infer_column;

fn name() -> String {
    "amount".to_string()
}

#[test]
fn integer_token_is_a_number() {
    let c = infer_column(&name(), &Token::Number("123".to_string())).unwrap();
    assert_eq!(*c.number_value().unwrap(), 123);
    assert_eq!(c.name().as_str(), "amount");
    assert!(c.float_number_value().is_none());
    assert!(c.string_value().is_none());
    assert!(c.char_value().is_none());
}

#[test]
fn fraction_token_is_a_float_number() {
    let c = infer_column(&name(), &Token::Number("1.50".to_string())).unwrap();
    let text = c.float_number_value().unwrap();
    assert_eq!(text.as_str(), "1.50");
    assert_eq!(text.parse::<f64>().unwrap(), 1.50);
    assert!(c.number_value().is_none());
}

#[test]
fn char_token_is_a_char() {
    let c = infer_column(&name(), &Token::Char('c')).unwrap();
    assert_eq!(*c.char_value().unwrap(), 'c');
    assert!(c.string_value().is_none());
}

#[test]
fn string_literal_kinds_are_strings() {
    for t in [
        Token::SingleQuotedString("abc".to_string()),
        Token::NationalStringLiteral("abc".to_string()),
        Token::HexStringLiteral("abc".to_string()),
    ] {
        let c = infer_column(&name(), &t).unwrap();
        assert_eq!(c.string_value().unwrap().as_str(), "abc");
    }
}

#[test]
fn other_tokens_have_no_value() {
    for t in [
        Token::Word("NULL".to_string(), Keyword::NoKeyword),
        Token::Other,
        Token::Period,
    ] {
        let c = infer_column(&name(), &t).unwrap();
        assert!(matches!(c, Column::Unknown(_)));
        assert_eq!(c.name().as_str(), "amount");
    }
}

#[test]
fn typing_is_deterministic() {
    let t = Token::Number("98765".to_string());
    let a = infer_column(&name(), &t).unwrap();
    let b = infer_column(&name(), &t).unwrap();
    assert_eq!(a.number_value(), b.number_value());
    assert_eq!(a.name(), b.name());
    let t = Token::Number("3.25".to_string());
    let a = infer_column(&name(), &t).unwrap();
    let b = infer_column(&name(), &t).unwrap();
    assert_eq!(a.float_number_value(), b.float_number_value());
}

#[test]
fn numbers_beyond_sixty_four_bits() {
    let big = "170141183460469231731687303715884105727";
    let c = infer_column(&name(), &Token::Number(big.to_string())).unwrap();
    assert_eq!(*c.number_value().unwrap(), i128::MAX);
    let c = infer_column(&name(), &Token::Number("18446744073709551616".to_string())).unwrap();
    assert_eq!(*c.number_value().unwrap(), 18446744073709551616i128);
    let too_big = "170141183460469231731687303715884105728";
    assert!(infer_column(&name(), &Token::Number(too_big.to_string())).is_none());
}

#[test]
fn leading_zeros_and_zero() {
    let c = infer_column(&name(), &Token::Number("007".to_string())).unwrap();
    assert_eq!(*c.number_value().unwrap(), 7);
    let c = infer_column(&name(), &Token::Number("0".to_string())).unwrap();
    assert_eq!(*c.number_value().unwrap(), 0);
}

#[test]
fn malformed_numbers_do_not_decode() {
    for s in ["", "12a", "1.2.3", ".", "1.x", "-"] {
        assert!(infer_column(&name(), &Token::Number(s.to_string())).is_none(), "{}", s);
    }
    let c = infer_column(&name(), &Token::Number(".5".to_string())).unwrap();
    assert_eq!(c.float_number_value().unwrap().as_str(), ".5");
}

fn statement() -> Vec<Token> {
    vec![
        Token::Word("INSERT".to_string(), Keyword::Insert),
        Token::Whitespace,
        Token::Word("INTO".to_string(), Keyword::Into),
        Token::Whitespace,
        Token::Word("public".to_string(), Keyword::NoKeyword),
        Token::Period,
        Token::Word("t".to_string(), Keyword::NoKeyword),
        Token::Whitespace,
        Token::LParen,
        Token::Word("a".to_string(), Keyword::NoKeyword),
        Token::Comma,
        Token::Word("b".to_string(), Keyword::NoKeyword),
        Token::RParen,
        Token::Whitespace,
        Token::Word("VALUES".to_string(), Keyword::Values),
        Token::Whitespace,
        Token::LParen,
        Token::Number("1".to_string()),
        Token::Comma,
        Token::Whitespace,
        Token::Word("NULL".to_string(), Keyword::NoKeyword),
        Token::RParen,
        Token::Other,
    ]
}

#[test]
fn classifier_reads_fixed_positions() {
    let t = statement();
    assert!(match_keyword_at_position(Keyword::Insert, &t, 0));
    assert!(match_keyword_at_position(Keyword::Into, &t, 2));
    assert!(!match_keyword_at_position(Keyword::Into, &t, 0));
    assert!(!match_keyword_at_position(Keyword::Insert, &t, 100));
    assert_eq!(get_word_value_at_position(&t, 6).unwrap().as_str(), "t");
    assert!(get_word_value_at_position(&t, 5).is_none());
    assert_eq!(insert_table_name(&t).unwrap().as_str(), "t");
    let mut other = statement();
    other[0] = Token::Word("UPDATE".to_string(), Keyword::NoKeyword);
    assert!(insert_table_name(&other).is_none());
}

#[test]
fn extractor_pairs_names_with_value_positions() {
    let t = statement();
    let names = get_column_names_from_insert_into_query(&t);
    assert_eq!(names, vec!["a".to_string(), "b".to_string()]);
    let positions = get_column_values_from_insert_into_query(&t);
    assert_eq!(positions, vec![17, 20]);
}

#[test]
fn registry_key_and_last_rule_wins() {
    let key = table_and_column_key(&"employees".to_string(), &"last_name".to_string());
    assert_eq!(key.as_str(), "employees.last_name");
    let registry = TransformerRegistry::from_keys(vec![
        "employees.last_name".to_string(),
        "employees.first_name".to_string(),
        "employees.last_name".to_string(),
    ]);
    assert_eq!(registry.lookup(&key), Some(2));
    assert_eq!(registry.lookup(&"employees.first_name".to_string()), Some(1));
    assert_eq!(registry.lookup(&"Employees.last_name".to_string()), None);
    let empty = TransformerRegistry::from_keys(vec![]);
    assert_eq!(empty.lookup(&key), None);
}

#[test]
fn port_text_is_decimal() {
    assert_eq!(port_text(5432).as_str(), "5432");
    assert_eq!(port_text(0).as_str(), "0");
    assert_eq!(port_text(10).as_str(), "10");
    assert_eq!(port_text(65535).as_str(), "65535");
}

#[test]
fn dump_arguments_hold_no_password() {
    let p = Postgres::new("localhost", 5432, "root", "root", "password");
    let args = p.dump_arguments();
    assert_eq!(
        args,
        vec!["--column-inserts", "-h", "localhost", "-p", "5432", "-d", "root", "-U", "root"]
    );
    assert!(!args.iter().any(|a| a.as_str() == "password"));
    assert_eq!(p.password(), "password");
    assert_eq!(DUMP_PROGRAM, "pg_dump");
    assert_eq!(PASSWORD_VARIABLE, "PGPASSWORD");
}

