use bobs8085::assembler::lexer::{char_class, hex_literal_text, tokenize, CharClass};
use bobs8085::assembler::token::{Token, TokenType};
use bobs8085::assembler::AssemblerError;

fn summary(tokens: &[Token]) -> Vec<(TokenType, String, usize, usize)> {
    tokens
        .iter()
        .map(|t| (t.token_type(), t.lexeme().to_string(), t.line(), t.column()))
        .collect()
}

fn syntax_at(result: Result<Vec<Token>, AssemblerError>) -> (Option<usize>, Option<usize>) {
    match result {
        Err(AssemblerError::SyntaxError(_, l, c)) => (l, c),
        other => panic!("expected a syntax error, got {:?}", other),
    }
}

#[test]
fn instruction_line_tokens() {
    let tokens = tokenize("MVI A, 0x05\n").unwrap();
    assert_eq!(
        summary(&tokens),
        vec![
            (TokenType::Name, "MVI".to_string(), 1, 1),
            (TokenType::Name, "A".to_string(), 1, 5),
            (TokenType::Comma, ",".to_string(), 1, 6),
            (TokenType::HexLiteral, "0x05".to_string(), 1, 8),
            (TokenType::NewLine, "\n".to_string(), 1, 12),
        ]
    );
}

#[test]
fn label_and_colon_tokens() {
    let tokens = tokenize("loop:JMP loop").unwrap();
    assert_eq!(
        summary(&tokens),
        vec![
            (TokenType::Name, "loop".to_string(), 1, 1),
            (TokenType::Colon, ":".to_string(), 1, 5),
            (TokenType::Name, "JMP".to_string(), 1, 6),
            (TokenType::Name, "loop".to_string(), 1, 10),
            (TokenType::NewLine, "\n".to_string(), 1, 14),
        ]
    );
}

#[test]
fn hex_literal_forms() {
    let tokens = tokenize("0FFh 1fH 0X1a h BEh 0x10000 ADD 0x00001").unwrap();
    let kinds: Vec<TokenType> = tokens.iter().map(|t| t.token_type()).collect();
    assert_eq!(
        kinds,
        vec![
            TokenType::HexLiteral,
            TokenType::HexLiteral,
            TokenType::HexLiteral,
            TokenType::Name,
            TokenType::HexLiteral,
            TokenType::Name,
            TokenType::Name,
            TokenType::HexLiteral,
            TokenType::NewLine,
        ]
    );
    assert_eq!(tokens[0].hex_value(), Some(0xFF));
    assert_eq!(tokens[1].hex_value(), Some(0x1F));
    assert_eq!(tokens[2].hex_value(), Some(0x1A));
    assert_eq!(tokens[4].hex_value(), Some(0xBE));
    assert_eq!(tokens[5].hex_value(), None);
    assert_eq!(tokens[7].hex_value(), Some(1));
}

#[test]
fn comments_end_lines() {
    let tokens = tokenize("NOP ; comment\n// whole line\nHLT // x").unwrap();
    assert_eq!(
        summary(&tokens),
        vec![
            (TokenType::Name, "NOP".to_string(), 1, 1),
            (TokenType::NewLine, "\n".to_string(), 1, 14),
            (TokenType::NewLine, "\n".to_string(), 2, 14),
            (TokenType::Name, "HLT".to_string(), 3, 1),
            (TokenType::NewLine, "\n".to_string(), 3, 9),
        ]
    );
}

#[test]
fn empty_and_blank_sources() {
    assert!(tokenize("").unwrap().is_empty());
    assert_eq!(summary(&tokenize("\n").unwrap()), vec![(TokenType::NewLine, "\n".to_string(), 1, 1)]);
    assert_eq!(
        summary(&tokenize("NOP").unwrap()),
        vec![(TokenType::Name, "NOP".to_string(), 1, 1), (TokenType::NewLine, "\n".to_string(), 1, 4)]
    );
}

#[test]
fn tabs_and_carriage_returns_separate_words() {
    let tokens = tokenize("MOV\tA,B\r\nHLT\r\n").unwrap();
    let words: Vec<String> = tokens.iter().map(|t| t.lexeme().to_string()).collect();
    assert_eq!(words, vec!["MOV", "A", ",", "B", "\n", "HLT", "\n"]);
}

#[test]
fn invalid_character_position() {
    assert_eq!(syntax_at(tokenize("MOV A, B$\n")), (Some(1), Some(9)));
    assert_eq!(syntax_at(tokenize("NOP\nA / B\n")), (Some(2), Some(3)));
}

#[test]
fn invalid_character_message() {
    match tokenize("MOV A, B$") {
        Err(AssemblerError::SyntaxError(message, _, _)) => {
            assert_eq!(message, "invalid character \"$\"")
        }
        other => panic!("expected a syntax error, got {:?}", other),
    }
}

#[test]
fn empty_hex_literal_is_an_error() {
    assert_eq!(syntax_at(tokenize("MVI A, 0x\n")), (Some(1), Some(8)));
    assert_eq!(syntax_at(tokenize("0X")), (Some(1), Some(1)));
}

#[test]
fn unicode_letters_form_names() {
    let tokens = tokenize("café: NOP").unwrap();
    assert_eq!(tokens[0].token_type(), TokenType::Name);
    assert_eq!(tokens[0].lexeme(), "café");
    assert_eq!(tokens[1].token_type(), TokenType::Colon);
    assert_eq!(tokens[2].column(), 7);
}

#[test]
fn char_classes() {
    assert_eq!(char_class('a', false, true), CharClass::Word);
    assert_eq!(char_class('7', true, false), CharClass::Word);
    assert_eq!(char_class(' ', true, false), CharClass::Space);
    assert_eq!(char_class('é', false, true), CharClass::Word);
    assert_eq!(char_class('$', false, false), CharClass::Invalid);
    assert_eq!(char_class('\n', true, false), CharClass::LineEnd);
    assert_eq!(char_class(';', false, false), CharClass::Semicolon);
    assert_eq!(char_class('/', false, false), CharClass::Slash);
}

#[test]
fn hex_text_is_four_upper_digits() {
    assert_eq!(hex_literal_text(0), "0x0000");
    assert_eq!(hex_literal_text(0xABCD), "0xABCD");
    assert_eq!(hex_literal_text(0x1F), "0x001F");
}

#[test]
fn every_hex_literal_round_trips() {
    for v in 0..=0xFFFFu16 {
        let text = hex_literal_text(v);
        let tokens = tokenize(&text).unwrap();
        assert_eq!(tokens.len(), 2);
        assert_eq!(tokens[0].token_type(), TokenType::HexLiteral);
        assert_eq!(tokens[0].lexeme(), text);
        assert_eq!(tokens[0].hex_value(), Some(v));
        assert_eq!(hex_literal_text(tokens[0].hex_value().unwrap()), text);
        assert_eq!(tokens[1].token_type(), TokenType::NewLine);
    }
}

#[test]
fn token_constructors() {
    let t = Token::new_name("loop".to_string(), 3, 4);
    assert_eq!(Token::type_of(&t), "name");
    assert_eq!((t.line(), t.column()), (3, 4));
    assert_eq!(Token::type_of(&Token::new_hex_literal("0x1".to_string(), 1, 1)), "hex literal");
    assert_eq!(Token::new_comma(1, 2).lexeme(), ",");
    assert_eq!(Token::new_colon(1, 2).lexeme(), ":");
    assert_eq!(Token::new_new_line(1, 2).token_type(), TokenType::NewLine);
    assert_eq!(Token::type_of(&Token::new_new_line(1, 2)), "new line");
}
