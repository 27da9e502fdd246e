use greyhawk::lexer::Lexer;
use greyhawk::lexer::TokenType;

#[test]
fn test_lexer_hello_world() {
    let lexer = Lexer::new();
    let output = lexer.read(&"print(\"Hello, World!\")".to_string());
    assert_eq!(output[0].typ, TokenType::Symbol("print".to_string()));
    assert_eq!(output[1].typ, TokenType::ParenL);
    assert_eq!(output[2].typ, TokenType::StringLit("Hello, World!".to_string()));
    assert_eq!(output[3].typ, TokenType::ParenR);
}

#[test]
fn lexer_symbols_and_plus() {
    let lexer = Lexer::new();
    let output = lexer.read(&"foo_1 + bar".to_string());
    assert_eq!(output.len(), 3);
    assert_eq!(output[0].typ, TokenType::Symbol("foo_1".to_string()));
    assert_eq!(output[1].typ, TokenType::Plus);
    assert_eq!(output[2].typ, TokenType::Symbol("bar".to_string()));
}

#[test]
fn lexer_unterminated_string_takes_rest() {
    let lexer = Lexer::new();
    let output = lexer.read(&"(\"abc".to_string());
    assert_eq!(output.len(), 2);
    assert_eq!(output[0].typ, TokenType::ParenL);
    assert_eq!(output[1].typ, TokenType::StringLit("abc".to_string()));
}

#[test]
fn lexer_empty_input() {
    let lexer = Lexer::new();
    let output = lexer.read(&String::new());
    assert_eq!(output.len(), 0);
}

#[test]
fn lexer_skips_unrecognized_characters() {
    let lexer = Lexer::new();
    let output = lexer.read(&"a # b".to_string());
    assert_eq!(output.len(), 2);
    assert_eq!(output[0].typ, TokenType::Symbol("a".to_string()));
    assert_eq!(output[1].typ, TokenType::Symbol("b".to_string()));
}
