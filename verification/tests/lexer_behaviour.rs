use lib::syntax::lexer::Lexer;
use lib::syntax::token::{Span, Token, TokenKind};

fn tokens(source: &str) -> Vec<Token> {
    let mut lexer = Lexer::new(source);
    let mut out = Vec::new();
    loop {
        let token = lexer.next_token();
        let done = token.kind == TokenKind::Eof;
        out.push(token);
        if done {
            break;
        }
    }
    out
}

fn kinds(source: &str) -> Vec<TokenKind> {
    tokens(source).into_iter().map(|t| t.kind).collect()
}

#[test]
fn number_literals_have_their_values() {
    assert_eq!(
        kinds("0x1F 0b101 1_000 42u8 3.14 7i24"),
        vec![
            TokenKind::Int(31, None),
            TokenKind::Int(5, None),
            TokenKind::Int(1000, None),
            TokenKind::Int(42, Some("u8".to_string())),
            TokenKind::Float("3.14".to_string()),
            TokenKind::Int(7, Some("i24".to_string())),
            TokenKind::Eof,
        ]
    );
}

#[test]
fn oversized_hex_literal_becomes_zero() {
    assert_eq!(
        kinds("0xFFFFFFFFFFFFFFFFFFFFFFFFFFFFFFFFFF"),
        vec![TokenKind::Int(0, None), TokenKind::Eof]
    );
}

#[test]
fn operators_take_the_longest_match() {
    assert_eq!(
        kinds("+% -= ** >>= ?. ?? .* ... => :="),
        vec![
            TokenKind::PlusPercent,
            TokenKind::MinusEq,
            TokenKind::Star,
            TokenKind::Star,
            TokenKind::Shr,
            TokenKind::Eq,
            TokenKind::QuestionDot,
            TokenKind::QuestionQuestion,
            TokenKind::DotStar,
            TokenKind::DotDotDot,
            TokenKind::FatArrow,
            TokenKind::ColonEq,
            TokenKind::Eof,
        ]
    );
}

#[test]
fn string_escapes_and_literals() {
    assert_eq!(
        kinds(r#""a\nb\"c" 'x' '\n' $"hi {name}" @sizeOf @"fn" true"#),
        vec![
            TokenKind::StringLit("a\nb\"c".to_string()),
            TokenKind::CharLit('x'),
            TokenKind::CharLit('\n'),
            TokenKind::InterpolatedString("hi {name}".to_string()),
            TokenKind::Builtin("sizeOf".to_string()),
            TokenKind::Ident("fn".to_string()),
            TokenKind::BoolLit(true),
            TokenKind::Eof,
        ]
    );
}

#[test]
fn lexing_errors_are_tokens() {
    assert_eq!(
        kinds("\"abc\n#"),
        vec![
            TokenKind::Error("Unterminated single-line string literal".to_string()),
            TokenKind::Error("Unexpected character '#'".to_string()),
            TokenKind::Eof,
        ]
    );
}

#[test]
fn nested_comments_are_skipped() {
    assert_eq!(
        kinds("a /* x /* y */ z */ b // c\nd"),
        vec![
            TokenKind::Ident("a".to_string()),
            TokenKind::Ident("b".to_string()),
            TokenKind::Ident("d".to_string()),
            TokenKind::Eof,
        ]
    );
}

#[test]
fn multiline_string_is_stripped() {
    let source = "\"\"\"\n    Roses are red,\n    pointers are fun.\n    \"\"\"";
    assert_eq!(
        kinds(source),
        vec![TokenKind::StringLit("Roses are red,\npointers are fun.\n".to_string()), TokenKind::Eof]
    );
}

#[test]
fn strip_common_indentation_keeps_relative_indent() {
    assert_eq!(Lexer::strip_common_indentation("\n  a\n    b\n  c"), "a\n  b\nc");
    assert_eq!(Lexer::strip_common_indentation("first\n   x\n y"), "irst\n  x\ny");
    assert_eq!(Lexer::strip_common_indentation(""), "");
}

#[test]
fn spans_give_offsets_lines_and_columns() {
    let toks = tokens("let x\n  = é1;");
    assert_eq!(toks[0].span, Span::new(0, 3, 1, 1));
    assert_eq!(toks[1].span, Span::new(4, 5, 1, 5));
    assert_eq!(toks[2].span, Span::new(8, 9, 2, 3));
    assert_eq!(toks[3].kind, TokenKind::Error("Unexpected character 'é'".to_string()));
    assert_eq!(toks[3].span, Span::new(10, 12, 2, 5));
    assert_eq!(toks[4].span, Span::new(12, 13, 2, 6));
}

#[test]
fn eof_repeats_at_the_end() {
    let mut lexer = Lexer::new("a  ");
    assert_eq!(lexer.next_token().kind, TokenKind::Ident("a".to_string()));
    let first = lexer.next_token();
    let second = lexer.next_token();
    assert_eq!(first.kind, TokenKind::Eof);
    assert_eq!(first, second);
    assert_eq!(first.span, Span::new(3, 3, 1, 4));
}

#[test]
fn spans_follow_one_another() {
    let toks = tokens("fn add(a: i32) => a;");
    for pair in toks.windows(2) {
        assert!(pair[0].span.start <= pair[0].span.end);
        assert!(pair[0].span.end <= pair[1].span.start);
    }
}

#[test]
fn lexer_reads_characters() {
    let mut lexer = Lexer::new("ab");
    assert_eq!(lexer.peek(), Some('a'));
    assert_eq!(lexer.peek_next(), Some('b'));
    assert_eq!(lexer.advance(), Some('a'));
    assert_eq!(lexer.current_pos(), 1);
    assert_eq!(lexer.advance(), Some('b'));
    assert_eq!(lexer.advance(), None);
    assert_eq!(lexer.peek(), None);
}

#[test]
fn whitespace_and_comments_are_skipped_in_place() {
    let mut lexer = Lexer::new("  // note\n  x");
    lexer.skip_whitespace_and_comments();
    assert_eq!(lexer.current_pos(), 12);
    assert_eq!(lexer.peek(), Some('x'));
}

#[test]
fn raw_string_contents_run_to_the_quote() {
    let mut lexer = Lexer::new("abc\"rest");
    assert_eq!(lexer.lex_raw_string_contents(), "abc");
    assert_eq!(lexer.peek(), Some('r'));
}

#[test]
fn indentation_is_stripped_by_characters() {
    assert_eq!(Lexer::strip_common_indentation("\n\u{3000}a"), "a");
    assert_eq!(Lexer::strip_common_indentation("\n\u{3000}\u{3000}x\n\u{3000} y\n"), "x\ny");
    assert_eq!(Lexer::strip_common_indentation("\n    a\n      b\n  \n    c"), "a\n  b\n\nc");
    assert_eq!(
        kinds("\"\"\"\n  a\n\u{3000}\n\"\"\""),
        vec![TokenKind::StringLit("a\n".to_string()), TokenKind::Eof]
    );
}

#[test]
fn every_lexing_error_has_its_message() {
    let err = |m: &str| TokenKind::Error(m.to_string());
    assert_eq!(kinds("\"\"\"abc"), vec![err("Unclosed multiline string literal"), TokenKind::Eof]);
    assert_eq!(kinds("'"), vec![err("Unclosed char literal"), TokenKind::Eof]);
    assert_eq!(kinds("'\\"), vec![err("Unclosed escape in char literal"), TokenKind::Eof]);
    assert_eq!(
        kinds("'ab x"),
        vec![err("Expected closing quote for char literal"), TokenKind::Ident("x".to_string()), TokenKind::Eof]
    );
    assert_eq!(kinds("$\"abc"), vec![err("Unclosed interpolated string literal"), TokenKind::Eof]);
    assert_eq!(
        kinds("$x"),
        vec![err("Unexpected '$' without string literal"), TokenKind::Ident("x".to_string()), TokenKind::Eof]
    );
    assert_eq!(
        kinds("@1"),
        vec![err("Expected builtin name after '@'"), TokenKind::Int(1, None), TokenKind::Eof]
    );
    assert_eq!(kinds("@"), vec![err("Unexpected trailing '@'"), TokenKind::Eof]);
}

#[test]
fn hex_and_binary_literals_take_integer_suffixes() {
    assert_eq!(
        kinds("0x0Fu8 0b1010i32 0xFF 0b1f"),
        vec![
            TokenKind::Int(15, Some("u8".to_string())),
            TokenKind::Int(10, Some("i32".to_string())),
            TokenKind::Int(255, None),
            TokenKind::Int(1, None),
            TokenKind::Ident("f".to_string()),
            TokenKind::Eof,
        ]
    );
}

#[test]
fn as_is_lexed_as_a_name() {
    assert_eq!(
        kinds("x as u8"),
        vec![
            TokenKind::Ident("x".to_string()),
            TokenKind::Ident("as".to_string()),
            TokenKind::Ident("u8".to_string()),
            TokenKind::Eof,
        ]
    );
}

#[test]
fn eof_is_empty_and_stands_at_the_end() {
    let src = "ab /* c */ \n";
    let toks = tokens(src);
    let eof = toks.last().unwrap();
    assert_eq!(eof.kind, TokenKind::Eof);
    assert_eq!(eof.span.start, src.len());
    assert_eq!(eof.span.end, src.len());
    let mut lx = Lexer::new(src);
    lx.next_token();
    let first = lx.next_token();
    let again = lx.next_token();
    assert_eq!(first, again);
}

#[test]
fn token_lines_and_columns_count_line_feeds() {
    let src = "a\n  bc\n\n   \"é\" d";
    let toks = tokens(src);
    assert_eq!((toks[1].span.line, toks[1].span.col, toks[1].span.start), (2, 3, 4));
    assert_eq!((toks[2].span.line, toks[2].span.col, toks[2].span.start), (4, 4, 11));
    assert_eq!((toks[3].span.line, toks[3].span.col, toks[3].span.start), (4, 8, 16));
}

#[test]
fn eof_arrives_within_length_plus_one_calls() {
    for src in ["", "a", "a b  c", "x+=1;// c\n", "\"s\" 'c' 0x1"] {
        let toks = tokens(src);
        assert!(toks.len() <= src.chars().count() + 1, "{:?}", src);
        assert_eq!(toks.last().unwrap().kind, TokenKind::Eof);
    }
}

#[test]
fn words_are_keywords_booleans_or_names() {
    assert_eq!(
        kinds("letter let export bitand true _x9 a-b"),
        vec![
            TokenKind::Ident("letter".to_string()),
            TokenKind::Let,
            TokenKind::Export,
            TokenKind::BitAnd,
            TokenKind::BoolLit(true),
            TokenKind::Ident("_x9".to_string()),
            TokenKind::Ident("a".to_string()),
            TokenKind::Minus,
            TokenKind::Ident("b".to_string()),
            TokenKind::Eof,
        ]
    );
}

#[test]
fn a_new_lexer_starts_at_the_beginning() {
    let mut lx = Lexer::new("ab");
    assert_eq!(lx.current_pos(), 0);
    assert_eq!(lx.peek(), Some('a'));
    assert_eq!(lx.next_token().span, Span::new(0, 2, 1, 1));
}
