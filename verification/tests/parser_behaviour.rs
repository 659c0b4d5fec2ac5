use lib::parse_source;
use lib::syntax::diag::{
    bad_array_length_error, bad_test_header_error, diagnostic_message, expected_token_error,
    unexpected_prefix_error, unexpected_top_level_error,
};
use lib::syntax::lexer::Lexer;
use lib::syntax::parser::Parser;
use lib::syntax::ast::{
    BinaryOp, Expr, FunctionBody, Item, MatchArmBody, Pattern, Stmt, StructKind, TypeExpr,
    Visibility,
};

fn global_value(src: &str) -> Expr {
    let file = parse_source(src).expect("parses");
    assert_eq!(file.items.len(), 1);
    match file.items.into_iter().next().unwrap() {
        Item::Global(v) => v.value,
        other => panic!("not a global: {:?}", other),
    }
}

#[test]
fn multiplication_binds_tighter_than_addition() {
    match global_value("let x = 1 + 2 * 3;") {
        Expr::Binary(lhs, BinaryOp::Add, rhs, _) => {
            assert!(matches!(*lhs, Expr::Int(1, None, _)));
            assert!(matches!(*rhs, Expr::Binary(_, BinaryOp::Mul, _, _)));
        },
        other => panic!("unexpected {:?}", other),
    }
}

#[test]
fn word_operators_build_bit_operations() {
    match global_value("let x = a bitand b bitor c;") {
        Expr::Binary(lhs, BinaryOp::BitOr, _, _) => {
            assert!(matches!(*lhs, Expr::Binary(_, BinaryOp::BitAnd, _, _)));
        },
        other => panic!("unexpected {:?}", other),
    }
}

#[test]
fn postfix_operators_chain() {
    match global_value("let x = p.next?.value.*.len() as u8;") {
        Expr::Cast(inner, TypeExpr::Named(t, _), _) => {
            assert_eq!(t, "u8");
            assert!(matches!(*inner, Expr::MethodCall(_, _, _, _)));
        },
        other => panic!("unexpected {:?}", other),
    }
}

#[test]
fn unexpected_prefix_token_is_reported() {
    assert_eq!(
        parse_source("fn main() { let x = ; }").err().unwrap(),
        "error[E1003] at line 1, col 21: Unexpected prefix expression token Semicolon"
    );
}

#[test]
fn unexpected_top_level_token_is_reported() {
    assert_eq!(
        parse_source("\n42").err().unwrap(),
        "error[E1002] at line 2, col 1: Unexpected token at top-level: Int(42, None)"
    );
}

#[test]
fn missing_token_is_reported_with_its_position() {
    assert_eq!(
        parse_source("fn main( {").err().unwrap(),
        "error[E1001] at line 1, col 10: Expected parameter name, got OpenBrace"
    );
}

#[test]
fn unclosed_block_is_reported_at_the_end() {
    assert_eq!(
        parse_source("fn f() { x = 1;").err().unwrap(),
        "error[E1001] at line 1, col 16: Expected '}' to close block, got Eof"
    );
}

#[test]
fn imports_are_parsed() {
    let file = parse_source("import { read, write } from \"fs.ju\";").unwrap();
    match &file.items[0] {
        Item::Import(i) => {
            assert_eq!(i.path, "fs.ju");
            assert_eq!(i.selective, vec!["read".to_string(), "write".to_string()]);
            assert_eq!(i.alias, None);
        },
        other => panic!("unexpected {:?}", other),
    }
    assert_eq!(
        parse_source("import { read } to \"fs.ju\";").err().unwrap(),
        "error[E1005] at line 1, col 17: Expected 'from' after selective import list"
    );
    assert_eq!(parse_source("import { read } \"fs.ju\";").err().unwrap(),
        "error[E1005] at line 1, col 17: Expected 'from' keyword"
    );
    assert_eq!(parse_source("import { read } from fs;").err().unwrap(),
        "error[E1005] at line 1, col 22: Expected string path for import"
    );
}

#[test]
fn test_blocks_need_a_name() {
    let file = parse_source("test \"adds\" { @assert(1 + 1 == 2); }").unwrap();
    assert!(matches!(&file.items[0], Item::Test(t) if t.name == "adds"));
    assert_eq!(
        parse_source("test 42 { }").err().unwrap(),
        "error[E1006] at line 1, col 6: Expected string description for test block"
    );
}

#[test]
fn declarations_of_every_kind() {
    let src = r#"
        pub type Id = distinct u64;
        export enum(u8) Method { Get = 1, Post, }
        union(enum) Value { int: i64, none }
        packed struct Flags { a: u8 = 0, Base, }
        interface Reader { fn read(buf: []u8): usize; }
        extend Reader { pub fn twice(self: *Reader) => 2; }
        var counter: i32 = 0;
        inline fn id(from x: i32): i32 => x;
        fn puts(s: *const u8);
    "#;
    let file = parse_source(src).unwrap();
    assert_eq!(file.items.len(), 9);
    assert!(matches!(&file.items[0], Item::TypeAlias(a) if a.is_distinct && a.visibility == Visibility::Export));
    match &file.items[1] {
        Item::Enum(e) => {
            assert_eq!(e.variants.len(), 2);
            assert!(e.backing_type.is_some());
            assert!(e.variants[0].value.is_some());
        },
        other => panic!("unexpected {:?}", other),
    }
    assert!(matches!(&file.items[2], Item::Union(u) if u.is_tagged && u.fields.len() == 2));
    match &file.items[3] {
        Item::Struct(s) => {
            assert_eq!(s.kind, StructKind::Packed);
            assert_eq!(s.fields.len(), 2);
            assert_eq!(s.fields[1].name, None);
        },
        other => panic!("unexpected {:?}", other),
    }
    assert!(matches!(&file.items[4], Item::Interface(i) if i.methods.len() == 1));
    assert!(matches!(&file.items[5], Item::Extend(x) if x.methods.len() == 1));
    assert!(matches!(&file.items[6], Item::Global(v) if v.is_mut));
    match &file.items[7] {
        Item::Function(f) => {
            assert!(f.is_inline);
            assert_eq!(f.params[0].label, Some("from".to_string()));
            assert_eq!(f.params[0].name, "x");
            assert!(matches!(f.body, Some(FunctionBody::Expr(_))));
        },
        other => panic!("unexpected {:?}", other),
    }
    assert!(matches!(&file.items[8], Item::Function(f) if f.body.is_none()));
    assert_eq!(
        parse_source("extern fn puts(s: *const u8);").err().unwrap(),
        "error[E1001] at line 1, col 8: Expected 'struct' after extern, got Fn"
    );
}

#[test]
fn loops_and_match_are_parsed() {
    let src = r#"
        fn f() {
            for (x in xs) { total += x; }
            for (var i = 0; i < n; i += 1) { }
            while (i < 3) { i = i + 1; }
            loop { }
            match (v) {
                .Some(let y) => y,
                .None => { },
                1 => 2,
                else => 0,
            }
        }
    "#;
    let file = parse_source(src).unwrap();
    let body = match &file.items[0] {
        Item::Function(f) => match &f.body {
            Some(FunctionBody::Block(b)) => b,
            other => panic!("unexpected {:?}", other),
        },
        other => panic!("unexpected {:?}", other),
    };
    assert_eq!(body.stmts.len(), 5);
    assert!(matches!(&body.stmts[0], Stmt::Expr(Expr::ForIn(_, v, _, _, _), _) if v == "x"));
    match &body.stmts[1] {
        Stmt::Expr(Expr::ForC(_, init, _, step, _, _), _) => {
            assert!(matches!(**init, Stmt::Var(_)));
            assert!(matches!(**step, Expr::Binary(_, BinaryOp::Add, _, _)));
        },
        other => panic!("unexpected {:?}", other),
    }
    assert!(matches!(&body.stmts[2], Stmt::Expr(Expr::While(..), _)));
    assert!(matches!(&body.stmts[3], Stmt::Expr(Expr::Loop(..), _)));
    match &body.stmts[4] {
        Stmt::Expr(Expr::Match(_, arms, _), _) => {
            assert_eq!(arms.len(), 4);
            assert!(matches!(&arms[0].pattern, Pattern::Variant(t, Some(b), _) if t == "Some" && b == "y"));
            assert!(matches!(&arms[1].body, MatchArmBody::Block(_)));
            assert!(matches!(&arms[2].pattern, Pattern::Literal(..)));
            assert!(matches!(&arms[3].pattern, Pattern::Else(_)));
        },
        other => panic!("unexpected {:?}", other),
    }
}

#[test]
fn if_branches_and_catch() {
    let v = global_value("let v = if (a) b else { => c; };");
    match v {
        Expr::If(_, then_b, Some(else_b), _) => {
            assert!(then_b.stmts.is_empty() && then_b.yield_expr.is_some());
            assert!(else_b.yield_expr.is_some());
        },
        other => panic!("unexpected {:?}", other),
    }
    assert!(matches!(global_value("let v = open() catch null;"), Expr::Catch(_, None, _, _)));
    assert!(matches!(global_value("let v = a ?? b;"), Expr::NullCoalesce(..)));
    assert!(matches!(global_value("let v = try -x;"), Expr::Try(..)));
    assert!(matches!(global_value("let v = Point { .x = 1, .y = 2 };"), Expr::StructInit(_, ref f, _) if f.len() == 2));
}

#[test]
fn error_messages_are_built_from_their_parts() {
    assert_eq!(
        expected_token_error(3, 14, "';' after let statement", "Ident(\"y\")"),
        "error[E1001] at line 3, col 14: Expected ';' after let statement, got Ident(\"y\")"
    );
    assert_eq!(
        unexpected_prefix_error(120, 4, "CloseParen"),
        "error[E1003] at line 120, col 4: Unexpected prefix expression token CloseParen"
    );
    assert_eq!(
        unexpected_top_level_error(7, 1, "Eq"),
        "error[E1002] at line 7, col 1: Unexpected token at top-level: Eq"
    );
}

#[test]
fn a_file_parses_only_when_all_of_it_is_consumed() {
    assert!(parse_source("fn f() {}").is_ok());
    assert_eq!(
        parse_source("fn f() {} }").err().unwrap(),
        "error[E1002] at line 1, col 11: Unexpected token at top-level: CloseBrace"
    );
    assert_eq!(parse_source("  // only a comment\n").unwrap().items.len(), 0);
}

#[test]
fn readme_function_examples_parse() {
    let src = r#"
export fn add(a: i32, b: i32): i32 => a + b;

export fn classify(n: i32): []u8 {
    if (n < 0) {
        => "negative";
    } else {
        => "non-negative";
    }
}

test "verify addition" {
    @assert(add(2, 3) == 5);
}
"#;
    let file = parse_source(src).unwrap();
    assert_eq!(file.items.len(), 3);
    assert!(matches!(&file.items[2], Item::Test(_)));
}

#[test]
fn reference_types_point_to_their_target() {
    let mut p = Parser::new(Lexer::new("&[const u8]"));
    assert!(matches!(p.parse_type(), Ok(TypeExpr::Pointer(inner, true, _))
        if matches!(*inner, TypeExpr::Slice(ref e, _) if matches!(**e, TypeExpr::Named(ref n, _) if n == "u8"))));
    let mut p = Parser::new(Lexer::new("&mut Player"));
    assert!(matches!(p.parse_type(), Ok(TypeExpr::Pointer(inner, false, _)) if matches!(*inner, TypeExpr::Named(ref n, _) if n == "Player")));
    assert_eq!(
        parse_source("fn main() { let language: &[u8] = \"Juyu\"; }").err().unwrap(),
        "error[E1007] at line 1, col 29: Expected integer array length, got Ident(\"u8\")"
    );
    assert_eq!(
        parse_source("struct S { name: &[const u8, }").err().unwrap(),
        "error[E1001] at line 1, col 28: Expected ']' after slice element type, got Comma"
    );
}

#[test]
fn readme_struct_example_parses() {
    let src = r#"
export struct Player {
    name: &[const u8],
    health: i32,

    export static fn init(id: u64, name: &[const u8]): Player {
        => Player {
            name: name,
            health: 100,
        };
    }

    export fn takeDamage(&mut self, amount: i32) {
        self.health -= amount;
        if (self.health < 0) {
            self.health = 0;
        }
    }
}

export interface Describable {
    fn describe(&self): &[const u8];
}

extend Player {
    export fn describe(&self): &[const u8] {
        => self.name;
    }
}
"#;
    let file = parse_source(src).unwrap();
    assert_eq!(file.items.len(), 3);
}

#[test]
fn syntax_trees_clone_to_equal_trees() {
    let file = parse_source("fn f(a: []u8) { for (x in a) { g(x)!; } } struct S { t: Vec<u8>, }").unwrap();
    let copy = file.clone();
    assert_eq!(format!("{:?}", copy), format!("{:?}", file));
    let e = global_value("let v = a.b(c: 1, d) ?? -x;");
    assert_eq!(format!("{:?}", e.clone()), format!("{:?}", e));
}

fn function_body_stmts(src: &str) -> Vec<Stmt> {
    let file = parse_source(src).expect("parses");
    match file.items.into_iter().next().unwrap() {
        Item::Function(f) => match f.body {
            Some(FunctionBody::Block(b)) => b.stmts,
            other => panic!("unexpected body {:?}", other),
        },
        other => panic!("not a function: {:?}", other),
    }
}

#[test]
fn as_is_an_ordinary_name_outside_a_cast() {
    let file = parse_source("let as = 1;").unwrap();
    assert!(matches!(&file.items[0], Item::Global(v) if v.name == "as"));
    assert!(matches!(global_value("let y = x as i64;"), Expr::Cast(_, TypeExpr::Named(ref t, _), _) if t == "i64"));
}

#[test]
fn break_continue_and_return_are_expressions() {
    let stmts = function_body_stmts("fn spin() { loop { break; } }");
    match &stmts[0] {
        Stmt::Expr(Expr::Loop(None, body, _), _) => {
            assert!(matches!(&body.stmts[0], Stmt::Expr(Expr::Break(None, None, _), _)));
        },
        other => panic!("unexpected {:?}", other),
    }
    let stmts = function_body_stmts("fn f(x: i32): i32 { while (x > 0) { continue; } return x; }");
    assert!(matches!(&stmts[1], Stmt::Expr(Expr::Return(Some(v), _), _) if matches!(**v, Expr::Ident(ref n, _) if n == "x")));
    let stmts = function_body_stmts("fn g() { return; }");
    assert!(matches!(&stmts[0], Stmt::Expr(Expr::Return(None, _), _)));
    let stmts = function_body_stmts("fn h() { loop { break 5; } }");
    match &stmts[0] {
        Stmt::Expr(Expr::Loop(None, body, _), _) => {
            assert!(matches!(&body.stmts[0], Stmt::Expr(Expr::Break(None, Some(v), _), _) if matches!(**v, Expr::Int(5, None, _))));
        },
        other => panic!("unexpected {:?}", other),
    }
    let stmts = function_body_stmts("fn k() { for (x in xs) { continue; } }");
    match &stmts[0] {
        Stmt::Expr(Expr::ForIn(_, _, _, body, _), _) => {
            assert!(matches!(&body.stmts[0], Stmt::Expr(Expr::Continue(None, _), _)));
        },
        other => panic!("unexpected {:?}", other),
    }
}

#[test]
fn match_takes_wildcard_and_range_patterns() {
    let src = "export fn kind(n: i32): []u8 {\n    => match (n) {\n        0 => \"zero\",\n        1..9 => \"single digit\",\n        _ => \"big\",\n    };\n}";
    let file = parse_source(src).unwrap();
    let f = match &file.items[0] {
        Item::Function(f) => f,
        other => panic!("unexpected {:?}", other),
    };
    let arms = match &f.body {
        Some(FunctionBody::Block(b)) => match b.yield_expr.as_deref() {
            Some(Expr::Match(target, arms, _)) => {
                assert!(matches!(**target, Expr::Ident(ref n, _) if n == "n"));
                arms
            },
            other => panic!("unexpected {:?}", other),
        },
        other => panic!("unexpected {:?}", other),
    };
    assert_eq!(arms.len(), 3);
    assert!(matches!(&arms[0].pattern, Pattern::Literal(l, _) if matches!(**l, Expr::Int(0, None, _))));
    assert!(matches!(&arms[1].pattern, Pattern::Range(lo, hi, _)
        if matches!(**lo, Expr::Int(1, None, _)) && matches!(**hi, Expr::Int(9, None, _))));
    assert!(matches!(&arms[2].pattern, Pattern::Wildcard(_)));
    assert!(matches!(&arms[2].body, MatchArmBody::Expr(e) if matches!(**e, Expr::StringLit(ref s, _) if s == "big")));
}

#[test]
fn both_struct_literal_styles_work() {
    for src in ["let p = Point { x: 1, y: 2 };", "let p = Point { .x = 1, .y = 2 };"] {
        match global_value(src) {
            Expr::StructInit(TypeExpr::Named(t, _), fields, _) => {
                assert_eq!(t, "Point");
                let names: Vec<&str> = fields.iter().map(|f| f.name.as_str()).collect();
                assert_eq!(names, vec!["x", "y"]);
                assert!(matches!(fields[0].value, Expr::Int(1, None, _)));
                assert!(matches!(fields[1].value, Expr::Int(2, None, _)));
            },
            other => panic!("unexpected {:?}", other),
        }
    }
    assert_eq!(
        parse_source("let p = Point { x = 1 };").err().unwrap(),
        "error[E1001] at line 1, col 19: Expected ':' after field name, got Eq"
    );
}

#[test]
fn conditions_without_parentheses_end_at_the_brace() {
    match global_value("let v = if x { => 1; } else { => 2; };") {
        Expr::If(cond, then_block, Some(else_block), _) => {
            assert!(matches!(*cond, Expr::Ident(ref n, _) if n == "x"));
            assert!(then_block.stmts.is_empty());
            assert!(matches!(then_block.yield_expr.as_deref(), Some(Expr::Int(1, None, _))));
            assert!(matches!(else_block.yield_expr.as_deref(), Some(Expr::Int(2, None, _))));
        },
        other => panic!("unexpected {:?}", other),
    }
    let stmts = function_body_stmts("fn f() { while i > 0 { i -= 1; } for x in xs { g(x); } }");
    assert!(matches!(&stmts[0], Stmt::Expr(Expr::While(None, c, _, _), _) if matches!(**c, Expr::Binary(_, BinaryOp::Gt, _, _))));
    assert!(matches!(&stmts[1], Stmt::Expr(Expr::ForIn(None, ref v, it, _, _), _) if v == "x" && matches!(**it, Expr::Ident(..))));
    assert!(matches!(global_value("let v = if (Point { .x = 1 }) { => 1; };"), Expr::If(..)));
}

#[test]
fn receivers_are_self_parameters() {
    let src = "struct Player { health: i32, fn takeDamage(&mut self, amount: i32) { } fn describe(&self): i32 => 1; }";
    let file = parse_source(src).unwrap();
    let s = match &file.items[0] {
        Item::Struct(s) => s,
        other => panic!("unexpected {:?}", other),
    };
    let take = &s.methods[0].params;
    assert_eq!(take.len(), 2);
    assert_eq!(take[0].name, "self");
    assert_eq!(take[0].label, None);
    assert!(matches!(&take[0].ty, TypeExpr::Pointer(inner, false, _) if matches!(**inner, TypeExpr::Named(ref n, _) if n == "Self")));
    assert_eq!(take[1].name, "amount");
    let describe = &s.methods[1].params;
    assert!(matches!(&describe[0].ty, TypeExpr::Pointer(_, true, _)));
    assert_eq!(
        parse_source("struct P { fn f(&foo) {} }").err().unwrap(),
        "error[E1004] at line 1, col 18: Expected 'self' in method receiver, got Ident(\"foo\")"
    );
}

#[test]
fn labelled_and_default_parameters() {
    let file = parse_source("fn move(to target: Point, b: i32 = 0) {}").unwrap();
    match &file.items[0] {
        Item::Function(f) => {
            assert_eq!(f.params.len(), 2);
            assert_eq!(f.params[0].label.as_deref(), Some("to"));
            assert_eq!(f.params[0].name, "target");
            assert_eq!(f.params[1].label, None);
            assert!(matches!(f.params[1].default_val, Some(Expr::Int(0, None, _))));
        },
        other => panic!("unexpected {:?}", other),
    }
}

#[test]
fn array_lengths_must_be_integers() {
    let mut p = Parser::new(Lexer::new("[4]u8"));
    assert!(matches!(p.parse_type(), Ok(TypeExpr::Array(inner, 4, _)) if matches!(*inner, TypeExpr::Named(ref n, _) if n == "u8")));
    let mut p = Parser::new(Lexer::new("[x]u8"));
    assert_eq!(
        p.parse_type().err().unwrap(),
        "error[E1007] at line 1, col 2: Expected integer array length, got Ident(\"x\")"
    );
}

#[test]
fn imports_need_braces() {
    assert_eq!(
        parse_source("import x from \"a.ju\";").err().unwrap(),
        "error[E1005] at line 1, col 8: Expected '{' for selective import, got Ident(\"x\")"
    );
}

#[test]
fn diagnostic_codes_follow_the_reference() {
    assert_eq!(diagnostic_message("E1002", 4, 27, "stray"), "error[E1002] at line 4, col 27: stray");
    assert_eq!(
        bad_array_length_error(2, 3, "Ident(\"n\")"),
        "error[E1007] at line 2, col 3: Expected integer array length, got Ident(\"n\")"
    );
    assert_eq!(bad_test_header_error(1, 6), "error[E1006] at line 1, col 6: Expected string description for test block");
    assert_eq!(
        parse_source("1 + 2;").err().unwrap(),
        "error[E1002] at line 1, col 1: Unexpected token at top-level: Int(1, None)"
    );
}

#[test]
fn indexing_is_a_postfix_operator() {
    match global_value("let y = xs[i + 1].len();") {
        Expr::MethodCall(target, ref m, _, _) => {
            assert_eq!(m, "len");
            assert!(matches!(*target, Expr::Index(ref a, ref i, _)
                if matches!(**a, Expr::Ident(ref n, _) if n == "xs") && matches!(**i, Expr::Binary(_, BinaryOp::Add, _, _))));
        },
        other => panic!("unexpected {:?}", other),
    }
    assert_eq!(
        parse_source("let y = xs[1;").err().unwrap(),
        "error[E1001] at line 1, col 13: Expected ']' after index, got Semicolon"
    );
}

#[test]
fn readme_control_flow_examples_parse() {
    let src = r#"
export fn firstPositive(xs: []i32): i32 {
    for (x in xs) {
        if (x > 0) {
            return x;
        }
    }
    return -1;
}

export fn countdown(n: i32): void {
    var i = n;
    while (i > 0) {
        std.io.printlnInt(i as i64);
        i -= 1;
    }
}

export fn spin(): void {
    loop {
        break;
    }
}

export fn withIndex(xs: []i32): void {
    for (var i = 0; i < xs.len(); i += 1) {
        std.io.printlnInt(xs[i] as i64);
    }
}
"#;
    let file = parse_source(src).unwrap();
    assert_eq!(file.items.len(), 4);
}

#[test]
fn statements_end_with_a_semicolon_unless_block_like() {
    assert_eq!(
        parse_source("fn f() { x = 1 }").err().unwrap(),
        "error[E1001] at line 1, col 16: Expected ';' after assignment, got CloseBrace"
    );
    assert_eq!(
        parse_source("fn f() { g() }").err().unwrap(),
        "error[E1001] at line 1, col 14: Expected ';' after expression statement, got CloseBrace"
    );
    let stmts = function_body_stmts("fn f() { if (a) { } while (b) { } loop { } }");
    assert_eq!(stmts.len(), 3);
}

#[test]
fn an_expression_statement_needs_its_semicolon() {
    assert_eq!(
        parse_source("fn f() { f(x) g(y); }").err().unwrap(),
        "error[E1001] at line 1, col 15: Expected ';' after expression statement, got Ident(\"g\")"
    );
    assert_eq!(function_body_stmts("fn f() { f(x); g(y); }").len(), 2);
}
