use lib::commands::{format_source, repl_step, test_names, ReplAction};
use lib::parse_source;
use lib::toolchain::{
    choose_c_compiler, clang_is_supported, gcc_is_supported, names_version_exec,
    ripgrep_is_supported, CCompiler,
};

#[test]
fn version_numbers_are_compared_by_major_number() {
    assert!(names_version_exec("ripgrep 15.1.0", "ripgrep ", 15, false));
    assert!(names_version_exec("ripgrep 150", "ripgrep ", 15, false));
    assert!(!names_version_exec("ripgrep 9.0", "ripgrep ", 15, false));
    assert!(!names_version_exec("ripgrep x", "ripgrep ", 0, false));
    assert!(names_version_exec("a 14.2", " ", 14, true));
    assert!(!names_version_exec("a 14 b", " ", 14, true));
    assert!(names_version_exec("v 99999999999999999999999.0", " ", 14, true));
}

#[test]
fn tool_versions_are_checked_against_the_minimums() {
    assert!(clang_is_supported("Ubuntu clang version 19.1.1\nTarget: x86_64"));
    assert!(clang_is_supported("clang version 21.0.0"));
    assert!(clang_is_supported("clang version 100.0.0"));
    assert!(!clang_is_supported("Apple clang version 15.0.0"));
    assert!(!clang_is_supported("clang version 1.9"));
    assert!(gcc_is_supported("gcc (Debian 14.2.0-8) 14.2.0"));
    assert!(gcc_is_supported("gcc (GCC) 17.1.0"));
    assert!(!gcc_is_supported("gcc (Ubuntu 11.4.0-1ubuntu1) 11.4.0\nCopyright (C) 2021 Free Software Foundation"));
    assert!(ripgrep_is_supported("ripgrep 15.0.0"));
    assert!(ripgrep_is_supported("ripgrep 17.2.1 (rev abc)"));
    assert!(!ripgrep_is_supported("ripgrep 13.0.0"));
}

#[test]
fn clang_is_preferred_then_gcc_then_the_bundled_compiler() {
    assert_eq!(choose_c_compiler(Some("clang version 19.1.0"), Some("gcc 14.1")), CCompiler::Clang);
    assert_eq!(choose_c_compiler(Some("clang version 21"), None), CCompiler::Clang);
    assert_eq!(choose_c_compiler(Some("clang version 17.0.0"), Some("gcc (GCC) 14.1.0")), CCompiler::Gcc);
    assert_eq!(choose_c_compiler(None, Some("gcc (GCC) 12.1.0")), CCompiler::Bundled);
    assert_eq!(choose_c_compiler(None, None), CCompiler::Bundled);
}

#[test]
fn repl_lines_quit_skip_or_parse() {
    assert!(matches!(repl_step("exit\n"), ReplAction::Quit));
    assert!(matches!(repl_step("  quit  \r\n"), ReplAction::Quit));
    assert!(matches!(repl_step(" \t\n"), ReplAction::Skip));
    assert!(matches!(repl_step(""), ReplAction::Skip));
    assert!(matches!(repl_step("  let x = 1;\n"), ReplAction::Parse(ref t) if t == "let x = 1;"));
    assert!(matches!(repl_step("exits"), ReplAction::Parse(ref t) if t == "exits"));
}

#[test]
fn formatter_trims_trailing_whitespace_and_ends_with_one_newline() {
    assert_eq!(format_source("fn f() {  \n\tx();\t \n}\n\n\n"), "fn f() {\n\tx();\n}\n");
    assert_eq!(format_source("let a = 1;"), "let a = 1;\n");
    assert_eq!(format_source("a  b \r\n"), "a  b\n");
    assert_eq!(format_source(""), "\n");
    assert_eq!(format_source("x\n   \n y"), "x\n\n y\n");
}

#[test]
fn formatting_twice_changes_nothing_more() {
    let once = format_source("let a = 1;   \n\n\nfn g() {}  \n \n");
    assert_eq!(format_source(&once), once);
}

#[test]
fn test_blocks_are_discovered_in_order() {
    let file = parse_source(
        "test \"adds\" { @assert(1 + 1 == 2); }\nfn f() {}\ntest \"subtracts\" { @assert(2 - 1 == 1); }",
    )
    .unwrap();
    assert_eq!(test_names(&file), vec!["adds".to_string(), "subtracts".to_string()]);
    assert!(test_names(&parse_source("fn f() {}").unwrap()).is_empty());
}
