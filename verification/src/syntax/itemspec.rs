//! What the parser produces for top-level items: declarations of functions,
//! structs, interfaces, enums, unions, type aliases, tests, imports, globals,
//! and `extend` blocks. As in `parsespec`, each function gives the result and
//! the state after it; the lists are parsed by functions that recurse only on
//! states of smaller `measure`.

use vstd::prelude::*;
use crate::syntax::ast::{
    EnumDeclView, EnumVariantView, ExprView, ExtendDeclView, FunctionBodyView, FunctionDeclView,
    ImportDeclView, InterfaceDeclView, InterfaceMethodView, ItemView, ParamView, SourceFileView,
    StructDeclView, StructFieldView, StructKind, TestDeclView, TypeAliasDeclView, TypeExprView,
    UnionDeclView, UnionFieldView, Visibility,
};
use crate::syntax::diag::{
    bad_import_text, bad_receiver_text, bad_test_header_text, unexpected_top_level_text,
};
use crate::syntax::parsespec::{
    PState, PResult, measure, lt, stuck, advance_spec, check_spec, match_spec, expect_spec,
    expect_ident_spec, type_spec, expr_spec, block_spec, var_decl_spec,
};
use crate::syntax::token::{
    Span, token_kind_debug,
};
use crate::syntax::token::TokenKindView as TK;

verus! {

/// A whole file: its items, up to the end of the input.
pub open spec fn parse_file_spec(st: PState) -> PResult<SourceFileView> {
    match file_spec(st, seq![]) {
        (Ok(items), s1) => (Ok(SourceFileView { items }), s1),
        (Err(e), s1) => (Err(e), s1),
    }
}

/// The items of a file after `acc`, up to the end of the input.
pub open spec fn file_spec(st: PState, acc: Seq<ItemView>) -> PResult<Seq<ItemView>>
    decreases measure(st),
{
    if check_spec(st, TK::Eof) {
        (Ok(acc), st)
    } else {
        match item_spec(st) {
            (Ok(item), s1) => if lt(s1, st) {
                file_spec(s1, acc.push(item))
            } else {
                stuck(s1)
            },
            (Err(e), s1) => (Err(e), s1),
        }
    }
}

/// `pub` or `export` before a declaration: either makes it exported.
pub open spec fn visibility_spec(st: PState) -> (Visibility, PState) {
    if check_spec(st, TK::Pub) || check_spec(st, TK::Export) {
        (Visibility::Export, advance_spec(st))
    } else {
        (Visibility::Private, st)
    }
}

/// The message for a token of kind `kind` at line `line`, column `col`, that
/// cannot start a declaration.
pub open spec fn top_level_error(line: usize, col: usize, kind: TK) -> Seq<char> {
    unexpected_top_level_text(line, col, token_kind_debug(kind))
}

/// One top-level item, chosen by its first keyword after the visibility.
pub open spec fn item_spec(st: PState) -> PResult<ItemView> {
    let (vis, s1) = visibility_spec(st);
    if check_spec(s1, TK::Import) {
        import_spec(advance_spec(s1), s1.current.span)
    } else if check_spec(s1, TK::Test) {
        test_spec(advance_spec(s1))
    } else if check_spec(s1, TK::Extend) {
        extend_spec(advance_spec(s1))
    } else if check_spec(s1, TK::Interface) {
        interface_spec(advance_spec(s1), vis)
    } else if check_spec(s1, TK::Type) {
        type_alias_spec(advance_spec(s1), vis)
    } else if check_spec(s1, TK::Enum) {
        enum_spec(advance_spec(s1), vis, s1.current.span)
    } else if check_spec(s1, TK::Union) {
        union_spec(advance_spec(s1), vis, s1.current.span)
    } else if check_spec(s1, TK::Struct) || check_spec(s1, TK::Packed) || check_spec(s1, TK::Extern) {
        struct_spec(s1, vis)
    } else if check_spec(s1, TK::Fn) || check_spec(s1, TK::Static) || check_spec(s1, TK::Inline)
        || check_spec(s1, TK::Const) || check_spec(s1, TK::Naked) {
        match function_spec(s1, vis) {
            (Ok(f), s2) => (Ok(ItemView::Function(f)), s2),
            (Err(e), s2) => (Err(e), s2),
        }
    } else if check_spec(s1, TK::Let) || check_spec(s1, TK::Var) {
        global_spec(advance_spec(s1), check_spec(s1, TK::Var))
    } else {
        (Err(top_level_error(s1.current.span.line, s1.current.span.col, s1.current.kind)), s1)
    }
}

/// A global `let` or `var` declaration after its keyword, and its `;`.
pub open spec fn global_spec(st: PState, is_var: bool) -> PResult<ItemView> {
    match var_decl_spec(st, is_var) {
        (Ok(v), s1) => match expect_spec(
            s1,
            TK::Semicolon,
            if is_var { "';' after var declaration"@ } else { "';' after let declaration"@ },
        ) {
            (Ok(_), s2) => (Ok(ItemView::Global(v)), s2),
            (Err(e), s2) => (Err(e), s2),
        },
        (Err(e), s1) => (Err(e), s1),
    }
}

/// `import { a, b } from "path";` after `import`, whose span is `start_span`.
/// An import without its braces is a bad import declaration.
pub open spec fn import_spec(st: PState, start_span: Span) -> PResult<ItemView> {
    if check_spec(st, TK::OpenBrace) {
        let s1 = advance_spec(st);
        match import_names_spec(s1, seq![]) {
            (Ok(names), s2) => match expect_spec(s2, TK::CloseBrace, "'}' after import list"@) {
                (Ok(_), s3) => import_from_spec(s3, names, start_span),
                (Err(e), s3) => (Err(e), s3),
            },
            (Err(e), s2) => (Err(e), s2),
        }
    } else {
        (
            Err(
                bad_import_text(
                    st.current.span.line,
                    st.current.span.col,
                    "Expected '{' for selective import, got "@ + token_kind_debug(st.current.kind),
                ),
            ),
            st,
        )
    }
}

/// Imported names separated by commas, after `acc`, up to `}`.
pub open spec fn import_names_spec(st: PState, acc: Seq<Seq<char>>) -> PResult<Seq<Seq<char>>>
    decreases measure(st),
{
    if check_spec(st, TK::CloseBrace) {
        (Ok(acc), st)
    } else {
        match expect_ident_spec(st, "imported symbol name"@) {
            (Ok(name), s1) => {
                let acc2 = acc.push(name);
                if check_spec(s1, TK::Comma) {
                    let s2 = advance_spec(s1);
                    if lt(s2, st) {
                        import_names_spec(s2, acc2)
                    } else {
                        stuck(s2)
                    }
                } else {
                    (Ok(acc2), s1)
                }
            },
            (Err(e), s1) => (Err(e), s1),
        }
    }
}

/// `from "path";` after an import list: the word `from` and the path are
/// each consumed before they are checked.
pub open spec fn import_from_spec(st: PState, names: Seq<Seq<char>>, start_span: Span) -> PResult<ItemView> {
    let s1 = advance_spec(st);
    match st.current.kind {
        TK::Ident(w) => if w == "from"@ {
            let s2 = advance_spec(s1);
            match s1.current.kind {
                TK::StringLit(path) => match expect_spec(s2, TK::Semicolon, "';' after import"@) {
                    (Ok(_), s3) => (
                        Ok(ItemView::Import(ImportDeclView { path, alias: None, selective: names, span: start_span })),
                        s3,
                    ),
                    (Err(e), s3) => (Err(e), s3),
                },
                _ => (
                    Err(bad_import_text(s1.current.span.line, s1.current.span.col, "Expected string path for import"@)),
                    s2,
                ),
            }
        } else {
            (
                Err(
                    bad_import_text(
                        st.current.span.line,
                        st.current.span.col,
                        "Expected 'from' after selective import list"@,
                    ),
                ),
                s1,
            )
        },
        _ => (Err(bad_import_text(st.current.span.line, st.current.span.col, "Expected 'from' keyword"@)), s1),
    }
}

/// `test "name" { ... }` after `test`: the name is consumed before it is checked.
pub open spec fn test_spec(st: PState) -> PResult<ItemView> {
    let s1 = advance_spec(st);
    match st.current.kind {
        TK::StringLit(name) => match block_spec(s1) {
            (Ok(body), s2) => (Ok(ItemView::Test(TestDeclView { name, body, span: st.current.span })), s2),
            (Err(e), s2) => (Err(e), s2),
        },
        _ => (Err(bad_test_header_text(st.current.span.line, st.current.span.col)), s1),
    }
}

/// `extend Type { methods }` after `extend`.
pub open spec fn extend_spec(st: PState) -> PResult<ItemView> {
    match expect_ident_spec(st, "type to extend"@) {
        (Ok(target), s1) => match expect_spec(s1, TK::OpenBrace, "'{' after extend type"@) {
            (Ok(_), s2) => match methods_spec(s2, seq![]) {
                (Ok(methods), s3) => match expect_spec(s3, TK::CloseBrace, "'}' after extend methods"@) {
                    (Ok(_), s4) => (Ok(ItemView::Extend(ExtendDeclView { target, methods, span: s4.previous.span })), s4),
                    (Err(e), s4) => (Err(e), s4),
                },
                (Err(e), s3) => (Err(e), s3),
            },
            (Err(e), s2) => (Err(e), s2),
        },
        (Err(e), s1) => (Err(e), s1),
    }
}

/// Functions, each with an optional `pub` or `export`, after `acc`, up to `}`.
pub open spec fn methods_spec(st: PState, acc: Seq<FunctionDeclView>) -> PResult<Seq<FunctionDeclView>>
    decreases measure(st),
{
    if check_spec(st, TK::CloseBrace) {
        (Ok(acc), st)
    } else {
        let (vis, s1) = visibility_spec(st);
        match function_spec(s1, vis) {
            (Ok(f), s2) => if lt(s2, st) {
                methods_spec(s2, acc.push(f))
            } else {
                stuck(s2)
            },
            (Err(e), s2) => (Err(e), s2),
        }
    }
}

/// `interface Name { fn sig; ... }` after `interface`.
pub open spec fn interface_spec(st: PState, vis: Visibility) -> PResult<ItemView> {
    match expect_ident_spec(st, "interface name"@) {
        (Ok(name), s1) => match expect_spec(s1, TK::OpenBrace, "'{' after interface name"@) {
            (Ok(_), s2) => match interface_methods_spec(s2, seq![]) {
                (Ok(methods), s3) => match expect_spec(s3, TK::CloseBrace, "'}' after interface body"@) {
                    (Ok(_), s4) => (
                        Ok(ItemView::Interface(InterfaceDeclView { name, visibility: vis, methods, span: s4.previous.span })),
                        s4,
                    ),
                    (Err(e), s4) => (Err(e), s4),
                },
                (Err(e), s3) => (Err(e), s3),
            },
            (Err(e), s2) => (Err(e), s2),
        },
        (Err(e), s1) => (Err(e), s1),
    }
}

/// Interface method signatures after `acc`, up to `}`.
pub open spec fn interface_methods_spec(st: PState, acc: Seq<InterfaceMethodView>) -> PResult<Seq<InterfaceMethodView>>
    decreases measure(st),
{
    if check_spec(st, TK::CloseBrace) {
        (Ok(acc), st)
    } else {
        match interface_method_spec(st) {
            (Ok(m), s1) => if lt(s1, st) {
                interface_methods_spec(s1, acc.push(m))
            } else {
                stuck(s1)
            },
            (Err(e), s1) => (Err(e), s1),
        }
    }
}

/// An interface method signature `fn name(params): T;`.
pub open spec fn interface_method_spec(st: PState) -> PResult<InterfaceMethodView> {
    match expect_spec(st, TK::Fn, "'fn' for interface method"@) {
        (Ok(_), s1) => match expect_ident_spec(s1, "method name"@) {
            (Ok(name), s2) => match params_spec(s2) {
                (Ok(params), s3) => interface_method_rest_spec(s3, name, params),
                (Err(e), s3) => (Err(e), s3),
            },
            (Err(e), s2) => (Err(e), s2),
        },
        (Err(e), s1) => (Err(e), s1),
    }
}

/// The return type and `;` of an interface method signature.
pub open spec fn interface_method_rest_spec(st: PState, name: Seq<char>, params: Seq<ParamView>) -> PResult<InterfaceMethodView> {
    match return_type_spec(st) {
        (Ok(return_type), s1) => match expect_spec(s1, TK::Semicolon, "';' after interface method signature"@) {
            (Ok(_), s2) => (Ok(InterfaceMethodView { name, params, return_type, span: s2.previous.span }), s2),
            (Err(e), s2) => (Err(e), s2),
        },
        (Err(e), s1) => (Err(e), s1),
    }
}

/// An optional `: T`.
pub open spec fn return_type_spec(st: PState) -> PResult<Option<TypeExprView>> {
    if check_spec(st, TK::Colon) {
        match type_spec(advance_spec(st)) {
            (Ok(t), s1) => (Ok(Some(t)), s1),
            (Err(e), s1) => (Err(e), s1),
        }
    } else {
        (Ok(None), st)
    }
}

/// An optional `= value`.
pub open spec fn default_value_spec(st: PState) -> PResult<Option<ExprView>> {
    if check_spec(st, TK::Eq) {
        match expr_spec(advance_spec(st)) {
            (Ok(e), s1) => (Ok(Some(e)), s1),
            (Err(e), s1) => (Err(e), s1),
        }
    } else {
        (Ok(None), st)
    }
}

/// `type Name = distinct T;` after `type`; `distinct` is optional.
pub open spec fn type_alias_spec(st: PState, vis: Visibility) -> PResult<ItemView> {
    match expect_ident_spec(st, "type alias name"@) {
        (Ok(name), s1) => match expect_spec(s1, TK::Eq, "'=' in type alias"@) {
            (Ok(_), s2) => {
                let (is_distinct, s3) = match_spec(s2, TK::Distinct);
                match type_spec(s3) {
                    (Ok(target), s4) => match expect_spec(s4, TK::Semicolon, "';' after type alias"@) {
                        (Ok(_), s5) => (
                            Ok(ItemView::TypeAlias(TypeAliasDeclView { name, visibility: vis, is_distinct, target, span: s5.previous.span })),
                            s5,
                        ),
                        (Err(e), s5) => (Err(e), s5),
                    },
                    (Err(e), s4) => (Err(e), s4),
                }
            },
            (Err(e), s2) => (Err(e), s2),
        },
        (Err(e), s1) => (Err(e), s1),
    }
}

/// `enum(T) Name { A = v, B, ... }` after `enum`, whose span is `span`; the
/// backing type is optional.
pub open spec fn enum_spec(st: PState, vis: Visibility, span: Span) -> PResult<ItemView> {
    match enum_backing_spec(st) {
        (Ok(backing_type), s1) => match expect_ident_spec(s1, "enum name"@) {
            (Ok(name), s2) => match expect_spec(s2, TK::OpenBrace, "'{' for enum variants"@) {
                (Ok(_), s3) => enum_body_spec(s3, vis, span, name, backing_type),
                (Err(e), s3) => (Err(e), s3),
            },
            (Err(e), s2) => (Err(e), s2),
        },
        (Err(e), s1) => (Err(e), s1),
    }
}

/// An optional `(T)` after `enum`.
pub open spec fn enum_backing_spec(st: PState) -> PResult<Option<TypeExprView>> {
    if check_spec(st, TK::OpenParen) {
        match type_spec(advance_spec(st)) {
            (Ok(t), s1) => match expect_spec(s1, TK::CloseParen, "')' after enum backing type"@) {
                (Ok(_), s2) => (Ok(Some(t)), s2),
                (Err(e), s2) => (Err(e), s2),
            },
            (Err(e), s1) => (Err(e), s1),
        }
    } else {
        (Ok(None), st)
    }
}

/// The variants of an enum and the closing `}`.
pub open spec fn enum_body_spec(
    st: PState,
    vis: Visibility,
    span: Span,
    name: Seq<char>,
    backing_type: Option<TypeExprView>,
) -> PResult<ItemView> {
    match variants_spec(st, seq![]) {
        (Ok(variants), s1) => match expect_spec(s1, TK::CloseBrace, "'}' after enum variants"@) {
            (Ok(_), s2) => (Ok(ItemView::Enum(EnumDeclView { name, visibility: vis, backing_type, variants, span })), s2),
            (Err(e), s2) => (Err(e), s2),
        },
        (Err(e), s1) => (Err(e), s1),
    }
}

/// Enum variants separated by commas, after `acc`, up to `}`.
pub open spec fn variants_spec(st: PState, acc: Seq<EnumVariantView>) -> PResult<Seq<EnumVariantView>>
    decreases measure(st),
{
    if check_spec(st, TK::CloseBrace) {
        (Ok(acc), st)
    } else {
        match variant_spec(st) {
            (Ok(v), s1) => {
                let acc2 = acc.push(v);
                if check_spec(s1, TK::Comma) {
                    let s2 = advance_spec(s1);
                    if lt(s2, st) {
                        variants_spec(s2, acc2)
                    } else {
                        stuck(s2)
                    }
                } else {
                    (Ok(acc2), s1)
                }
            },
            (Err(e), s1) => (Err(e), s1),
        }
    }
}

/// An enum variant `Name` or `Name = value`.
pub open spec fn variant_spec(st: PState) -> PResult<EnumVariantView> {
    match expect_ident_spec(st, "enum variant name"@) {
        (Ok(name), s1) => match default_value_spec(s1) {
            (Ok(value), s2) => (Ok(EnumVariantView { name, value, span: s2.previous.span }), s2),
            (Err(e), s2) => (Err(e), s2),
        },
        (Err(e), s1) => (Err(e), s1),
    }
}

/// `union(enum) Name { a: T, b, ... }` after `union`, whose span is `span`;
/// `(enum)` makes it tagged.
pub open spec fn union_spec(st: PState, vis: Visibility, span: Span) -> PResult<ItemView> {
    match union_tag_spec(st) {
        (Ok(is_tagged), s1) => match expect_ident_spec(s1, "union name"@) {
            (Ok(name), s2) => match expect_spec(s2, TK::OpenBrace, "'{' for union fields"@) {
                (Ok(_), s3) => union_body_spec(s3, vis, span, name, is_tagged),
                (Err(e), s3) => (Err(e), s3),
            },
            (Err(e), s2) => (Err(e), s2),
        },
        (Err(e), s1) => (Err(e), s1),
    }
}

/// An optional `(enum)` after `union`.
pub open spec fn union_tag_spec(st: PState) -> PResult<bool> {
    if check_spec(st, TK::OpenParen) {
        match expect_spec(advance_spec(st), TK::Enum, "'enum' in union(enum)"@) {
            (Ok(_), s1) => match expect_spec(s1, TK::CloseParen, "')' after union(enum)"@) {
                (Ok(_), s2) => (Ok(true), s2),
                (Err(e), s2) => (Err(e), s2),
            },
            (Err(e), s1) => (Err(e), s1),
        }
    } else {
        (Ok(false), st)
    }
}

/// The fields of a union and the closing `}`.
pub open spec fn union_body_spec(st: PState, vis: Visibility, span: Span, name: Seq<char>, is_tagged: bool) -> PResult<ItemView> {
    match union_fields_spec(st, seq![]) {
        (Ok(fields), s1) => match expect_spec(s1, TK::CloseBrace, "'}' after union fields"@) {
            (Ok(_), s2) => (Ok(ItemView::Union(UnionDeclView { name, visibility: vis, is_tagged, fields, span })), s2),
            (Err(e), s2) => (Err(e), s2),
        },
        (Err(e), s1) => (Err(e), s1),
    }
}

/// Union fields separated by commas, after `acc`, up to `}`.
pub open spec fn union_fields_spec(st: PState, acc: Seq<UnionFieldView>) -> PResult<Seq<UnionFieldView>>
    decreases measure(st),
{
    if check_spec(st, TK::CloseBrace) {
        (Ok(acc), st)
    } else {
        match union_field_spec(st) {
            (Ok(f), s1) => {
                let acc2 = acc.push(f);
                if check_spec(s1, TK::Comma) {
                    let s2 = advance_spec(s1);
                    if lt(s2, st) {
                        union_fields_spec(s2, acc2)
                    } else {
                        stuck(s2)
                    }
                } else {
                    (Ok(acc2), s1)
                }
            },
            (Err(e), s1) => (Err(e), s1),
        }
    }
}

/// A union field `name` or `name: T`.
pub open spec fn union_field_spec(st: PState) -> PResult<UnionFieldView> {
    match expect_ident_spec(st, "union variant name"@) {
        (Ok(name), s1) => match return_type_spec(s1) {
            (Ok(ty), s2) => (Ok(UnionFieldView { name, ty, span: s2.previous.span }), s2),
            (Err(e), s2) => (Err(e), s2),
        },
        (Err(e), s1) => (Err(e), s1),
    }
}

/// `struct Name { fields and methods }`, `packed struct ...` or `extern struct ...`.
pub open spec fn struct_spec(st: PState, vis: Visibility) -> PResult<ItemView> {
    match struct_kind_spec(st) {
        (Ok(kind), s1) => match expect_ident_spec(s1, "struct name"@) {
            (Ok(name), s2) => match expect_spec(s2, TK::OpenBrace, "'{' after struct name"@) {
                (Ok(_), s3) => struct_body_spec(s3, vis, kind, name),
                (Err(e), s3) => (Err(e), s3),
            },
            (Err(e), s2) => (Err(e), s2),
        },
        (Err(e), s1) => (Err(e), s1),
    }
}

/// The keyword or keywords that start a struct: `struct`, `packed struct`
/// or `extern struct`.
pub open spec fn struct_kind_spec(st: PState) -> PResult<StructKind> {
    if check_spec(st, TK::Packed) {
        match expect_spec(advance_spec(st), TK::Struct, "'struct' after packed"@) {
            (Ok(_), s1) => (Ok(StructKind::Packed), s1),
            (Err(e), s1) => (Err(e), s1),
        }
    } else if check_spec(st, TK::Extern) {
        match expect_spec(advance_spec(st), TK::Struct, "'struct' after extern"@) {
            (Ok(_), s1) => (Ok(StructKind::Extern), s1),
            (Err(e), s1) => (Err(e), s1),
        }
    } else {
        match expect_spec(st, TK::Struct, "'struct' keyword"@) {
            (Ok(_), s1) => (Ok(StructKind::Normal), s1),
            (Err(e), s1) => (Err(e), s1),
        }
    }
}

/// The members of a struct and the closing `}`.
pub open spec fn struct_body_spec(st: PState, vis: Visibility, kind: StructKind, name: Seq<char>) -> PResult<ItemView> {
    match members_spec(st, seq![], seq![]) {
        (Ok((fields, methods)), s1) => match expect_spec(s1, TK::CloseBrace, "'}' after struct body"@) {
            (Ok(_), s2) => (
                Ok(ItemView::Struct(StructDeclView { name, visibility: vis, kind, fields, methods, span: s2.previous.span })),
                s2,
            ),
            (Err(e), s2) => (Err(e), s2),
        },
        (Err(e), s1) => (Err(e), s1),
    }
}

/// The members of a struct after `fields` and `methods`, up to `}`: a member
/// that starts with `pub`, `export`, `fn` or `static` is a method, any other a field.
pub open spec fn members_spec(st: PState, fields: Seq<StructFieldView>, methods: Seq<FunctionDeclView>) -> PResult<
    (Seq<StructFieldView>, Seq<FunctionDeclView>),
>
    decreases measure(st),
{
    if check_spec(st, TK::CloseBrace) {
        (Ok((fields, methods)), st)
    } else if check_spec(st, TK::Pub) || check_spec(st, TK::Export) || check_spec(st, TK::Fn) || check_spec(
        st,
        TK::Static,
    ) {
        let (vis, s1) = visibility_spec(st);
        match function_spec(s1, vis) {
            (Ok(f), s2) => if lt(s2, st) {
                members_spec(s2, fields, methods.push(f))
            } else {
                stuck(s2)
            },
            (Err(e), s2) => (Err(e), s2),
        }
    } else {
        match field_spec(st) {
            (Ok(f), s1) => if lt(s1, st) {
                members_spec(s1, fields.push(f), methods)
            } else {
                stuck(s1)
            },
            (Err(e), s1) => (Err(e), s1),
        }
    }
}

/// A struct field `name: T = value,` (default and comma optional), or an
/// embedded type `Name,` (comma optional).
pub open spec fn field_spec(st: PState) -> PResult<StructFieldView> {
    match expect_ident_spec(st, "field name or embedded type"@) {
        (Ok(first), s1) => if check_spec(s1, TK::Colon) {
            named_field_spec(advance_spec(s1), first)
        } else {
            let (_c, s2) = match_spec(s1, TK::Comma);
            (
                Ok(StructFieldView {
                    name: None,
                    ty: TypeExprView::Named(first, s2.previous.span),
                    default_val: None,
                    span: s2.previous.span,
                }),
                s2,
            )
        },
        (Err(e), s1) => (Err(e), s1),
    }
}

/// The type, optional default and optional comma of a named struct field.
pub open spec fn named_field_spec(st: PState, name: Seq<char>) -> PResult<StructFieldView> {
    match type_spec(st) {
        (Ok(ty), s1) => match default_value_spec(s1) {
            (Ok(default_val), s2) => {
                let (_c, s3) = match_spec(s2, TK::Comma);
                (Ok(StructFieldView { name: Some(name), ty, default_val, span: s3.previous.span }), s3)
            },
            (Err(e), s2) => (Err(e), s2),
        },
        (Err(e), s1) => (Err(e), s1),
    }
}

/// A function: `static`, `inline`, `const` and `naked` (each optional, in
/// that order), `fn`, its name, and the rest.
pub open spec fn function_spec(st: PState, vis: Visibility) -> PResult<FunctionDeclView> {
    let (is_static, s1) = match_spec(st, TK::Static);
    let (is_inline, s2) = match_spec(s1, TK::Inline);
    let (is_const, s3) = match_spec(s2, TK::Const);
    let (is_naked, s4) = match_spec(s3, TK::Naked);
    match expect_spec(s4, TK::Fn, "'fn' keyword"@) {
        (Ok(_), s5) => match expect_ident_spec(s5, "function name"@) {
            (Ok(name), s6) => function_rest_spec(
                s6,
                FunctionDeclView {
                    name,
                    visibility: vis,
                    is_static,
                    is_inline,
                    is_const,
                    is_naked,
                    params: seq![],
                    return_type: None,
                    body: None,
                    span: s6.previous.span,
                },
            ),
            (Err(e), s6) => (Err(e), s6),
        },
        (Err(e), s5) => (Err(e), s5),
    }
}

/// The parameters, optional return type and body of the function whose
/// name and modifiers `head` holds.
pub open spec fn function_rest_spec(st: PState, head: FunctionDeclView) -> PResult<FunctionDeclView> {
    match params_spec(st) {
        (Ok(params), s1) => match return_type_spec(s1) {
            (Ok(return_type), s2) => match function_body_spec(s2) {
                (Ok(body), s3) => (
                    Ok(FunctionDeclView { params, return_type, body, span: s3.previous.span, ..head }),
                    s3,
                ),
                (Err(e), s3) => (Err(e), s3),
            },
            (Err(e), s2) => (Err(e), s2),
        },
        (Err(e), s1) => (Err(e), s1),
    }
}

/// A function body: `=> value;`, a block, or `;` for an external function.
pub open spec fn function_body_spec(st: PState) -> PResult<Option<FunctionBodyView>> {
    if check_spec(st, TK::FatArrow) {
        match expr_spec(advance_spec(st)) {
            (Ok(e), s1) => match expect_spec(s1, TK::Semicolon, "';' after expression function body"@) {
                (Ok(_), s2) => (Ok(Some(FunctionBodyView::Expr(Box::new(e)))), s2),
                (Err(m), s2) => (Err(m), s2),
            },
            (Err(m), s1) => (Err(m), s1),
        }
    } else if check_spec(st, TK::OpenBrace) {
        match block_spec(st) {
            (Ok(b), s1) => (Ok(Some(FunctionBodyView::Block(b))), s1),
            (Err(e), s1) => (Err(e), s1),
        }
    } else {
        match expect_spec(st, TK::Semicolon, "';' after extern function declaration"@) {
            (Ok(_), s1) => (Ok(None), s1),
            (Err(e), s1) => (Err(e), s1),
        }
    }
}

/// A parameter list `(p, ...)`.
pub open spec fn params_spec(st: PState) -> PResult<Seq<ParamView>> {
    match expect_spec(st, TK::OpenParen, "'(' before parameters"@) {
        (Ok(_), s1) => match param_list_spec(s1, seq![]) {
            (Ok(params), s2) => match expect_spec(s2, TK::CloseParen, "')' after parameters"@) {
                (Ok(_), s3) => (Ok(params), s3),
                (Err(e), s3) => (Err(e), s3),
            },
            (Err(e), s2) => (Err(e), s2),
        },
        (Err(e), s1) => (Err(e), s1),
    }
}

/// Parameters separated by commas, after `acc`, up to `)`.
pub open spec fn param_list_spec(st: PState, acc: Seq<ParamView>) -> PResult<Seq<ParamView>>
    decreases measure(st),
{
    if check_spec(st, TK::CloseParen) {
        (Ok(acc), st)
    } else {
        match param_spec(st) {
            (Ok(p), s1) => {
                let acc2 = acc.push(p);
                if check_spec(s1, TK::Comma) {
                    let s2 = advance_spec(s1);
                    if lt(s2, st) {
                        param_list_spec(s2, acc2)
                    } else {
                        stuck(s2)
                    }
                } else {
                    (Ok(acc2), s1)
                }
            },
            (Err(e), s1) => (Err(e), s1),
        }
    }
}

/// A parameter `name: T = default` or `label name: T = default`; the default
/// is optional. A parameter that starts with `&` is a receiver.
pub open spec fn param_spec(st: PState) -> PResult<ParamView> {
    if check_spec(st, TK::Ampersand) {
        receiver_spec(advance_spec(st), st.current.span)
    } else {
        match expect_ident_spec(st, "parameter name"@) {
            (Ok(first), s1) => match s1.current.kind {
                TK::Ident(second) => param_rest_spec(advance_spec(s1), Some(first), second),
                _ => param_rest_spec(s1, None, first),
            },
            (Err(e), s1) => (Err(e), s1),
        }
    }
}

/// A receiver `&self` or `&mut self` after its `&`, which stands at `span`:
/// the parameter `self`, a pointer to `Self` that is constant unless `mut`
/// is written. Anything else in place of `self` is a bad receiver.
pub open spec fn receiver_spec(st: PState, span: Span) -> PResult<ParamView> {
    let (is_mut, s1) = match_spec(st, TK::Ident("mut"@));
    if check_spec(s1, TK::Ident("self"@)) {
        let s2 = advance_spec(s1);
        (
            Ok(
                ParamView {
                    name: "self"@,
                    label: None,
                    ty: TypeExprView::Pointer(Box::new(TypeExprView::Named("Self"@, span)), !is_mut, span),
                    default_val: None,
                    span: s2.previous.span,
                },
            ),
            s2,
        )
    } else {
        (
            Err(bad_receiver_text(s1.current.span.line, s1.current.span.col, token_kind_debug(s1.current.kind))),
            s1,
        )
    }
}

/// The `: T` and optional default of a parameter.
pub open spec fn param_rest_spec(st: PState, label: Option<Seq<char>>, name: Seq<char>) -> PResult<ParamView> {
    match expect_spec(st, TK::Colon, "':' after parameter name"@) {
        (Ok(_), s1) => match type_spec(s1) {
            (Ok(ty), s2) => match default_value_spec(s2) {
                (Ok(default_val), s3) => (Ok(ParamView { name, label, ty, default_val, span: s3.previous.span }), s3),
                (Err(e), s3) => (Err(e), s3),
            },
            (Err(e), s2) => (Err(e), s2),
        },
        (Err(e), s1) => (Err(e), s1),
    }
}

} // verus!
