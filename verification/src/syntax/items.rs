//! The parser for top-level items: each function parses one declaration or
//! one part of it, and is held to its description in `itemspec`.

use vstd::prelude::*;
use crate::syntax::ast::{
    EnumDecl, EnumVariant, Expr, ExtendDecl, FunctionBody, FunctionDecl, ImportDecl, InterfaceDecl,
    InterfaceMethod, Item, ItemView, Param, SourceFile, StructDecl, StructField, StructKind,
    TestDecl, TypeAliasDecl, TypeExpr, UnionDecl, UnionField, Visibility, EnumVariantView,
    FunctionDeclView, InterfaceMethodView, ParamView, StructFieldView, UnionFieldView,
};
use crate::syntax::astview::{
    view_seq, lemma_source_file_view, lemma_enum_decl_view, lemma_enum_variant_view,
    lemma_union_decl_view, lemma_union_field_view, lemma_import_decl_view, lemma_function_decl_view,
    lemma_param_view, lemma_struct_decl_view, lemma_struct_field_view, lemma_interface_decl_view,
    lemma_interface_method_view, lemma_extend_decl_view, lemma_type_alias_decl_view,
    lemma_test_decl_view, lemma_item_function_view, lemma_item_struct_view,
    lemma_item_interface_view, lemma_item_extend_view, lemma_item_type_alias_view,
    lemma_item_test_view, lemma_item_global_view, lemma_item_import_view, lemma_item_enum_view,
    lemma_item_union_view, lemma_function_body_block_view, lemma_function_body_expr_view,
    lemma_type_expr_named_view, lemma_type_expr_pointer_view,
};
use crate::syntax::chars::{
    text, word_eq_string,
};
use crate::syntax::diag::{
    bad_import_error, bad_receiver_error, bad_test_header_error, joined, unexpected_top_level_error,
};
use crate::syntax::itemspec::{
    parse_file_spec, file_spec, visibility_spec, top_level_error, item_spec, global_spec,
    import_spec, import_names_spec, import_from_spec, test_spec, extend_spec, methods_spec,
    interface_spec, interface_methods_spec, interface_method_spec, interface_method_rest_spec,
    return_type_spec, default_value_spec, type_alias_spec, enum_spec, enum_backing_spec,
    enum_body_spec, variants_spec, variant_spec, union_spec, union_tag_spec, union_body_spec,
    union_fields_spec, union_field_spec, struct_spec, struct_kind_spec, struct_body_spec,
    members_spec, field_spec, named_field_spec, function_spec, function_rest_spec,
    function_body_spec, params_spec, param_list_spec, param_spec, param_rest_spec, receiver_spec,
};
use crate::syntax::parser::{
    Parser, result_view, result_view_opt, result_view_vec,
};
use crate::syntax::parsespec::{
    measure, lt, le,
};
use crate::syntax::token::{
    debug_text, Span, TokenKind,
};

verus! {

/// The view of a result that holds a plain value.
pub open spec fn result_plain<T>(r: Result<T, String>) -> Result<T, Seq<char>> {
    match r {
        Ok(x) => Ok(x),
        Err(e) => Err(e@),
    }
}

/// The view of a result that holds a struct's fields and methods.
pub open spec fn members_view(r: Result<(Vec<StructField>, Vec<FunctionDecl>), String>) -> Result<
    (Seq<StructFieldView>, Seq<FunctionDeclView>),
    Seq<char>,
> {
    match r {
        Ok((f, m)) => Ok((view_seq(f@), view_seq(m@))),
        Err(e) => Err(e@),
    }
}

/// The message for a token of kind `kind` at `span` that cannot start a declaration.
fn top_level_message(span: Span, kind: &TokenKind) -> (m: String)
    ensures
        m@ == top_level_error(span.line, span.col, kind@),
{
    let d = debug_text(kind);
    unexpected_top_level_error(span.line, span.col, d.as_str())
}

impl Parser {
    /// Parses a whole file: its items, up to the end of the input.
    #[verifier::spinoff_prover]
    pub fn parse_file(&mut self) -> (r: Result<SourceFile, String>)
        requires
            old(self).wf(),
        ensures
            final(self).wf(),
            (result_view(r), final(self)@) == parse_file_spec(old(self)@),
    {
        let ghost st0 = self@;
        proof {
            self.lemma_wf();
        }
        let mut items: Vec<Item> = Vec::new();
        assert(view_seq(items@) =~= Seq::<ItemView>::empty());
        loop
            invariant
                self.wf(),
                st0 == old(self)@,
                le(self@, st0),
                file_spec(self@, view_seq(items@)) == file_spec(st0, seq![]),
            decreases measure(self@),
        {
            if self.check(&TokenKind::Eof) {
                let f = SourceFile { items };
                proof {
                    lemma_source_file_view(f);
                }
                return Ok(f);
            }
            let item = match self.parse_item() {
                Ok(i) => i,
                Err(e) => return Err(e),
            };
            proof {
                assert(view_seq(items@.push(item)) =~= view_seq(items@).push(item@));
            }
            items.push(item);
        }
    }

    /// Consumes `pub` or `export`, if present: either makes a declaration exported.
    fn parse_visibility(&mut self) -> (v: Visibility)
        requires
            old(self).wf(),
        ensures
            final(self).wf(),
            (v, final(self)@) == visibility_spec(old(self)@),
            le(final(self)@, old(self)@),
    {
        if self.check(&TokenKind::Pub) || self.check(&TokenKind::Export) {
            self.advance();
            Visibility::Export
        } else {
            proof {
                self.lemma_wf();
            }
            Visibility::Private
        }
    }

    /// Parses one top-level item, chosen by its first keyword after the visibility.
    #[verifier::spinoff_prover]
    fn parse_item(&mut self) -> (r: Result<Item, String>)
        requires
            old(self).wf(),
        ensures
            final(self).wf(),
            (result_view(r), final(self)@) == item_spec(old(self)@),
            le(final(self)@, old(self)@),
            r is Ok ==> lt(final(self)@, old(self)@),
    {
        let vis = self.parse_visibility();
        if self.check(&TokenKind::Import) {
            let span = self.current_span();
            self.advance();
            return self.parse_import(span);
        }
        if self.match_token(&TokenKind::Test) {
            return self.parse_test();
        }
        if self.match_token(&TokenKind::Extend) {
            return self.parse_extend();
        }
        if self.match_token(&TokenKind::Interface) {
            return self.parse_interface(vis);
        }
        if self.match_token(&TokenKind::Type) {
            return self.parse_type_alias(vis);
        }
        if self.check(&TokenKind::Enum) {
            let span = self.current_span();
            self.advance();
            return self.parse_enum(vis, span);
        }
        if self.check(&TokenKind::Union) {
            let span = self.current_span();
            self.advance();
            return self.parse_union(vis, span);
        }
        if self.check(&TokenKind::Struct) || self.check(&TokenKind::Packed) || self.check(&TokenKind::Extern) {
            return self.parse_struct(vis);
        }
        if self.check(&TokenKind::Fn) || self.check(&TokenKind::Static) || self.check(&TokenKind::Inline)
            || self.check(&TokenKind::Const) || self.check(&TokenKind::Naked) {
            let f = match self.parse_function(vis) {
                Ok(f) => f,
                Err(e) => return Err(e),
            };
            let it = Item::Function(f);
            proof {
                lemma_item_function_view(it);
            }
            return Ok(it);
        }
        if self.check(&TokenKind::Let) || self.check(&TokenKind::Var) {
            let is_var = self.check(&TokenKind::Var);
            self.advance();
            return self.parse_global(is_var);
        }
        let span = self.current_span();
        Err(top_level_message(span, self.current_kind()))
    }

    /// Parses a global `let` or `var` declaration after its keyword, and its `;`.
    fn parse_global(&mut self, is_var: bool) -> (r: Result<Item, String>)
        requires
            old(self).wf(),
        ensures
            final(self).wf(),
            (result_view(r), final(self)@) == global_spec(old(self)@, is_var),
            le(final(self)@, old(self)@),
    {
        let v = match self.parse_var_decl(is_var) {
            Ok(v) => v,
            Err(e) => return Err(e),
        };
        let what = if is_var { "';' after var declaration" } else { "';' after let declaration" };
        match self.expect(&TokenKind::Semicolon, what) {
            Ok(_) => {},
            Err(e) => return Err(e),
        }
        let it = Item::Global(v);
        proof {
            lemma_item_global_view(it);
        }
        Ok(it)
    }

    /// Parses `{ a, b } from "path";` after `import`, whose span is `start_span`.
    fn parse_import(&mut self, start_span: Span) -> (r: Result<Item, String>)
        requires
            old(self).wf(),
        ensures
            final(self).wf(),
            (result_view(r), final(self)@) == import_spec(old(self)@, start_span),
            le(final(self)@, old(self)@),
    {
        proof {
            self.lemma_wf();
        }
        if !self.check(&TokenKind::OpenBrace) {
            let cur = self.current_span();
            let d = debug_text(self.current_kind());
            let msg = joined("Expected '{' for selective import, got ", d.as_str());
            return Err(bad_import_error(cur.line, cur.col, msg.as_str()));
        }
        self.advance();
        let names = match self.parse_import_names() {
            Ok(n) => n,
            Err(e) => return Err(e),
        };
        match self.expect(&TokenKind::CloseBrace, "'}' after import list") {
            Ok(_) => {},
            Err(e) => return Err(e),
        }
        self.parse_import_from(names, start_span)
    }

    /// Parses imported names separated by commas, up to `}`.
    fn parse_import_names(&mut self) -> (r: Result<Vec<String>, String>)
        requires
            old(self).wf(),
        ensures
            final(self).wf(),
            (result_view_vec(r), final(self)@) == import_names_spec(old(self)@, seq![]),
            le(final(self)@, old(self)@),
    {
        let ghost st0 = self@;
        proof {
            self.lemma_wf();
        }
        let mut names: Vec<String> = Vec::new();
        assert(view_seq(names@) =~= Seq::<Seq<char>>::empty());
        loop
            invariant
                self.wf(),
                st0 == old(self)@,
                le(self@, st0),
                import_names_spec(self@, view_seq(names@)) == import_names_spec(st0, seq![]),
            decreases measure(self@),
        {
            if self.check(&TokenKind::CloseBrace) {
                return Ok(names);
            }
            let name = match self.expect_ident("imported symbol name") {
                Ok(n) => n,
                Err(e) => return Err(e),
            };
            proof {
                assert(view_seq(names@.push(name)) =~= view_seq(names@).push(name@));
            }
            names.push(name);
            if !self.match_token(&TokenKind::Comma) {
                return Ok(names);
            }
        }
    }

    /// Parses `from "path";` after an import list.
    fn parse_import_from(&mut self, names: Vec<String>, start_span: Span) -> (r: Result<Item, String>)
        requires
            old(self).wf(),
        ensures
            final(self).wf(),
            (result_view(r), final(self)@) == import_from_spec(old(self)@, view_seq(names@), start_span),
            le(final(self)@, old(self)@),
    {
        let from_tok = self.advance();
        match from_tok.kind {
            TokenKind::Ident(w) => {
                if !word_eq_string(&w, "from") {
                    return Err(
                        bad_import_error(
                            from_tok.span.line,
                            from_tok.span.col,
                            "Expected 'from' after selective import list",
                        ),
                    );
                }
            },
            _ => return Err(bad_import_error(from_tok.span.line, from_tok.span.col, "Expected 'from' keyword")),
        }
        let path_tok = self.advance();
        let path = match path_tok.kind {
            TokenKind::StringLit(s) => s,
            _ => return Err(
                bad_import_error(path_tok.span.line, path_tok.span.col, "Expected string path for import"),
            ),
        };
        match self.expect(&TokenKind::Semicolon, "';' after import") {
            Ok(_) => {},
            Err(e) => return Err(e),
        }
        let decl = ImportDecl { path, alias: None, selective: names, span: start_span };
        proof {
            lemma_import_decl_view(decl);
        }
        let it = Item::Import(decl);
        proof {
            lemma_item_import_view(it);
        }
        Ok(it)
    }

    /// Parses `"name" { ... }` after `test`.
    fn parse_test(&mut self) -> (r: Result<Item, String>)
        requires
            old(self).wf(),
        ensures
            final(self).wf(),
            (result_view(r), final(self)@) == test_spec(old(self)@),
            le(final(self)@, old(self)@),
    {
        let name_tok = self.advance();
        let name = match name_tok.kind {
            TokenKind::StringLit(s) => s,
            _ => return Err(bad_test_header_error(name_tok.span.line, name_tok.span.col)),
        };
        let body = match self.parse_block() {
            Ok(b) => b,
            Err(e) => return Err(e),
        };
        let decl = TestDecl { name, body, span: name_tok.span };
        proof {
            lemma_test_decl_view(decl);
        }
        let it = Item::Test(decl);
        proof {
            lemma_item_test_view(it);
        }
        Ok(it)
    }

    /// Parses `Type { methods }` after `extend`.
    #[verifier::spinoff_prover]
    fn parse_extend(&mut self) -> (r: Result<Item, String>)
        requires
            old(self).wf(),
        ensures
            final(self).wf(),
            (result_view(r), final(self)@) == extend_spec(old(self)@),
            le(final(self)@, old(self)@),
    {
        let target = match self.expect_ident("type to extend") {
            Ok(t) => t,
            Err(e) => return Err(e),
        };
        match self.expect(&TokenKind::OpenBrace, "'{' after extend type") {
            Ok(_) => {},
            Err(e) => return Err(e),
        }
        let methods = match self.parse_methods() {
            Ok(m) => m,
            Err(e) => return Err(e),
        };
        match self.expect(&TokenKind::CloseBrace, "'}' after extend methods") {
            Ok(_) => {},
            Err(e) => return Err(e),
        }
        let decl = ExtendDecl { target, methods, span: self.previous_span() };
        proof {
            lemma_extend_decl_view(decl);
        }
        let it = Item::Extend(decl);
        proof {
            lemma_item_extend_view(it);
        }
        Ok(it)
    }

    /// Parses functions, each with an optional `pub` or `export`, up to `}`.
    fn parse_methods(&mut self) -> (r: Result<Vec<FunctionDecl>, String>)
        requires
            old(self).wf(),
        ensures
            final(self).wf(),
            (result_view_vec(r), final(self)@) == methods_spec(old(self)@, seq![]),
            le(final(self)@, old(self)@),
    {
        let ghost st0 = self@;
        proof {
            self.lemma_wf();
        }
        let mut methods: Vec<FunctionDecl> = Vec::new();
        assert(view_seq(methods@) =~= Seq::<FunctionDeclView>::empty());
        loop
            invariant
                self.wf(),
                st0 == old(self)@,
                le(self@, st0),
                methods_spec(self@, view_seq(methods@)) == methods_spec(st0, seq![]),
            decreases measure(self@),
        {
            if self.check(&TokenKind::CloseBrace) {
                return Ok(methods);
            }
            let vis = self.parse_visibility();
            let f = match self.parse_function(vis) {
                Ok(f) => f,
                Err(e) => return Err(e),
            };
            proof {
                assert(view_seq(methods@.push(f)) =~= view_seq(methods@).push(f@));
            }
            methods.push(f);
        }
    }

    /// Parses `Name { fn sig; ... }` after `interface`.
    #[verifier::spinoff_prover]
    fn parse_interface(&mut self, vis: Visibility) -> (r: Result<Item, String>)
        requires
            old(self).wf(),
        ensures
            final(self).wf(),
            (result_view(r), final(self)@) == interface_spec(old(self)@, vis),
            le(final(self)@, old(self)@),
    {
        let name = match self.expect_ident("interface name") {
            Ok(n) => n,
            Err(e) => return Err(e),
        };
        match self.expect(&TokenKind::OpenBrace, "'{' after interface name") {
            Ok(_) => {},
            Err(e) => return Err(e),
        }
        let methods = match self.parse_interface_methods() {
            Ok(m) => m,
            Err(e) => return Err(e),
        };
        match self.expect(&TokenKind::CloseBrace, "'}' after interface body") {
            Ok(_) => {},
            Err(e) => return Err(e),
        }
        let decl = InterfaceDecl { name, visibility: vis, methods, span: self.previous_span() };
        proof {
            lemma_interface_decl_view(decl);
        }
        let it = Item::Interface(decl);
        proof {
            lemma_item_interface_view(it);
        }
        Ok(it)
    }

    /// Parses interface method signatures up to `}`.
    fn parse_interface_methods(&mut self) -> (r: Result<Vec<InterfaceMethod>, String>)
        requires
            old(self).wf(),
        ensures
            final(self).wf(),
            (result_view_vec(r), final(self)@) == interface_methods_spec(old(self)@, seq![]),
            le(final(self)@, old(self)@),
    {
        let ghost st0 = self@;
        proof {
            self.lemma_wf();
        }
        let mut methods: Vec<InterfaceMethod> = Vec::new();
        assert(view_seq(methods@) =~= Seq::<InterfaceMethodView>::empty());
        loop
            invariant
                self.wf(),
                st0 == old(self)@,
                le(self@, st0),
                interface_methods_spec(self@, view_seq(methods@)) == interface_methods_spec(st0, seq![]),
            decreases measure(self@),
        {
            if self.check(&TokenKind::CloseBrace) {
                return Ok(methods);
            }
            let m = match self.parse_interface_method() {
                Ok(m) => m,
                Err(e) => return Err(e),
            };
            proof {
                assert(view_seq(methods@.push(m)) =~= view_seq(methods@).push(m@));
            }
            methods.push(m);
        }
    }

    /// Parses an interface method signature `fn name(params): T;`.
    fn parse_interface_method(&mut self) -> (r: Result<InterfaceMethod, String>)
        requires
            old(self).wf(),
        ensures
            final(self).wf(),
            (result_view(r), final(self)@) == interface_method_spec(old(self)@),
            le(final(self)@, old(self)@),
            r is Ok ==> lt(final(self)@, old(self)@),
    {
        match self.expect(&TokenKind::Fn, "'fn' for interface method") {
            Ok(_) => {},
            Err(e) => return Err(e),
        }
        let name = match self.expect_ident("method name") {
            Ok(n) => n,
            Err(e) => return Err(e),
        };
        let params = match self.parse_params() {
            Ok(p) => p,
            Err(e) => return Err(e),
        };
        self.parse_interface_method_rest(name, params)
    }

    /// Parses the return type and `;` of an interface method signature.
    fn parse_interface_method_rest(&mut self, name: String, params: Vec<Param>) -> (r: Result<InterfaceMethod, String>)
        requires
            old(self).wf(),
        ensures
            final(self).wf(),
            (result_view(r), final(self)@) == interface_method_rest_spec(old(self)@, name@, view_seq(params@)),
            le(final(self)@, old(self)@),
    {
        let return_type = match self.parse_return_type() {
            Ok(t) => t,
            Err(e) => return Err(e),
        };
        match self.expect(&TokenKind::Semicolon, "';' after interface method signature") {
            Ok(_) => {},
            Err(e) => return Err(e),
        }
        let m = InterfaceMethod { name, params, return_type, span: self.previous_span() };
        proof {
            lemma_interface_method_view(m);
        }
        Ok(m)
    }

    /// Parses an optional `: T`.
    fn parse_return_type(&mut self) -> (r: Result<Option<TypeExpr>, String>)
        requires
            old(self).wf(),
        ensures
            final(self).wf(),
            (result_view_opt(r), final(self)@) == return_type_spec(old(self)@),
            le(final(self)@, old(self)@),
    {
        if self.match_token(&TokenKind::Colon) {
            match self.parse_type() {
                Ok(t) => Ok(Some(t)),
                Err(e) => Err(e),
            }
        } else {
            Ok(None)
        }
    }

    /// Parses an optional `= value`.
    fn parse_default_value(&mut self) -> (r: Result<Option<Expr>, String>)
        requires
            old(self).wf(),
        ensures
            final(self).wf(),
            (result_view_opt(r), final(self)@) == default_value_spec(old(self)@),
            le(final(self)@, old(self)@),
    {
        if self.match_token(&TokenKind::Eq) {
            match self.parse_expr() {
                Ok(e) => Ok(Some(e)),
                Err(e) => Err(e),
            }
        } else {
            Ok(None)
        }
    }

    /// Parses `Name = distinct T;` after `type`.
    #[verifier::spinoff_prover]
    fn parse_type_alias(&mut self, vis: Visibility) -> (r: Result<Item, String>)
        requires
            old(self).wf(),
        ensures
            final(self).wf(),
            (result_view(r), final(self)@) == type_alias_spec(old(self)@, vis),
            le(final(self)@, old(self)@),
    {
        let name = match self.expect_ident("type alias name") {
            Ok(n) => n,
            Err(e) => return Err(e),
        };
        match self.expect(&TokenKind::Eq, "'=' in type alias") {
            Ok(_) => {},
            Err(e) => return Err(e),
        }
        let is_distinct = self.match_token(&TokenKind::Distinct);
        let target = match self.parse_type() {
            Ok(t) => t,
            Err(e) => return Err(e),
        };
        match self.expect(&TokenKind::Semicolon, "';' after type alias") {
            Ok(_) => {},
            Err(e) => return Err(e),
        }
        let decl = TypeAliasDecl { name, visibility: vis, is_distinct, target, span: self.previous_span() };
        proof {
            lemma_type_alias_decl_view(decl);
        }
        let it = Item::TypeAlias(decl);
        proof {
            lemma_item_type_alias_view(it);
        }
        Ok(it)
    }

    /// Parses `(T) Name { A = v, B, ... }` after `enum`, whose span is `span`.
    fn parse_enum(&mut self, vis: Visibility, span: Span) -> (r: Result<Item, String>)
        requires
            old(self).wf(),
        ensures
            final(self).wf(),
            (result_view(r), final(self)@) == enum_spec(old(self)@, vis, span),
            le(final(self)@, old(self)@),
    {
        let backing_type = match self.parse_enum_backing() {
            Ok(b) => b,
            Err(e) => return Err(e),
        };
        let name = match self.expect_ident("enum name") {
            Ok(n) => n,
            Err(e) => return Err(e),
        };
        match self.expect(&TokenKind::OpenBrace, "'{' for enum variants") {
            Ok(_) => {},
            Err(e) => return Err(e),
        }
        self.parse_enum_body(vis, span, name, backing_type)
    }

    /// Parses an optional `(T)` after `enum`.
    fn parse_enum_backing(&mut self) -> (r: Result<Option<TypeExpr>, String>)
        requires
            old(self).wf(),
        ensures
            final(self).wf(),
            (result_view_opt(r), final(self)@) == enum_backing_spec(old(self)@),
            le(final(self)@, old(self)@),
    {
        if self.match_token(&TokenKind::OpenParen) {
            let ty = match self.parse_type() {
                Ok(t) => t,
                Err(e) => return Err(e),
            };
            match self.expect(&TokenKind::CloseParen, "')' after enum backing type") {
                Ok(_) => {},
                Err(e) => return Err(e),
            }
            Ok(Some(ty))
        } else {
            Ok(None)
        }
    }

    /// Parses the variants of an enum and the closing `}`.
    fn parse_enum_body(&mut self, vis: Visibility, span: Span, name: String, backing_type: Option<TypeExpr>) -> (r: Result<Item, String>)
        requires
            old(self).wf(),
        ensures
            final(self).wf(),
            (result_view(r), final(self)@) == enum_body_spec(
                old(self)@,
                vis,
                span,
                name@,
                match backing_type {
                    Some(t) => Some(t@),
                    None => None,
                },
            ),
            le(final(self)@, old(self)@),
    {
        let variants = match self.parse_variants() {
            Ok(v) => v,
            Err(e) => return Err(e),
        };
        match self.expect(&TokenKind::CloseBrace, "'}' after enum variants") {
            Ok(_) => {},
            Err(e) => return Err(e),
        }
        let decl = EnumDecl { name, visibility: vis, backing_type, variants, span };
        proof {
            lemma_enum_decl_view(decl);
        }
        let it = Item::Enum(decl);
        proof {
            lemma_item_enum_view(it);
        }
        Ok(it)
    }

    /// Parses enum variants separated by commas, up to `}`.
    fn parse_variants(&mut self) -> (r: Result<Vec<EnumVariant>, String>)
        requires
            old(self).wf(),
        ensures
            final(self).wf(),
            (result_view_vec(r), final(self)@) == variants_spec(old(self)@, seq![]),
            le(final(self)@, old(self)@),
    {
        let ghost st0 = self@;
        proof {
            self.lemma_wf();
        }
        let mut variants: Vec<EnumVariant> = Vec::new();
        assert(view_seq(variants@) =~= Seq::<EnumVariantView>::empty());
        loop
            invariant
                self.wf(),
                st0 == old(self)@,
                le(self@, st0),
                variants_spec(self@, view_seq(variants@)) == variants_spec(st0, seq![]),
            decreases measure(self@),
        {
            if self.check(&TokenKind::CloseBrace) {
                return Ok(variants);
            }
            let v = match self.parse_variant() {
                Ok(v) => v,
                Err(e) => return Err(e),
            };
            proof {
                assert(view_seq(variants@.push(v)) =~= view_seq(variants@).push(v@));
            }
            variants.push(v);
            if !self.match_token(&TokenKind::Comma) {
                return Ok(variants);
            }
        }
    }

    /// Parses an enum variant `Name` or `Name = value`.
    fn parse_variant(&mut self) -> (r: Result<EnumVariant, String>)
        requires
            old(self).wf(),
        ensures
            final(self).wf(),
            (result_view(r), final(self)@) == variant_spec(old(self)@),
            le(final(self)@, old(self)@),
            r is Ok ==> lt(final(self)@, old(self)@),
    {
        let name = match self.expect_ident("enum variant name") {
            Ok(n) => n,
            Err(e) => return Err(e),
        };
        let value = match self.parse_default_value() {
            Ok(v) => v,
            Err(e) => return Err(e),
        };
        let v = EnumVariant { name, value, span: self.previous_span() };
        proof {
            lemma_enum_variant_view(v);
        }
        Ok(v)
    }

    /// Parses `(enum) Name { a: T, b, ... }` after `union`, whose span is `span`.
    fn parse_union(&mut self, vis: Visibility, span: Span) -> (r: Result<Item, String>)
        requires
            old(self).wf(),
        ensures
            final(self).wf(),
            (result_view(r), final(self)@) == union_spec(old(self)@, vis, span),
            le(final(self)@, old(self)@),
    {
        let is_tagged = match self.parse_union_tag() {
            Ok(t) => t,
            Err(e) => return Err(e),
        };
        let name = match self.expect_ident("union name") {
            Ok(n) => n,
            Err(e) => return Err(e),
        };
        match self.expect(&TokenKind::OpenBrace, "'{' for union fields") {
            Ok(_) => {},
            Err(e) => return Err(e),
        }
        self.parse_union_body(vis, span, name, is_tagged)
    }

    /// Parses an optional `(enum)` after `union`.
    fn parse_union_tag(&mut self) -> (r: Result<bool, String>)
        requires
            old(self).wf(),
        ensures
            final(self).wf(),
            (result_plain(r), final(self)@) == union_tag_spec(old(self)@),
            le(final(self)@, old(self)@),
    {
        if self.match_token(&TokenKind::OpenParen) {
            match self.expect(&TokenKind::Enum, "'enum' in union(enum)") {
                Ok(_) => {},
                Err(e) => return Err(e),
            }
            match self.expect(&TokenKind::CloseParen, "')' after union(enum)") {
                Ok(_) => {},
                Err(e) => return Err(e),
            }
            Ok(true)
        } else {
            Ok(false)
        }
    }

    /// Parses the fields of a union and the closing `}`.
    fn parse_union_body(&mut self, vis: Visibility, span: Span, name: String, is_tagged: bool) -> (r: Result<Item, String>)
        requires
            old(self).wf(),
        ensures
            final(self).wf(),
            (result_view(r), final(self)@) == union_body_spec(old(self)@, vis, span, name@, is_tagged),
            le(final(self)@, old(self)@),
    {
        let fields = match self.parse_union_fields() {
            Ok(f) => f,
            Err(e) => return Err(e),
        };
        match self.expect(&TokenKind::CloseBrace, "'}' after union fields") {
            Ok(_) => {},
            Err(e) => return Err(e),
        }
        let decl = UnionDecl { name, visibility: vis, is_tagged, fields, span };
        proof {
            lemma_union_decl_view(decl);
        }
        let it = Item::Union(decl);
        proof {
            lemma_item_union_view(it);
        }
        Ok(it)
    }

    /// Parses union fields separated by commas, up to `}`.
    fn parse_union_fields(&mut self) -> (r: Result<Vec<UnionField>, String>)
        requires
            old(self).wf(),
        ensures
            final(self).wf(),
            (result_view_vec(r), final(self)@) == union_fields_spec(old(self)@, seq![]),
            le(final(self)@, old(self)@),
    {
        let ghost st0 = self@;
        proof {
            self.lemma_wf();
        }
        let mut fields: Vec<UnionField> = Vec::new();
        assert(view_seq(fields@) =~= Seq::<UnionFieldView>::empty());
        loop
            invariant
                self.wf(),
                st0 == old(self)@,
                le(self@, st0),
                union_fields_spec(self@, view_seq(fields@)) == union_fields_spec(st0, seq![]),
            decreases measure(self@),
        {
            if self.check(&TokenKind::CloseBrace) {
                return Ok(fields);
            }
            let f = match self.parse_union_field() {
                Ok(f) => f,
                Err(e) => return Err(e),
            };
            proof {
                assert(view_seq(fields@.push(f)) =~= view_seq(fields@).push(f@));
            }
            fields.push(f);
            if !self.match_token(&TokenKind::Comma) {
                return Ok(fields);
            }
        }
    }

    /// Parses a union field `name` or `name: T`.
    fn parse_union_field(&mut self) -> (r: Result<UnionField, String>)
        requires
            old(self).wf(),
        ensures
            final(self).wf(),
            (result_view(r), final(self)@) == union_field_spec(old(self)@),
            le(final(self)@, old(self)@),
            r is Ok ==> lt(final(self)@, old(self)@),
    {
        let name = match self.expect_ident("union variant name") {
            Ok(n) => n,
            Err(e) => return Err(e),
        };
        let ty = match self.parse_return_type() {
            Ok(t) => t,
            Err(e) => return Err(e),
        };
        let f = UnionField { name, ty, span: self.previous_span() };
        proof {
            lemma_union_field_view(f);
        }
        Ok(f)
    }

    /// Parses `struct Name { fields and methods }`, `packed struct ...` or `extern struct ...`.
    fn parse_struct(&mut self, vis: Visibility) -> (r: Result<Item, String>)
        requires
            old(self).wf(),
        ensures
            final(self).wf(),
            (result_view(r), final(self)@) == struct_spec(old(self)@, vis),
            le(final(self)@, old(self)@),
            r is Ok ==> lt(final(self)@, old(self)@),
    {
        let kind = match self.parse_struct_kind() {
            Ok(k) => k,
            Err(e) => return Err(e),
        };
        let name = match self.expect_ident("struct name") {
            Ok(n) => n,
            Err(e) => return Err(e),
        };
        match self.expect(&TokenKind::OpenBrace, "'{' after struct name") {
            Ok(_) => {},
            Err(e) => return Err(e),
        }
        self.parse_struct_body(vis, kind, name)
    }

    /// Parses `struct`, `packed struct` or `extern struct`.
    fn parse_struct_kind(&mut self) -> (r: Result<StructKind, String>)
        requires
            old(self).wf(),
        ensures
            final(self).wf(),
            (result_plain(r), final(self)@) == struct_kind_spec(old(self)@),
            le(final(self)@, old(self)@),
            r is Ok ==> lt(final(self)@, old(self)@),
    {
        if self.match_token(&TokenKind::Packed) {
            match self.expect(&TokenKind::Struct, "'struct' after packed") {
                Ok(_) => Ok(StructKind::Packed),
                Err(e) => Err(e),
            }
        } else if self.match_token(&TokenKind::Extern) {
            match self.expect(&TokenKind::Struct, "'struct' after extern") {
                Ok(_) => Ok(StructKind::Extern),
                Err(e) => Err(e),
            }
        } else {
            match self.expect(&TokenKind::Struct, "'struct' keyword") {
                Ok(_) => Ok(StructKind::Normal),
                Err(e) => Err(e),
            }
        }
    }

    /// Parses the members of a struct and the closing `}`.
    #[verifier::spinoff_prover]
    fn parse_struct_body(&mut self, vis: Visibility, kind: StructKind, name: String) -> (r: Result<Item, String>)
        requires
            old(self).wf(),
        ensures
            final(self).wf(),
            (result_view(r), final(self)@) == struct_body_spec(old(self)@, vis, kind, name@),
            le(final(self)@, old(self)@),
    {
        let (fields, methods) = match self.parse_members() {
            Ok(p) => p,
            Err(e) => return Err(e),
        };
        match self.expect(&TokenKind::CloseBrace, "'}' after struct body") {
            Ok(_) => {},
            Err(e) => return Err(e),
        }
        let decl = StructDecl { name, visibility: vis, kind, fields, methods, span: self.previous_span() };
        proof {
            lemma_struct_decl_view(decl);
        }
        let it = Item::Struct(decl);
        proof {
            lemma_item_struct_view(it);
        }
        Ok(it)
    }

    /// Parses the members of a struct up to `}`: a member that starts with
    /// `pub`, `export`, `fn` or `static` is a method, any other a field.
    #[verifier::spinoff_prover]
    fn parse_members(&mut self) -> (r: Result<(Vec<StructField>, Vec<FunctionDecl>), String>)
        requires
            old(self).wf(),
        ensures
            final(self).wf(),
            (members_view(r), final(self)@) == members_spec(old(self)@, seq![], seq![]),
            le(final(self)@, old(self)@),
    {
        let ghost st0 = self@;
        proof {
            self.lemma_wf();
        }
        let mut fields: Vec<StructField> = Vec::new();
        let mut methods: Vec<FunctionDecl> = Vec::new();
        assert(view_seq(fields@) =~= Seq::<StructFieldView>::empty());
        assert(view_seq(methods@) =~= Seq::<FunctionDeclView>::empty());
        loop
            invariant
                self.wf(),
                st0 == old(self)@,
                le(self@, st0),
                members_spec(self@, view_seq(fields@), view_seq(methods@)) == members_spec(st0, seq![], seq![]),
            decreases measure(self@),
        {
            if self.check(&TokenKind::CloseBrace) {
                return Ok((fields, methods));
            }
            if self.check(&TokenKind::Pub) || self.check(&TokenKind::Export) || self.check(&TokenKind::Fn)
                || self.check(&TokenKind::Static) {
                let vis = self.parse_visibility();
                let f = match self.parse_function(vis) {
                    Ok(f) => f,
                    Err(e) => return Err(e),
                };
                proof {
                    assert(view_seq(methods@.push(f)) =~= view_seq(methods@).push(f@));
                }
                methods.push(f);
            } else {
                let f = match self.parse_field() {
                    Ok(f) => f,
                    Err(e) => return Err(e),
                };
                proof {
                    assert(view_seq(fields@.push(f)) =~= view_seq(fields@).push(f@));
                }
                fields.push(f);
            }
        }
    }

    /// Parses a struct field `name: T = value,` or an embedded type `Name,`.
    fn parse_field(&mut self) -> (r: Result<StructField, String>)
        requires
            old(self).wf(),
        ensures
            final(self).wf(),
            (result_view(r), final(self)@) == field_spec(old(self)@),
            le(final(self)@, old(self)@),
            r is Ok ==> lt(final(self)@, old(self)@),
    {
        let first = match self.expect_ident("field name or embedded type") {
            Ok(n) => n,
            Err(e) => return Err(e),
        };
        if self.match_token(&TokenKind::Colon) {
            return self.parse_named_field(first);
        }
        self.match_token(&TokenKind::Comma);
        let span = self.previous_span();
        let ty = TypeExpr::Named(first, span);
        proof {
            lemma_type_expr_named_view(ty);
        }
        let f = StructField { name: None, ty, default_val: None, span };
        proof {
            lemma_struct_field_view(f);
        }
        Ok(f)
    }

    /// Parses the type, optional default and optional comma of a named struct field.
    fn parse_named_field(&mut self, name: String) -> (r: Result<StructField, String>)
        requires
            old(self).wf(),
        ensures
            final(self).wf(),
            (result_view(r), final(self)@) == named_field_spec(old(self)@, name@),
            le(final(self)@, old(self)@),
    {
        let ty = match self.parse_type() {
            Ok(t) => t,
            Err(e) => return Err(e),
        };
        let default_val = match self.parse_default_value() {
            Ok(d) => d,
            Err(e) => return Err(e),
        };
        self.match_token(&TokenKind::Comma);
        let f = StructField { name: Some(name), ty, default_val, span: self.previous_span() };
        proof {
            lemma_struct_field_view(f);
        }
        Ok(f)
    }

    /// Parses a function: `static`, `inline`, `const` and `naked` (each
    /// optional, in that order), `fn`, its name, and the rest.
    #[verifier::spinoff_prover]
    fn parse_function(&mut self, vis: Visibility) -> (r: Result<FunctionDecl, String>)
        requires
            old(self).wf(),
        ensures
            final(self).wf(),
            (result_view(r), final(self)@) == function_spec(old(self)@, vis),
            le(final(self)@, old(self)@),
            r is Ok ==> lt(final(self)@, old(self)@),
    {
        let is_static = self.match_token(&TokenKind::Static);
        let is_inline = self.match_token(&TokenKind::Inline);
        let is_const = self.match_token(&TokenKind::Const);
        let is_naked = self.match_token(&TokenKind::Naked);
        match self.expect(&TokenKind::Fn, "'fn' keyword") {
            Ok(_) => {},
            Err(e) => return Err(e),
        }
        let name = match self.expect_ident("function name") {
            Ok(n) => n,
            Err(e) => return Err(e),
        };
        let head = FunctionDecl {
            name,
            visibility: vis,
            is_static,
            is_inline,
            is_const,
            is_naked,
            params: Vec::new(),
            return_type: None,
            body: None,
            span: self.previous_span(),
        };
        proof {
            lemma_function_decl_view(head);
            assert(view_seq(head.params@) =~= Seq::<ParamView>::empty());
        }
        self.parse_function_rest(head)
    }

    /// Parses the parameters, optional return type and body of the function
    /// whose name and modifiers `head` holds.
    #[verifier::spinoff_prover]
    fn parse_function_rest(&mut self, head: FunctionDecl) -> (r: Result<FunctionDecl, String>)
        requires
            old(self).wf(),
        ensures
            final(self).wf(),
            (result_view(r), final(self)@) == function_rest_spec(old(self)@, head@),
            le(final(self)@, old(self)@),
    {
        let params = match self.parse_params() {
            Ok(p) => p,
            Err(e) => return Err(e),
        };
        let return_type = match self.parse_return_type() {
            Ok(t) => t,
            Err(e) => return Err(e),
        };
        let body = match self.parse_function_body() {
            Ok(b) => b,
            Err(e) => return Err(e),
        };
        proof {
            lemma_function_decl_view(head);
        }
        let f = FunctionDecl { params, return_type, body, span: self.previous_span(), ..head };
        proof {
            lemma_function_decl_view(f);
        }
        Ok(f)
    }

    /// Parses a function body: `=> value;`, a block, or `;` for an external function.
    fn parse_function_body(&mut self) -> (r: Result<Option<FunctionBody>, String>)
        requires
            old(self).wf(),
        ensures
            final(self).wf(),
            (result_view_opt(r), final(self)@) == function_body_spec(old(self)@),
            le(final(self)@, old(self)@),
    {
        if self.match_token(&TokenKind::FatArrow) {
            let e = match self.parse_expr() {
                Ok(e) => e,
                Err(m) => return Err(m),
            };
            match self.expect(&TokenKind::Semicolon, "';' after expression function body") {
                Ok(_) => {},
                Err(m) => return Err(m),
            }
            let b = FunctionBody::Expr(Box::new(e));
            proof {
                lemma_function_body_expr_view(b);
            }
            Ok(Some(b))
        } else if self.check(&TokenKind::OpenBrace) {
            let block = match self.parse_block() {
                Ok(b) => b,
                Err(e) => return Err(e),
            };
            let b = FunctionBody::Block(block);
            proof {
                lemma_function_body_block_view(b);
            }
            Ok(Some(b))
        } else {
            match self.expect(&TokenKind::Semicolon, "';' after extern function declaration") {
                Ok(_) => Ok(None),
                Err(e) => Err(e),
            }
        }
    }

    /// Parses a parameter list `(p, ...)`.
    fn parse_params(&mut self) -> (r: Result<Vec<Param>, String>)
        requires
            old(self).wf(),
        ensures
            final(self).wf(),
            (result_view_vec(r), final(self)@) == params_spec(old(self)@),
            le(final(self)@, old(self)@),
    {
        match self.expect(&TokenKind::OpenParen, "'(' before parameters") {
            Ok(_) => {},
            Err(e) => return Err(e),
        }
        let params = match self.parse_param_list() {
            Ok(p) => p,
            Err(e) => return Err(e),
        };
        match self.expect(&TokenKind::CloseParen, "')' after parameters") {
            Ok(_) => {},
            Err(e) => return Err(e),
        }
        Ok(params)
    }

    /// Parses parameters separated by commas, up to `)`.
    fn parse_param_list(&mut self) -> (r: Result<Vec<Param>, String>)
        requires
            old(self).wf(),
        ensures
            final(self).wf(),
            (result_view_vec(r), final(self)@) == param_list_spec(old(self)@, seq![]),
            le(final(self)@, old(self)@),
    {
        let ghost st0 = self@;
        proof {
            self.lemma_wf();
        }
        let mut params: Vec<Param> = Vec::new();
        assert(view_seq(params@) =~= Seq::<ParamView>::empty());
        loop
            invariant
                self.wf(),
                st0 == old(self)@,
                le(self@, st0),
                param_list_spec(self@, view_seq(params@)) == param_list_spec(st0, seq![]),
            decreases measure(self@),
        {
            if self.check(&TokenKind::CloseParen) {
                return Ok(params);
            }
            let p = match self.parse_param() {
                Ok(p) => p,
                Err(e) => return Err(e),
            };
            proof {
                assert(view_seq(params@.push(p)) =~= view_seq(params@).push(p@));
            }
            params.push(p);
            if !self.match_token(&TokenKind::Comma) {
                return Ok(params);
            }
        }
    }

    /// Parses a parameter `name: T = default` or `label name: T = default`.
    fn parse_param(&mut self) -> (r: Result<Param, String>)
        requires
            old(self).wf(),
        ensures
            final(self).wf(),
            (result_view(r), final(self)@) == param_spec(old(self)@),
            le(final(self)@, old(self)@),
            r is Ok ==> lt(final(self)@, old(self)@),
    {
        if self.check(&TokenKind::Ampersand) {
            let amp = self.current_span();
            self.advance();
            return self.parse_receiver(amp);
        }
        let first = match self.expect_ident("parameter name") {
            Ok(n) => n,
            Err(e) => return Err(e),
        };
        let second: Option<String> = match self.current_kind() {
            TokenKind::Ident(s) => Some(s.clone()),
            _ => None,
        };
        match second {
            Some(name) => {
                self.advance();
                self.parse_param_rest(Some(first), name)
            },
            None => self.parse_param_rest(None, first),
        }
    }

    /// Parses `self` or `mut self` after the `&` of a receiver, which stands at `span`.
    fn parse_receiver(&mut self, span: Span) -> (r: Result<Param, String>)
        requires
            old(self).wf(),
        ensures
            final(self).wf(),
            (result_view(r), final(self)@) == receiver_spec(old(self)@, span),
            le(final(self)@, old(self)@),
            r is Ok ==> lt(final(self)@, old(self)@),
    {
        proof {
            self.lemma_wf();
        }
        let is_mut = self.check_word("mut");
        if is_mut {
            self.advance();
        }
        if !self.check_word("self") {
            let cur = self.current_span();
            let d = debug_text(self.current_kind());
            return Err(bad_receiver_error(cur.line, cur.col, d.as_str()));
        }
        self.advance();
        let inner = TypeExpr::Named(text("Self"), span);
        proof {
            lemma_type_expr_named_view(inner);
        }
        let ty = TypeExpr::Pointer(Box::new(inner), !is_mut, span);
        proof {
            lemma_type_expr_pointer_view(ty);
        }
        let p = Param { name: text("self"), label: None, ty, default_val: None, span: self.previous_span() };
        proof {
            lemma_param_view(p);
        }
        Ok(p)
    }

    /// Parses the `: T` and optional default of a parameter.
    fn parse_param_rest(&mut self, label: Option<String>, name: String) -> (r: Result<Param, String>)
        requires
            old(self).wf(),
        ensures
            final(self).wf(),
            (result_view(r), final(self)@) == param_rest_spec(
                old(self)@,
                match label {
                    Some(l) => Some(l@),
                    None => None,
                },
                name@,
            ),
            le(final(self)@, old(self)@),
    {
        match self.expect(&TokenKind::Colon, "':' after parameter name") {
            Ok(_) => {},
            Err(e) => return Err(e),
        }
        let ty = match self.parse_type() {
            Ok(t) => t,
            Err(e) => return Err(e),
        };
        let default_val = match self.parse_default_value() {
            Ok(d) => d,
            Err(e) => return Err(e),
        };
        let p = Param { name, label, ty, default_val, span: self.previous_span() };
        proof {
            lemma_param_view(p);
        }
        Ok(p)
    }
}

} // verus!
