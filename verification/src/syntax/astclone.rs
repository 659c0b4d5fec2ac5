//! Copies of syntax trees: every node type can be cloned, and the copy has
//! the same view as the node it copies.

use vstd::prelude::*;
use crate::syntax::ast::{
    SourceFile, EnumDecl, EnumVariant, UnionDecl, UnionField, ImportDecl, FunctionDecl, Param, StructDecl, StructField, InterfaceDecl, InterfaceMethod, ExtendDecl, TypeAliasDecl, TestDecl, VarDecl, TupleFieldType, Block, CallArg, FieldInit, MatchArm, Item, FunctionBody, TypeExpr, Stmt, Expr, MatchArmBody, Pattern,
};
use crate::syntax::astview::{
    view_seq, lemma_tuple_field_type_view, lemma_source_file_view, lemma_enum_decl_view, lemma_enum_variant_view, lemma_union_decl_view, lemma_union_field_view, lemma_import_decl_view, lemma_function_decl_view, lemma_param_view, lemma_struct_decl_view, lemma_struct_field_view, lemma_interface_decl_view, lemma_interface_method_view, lemma_extend_decl_view, lemma_type_alias_decl_view, lemma_test_decl_view, lemma_var_decl_view, lemma_block_view, lemma_call_arg_view, lemma_field_init_view, lemma_match_arm_view, lemma_item_function_view, lemma_item_struct_view, lemma_item_interface_view, lemma_item_extend_view, lemma_item_type_alias_view, lemma_item_test_view, lemma_item_global_view, lemma_item_import_view, lemma_item_enum_view, lemma_item_union_view, lemma_function_body_block_view, lemma_function_body_expr_view, lemma_type_expr_named_view, lemma_type_expr_pointer_view, lemma_type_expr_optional_view, lemma_type_expr_slice_view, lemma_type_expr_generic_view, lemma_type_expr_array_view, lemma_type_expr_sentinel_slice_view, lemma_type_expr_error_union_view, lemma_type_expr_tuple_view, lemma_type_expr_dyn_interface_view, lemma_type_expr_anytype_view, lemma_stmt_let_view, lemma_stmt_var_view, lemma_stmt_defer_view, lemma_stmt_errdefer_view, lemma_stmt_assign_view, lemma_stmt_expr_view, lemma_expr_int_view, lemma_expr_float_view, lemma_expr_string_lit_view, lemma_expr_interpolated_string_view, lemma_expr_bool_lit_view, lemma_expr_ident_view, lemma_expr_null_view, lemma_expr_undefined_view, lemma_expr_unreachable_view, lemma_expr_builtin_view, lemma_expr_binary_view, lemma_expr_unary_view, lemma_expr_call_view, lemma_expr_method_call_view, lemma_expr_member_access_view, lemma_expr_optional_chaining_view, lemma_expr_deref_view, lemma_expr_index_view, lemma_expr_slice_view, lemma_expr_struct_init_view, lemma_expr_tuple_view, lemma_expr_block_view, lemma_expr_if_view, lemma_expr_if_let_view, lemma_expr_match_view, lemma_expr_loop_view, lemma_expr_while_view, lemma_expr_for_c_view, lemma_expr_for_in_view, lemma_expr_break_view, lemma_expr_continue_view, lemma_expr_return_view, lemma_expr_try_view, lemma_expr_catch_view, lemma_expr_null_coalesce_view, lemma_expr_force_unwrap_view, lemma_expr_cast_view, lemma_match_arm_body_expr_view, lemma_match_arm_body_block_view, lemma_pattern_wildcard_view, lemma_pattern_literal_view, lemma_pattern_range_view, lemma_pattern_variant_view, lemma_pattern_else_view,
};
use crate::syntax::chars::text;

verus! {

/// The views of an optional value.
pub open spec fn opt_view<T: View>(o: Option<T>) -> Option<T::V> {
    match o {
        Some(v) => Some(v@),
        None => None,
    }
}

/// The views of an optional boxed value.
pub open spec fn opt_box_view<T: View>(o: Option<Box<T>>) -> Option<Box<T::V>> {
    match o {
        Some(v) => Some(Box::new(v@)),
        None => None,
    }
}

/// A copy of a `SourceFile`.
pub fn clone_source_file(x: &SourceFile) -> (r: SourceFile)
    ensures
        r@ == x@,
    decreases x,
{
    let r = SourceFile { items: clone_item_seq(&x.items) };
    proof {
        lemma_source_file_view(r);
        lemma_source_file_view(*x);
    }
    r
}

/// A copy of a `EnumDecl`.
pub fn clone_enum_decl(x: &EnumDecl) -> (r: EnumDecl)
    ensures
        r@ == x@,
    decreases x,
{
    let r = EnumDecl { name: text(&x.name.as_str()), visibility: *&x.visibility, backing_type: clone_opt_type_expr(&x.backing_type), variants: clone_enum_variant_seq(&x.variants), span: *&x.span };
    proof {
        lemma_enum_decl_view(r);
        lemma_enum_decl_view(*x);
    }
    r
}

/// A copy of a `EnumVariant`.
pub fn clone_enum_variant(x: &EnumVariant) -> (r: EnumVariant)
    ensures
        r@ == x@,
    decreases x,
{
    let r = EnumVariant { name: text(&x.name.as_str()), value: clone_opt_expr(&x.value), span: *&x.span };
    proof {
        lemma_enum_variant_view(r);
        lemma_enum_variant_view(*x);
    }
    r
}

/// A copy of a `UnionDecl`.
pub fn clone_union_decl(x: &UnionDecl) -> (r: UnionDecl)
    ensures
        r@ == x@,
    decreases x,
{
    let r = UnionDecl { name: text(&x.name.as_str()), visibility: *&x.visibility, is_tagged: *&x.is_tagged, fields: clone_union_field_seq(&x.fields), span: *&x.span };
    proof {
        lemma_union_decl_view(r);
        lemma_union_decl_view(*x);
    }
    r
}

/// A copy of a `UnionField`.
pub fn clone_union_field(x: &UnionField) -> (r: UnionField)
    ensures
        r@ == x@,
    decreases x,
{
    let r = UnionField { name: text(&x.name.as_str()), ty: clone_opt_type_expr(&x.ty), span: *&x.span };
    proof {
        lemma_union_field_view(r);
        lemma_union_field_view(*x);
    }
    r
}

/// A copy of a `ImportDecl`.
pub fn clone_import_decl(x: &ImportDecl) -> (r: ImportDecl)
    ensures
        r@ == x@,
    decreases x,
{
    let r = ImportDecl { path: text(&x.path.as_str()), alias: clone_opt_string(&x.alias), selective: clone_string_seq(&x.selective), span: *&x.span };
    proof {
        lemma_import_decl_view(r);
        lemma_import_decl_view(*x);
    }
    r
}

/// A copy of a `FunctionDecl`.
pub fn clone_function_decl(x: &FunctionDecl) -> (r: FunctionDecl)
    ensures
        r@ == x@,
    decreases x,
{
    let r = FunctionDecl { name: text(&x.name.as_str()), visibility: *&x.visibility, is_static: *&x.is_static, is_inline: *&x.is_inline, is_const: *&x.is_const, is_naked: *&x.is_naked, params: clone_param_seq(&x.params), return_type: clone_opt_type_expr(&x.return_type), body: clone_opt_function_body(&x.body), span: *&x.span };
    proof {
        lemma_function_decl_view(r);
        lemma_function_decl_view(*x);
    }
    r
}

/// A copy of a `Param`.
pub fn clone_param(x: &Param) -> (r: Param)
    ensures
        r@ == x@,
    decreases x,
{
    let r = Param { name: text(&x.name.as_str()), label: clone_opt_string(&x.label), ty: clone_type_expr(&x.ty), default_val: clone_opt_expr(&x.default_val), span: *&x.span };
    proof {
        lemma_param_view(r);
        lemma_param_view(*x);
    }
    r
}

/// A copy of a `StructDecl`.
pub fn clone_struct_decl(x: &StructDecl) -> (r: StructDecl)
    ensures
        r@ == x@,
    decreases x,
{
    let r = StructDecl { name: text(&x.name.as_str()), visibility: *&x.visibility, kind: *&x.kind, fields: clone_struct_field_seq(&x.fields), methods: clone_function_decl_seq(&x.methods), span: *&x.span };
    proof {
        lemma_struct_decl_view(r);
        lemma_struct_decl_view(*x);
    }
    r
}

/// A copy of a `StructField`.
pub fn clone_struct_field(x: &StructField) -> (r: StructField)
    ensures
        r@ == x@,
    decreases x,
{
    let r = StructField { name: clone_opt_string(&x.name), ty: clone_type_expr(&x.ty), default_val: clone_opt_expr(&x.default_val), span: *&x.span };
    proof {
        lemma_struct_field_view(r);
        lemma_struct_field_view(*x);
    }
    r
}

/// A copy of a `InterfaceDecl`.
pub fn clone_interface_decl(x: &InterfaceDecl) -> (r: InterfaceDecl)
    ensures
        r@ == x@,
    decreases x,
{
    let r = InterfaceDecl { name: text(&x.name.as_str()), visibility: *&x.visibility, methods: clone_interface_method_seq(&x.methods), span: *&x.span };
    proof {
        lemma_interface_decl_view(r);
        lemma_interface_decl_view(*x);
    }
    r
}

/// A copy of a `InterfaceMethod`.
pub fn clone_interface_method(x: &InterfaceMethod) -> (r: InterfaceMethod)
    ensures
        r@ == x@,
    decreases x,
{
    let r = InterfaceMethod { name: text(&x.name.as_str()), params: clone_param_seq(&x.params), return_type: clone_opt_type_expr(&x.return_type), span: *&x.span };
    proof {
        lemma_interface_method_view(r);
        lemma_interface_method_view(*x);
    }
    r
}

/// A copy of a `ExtendDecl`.
pub fn clone_extend_decl(x: &ExtendDecl) -> (r: ExtendDecl)
    ensures
        r@ == x@,
    decreases x,
{
    let r = ExtendDecl { target: text(&x.target.as_str()), methods: clone_function_decl_seq(&x.methods), span: *&x.span };
    proof {
        lemma_extend_decl_view(r);
        lemma_extend_decl_view(*x);
    }
    r
}

/// A copy of a `TypeAliasDecl`.
pub fn clone_type_alias_decl(x: &TypeAliasDecl) -> (r: TypeAliasDecl)
    ensures
        r@ == x@,
    decreases x,
{
    let r = TypeAliasDecl { name: text(&x.name.as_str()), visibility: *&x.visibility, is_distinct: *&x.is_distinct, target: clone_type_expr(&x.target), span: *&x.span };
    proof {
        lemma_type_alias_decl_view(r);
        lemma_type_alias_decl_view(*x);
    }
    r
}

/// A copy of a `TestDecl`.
pub fn clone_test_decl(x: &TestDecl) -> (r: TestDecl)
    ensures
        r@ == x@,
    decreases x,
{
    let r = TestDecl { name: text(&x.name.as_str()), body: clone_block(&x.body), span: *&x.span };
    proof {
        lemma_test_decl_view(r);
        lemma_test_decl_view(*x);
    }
    r
}

/// A copy of a `VarDecl`.
pub fn clone_var_decl(x: &VarDecl) -> (r: VarDecl)
    ensures
        r@ == x@,
    decreases x,
{
    let r = VarDecl { name: text(&x.name.as_str()), is_mut: *&x.is_mut, ty: clone_opt_type_expr(&x.ty), value: clone_expr(&x.value), span: *&x.span };
    proof {
        lemma_var_decl_view(r);
        lemma_var_decl_view(*x);
    }
    r
}

/// A copy of a `TupleFieldType`.
pub fn clone_tuple_field_type(x: &TupleFieldType) -> (r: TupleFieldType)
    ensures
        r@ == x@,
    decreases x,
{
    let r = TupleFieldType { label: clone_opt_string(&x.label), ty: clone_type_expr(&x.ty) };
    proof {
        lemma_tuple_field_type_view(r);
        lemma_tuple_field_type_view(*x);
    }
    r
}

/// A copy of a `Block`.
pub fn clone_block(x: &Block) -> (r: Block)
    ensures
        r@ == x@,
    decreases x,
{
    let r = Block { stmts: clone_stmt_seq(&x.stmts), yield_expr: clone_opt_box_expr(&x.yield_expr), span: *&x.span };
    proof {
        lemma_block_view(r);
        lemma_block_view(*x);
    }
    r
}

/// A copy of a `CallArg`.
pub fn clone_call_arg(x: &CallArg) -> (r: CallArg)
    ensures
        r@ == x@,
    decreases x,
{
    let r = CallArg { label: clone_opt_string(&x.label), value: clone_expr(&x.value), span: *&x.span };
    proof {
        lemma_call_arg_view(r);
        lemma_call_arg_view(*x);
    }
    r
}

/// A copy of a `FieldInit`.
pub fn clone_field_init(x: &FieldInit) -> (r: FieldInit)
    ensures
        r@ == x@,
    decreases x,
{
    let r = FieldInit { name: text(&x.name.as_str()), value: clone_expr(&x.value), span: *&x.span };
    proof {
        lemma_field_init_view(r);
        lemma_field_init_view(*x);
    }
    r
}

/// A copy of a `MatchArm`.
pub fn clone_match_arm(x: &MatchArm) -> (r: MatchArm)
    ensures
        r@ == x@,
    decreases x,
{
    let r = MatchArm { pattern: clone_pattern(&x.pattern), body: clone_match_arm_body(&x.body), span: *&x.span };
    proof {
        lemma_match_arm_view(r);
        lemma_match_arm_view(*x);
    }
    r
}

/// A copy of a `Item`.
#[verifier::spinoff_prover]
pub fn clone_item(x: &Item) -> (r: Item)
    ensures
        r@ == x@,
    decreases x,
{
    match x {
        Item::Function(a0) => {
            let r = Item::Function(clone_function_decl(a0));
            proof {
                lemma_item_function_view(r);
                lemma_item_function_view(*x);
            }
            r
        },
        Item::Struct(a0) => {
            let r = Item::Struct(clone_struct_decl(a0));
            proof {
                lemma_item_struct_view(r);
                lemma_item_struct_view(*x);
            }
            r
        },
        Item::Interface(a0) => {
            let r = Item::Interface(clone_interface_decl(a0));
            proof {
                lemma_item_interface_view(r);
                lemma_item_interface_view(*x);
            }
            r
        },
        Item::Extend(a0) => {
            let r = Item::Extend(clone_extend_decl(a0));
            proof {
                lemma_item_extend_view(r);
                lemma_item_extend_view(*x);
            }
            r
        },
        Item::TypeAlias(a0) => {
            let r = Item::TypeAlias(clone_type_alias_decl(a0));
            proof {
                lemma_item_type_alias_view(r);
                lemma_item_type_alias_view(*x);
            }
            r
        },
        Item::Test(a0) => {
            let r = Item::Test(clone_test_decl(a0));
            proof {
                lemma_item_test_view(r);
                lemma_item_test_view(*x);
            }
            r
        },
        Item::Global(a0) => {
            let r = Item::Global(clone_var_decl(a0));
            proof {
                lemma_item_global_view(r);
                lemma_item_global_view(*x);
            }
            r
        },
        Item::Import(a0) => {
            let r = Item::Import(clone_import_decl(a0));
            proof {
                lemma_item_import_view(r);
                lemma_item_import_view(*x);
            }
            r
        },
        Item::Enum(a0) => {
            let r = Item::Enum(clone_enum_decl(a0));
            proof {
                lemma_item_enum_view(r);
                lemma_item_enum_view(*x);
            }
            r
        },
        Item::Union(a0) => {
            let r = Item::Union(clone_union_decl(a0));
            proof {
                lemma_item_union_view(r);
                lemma_item_union_view(*x);
            }
            r
        },
    }
}

/// A copy of a `FunctionBody`.
#[verifier::spinoff_prover]
pub fn clone_function_body(x: &FunctionBody) -> (r: FunctionBody)
    ensures
        r@ == x@,
    decreases x,
{
    match x {
        FunctionBody::Block(a0) => {
            let r = FunctionBody::Block(clone_block(a0));
            proof {
                lemma_function_body_block_view(r);
                lemma_function_body_block_view(*x);
            }
            r
        },
        FunctionBody::Expr(a0) => {
            let r = FunctionBody::Expr(Box::new(clone_expr(a0)));
            proof {
                lemma_function_body_expr_view(r);
                lemma_function_body_expr_view(*x);
            }
            r
        },
    }
}

/// A copy of a `TypeExpr`.
#[verifier::spinoff_prover]
pub fn clone_type_expr(x: &TypeExpr) -> (r: TypeExpr)
    ensures
        r@ == x@,
    decreases x,
{
    match x {
        TypeExpr::Named(a0, a1) => {
            let r = TypeExpr::Named(text(a0.as_str()), *a1);
            proof {
                lemma_type_expr_named_view(r);
                lemma_type_expr_named_view(*x);
            }
            r
        },
        TypeExpr::Pointer(a0, a1, a2) => {
            let r = TypeExpr::Pointer(Box::new(clone_type_expr(a0)), *a1, *a2);
            proof {
                lemma_type_expr_pointer_view(r);
                lemma_type_expr_pointer_view(*x);
            }
            r
        },
        TypeExpr::Optional(a0, a1) => {
            let r = TypeExpr::Optional(Box::new(clone_type_expr(a0)), *a1);
            proof {
                lemma_type_expr_optional_view(r);
                lemma_type_expr_optional_view(*x);
            }
            r
        },
        TypeExpr::Slice(a0, a1) => {
            let r = TypeExpr::Slice(Box::new(clone_type_expr(a0)), *a1);
            proof {
                lemma_type_expr_slice_view(r);
                lemma_type_expr_slice_view(*x);
            }
            r
        },
        TypeExpr::Generic(a0, a1, a2) => {
            let r = TypeExpr::Generic(Box::new(clone_type_expr(a0)), clone_type_expr_seq(a1), *a2);
            proof {
                lemma_type_expr_generic_view(r);
                lemma_type_expr_generic_view(*x);
            }
            r
        },
        TypeExpr::Array(a0, a1, a2) => {
            let r = TypeExpr::Array(Box::new(clone_type_expr(a0)), *a1, *a2);
            proof {
                lemma_type_expr_array_view(r);
                lemma_type_expr_array_view(*x);
            }
            r
        },
        TypeExpr::SentinelSlice(a0, a1, a2) => {
            let r = TypeExpr::SentinelSlice(Box::new(clone_type_expr(a0)), *a1, *a2);
            proof {
                lemma_type_expr_sentinel_slice_view(r);
                lemma_type_expr_sentinel_slice_view(*x);
            }
            r
        },
        TypeExpr::ErrorUnion(a0, a1, a2) => {
            let r = TypeExpr::ErrorUnion(clone_opt_box_type_expr(a0), Box::new(clone_type_expr(a1)), *a2);
            proof {
                lemma_type_expr_error_union_view(r);
                lemma_type_expr_error_union_view(*x);
            }
            r
        },
        TypeExpr::Tuple(a0, a1) => {
            let r = TypeExpr::Tuple(clone_tuple_field_type_seq(a0), *a1);
            proof {
                lemma_type_expr_tuple_view(r);
                lemma_type_expr_tuple_view(*x);
            }
            r
        },
        TypeExpr::DynInterface(a0, a1) => {
            let r = TypeExpr::DynInterface(Box::new(clone_type_expr(a0)), *a1);
            proof {
                lemma_type_expr_dyn_interface_view(r);
                lemma_type_expr_dyn_interface_view(*x);
            }
            r
        },
        TypeExpr::Anytype(a0) => {
            let r = TypeExpr::Anytype(*a0);
            proof {
                lemma_type_expr_anytype_view(r);
                lemma_type_expr_anytype_view(*x);
            }
            r
        },
    }
}

/// A copy of a `Stmt`.
#[verifier::spinoff_prover]
pub fn clone_stmt(x: &Stmt) -> (r: Stmt)
    ensures
        r@ == x@,
    decreases x,
{
    match x {
        Stmt::Let(a0) => {
            let r = Stmt::Let(clone_var_decl(a0));
            proof {
                lemma_stmt_let_view(r);
                lemma_stmt_let_view(*x);
            }
            r
        },
        Stmt::Var(a0) => {
            let r = Stmt::Var(clone_var_decl(a0));
            proof {
                lemma_stmt_var_view(r);
                lemma_stmt_var_view(*x);
            }
            r
        },
        Stmt::Defer(a0, a1) => {
            let r = Stmt::Defer(clone_expr(a0), *a1);
            proof {
                lemma_stmt_defer_view(r);
                lemma_stmt_defer_view(*x);
            }
            r
        },
        Stmt::Errdefer(a0, a1) => {
            let r = Stmt::Errdefer(clone_expr(a0), *a1);
            proof {
                lemma_stmt_errdefer_view(r);
                lemma_stmt_errdefer_view(*x);
            }
            r
        },
        Stmt::Assign(a0, a1, a2, a3) => {
            let r = Stmt::Assign(clone_expr(a0), *a1, clone_expr(a2), *a3);
            proof {
                lemma_stmt_assign_view(r);
                lemma_stmt_assign_view(*x);
            }
            r
        },
        Stmt::Expr(a0, a1) => {
            let r = Stmt::Expr(clone_expr(a0), *a1);
            proof {
                lemma_stmt_expr_view(r);
                lemma_stmt_expr_view(*x);
            }
            r
        },
    }
}

/// A copy of a `Expr`.
#[verifier::spinoff_prover]
pub fn clone_expr(x: &Expr) -> (r: Expr)
    ensures
        r@ == x@,
    decreases x,
{
    match x {
        Expr::Int(a0, a1, a2) => {
            let r = Expr::Int(*a0, clone_opt_string(a1), *a2);
            proof {
                lemma_expr_int_view(r);
                lemma_expr_int_view(*x);
            }
            r
        },
        Expr::Float(a0, a1) => {
            let r = Expr::Float(text(a0.as_str()), *a1);
            proof {
                lemma_expr_float_view(r);
                lemma_expr_float_view(*x);
            }
            r
        },
        Expr::StringLit(a0, a1) => {
            let r = Expr::StringLit(text(a0.as_str()), *a1);
            proof {
                lemma_expr_string_lit_view(r);
                lemma_expr_string_lit_view(*x);
            }
            r
        },
        Expr::InterpolatedString(a0, a1) => {
            let r = Expr::InterpolatedString(text(a0.as_str()), *a1);
            proof {
                lemma_expr_interpolated_string_view(r);
                lemma_expr_interpolated_string_view(*x);
            }
            r
        },
        Expr::BoolLit(a0, a1) => {
            let r = Expr::BoolLit(*a0, *a1);
            proof {
                lemma_expr_bool_lit_view(r);
                lemma_expr_bool_lit_view(*x);
            }
            r
        },
        Expr::Ident(a0, a1) => {
            let r = Expr::Ident(text(a0.as_str()), *a1);
            proof {
                lemma_expr_ident_view(r);
                lemma_expr_ident_view(*x);
            }
            r
        },
        Expr::Null(a0) => {
            let r = Expr::Null(*a0);
            proof {
                lemma_expr_null_view(r);
                lemma_expr_null_view(*x);
            }
            r
        },
        Expr::Undefined(a0) => {
            let r = Expr::Undefined(*a0);
            proof {
                lemma_expr_undefined_view(r);
                lemma_expr_undefined_view(*x);
            }
            r
        },
        Expr::Unreachable(a0) => {
            let r = Expr::Unreachable(*a0);
            proof {
                lemma_expr_unreachable_view(r);
                lemma_expr_unreachable_view(*x);
            }
            r
        },
        Expr::Builtin(a0, a1, a2) => {
            let r = Expr::Builtin(text(a0.as_str()), clone_call_arg_seq(a1), *a2);
            proof {
                lemma_expr_builtin_view(r);
                lemma_expr_builtin_view(*x);
            }
            r
        },
        Expr::Binary(a0, a1, a2, a3) => {
            let r = Expr::Binary(Box::new(clone_expr(a0)), *a1, Box::new(clone_expr(a2)), *a3);
            proof {
                lemma_expr_binary_view(r);
                lemma_expr_binary_view(*x);
            }
            r
        },
        Expr::Unary(a0, a1, a2) => {
            let r = Expr::Unary(*a0, Box::new(clone_expr(a1)), *a2);
            proof {
                lemma_expr_unary_view(r);
                lemma_expr_unary_view(*x);
            }
            r
        },
        Expr::Call(a0, a1, a2) => {
            let r = Expr::Call(Box::new(clone_expr(a0)), clone_call_arg_seq(a1), *a2);
            proof {
                lemma_expr_call_view(r);
                lemma_expr_call_view(*x);
            }
            r
        },
        Expr::MethodCall(a0, a1, a2, a3) => {
            let r = Expr::MethodCall(Box::new(clone_expr(a0)), text(a1.as_str()), clone_call_arg_seq(a2), *a3);
            proof {
                lemma_expr_method_call_view(r);
                lemma_expr_method_call_view(*x);
            }
            r
        },
        Expr::MemberAccess(a0, a1, a2) => {
            let r = Expr::MemberAccess(Box::new(clone_expr(a0)), text(a1.as_str()), *a2);
            proof {
                lemma_expr_member_access_view(r);
                lemma_expr_member_access_view(*x);
            }
            r
        },
        Expr::OptionalChaining(a0, a1, a2) => {
            let r = Expr::OptionalChaining(Box::new(clone_expr(a0)), text(a1.as_str()), *a2);
            proof {
                lemma_expr_optional_chaining_view(r);
                lemma_expr_optional_chaining_view(*x);
            }
            r
        },
        Expr::Deref(a0, a1) => {
            let r = Expr::Deref(Box::new(clone_expr(a0)), *a1);
            proof {
                lemma_expr_deref_view(r);
                lemma_expr_deref_view(*x);
            }
            r
        },
        Expr::Index(a0, a1, a2) => {
            let r = Expr::Index(Box::new(clone_expr(a0)), Box::new(clone_expr(a1)), *a2);
            proof {
                lemma_expr_index_view(r);
                lemma_expr_index_view(*x);
            }
            r
        },
        Expr::Slice(a0, a1, a2, a3) => {
            let r = Expr::Slice(Box::new(clone_expr(a0)), Box::new(clone_expr(a1)), Box::new(clone_expr(a2)), *a3);
            proof {
                lemma_expr_slice_view(r);
                lemma_expr_slice_view(*x);
            }
            r
        },
        Expr::StructInit(a0, a1, a2) => {
            let r = Expr::StructInit(clone_type_expr(a0), clone_field_init_seq(a1), *a2);
            proof {
                lemma_expr_struct_init_view(r);
                lemma_expr_struct_init_view(*x);
            }
            r
        },
        Expr::Tuple(a0, a1) => {
            let r = Expr::Tuple(clone_expr_seq(a0), *a1);
            proof {
                lemma_expr_tuple_view(r);
                lemma_expr_tuple_view(*x);
            }
            r
        },
        Expr::Block(a0) => {
            let r = Expr::Block(clone_block(a0));
            proof {
                lemma_expr_block_view(r);
                lemma_expr_block_view(*x);
            }
            r
        },
        Expr::If(a0, a1, a2, a3) => {
            let r = Expr::If(Box::new(clone_expr(a0)), clone_block(a1), clone_opt_block(a2), *a3);
            proof {
                lemma_expr_if_view(r);
                lemma_expr_if_view(*x);
            }
            r
        },
        Expr::IfLet(a0, a1, a2, a3, a4) => {
            let r = Expr::IfLet(text(a0.as_str()), Box::new(clone_expr(a1)), clone_block(a2), clone_opt_block(a3), *a4);
            proof {
                lemma_expr_if_let_view(r);
                lemma_expr_if_let_view(*x);
            }
            r
        },
        Expr::Match(a0, a1, a2) => {
            let r = Expr::Match(Box::new(clone_expr(a0)), clone_match_arm_seq(a1), *a2);
            proof {
                lemma_expr_match_view(r);
                lemma_expr_match_view(*x);
            }
            r
        },
        Expr::Loop(a0, a1, a2) => {
            let r = Expr::Loop(clone_opt_string(a0), clone_block(a1), *a2);
            proof {
                lemma_expr_loop_view(r);
                lemma_expr_loop_view(*x);
            }
            r
        },
        Expr::While(a0, a1, a2, a3) => {
            let r = Expr::While(clone_opt_string(a0), Box::new(clone_expr(a1)), clone_block(a2), *a3);
            proof {
                lemma_expr_while_view(r);
                lemma_expr_while_view(*x);
            }
            r
        },
        Expr::ForC(a0, a1, a2, a3, a4, a5) => {
            let r = Expr::ForC(clone_opt_string(a0), Box::new(clone_stmt(a1)), Box::new(clone_expr(a2)), Box::new(clone_expr(a3)), clone_block(a4), *a5);
            proof {
                lemma_expr_for_c_view(r);
                lemma_expr_for_c_view(*x);
            }
            r
        },
        Expr::ForIn(a0, a1, a2, a3, a4) => {
            let r = Expr::ForIn(clone_opt_string(a0), text(a1.as_str()), Box::new(clone_expr(a2)), clone_block(a3), *a4);
            proof {
                lemma_expr_for_in_view(r);
                lemma_expr_for_in_view(*x);
            }
            r
        },
        Expr::Break(a0, a1, a2) => {
            let r = Expr::Break(clone_opt_string(a0), clone_opt_box_expr(a1), *a2);
            proof {
                lemma_expr_break_view(r);
                lemma_expr_break_view(*x);
            }
            r
        },
        Expr::Continue(a0, a1) => {
            let r = Expr::Continue(clone_opt_string(a0), *a1);
            proof {
                lemma_expr_continue_view(r);
                lemma_expr_continue_view(*x);
            }
            r
        },
        Expr::Return(a0, a1) => {
            let r = Expr::Return(clone_opt_box_expr(a0), *a1);
            proof {
                lemma_expr_return_view(r);
                lemma_expr_return_view(*x);
            }
            r
        },
        Expr::Try(a0, a1) => {
            let r = Expr::Try(Box::new(clone_expr(a0)), *a1);
            proof {
                lemma_expr_try_view(r);
                lemma_expr_try_view(*x);
            }
            r
        },
        Expr::Catch(a0, a1, a2, a3) => {
            let r = Expr::Catch(Box::new(clone_expr(a0)), clone_opt_string(a1), Box::new(clone_expr(a2)), *a3);
            proof {
                lemma_expr_catch_view(r);
                lemma_expr_catch_view(*x);
            }
            r
        },
        Expr::NullCoalesce(a0, a1, a2) => {
            let r = Expr::NullCoalesce(Box::new(clone_expr(a0)), Box::new(clone_expr(a1)), *a2);
            proof {
                lemma_expr_null_coalesce_view(r);
                lemma_expr_null_coalesce_view(*x);
            }
            r
        },
        Expr::ForceUnwrap(a0, a1) => {
            let r = Expr::ForceUnwrap(Box::new(clone_expr(a0)), *a1);
            proof {
                lemma_expr_force_unwrap_view(r);
                lemma_expr_force_unwrap_view(*x);
            }
            r
        },
        Expr::Cast(a0, a1, a2) => {
            let r = Expr::Cast(Box::new(clone_expr(a0)), clone_type_expr(a1), *a2);
            proof {
                lemma_expr_cast_view(r);
                lemma_expr_cast_view(*x);
            }
            r
        },
    }
}

/// A copy of a `MatchArmBody`.
#[verifier::spinoff_prover]
pub fn clone_match_arm_body(x: &MatchArmBody) -> (r: MatchArmBody)
    ensures
        r@ == x@,
    decreases x,
{
    match x {
        MatchArmBody::Expr(a0) => {
            let r = MatchArmBody::Expr(Box::new(clone_expr(a0)));
            proof {
                lemma_match_arm_body_expr_view(r);
                lemma_match_arm_body_expr_view(*x);
            }
            r
        },
        MatchArmBody::Block(a0) => {
            let r = MatchArmBody::Block(clone_block(a0));
            proof {
                lemma_match_arm_body_block_view(r);
                lemma_match_arm_body_block_view(*x);
            }
            r
        },
    }
}

/// A copy of a `Pattern`.
#[verifier::spinoff_prover]
pub fn clone_pattern(x: &Pattern) -> (r: Pattern)
    ensures
        r@ == x@,
    decreases x,
{
    match x {
        Pattern::Wildcard(a0) => {
            let r = Pattern::Wildcard(*a0);
            proof {
                lemma_pattern_wildcard_view(r);
                lemma_pattern_wildcard_view(*x);
            }
            r
        },
        Pattern::Literal(a0, a1) => {
            let r = Pattern::Literal(Box::new(clone_expr(a0)), *a1);
            proof {
                lemma_pattern_literal_view(r);
                lemma_pattern_literal_view(*x);
            }
            r
        },
        Pattern::Range(a0, a1, a2) => {
            let r = Pattern::Range(Box::new(clone_expr(a0)), Box::new(clone_expr(a1)), *a2);
            proof {
                lemma_pattern_range_view(r);
                lemma_pattern_range_view(*x);
            }
            r
        },
        Pattern::Variant(a0, a1, a2) => {
            let r = Pattern::Variant(text(a0.as_str()), clone_opt_string(a1), *a2);
            proof {
                lemma_pattern_variant_view(r);
                lemma_pattern_variant_view(*x);
            }
            r
        },
        Pattern::Else(a0) => {
            let r = Pattern::Else(*a0);
            proof {
                lemma_pattern_else_view(r);
                lemma_pattern_else_view(*x);
            }
            r
        },
    }
}

fn clone_item_seq(xs: &Vec<Item>) -> (r: Vec<Item>)
    ensures
        view_seq(r@) == view_seq(xs@),
    decreases xs,
{
    let mut v: Vec<Item> = Vec::new();
    let mut i: usize = 0;
    while i < xs.len()
        invariant
            i <= xs.len(),
            v@.len() == i,
            forall|k: int| 0 <= k < i ==> (#[trigger] v@[k])@ == xs@[k]@,
        decreases xs.len() - i,
    {
        proof {
            assert(decreases_to!(xs => xs@));
            assert(decreases_to!(xs@ => xs@[i as int]));
        }
        let c = clone_item(&xs[i]);
        v.push(c);
        i += 1;
    }
    assert(view_seq(v@) =~= view_seq(xs@));
    v
}

fn clone_opt_type_expr(o: &Option<TypeExpr>) -> (r: Option<TypeExpr>)
    ensures
        opt_view(r) == opt_view(*o),
    decreases o,
{
    match o {
        Some(v) => Some(clone_type_expr(v)),
        None => None,
    }
}

fn clone_enum_variant_seq(xs: &Vec<EnumVariant>) -> (r: Vec<EnumVariant>)
    ensures
        view_seq(r@) == view_seq(xs@),
    decreases xs,
{
    let mut v: Vec<EnumVariant> = Vec::new();
    let mut i: usize = 0;
    while i < xs.len()
        invariant
            i <= xs.len(),
            v@.len() == i,
            forall|k: int| 0 <= k < i ==> (#[trigger] v@[k])@ == xs@[k]@,
        decreases xs.len() - i,
    {
        proof {
            assert(decreases_to!(xs => xs@));
            assert(decreases_to!(xs@ => xs@[i as int]));
        }
        let c = clone_enum_variant(&xs[i]);
        v.push(c);
        i += 1;
    }
    assert(view_seq(v@) =~= view_seq(xs@));
    v
}

fn clone_opt_expr(o: &Option<Expr>) -> (r: Option<Expr>)
    ensures
        opt_view(r) == opt_view(*o),
    decreases o,
{
    match o {
        Some(v) => Some(clone_expr(v)),
        None => None,
    }
}

fn clone_union_field_seq(xs: &Vec<UnionField>) -> (r: Vec<UnionField>)
    ensures
        view_seq(r@) == view_seq(xs@),
    decreases xs,
{
    let mut v: Vec<UnionField> = Vec::new();
    let mut i: usize = 0;
    while i < xs.len()
        invariant
            i <= xs.len(),
            v@.len() == i,
            forall|k: int| 0 <= k < i ==> (#[trigger] v@[k])@ == xs@[k]@,
        decreases xs.len() - i,
    {
        proof {
            assert(decreases_to!(xs => xs@));
            assert(decreases_to!(xs@ => xs@[i as int]));
        }
        let c = clone_union_field(&xs[i]);
        v.push(c);
        i += 1;
    }
    assert(view_seq(v@) =~= view_seq(xs@));
    v
}

fn clone_opt_string(o: &Option<String>) -> (r: Option<String>)
    ensures
        opt_view(r) == opt_view(*o),
{
    match o {
        Some(s) => Some(text(s.as_str())),
        None => None,
    }
}

fn clone_string_seq(xs: &Vec<String>) -> (r: Vec<String>)
    ensures
        view_seq(r@) == view_seq(xs@),
    decreases xs,
{
    let mut v: Vec<String> = Vec::new();
    let mut i: usize = 0;
    while i < xs.len()
        invariant
            i <= xs.len(),
            v@.len() == i,
            forall|k: int| 0 <= k < i ==> (#[trigger] v@[k])@ == xs@[k]@,
        decreases xs.len() - i,
    {
        proof {
            assert(decreases_to!(xs => xs@));
            assert(decreases_to!(xs@ => xs@[i as int]));
        }
        let c = text(xs[i].as_str());
        v.push(c);
        i += 1;
    }
    assert(view_seq(v@) =~= view_seq(xs@));
    v
}

fn clone_param_seq(xs: &Vec<Param>) -> (r: Vec<Param>)
    ensures
        view_seq(r@) == view_seq(xs@),
    decreases xs,
{
    let mut v: Vec<Param> = Vec::new();
    let mut i: usize = 0;
    while i < xs.len()
        invariant
            i <= xs.len(),
            v@.len() == i,
            forall|k: int| 0 <= k < i ==> (#[trigger] v@[k])@ == xs@[k]@,
        decreases xs.len() - i,
    {
        proof {
            assert(decreases_to!(xs => xs@));
            assert(decreases_to!(xs@ => xs@[i as int]));
        }
        let c = clone_param(&xs[i]);
        v.push(c);
        i += 1;
    }
    assert(view_seq(v@) =~= view_seq(xs@));
    v
}

fn clone_opt_function_body(o: &Option<FunctionBody>) -> (r: Option<FunctionBody>)
    ensures
        opt_view(r) == opt_view(*o),
    decreases o,
{
    match o {
        Some(v) => Some(clone_function_body(v)),
        None => None,
    }
}

fn clone_struct_field_seq(xs: &Vec<StructField>) -> (r: Vec<StructField>)
    ensures
        view_seq(r@) == view_seq(xs@),
    decreases xs,
{
    let mut v: Vec<StructField> = Vec::new();
    let mut i: usize = 0;
    while i < xs.len()
        invariant
            i <= xs.len(),
            v@.len() == i,
            forall|k: int| 0 <= k < i ==> (#[trigger] v@[k])@ == xs@[k]@,
        decreases xs.len() - i,
    {
        proof {
            assert(decreases_to!(xs => xs@));
            assert(decreases_to!(xs@ => xs@[i as int]));
        }
        let c = clone_struct_field(&xs[i]);
        v.push(c);
        i += 1;
    }
    assert(view_seq(v@) =~= view_seq(xs@));
    v
}

fn clone_function_decl_seq(xs: &Vec<FunctionDecl>) -> (r: Vec<FunctionDecl>)
    ensures
        view_seq(r@) == view_seq(xs@),
    decreases xs,
{
    let mut v: Vec<FunctionDecl> = Vec::new();
    let mut i: usize = 0;
    while i < xs.len()
        invariant
            i <= xs.len(),
            v@.len() == i,
            forall|k: int| 0 <= k < i ==> (#[trigger] v@[k])@ == xs@[k]@,
        decreases xs.len() - i,
    {
        proof {
            assert(decreases_to!(xs => xs@));
            assert(decreases_to!(xs@ => xs@[i as int]));
        }
        let c = clone_function_decl(&xs[i]);
        v.push(c);
        i += 1;
    }
    assert(view_seq(v@) =~= view_seq(xs@));
    v
}

fn clone_interface_method_seq(xs: &Vec<InterfaceMethod>) -> (r: Vec<InterfaceMethod>)
    ensures
        view_seq(r@) == view_seq(xs@),
    decreases xs,
{
    let mut v: Vec<InterfaceMethod> = Vec::new();
    let mut i: usize = 0;
    while i < xs.len()
        invariant
            i <= xs.len(),
            v@.len() == i,
            forall|k: int| 0 <= k < i ==> (#[trigger] v@[k])@ == xs@[k]@,
        decreases xs.len() - i,
    {
        proof {
            assert(decreases_to!(xs => xs@));
            assert(decreases_to!(xs@ => xs@[i as int]));
        }
        let c = clone_interface_method(&xs[i]);
        v.push(c);
        i += 1;
    }
    assert(view_seq(v@) =~= view_seq(xs@));
    v
}

fn clone_stmt_seq(xs: &Vec<Stmt>) -> (r: Vec<Stmt>)
    ensures
        view_seq(r@) == view_seq(xs@),
    decreases xs,
{
    let mut v: Vec<Stmt> = Vec::new();
    let mut i: usize = 0;
    while i < xs.len()
        invariant
            i <= xs.len(),
            v@.len() == i,
            forall|k: int| 0 <= k < i ==> (#[trigger] v@[k])@ == xs@[k]@,
        decreases xs.len() - i,
    {
        proof {
            assert(decreases_to!(xs => xs@));
            assert(decreases_to!(xs@ => xs@[i as int]));
        }
        let c = clone_stmt(&xs[i]);
        v.push(c);
        i += 1;
    }
    assert(view_seq(v@) =~= view_seq(xs@));
    v
}

fn clone_opt_box_expr(o: &Option<Box<Expr>>) -> (r: Option<Box<Expr>>)
    ensures
        opt_box_view(r) == opt_box_view(*o),
    decreases o,
{
    match o {
        Some(v) => Some(Box::new(clone_expr(v))),
        None => None,
    }
}

fn clone_type_expr_seq(xs: &Vec<TypeExpr>) -> (r: Vec<TypeExpr>)
    ensures
        view_seq(r@) == view_seq(xs@),
    decreases xs,
{
    let mut v: Vec<TypeExpr> = Vec::new();
    let mut i: usize = 0;
    while i < xs.len()
        invariant
            i <= xs.len(),
            v@.len() == i,
            forall|k: int| 0 <= k < i ==> (#[trigger] v@[k])@ == xs@[k]@,
        decreases xs.len() - i,
    {
        proof {
            assert(decreases_to!(xs => xs@));
            assert(decreases_to!(xs@ => xs@[i as int]));
        }
        let c = clone_type_expr(&xs[i]);
        v.push(c);
        i += 1;
    }
    assert(view_seq(v@) =~= view_seq(xs@));
    v
}

fn clone_opt_box_type_expr(o: &Option<Box<TypeExpr>>) -> (r: Option<Box<TypeExpr>>)
    ensures
        opt_box_view(r) == opt_box_view(*o),
    decreases o,
{
    match o {
        Some(v) => Some(Box::new(clone_type_expr(v))),
        None => None,
    }
}

fn clone_tuple_field_type_seq(xs: &Vec<TupleFieldType>) -> (r: Vec<TupleFieldType>)
    ensures
        view_seq(r@) == view_seq(xs@),
    decreases xs,
{
    let mut v: Vec<TupleFieldType> = Vec::new();
    let mut i: usize = 0;
    while i < xs.len()
        invariant
            i <= xs.len(),
            v@.len() == i,
            forall|k: int| 0 <= k < i ==> (#[trigger] v@[k])@ == xs@[k]@,
        decreases xs.len() - i,
    {
        proof {
            assert(decreases_to!(xs => xs@));
            assert(decreases_to!(xs@ => xs@[i as int]));
        }
        let c = clone_tuple_field_type(&xs[i]);
        v.push(c);
        i += 1;
    }
    assert(view_seq(v@) =~= view_seq(xs@));
    v
}

fn clone_call_arg_seq(xs: &Vec<CallArg>) -> (r: Vec<CallArg>)
    ensures
        view_seq(r@) == view_seq(xs@),
    decreases xs,
{
    let mut v: Vec<CallArg> = Vec::new();
    let mut i: usize = 0;
    while i < xs.len()
        invariant
            i <= xs.len(),
            v@.len() == i,
            forall|k: int| 0 <= k < i ==> (#[trigger] v@[k])@ == xs@[k]@,
        decreases xs.len() - i,
    {
        proof {
            assert(decreases_to!(xs => xs@));
            assert(decreases_to!(xs@ => xs@[i as int]));
        }
        let c = clone_call_arg(&xs[i]);
        v.push(c);
        i += 1;
    }
    assert(view_seq(v@) =~= view_seq(xs@));
    v
}

fn clone_field_init_seq(xs: &Vec<FieldInit>) -> (r: Vec<FieldInit>)
    ensures
        view_seq(r@) == view_seq(xs@),
    decreases xs,
{
    let mut v: Vec<FieldInit> = Vec::new();
    let mut i: usize = 0;
    while i < xs.len()
        invariant
            i <= xs.len(),
            v@.len() == i,
            forall|k: int| 0 <= k < i ==> (#[trigger] v@[k])@ == xs@[k]@,
        decreases xs.len() - i,
    {
        proof {
            assert(decreases_to!(xs => xs@));
            assert(decreases_to!(xs@ => xs@[i as int]));
        }
        let c = clone_field_init(&xs[i]);
        v.push(c);
        i += 1;
    }
    assert(view_seq(v@) =~= view_seq(xs@));
    v
}

fn clone_expr_seq(xs: &Vec<Expr>) -> (r: Vec<Expr>)
    ensures
        view_seq(r@) == view_seq(xs@),
    decreases xs,
{
    let mut v: Vec<Expr> = Vec::new();
    let mut i: usize = 0;
    while i < xs.len()
        invariant
            i <= xs.len(),
            v@.len() == i,
            forall|k: int| 0 <= k < i ==> (#[trigger] v@[k])@ == xs@[k]@,
        decreases xs.len() - i,
    {
        proof {
            assert(decreases_to!(xs => xs@));
            assert(decreases_to!(xs@ => xs@[i as int]));
        }
        let c = clone_expr(&xs[i]);
        v.push(c);
        i += 1;
    }
    assert(view_seq(v@) =~= view_seq(xs@));
    v
}

fn clone_opt_block(o: &Option<Block>) -> (r: Option<Block>)
    ensures
        opt_view(r) == opt_view(*o),
    decreases o,
{
    match o {
        Some(v) => Some(clone_block(v)),
        None => None,
    }
}

fn clone_match_arm_seq(xs: &Vec<MatchArm>) -> (r: Vec<MatchArm>)
    ensures
        view_seq(r@) == view_seq(xs@),
    decreases xs,
{
    let mut v: Vec<MatchArm> = Vec::new();
    let mut i: usize = 0;
    while i < xs.len()
        invariant
            i <= xs.len(),
            v@.len() == i,
            forall|k: int| 0 <= k < i ==> (#[trigger] v@[k])@ == xs@[k]@,
        decreases xs.len() - i,
    {
        proof {
            assert(decreases_to!(xs => xs@));
            assert(decreases_to!(xs@ => xs@[i as int]));
        }
        let c = clone_match_arm(&xs[i]);
        v.push(c);
        i += 1;
    }
    assert(view_seq(v@) =~= view_seq(xs@));
    v
}

impl Clone for SourceFile {
    fn clone(&self) -> (r: Self)
        ensures
            r@ == self@,
    {
        clone_source_file(self)
    }
}

impl Clone for EnumDecl {
    fn clone(&self) -> (r: Self)
        ensures
            r@ == self@,
    {
        clone_enum_decl(self)
    }
}

impl Clone for EnumVariant {
    fn clone(&self) -> (r: Self)
        ensures
            r@ == self@,
    {
        clone_enum_variant(self)
    }
}

impl Clone for UnionDecl {
    fn clone(&self) -> (r: Self)
        ensures
            r@ == self@,
    {
        clone_union_decl(self)
    }
}

impl Clone for UnionField {
    fn clone(&self) -> (r: Self)
        ensures
            r@ == self@,
    {
        clone_union_field(self)
    }
}

impl Clone for ImportDecl {
    fn clone(&self) -> (r: Self)
        ensures
            r@ == self@,
    {
        clone_import_decl(self)
    }
}

impl Clone for FunctionDecl {
    fn clone(&self) -> (r: Self)
        ensures
            r@ == self@,
    {
        clone_function_decl(self)
    }
}

impl Clone for Param {
    fn clone(&self) -> (r: Self)
        ensures
            r@ == self@,
    {
        clone_param(self)
    }
}

impl Clone for StructDecl {
    fn clone(&self) -> (r: Self)
        ensures
            r@ == self@,
    {
        clone_struct_decl(self)
    }
}

impl Clone for StructField {
    fn clone(&self) -> (r: Self)
        ensures
            r@ == self@,
    {
        clone_struct_field(self)
    }
}

impl Clone for InterfaceDecl {
    fn clone(&self) -> (r: Self)
        ensures
            r@ == self@,
    {
        clone_interface_decl(self)
    }
}

impl Clone for InterfaceMethod {
    fn clone(&self) -> (r: Self)
        ensures
            r@ == self@,
    {
        clone_interface_method(self)
    }
}

impl Clone for ExtendDecl {
    fn clone(&self) -> (r: Self)
        ensures
            r@ == self@,
    {
        clone_extend_decl(self)
    }
}

impl Clone for TypeAliasDecl {
    fn clone(&self) -> (r: Self)
        ensures
            r@ == self@,
    {
        clone_type_alias_decl(self)
    }
}

impl Clone for TestDecl {
    fn clone(&self) -> (r: Self)
        ensures
            r@ == self@,
    {
        clone_test_decl(self)
    }
}

impl Clone for VarDecl {
    fn clone(&self) -> (r: Self)
        ensures
            r@ == self@,
    {
        clone_var_decl(self)
    }
}

impl Clone for TupleFieldType {
    fn clone(&self) -> (r: Self)
        ensures
            r@ == self@,
    {
        clone_tuple_field_type(self)
    }
}

impl Clone for Block {
    fn clone(&self) -> (r: Self)
        ensures
            r@ == self@,
    {
        clone_block(self)
    }
}

impl Clone for CallArg {
    fn clone(&self) -> (r: Self)
        ensures
            r@ == self@,
    {
        clone_call_arg(self)
    }
}

impl Clone for FieldInit {
    fn clone(&self) -> (r: Self)
        ensures
            r@ == self@,
    {
        clone_field_init(self)
    }
}

impl Clone for MatchArm {
    fn clone(&self) -> (r: Self)
        ensures
            r@ == self@,
    {
        clone_match_arm(self)
    }
}

impl Clone for Item {
    fn clone(&self) -> (r: Self)
        ensures
            r@ == self@,
    {
        clone_item(self)
    }
}

impl Clone for FunctionBody {
    fn clone(&self) -> (r: Self)
        ensures
            r@ == self@,
    {
        clone_function_body(self)
    }
}

impl Clone for TypeExpr {
    fn clone(&self) -> (r: Self)
        ensures
            r@ == self@,
    {
        clone_type_expr(self)
    }
}

impl Clone for Stmt {
    fn clone(&self) -> (r: Self)
        ensures
            r@ == self@,
    {
        clone_stmt(self)
    }
}

impl Clone for Expr {
    fn clone(&self) -> (r: Self)
        ensures
            r@ == self@,
    {
        clone_expr(self)
    }
}

impl Clone for MatchArmBody {
    fn clone(&self) -> (r: Self)
        ensures
            r@ == self@,
    {
        clone_match_arm_body(self)
    }
}

impl Clone for Pattern {
    fn clone(&self) -> (r: Self)
        ensures
            r@ == self@,
    {
        clone_pattern(self)
    }
}

} // verus!
