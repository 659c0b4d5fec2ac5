//! The views of syntax tree nodes, one constructor at a time: each lemma
//! states what the view of a node built with that constructor is, in terms of
//! the views of its fields.

use vstd::prelude::*;
use crate::syntax::ast::{
    Visibility, StructKind, AssignOp, BinaryOp, UnaryOp, SourceFile, Item, EnumDecl, EnumVariant, UnionDecl, UnionField, ImportDecl, FunctionDecl, FunctionBody, Param, StructDecl, StructField, InterfaceDecl, InterfaceMethod, ExtendDecl, TypeAliasDecl, TestDecl, VarDecl, TypeExpr, TupleFieldType, Block, Stmt, Expr, CallArg, FieldInit, MatchArm, MatchArmBody, Pattern, SourceFileView, ItemView, EnumDeclView, EnumVariantView, UnionDeclView, UnionFieldView, ImportDeclView, FunctionDeclView, FunctionBodyView, ParamView, StructDeclView, StructFieldView, InterfaceDeclView, InterfaceMethodView, ExtendDeclView, TypeAliasDeclView, TestDeclView, VarDeclView, TypeExprView, TupleFieldTypeView, BlockView, StmtView, ExprView, CallArgView, FieldInitView, MatchArmView, MatchArmBodyView, PatternView, view_source_file, view_item, view_enum_decl, view_enum_variant, view_union_decl, view_union_field, view_import_decl, view_function_decl, view_function_body, view_param, view_struct_decl, view_struct_field, view_interface_decl, view_interface_method, view_extend_decl, view_type_alias_decl, view_test_decl, view_var_decl, view_type_expr, view_tuple_field_type, view_block, view_stmt, view_expr, view_call_arg, view_field_init, view_match_arm, view_match_arm_body, view_pattern,
};

verus! {

/// The views of the elements of `s`.
pub open spec fn view_seq<T: View>(s: Seq<T>) -> Seq<T::V> {
    s.map_values(|x: T| x@)
}

/// The view of an optional boxed expression.
pub open spec fn opt_expr_view(y: Option<Box<Expr>>) -> Option<Box<ExprView>> {
    match y {
        Some(e) => Some(Box::new(view_expr(*e))),
        None => None,
    }
}

/// The view of a `TupleFieldType`: the views of its fields.
pub proof fn lemma_tuple_field_type_view(x: TupleFieldType)
    ensures
        x@ == (TupleFieldTypeView { label: (match x.label { Some(v) => Some(v@), None => None }), ty: x.ty@ }),
{
}

/// The view of a `SourceFile`: the views of its fields.
pub proof fn lemma_source_file_view(x: SourceFile)
    ensures
        x@ == (SourceFileView { items: view_seq(x.items@) }),
{
    let v = x@;
    assert(v.items =~= view_seq(x.items@)) by {
        assert forall|i: int| 0 <= i < x.items@.len() implies v.items[i] == view_seq(x.items@)[i] by {
            assert(v.items[i] == x.items@[i]@);
        }
    }
}

/// The view of a `EnumDecl`: the views of its fields.
pub proof fn lemma_enum_decl_view(x: EnumDecl)
    ensures
        x@ == (EnumDeclView { name: x.name@, visibility: x.visibility, backing_type: (match x.backing_type { Some(v) => Some(v@), None => None }), variants: view_seq(x.variants@), span: x.span }),
{
    let v = x@;
    assert(v.variants =~= view_seq(x.variants@)) by {
        assert forall|i: int| 0 <= i < x.variants@.len() implies v.variants[i] == view_seq(x.variants@)[i] by {
            assert(v.variants[i] == x.variants@[i]@);
        }
    }
}

/// The view of a `EnumVariant`: the views of its fields.
pub proof fn lemma_enum_variant_view(x: EnumVariant)
    ensures
        x@ == (EnumVariantView { name: x.name@, value: (match x.value { Some(v) => Some(v@), None => None }), span: x.span }),
{
}

/// The view of a `UnionDecl`: the views of its fields.
pub proof fn lemma_union_decl_view(x: UnionDecl)
    ensures
        x@ == (UnionDeclView { name: x.name@, visibility: x.visibility, is_tagged: x.is_tagged, fields: view_seq(x.fields@), span: x.span }),
{
    let v = x@;
    assert(v.fields =~= view_seq(x.fields@)) by {
        assert forall|i: int| 0 <= i < x.fields@.len() implies v.fields[i] == view_seq(x.fields@)[i] by {
            assert(v.fields[i] == x.fields@[i]@);
        }
    }
}

/// The view of a `UnionField`: the views of its fields.
pub proof fn lemma_union_field_view(x: UnionField)
    ensures
        x@ == (UnionFieldView { name: x.name@, ty: (match x.ty { Some(v) => Some(v@), None => None }), span: x.span }),
{
}

/// The view of a `ImportDecl`: the views of its fields.
pub proof fn lemma_import_decl_view(x: ImportDecl)
    ensures
        x@ == (ImportDeclView { path: x.path@, alias: (match x.alias { Some(v) => Some(v@), None => None }), selective: view_seq(x.selective@), span: x.span }),
{
    let v = x@;
    assert(v.selective =~= view_seq(x.selective@)) by {
        assert forall|i: int| 0 <= i < x.selective@.len() implies v.selective[i] == view_seq(x.selective@)[i] by {
            assert(v.selective[i] == x.selective@[i]@);
        }
    }
}

/// The view of a `FunctionDecl`: the views of its fields.
pub proof fn lemma_function_decl_view(x: FunctionDecl)
    ensures
        x@ == (FunctionDeclView { name: x.name@, visibility: x.visibility, is_static: x.is_static, is_inline: x.is_inline, is_const: x.is_const, is_naked: x.is_naked, params: view_seq(x.params@), return_type: (match x.return_type { Some(v) => Some(v@), None => None }), body: (match x.body { Some(v) => Some(v@), None => None }), span: x.span }),
{
    let v = x@;
    assert(v.params =~= view_seq(x.params@)) by {
        assert forall|i: int| 0 <= i < x.params@.len() implies v.params[i] == view_seq(x.params@)[i] by {
            assert(v.params[i] == x.params@[i]@);
        }
    }
}

/// The view of a `Param`: the views of its fields.
pub proof fn lemma_param_view(x: Param)
    ensures
        x@ == (ParamView { name: x.name@, label: (match x.label { Some(v) => Some(v@), None => None }), ty: x.ty@, default_val: (match x.default_val { Some(v) => Some(v@), None => None }), span: x.span }),
{
}

/// The view of a `StructDecl`: the views of its fields.
pub proof fn lemma_struct_decl_view(x: StructDecl)
    ensures
        x@ == (StructDeclView { name: x.name@, visibility: x.visibility, kind: x.kind, fields: view_seq(x.fields@), methods: view_seq(x.methods@), span: x.span }),
{
    let v = x@;
    assert(v.fields =~= view_seq(x.fields@)) by {
        assert forall|i: int| 0 <= i < x.fields@.len() implies v.fields[i] == view_seq(x.fields@)[i] by {
            assert(v.fields[i] == x.fields@[i]@);
        }
    }
    assert(v.methods =~= view_seq(x.methods@)) by {
        assert forall|i: int| 0 <= i < x.methods@.len() implies v.methods[i] == view_seq(x.methods@)[i] by {
            assert(v.methods[i] == x.methods@[i]@);
        }
    }
}

/// The view of a `StructField`: the views of its fields.
pub proof fn lemma_struct_field_view(x: StructField)
    ensures
        x@ == (StructFieldView { name: (match x.name { Some(v) => Some(v@), None => None }), ty: x.ty@, default_val: (match x.default_val { Some(v) => Some(v@), None => None }), span: x.span }),
{
}

/// The view of a `InterfaceDecl`: the views of its fields.
pub proof fn lemma_interface_decl_view(x: InterfaceDecl)
    ensures
        x@ == (InterfaceDeclView { name: x.name@, visibility: x.visibility, methods: view_seq(x.methods@), span: x.span }),
{
    let v = x@;
    assert(v.methods =~= view_seq(x.methods@)) by {
        assert forall|i: int| 0 <= i < x.methods@.len() implies v.methods[i] == view_seq(x.methods@)[i] by {
            assert(v.methods[i] == x.methods@[i]@);
        }
    }
}

/// The view of a `InterfaceMethod`: the views of its fields.
pub proof fn lemma_interface_method_view(x: InterfaceMethod)
    ensures
        x@ == (InterfaceMethodView { name: x.name@, params: view_seq(x.params@), return_type: (match x.return_type { Some(v) => Some(v@), None => None }), span: x.span }),
{
    let v = x@;
    assert(v.params =~= view_seq(x.params@)) by {
        assert forall|i: int| 0 <= i < x.params@.len() implies v.params[i] == view_seq(x.params@)[i] by {
            assert(v.params[i] == x.params@[i]@);
        }
    }
}

/// The view of a `ExtendDecl`: the views of its fields.
pub proof fn lemma_extend_decl_view(x: ExtendDecl)
    ensures
        x@ == (ExtendDeclView { target: x.target@, methods: view_seq(x.methods@), span: x.span }),
{
    let v = x@;
    assert(v.methods =~= view_seq(x.methods@)) by {
        assert forall|i: int| 0 <= i < x.methods@.len() implies v.methods[i] == view_seq(x.methods@)[i] by {
            assert(v.methods[i] == x.methods@[i]@);
        }
    }
}

/// The view of a `TypeAliasDecl`: the views of its fields.
pub proof fn lemma_type_alias_decl_view(x: TypeAliasDecl)
    ensures
        x@ == (TypeAliasDeclView { name: x.name@, visibility: x.visibility, is_distinct: x.is_distinct, target: x.target@, span: x.span }),
{
}

/// The view of a `TestDecl`: the views of its fields.
pub proof fn lemma_test_decl_view(x: TestDecl)
    ensures
        x@ == (TestDeclView { name: x.name@, body: x.body@, span: x.span }),
{
}

/// The view of a `VarDecl`: the views of its fields.
pub proof fn lemma_var_decl_view(x: VarDecl)
    ensures
        x@ == (VarDeclView { name: x.name@, is_mut: x.is_mut, ty: (match x.ty { Some(v) => Some(v@), None => None }), value: x.value@, span: x.span }),
{
}

/// The view of a `Block`: the views of its fields.
pub proof fn lemma_block_view(x: Block)
    ensures
        x@ == (BlockView { stmts: view_seq(x.stmts@), yield_expr: (match x.yield_expr { Some(v) => Some(Box::new(v@)), None => None }), span: x.span }),
{
    let v = x@;
    assert(v.stmts =~= view_seq(x.stmts@)) by {
        assert forall|i: int| 0 <= i < x.stmts@.len() implies v.stmts[i] == view_seq(x.stmts@)[i] by {
            assert(v.stmts[i] == x.stmts@[i]@);
        }
    }
}

/// The view of a `CallArg`: the views of its fields.
pub proof fn lemma_call_arg_view(x: CallArg)
    ensures
        x@ == (CallArgView { label: (match x.label { Some(v) => Some(v@), None => None }), value: x.value@, span: x.span }),
{
}

/// The view of a `FieldInit`: the views of its fields.
pub proof fn lemma_field_init_view(x: FieldInit)
    ensures
        x@ == (FieldInitView { name: x.name@, value: x.value@, span: x.span }),
{
}

/// The view of a `MatchArm`: the views of its fields.
pub proof fn lemma_match_arm_view(x: MatchArm)
    ensures
        x@ == (MatchArmView { pattern: x.pattern@, body: x.body@, span: x.span }),
{
}

/// The view of `Item::Function`: the views of its fields.
pub proof fn lemma_item_function_view(e: Item)
    requires
        e is Function,
    ensures
        e@ == ItemView::Function(e->Function_0@),
{
}

/// The view of `Item::Struct`: the views of its fields.
pub proof fn lemma_item_struct_view(e: Item)
    requires
        e is Struct,
    ensures
        e@ == ItemView::Struct(e->Struct_0@),
{
}

/// The view of `Item::Interface`: the views of its fields.
pub proof fn lemma_item_interface_view(e: Item)
    requires
        e is Interface,
    ensures
        e@ == ItemView::Interface(e->Interface_0@),
{
}

/// The view of `Item::Extend`: the views of its fields.
pub proof fn lemma_item_extend_view(e: Item)
    requires
        e is Extend,
    ensures
        e@ == ItemView::Extend(e->Extend_0@),
{
}

/// The view of `Item::TypeAlias`: the views of its fields.
pub proof fn lemma_item_type_alias_view(e: Item)
    requires
        e is TypeAlias,
    ensures
        e@ == ItemView::TypeAlias(e->TypeAlias_0@),
{
}

/// The view of `Item::Test`: the views of its fields.
pub proof fn lemma_item_test_view(e: Item)
    requires
        e is Test,
    ensures
        e@ == ItemView::Test(e->Test_0@),
{
}

/// The view of `Item::Global`: the views of its fields.
pub proof fn lemma_item_global_view(e: Item)
    requires
        e is Global,
    ensures
        e@ == ItemView::Global(e->Global_0@),
{
}

/// The view of `Item::Import`: the views of its fields.
pub proof fn lemma_item_import_view(e: Item)
    requires
        e is Import,
    ensures
        e@ == ItemView::Import(e->Import_0@),
{
}

/// The view of `Item::Enum`: the views of its fields.
pub proof fn lemma_item_enum_view(e: Item)
    requires
        e is Enum,
    ensures
        e@ == ItemView::Enum(e->Enum_0@),
{
}

/// The view of `Item::Union`: the views of its fields.
pub proof fn lemma_item_union_view(e: Item)
    requires
        e is Union,
    ensures
        e@ == ItemView::Union(e->Union_0@),
{
}

/// The view of `FunctionBody::Block`: the views of its fields.
pub proof fn lemma_function_body_block_view(e: FunctionBody)
    requires
        e is Block,
    ensures
        e@ == FunctionBodyView::Block(e->Block_0@),
{
}

/// The view of `FunctionBody::Expr`: the views of its fields.
pub proof fn lemma_function_body_expr_view(e: FunctionBody)
    requires
        e is Expr,
    ensures
        e@ == FunctionBodyView::Expr(Box::new(e->Expr_0@)),
{
}

/// The view of `TypeExpr::Named`: the views of its fields.
pub proof fn lemma_type_expr_named_view(e: TypeExpr)
    requires
        e is Named,
    ensures
        e@ == TypeExprView::Named(e->Named_0@, e->Named_1),
{
}

/// The view of `TypeExpr::Pointer`: the views of its fields.
pub proof fn lemma_type_expr_pointer_view(e: TypeExpr)
    requires
        e is Pointer,
    ensures
        e@ == TypeExprView::Pointer(Box::new(e->Pointer_0@), e->Pointer_1, e->Pointer_2),
{
}

/// The view of `TypeExpr::Optional`: the views of its fields.
pub proof fn lemma_type_expr_optional_view(e: TypeExpr)
    requires
        e is Optional,
    ensures
        e@ == TypeExprView::Optional(Box::new(e->Optional_0@), e->Optional_1),
{
}

/// The view of `TypeExpr::Slice`: the views of its fields.
pub proof fn lemma_type_expr_slice_view(e: TypeExpr)
    requires
        e is Slice,
    ensures
        e@ == TypeExprView::Slice(Box::new(e->Slice_0@), e->Slice_1),
{
}

/// The view of `TypeExpr::Generic`: the views of its fields.
pub proof fn lemma_type_expr_generic_view(e: TypeExpr)
    requires
        e is Generic,
    ensures
        e@ == TypeExprView::Generic(Box::new(e->Generic_0@), view_seq(e->Generic_1@), e->Generic_2),
{
    let v = e@;
    assert(v->Generic_1 =~= view_seq(e->Generic_1@)) by {
        assert forall|i: int| 0 <= i < e->Generic_1@.len() implies v->Generic_1[i] == view_seq(e->Generic_1@)[i] by {
            assert(v->Generic_1[i] == e->Generic_1@[i]@);
        }
    }
}

/// The view of `TypeExpr::Array`: the views of its fields.
pub proof fn lemma_type_expr_array_view(e: TypeExpr)
    requires
        e is Array,
    ensures
        e@ == TypeExprView::Array(Box::new(e->Array_0@), e->Array_1, e->Array_2),
{
}

/// The view of `TypeExpr::SentinelSlice`: the views of its fields.
pub proof fn lemma_type_expr_sentinel_slice_view(e: TypeExpr)
    requires
        e is SentinelSlice,
    ensures
        e@ == TypeExprView::SentinelSlice(Box::new(e->SentinelSlice_0@), e->SentinelSlice_1, e->SentinelSlice_2),
{
}

/// The view of `TypeExpr::ErrorUnion`: the views of its fields.
pub proof fn lemma_type_expr_error_union_view(e: TypeExpr)
    requires
        e is ErrorUnion,
    ensures
        e@ == TypeExprView::ErrorUnion((match e->ErrorUnion_0 { Some(v) => Some(Box::new(v@)), None => None }), Box::new(e->ErrorUnion_1@), e->ErrorUnion_2),
{
}

/// The view of `TypeExpr::Tuple`: the views of its fields.
pub proof fn lemma_type_expr_tuple_view(e: TypeExpr)
    requires
        e is Tuple,
    ensures
        e@ == TypeExprView::Tuple(view_seq(e->Tuple_0@), e->Tuple_1),
{
    let v = e@;
    assert(v->Tuple_0 =~= view_seq(e->Tuple_0@)) by {
        assert forall|i: int| 0 <= i < e->Tuple_0@.len() implies v->Tuple_0[i] == view_seq(e->Tuple_0@)[i] by {
            assert(v->Tuple_0[i] == e->Tuple_0@[i]@);
        }
    }
}

/// The view of `TypeExpr::DynInterface`: the views of its fields.
pub proof fn lemma_type_expr_dyn_interface_view(e: TypeExpr)
    requires
        e is DynInterface,
    ensures
        e@ == TypeExprView::DynInterface(Box::new(e->DynInterface_0@), e->DynInterface_1),
{
}

/// The view of `TypeExpr::Anytype`: the views of its fields.
pub proof fn lemma_type_expr_anytype_view(e: TypeExpr)
    requires
        e is Anytype,
    ensures
        e@ == TypeExprView::Anytype(e->Anytype_0),
{
}

/// The view of `Stmt::Let`: the views of its fields.
pub proof fn lemma_stmt_let_view(e: Stmt)
    requires
        e is Let,
    ensures
        e@ == StmtView::Let(e->Let_0@),
{
}

/// The view of `Stmt::Var`: the views of its fields.
pub proof fn lemma_stmt_var_view(e: Stmt)
    requires
        e is Var,
    ensures
        e@ == StmtView::Var(e->Var_0@),
{
}

/// The view of `Stmt::Defer`: the views of its fields.
pub proof fn lemma_stmt_defer_view(e: Stmt)
    requires
        e is Defer,
    ensures
        e@ == StmtView::Defer(e->Defer_0@, e->Defer_1),
{
}

/// The view of `Stmt::Errdefer`: the views of its fields.
pub proof fn lemma_stmt_errdefer_view(e: Stmt)
    requires
        e is Errdefer,
    ensures
        e@ == StmtView::Errdefer(e->Errdefer_0@, e->Errdefer_1),
{
}

/// The view of `Stmt::Assign`: the views of its fields.
pub proof fn lemma_stmt_assign_view(e: Stmt)
    requires
        e is Assign,
    ensures
        e@ == StmtView::Assign(e->Assign_0@, e->Assign_1, e->Assign_2@, e->Assign_3),
{
}

/// The view of `Stmt::Expr`: the views of its fields.
pub proof fn lemma_stmt_expr_view(e: Stmt)
    requires
        e is Expr,
    ensures
        e@ == StmtView::Expr(e->Expr_0@, e->Expr_1),
{
}

/// The view of `Expr::Int`: the views of its fields.
pub proof fn lemma_expr_int_view(e: Expr)
    requires
        e is Int,
    ensures
        e@ == ExprView::Int(e->Int_0, (match e->Int_1 { Some(v) => Some(v@), None => None }), e->Int_2),
{
}

/// The view of `Expr::Float`: the views of its fields.
pub proof fn lemma_expr_float_view(e: Expr)
    requires
        e is Float,
    ensures
        e@ == ExprView::Float(e->Float_0@, e->Float_1),
{
}

/// The view of `Expr::StringLit`: the views of its fields.
pub proof fn lemma_expr_string_lit_view(e: Expr)
    requires
        e is StringLit,
    ensures
        e@ == ExprView::StringLit(e->StringLit_0@, e->StringLit_1),
{
}

/// The view of `Expr::InterpolatedString`: the views of its fields.
pub proof fn lemma_expr_interpolated_string_view(e: Expr)
    requires
        e is InterpolatedString,
    ensures
        e@ == ExprView::InterpolatedString(e->InterpolatedString_0@, e->InterpolatedString_1),
{
}

/// The view of `Expr::BoolLit`: the views of its fields.
pub proof fn lemma_expr_bool_lit_view(e: Expr)
    requires
        e is BoolLit,
    ensures
        e@ == ExprView::BoolLit(e->BoolLit_0, e->BoolLit_1),
{
}

/// The view of `Expr::Ident`: the views of its fields.
pub proof fn lemma_expr_ident_view(e: Expr)
    requires
        e is Ident,
    ensures
        e@ == ExprView::Ident(e->Ident_0@, e->Ident_1),
{
}

/// The view of `Expr::Null`: the views of its fields.
pub proof fn lemma_expr_null_view(e: Expr)
    requires
        e is Null,
    ensures
        e@ == ExprView::Null(e->Null_0),
{
}

/// The view of `Expr::Undefined`: the views of its fields.
pub proof fn lemma_expr_undefined_view(e: Expr)
    requires
        e is Undefined,
    ensures
        e@ == ExprView::Undefined(e->Undefined_0),
{
}

/// The view of `Expr::Unreachable`: the views of its fields.
pub proof fn lemma_expr_unreachable_view(e: Expr)
    requires
        e is Unreachable,
    ensures
        e@ == ExprView::Unreachable(e->Unreachable_0),
{
}

/// The view of `Expr::Builtin`: the views of its fields.
pub proof fn lemma_expr_builtin_view(e: Expr)
    requires
        e is Builtin,
    ensures
        e@ == ExprView::Builtin(e->Builtin_0@, view_seq(e->Builtin_1@), e->Builtin_2),
{
    let v = e@;
    assert(v->Builtin_1 =~= view_seq(e->Builtin_1@)) by {
        assert forall|i: int| 0 <= i < e->Builtin_1@.len() implies v->Builtin_1[i] == view_seq(e->Builtin_1@)[i] by {
            assert(v->Builtin_1[i] == e->Builtin_1@[i]@);
        }
    }
}

/// The view of `Expr::Binary`: the views of its fields.
pub proof fn lemma_expr_binary_view(e: Expr)
    requires
        e is Binary,
    ensures
        e@ == ExprView::Binary(Box::new(e->Binary_0@), e->Binary_1, Box::new(e->Binary_2@), e->Binary_3),
{
}

/// The view of `Expr::Unary`: the views of its fields.
pub proof fn lemma_expr_unary_view(e: Expr)
    requires
        e is Unary,
    ensures
        e@ == ExprView::Unary(e->Unary_0, Box::new(e->Unary_1@), e->Unary_2),
{
}

/// The view of `Expr::Call`: the views of its fields.
pub proof fn lemma_expr_call_view(e: Expr)
    requires
        e is Call,
    ensures
        e@ == ExprView::Call(Box::new(e->Call_0@), view_seq(e->Call_1@), e->Call_2),
{
    let v = e@;
    assert(v->Call_1 =~= view_seq(e->Call_1@)) by {
        assert forall|i: int| 0 <= i < e->Call_1@.len() implies v->Call_1[i] == view_seq(e->Call_1@)[i] by {
            assert(v->Call_1[i] == e->Call_1@[i]@);
        }
    }
}

/// The view of `Expr::MethodCall`: the views of its fields.
pub proof fn lemma_expr_method_call_view(e: Expr)
    requires
        e is MethodCall,
    ensures
        e@ == ExprView::MethodCall(Box::new(e->MethodCall_0@), e->MethodCall_1@, view_seq(e->MethodCall_2@), e->MethodCall_3),
{
    let v = e@;
    assert(v->MethodCall_2 =~= view_seq(e->MethodCall_2@)) by {
        assert forall|i: int| 0 <= i < e->MethodCall_2@.len() implies v->MethodCall_2[i] == view_seq(e->MethodCall_2@)[i] by {
            assert(v->MethodCall_2[i] == e->MethodCall_2@[i]@);
        }
    }
}

/// The view of `Expr::MemberAccess`: the views of its fields.
pub proof fn lemma_expr_member_access_view(e: Expr)
    requires
        e is MemberAccess,
    ensures
        e@ == ExprView::MemberAccess(Box::new(e->MemberAccess_0@), e->MemberAccess_1@, e->MemberAccess_2),
{
}

/// The view of `Expr::OptionalChaining`: the views of its fields.
pub proof fn lemma_expr_optional_chaining_view(e: Expr)
    requires
        e is OptionalChaining,
    ensures
        e@ == ExprView::OptionalChaining(Box::new(e->OptionalChaining_0@), e->OptionalChaining_1@, e->OptionalChaining_2),
{
}

/// The view of `Expr::Deref`: the views of its fields.
pub proof fn lemma_expr_deref_view(e: Expr)
    requires
        e is Deref,
    ensures
        e@ == ExprView::Deref(Box::new(e->Deref_0@), e->Deref_1),
{
}

/// The view of `Expr::Index`: the views of its fields.
pub proof fn lemma_expr_index_view(e: Expr)
    requires
        e is Index,
    ensures
        e@ == ExprView::Index(Box::new(e->Index_0@), Box::new(e->Index_1@), e->Index_2),
{
}

/// The view of `Expr::Slice`: the views of its fields.
pub proof fn lemma_expr_slice_view(e: Expr)
    requires
        e is Slice,
    ensures
        e@ == ExprView::Slice(Box::new(e->Slice_0@), Box::new(e->Slice_1@), Box::new(e->Slice_2@), e->Slice_3),
{
}

/// The view of `Expr::StructInit`: the views of its fields.
pub proof fn lemma_expr_struct_init_view(e: Expr)
    requires
        e is StructInit,
    ensures
        e@ == ExprView::StructInit(e->StructInit_0@, view_seq(e->StructInit_1@), e->StructInit_2),
{
    let v = e@;
    assert(v->StructInit_1 =~= view_seq(e->StructInit_1@)) by {
        assert forall|i: int| 0 <= i < e->StructInit_1@.len() implies v->StructInit_1[i] == view_seq(e->StructInit_1@)[i] by {
            assert(v->StructInit_1[i] == e->StructInit_1@[i]@);
        }
    }
}

/// The view of `Expr::Tuple`: the views of its fields.
pub proof fn lemma_expr_tuple_view(e: Expr)
    requires
        e is Tuple,
    ensures
        e@ == ExprView::Tuple(view_seq(e->Tuple_0@), e->Tuple_1),
{
    let v = e@;
    assert(v->Tuple_0 =~= view_seq(e->Tuple_0@)) by {
        assert forall|i: int| 0 <= i < e->Tuple_0@.len() implies v->Tuple_0[i] == view_seq(e->Tuple_0@)[i] by {
            assert(v->Tuple_0[i] == e->Tuple_0@[i]@);
        }
    }
}

/// The view of `Expr::Block`: the views of its fields.
pub proof fn lemma_expr_block_view(e: Expr)
    requires
        e is Block,
    ensures
        e@ == ExprView::Block(e->Block_0@),
{
}

/// The view of `Expr::If`: the views of its fields.
pub proof fn lemma_expr_if_view(e: Expr)
    requires
        e is If,
    ensures
        e@ == ExprView::If(Box::new(e->If_0@), e->If_1@, (match e->If_2 { Some(v) => Some(v@), None => None }), e->If_3),
{
}

/// The view of `Expr::IfLet`: the views of its fields.
pub proof fn lemma_expr_if_let_view(e: Expr)
    requires
        e is IfLet,
    ensures
        e@ == ExprView::IfLet(e->IfLet_0@, Box::new(e->IfLet_1@), e->IfLet_2@, (match e->IfLet_3 { Some(v) => Some(v@), None => None }), e->IfLet_4),
{
}

/// The view of `Expr::Match`: the views of its fields.
pub proof fn lemma_expr_match_view(e: Expr)
    requires
        e is Match,
    ensures
        e@ == ExprView::Match(Box::new(e->Match_0@), view_seq(e->Match_1@), e->Match_2),
{
    let v = e@;
    assert(v->Match_1 =~= view_seq(e->Match_1@)) by {
        assert forall|i: int| 0 <= i < e->Match_1@.len() implies v->Match_1[i] == view_seq(e->Match_1@)[i] by {
            assert(v->Match_1[i] == e->Match_1@[i]@);
        }
    }
}

/// The view of `Expr::Loop`: the views of its fields.
pub proof fn lemma_expr_loop_view(e: Expr)
    requires
        e is Loop,
    ensures
        e@ == ExprView::Loop((match e->Loop_0 { Some(v) => Some(v@), None => None }), e->Loop_1@, e->Loop_2),
{
}

/// The view of `Expr::While`: the views of its fields.
pub proof fn lemma_expr_while_view(e: Expr)
    requires
        e is While,
    ensures
        e@ == ExprView::While((match e->While_0 { Some(v) => Some(v@), None => None }), Box::new(e->While_1@), e->While_2@, e->While_3),
{
}

/// The view of `Expr::ForC`: the views of its fields.
pub proof fn lemma_expr_for_c_view(e: Expr)
    requires
        e is ForC,
    ensures
        e@ == ExprView::ForC((match e->ForC_0 { Some(v) => Some(v@), None => None }), Box::new(e->ForC_1@), Box::new(e->ForC_2@), Box::new(e->ForC_3@), e->ForC_4@, e->ForC_5),
{
}

/// The view of `Expr::ForIn`: the views of its fields.
pub proof fn lemma_expr_for_in_view(e: Expr)
    requires
        e is ForIn,
    ensures
        e@ == ExprView::ForIn((match e->ForIn_0 { Some(v) => Some(v@), None => None }), e->ForIn_1@, Box::new(e->ForIn_2@), e->ForIn_3@, e->ForIn_4),
{
}

/// The view of `Expr::Break`: the views of its fields.
pub proof fn lemma_expr_break_view(e: Expr)
    requires
        e is Break,
    ensures
        e@ == ExprView::Break((match e->Break_0 { Some(v) => Some(v@), None => None }), (match e->Break_1 { Some(v) => Some(Box::new(v@)), None => None }), e->Break_2),
{
}

/// The view of `Expr::Continue`: the views of its fields.
pub proof fn lemma_expr_continue_view(e: Expr)
    requires
        e is Continue,
    ensures
        e@ == ExprView::Continue((match e->Continue_0 { Some(v) => Some(v@), None => None }), e->Continue_1),
{
}

/// The view of `Expr::Return`: the views of its fields.
pub proof fn lemma_expr_return_view(e: Expr)
    requires
        e is Return,
    ensures
        e@ == ExprView::Return((match e->Return_0 { Some(v) => Some(Box::new(v@)), None => None }), e->Return_1),
{
}

/// The view of `Expr::Try`: the views of its fields.
pub proof fn lemma_expr_try_view(e: Expr)
    requires
        e is Try,
    ensures
        e@ == ExprView::Try(Box::new(e->Try_0@), e->Try_1),
{
}

/// The view of `Expr::Catch`: the views of its fields.
pub proof fn lemma_expr_catch_view(e: Expr)
    requires
        e is Catch,
    ensures
        e@ == ExprView::Catch(Box::new(e->Catch_0@), (match e->Catch_1 { Some(v) => Some(v@), None => None }), Box::new(e->Catch_2@), e->Catch_3),
{
}

/// The view of `Expr::NullCoalesce`: the views of its fields.
pub proof fn lemma_expr_null_coalesce_view(e: Expr)
    requires
        e is NullCoalesce,
    ensures
        e@ == ExprView::NullCoalesce(Box::new(e->NullCoalesce_0@), Box::new(e->NullCoalesce_1@), e->NullCoalesce_2),
{
}

/// The view of `Expr::ForceUnwrap`: the views of its fields.
pub proof fn lemma_expr_force_unwrap_view(e: Expr)
    requires
        e is ForceUnwrap,
    ensures
        e@ == ExprView::ForceUnwrap(Box::new(e->ForceUnwrap_0@), e->ForceUnwrap_1),
{
}

/// The view of `Expr::Cast`: the views of its fields.
pub proof fn lemma_expr_cast_view(e: Expr)
    requires
        e is Cast,
    ensures
        e@ == ExprView::Cast(Box::new(e->Cast_0@), e->Cast_1@, e->Cast_2),
{
}

/// The view of `MatchArmBody::Expr`: the views of its fields.
pub proof fn lemma_match_arm_body_expr_view(e: MatchArmBody)
    requires
        e is Expr,
    ensures
        e@ == MatchArmBodyView::Expr(Box::new(e->Expr_0@)),
{
}

/// The view of `MatchArmBody::Block`: the views of its fields.
pub proof fn lemma_match_arm_body_block_view(e: MatchArmBody)
    requires
        e is Block,
    ensures
        e@ == MatchArmBodyView::Block(e->Block_0@),
{
}

/// The view of `Pattern::Wildcard`: the views of its fields.
pub proof fn lemma_pattern_wildcard_view(e: Pattern)
    requires
        e is Wildcard,
    ensures
        e@ == PatternView::Wildcard(e->Wildcard_0),
{
}

/// The view of `Pattern::Literal`: the views of its fields.
pub proof fn lemma_pattern_literal_view(e: Pattern)
    requires
        e is Literal,
    ensures
        e@ == PatternView::Literal(Box::new(e->Literal_0@), e->Literal_1),
{
}

/// The view of `Pattern::Range`: the views of its fields.
pub proof fn lemma_pattern_range_view(e: Pattern)
    requires
        e is Range,
    ensures
        e@ == PatternView::Range(Box::new(e->Range_0@), Box::new(e->Range_1@), e->Range_2),
{
}

/// The view of `Pattern::Variant`: the views of its fields.
pub proof fn lemma_pattern_variant_view(e: Pattern)
    requires
        e is Variant,
    ensures
        e@ == PatternView::Variant(e->Variant_0@, (match e->Variant_1 { Some(v) => Some(v@), None => None }), e->Variant_2),
{
}

/// The view of `Pattern::Else`: the views of its fields.
pub proof fn lemma_pattern_else_view(e: Pattern)
    requires
        e is Else,
    ensures
        e@ == PatternView::Else(e->Else_0),
{
}

} // verus!
