//! Abstract syntax tree (AST) node definitions for Juyu, and their
//! mathematical views (strings as character sequences, vectors as sequences).

use vstd::prelude::*;
use crate::syntax::token::Span;

verus! {

#[derive(Debug, Clone, Copy, PartialEq, Eq, Structural)]
pub enum Visibility {
    Export,
    Private,
}

#[derive(Debug, Clone, Copy, PartialEq, Eq, Structural)]
pub enum StructKind {
    Normal,
    Extern,
    Packed,
}

#[derive(Debug, Clone, Copy, PartialEq, Eq, Structural)]
pub enum AssignOp {
    Assign,
    PlusAssign,
    MinusAssign,
    StarAssign,
    SlashAssign,
}

#[derive(Debug, Clone, Copy, PartialEq, Eq, Structural)]
pub enum BinaryOp {
    Add,
    Sub,
    Mul,
    Div,
    Mod,
    AddWrap,
    SubWrap,
    MulWrap,
    BitAnd,
    BitOr,
    BitXor,
    Shl,
    Shr,
    LogicalAnd,
    LogicalOr,
    Eq,
    NotEq,
    Lt,
    LtEq,
    Gt,
    GtEq,
}

#[derive(Debug, Clone, Copy, PartialEq, Eq, Structural)]
pub enum UnaryOp {
    Neg,
    Not,
    BitNot,
    AddressOf,
}

/// A parsed source file: its top-level items in order.
#[derive(Debug)]
pub struct SourceFile {
    pub items: Vec<Item>,
}

/// A top-level declaration.
#[derive(Debug)]
pub enum Item {
    Function(FunctionDecl),
    Struct(StructDecl),
    Interface(InterfaceDecl),
    Extend(ExtendDecl),
    TypeAlias(TypeAliasDecl),
    Test(TestDecl),
    Global(VarDecl),
    Import(ImportDecl),
    Enum(EnumDecl),
    Union(UnionDecl),
}

#[derive(Debug)]
pub struct EnumDecl {
    pub name: String,
    pub visibility: Visibility,
    pub backing_type: Option<TypeExpr>,
    pub variants: Vec<EnumVariant>,
    pub span: Span,
}

#[derive(Debug)]
pub struct EnumVariant {
    pub name: String,
    pub value: Option<Expr>,
    pub span: Span,
}

#[derive(Debug)]
pub struct UnionDecl {
    pub name: String,
    pub visibility: Visibility,
    pub is_tagged: bool,
    pub fields: Vec<UnionField>,
    pub span: Span,
}

#[derive(Debug)]
pub struct UnionField {
    pub name: String,
    pub ty: Option<TypeExpr>,
    pub span: Span,
}

#[derive(Debug)]
pub struct ImportDecl {
    pub path: String,
    pub alias: Option<String>,
    pub selective: Vec<String>,
    pub span: Span,
}

#[derive(Debug)]
pub struct FunctionDecl {
    pub name: String,
    pub visibility: Visibility,
    pub is_static: bool,
    pub is_inline: bool,
    pub is_const: bool,
    pub is_naked: bool,
    pub params: Vec<Param>,
    pub return_type: Option<TypeExpr>,
    pub body: Option<FunctionBody>,
    pub span: Span,
}

#[derive(Debug)]
pub enum FunctionBody {
    Block(Block),
    Expr(Box<Expr>),
}

#[derive(Debug)]
pub struct Param {
    pub name: String,
    pub label: Option<String>,
    pub ty: TypeExpr,
    pub default_val: Option<Expr>,
    pub span: Span,
}

#[derive(Debug)]
pub struct StructDecl {
    pub name: String,
    pub visibility: Visibility,
    pub kind: StructKind,
    pub fields: Vec<StructField>,
    pub methods: Vec<FunctionDecl>,
    pub span: Span,
}

#[derive(Debug)]
pub struct StructField {
    /// None for embedded anonymous composition
    pub name: Option<String>,
    pub ty: TypeExpr,
    pub default_val: Option<Expr>,
    pub span: Span,
}

#[derive(Debug)]
pub struct InterfaceDecl {
    pub name: String,
    pub visibility: Visibility,
    pub methods: Vec<InterfaceMethod>,
    pub span: Span,
}

#[derive(Debug)]
pub struct InterfaceMethod {
    pub name: String,
    pub params: Vec<Param>,
    pub return_type: Option<TypeExpr>,
    pub span: Span,
}

#[derive(Debug)]
pub struct ExtendDecl {
    pub target: String,
    pub methods: Vec<FunctionDecl>,
    pub span: Span,
}

#[derive(Debug)]
pub struct TypeAliasDecl {
    pub name: String,
    pub visibility: Visibility,
    pub is_distinct: bool,
    pub target: TypeExpr,
    pub span: Span,
}

#[derive(Debug)]
pub struct TestDecl {
    pub name: String,
    pub body: Block,
    pub span: Span,
}

#[derive(Debug)]
pub struct VarDecl {
    pub name: String,
    pub is_mut: bool,
    pub ty: Option<TypeExpr>,
    pub value: Expr,
    pub span: Span,
}

/// A type as written in source.
#[derive(Debug)]
pub enum TypeExpr {
    Named(String, Span),
    Pointer(Box<TypeExpr>, bool, Span),
    Optional(Box<TypeExpr>, Span),
    Slice(Box<TypeExpr>, Span),
    Generic(Box<TypeExpr>, Vec<TypeExpr>, Span),
    Array(Box<TypeExpr>, usize, Span),
    SentinelSlice(Box<TypeExpr>, u8, Span),
    ErrorUnion(Option<Box<TypeExpr>>, Box<TypeExpr>, Span),
    Tuple(Vec<TupleFieldType>, Span),
    DynInterface(Box<TypeExpr>, Span),
    Anytype(Span),
}

#[derive(Debug)]
pub struct TupleFieldType {
    pub label: Option<String>,
    pub ty: TypeExpr,
}

#[derive(Debug)]
pub struct Block {
    pub stmts: Vec<Stmt>,
    /// From '=> expr;'
    pub yield_expr: Option<Box<Expr>>,
    pub span: Span,
}

#[derive(Debug)]
pub enum Stmt {
    Let(VarDecl),
    Var(VarDecl),
    Defer(Expr, Span),
    Errdefer(Expr, Span),
    Assign(Expr, AssignOp, Expr, Span),
    Expr(Expr, Span),
}

/// An expression. A number literal with a fraction keeps its digits as text.
#[derive(Debug)]
pub enum Expr {
    Int(i128, Option<String>, Span),
    Float(String, Span),
    StringLit(String, Span),
    InterpolatedString(String, Span),
    BoolLit(bool, Span),
    Ident(String, Span),
    Null(Span),
    Undefined(Span),
    Unreachable(Span),
    Builtin(String, Vec<CallArg>, Span),
    Binary(Box<Expr>, BinaryOp, Box<Expr>, Span),
    Unary(UnaryOp, Box<Expr>, Span),
    Call(Box<Expr>, Vec<CallArg>, Span),
    MethodCall(Box<Expr>, String, Vec<CallArg>, Span),
    MemberAccess(Box<Expr>, String, Span),
    OptionalChaining(Box<Expr>, String, Span),
    Deref(Box<Expr>, Span),
    Index(Box<Expr>, Box<Expr>, Span),
    Slice(Box<Expr>, Box<Expr>, Box<Expr>, Span),
    StructInit(TypeExpr, Vec<FieldInit>, Span),
    Tuple(Vec<Expr>, Span),
    Block(Block),
    If(Box<Expr>, Block, Option<Block>, Span),
    IfLet(String, Box<Expr>, Block, Option<Block>, Span),
    Match(Box<Expr>, Vec<MatchArm>, Span),
    Loop(Option<String>, Block, Span),
    While(Option<String>, Box<Expr>, Block, Span),
    ForC(Option<String>, Box<Stmt>, Box<Expr>, Box<Expr>, Block, Span),
    ForIn(Option<String>, String, Box<Expr>, Block, Span),
    Break(Option<String>, Option<Box<Expr>>, Span),
    Continue(Option<String>, Span),
    Return(Option<Box<Expr>>, Span),
    Try(Box<Expr>, Span),
    Catch(Box<Expr>, Option<String>, Box<Expr>, Span),
    NullCoalesce(Box<Expr>, Box<Expr>, Span),
    ForceUnwrap(Box<Expr>, Span),
    Cast(Box<Expr>, TypeExpr, Span),
}

#[derive(Debug)]
pub struct CallArg {
    pub label: Option<String>,
    pub value: Expr,
    pub span: Span,
}

#[derive(Debug)]
pub struct FieldInit {
    pub name: String,
    pub value: Expr,
    pub span: Span,
}

#[derive(Debug)]
pub struct MatchArm {
    pub pattern: Pattern,
    pub body: MatchArmBody,
    pub span: Span,
}

#[derive(Debug)]
pub enum MatchArmBody {
    Expr(Box<Expr>),
    Block(Block),
}

#[derive(Debug)]
pub enum Pattern {
    Wildcard(Span),
    Literal(Box<Expr>, Span),
    Range(Box<Expr>, Box<Expr>, Span),
    Variant(String, Option<String>, Span),
    Else(Span),
}

/// The view of a `SourceFile`.
pub struct SourceFileView {
    pub items: Seq<ItemView>,
}

/// The view of a `Item`.
pub enum ItemView {
    Function(FunctionDeclView),
    Struct(StructDeclView),
    Interface(InterfaceDeclView),
    Extend(ExtendDeclView),
    TypeAlias(TypeAliasDeclView),
    Test(TestDeclView),
    Global(VarDeclView),
    Import(ImportDeclView),
    Enum(EnumDeclView),
    Union(UnionDeclView),
}

/// The view of a `EnumDecl`.
pub struct EnumDeclView {
    pub name: Seq<char>,
    pub visibility: Visibility,
    pub backing_type: Option<TypeExprView>,
    pub variants: Seq<EnumVariantView>,
    pub span: Span,
}

/// The view of a `EnumVariant`.
pub struct EnumVariantView {
    pub name: Seq<char>,
    pub value: Option<ExprView>,
    pub span: Span,
}

/// The view of a `UnionDecl`.
pub struct UnionDeclView {
    pub name: Seq<char>,
    pub visibility: Visibility,
    pub is_tagged: bool,
    pub fields: Seq<UnionFieldView>,
    pub span: Span,
}

/// The view of a `UnionField`.
pub struct UnionFieldView {
    pub name: Seq<char>,
    pub ty: Option<TypeExprView>,
    pub span: Span,
}

/// The view of a `ImportDecl`.
pub struct ImportDeclView {
    pub path: Seq<char>,
    pub alias: Option<Seq<char>>,
    pub selective: Seq<Seq<char>>,
    pub span: Span,
}

/// The view of a `FunctionDecl`.
pub struct FunctionDeclView {
    pub name: Seq<char>,
    pub visibility: Visibility,
    pub is_static: bool,
    pub is_inline: bool,
    pub is_const: bool,
    pub is_naked: bool,
    pub params: Seq<ParamView>,
    pub return_type: Option<TypeExprView>,
    pub body: Option<FunctionBodyView>,
    pub span: Span,
}

/// The view of a `FunctionBody`.
pub enum FunctionBodyView {
    Block(BlockView),
    Expr(Box<ExprView>),
}

/// The view of a `Param`.
pub struct ParamView {
    pub name: Seq<char>,
    pub label: Option<Seq<char>>,
    pub ty: TypeExprView,
    pub default_val: Option<ExprView>,
    pub span: Span,
}

/// The view of a `StructDecl`.
pub struct StructDeclView {
    pub name: Seq<char>,
    pub visibility: Visibility,
    pub kind: StructKind,
    pub fields: Seq<StructFieldView>,
    pub methods: Seq<FunctionDeclView>,
    pub span: Span,
}

/// The view of a `StructField`.
pub struct StructFieldView {
    pub name: Option<Seq<char>>,
    pub ty: TypeExprView,
    pub default_val: Option<ExprView>,
    pub span: Span,
}

/// The view of a `InterfaceDecl`.
pub struct InterfaceDeclView {
    pub name: Seq<char>,
    pub visibility: Visibility,
    pub methods: Seq<InterfaceMethodView>,
    pub span: Span,
}

/// The view of a `InterfaceMethod`.
pub struct InterfaceMethodView {
    pub name: Seq<char>,
    pub params: Seq<ParamView>,
    pub return_type: Option<TypeExprView>,
    pub span: Span,
}

/// The view of a `ExtendDecl`.
pub struct ExtendDeclView {
    pub target: Seq<char>,
    pub methods: Seq<FunctionDeclView>,
    pub span: Span,
}

/// The view of a `TypeAliasDecl`.
pub struct TypeAliasDeclView {
    pub name: Seq<char>,
    pub visibility: Visibility,
    pub is_distinct: bool,
    pub target: TypeExprView,
    pub span: Span,
}

/// The view of a `TestDecl`.
pub struct TestDeclView {
    pub name: Seq<char>,
    pub body: BlockView,
    pub span: Span,
}

/// The view of a `VarDecl`.
pub struct VarDeclView {
    pub name: Seq<char>,
    pub is_mut: bool,
    pub ty: Option<TypeExprView>,
    pub value: ExprView,
    pub span: Span,
}

/// The view of a `TypeExpr`.
pub enum TypeExprView {
    Named(Seq<char>, Span),
    Pointer(Box<TypeExprView>, bool, Span),
    Optional(Box<TypeExprView>, Span),
    Slice(Box<TypeExprView>, Span),
    Generic(Box<TypeExprView>, Seq<TypeExprView>, Span),
    Array(Box<TypeExprView>, usize, Span),
    SentinelSlice(Box<TypeExprView>, u8, Span),
    ErrorUnion(Option<Box<TypeExprView>>, Box<TypeExprView>, Span),
    Tuple(Seq<TupleFieldTypeView>, Span),
    DynInterface(Box<TypeExprView>, Span),
    Anytype(Span),
}

/// The view of a `TupleFieldType`.
pub struct TupleFieldTypeView {
    pub label: Option<Seq<char>>,
    pub ty: TypeExprView,
}

/// The view of a `Block`.
pub struct BlockView {
    pub stmts: Seq<StmtView>,
    pub yield_expr: Option<Box<ExprView>>,
    pub span: Span,
}

/// The view of a `Stmt`.
pub enum StmtView {
    Let(VarDeclView),
    Var(VarDeclView),
    Defer(ExprView, Span),
    Errdefer(ExprView, Span),
    Assign(ExprView, AssignOp, ExprView, Span),
    Expr(ExprView, Span),
}

/// The view of a `Expr`.
pub enum ExprView {
    Int(i128, Option<Seq<char>>, Span),
    Float(Seq<char>, Span),
    StringLit(Seq<char>, Span),
    InterpolatedString(Seq<char>, Span),
    BoolLit(bool, Span),
    Ident(Seq<char>, Span),
    Null(Span),
    Undefined(Span),
    Unreachable(Span),
    Builtin(Seq<char>, Seq<CallArgView>, Span),
    Binary(Box<ExprView>, BinaryOp, Box<ExprView>, Span),
    Unary(UnaryOp, Box<ExprView>, Span),
    Call(Box<ExprView>, Seq<CallArgView>, Span),
    MethodCall(Box<ExprView>, Seq<char>, Seq<CallArgView>, Span),
    MemberAccess(Box<ExprView>, Seq<char>, Span),
    OptionalChaining(Box<ExprView>, Seq<char>, Span),
    Deref(Box<ExprView>, Span),
    Index(Box<ExprView>, Box<ExprView>, Span),
    Slice(Box<ExprView>, Box<ExprView>, Box<ExprView>, Span),
    StructInit(TypeExprView, Seq<FieldInitView>, Span),
    Tuple(Seq<ExprView>, Span),
    Block(BlockView),
    If(Box<ExprView>, BlockView, Option<BlockView>, Span),
    IfLet(Seq<char>, Box<ExprView>, BlockView, Option<BlockView>, Span),
    Match(Box<ExprView>, Seq<MatchArmView>, Span),
    Loop(Option<Seq<char>>, BlockView, Span),
    While(Option<Seq<char>>, Box<ExprView>, BlockView, Span),
    ForC(Option<Seq<char>>, Box<StmtView>, Box<ExprView>, Box<ExprView>, BlockView, Span),
    ForIn(Option<Seq<char>>, Seq<char>, Box<ExprView>, BlockView, Span),
    Break(Option<Seq<char>>, Option<Box<ExprView>>, Span),
    Continue(Option<Seq<char>>, Span),
    Return(Option<Box<ExprView>>, Span),
    Try(Box<ExprView>, Span),
    Catch(Box<ExprView>, Option<Seq<char>>, Box<ExprView>, Span),
    NullCoalesce(Box<ExprView>, Box<ExprView>, Span),
    ForceUnwrap(Box<ExprView>, Span),
    Cast(Box<ExprView>, TypeExprView, Span),
}

/// The view of a `CallArg`.
pub struct CallArgView {
    pub label: Option<Seq<char>>,
    pub value: ExprView,
    pub span: Span,
}

/// The view of a `FieldInit`.
pub struct FieldInitView {
    pub name: Seq<char>,
    pub value: ExprView,
    pub span: Span,
}

/// The view of a `MatchArm`.
pub struct MatchArmView {
    pub pattern: PatternView,
    pub body: MatchArmBodyView,
    pub span: Span,
}

/// The view of a `MatchArmBody`.
pub enum MatchArmBodyView {
    Expr(Box<ExprView>),
    Block(BlockView),
}

/// The view of a `Pattern`.
pub enum PatternView {
    Wildcard(Span),
    Literal(Box<ExprView>, Span),
    Range(Box<ExprView>, Box<ExprView>, Span),
    Variant(Seq<char>, Option<Seq<char>>, Span),
    Else(Span),
}

/// The view of a `SourceFile`.
pub open spec fn view_source_file(x: SourceFile) -> SourceFileView
    decreases x,
{
    SourceFileView { items: x.items@.map(|i1: int, x1: Item| if 0 <= i1 < x.items@.len() && x1 == x.items@[i1] { view_item(x1) } else { arbitrary() }) }
}

impl View for SourceFile {
    type V = SourceFileView;

    open spec fn view(&self) -> SourceFileView {
        view_source_file(*self)
    }
}

/// The view of a `Item`.
pub open spec fn view_item(x: Item) -> ItemView
    decreases x,
{
    match x {
        Item::Function(a0) => ItemView::Function(view_function_decl(a0)),
        Item::Struct(a0) => ItemView::Struct(view_struct_decl(a0)),
        Item::Interface(a0) => ItemView::Interface(view_interface_decl(a0)),
        Item::Extend(a0) => ItemView::Extend(view_extend_decl(a0)),
        Item::TypeAlias(a0) => ItemView::TypeAlias(view_type_alias_decl(a0)),
        Item::Test(a0) => ItemView::Test(view_test_decl(a0)),
        Item::Global(a0) => ItemView::Global(view_var_decl(a0)),
        Item::Import(a0) => ItemView::Import(view_import_decl(a0)),
        Item::Enum(a0) => ItemView::Enum(view_enum_decl(a0)),
        Item::Union(a0) => ItemView::Union(view_union_decl(a0)),
    }
}

impl View for Item {
    type V = ItemView;

    open spec fn view(&self) -> ItemView {
        view_item(*self)
    }
}

/// The view of a `EnumDecl`.
pub open spec fn view_enum_decl(x: EnumDecl) -> EnumDeclView
    decreases x,
{
    EnumDeclView { name: x.name@, visibility: x.visibility, backing_type: match x.backing_type { Some(o2) => Some(view_type_expr(o2)), None => None }, variants: x.variants@.map(|i3: int, x3: EnumVariant| if 0 <= i3 < x.variants@.len() && x3 == x.variants@[i3] { view_enum_variant(x3) } else { arbitrary() }), span: x.span }
}

impl View for EnumDecl {
    type V = EnumDeclView;

    open spec fn view(&self) -> EnumDeclView {
        view_enum_decl(*self)
    }
}

/// The view of a `EnumVariant`.
pub open spec fn view_enum_variant(x: EnumVariant) -> EnumVariantView
    decreases x,
{
    EnumVariantView { name: x.name@, value: match x.value { Some(o4) => Some(view_expr(o4)), None => None }, span: x.span }
}

impl View for EnumVariant {
    type V = EnumVariantView;

    open spec fn view(&self) -> EnumVariantView {
        view_enum_variant(*self)
    }
}

/// The view of a `UnionDecl`.
pub open spec fn view_union_decl(x: UnionDecl) -> UnionDeclView
    decreases x,
{
    UnionDeclView { name: x.name@, visibility: x.visibility, is_tagged: x.is_tagged, fields: x.fields@.map(|i5: int, x5: UnionField| if 0 <= i5 < x.fields@.len() && x5 == x.fields@[i5] { view_union_field(x5) } else { arbitrary() }), span: x.span }
}

impl View for UnionDecl {
    type V = UnionDeclView;

    open spec fn view(&self) -> UnionDeclView {
        view_union_decl(*self)
    }
}

/// The view of a `UnionField`.
pub open spec fn view_union_field(x: UnionField) -> UnionFieldView
    decreases x,
{
    UnionFieldView { name: x.name@, ty: match x.ty { Some(o6) => Some(view_type_expr(o6)), None => None }, span: x.span }
}

impl View for UnionField {
    type V = UnionFieldView;

    open spec fn view(&self) -> UnionFieldView {
        view_union_field(*self)
    }
}

/// The view of a `ImportDecl`.
pub open spec fn view_import_decl(x: ImportDecl) -> ImportDeclView
    decreases x,
{
    ImportDeclView { path: x.path@, alias: match x.alias { Some(o7) => Some(o7@), None => None }, selective: x.selective@.map(|i8: int, x8: String| if 0 <= i8 < x.selective@.len() && x8 == x.selective@[i8] { x8@ } else { arbitrary() }), span: x.span }
}

impl View for ImportDecl {
    type V = ImportDeclView;

    open spec fn view(&self) -> ImportDeclView {
        view_import_decl(*self)
    }
}

/// The view of a `FunctionDecl`.
pub open spec fn view_function_decl(x: FunctionDecl) -> FunctionDeclView
    decreases x,
{
    FunctionDeclView { name: x.name@, visibility: x.visibility, is_static: x.is_static, is_inline: x.is_inline, is_const: x.is_const, is_naked: x.is_naked, params: x.params@.map(|i9: int, x9: Param| if 0 <= i9 < x.params@.len() && x9 == x.params@[i9] { view_param(x9) } else { arbitrary() }), return_type: match x.return_type { Some(o10) => Some(view_type_expr(o10)), None => None }, body: match x.body { Some(o11) => Some(view_function_body(o11)), None => None }, span: x.span }
}

impl View for FunctionDecl {
    type V = FunctionDeclView;

    open spec fn view(&self) -> FunctionDeclView {
        view_function_decl(*self)
    }
}

/// The view of a `FunctionBody`.
pub open spec fn view_function_body(x: FunctionBody) -> FunctionBodyView
    decreases x,
{
    match x {
        FunctionBody::Block(a0) => FunctionBodyView::Block(view_block(a0)),
        FunctionBody::Expr(a0) => FunctionBodyView::Expr(Box::new(view_expr(*a0))),
    }
}

impl View for FunctionBody {
    type V = FunctionBodyView;

    open spec fn view(&self) -> FunctionBodyView {
        view_function_body(*self)
    }
}

/// The view of a `Param`.
pub open spec fn view_param(x: Param) -> ParamView
    decreases x,
{
    ParamView { name: x.name@, label: match x.label { Some(o12) => Some(o12@), None => None }, ty: view_type_expr(x.ty), default_val: match x.default_val { Some(o13) => Some(view_expr(o13)), None => None }, span: x.span }
}

impl View for Param {
    type V = ParamView;

    open spec fn view(&self) -> ParamView {
        view_param(*self)
    }
}

/// The view of a `StructDecl`.
pub open spec fn view_struct_decl(x: StructDecl) -> StructDeclView
    decreases x,
{
    StructDeclView { name: x.name@, visibility: x.visibility, kind: x.kind, fields: x.fields@.map(|i14: int, x14: StructField| if 0 <= i14 < x.fields@.len() && x14 == x.fields@[i14] { view_struct_field(x14) } else { arbitrary() }), methods: x.methods@.map(|i15: int, x15: FunctionDecl| if 0 <= i15 < x.methods@.len() && x15 == x.methods@[i15] { view_function_decl(x15) } else { arbitrary() }), span: x.span }
}

impl View for StructDecl {
    type V = StructDeclView;

    open spec fn view(&self) -> StructDeclView {
        view_struct_decl(*self)
    }
}

/// The view of a `StructField`.
pub open spec fn view_struct_field(x: StructField) -> StructFieldView
    decreases x,
{
    StructFieldView { name: match x.name { Some(o16) => Some(o16@), None => None }, ty: view_type_expr(x.ty), default_val: match x.default_val { Some(o17) => Some(view_expr(o17)), None => None }, span: x.span }
}

impl View for StructField {
    type V = StructFieldView;

    open spec fn view(&self) -> StructFieldView {
        view_struct_field(*self)
    }
}

/// The view of a `InterfaceDecl`.
pub open spec fn view_interface_decl(x: InterfaceDecl) -> InterfaceDeclView
    decreases x,
{
    InterfaceDeclView { name: x.name@, visibility: x.visibility, methods: x.methods@.map(|i18: int, x18: InterfaceMethod| if 0 <= i18 < x.methods@.len() && x18 == x.methods@[i18] { view_interface_method(x18) } else { arbitrary() }), span: x.span }
}

impl View for InterfaceDecl {
    type V = InterfaceDeclView;

    open spec fn view(&self) -> InterfaceDeclView {
        view_interface_decl(*self)
    }
}

/// The view of a `InterfaceMethod`.
pub open spec fn view_interface_method(x: InterfaceMethod) -> InterfaceMethodView
    decreases x,
{
    InterfaceMethodView { name: x.name@, params: x.params@.map(|i19: int, x19: Param| if 0 <= i19 < x.params@.len() && x19 == x.params@[i19] { view_param(x19) } else { arbitrary() }), return_type: match x.return_type { Some(o20) => Some(view_type_expr(o20)), None => None }, span: x.span }
}

impl View for InterfaceMethod {
    type V = InterfaceMethodView;

    open spec fn view(&self) -> InterfaceMethodView {
        view_interface_method(*self)
    }
}

/// The view of a `ExtendDecl`.
pub open spec fn view_extend_decl(x: ExtendDecl) -> ExtendDeclView
    decreases x,
{
    ExtendDeclView { target: x.target@, methods: x.methods@.map(|i21: int, x21: FunctionDecl| if 0 <= i21 < x.methods@.len() && x21 == x.methods@[i21] { view_function_decl(x21) } else { arbitrary() }), span: x.span }
}

impl View for ExtendDecl {
    type V = ExtendDeclView;

    open spec fn view(&self) -> ExtendDeclView {
        view_extend_decl(*self)
    }
}

/// The view of a `TypeAliasDecl`.
pub open spec fn view_type_alias_decl(x: TypeAliasDecl) -> TypeAliasDeclView
    decreases x,
{
    TypeAliasDeclView { name: x.name@, visibility: x.visibility, is_distinct: x.is_distinct, target: view_type_expr(x.target), span: x.span }
}

impl View for TypeAliasDecl {
    type V = TypeAliasDeclView;

    open spec fn view(&self) -> TypeAliasDeclView {
        view_type_alias_decl(*self)
    }
}

/// The view of a `TestDecl`.
pub open spec fn view_test_decl(x: TestDecl) -> TestDeclView
    decreases x,
{
    TestDeclView { name: x.name@, body: view_block(x.body), span: x.span }
}

impl View for TestDecl {
    type V = TestDeclView;

    open spec fn view(&self) -> TestDeclView {
        view_test_decl(*self)
    }
}

/// The view of a `VarDecl`.
pub open spec fn view_var_decl(x: VarDecl) -> VarDeclView
    decreases x,
{
    VarDeclView { name: x.name@, is_mut: x.is_mut, ty: match x.ty { Some(o22) => Some(view_type_expr(o22)), None => None }, value: view_expr(x.value), span: x.span }
}

impl View for VarDecl {
    type V = VarDeclView;

    open spec fn view(&self) -> VarDeclView {
        view_var_decl(*self)
    }
}

/// The view of a `TypeExpr`.
pub open spec fn view_type_expr(x: TypeExpr) -> TypeExprView
    decreases x,
{
    match x {
        TypeExpr::Named(a0, a1) => TypeExprView::Named(a0@, a1),
        TypeExpr::Pointer(a0, a1, a2) => TypeExprView::Pointer(Box::new(view_type_expr(*a0)), a1, a2),
        TypeExpr::Optional(a0, a1) => TypeExprView::Optional(Box::new(view_type_expr(*a0)), a1),
        TypeExpr::Slice(a0, a1) => TypeExprView::Slice(Box::new(view_type_expr(*a0)), a1),
        TypeExpr::Generic(a0, a1, a2) => TypeExprView::Generic(Box::new(view_type_expr(*a0)), a1@.map(|i23: int, x23: TypeExpr| if 0 <= i23 < a1@.len() && x23 == a1@[i23] { view_type_expr(x23) } else { arbitrary() }), a2),
        TypeExpr::Array(a0, a1, a2) => TypeExprView::Array(Box::new(view_type_expr(*a0)), a1, a2),
        TypeExpr::SentinelSlice(a0, a1, a2) => TypeExprView::SentinelSlice(Box::new(view_type_expr(*a0)), a1, a2),
        TypeExpr::ErrorUnion(a0, a1, a2) => TypeExprView::ErrorUnion(match a0 { Some(o24) => Some(Box::new(view_type_expr(*o24))), None => None }, Box::new(view_type_expr(*a1)), a2),
        TypeExpr::Tuple(a0, a1) => TypeExprView::Tuple(a0@.map(|i25: int, x25: TupleFieldType| if 0 <= i25 < a0@.len() && x25 == a0@[i25] { view_tuple_field_type(x25) } else { arbitrary() }), a1),
        TypeExpr::DynInterface(a0, a1) => TypeExprView::DynInterface(Box::new(view_type_expr(*a0)), a1),
        TypeExpr::Anytype(a0) => TypeExprView::Anytype(a0),
    }
}

impl View for TypeExpr {
    type V = TypeExprView;

    open spec fn view(&self) -> TypeExprView {
        view_type_expr(*self)
    }
}

/// The view of a `TupleFieldType`.
pub open spec fn view_tuple_field_type(x: TupleFieldType) -> TupleFieldTypeView
    decreases x,
{
    TupleFieldTypeView { label: match x.label { Some(o26) => Some(o26@), None => None }, ty: view_type_expr(x.ty) }
}

impl View for TupleFieldType {
    type V = TupleFieldTypeView;

    open spec fn view(&self) -> TupleFieldTypeView {
        view_tuple_field_type(*self)
    }
}

/// The view of a `Block`.
pub open spec fn view_block(x: Block) -> BlockView
    decreases x,
{
    BlockView { stmts: x.stmts@.map(|i27: int, x27: Stmt| if 0 <= i27 < x.stmts@.len() && x27 == x.stmts@[i27] { view_stmt(x27) } else { arbitrary() }), yield_expr: match x.yield_expr { Some(o28) => Some(Box::new(view_expr(*o28))), None => None }, span: x.span }
}

impl View for Block {
    type V = BlockView;

    open spec fn view(&self) -> BlockView {
        view_block(*self)
    }
}

/// The view of a `Stmt`.
pub open spec fn view_stmt(x: Stmt) -> StmtView
    decreases x,
{
    match x {
        Stmt::Let(a0) => StmtView::Let(view_var_decl(a0)),
        Stmt::Var(a0) => StmtView::Var(view_var_decl(a0)),
        Stmt::Defer(a0, a1) => StmtView::Defer(view_expr(a0), a1),
        Stmt::Errdefer(a0, a1) => StmtView::Errdefer(view_expr(a0), a1),
        Stmt::Assign(a0, a1, a2, a3) => StmtView::Assign(view_expr(a0), a1, view_expr(a2), a3),
        Stmt::Expr(a0, a1) => StmtView::Expr(view_expr(a0), a1),
    }
}

impl View for Stmt {
    type V = StmtView;

    open spec fn view(&self) -> StmtView {
        view_stmt(*self)
    }
}

/// The view of a `Expr`.
pub open spec fn view_expr(x: Expr) -> ExprView
    decreases x,
{
    match x {
        Expr::Int(a0, a1, a2) => ExprView::Int(a0, match a1 { Some(o29) => Some(o29@), None => None }, a2),
        Expr::Float(a0, a1) => ExprView::Float(a0@, a1),
        Expr::StringLit(a0, a1) => ExprView::StringLit(a0@, a1),
        Expr::InterpolatedString(a0, a1) => ExprView::InterpolatedString(a0@, a1),
        Expr::BoolLit(a0, a1) => ExprView::BoolLit(a0, a1),
        Expr::Ident(a0, a1) => ExprView::Ident(a0@, a1),
        Expr::Null(a0) => ExprView::Null(a0),
        Expr::Undefined(a0) => ExprView::Undefined(a0),
        Expr::Unreachable(a0) => ExprView::Unreachable(a0),
        Expr::Builtin(a0, a1, a2) => ExprView::Builtin(a0@, a1@.map(|i30: int, x30: CallArg| if 0 <= i30 < a1@.len() && x30 == a1@[i30] { view_call_arg(x30) } else { arbitrary() }), a2),
        Expr::Binary(a0, a1, a2, a3) => ExprView::Binary(Box::new(view_expr(*a0)), a1, Box::new(view_expr(*a2)), a3),
        Expr::Unary(a0, a1, a2) => ExprView::Unary(a0, Box::new(view_expr(*a1)), a2),
        Expr::Call(a0, a1, a2) => ExprView::Call(Box::new(view_expr(*a0)), a1@.map(|i31: int, x31: CallArg| if 0 <= i31 < a1@.len() && x31 == a1@[i31] { view_call_arg(x31) } else { arbitrary() }), a2),
        Expr::MethodCall(a0, a1, a2, a3) => ExprView::MethodCall(Box::new(view_expr(*a0)), a1@, a2@.map(|i32: int, x32: CallArg| if 0 <= i32 < a2@.len() && x32 == a2@[i32] { view_call_arg(x32) } else { arbitrary() }), a3),
        Expr::MemberAccess(a0, a1, a2) => ExprView::MemberAccess(Box::new(view_expr(*a0)), a1@, a2),
        Expr::OptionalChaining(a0, a1, a2) => ExprView::OptionalChaining(Box::new(view_expr(*a0)), a1@, a2),
        Expr::Deref(a0, a1) => ExprView::Deref(Box::new(view_expr(*a0)), a1),
        Expr::Index(a0, a1, a2) => ExprView::Index(Box::new(view_expr(*a0)), Box::new(view_expr(*a1)), a2),
        Expr::Slice(a0, a1, a2, a3) => ExprView::Slice(Box::new(view_expr(*a0)), Box::new(view_expr(*a1)), Box::new(view_expr(*a2)), a3),
        Expr::StructInit(a0, a1, a2) => ExprView::StructInit(view_type_expr(a0), a1@.map(|i33: int, x33: FieldInit| if 0 <= i33 < a1@.len() && x33 == a1@[i33] { view_field_init(x33) } else { arbitrary() }), a2),
        Expr::Tuple(a0, a1) => ExprView::Tuple(a0@.map(|i34: int, x34: Expr| if 0 <= i34 < a0@.len() && x34 == a0@[i34] { view_expr(x34) } else { arbitrary() }), a1),
        Expr::Block(a0) => ExprView::Block(view_block(a0)),
        Expr::If(a0, a1, a2, a3) => ExprView::If(Box::new(view_expr(*a0)), view_block(a1), match a2 { Some(o35) => Some(view_block(o35)), None => None }, a3),
        Expr::IfLet(a0, a1, a2, a3, a4) => ExprView::IfLet(a0@, Box::new(view_expr(*a1)), view_block(a2), match a3 { Some(o36) => Some(view_block(o36)), None => None }, a4),
        Expr::Match(a0, a1, a2) => ExprView::Match(Box::new(view_expr(*a0)), a1@.map(|i37: int, x37: MatchArm| if 0 <= i37 < a1@.len() && x37 == a1@[i37] { view_match_arm(x37) } else { arbitrary() }), a2),
        Expr::Loop(a0, a1, a2) => ExprView::Loop(match a0 { Some(o38) => Some(o38@), None => None }, view_block(a1), a2),
        Expr::While(a0, a1, a2, a3) => ExprView::While(match a0 { Some(o39) => Some(o39@), None => None }, Box::new(view_expr(*a1)), view_block(a2), a3),
        Expr::ForC(a0, a1, a2, a3, a4, a5) => ExprView::ForC(match a0 { Some(o40) => Some(o40@), None => None }, Box::new(view_stmt(*a1)), Box::new(view_expr(*a2)), Box::new(view_expr(*a3)), view_block(a4), a5),
        Expr::ForIn(a0, a1, a2, a3, a4) => ExprView::ForIn(match a0 { Some(o41) => Some(o41@), None => None }, a1@, Box::new(view_expr(*a2)), view_block(a3), a4),
        Expr::Break(a0, a1, a2) => ExprView::Break(match a0 { Some(o42) => Some(o42@), None => None }, match a1 { Some(o43) => Some(Box::new(view_expr(*o43))), None => None }, a2),
        Expr::Continue(a0, a1) => ExprView::Continue(match a0 { Some(o44) => Some(o44@), None => None }, a1),
        Expr::Return(a0, a1) => ExprView::Return(match a0 { Some(o45) => Some(Box::new(view_expr(*o45))), None => None }, a1),
        Expr::Try(a0, a1) => ExprView::Try(Box::new(view_expr(*a0)), a1),
        Expr::Catch(a0, a1, a2, a3) => ExprView::Catch(Box::new(view_expr(*a0)), match a1 { Some(o46) => Some(o46@), None => None }, Box::new(view_expr(*a2)), a3),
        Expr::NullCoalesce(a0, a1, a2) => ExprView::NullCoalesce(Box::new(view_expr(*a0)), Box::new(view_expr(*a1)), a2),
        Expr::ForceUnwrap(a0, a1) => ExprView::ForceUnwrap(Box::new(view_expr(*a0)), a1),
        Expr::Cast(a0, a1, a2) => ExprView::Cast(Box::new(view_expr(*a0)), view_type_expr(a1), a2),
    }
}

impl View for Expr {
    type V = ExprView;

    open spec fn view(&self) -> ExprView {
        view_expr(*self)
    }
}

/// The view of a `CallArg`.
pub open spec fn view_call_arg(x: CallArg) -> CallArgView
    decreases x,
{
    CallArgView { label: match x.label { Some(o47) => Some(o47@), None => None }, value: view_expr(x.value), span: x.span }
}

impl View for CallArg {
    type V = CallArgView;

    open spec fn view(&self) -> CallArgView {
        view_call_arg(*self)
    }
}

/// The view of a `FieldInit`.
pub open spec fn view_field_init(x: FieldInit) -> FieldInitView
    decreases x,
{
    FieldInitView { name: x.name@, value: view_expr(x.value), span: x.span }
}

impl View for FieldInit {
    type V = FieldInitView;

    open spec fn view(&self) -> FieldInitView {
        view_field_init(*self)
    }
}

/// The view of a `MatchArm`.
pub open spec fn view_match_arm(x: MatchArm) -> MatchArmView
    decreases x,
{
    MatchArmView { pattern: view_pattern(x.pattern), body: view_match_arm_body(x.body), span: x.span }
}

impl View for MatchArm {
    type V = MatchArmView;

    open spec fn view(&self) -> MatchArmView {
        view_match_arm(*self)
    }
}

/// The view of a `MatchArmBody`.
pub open spec fn view_match_arm_body(x: MatchArmBody) -> MatchArmBodyView
    decreases x,
{
    match x {
        MatchArmBody::Expr(a0) => MatchArmBodyView::Expr(Box::new(view_expr(*a0))),
        MatchArmBody::Block(a0) => MatchArmBodyView::Block(view_block(a0)),
    }
}

impl View for MatchArmBody {
    type V = MatchArmBodyView;

    open spec fn view(&self) -> MatchArmBodyView {
        view_match_arm_body(*self)
    }
}

/// The view of a `Pattern`.
pub open spec fn view_pattern(x: Pattern) -> PatternView
    decreases x,
{
    match x {
        Pattern::Wildcard(a0) => PatternView::Wildcard(a0),
        Pattern::Literal(a0, a1) => PatternView::Literal(Box::new(view_expr(*a0)), a1),
        Pattern::Range(a0, a1, a2) => PatternView::Range(Box::new(view_expr(*a0)), Box::new(view_expr(*a1)), a2),
        Pattern::Variant(a0, a1, a2) => PatternView::Variant(a0@, match a1 { Some(o48) => Some(o48@), None => None }, a2),
        Pattern::Else(a0) => PatternView::Else(a0),
    }
}

impl View for Pattern {
    type V = PatternView;

    open spec fn view(&self) -> PatternView {
        view_pattern(*self)
    }
}

} // verus!
