use lib::syntax::ast::{Expr, TypeExpr, Visibility};
use lib::syntax::token::Span;

#[test]
fn test_ast_nodes_can_be_constructed() {
    let span = Span::dummy();

    let vis = Visibility::Export;

    let slice_type = TypeExpr::Slice(Box::new(TypeExpr::Named("u8".to_string(), span)), span);

    let generic_type = TypeExpr::Generic(
        Box::new(TypeExpr::Named("List".to_string(), span)),
        vec![TypeExpr::Named("T".to_string(), span)],
        span,
    );

    let expr = Expr::Cast(
        Box::new(Expr::Int(42, None, span)),
        TypeExpr::Named("u64".to_string(), span),
        span,
    );

    assert_eq!(vis, Visibility::Export);
    assert!(matches!(slice_type, TypeExpr::Slice(_, _)));
    assert!(matches!(generic_type, TypeExpr::Generic(_, _, _)));
    assert!(matches!(expr, Expr::Cast(_, _, _)));
}
