use aster::ast::{Ident, Path, PathSegment, Span, Ty, TyKind};
use aster::ident::ToIdent;
use aster::ty::TyBuilder;
use aster::AstBuilder;

fn id(name: &str) -> Ident {
    Ident { name: name.to_string() }
}

fn named_ty(name: &str, span: Span) -> Ty {
    Ty {
        node: TyKind::Path(Path {
            span,
            segments: vec![PathSegment { identifier: id(name), parameters: None, span }],
        }),
        span,
    }
}

#[test]
fn test_ty_id() {
    assert_eq!(TyBuilder::new().id("Foo"), named_ty("Foo", Span::dummy()));
    let at = Span { lo: 5, hi: 9 };
    assert_eq!(TyBuilder::new().span(at).id("Foo"), named_ty("Foo", at));
    assert_eq!(AstBuilder::new().span(at).ty().id("Foo"), named_ty("Foo", at));
}

#[test]
fn test_ty_primitives() {
    let at = Span::dummy();
    assert_eq!(TyBuilder::new().bool(), named_ty("bool", at));
    assert_eq!(TyBuilder::new().char(), named_ty("char", at));
    assert_eq!(TyBuilder::new().isize(), named_ty("isize", at));
    assert_eq!(TyBuilder::new().i8(), named_ty("i8", at));
    assert_eq!(TyBuilder::new().i16(), named_ty("i16", at));
    assert_eq!(TyBuilder::new().i32(), named_ty("i32", at));
    assert_eq!(TyBuilder::new().i64(), named_ty("i64", at));
    assert_eq!(TyBuilder::new().usize(), named_ty("usize", at));
    assert_eq!(TyBuilder::new().u8(), named_ty("u8", at));
    assert_eq!(TyBuilder::new().u16(), named_ty("u16", at));
    assert_eq!(TyBuilder::new().u32(), named_ty("u32", at));
    assert_eq!(TyBuilder::new().u64(), named_ty("u64", at));
}

#[test]
fn test_ty_infer_never_unit() {
    let at = Span { lo: 1, hi: 3 };
    assert_eq!(TyBuilder::new().span(at).infer(), Ty { node: TyKind::Infer, span: at });
    assert_eq!(TyBuilder::new().span(at).never(), Ty { node: TyKind::Never, span: at });
    assert_eq!(TyBuilder::new().span(at).unit(), Ty { node: TyKind::Tup(vec![]), span: at });
}

#[test]
fn test_ty_tuple_keeps_call_order() {
    let at = Span::dummy();
    let ty = TyBuilder::new()
        .tuple()
        .ty().u8()
        .with_ty(named_ty("raw", at))
        .ty().tuple().ty().bool().build()
        .ty().u8()
        .build();
    assert_eq!(
        ty,
        Ty {
            node: TyKind::Tup(vec![
                named_ty("u8", at),
                named_ty("raw", at),
                Ty { node: TyKind::Tup(vec![named_ty("bool", at)]), span: at },
                named_ty("u8", at),
            ]),
            span: at,
        }
    );
}

#[test]
fn test_ty_path_with_segments() {
    let at = Span { lo: 2, hi: 2 };
    let ty = TyBuilder::new().span(at).path().global().id("std").id("string").id("String").build();
    assert_eq!(
        ty,
        Ty {
            node: TyKind::Path(Path {
                span: at,
                segments: vec![
                    PathSegment::crate_root(),
                    PathSegment { identifier: id("std"), parameters: None, span: at },
                    PathSegment { identifier: id("string"), parameters: None, span: at },
                    PathSegment { identifier: id("String"), parameters: None, span: at },
                ],
            }),
            span: at,
        }
    );
}

#[test]
fn test_ty_raw_kind_path_and_node() {
    let at = Span { lo: 9, hi: 9 };
    assert_eq!(
        TyBuilder::new().span(at).build_ty_kind(TyKind::Tup(vec![named_ty("a", Span::dummy())])),
        Ty { node: TyKind::Tup(vec![named_ty("a", Span::dummy())]), span: at }
    );
    let path = Path { span: Span::dummy(), segments: vec![] };
    assert_eq!(
        TyBuilder::new().span(at).build_path(path),
        Ty { node: TyKind::Path(Path { span: Span::dummy(), segments: vec![] }), span: at }
    );
    assert_eq!(
        TyBuilder::new().span(at).build(named_ty("x", Span::dummy())),
        named_ty("x", Span::dummy())
    );
}

#[test]
fn test_to_ident() {
    assert_eq!("abc".to_ident(), id("abc"));
    assert_eq!(String::from("abc").to_ident(), id("abc"));
    assert_eq!(id("abc").to_ident(), id("abc"));
    assert_eq!((&id("abc")).to_ident(), id("abc"));
    assert_eq!((&"abc").to_ident(), id("abc"));
    assert_eq!(id("abc").clone(), id("abc"));
    assert_eq!(AstBuilder::new().id("abc"), id("abc"));
    assert_eq!("".to_ident(), id(""));
}

/// A name that is kept in upper case and lowered when it becomes an identifier.
struct Shouted(&'static str);

impl ToIdent for Shouted {
    fn to_ident(&self) -> Ident {
        Ident { name: self.0.to_lowercase() }
    }
}

#[test]
fn test_to_ident_of_a_custom_name() {
    assert_eq!(Shouted("ABC").to_ident(), id("abc"));
    assert_eq!(TyBuilder::new().id(Shouted("USIZE")), TyBuilder::new().usize());
    assert_eq!(TyBuilder::new().id(&Shouted("USIZE")), named_ty("usize", Span::dummy()));
}
