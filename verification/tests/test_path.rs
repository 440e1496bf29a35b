use aster::ast::{
    AngleBracketedParameterData, Ident, Lifetime, ParenthesizedParameterData, Path,
    PathParameters, PathSegment, Span, Ty, TyKind, TypeBinding,
};
use aster::path::{PathBuilder, PathError, PathSegmentBuilder};
use aster::AstBuilder;

#[test]
fn test_id() {
    let builder = AstBuilder::new();
    let path = builder.path().id("isize").build();

    assert_eq!(
        path,
        Path {
            span: Span::dummy(),
            segments: vec![
                PathSegment {
                    identifier: builder.id("isize"),
                    parameters: None,
                    span: Span::dummy(),
                },
            ]
        }
    );
}

#[test]
fn test_single_segment() {
    let builder = AstBuilder::new();
    let path = builder.path()
        .segment("isize").build()
        .build();

    assert_eq!(
        path,
        Path {
            span: Span::dummy(),
            segments: vec![
                PathSegment {
                    identifier: builder.id("isize"),
                    parameters: None,
                    span: Span::dummy(),
                },
            ]
        }
    );
}

#[test]
fn test_multiple_segments() {
    let builder = AstBuilder::new();
    let path = builder.path().global()
        .id("std")
        .id("thread")
        .id("Thread")
        .build();

    assert_eq!(
        path,
        Path {
            span: Span::dummy(),
            segments: vec![
                PathSegment::crate_root(),
                PathSegment {
                    identifier: builder.id("std"),
                    parameters: None,
                    span: Span::dummy(),
                },
                PathSegment {
                    identifier: builder.id("thread"),
                    parameters: None,
                    span: Span::dummy(),
                },
                PathSegment {
                    identifier: builder.id("Thread"),
                    parameters: None,
                    span: Span::dummy(),
                },
            ]
        }
    );
}

#[test]
fn test_option() {
    let builder = AstBuilder::new();
    let path = builder.path().global()
        .id("std")
        .id("option")
        .segment("Option")
            .with_ty(builder.ty().id("isize"))
            .build()
        .build();

    assert_eq!(
        path,
        Path {
            span: Span::dummy(),
            segments: vec![
                PathSegment::crate_root(),
                PathSegment {
                    identifier: builder.id("std"),
                    parameters: None,
                    span: Span::dummy(),
                },
                PathSegment {
                    identifier: builder.id("option"),
                    parameters: None,
                    span: Span::dummy(),
                },
                PathSegment {
                    identifier: builder.id("Option"),
                    parameters: Some(PathParameters::AngleBracketed(AngleBracketedParameterData {
                        lifetimes: vec![],
                        types: vec![
                            builder.ty().isize(),
                        ],
                        bindings: vec![],
                    })),
                    span: Span::dummy(),
                },
            ]
        }
    );
}

#[test]
fn test_lifetimes() {
    let builder = AstBuilder::new();
    let path = builder.path()
        .segment("Foo")
            .lifetime("'a")
            .build()
        .build();

    assert_eq!(
        path,
        Path {
            span: Span::dummy(),
            segments: vec![
                PathSegment {
                    identifier: builder.id("Foo"),
                    parameters: Some(PathParameters::AngleBracketed(AngleBracketedParameterData {
                        lifetimes: vec![
                            builder.lifetime("'a"),
                        ],
                        types: vec![],
                        bindings: vec![],
                    })),
                    span: Span::dummy(),
                },
            ]
        }
    );
}

#[test]
fn test_parenthesized_no_return() {
    let builder = AstBuilder::new();
    let path = builder.path().segment("Fn").ty().u8().no_return().build();

    assert_eq!(
        path,
        Path {
            span: Span::dummy(),
            segments: vec![
                PathSegment {
                    identifier: builder.id("Fn"),
                    parameters: Some(PathParameters::Parenthesized(
                        ParenthesizedParameterData {
                            span: Span::dummy(),
                            inputs: vec![builder.ty().u8()],
                            output: None,
                        }
                    )),
                    span: Span::dummy(),
                },
            ]
        }
    );
}

#[test]
fn test_parenthesized_with_return() {
    let builder = AstBuilder::new();
    let path = builder.path().segment("FnMut").ty().u16().return_().u32().build();

    assert_eq!(
        path,
        Path {
            span: Span::dummy(),
            segments: vec![
                PathSegment {
                    identifier: builder.id("FnMut"),
                    parameters: Some(PathParameters::Parenthesized(
                        ParenthesizedParameterData {
                            span: Span::dummy(),
                            inputs: vec![builder.ty().u16()],
                            output: Some(builder.ty().u32()),
                        }
                    )),
                    span: Span::dummy(),
                },
            ]
        }
    );
}

fn ident(name: &str) -> Ident {
    Ident { name: name.to_string() }
}

fn bare(name: &str, span: Span) -> PathSegment {
    PathSegment { identifier: ident(name), parameters: None, span }
}

fn named_ty(name: &str, span: Span) -> Ty {
    Ty { node: TyKind::Path(Path { span, segments: vec![bare(name, span)] }), span }
}

#[test]
fn test_crate_root_is_the_root_marker() {
    assert_eq!(PathSegment::crate_root(), bare("{{root}}", Span::dummy()));
}

#[test]
fn test_segment_order_is_call_order() {
    let path = PathBuilder::new().id("a").id("b").id("c").id("d").id("e").build();
    let names: Vec<String> = path.segments.into_iter().map(|s| s.identifier.name).collect();
    assert_eq!(names, vec!["a", "b", "c", "d", "e"]);
}

#[test]
fn test_path_not_global_has_no_root_marker() {
    let path = PathBuilder::new().id("std").build();
    assert_eq!(path.segments.len(), 1);
    let path = PathBuilder::new().global().id("std").build();
    assert_eq!(path.segments.len(), 2);
    assert_eq!(path.segments[0], PathSegment::crate_root());
}

#[test]
fn test_path_span_reaches_path_and_segments() {
    let at = Span { lo: 3, hi: 9 };
    let path = AstBuilder::new().span(at).path().global().id("std").segment("x").build().build();
    assert_eq!(
        path,
        Path {
            span: at,
            segments: vec![PathSegment::crate_root(), bare("std", at), bare("x", at)],
        }
    );
}

#[test]
fn test_path_span_last_call_wins() {
    let first = Span { lo: 1, hi: 2 };
    let last = Span { lo: 5, hi: 8 };
    let path = PathBuilder::new().span(first).span(last).id("x").build();
    assert_eq!(path, Path { span: last, segments: vec![bare("x", last)] });
}

#[test]
fn test_path_raw_node_is_forwarded() {
    let raw = Path { span: Span { lo: 4, hi: 5 }, segments: vec![bare("q", Span::dummy())] };
    let same = Path { span: Span { lo: 4, hi: 5 }, segments: vec![bare("q", Span::dummy())] };
    assert_eq!(PathBuilder::new().span(Span { lo: 1, hi: 1 }).global().build(raw), same);
}

#[test]
fn test_segment_standalone() {
    let segment = PathSegmentBuilder::new("Vec").ty().u8().build();
    assert_eq!(
        segment,
        PathSegment {
            identifier: ident("Vec"),
            parameters: Some(PathParameters::AngleBracketed(AngleBracketedParameterData {
                lifetimes: vec![],
                types: vec![named_ty("u8", Span::dummy())],
                bindings: vec![],
            })),
            span: Span::dummy(),
        }
    );
}

#[test]
fn test_segment_lifetime_takes_the_segment_span() {
    let at = Span { lo: 7, hi: 11 };
    let segment = PathSegmentBuilder::new("Foo").span(at).lifetime("'a").build();
    assert_eq!(
        segment,
        PathSegment {
            identifier: ident("Foo"),
            parameters: Some(PathParameters::AngleBracketed(AngleBracketedParameterData {
                lifetimes: vec![Lifetime { span: at, name: ident("'a") }],
                types: vec![],
                bindings: vec![],
            })),
            span: at,
        }
    );
}

#[test]
fn test_segment_with_lifetime_type_and_binding() {
    let builder = AstBuilder::new();
    let segment = PathSegmentBuilder::new("Iterator")
        .with_lifetime(builder.lifetime("'a"))
        .ty().usize()
        .binding("Item").u8()
        .with_binding(TypeBinding {
            ident: ident("Other"),
            ty: builder.ty().bool(),
            span: Span::dummy(),
        })
        .build();
    assert_eq!(
        segment,
        PathSegment {
            identifier: ident("Iterator"),
            parameters: Some(PathParameters::AngleBracketed(AngleBracketedParameterData {
                lifetimes: vec![Lifetime { span: Span::dummy(), name: ident("'a") }],
                types: vec![named_ty("usize", Span::dummy())],
                bindings: vec![
                    TypeBinding {
                        ident: ident("Item"),
                        ty: named_ty("u8", Span::dummy()),
                        span: Span::dummy(),
                    },
                    TypeBinding {
                        ident: ident("Other"),
                        ty: named_ty("bool", Span::dummy()),
                        span: Span::dummy(),
                    },
                ],
            })),
            span: Span::dummy(),
        }
    );
}

#[test]
fn test_build_return_with_raw_output() {
    let builder = AstBuilder::new();
    let segment = PathSegmentBuilder::new("Fn")
        .with_ty(builder.ty().i32())
        .with_ty(builder.ty().i64())
        .build_return(Some(builder.ty().unit()));
    assert_eq!(
        segment,
        PathSegment {
            identifier: ident("Fn"),
            parameters: Some(PathParameters::Parenthesized(ParenthesizedParameterData {
                span: Span::dummy(),
                inputs: vec![named_ty("i32", Span::dummy()), named_ty("i64", Span::dummy())],
                output: Some(Ty { node: TyKind::Tup(vec![]), span: Span::dummy() }),
            })),
            span: Span::dummy(),
        }
    );
}

#[test]
fn test_no_parameters_in_parenthesized_form() {
    let segment = PathSegmentBuilder::new("Fn").no_return();
    assert_eq!(
        segment,
        PathSegment {
            identifier: ident("Fn"),
            parameters: Some(PathParameters::Parenthesized(ParenthesizedParameterData {
                span: Span::dummy(),
                inputs: vec![],
                output: None,
            })),
            span: Span::dummy(),
        }
    );
}

#[test]
fn test_admits_return() {
    assert!(PathSegmentBuilder::new("Fn").admits_return());
    assert!(PathSegmentBuilder::new("Fn").ty().u8().admits_return());
    assert!(!PathSegmentBuilder::new("Fn").lifetime("'a").admits_return());
    assert!(!PathSegmentBuilder::new("Fn").binding("Output").u8().admits_return());
}

#[test]
fn test_try_build_return_accepts_types_only() {
    let segment = PathSegmentBuilder::new("Fn").ty().u8().try_build_return(None);
    assert_eq!(
        segment,
        Ok(PathSegment {
            identifier: ident("Fn"),
            parameters: Some(PathParameters::Parenthesized(ParenthesizedParameterData {
                span: Span::dummy(),
                inputs: vec![named_ty("u8", Span::dummy())],
                output: None,
            })),
            span: Span::dummy(),
        })
    );
}

#[test]
fn test_try_build_return_rejects_a_lifetime() {
    let segment = PathSegmentBuilder::new("Fn").lifetime("'a").ty().u8().try_build_return(None);
    assert_eq!(segment, Err(PathError::ConflictingParameters));
}

#[test]
fn test_try_build_return_rejects_a_binding() {
    let builder = AstBuilder::new();
    let result = builder.path()
        .segment("Fn")
        .binding("Output").u8()
        .try_build_return(Some(builder.ty().u8()));
    assert!(matches!(result, Err(PathError::ConflictingParameters)));
}

#[test]
fn test_path_error_is_described() {
    assert_eq!(
        PathError::ConflictingParameters.describe(),
        "a path segment cannot have both `<..>` and `(..)` parameters"
    );
}
