//! Builders of types.

use crate::ast::{
    lemma_tys_view, lemma_views_empty, lemma_views_push, views, Path, PathView, Span, Ty, TyKind,
    TyKindView, TyView,
};
use crate::ident::ToIdent;
use crate::invoke::{Identity, Invoke};
use crate::path::{bare_segment, PathBuilder, PathBuilderView};
use vstd::prelude::*;

verus! {

/// Builds one type and hands it to the continuation.
pub struct TyBuilder<F = Identity> {
    callback: F,
    span: Span,
}

/// The state of a `TyBuilder`.
#[verifier::ext_equal]
pub struct TyBuilderView<F> {
    pub callback: F,
    pub span: Span,
}

impl<F> View for TyBuilder<F> {
    type V = TyBuilderView<F>;

    closed spec fn view(&self) -> TyBuilderView<F> {
        TyBuilderView { callback: self.callback, span: self.span }
    }
}

impl<F> TyBuilderView<F> {
    /// The state of a builder that has just been made.
    pub open spec fn fresh(callback: F) -> Self {
        TyBuilderView { callback, span: Span::dummy() }
    }

    /// The type of the given kind, located where this builder is.
    pub open spec fn ty(self, node: TyKindView) -> TyView {
        TyView { node, span: self.span }
    }

    /// The type that the one-segment path `id` names.
    pub open spec fn named(self, id: Seq<char>) -> TyView {
        self.ty(
            TyKindView::Path(
                PathView { span: self.span, segments: seq![bare_segment(id, self.span)] },
            ),
        )
    }
}

impl TyBuilder {
    /// A builder that returns the finished type itself.
    pub fn new() -> (builder: TyBuilder<Identity>)
        ensures
            builder@ == TyBuilderView::fresh(Identity),
    {
        TyBuilder::with_callback(Identity)
    }
}

impl<F: Invoke<Ty>> TyBuilder<F> {
    /// A builder that hands the finished type to `callback`.
    pub fn with_callback(callback: F) -> (builder: Self)
        ensures
            builder@ == TyBuilderView::fresh(callback),
    {
        TyBuilder { callback, span: Span::dummy() }
    }

    /// Sets the location. The last call wins.
    pub fn span(self, span: Span) -> (builder: Self)
        ensures
            builder@ == (TyBuilderView { span, ..self@ }),
    {
        let mut builder = self;
        builder.span = span;
        builder
    }

    /// Hands on a type that was finished elsewhere, as it is.
    pub fn build(self, ty: Ty) -> (result: F::Result)
        ensures
            self@.callback.yields(ty@, result),
    {
        self.callback.invoke(ty)
    }

    /// Finishes with the type of the given kind.
    pub fn build_ty_kind(self, kind: TyKind) -> (result: F::Result)
        ensures
            self@.callback.yields(self@.ty(kind@), result),
    {
        let span = self.span;
        self.build(Ty { node: kind, span })
    }

    /// Finishes with the type that `path` names.
    pub fn build_path(self, path: Path) -> (result: F::Result)
        ensures
            self@.callback.yields(self@.ty(TyKindView::Path(path@)), result),
    {
        self.build_ty_kind(TyKind::Path(path))
    }

    /// Begins the path of a named type, at the type's location. Finishing the
    /// path finishes the type.
    pub fn path(self) -> (builder: PathBuilder<TyPathBuilder<F>>)
        ensures
            builder@ == (PathBuilderView {
                span: self@.span,
                ..PathBuilderView::fresh(builder@.callback)
            }),
            builder@.callback@ == self@,
    {
        let span = self.span;
        PathBuilder::with_callback(TyPathBuilder { builder: self }).span(span)
    }

    /// Finishes with the type that the one-segment path `id` names.
    pub fn id<T: ToIdent>(self, id: T) -> (result: F::Result)
        ensures
            self@.callback.yields(self@.named(id.ident_name()), result),
    {
        self.path().id(id).build()
    }

    /// Finishes with the type `bool`.
    pub fn bool(self) -> (result: F::Result)
        ensures
            self@.callback.yields(self@.named("bool"@), result),
    {
        self.id("bool")
    }

    /// Finishes with the type `char`.
    pub fn char(self) -> (result: F::Result)
        ensures
            self@.callback.yields(self@.named("char"@), result),
    {
        self.id("char")
    }

    /// Finishes with the type `isize`.
    pub fn isize(self) -> (result: F::Result)
        ensures
            self@.callback.yields(self@.named("isize"@), result),
    {
        self.id("isize")
    }

    /// Finishes with the type `i8`.
    pub fn i8(self) -> (result: F::Result)
        ensures
            self@.callback.yields(self@.named("i8"@), result),
    {
        self.id("i8")
    }

    /// Finishes with the type `i16`.
    pub fn i16(self) -> (result: F::Result)
        ensures
            self@.callback.yields(self@.named("i16"@), result),
    {
        self.id("i16")
    }

    /// Finishes with the type `i32`.
    pub fn i32(self) -> (result: F::Result)
        ensures
            self@.callback.yields(self@.named("i32"@), result),
    {
        self.id("i32")
    }

    /// Finishes with the type `i64`.
    pub fn i64(self) -> (result: F::Result)
        ensures
            self@.callback.yields(self@.named("i64"@), result),
    {
        self.id("i64")
    }

    /// Finishes with the type `usize`.
    pub fn usize(self) -> (result: F::Result)
        ensures
            self@.callback.yields(self@.named("usize"@), result),
    {
        self.id("usize")
    }

    /// Finishes with the type `u8`.
    pub fn u8(self) -> (result: F::Result)
        ensures
            self@.callback.yields(self@.named("u8"@), result),
    {
        self.id("u8")
    }

    /// Finishes with the type `u16`.
    pub fn u16(self) -> (result: F::Result)
        ensures
            self@.callback.yields(self@.named("u16"@), result),
    {
        self.id("u16")
    }

    /// Finishes with the type `u32`.
    pub fn u32(self) -> (result: F::Result)
        ensures
            self@.callback.yields(self@.named("u32"@), result),
    {
        self.id("u32")
    }

    /// Finishes with the type `u64`.
    pub fn u64(self) -> (result: F::Result)
        ensures
            self@.callback.yields(self@.named("u64"@), result),
    {
        self.id("u64")
    }

    /// Finishes with the type `_`, left to be inferred.
    pub fn infer(self) -> (result: F::Result)
        ensures
            self@.callback.yields(self@.ty(TyKindView::Infer), result),
    {
        self.build_ty_kind(TyKind::Infer)
    }

    /// Finishes with the never type `!`.
    pub fn never(self) -> (result: F::Result)
        ensures
            self@.callback.yields(self@.ty(TyKindView::Never), result),
    {
        self.build_ty_kind(TyKind::Never)
    }

    /// Finishes with the unit type `()`.
    pub fn unit(self) -> (result: F::Result)
        ensures
            self@.callback.yields(self@.ty(TyKindView::Tup(Seq::empty())), result),
    {
        self.tuple().build()
    }

    /// Begins a tuple type.
    pub fn tuple(self) -> (builder: TyTupleBuilder<F>)
        ensures
            builder@ == (TyTupleBuilderView { builder: self@, tys: Seq::empty() }),
    {
        let tys: Vec<Ty> = Vec::new();
        proof {
            lemma_views_empty::<Ty>();
        }
        TyTupleBuilder { builder: self, tys }
    }
}

/// The continuation of the path of a named type: it waits for the path and
/// finishes the type.
pub struct TyPathBuilder<F> {
    builder: TyBuilder<F>,
}

impl<F> View for TyPathBuilder<F> {
    type V = TyBuilderView<F>;

    closed spec fn view(&self) -> TyBuilderView<F> {
        self.builder@
    }
}

impl<F: Invoke<Ty>> Invoke<Path> for TyPathBuilder<F> {
    type Result = F::Result;

    /// Resuming with a path finishes the type that the path names.
    open spec fn yields(self, arg: PathView, result: F::Result) -> bool {
        self@.callback.yields(self@.ty(TyKindView::Path(arg)), result)
    }

    fn invoke(self, arg: Path) -> (result: F::Result) {
        self.builder.build_path(arg)
    }
}

/// Collects the types of a tuple type and finishes it.
pub struct TyTupleBuilder<F> {
    builder: TyBuilder<F>,
    tys: Vec<Ty>,
}

/// The state of a `TyTupleBuilder`.
#[verifier::ext_equal]
pub struct TyTupleBuilderView<F> {
    pub builder: TyBuilderView<F>,
    pub tys: Seq<TyView>,
}

impl<F> View for TyTupleBuilder<F> {
    type V = TyTupleBuilderView<F>;

    closed spec fn view(&self) -> TyTupleBuilderView<F> {
        TyTupleBuilderView { builder: self.builder@, tys: views(self.tys@) }
    }
}

impl<F> TyTupleBuilderView<F> {
    /// The state after one more type.
    pub open spec fn with_ty(self, ty: TyView) -> Self {
        TyTupleBuilderView { tys: self.tys.push(ty), ..self }
    }

    /// The tuple type of the types collected so far.
    pub open spec fn tuple(self) -> TyView {
        self.builder.ty(TyKindView::Tup(self.tys))
    }
}

impl<F: Invoke<Ty>> TyTupleBuilder<F> {
    /// Appends a type that was assembled elsewhere.
    pub fn with_ty(self, ty: Ty) -> (builder: Self)
        ensures
            builder@ == self@.with_ty(ty@),
    {
        let mut builder = self;
        proof {
            lemma_views_push(builder.tys@, ty);
        }
        builder.tys.push(ty);
        builder
    }

    /// Begins the next type of the tuple. The type builder's terminal method
    /// appends the type and returns this builder.
    pub fn ty(self) -> (builder: TyBuilder<Self>)
        ensures
            builder@ == TyBuilderView::fresh(self),
    {
        TyBuilder::with_callback(self)
    }

    /// Finishes the tuple type.
    pub fn build(self) -> (result: F::Result)
        ensures
            self@.builder.callback.yields(self@.tuple(), result),
    {
        proof {
            lemma_tys_view(self.tys@);
        }
        self.builder.build_ty_kind(TyKind::Tup(self.tys))
    }
}

impl<F: Invoke<Ty>> Invoke<Ty> for TyTupleBuilder<F> {
    type Result = Self;

    /// Resuming with a type appends it and returns the builder.
    open spec fn yields(self, arg: TyView, result: Self) -> bool {
        result@ == self@.with_ty(arg)
    }

    fn invoke(self, arg: Ty) -> (result: Self) {
        self.with_ty(arg)
    }
}

} // verus!
