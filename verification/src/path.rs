//! Builders of paths, such as `::std::option::Option<isize>`.

use crate::ast::{
    crate_root_name, lemma_bindings_view, lemma_segments_view, lemma_tys_view, lemma_views_empty,
    lemma_views_push, option_ty_view, views, AngleBracketedParameterData,
    AngleBracketedParameterDataView, Ident, Lifetime, LifetimeView, ParenthesizedParameterData,
    ParenthesizedParameterDataView, Path, PathParameters, PathParametersView, PathSegment,
    PathSegmentView, PathView, Span, Ty, TyView, TypeBinding, TypeBindingView,
};
use crate::ident::ToIdent;
use crate::invoke::{Identity, Invoke};
use crate::ty::{TyBuilder, TyBuilderView};
use vstd::prelude::*;

verus! {

/// Begins a path: sets where it is and whether it is global, then takes the
/// first segment.
pub struct PathBuilder<F = Identity> {
    callback: F,
    span: Span,
    global: bool,
}

/// The state of a `PathBuilder`.
#[verifier::ext_equal]
pub struct PathBuilderView<F> {
    pub callback: F,
    pub span: Span,
    pub global: bool,
}

impl<F> View for PathBuilder<F> {
    type V = PathBuilderView<F>;

    closed spec fn view(&self) -> PathBuilderView<F> {
        PathBuilderView { callback: self.callback, span: self.span, global: self.global }
    }
}

/// The model of the segment `id` without parameters.
pub open spec fn bare_segment(id: Seq<char>, span: Span) -> PathSegmentView {
    PathSegmentView { identifier: id, parameters: None, span }
}

/// The model of the segment that marks a path as global.
pub open spec fn crate_root_view() -> PathSegmentView {
    bare_segment(crate_root_name(), Span::dummy())
}

impl<F> PathBuilderView<F> {
    /// The state of a builder that has just been made.
    pub open spec fn fresh(callback: F) -> Self {
        PathBuilderView { callback, span: Span::dummy(), global: false }
    }

    /// The state in which the segments are collected: a global path starts
    /// with the root marker, any other path with no segment.
    pub open spec fn start(self) -> PathSegmentsBuilderView<F> {
        PathSegmentsBuilderView {
            callback: self.callback,
            span: self.span,
            segments: if self.global {
                seq![crate_root_view()]
            } else {
                Seq::empty()
            },
        }
    }
}

impl PathBuilder {
    /// A builder that returns the finished path itself.
    pub fn new() -> (builder: PathBuilder<Identity>)
        ensures
            builder@ == PathBuilderView::fresh(Identity),
    {
        PathBuilder::with_callback(Identity)
    }
}

impl<F: Invoke<Path>> PathBuilder<F> {
    /// A builder that hands the finished path to `callback`.
    pub fn with_callback(callback: F) -> (builder: Self)
        ensures
            builder@ == PathBuilderView::fresh(callback),
    {
        PathBuilder { callback, span: Span::dummy(), global: false }
    }

    /// Hands on a path that was finished elsewhere, as it is.
    pub fn build(self, path: Path) -> (result: F::Result)
        ensures
            self@.callback.yields(path@, result),
    {
        self.callback.invoke(path)
    }

    /// Sets the location. The last call wins.
    pub fn span(self, span: Span) -> (builder: Self)
        ensures
            builder@ == (PathBuilderView { span, ..self@ }),
    {
        let mut builder = self;
        builder.span = span;
        builder
    }

    /// Makes the path global: it will begin with the root marker.
    pub fn global(self) -> (builder: Self)
        ensures
            builder@ == (PathBuilderView { global: true, ..self@ }),
    {
        let mut builder = self;
        builder.global = true;
        builder
    }

    /// Adds the first segment, `id` without parameters.
    pub fn id<T: ToIdent>(self, id: T) -> (builder: PathSegmentsBuilder<F>)
        ensures
            builder@ == self@.start().with_segment(bare_segment(id.ident_name(), self@.span)),
    {
        self.segment(id).build()
    }

    /// Begins the first segment, `id`, at the path's location. The segment
    /// builder's terminal method appends the segment and returns the builder
    /// of the following segments.
    pub fn segment<T: ToIdent>(self, id: T) -> (builder: PathSegmentBuilder<PathSegmentsBuilder<F>>)
        ensures
            builder@.callback@ == self@.start(),
            builder@ == PathSegmentBuilderView::fresh(
                id.ident_name(),
                self@.span,
                builder@.callback,
            ),
    {
        let mut segments: Vec<PathSegment> = Vec::new();
        proof {
            lemma_views_empty::<PathSegment>();
        }
        if self.global {
            let root = PathSegment::crate_root();
            proof {
                lemma_views_push(segments@, root);
                assert(views(segments@).push(root@) =~= seq![crate_root_view()]);
            }
            segments.push(root);
        }
        let span = self.span;
        let parent = PathSegmentsBuilder { callback: self.callback, span, segments };
        PathSegmentBuilder::with_callback(id, parent).span(span)
    }
}

/// Collects the segments of a path after the first and finishes the path.
pub struct PathSegmentsBuilder<F = Identity> {
    callback: F,
    span: Span,
    segments: Vec<PathSegment>,
}

/// The state of a `PathSegmentsBuilder`.
#[verifier::ext_equal]
pub struct PathSegmentsBuilderView<F> {
    pub callback: F,
    pub span: Span,
    pub segments: Seq<PathSegmentView>,
}

impl<F> View for PathSegmentsBuilder<F> {
    type V = PathSegmentsBuilderView<F>;

    closed spec fn view(&self) -> PathSegmentsBuilderView<F> {
        PathSegmentsBuilderView {
            callback: self.callback,
            span: self.span,
            segments: views(self.segments@),
        }
    }
}

impl<F> PathSegmentsBuilderView<F> {
    /// The state after one more segment.
    pub open spec fn with_segment(self, segment: PathSegmentView) -> Self {
        PathSegmentsBuilderView { segments: self.segments.push(segment), ..self }
    }

    /// The state after a chain of segments, first segment first.
    pub open spec fn with_segments(self, segments: Seq<PathSegmentView>) -> Self
        decreases segments.len(),
    {
        if segments.len() == 0 {
            self
        } else {
            self.with_segments(segments.drop_last()).with_segment(segments.last())
        }
    }

    /// The path of the segments collected so far.
    pub open spec fn path(self) -> PathView {
        PathView { span: self.span, segments: self.segments }
    }
}

/// The segments of a path stand in the order in which they were appended,
/// after the root marker if the path is global: the order of the segments is
/// the order of the calls.
pub proof fn law_segment_order<F>(
    builder: PathSegmentsBuilderView<F>,
    segments: Seq<PathSegmentView>,
)
    ensures
        builder.with_segments(segments).path() == (PathView {
            span: builder.span,
            segments: builder.segments + segments,
        }),
        builder.with_segments(segments).callback == builder.callback,
    decreases segments.len(),
{
    if segments.len() == 0 {
        assert(builder.segments + segments =~= builder.segments);
    } else {
        law_segment_order(builder, segments.drop_last());
        assert(builder.with_segments(segments).segments =~= builder.segments + segments);
    }
}

impl<F: Invoke<Path>> PathSegmentsBuilder<F> {
    /// Appends a segment that was assembled elsewhere.
    pub fn with_segment(self, segment: PathSegment) -> (builder: Self)
        ensures
            builder@ == self@.with_segment(segment@),
    {
        let mut builder = self;
        proof {
            lemma_views_push(builder.segments@, segment);
        }
        builder.segments.push(segment);
        builder
    }

    /// Appends the segment `id` without parameters.
    pub fn id<T: ToIdent>(self, id: T) -> (builder: Self)
        ensures
            builder@ == self@.with_segment(bare_segment(id.ident_name(), self@.span)),
    {
        self.segment(id).build()
    }

    /// Begins the next segment, `id`, at the path's location. The segment
    /// builder's terminal method appends the segment and returns this builder.
    pub fn segment<T: ToIdent>(self, id: T) -> (builder: PathSegmentBuilder<Self>)
        ensures
            builder@ == PathSegmentBuilderView::fresh(id.ident_name(), self@.span, self),
    {
        let span = self.span;
        PathSegmentBuilder::with_callback(id, self).span(span)
    }

    /// Finishes the path.
    pub fn build(self) -> (result: F::Result)
        ensures
            self@.callback.yields(self@.path(), result),
    {
        proof {
            lemma_segments_view(self.segments@);
        }
        let path = Path { span: self.span, segments: self.segments };
        self.callback.invoke(path)
    }
}

impl<F: Invoke<Path>> Invoke<PathSegment> for PathSegmentsBuilder<F> {
    type Result = Self;

    /// Resuming with a segment appends it and returns the builder.
    open spec fn yields(self, arg: PathSegmentView, result: Self) -> bool {
        result@ == self@.with_segment(arg)
    }

    fn invoke(self, arg: PathSegment) -> (result: Self) {
        self.with_segment(arg)
    }
}

/// Why a path segment could not be finished.
#[derive(Clone, Copy, Debug, PartialEq, Eq)]
pub enum PathError {
    /// The segment was given lifetimes or bindings, which belong to the
    /// form `<..>`, and was then finished in the form `(..) -> ..`.
    ConflictingParameters,
}

impl PathError {
    /// A sentence that says what went wrong.
    pub fn describe(&self) -> (message: &'static str)
        ensures
            message@ == "a path segment cannot have both `<..>` and `(..)` parameters"@,
    {
        match self {
            PathError::ConflictingParameters => {
                "a path segment cannot have both `<..>` and `(..)` parameters"
            },
        }
    }
}

/// Builds one path segment: its name and its parameters.
///
/// The parameters have the form `<'a, T, A = U>` or the form `(T, U) -> V`,
/// never both. Types go to either form; lifetimes and bindings belong to the
/// first only. `build` finishes in the first form. `build_return`,
/// `no_return` and `return_` finish in the second and reject a builder that
/// holds a lifetime or a binding: they require that it holds none, and
/// `try_build_return` tests it and returns the error.
pub struct PathSegmentBuilder<F = Identity> {
    callback: F,
    span: Span,
    id: Ident,
    lifetimes: Vec<Lifetime>,
    tys: Vec<Ty>,
    bindings: Vec<TypeBinding>,
}

/// The state of a `PathSegmentBuilder`.
#[verifier::ext_equal]
pub struct PathSegmentBuilderView<F> {
    pub callback: F,
    pub span: Span,
    pub id: Seq<char>,
    pub lifetimes: Seq<LifetimeView>,
    pub tys: Seq<TyView>,
    pub bindings: Seq<TypeBindingView>,
}

impl<F> View for PathSegmentBuilder<F> {
    type V = PathSegmentBuilderView<F>;

    closed spec fn view(&self) -> PathSegmentBuilderView<F> {
        PathSegmentBuilderView {
            callback: self.callback,
            span: self.span,
            id: self.id@,
            lifetimes: views(self.lifetimes@),
            tys: views(self.tys@),
            bindings: views(self.bindings@),
        }
    }
}

impl<F> PathSegmentBuilderView<F> {
    /// The state of a builder of the segment `id` at `span` that holds no
    /// parameter yet.
    pub open spec fn fresh(id: Seq<char>, span: Span, callback: F) -> Self {
        PathSegmentBuilderView {
            callback,
            span,
            id,
            lifetimes: Seq::empty(),
            tys: Seq::empty(),
            bindings: Seq::empty(),
        }
    }

    /// The state after one more lifetime.
    pub open spec fn with_lifetime(self, lifetime: LifetimeView) -> Self {
        PathSegmentBuilderView { lifetimes: self.lifetimes.push(lifetime), ..self }
    }

    /// The state after one more type.
    pub open spec fn with_ty(self, ty: TyView) -> Self {
        PathSegmentBuilderView { tys: self.tys.push(ty), ..self }
    }

    /// The state after one more binding.
    pub open spec fn with_binding(self, binding: TypeBindingView) -> Self {
        PathSegmentBuilderView { bindings: self.bindings.push(binding), ..self }
    }

    /// The lifetime `name`, located where this builder is.
    pub open spec fn lifetime(self, name: Seq<char>) -> LifetimeView {
        LifetimeView { span: self.span, name }
    }

    /// The binding `id = ty`, located where this builder is.
    pub open spec fn binding(self, id: Seq<char>, ty: TyView) -> TypeBindingView {
        TypeBindingView { ident: id, ty, span: self.span }
    }

    /// Whether the builder holds no parameter at all.
    pub open spec fn is_bare(self) -> bool {
        self.lifetimes.len() == 0 && self.tys.len() == 0 && self.bindings.len() == 0
    }

    /// Whether the segment can be finished in the form `(..) -> ..`: the
    /// builder holds no lifetime and no binding.
    pub open spec fn admits_return(self) -> bool {
        self.lifetimes.len() == 0 && self.bindings.len() == 0
    }

    /// The segment in the form `<..>`; a segment without parameters has none.
    pub open spec fn segment(self) -> PathSegmentView {
        PathSegmentView {
            identifier: self.id,
            parameters: if self.is_bare() {
                None
            } else {
                Some(
                    PathParametersView::AngleBracketed(
                        AngleBracketedParameterDataView {
                            lifetimes: self.lifetimes,
                            types: self.tys,
                            bindings: self.bindings,
                        },
                    ),
                )
            },
            span: self.span,
        }
    }

    /// The segment in the form `(..) -> ..`, with the builder's types as the
    /// inputs.
    pub open spec fn segment_with_return(self, output: Option<TyView>) -> PathSegmentView {
        PathSegmentView {
            identifier: self.id,
            parameters: Some(
                PathParametersView::Parenthesized(
                    ParenthesizedParameterDataView { span: self.span, inputs: self.tys, output },
                ),
            ),
            span: self.span,
        }
    }
}

impl PathSegmentBuilder {
    /// A builder of the segment `id` that returns the finished segment itself.
    pub fn new<T: ToIdent>(id: T) -> (builder: PathSegmentBuilder<Identity>)
        ensures
            builder@ == PathSegmentBuilderView::fresh(id.ident_name(), Span::dummy(), Identity),
    {
        PathSegmentBuilder::with_callback(id, Identity)
    }
}

impl<F: Invoke<PathSegment>> PathSegmentBuilder<F> {
    /// A builder of the segment `id` that hands the finished segment to
    /// `callback`.
    pub fn with_callback<T: ToIdent>(id: T, callback: F) -> (builder: Self)
        ensures
            builder@ == PathSegmentBuilderView::fresh(id.ident_name(), Span::dummy(), callback),
    {
        let lifetimes: Vec<Lifetime> = Vec::new();
        let tys: Vec<Ty> = Vec::new();
        let bindings: Vec<TypeBinding> = Vec::new();
        proof {
            lemma_views_empty::<Lifetime>();
            lemma_views_empty::<Ty>();
            lemma_views_empty::<TypeBinding>();
        }
        PathSegmentBuilder {
            callback,
            span: Span::dummy(),
            id: id.to_ident(),
            lifetimes,
            tys,
            bindings,
        }
    }

    /// Sets the location. The last call wins.
    pub fn span(self, span: Span) -> (builder: Self)
        ensures
            builder@ == (PathSegmentBuilderView { span, ..self@ }),
    {
        let mut builder = self;
        builder.span = span;
        builder
    }

    /// Appends a lifetime that was assembled elsewhere.
    pub fn with_lifetime(self, lifetime: Lifetime) -> (builder: Self)
        ensures
            builder@ == self@.with_lifetime(lifetime@),
    {
        let mut builder = self;
        proof {
            lemma_views_push(builder.lifetimes@, lifetime);
        }
        builder.lifetimes.push(lifetime);
        builder
    }

    /// Appends the lifetime `name`, located where this builder is.
    pub fn lifetime<T: ToIdent>(self, name: T) -> (builder: Self)
        ensures
            builder@ == self@.with_lifetime(self@.lifetime(name.ident_name())),
    {
        let lifetime = Lifetime { span: self.span, name: name.to_ident() };
        self.with_lifetime(lifetime)
    }

    /// Appends a type that was assembled elsewhere.
    pub fn with_ty(self, ty: Ty) -> (builder: Self)
        ensures
            builder@ == self@.with_ty(ty@),
    {
        let mut builder = self;
        proof {
            lemma_views_push(builder.tys@, ty);
        }
        builder.tys.push(ty);
        builder
    }

    /// Begins a type. The type builder's terminal method appends the type and
    /// returns this builder.
    pub fn ty(self) -> (builder: TyBuilder<Self>)
        ensures
            builder@ == TyBuilderView::fresh(self),
    {
        TyBuilder::with_callback(self)
    }

    /// Appends a binding that was assembled elsewhere.
    pub fn with_binding(self, binding: TypeBinding) -> (builder: Self)
        ensures
            builder@ == self@.with_binding(binding@),
    {
        let mut builder = self;
        proof {
            lemma_views_push(builder.bindings@, binding);
        }
        builder.bindings.push(binding);
        builder
    }

    /// Begins the binding `id = ..`. The type builder's terminal method
    /// appends the binding and returns this builder.
    pub fn binding<T: ToIdent>(self, id: T) -> (builder: TyBuilder<TypeBindingBuilder<F>>)
        ensures
            builder@ == TyBuilderView::fresh(builder@.callback),
            builder@.callback@ == (TypeBindingBuilderView { id: id.ident_name(), builder: self@ }),
    {
        TyBuilder::with_callback(TypeBindingBuilder { id: id.to_ident(), builder: self })
    }

    /// Finishes the segment in the form `<..>`, or without parameters if the
    /// builder holds none.
    pub fn build(self) -> (result: F::Result)
        ensures
            self@.callback.yields(self@.segment(), result),
    {
        proof {
            lemma_tys_view(self.tys@);
            lemma_bindings_view(self.bindings@);
        }
        let parameters = if self.lifetimes.len() == 0 && self.tys.len() == 0
            && self.bindings.len() == 0 {
            None
        } else {
            Some(
                PathParameters::AngleBracketed(
                    AngleBracketedParameterData {
                        lifetimes: self.lifetimes,
                        types: self.tys,
                        bindings: self.bindings,
                    },
                ),
            )
        };
        let segment = PathSegment { identifier: self.id, parameters, span: self.span };
        self.callback.invoke(segment)
    }

    /// Whether the segment can be finished in the form `(..) -> ..`.
    pub fn admits_return(&self) -> (admits: bool)
        ensures
            admits == self@.admits_return(),
    {
        self.lifetimes.len() == 0 && self.bindings.len() == 0
    }

    /// Finishes the segment in the form `(..) -> output`, or `(..)` if there
    /// is no output.
    pub fn build_return(self, output: Option<Ty>) -> (result: F::Result)
        requires
            self@.admits_return(),
        ensures
            self@.callback.yields(self@.segment_with_return(option_ty_view(output)), result),
    {
        proof {
            lemma_tys_view(self.tys@);
        }
        let data = ParenthesizedParameterData { span: self.span, inputs: self.tys, output };
        let segment = PathSegment {
            identifier: self.id,
            parameters: Some(PathParameters::Parenthesized(data)),
            span: self.span,
        };
        self.callback.invoke(segment)
    }

    /// Finishes the segment in the form `(..) -> output` if the builder holds
    /// no lifetime and no binding, and reports the conflict otherwise.
    pub fn try_build_return(self, output: Option<Ty>) -> (result: Result<F::Result, PathError>)
        ensures
            self@.admits_return() ==> result is Ok && self@.callback.yields(
                self@.segment_with_return(option_ty_view(output)),
                result->Ok_0,
            ),
            !self@.admits_return() ==> result is Err && result->Err_0
                == PathError::ConflictingParameters,
    {
        if self.admits_return() {
            Ok(self.build_return(output))
        } else {
            Err(PathError::ConflictingParameters)
        }
    }

    /// Finishes the segment in the form `(..)`.
    pub fn no_return(self) -> (result: F::Result)
        requires
            self@.admits_return(),
        ensures
            self@.callback.yields(self@.segment_with_return(None), result),
    {
        self.build_return(None)
    }

    /// Begins the output type of the form `(..) -> ..`. The type builder's
    /// terminal method finishes the segment.
    pub fn return_(self) -> (builder: TyBuilder<PathSegmentReturnBuilder<F>>)
        requires
            self@.admits_return(),
        ensures
            builder@ == TyBuilderView::fresh(builder@.callback),
            builder@.callback@ == self@,
    {
        TyBuilder::with_callback(PathSegmentReturnBuilder { builder: self })
    }
}

impl<F: Invoke<PathSegment>> Invoke<Ty> for PathSegmentBuilder<F> {
    type Result = Self;

    /// Resuming with a type appends it and returns the builder.
    open spec fn yields(self, arg: TyView, result: Self) -> bool {
        result@ == self@.with_ty(arg)
    }

    fn invoke(self, arg: Ty) -> (result: Self) {
        self.with_ty(arg)
    }
}

/// The continuation of the type of a binding: it waits for the type, appends
/// the binding to the segment builder and returns that builder.
pub struct TypeBindingBuilder<F> {
    id: Ident,
    builder: PathSegmentBuilder<F>,
}

/// The state of a `TypeBindingBuilder`.
#[verifier::ext_equal]
pub struct TypeBindingBuilderView<F> {
    pub id: Seq<char>,
    pub builder: PathSegmentBuilderView<F>,
}

impl<F> View for TypeBindingBuilder<F> {
    type V = TypeBindingBuilderView<F>;

    closed spec fn view(&self) -> TypeBindingBuilderView<F> {
        TypeBindingBuilderView { id: self.id@, builder: self.builder@ }
    }
}

impl<F: Invoke<PathSegment>> Invoke<Ty> for TypeBindingBuilder<F> {
    type Result = PathSegmentBuilder<F>;

    /// Resuming with a type appends the binding and returns the segment
    /// builder.
    open spec fn yields(self, arg: TyView, result: PathSegmentBuilder<F>) -> bool {
        result@ == self@.builder.with_binding(self@.builder.binding(self@.id, arg))
    }

    fn invoke(self, arg: Ty) -> (result: PathSegmentBuilder<F>) {
        let binding = TypeBinding { ident: self.id, ty: arg, span: self.builder.span };
        self.builder.with_binding(binding)
    }
}

/// The continuation of the output type of a segment in the form
/// `(..) -> ..`: it waits for the type and finishes the segment.
pub struct PathSegmentReturnBuilder<F> {
    builder: PathSegmentBuilder<F>,
}

impl<F> View for PathSegmentReturnBuilder<F> {
    type V = PathSegmentBuilderView<F>;

    closed spec fn view(&self) -> PathSegmentBuilderView<F> {
        self.builder@
    }
}

impl<F> PathSegmentReturnBuilder<F> {
    #[verifier::type_invariant]
    spec fn admits_return(self) -> bool {
        self.builder@.admits_return()
    }
}

impl<F: Invoke<PathSegment>> Invoke<Ty> for PathSegmentReturnBuilder<F> {
    type Result = F::Result;

    /// Resuming with a type finishes the segment with that type as its output.
    open spec fn yields(self, arg: TyView, result: F::Result) -> bool {
        self@.callback.yields(self@.segment_with_return(Some(arg)), result)
    }

    fn invoke(self, arg: Ty) -> (result: F::Result) {
        proof {
            use_type_invariant(&self);
        }
        self.builder.build_return(Some(arg))
    }
}

} // verus!
