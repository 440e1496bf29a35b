//! The builder of fields.

use crate::ast::{
    lemma_views_empty, lemma_views_push, views, Attribute, AttributeView, Ident, Span,
    StructField, StructFieldView, Ty, TyView, Visibility,
};
use crate::attr::{AttrBuilder, AttrBuilderView};
use crate::ident::ToIdent;
use crate::invoke::{Identity, Invoke};
use crate::ty::{TyBuilder, TyBuilderView};
use vstd::prelude::*;

verus! {

/// Accumulates the name, the location, the visibility and the attributes of a
/// field; a terminal method supplies the type, assembles the field and hands
/// it to the continuation.
pub struct StructFieldBuilder<F = Identity> {
    callback: F,
    span: Span,
    id: Option<Ident>,
    vis: Visibility,
    attrs: Vec<Attribute>,
}

/// The state of a `StructFieldBuilder`.
#[verifier::ext_equal]
pub struct StructFieldBuilderView<F> {
    pub callback: F,
    pub span: Span,
    pub id: Option<Seq<char>>,
    pub vis: Visibility,
    pub attrs: Seq<AttributeView>,
}

impl<F> View for StructFieldBuilder<F> {
    type V = StructFieldBuilderView<F>;

    closed spec fn view(&self) -> StructFieldBuilderView<F> {
        StructFieldBuilderView {
            callback: self.callback,
            span: self.span,
            id: match self.id {
                Some(id) => Some(id@),
                None => None,
            },
            vis: self.vis,
            attrs: views(self.attrs@),
        }
    }
}

impl<F> StructFieldBuilderView<F> {
    /// The state of a builder that has just been made: the location is the
    /// synthesized one, the visibility is inherited and there are no
    /// attributes.
    pub open spec fn fresh(id: Option<Seq<char>>, callback: F) -> Self {
        StructFieldBuilderView {
            callback,
            span: Span::dummy(),
            id,
            vis: Visibility::Inherited,
            attrs: Seq::empty(),
        }
    }

    /// The state after the location was set.
    pub open spec fn with_span(self, span: Span) -> Self {
        StructFieldBuilderView { span, ..self }
    }

    /// The state after one more attribute.
    pub open spec fn with_attr(self, attr: AttributeView) -> Self {
        StructFieldBuilderView { attrs: self.attrs.push(attr), ..self }
    }

    /// The field that the builder assembles around the type `ty`.
    pub open spec fn field(self, ty: TyView) -> StructFieldView {
        StructFieldView { span: self.span, ident: self.id, vis: self.vis, ty, attrs: self.attrs }
    }
}

impl StructFieldBuilder {
    /// A builder of the field `id` that returns the finished field itself.
    pub fn named<T: ToIdent>(id: T) -> (builder: StructFieldBuilder<Identity>)
        ensures
            builder@ == StructFieldBuilderView::fresh(Some(id.ident_name()), Identity),
    {
        StructFieldBuilder::named_with_callback(id, Identity)
    }

    /// A builder of a field without a name that returns the finished field
    /// itself.
    pub fn unnamed() -> (builder: StructFieldBuilder<Identity>)
        ensures
            builder@ == StructFieldBuilderView::fresh(None, Identity),
    {
        StructFieldBuilder::unnamed_with_callback(Identity)
    }
}

impl<F: Invoke<StructField>> StructFieldBuilder<F> {
    /// A builder of the field `id` that hands the finished field to
    /// `callback`.
    pub fn named_with_callback<T: ToIdent>(id: T, callback: F) -> (builder: Self)
        ensures
            builder@ == StructFieldBuilderView::fresh(Some(id.ident_name()), callback),
    {
        let attrs: Vec<Attribute> = Vec::new();
        proof {
            lemma_views_empty::<Attribute>();
        }
        StructFieldBuilder {
            callback,
            span: Span::dummy(),
            id: Some(id.to_ident()),
            vis: Visibility::Inherited,
            attrs,
        }
    }

    /// A builder of a field without a name that hands the finished field to
    /// `callback`.
    pub fn unnamed_with_callback(callback: F) -> (builder: Self)
        ensures
            builder@ == StructFieldBuilderView::fresh(None, callback),
    {
        let attrs: Vec<Attribute> = Vec::new();
        proof {
            lemma_views_empty::<Attribute>();
        }
        StructFieldBuilder {
            callback,
            span: Span::dummy(),
            id: None,
            vis: Visibility::Inherited,
            attrs,
        }
    }

    /// Sets the location. The last call wins.
    pub fn span(self, span: Span) -> (builder: Self)
        ensures
            builder@ == self@.with_span(span),
    {
        let mut builder = self;
        builder.span = span;
        builder
    }

    /// Makes the field public.
    pub fn pub_(self) -> (builder: Self)
        ensures
            builder@ == (StructFieldBuilderView { vis: Visibility::Public, ..self@ }),
    {
        let mut builder = self;
        builder.vis = Visibility::Public;
        builder
    }

    /// Begins an attribute at the builder's location. The attribute builder's
    /// terminal method appends the attribute and returns this builder.
    pub fn attr(self) -> (builder: AttrBuilder<Self>)
        ensures
            builder@ == (AttrBuilderView { span: self@.span, ..AttrBuilderView::fresh(self) }),
    {
        let span = self.span;
        AttrBuilder::new_with_callback(self).span(span)
    }

    /// Finishes the field around a type that was assembled elsewhere.
    pub fn build_ty(self, ty: Ty) -> (result: F::Result)
        ensures
            self@.callback.yields(self@.field(ty@), result),
    {
        let field = StructField {
            span: self.span,
            ident: self.id,
            vis: self.vis,
            ty,
            attrs: self.attrs,
        };
        self.callback.invoke(field)
    }

    /// Begins the type of the field. The type builder's terminal method
    /// finishes the field.
    pub fn ty(self) -> (builder: TyBuilder<Self>)
        ensures
            builder@ == TyBuilderView::fresh(self),
    {
        TyBuilder::with_callback(self)
    }

    /// Hands on a field that was finished elsewhere, as it is.
    pub fn build(self, field: StructField) -> (result: F::Result)
        ensures
            self@.callback.yields(field@, result),
    {
        self.callback.invoke(field)
    }
}

impl<F: Invoke<StructField>> Invoke<Attribute> for StructFieldBuilder<F> {
    type Result = Self;

    /// Resuming with an attribute appends it and returns the builder.
    open spec fn yields(self, arg: AttributeView, result: Self) -> bool {
        result@ == self@.with_attr(arg)
    }

    fn invoke(self, arg: Attribute) -> (result: Self) {
        let mut builder = self;
        proof {
            lemma_views_push(builder.attrs@, arg);
        }
        builder.attrs.push(arg);
        builder
    }
}

impl<F: Invoke<StructField>> Invoke<Ty> for StructFieldBuilder<F> {
    type Result = F::Result;

    /// Resuming with a type finishes the field.
    open spec fn yields(self, arg: TyView, result: F::Result) -> bool {
        self@.callback.yields(self@.field(arg), result)
    }

    fn invoke(self, arg: Ty) -> (result: F::Result) {
        self.build_ty(arg)
    }
}

} // verus!
