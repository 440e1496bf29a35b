//! Builders of the payload of a variant: no fields, unnamed fields or named
//! fields.

use crate::ast::{
    lemma_views_empty, lemma_views_push, views, Span, StructField, StructFieldView, VariantData,
    VariantDataView,
};
use crate::ident::ToIdent;
use crate::invoke::{Identity, Invoke};
use crate::struct_field::{StructFieldBuilder, StructFieldBuilderView};
use crate::ty::{TyBuilder, TyBuilderView};
use vstd::prelude::*;

verus! {

/// Chooses the shape of a payload and hands the finished payload to the
/// continuation.
pub struct VariantDataBuilder<F = Identity> {
    callback: F,
    span: Span,
}

/// The state of a `VariantDataBuilder`.
#[verifier::ext_equal]
pub struct VariantDataBuilderView<F> {
    pub callback: F,
    pub span: Span,
}

impl<F> View for VariantDataBuilder<F> {
    type V = VariantDataBuilderView<F>;

    closed spec fn view(&self) -> VariantDataBuilderView<F> {
        VariantDataBuilderView { callback: self.callback, span: self.span }
    }
}

impl<F> VariantDataBuilderView<F> {
    /// The state in which the fields are collected: there is none yet.
    pub open spec fn start(self) -> VariantDataFieldsView<F> {
        VariantDataFieldsView { callback: self.callback, span: self.span, fields: Seq::empty() }
    }
}

impl VariantDataBuilder {
    /// A builder that returns the finished payload itself.
    pub fn new() -> (builder: VariantDataBuilder<Identity>)
        ensures
            builder@ == (VariantDataBuilderView { callback: Identity, span: Span::dummy() }),
    {
        VariantDataBuilder::new_with_callback(Identity)
    }
}

impl<F: Invoke<VariantData>> VariantDataBuilder<F> {
    /// A builder that hands the finished payload to `callback`.
    pub fn new_with_callback(callback: F) -> (builder: Self)
        ensures
            builder@ == (VariantDataBuilderView { callback, span: Span::dummy() }),
    {
        VariantDataBuilder { callback, span: Span::dummy() }
    }

    /// Sets the location that named fields start from. The last call wins.
    pub fn span(self, span: Span) -> (builder: Self)
        ensures
            builder@ == (VariantDataBuilderView { span, ..self@ }),
    {
        let mut builder = self;
        builder.span = span;
        builder
    }

    /// Finishes with the payload without fields.
    pub fn unit(self) -> (result: F::Result)
        ensures
            self@.callback.yields(VariantDataView::Unit, result),
    {
        self.callback.invoke(VariantData::Unit)
    }

    /// Begins a payload of unnamed fields with its first field. The field
    /// builder's terminal method appends the field and returns the builder of
    /// the following fields.
    pub fn tuple(self) -> (builder: StructFieldBuilder<VariantDataTupleBuilder<F>>)
        ensures
            builder@ == StructFieldBuilderView::fresh(None, builder@.callback).with_span(
                self@.span,
            ),
            builder@.callback@ == self@.start(),
    {
        let fields: Vec<StructField> = Vec::new();
        proof {
            lemma_views_empty::<StructField>();
        }
        let builder = VariantDataTupleBuilder { builder: self, fields };
        builder.field()
    }

    /// Begins a payload of named fields.
    pub fn struct_(self) -> (builder: VariantDataStructBuilder<F>)
        ensures
            builder@ == self@.start(),
    {
        let fields: Vec<StructField> = Vec::new();
        proof {
            lemma_views_empty::<StructField>();
        }
        VariantDataStructBuilder { builder: self, fields }
    }

    /// Finishes with a payload that was assembled elsewhere.
    pub fn build(self, data: VariantData) -> (result: F::Result)
        ensures
            self@.callback.yields(data@, result),
    {
        self.callback.invoke(data)
    }
}

/// The state of a `VariantDataTupleBuilder` or a `VariantDataStructBuilder`.
#[verifier::ext_equal]
pub struct VariantDataFieldsView<F> {
    pub callback: F,
    pub span: Span,
    pub fields: Seq<StructFieldView>,
}

impl<F> VariantDataFieldsView<F> {
    /// The state after one more field.
    pub open spec fn with_field(self, field: StructFieldView) -> Self {
        VariantDataFieldsView { fields: self.fields.push(field), ..self }
    }
}

/// Collects the fields of a payload of unnamed fields and finishes the
/// payload.
pub struct VariantDataTupleBuilder<F> {
    builder: VariantDataBuilder<F>,
    fields: Vec<StructField>,
}

impl<F> View for VariantDataTupleBuilder<F> {
    type V = VariantDataFieldsView<F>;

    closed spec fn view(&self) -> VariantDataFieldsView<F> {
        VariantDataFieldsView {
            callback: self.builder@.callback,
            span: self.builder@.span,
            fields: views(self.fields@),
        }
    }
}

impl<F: Invoke<VariantData>> VariantDataTupleBuilder<F> {
    /// Appends a field that was assembled elsewhere.
    pub fn with_field(self, field: StructField) -> (builder: Self)
        ensures
            builder@ == self@.with_field(field@),
    {
        let mut builder = self;
        proof {
            lemma_views_push(builder.fields@, field);
        }
        builder.fields.push(field);
        builder
    }

    /// Begins the next field at the payload's location. The field builder's
    /// terminal method appends the field and returns this builder.
    pub fn field(self) -> (builder: StructFieldBuilder<Self>)
        ensures
            builder@ == StructFieldBuilderView::fresh(None, self).with_span(self@.span),
    {
        let span = self.builder.span;
        StructFieldBuilder::unnamed_with_callback(self).span(span)
    }

    /// Begins the type of the next field. The type builder's terminal method
    /// appends the field and returns this builder.
    pub fn ty(self) -> (builder: TyBuilder<StructFieldBuilder<Self>>)
        ensures
            builder@ == TyBuilderView::fresh(builder@.callback),
            builder@.callback@ == StructFieldBuilderView::fresh(None, self).with_span(self@.span),
    {
        self.field().ty()
    }

    /// Finishes the payload.
    pub fn build(self) -> (result: F::Result)
        ensures
            self@.callback.yields(VariantDataView::Tuple(self@.fields), result),
    {
        let data = VariantData::Tuple(self.fields);
        self.builder.callback.invoke(data)
    }
}

impl<F: Invoke<VariantData>> Invoke<StructField> for VariantDataTupleBuilder<F> {
    type Result = Self;

    /// Resuming with a field appends it and returns the builder.
    open spec fn yields(self, arg: StructFieldView, result: Self) -> bool {
        result@ == self@.with_field(arg)
    }

    fn invoke(self, arg: StructField) -> (result: Self) {
        self.with_field(arg)
    }
}

/// Collects the fields of a payload of named fields and finishes the payload.
pub struct VariantDataStructBuilder<F> {
    builder: VariantDataBuilder<F>,
    fields: Vec<StructField>,
}

impl<F> View for VariantDataStructBuilder<F> {
    type V = VariantDataFieldsView<F>;

    closed spec fn view(&self) -> VariantDataFieldsView<F> {
        VariantDataFieldsView {
            callback: self.builder@.callback,
            span: self.builder@.span,
            fields: views(self.fields@),
        }
    }
}

impl<F: Invoke<VariantData>> VariantDataStructBuilder<F> {
    /// Appends a field that was assembled elsewhere.
    pub fn with_field(self, field: StructField) -> (builder: Self)
        ensures
            builder@ == self@.with_field(field@),
    {
        let mut builder = self;
        proof {
            lemma_views_push(builder.fields@, field);
        }
        builder.fields.push(field);
        builder
    }

    /// Begins the field `id` at the payload's location. The field builder's
    /// terminal method appends the field and returns this builder.
    pub fn field<T: ToIdent>(self, id: T) -> (builder: StructFieldBuilder<Self>)
        ensures
            builder@ == StructFieldBuilderView::fresh(Some(id.ident_name()), self).with_span(
                self@.span,
            ),
    {
        let span = self.builder.span;
        StructFieldBuilder::named_with_callback(id, self).span(span)
    }

    /// Finishes the payload.
    pub fn build(self) -> (result: F::Result)
        ensures
            self@.callback.yields(VariantDataView::Struct(self@.fields), result),
    {
        let data = VariantData::Struct(self.fields);
        self.builder.callback.invoke(data)
    }
}

impl<F: Invoke<VariantData>> Invoke<StructField> for VariantDataStructBuilder<F> {
    type Result = Self;

    /// Resuming with a field appends it and returns the builder.
    open spec fn yields(self, arg: StructFieldView, result: Self) -> bool {
        result@ == self@.with_field(arg)
    }

    fn invoke(self, arg: StructField) -> (result: Self) {
        self.with_field(arg)
    }
}

} // verus!
