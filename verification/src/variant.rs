//! The builder of enum variants.

use crate::ast::{
    lemma_views_empty, lemma_views_push, views, Attribute, AttributeView, Ident, Span, Variant,
    VariantData, VariantDataView, VariantView, Variant_, VariantNodeView,
};
use crate::attr::{AttrBuilder, AttrBuilderView};
use crate::ident::ToIdent;
use crate::invoke::{resumed, Identity, Invoke};
use crate::struct_field::{StructFieldBuilder, StructFieldBuilderView};
use crate::variant_data::{
    VariantDataBuilder, VariantDataBuilderView, VariantDataFieldsView, VariantDataStructBuilder,
    VariantDataTupleBuilder,
};
use vstd::prelude::*;

verus! {

/// Accumulates the name, the location and the attributes of a variant; a
/// terminal method supplies the payload, assembles the variant and hands it to
/// the continuation.
pub struct VariantBuilder<F = Identity> {
    callback: F,
    span: Span,
    attrs: Vec<Attribute>,
    id: Ident,
}

/// The state of a `VariantBuilder`.
#[verifier::ext_equal]
pub struct VariantBuilderView<F> {
    pub callback: F,
    pub span: Span,
    pub attrs: Seq<AttributeView>,
    pub id: Seq<char>,
}

impl<F> View for VariantBuilder<F> {
    type V = VariantBuilderView<F>;

    closed spec fn view(&self) -> VariantBuilderView<F> {
        VariantBuilderView {
            callback: self.callback,
            span: self.span,
            attrs: views(self.attrs@),
            id: self.id@,
        }
    }
}

impl<F> VariantBuilderView<F> {
    /// The state of a builder that has just been made: the location is the
    /// synthesized one and there are no attributes.
    pub open spec fn fresh(id: Seq<char>, callback: F) -> Self {
        VariantBuilderView { callback, span: Span::dummy(), attrs: Seq::empty(), id }
    }

    /// The state after the location was set.
    pub open spec fn with_span(self, span: Span) -> Self {
        VariantBuilderView { span, ..self }
    }

    /// The state after one more attribute.
    pub open spec fn with_attr(self, attr: AttributeView) -> Self {
        VariantBuilderView { attrs: self.attrs.push(attr), ..self }
    }

    /// `node`, tagged with the builder's location.
    pub open spec fn located(self, node: VariantNodeView) -> VariantView {
        VariantView { node, span: self.span }
    }

    /// The variant that the builder assembles around the payload `data`.
    pub open spec fn variant(self, data: VariantDataView) -> VariantView {
        self.located(VariantNodeView { name: self.id, attrs: self.attrs, data })
    }

    /// The state after one configuration call.
    pub open spec fn step(self, step: VariantStep) -> Self {
        match step {
            VariantStep::Span(span) => self.with_span(span),
            VariantStep::Attr(attr) => self.with_attr(attr),
        }
    }

    /// The state after a chain of configuration calls, first call first.
    pub open spec fn steps(self, steps: Seq<VariantStep>) -> Self
        decreases steps.len(),
    {
        if steps.len() == 0 {
            self
        } else {
            self.steps(steps.drop_last()).step(steps.last())
        }
    }
}

impl<F: Invoke<Variant>> VariantBuilderView<F> {
    /// Holds when a builder in this state, finished with the payload `data`,
    /// may return `result`: the continuation was resumed with the assembled
    /// variant and handed `result` back.
    pub open spec fn finishes(self, data: VariantDataView, result: F::Result) -> bool {
        self.callback.yields(self.variant(data), result)
    }
}

/// One configuration call on a variant builder, by what it hands the builder.
pub enum VariantStep {
    /// The location was set.
    Span(Span),
    /// An attribute was begun and finished.
    Attr(AttributeView),
}

/// The attributes that a chain of configuration calls attaches, first call
/// first.
pub open spec fn attrs_of(steps: Seq<VariantStep>) -> Seq<AttributeView>
    decreases steps.len(),
{
    if steps.len() == 0 {
        Seq::empty()
    } else {
        match steps.last() {
            VariantStep::Span(_) => attrs_of(steps.drop_last()),
            VariantStep::Attr(attr) => attrs_of(steps.drop_last()).push(attr),
        }
    }
}

/// The locations that a chain of configuration calls sets, first call first.
pub open spec fn spans_of(steps: Seq<VariantStep>) -> Seq<Span>
    decreases steps.len(),
{
    if steps.len() == 0 {
        Seq::empty()
    } else {
        match steps.last() {
            VariantStep::Span(span) => spans_of(steps.drop_last()).push(span),
            VariantStep::Attr(_) => spans_of(steps.drop_last()),
        }
    }
}

impl VariantBuilder {
    /// A builder of the variant `id` that returns the finished variant
    /// itself.
    pub fn new<T: ToIdent>(id: T) -> (builder: VariantBuilder<Identity>)
        ensures
            builder@ == VariantBuilderView::fresh(id.ident_name(), Identity),
    {
        VariantBuilder::new_with_callback(id, Identity)
    }
}

impl<F: Invoke<Variant>> VariantBuilder<F> {
    /// A builder of the variant `id` that hands the finished variant to
    /// `callback`.
    pub fn new_with_callback<T: ToIdent>(id: T, callback: F) -> (builder: Self)
        ensures
            builder@ == VariantBuilderView::fresh(id.ident_name(), callback),
    {
        let attrs: Vec<Attribute> = Vec::new();
        proof {
            lemma_views_empty::<Attribute>();
        }
        VariantBuilder { callback, span: Span::dummy(), attrs, id: id.to_ident() }
    }

    /// Sets the location. The last call wins.
    pub fn span(self, span: Span) -> (builder: Self)
        ensures
            builder@ == self@.with_span(span),
    {
        let mut builder = self;
        builder.span = span;
        builder
    }

    /// Begins an attribute at the builder's location. The attribute builder's
    /// terminal method appends the attribute and returns this builder.
    pub fn attr(self) -> (builder: AttrBuilder<Self>)
        ensures
            builder@ == (AttrBuilderView { span: self@.span, ..AttrBuilderView::fresh(self) }),
    {
        let span = self.span;
        AttrBuilder::new_with_callback(self).span(span)
    }

    /// Finishes the variant without fields.
    pub fn unit(self) -> (result: F::Result)
        ensures
            self@.finishes(VariantDataView::Unit, result),
    {
        VariantDataBuilder::new_with_callback(self).unit()
    }

    /// Begins a payload of unnamed fields with its first field. Finishing the
    /// payload finishes the variant.
    pub fn tuple(self) -> (builder: StructFieldBuilder<VariantDataTupleBuilder<Self>>)
        ensures
            builder@ == StructFieldBuilderView::fresh(None, builder@.callback),
            builder@.callback@ == (VariantDataFieldsView {
                callback: self,
                span: Span::dummy(),
                fields: Seq::empty(),
            }),
    {
        VariantDataBuilder::new_with_callback(self).tuple()
    }

    /// Begins a payload of named fields. Finishing the payload finishes the
    /// variant.
    pub fn struct_(self) -> (builder: VariantDataStructBuilder<Self>)
        ensures
            builder@ == (VariantDataFieldsView {
                callback: self,
                span: Span::dummy(),
                fields: Seq::empty(),
            }),
    {
        VariantDataBuilder::new_with_callback(self).struct_()
    }

    /// Finishes the variant around a payload that was assembled elsewhere.
    pub fn build_variant_data(self, data: VariantData) -> (result: F::Result)
        ensures
            self@.finishes(data@, result),
    {
        let variant_ = Variant_ { name: self.id, attrs: self.attrs, data };
        let variant = Variant { node: variant_, span: self.span };
        self.callback.invoke(variant)
    }

    /// Tags a variant that was assembled elsewhere with the builder's location
    /// and hands it on. The builder's own name and attributes are not used.
    pub fn build_variant_(self, variant: Variant_) -> (result: F::Result)
        ensures
            self@.callback.yields(self@.located(variant@), result),
    {
        let variant = Variant { node: variant, span: self.span };
        self.build(variant)
    }

    /// Hands on a variant that was finished elsewhere, as it is.
    pub fn build(self, variant: Variant) -> (result: F::Result)
        ensures
            self@.callback.yields(variant@, result),
    {
        self.callback.invoke(variant)
    }
}

impl<F: Invoke<Variant>> Invoke<Attribute> for VariantBuilder<F> {
    type Result = Self;

    /// Resuming with an attribute appends it and returns the builder.
    open spec fn yields(self, arg: AttributeView, result: Self) -> bool {
        result@ == self@.with_attr(arg)
    }

    fn invoke(self, arg: Attribute) -> (result: Self) {
        let mut builder = self;
        proof {
            lemma_views_push(builder.attrs@, arg);
        }
        builder.attrs.push(arg);
        builder
    }
}

impl<F: Invoke<Variant>> Invoke<VariantData> for VariantBuilder<F> {
    type Result = F::Result;

    /// Resuming with a payload finishes the variant.
    open spec fn yields(self, arg: VariantDataView, result: F::Result) -> bool {
        self@.finishes(arg, result)
    }

    fn invoke(self, arg: VariantData) -> (result: F::Result) {
        self.build_variant_data(arg)
    }
}

/// A builder that is driven on its own returns the variant that its state and
/// the payload describe: the variant whose fields are the builder's name, its
/// attributes in the order in which they were attached, the payload and the
/// builder's location.
pub proof fn law_identity_continuation(
    builder: VariantBuilderView<Identity>,
    data: VariantDataView,
    result: Variant,
)
    requires
        builder.finishes(data, result),
    ensures
        result@ == (VariantView {
            node: VariantNodeView { name: builder.id, attrs: builder.attrs, data },
            span: builder.span,
        }),
{
}

/// After any chain of configuration calls the builder holds the attributes
/// that the chain attached, after those that it held before and in the order
/// of the calls, whatever calls stood between them. Its location is the one
/// that the chain set last, or the one it had if the chain set none. The name
/// and the continuation are as they were.
pub proof fn law_configuration<F>(builder: VariantBuilderView<F>, steps: Seq<VariantStep>)
    ensures
        builder.steps(steps).attrs == builder.attrs + attrs_of(steps),
        builder.steps(steps).span == if spans_of(steps).len() == 0 {
            builder.span
        } else {
            spans_of(steps).last()
        },
        builder.steps(steps).id == builder.id,
        builder.steps(steps).callback == builder.callback,
    decreases steps.len(),
{
    if steps.len() == 0 {
        assert(builder.attrs + attrs_of(steps) =~= builder.attrs);
    } else {
        law_configuration(builder, steps.drop_last());
        let before = builder.steps(steps.drop_last());
        match steps.last() {
            VariantStep::Span(span) => {},
            VariantStep::Attr(attr) => {
                assert(before.attrs.push(attr) =~= builder.attrs + attrs_of(steps));
            },
        }
    }
}

/// The variant that a new builder assembles after a chain of configuration
/// calls carries the attributes of the chain in the order of the calls, and
/// the location that was set last; without any such call it carries the
/// synthesized location.
pub proof fn law_configured_variant<F>(
    id: Seq<char>,
    callback: F,
    steps: Seq<VariantStep>,
    data: VariantDataView,
)
    ensures
        VariantBuilderView::fresh(id, callback).steps(steps).variant(data) == (VariantView {
            node: VariantNodeView { name: id, attrs: attrs_of(steps), data },
            span: if spans_of(steps).len() == 0 {
                Span::dummy()
            } else {
                spans_of(steps).last()
            },
        }),
{
    let builder = VariantBuilderView::fresh(id, callback);
    law_configuration(builder, steps);
    assert(builder.attrs + attrs_of(steps) =~= attrs_of(steps));
}

/// Finishing an attribute builder whose continuation is a variant builder
/// leaves that builder in the state in which it is after it was resumed with
/// the attribute directly, so that whatever follows cannot tell the two
/// apart.
pub proof fn law_attr_cascade<F: Invoke<Variant>>(
    parent: VariantBuilder<F>,
    child: AttrBuilderView<VariantBuilder<F>>,
    attr: AttributeView,
    nested: VariantBuilder<F>,
    direct: VariantBuilder<F>,
)
    requires
        child.callback == parent,
        resumed::<Attribute, VariantBuilder<F>>(child.callback, attr, nested),
        resumed::<Attribute, VariantBuilder<F>>(parent, attr, direct),
    ensures
        nested@ == parent@.with_attr(attr),
        nested@ == direct@,
        forall|data: VariantDataView, result: F::Result|
            nested@.finishes(data, result) <==> direct@.finishes(data, result),
{
}

/// Finishing a payload builder whose continuation is a variant builder
/// returns what the variant builder returns when it is handed the same
/// payload directly, whatever the shape of the payload.
pub proof fn law_payload_cascade<F: Invoke<Variant>>(
    parent: VariantBuilder<F>,
    child: VariantDataBuilderView<VariantBuilder<F>>,
    data: VariantDataView,
    result: F::Result,
)
    requires
        child.callback == parent,
    ensures
        resumed::<VariantData, VariantBuilder<F>>(child.callback, data, result)
            <==> parent@.finishes(data, result),
{
}

/// A variant finished around a payload that was built elsewhere and a variant
/// finished through a payload builder that arrived at the same payload are
/// the same variant.
pub proof fn law_raw_payload(
    parent: VariantBuilder<Identity>,
    child: VariantDataBuilderView<VariantBuilder<Identity>>,
    data: VariantDataView,
    raw: Variant,
    built: Variant,
)
    requires
        child.callback == parent,
        parent@.finishes(data, raw),
        resumed::<VariantData, VariantBuilder<Identity>>(child.callback, data, built),
    ensures
        raw@ == built@,
{
}

} // verus!
