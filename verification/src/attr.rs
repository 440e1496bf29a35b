//! Builders of attributes, the decorations of a node.

use crate::ast::{
    lemma_meta_items_view, lemma_views_empty, lemma_views_push, views, AttrStyle, Attribute,
    AttributeView, Ident, MetaItem, MetaItemKind, MetaItemKindView, MetaItemView, Span,
};
use crate::ident::ToIdent;
use crate::invoke::{Identity, Invoke};
use vstd::prelude::*;

verus! {

/// Builds one attribute and hands it to the continuation.
pub struct AttrBuilder<F = Identity> {
    callback: F,
    span: Span,
    style: AttrStyle,
    is_sugared_doc: bool,
}

/// The state of an `AttrBuilder`.
#[verifier::ext_equal]
pub struct AttrBuilderView<F> {
    pub callback: F,
    pub span: Span,
    pub style: AttrStyle,
    pub is_sugared_doc: bool,
}

impl<F> View for AttrBuilder<F> {
    type V = AttrBuilderView<F>;

    closed spec fn view(&self) -> AttrBuilderView<F> {
        AttrBuilderView {
            callback: self.callback,
            span: self.span,
            style: self.style,
            is_sugared_doc: self.is_sugared_doc,
        }
    }
}

impl<F> AttrBuilderView<F> {
    /// The state of a builder that has just been made.
    pub open spec fn fresh(callback: F) -> Self {
        AttrBuilderView {
            callback,
            span: Span::dummy(),
            style: AttrStyle::Outer,
            is_sugared_doc: false,
        }
    }

    /// The attribute that this builder makes of `value`.
    pub open spec fn attribute(self, value: MetaItemView) -> AttributeView {
        AttributeView {
            style: self.style,
            value,
            is_sugared_doc: self.is_sugared_doc,
            span: self.span,
        }
    }

    /// The item `name`, located where this builder is.
    pub open spec fn word_item(self, name: Seq<char>) -> MetaItemView {
        MetaItemView { name, node: MetaItemKindView::Word, span: self.span }
    }

    /// The item `name = "value"`, located where this builder is.
    pub open spec fn name_value_item(self, name: Seq<char>, value: Seq<char>) -> MetaItemView {
        MetaItemView { name, node: MetaItemKindView::NameValue(value), span: self.span }
    }
}

impl AttrBuilder {
    /// A builder that returns the finished attribute itself.
    pub fn new() -> (builder: AttrBuilder<Identity>)
        ensures
            builder@ == AttrBuilderView::fresh(Identity),
    {
        AttrBuilder::new_with_callback(Identity)
    }
}

impl<F: Invoke<Attribute>> AttrBuilder<F> {
    /// A builder that hands the finished attribute to `callback`.
    pub fn new_with_callback(callback: F) -> (builder: Self)
        ensures
            builder@ == AttrBuilderView::fresh(callback),
    {
        AttrBuilder { callback, span: Span::dummy(), style: AttrStyle::Outer, is_sugared_doc: false }
    }

    /// Sets the location. The last call wins.
    pub fn span(self, span: Span) -> (builder: Self)
        ensures
            builder@ == (AttrBuilderView { span, ..self@ }),
    {
        let mut builder = self;
        builder.span = span;
        builder
    }

    /// Makes the attribute decorate the item that contains it.
    pub fn inner(self) -> (builder: Self)
        ensures
            builder@ == (AttrBuilderView { style: AttrStyle::Inner, ..self@ }),
    {
        let mut builder = self;
        builder.style = AttrStyle::Inner;
        builder
    }

    /// Makes the attribute decorate the item that follows it.
    pub fn outer(self) -> (builder: Self)
        ensures
            builder@ == (AttrBuilderView { style: AttrStyle::Outer, ..self@ }),
    {
        let mut builder = self;
        builder.style = AttrStyle::Outer;
        builder
    }

    /// Finishes with an attribute that was assembled elsewhere.
    pub fn build(self, attr: Attribute) -> (result: F::Result)
        ensures
            self@.callback.yields(attr@, result),
    {
        self.callback.invoke(attr)
    }

    /// Finishes with `item` as the attribute's content.
    pub fn build_meta_item(self, item: MetaItem) -> (result: F::Result)
        ensures
            self@.callback.yields(self@.attribute(item@), result),
    {
        let attr = Attribute {
            style: self.style,
            value: item,
            is_sugared_doc: self.is_sugared_doc,
            span: self.span,
        };
        self.callback.invoke(attr)
    }

    /// Finishes with the attribute `#[word]`.
    pub fn word<T: ToIdent>(self, word: T) -> (result: F::Result)
        ensures
            self@.callback.yields(self@.attribute(self@.word_item(word.ident_name())), result),
    {
        let item = MetaItem { name: word.to_ident(), node: MetaItemKind::Word, span: self.span };
        self.build_meta_item(item)
    }

    /// Finishes with the attribute `#[name = "value"]`.
    pub fn name_value<T: ToIdent>(self, name: T, value: &str) -> (result: F::Result)
        ensures
            self@.callback.yields(
                self@.attribute(self@.name_value_item(name.ident_name(), value@)),
                result,
            ),
    {
        let item = MetaItem {
            name: name.to_ident(),
            node: MetaItemKind::NameValue(value.to_owned()),
            span: self.span,
        };
        self.build_meta_item(item)
    }

    /// Finishes with the documentation comment `text`, written as the
    /// attribute `#[doc = "text"]`.
    pub fn doc(self, text: &str) -> (result: F::Result)
        ensures
            self@.callback.yields(
                (AttrBuilderView { is_sugared_doc: true, ..self@ }).attribute(
                    self@.name_value_item("doc"@, text@),
                ),
                result,
            ),
    {
        let mut builder = self;
        builder.is_sugared_doc = true;
        builder.name_value("doc", text)
    }

    /// Finishes with the attribute `#[inline]`.
    pub fn inline(self) -> (result: F::Result)
        ensures
            self@.callback.yields(self@.attribute(self@.word_item("inline"@)), result),
    {
        self.word("inline")
    }

    /// Finishes with the attribute `#[test]`.
    pub fn test(self) -> (result: F::Result)
        ensures
            self@.callback.yields(self@.attribute(self@.word_item("test"@)), result),
    {
        self.word("test")
    }

    /// Begins the attribute `#[name(..)]`; the list builder's `build` finishes
    /// this attribute with the list as its content.
    pub fn list<T: ToIdent>(self, name: T) -> (builder: AttrListBuilder<Self>)
        ensures
            builder@ == (AttrListBuilderView {
                callback: self,
                span: self@.span,
                name: name.ident_name(),
                items: Seq::empty(),
            }),
    {
        let span = self.span;
        AttrListBuilder::new_with_callback(name, self).span(span)
    }
}

impl<F: Invoke<Attribute>> Invoke<MetaItem> for AttrBuilder<F> {
    type Result = F::Result;

    /// Resuming with a content finishes the attribute.
    open spec fn yields(self, arg: MetaItemView, result: F::Result) -> bool {
        self@.callback.yields(self@.attribute(arg), result)
    }

    fn invoke(self, arg: MetaItem) -> (result: F::Result) {
        self.build_meta_item(arg)
    }
}

/// Builds the content `name(..)` item by item and hands it to the
/// continuation.
pub struct AttrListBuilder<F> {
    callback: F,
    span: Span,
    name: Ident,
    items: Vec<MetaItem>,
}

/// The state of an `AttrListBuilder`.
#[verifier::ext_equal]
pub struct AttrListBuilderView<F> {
    pub callback: F,
    pub span: Span,
    pub name: Seq<char>,
    pub items: Seq<MetaItemView>,
}

impl<F> View for AttrListBuilder<F> {
    type V = AttrListBuilderView<F>;

    closed spec fn view(&self) -> AttrListBuilderView<F> {
        AttrListBuilderView {
            callback: self.callback,
            span: self.span,
            name: self.name@,
            items: views(self.items@),
        }
    }
}

impl<F> AttrListBuilderView<F> {
    /// The state after one more item.
    pub open spec fn with_item(self, item: MetaItemView) -> Self {
        AttrListBuilderView { items: self.items.push(item), ..self }
    }

    /// The item `name`, located where this builder is.
    pub open spec fn word_item(self, name: Seq<char>) -> MetaItemView {
        MetaItemView { name, node: MetaItemKindView::Word, span: self.span }
    }

    /// The item `name = "value"`, located where this builder is.
    pub open spec fn name_value_item(self, name: Seq<char>, value: Seq<char>) -> MetaItemView {
        MetaItemView { name, node: MetaItemKindView::NameValue(value), span: self.span }
    }

    /// The finished list.
    pub open spec fn list_item(self) -> MetaItemView {
        MetaItemView { name: self.name, node: MetaItemKindView::List(self.items), span: self.span }
    }
}

impl<F: Invoke<MetaItem>> AttrListBuilder<F> {
    /// A builder of the list `name()` that hands the finished list to
    /// `callback`.
    pub fn new_with_callback<T: ToIdent>(name: T, callback: F) -> (builder: Self)
        ensures
            builder@ == (AttrListBuilderView {
                callback,
                span: Span::dummy(),
                name: name.ident_name(),
                items: Seq::empty(),
            }),
    {
        let items: Vec<MetaItem> = Vec::new();
        proof {
            lemma_views_empty::<MetaItem>();
        }
        AttrListBuilder { callback, span: Span::dummy(), name: name.to_ident(), items }
    }

    /// Sets the location. The last call wins.
    pub fn span(self, span: Span) -> (builder: Self)
        ensures
            builder@ == (AttrListBuilderView { span, ..self@ }),
    {
        let mut builder = self;
        builder.span = span;
        builder
    }

    /// Appends an item that was assembled elsewhere.
    pub fn with_meta_item(self, item: MetaItem) -> (builder: Self)
        ensures
            builder@ == self@.with_item(item@),
    {
        let mut builder = self;
        proof {
            lemma_views_push(builder.items@, item);
        }
        builder.items.push(item);
        builder
    }

    /// Appends the item `word`.
    pub fn word<T: ToIdent>(self, word: T) -> (builder: Self)
        ensures
            builder@ == self@.with_item(self@.word_item(word.ident_name())),
    {
        let item = MetaItem { name: word.to_ident(), node: MetaItemKind::Word, span: self.span };
        self.with_meta_item(item)
    }

    /// Appends the item `name = "value"`.
    pub fn name_value<T: ToIdent>(self, name: T, value: &str) -> (builder: Self)
        ensures
            builder@ == self@.with_item(self@.name_value_item(name.ident_name(), value@)),
    {
        let item = MetaItem {
            name: name.to_ident(),
            node: MetaItemKind::NameValue(value.to_owned()),
            span: self.span,
        };
        self.with_meta_item(item)
    }

    /// Begins the nested list `name(..)`; the nested builder's `build` appends
    /// it to this list and returns this builder.
    pub fn list<T: ToIdent>(self, name: T) -> (builder: AttrListBuilder<Self>)
        ensures
            builder@ == (AttrListBuilderView {
                callback: self,
                span: self@.span,
                name: name.ident_name(),
                items: Seq::empty(),
            }),
    {
        let span = self.span;
        AttrListBuilder::new_with_callback(name, self).span(span)
    }

    /// Finishes the list.
    pub fn build(self) -> (result: F::Result)
        ensures
            self@.callback.yields(self@.list_item(), result),
    {
        proof {
            lemma_meta_items_view(self.items@);
        }
        let item = MetaItem {
            name: self.name,
            node: MetaItemKind::List(self.items),
            span: self.span,
        };
        self.callback.invoke(item)
    }
}

impl<F: Invoke<MetaItem>> Invoke<MetaItem> for AttrListBuilder<F> {
    type Result = Self;

    /// Resuming with an item appends it and returns the builder.
    open spec fn yields(self, arg: MetaItemView, result: Self) -> bool {
        result@ == self@.with_item(arg)
    }

    fn invoke(self, arg: MetaItem) -> (result: Self) {
        self.with_meta_item(arg)
    }
}

} // verus!
