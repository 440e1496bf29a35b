//! The entry point: one value from which every kind of builder starts.

use crate::ast::{Ident, Lifetime, LifetimeView, Span};
use crate::attr::{AttrBuilder, AttrBuilderView};
use crate::ident::ToIdent;
use crate::invoke::Identity;
use crate::path::{PathBuilder, PathBuilderView};
use crate::struct_field::{StructFieldBuilder, StructFieldBuilderView};
use crate::ty::{TyBuilder, TyBuilderView};
use crate::variant::{VariantBuilder, VariantBuilderView};
use crate::variant_data::{VariantDataBuilder, VariantDataBuilderView};
use vstd::prelude::*;

verus! {

/// Starts builders that are driven on their own, each at the location that
/// this value holds.
#[derive(Clone, Copy, Debug)]
pub struct AstBuilder {
    span: Span,
}

impl View for AstBuilder {
    type V = Span;

    closed spec fn view(&self) -> Span {
        self.span
    }
}

impl AstBuilder {
    /// An entry point at the synthesized location.
    pub fn new() -> (builder: AstBuilder)
        ensures
            builder@ == Span::dummy(),
    {
        AstBuilder { span: Span::dummy() }
    }

    /// Sets the location at which builders start. The last call wins.
    pub fn span(self, span: Span) -> (builder: AstBuilder)
        ensures
            builder@ == span,
    {
        AstBuilder { span }
    }

    /// The identifier `id`.
    pub fn id<T: ToIdent>(&self, id: T) -> (ident: Ident)
        ensures
            ident@ == id.ident_name(),
    {
        id.to_ident()
    }

    /// The lifetime `name`, at the synthesized location.
    pub fn lifetime<T: ToIdent>(&self, name: T) -> (lifetime: Lifetime)
        ensures
            lifetime@ == (LifetimeView { span: Span::dummy(), name: name.ident_name() }),
    {
        Lifetime { span: Span::dummy(), name: name.to_ident() }
    }

    /// Begins an attribute.
    pub fn attr(&self) -> (builder: AttrBuilder)
        ensures
            builder@ == (AttrBuilderView { span: self@, ..AttrBuilderView::fresh(Identity) }),
    {
        AttrBuilder::new().span(self.span)
    }

    /// Begins a path.
    pub fn path(&self) -> (builder: PathBuilder)
        ensures
            builder@ == (PathBuilderView { span: self@, ..PathBuilderView::fresh(Identity) }),
    {
        PathBuilder::new().span(self.span)
    }

    /// Begins a type.
    pub fn ty(&self) -> (builder: TyBuilder)
        ensures
            builder@ == (TyBuilderView { span: self@, ..TyBuilderView::fresh(Identity) }),
    {
        TyBuilder::new().span(self.span)
    }

    /// Begins the variant `id`.
    pub fn variant<T: ToIdent>(&self, id: T) -> (builder: VariantBuilder)
        ensures
            builder@ == VariantBuilderView::fresh(id.ident_name(), Identity).with_span(self@),
    {
        VariantBuilder::new(id).span(self.span)
    }

    /// Begins the payload of a variant.
    pub fn variant_data(&self) -> (builder: VariantDataBuilder)
        ensures
            builder@ == (VariantDataBuilderView { callback: Identity, span: self@ }),
    {
        VariantDataBuilder::new().span(self.span)
    }

    /// Begins the field `id`.
    pub fn struct_field<T: ToIdent>(&self, id: T) -> (builder: StructFieldBuilder)
        ensures
            builder@ == StructFieldBuilderView::fresh(Some(id.ident_name()), Identity).with_span(
                self@,
            ),
    {
        StructFieldBuilder::named(id).span(self.span)
    }

    /// Begins a field without a name.
    pub fn tuple_field(&self) -> (builder: StructFieldBuilder)
        ensures
            builder@ == StructFieldBuilderView::fresh(None, Identity).with_span(self@),
    {
        StructFieldBuilder::unnamed().span(self.span)
    }
}

} // verus!
