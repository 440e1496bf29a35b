//! The finished nodes that the builders produce, and their mathematical models.
//!
//! Every node type has a view: the same tree with `Seq` in place of `Vec` and a
//! sequence of characters in place of each identifier. Contracts speak of views,
//! so two nodes that were assembled in different ways are the same node exactly
//! when their views are equal.

use vstd::prelude::*;

verus! {

/// A source location: a range of byte offsets.
#[derive(Clone, Copy, Debug, PartialEq, Eq)]
pub struct Span {
    pub lo: u32,
    pub hi: u32,
}

impl Span {
    /// The location of a node that was synthesized rather than read from a file.
    #[verifier::allow_in_spec]
    pub fn dummy() -> Span
        returns
            (Span { lo: 0, hi: 0 }),
    {
        dummy_sp()
    }
}

/// Reads `syntex_syntax::codemap::DUMMY_SP`, the location that the syntax
/// crate gives to synthesized nodes. Trusted: that constant is the range from
/// byte 0 to byte 0.
#[verifier::external_body]
fn dummy_sp() -> (span: Span)
    ensures
        span == (Span { lo: 0, hi: 0 }),
{
    let span = syntex_syntax::codemap::DUMMY_SP;
    Span { lo: span.lo.0, hi: span.hi.0 }
}

/// An identifier.
#[derive(Debug, PartialEq, Eq)]
pub struct Ident {
    pub name: String,
}

impl View for Ident {
    type V = Seq<char>;

    open spec fn view(&self) -> Seq<char> {
        self.name@
    }
}

/// A lifetime, such as `'a`.
#[derive(Debug, PartialEq, Eq)]
pub struct Lifetime {
    pub span: Span,
    pub name: Ident,
}

#[verifier::ext_equal]
pub struct LifetimeView {
    pub span: Span,
    pub name: Seq<char>,
}

impl View for Lifetime {
    type V = LifetimeView;

    open spec fn view(&self) -> LifetimeView {
        LifetimeView { span: self.span, name: self.name@ }
    }
}

/// The models of the items of a list, in order.
pub open spec fn views<T: View>(items: Seq<T>) -> Seq<T::V> {
    items.map_values(|t: T| t@)
}

/// The model of a list with one more item is the list's model with the item's
/// model appended.
pub proof fn lemma_views_push<T: View>(items: Seq<T>, item: T)
    ensures
        views(items.push(item)) == views(items).push(item@),
{
    assert(views(items.push(item)) =~= views(items).push(item@));
}

/// The model of the empty list is empty.
pub proof fn lemma_views_empty<T: View>()
    ensures
        views(Seq::<T>::empty()) == Seq::<T::V>::empty(),
{
    assert(views(Seq::<T>::empty()) =~= Seq::<T::V>::empty());
}

// ---------------------------------------------------------------------------
// Attributes

/// Whether an attribute decorates the item that follows it or the item that
/// contains it.
#[derive(Clone, Copy, Debug, PartialEq, Eq)]
pub enum AttrStyle {
    Outer,
    Inner,
}

/// The content of an attribute: `test`, `allow(..)` or `doc = ".."`.
#[derive(Debug, PartialEq, Eq)]
pub struct MetaItem {
    pub name: Ident,
    pub node: MetaItemKind,
    pub span: Span,
}

#[derive(Debug, PartialEq, Eq)]
pub enum MetaItemKind {
    /// A bare word.
    Word,
    /// A name with a parenthesized list of nested items.
    List(Vec<MetaItem>),
    /// A name with a string value.
    NameValue(String),
}

/// One decoration of a node.
#[derive(Debug, PartialEq, Eq)]
pub struct Attribute {
    pub style: AttrStyle,
    pub value: MetaItem,
    pub is_sugared_doc: bool,
    pub span: Span,
}

#[verifier::ext_equal]
pub struct MetaItemView {
    pub name: Seq<char>,
    pub node: MetaItemKindView,
    pub span: Span,
}

#[verifier::ext_equal]
pub enum MetaItemKindView {
    Word,
    List(Seq<MetaItemView>),
    NameValue(Seq<char>),
}

#[verifier::ext_equal]
pub struct AttributeView {
    pub style: AttrStyle,
    pub value: MetaItemView,
    pub is_sugared_doc: bool,
    pub span: Span,
}

pub open spec fn meta_item_view(item: MetaItem) -> MetaItemView
    decreases item,
{
    MetaItemView { name: item.name@, node: meta_item_kind_view(item.node), span: item.span }
}

pub open spec fn meta_item_kind_view(kind: MetaItemKind) -> MetaItemKindView
    decreases kind,
{
    match kind {
        MetaItemKind::Word => MetaItemKindView::Word,
        MetaItemKind::List(items) => MetaItemKindView::List(meta_items_view(items@)),
        MetaItemKind::NameValue(value) => MetaItemKindView::NameValue(value@),
    }
}

pub open spec fn meta_items_view(items: Seq<MetaItem>) -> Seq<MetaItemView>
    decreases items,
{
    Seq::new(
        items.len(),
        |i: int|
            if 0 <= i < items.len() {
                meta_item_view(items[i])
            } else {
                arbitrary()
            },
    )
}

impl View for MetaItemKind {
    type V = MetaItemKindView;

    open spec fn view(&self) -> MetaItemKindView {
        meta_item_kind_view(*self)
    }
}

impl View for MetaItem {
    type V = MetaItemView;

    open spec fn view(&self) -> MetaItemView {
        meta_item_view(*self)
    }
}

impl View for Attribute {
    type V = AttributeView;

    open spec fn view(&self) -> AttributeView {
        AttributeView {
            style: self.style,
            value: self.value@,
            is_sugared_doc: self.is_sugared_doc,
            span: self.span,
        }
    }
}

/// Inside a list item, too, the model of the nested items is the list of
/// their models.
pub proof fn lemma_meta_items_view(items: Seq<MetaItem>)
    ensures
        meta_items_view(items) == views(items),
{
    assert(meta_items_view(items) =~= views(items));
}

// ---------------------------------------------------------------------------
// Types and paths

/// A type.
#[derive(Debug, PartialEq, Eq)]
pub struct Ty {
    pub node: TyKind,
    pub span: Span,
}

#[derive(Debug, PartialEq, Eq)]
pub enum TyKind {
    /// The never type `!`.
    Never,
    /// A tuple; the empty tuple is the unit type.
    Tup(Vec<Ty>),
    /// A type named by a path.
    Path(Path),
    /// A type left to be inferred, `_`.
    Infer,
}

/// A name: segments separated by `::`. A global path begins with the root
/// marker of `PathSegment::crate_root`.
#[derive(Debug, PartialEq, Eq)]
pub struct Path {
    pub span: Span,
    pub segments: Vec<PathSegment>,
}

/// One segment of a path, with its parameters if it has any.
#[derive(Debug, PartialEq, Eq)]
pub struct PathSegment {
    pub identifier: Ident,
    pub parameters: Option<PathParameters>,
    pub span: Span,
}

/// The parameters of a path segment, in one of two mutually exclusive forms.
#[derive(Debug, PartialEq, Eq)]
pub enum PathParameters {
    /// `<'a, A, B = C>`
    AngleBracketed(AngleBracketedParameterData),
    /// `(A, B) -> C`
    Parenthesized(ParenthesizedParameterData),
}

#[derive(Debug, PartialEq, Eq)]
pub struct AngleBracketedParameterData {
    pub lifetimes: Vec<Lifetime>,
    pub types: Vec<Ty>,
    pub bindings: Vec<TypeBinding>,
}

#[derive(Debug, PartialEq, Eq)]
pub struct ParenthesizedParameterData {
    pub span: Span,
    pub inputs: Vec<Ty>,
    pub output: Option<Ty>,
}

/// The binding of an associated type, `A = T`.
#[derive(Debug, PartialEq, Eq)]
pub struct TypeBinding {
    pub ident: Ident,
    pub ty: Ty,
    pub span: Span,
}

#[verifier::ext_equal]
pub struct TyView {
    pub node: TyKindView,
    pub span: Span,
}

#[verifier::ext_equal]
pub enum TyKindView {
    Never,
    Tup(Seq<TyView>),
    Path(PathView),
    Infer,
}

#[verifier::ext_equal]
pub struct PathView {
    pub span: Span,
    pub segments: Seq<PathSegmentView>,
}

#[verifier::ext_equal]
pub struct PathSegmentView {
    pub identifier: Seq<char>,
    pub parameters: Option<PathParametersView>,
    pub span: Span,
}

#[verifier::ext_equal]
pub enum PathParametersView {
    AngleBracketed(AngleBracketedParameterDataView),
    Parenthesized(ParenthesizedParameterDataView),
}

#[verifier::ext_equal]
pub struct AngleBracketedParameterDataView {
    pub lifetimes: Seq<LifetimeView>,
    pub types: Seq<TyView>,
    pub bindings: Seq<TypeBindingView>,
}

#[verifier::ext_equal]
pub struct ParenthesizedParameterDataView {
    pub span: Span,
    pub inputs: Seq<TyView>,
    pub output: Option<TyView>,
}

#[verifier::ext_equal]
pub struct TypeBindingView {
    pub ident: Seq<char>,
    pub ty: TyView,
    pub span: Span,
}

pub open spec fn ty_view(ty: Ty) -> TyView
    decreases ty,
{
    TyView { node: ty_kind_view(ty.node), span: ty.span }
}

pub open spec fn ty_kind_view(kind: TyKind) -> TyKindView
    decreases kind,
{
    match kind {
        TyKind::Never => TyKindView::Never,
        TyKind::Tup(tys) => TyKindView::Tup(tys_view(tys@)),
        TyKind::Path(path) => TyKindView::Path(path_view(path)),
        TyKind::Infer => TyKindView::Infer,
    }
}

pub open spec fn tys_view(tys: Seq<Ty>) -> Seq<TyView>
    decreases tys,
{
    Seq::new(
        tys.len(),
        |i: int|
            if 0 <= i < tys.len() {
                ty_view(tys[i])
            } else {
                arbitrary()
            },
    )
}

pub open spec fn option_ty_view(ty: Option<Ty>) -> Option<TyView>
    decreases ty,
{
    match ty {
        Some(t) => Some(ty_view(t)),
        None => None,
    }
}

pub open spec fn path_view(path: Path) -> PathView
    decreases path,
{
    PathView { span: path.span, segments: segments_view(path.segments@) }
}

pub open spec fn segments_view(segments: Seq<PathSegment>) -> Seq<PathSegmentView>
    decreases segments,
{
    Seq::new(
        segments.len(),
        |i: int|
            if 0 <= i < segments.len() {
                segment_view(segments[i])
            } else {
                arbitrary()
            },
    )
}

pub open spec fn segment_view(segment: PathSegment) -> PathSegmentView
    decreases segment,
{
    PathSegmentView {
        identifier: segment.identifier@,
        parameters: match segment.parameters {
            Some(parameters) => Some(parameters_view(parameters)),
            None => None,
        },
        span: segment.span,
    }
}

pub open spec fn parameters_view(parameters: PathParameters) -> PathParametersView
    decreases parameters,
{
    match parameters {
        PathParameters::AngleBracketed(data) => PathParametersView::AngleBracketed(
            AngleBracketedParameterDataView {
                lifetimes: views(data.lifetimes@),
                types: tys_view(data.types@),
                bindings: bindings_view(data.bindings@),
            },
        ),
        PathParameters::Parenthesized(data) => PathParametersView::Parenthesized(
            ParenthesizedParameterDataView {
                span: data.span,
                inputs: tys_view(data.inputs@),
                output: option_ty_view(data.output),
            },
        ),
    }
}

pub open spec fn bindings_view(bindings: Seq<TypeBinding>) -> Seq<TypeBindingView>
    decreases bindings,
{
    Seq::new(
        bindings.len(),
        |i: int|
            if 0 <= i < bindings.len() {
                binding_view(bindings[i])
            } else {
                arbitrary()
            },
    )
}

pub open spec fn binding_view(binding: TypeBinding) -> TypeBindingView
    decreases binding,
{
    TypeBindingView { ident: binding.ident@, ty: ty_view(binding.ty), span: binding.span }
}

impl View for Ty {
    type V = TyView;

    open spec fn view(&self) -> TyView {
        ty_view(*self)
    }
}

impl View for TyKind {
    type V = TyKindView;

    open spec fn view(&self) -> TyKindView {
        ty_kind_view(*self)
    }
}

impl View for Path {
    type V = PathView;

    open spec fn view(&self) -> PathView {
        path_view(*self)
    }
}

impl View for PathSegment {
    type V = PathSegmentView;

    open spec fn view(&self) -> PathSegmentView {
        segment_view(*self)
    }
}

impl View for PathParameters {
    type V = PathParametersView;

    open spec fn view(&self) -> PathParametersView {
        parameters_view(*self)
    }
}

impl View for TypeBinding {
    type V = TypeBindingView;

    open spec fn view(&self) -> TypeBindingView {
        binding_view(*self)
    }
}

/// Inside a type, too, the model of a list of types is the list of their
/// models.
pub proof fn lemma_tys_view(tys: Seq<Ty>)
    ensures
        tys_view(tys) == views(tys),
{
    assert(tys_view(tys) =~= views(tys));
}

/// Inside a path, too, the model of the segments is the list of their models.
pub proof fn lemma_segments_view(segments: Seq<PathSegment>)
    ensures
        segments_view(segments) == views(segments),
{
    assert(segments_view(segments) =~= views(segments));
}

/// Inside a segment, too, the model of the bindings is the list of their
/// models.
pub proof fn lemma_bindings_view(bindings: Seq<TypeBinding>)
    ensures
        bindings_view(bindings) == views(bindings),
{
    assert(bindings_view(bindings) =~= views(bindings));
}

/// The name of the segment that marks a path as global.
pub open spec fn crate_root_name() -> Seq<char> {
    "{{root}}"@
}

/// Calls `syntex_syntax::ast::PathSegment::crate_root`, the segment with
/// which the syntax crate begins a global path, and reads the text of its
/// identifier. Trusted: that identifier is the keyword `CrateRoot`, whose
/// text is `{{root}}`.
#[verifier::external_body]
fn crate_root_keyword() -> (name: String)
    ensures
        name@ == crate_root_name(),
{
    syntex_syntax::ast::PathSegment::crate_root().identifier.name.as_str().to_string()
}

impl PathSegment {
    /// The segment that marks a path as global: it stands before the first
    /// named segment of `::std::option::Option`.
    pub fn crate_root() -> (segment: PathSegment)
        ensures
            segment@ == (PathSegmentView {
                identifier: crate_root_name(),
                parameters: None,
                span: Span::dummy(),
            }),
    {
        PathSegment {
            identifier: Ident { name: crate_root_keyword() },
            parameters: None,
            span: Span::dummy(),
        }
    }
}

// ---------------------------------------------------------------------------
// Fields and variants

/// Who may name a field.
#[derive(Clone, Copy, Debug, PartialEq, Eq)]
pub enum Visibility {
    Public,
    Inherited,
}

/// One field of a struct or of a variant; a field of a tuple has no name.
#[derive(Debug, PartialEq, Eq)]
pub struct StructField {
    pub span: Span,
    pub ident: Option<Ident>,
    pub vis: Visibility,
    pub ty: Ty,
    pub attrs: Vec<Attribute>,
}

/// The payload of a variant.
#[derive(Debug, PartialEq, Eq)]
pub enum VariantData {
    /// Named fields, as in `Bar { a: u8 }`.
    Struct(Vec<StructField>),
    /// Unnamed fields, as in `Bar(u8)`.
    Tuple(Vec<StructField>),
    /// No fields, as in `Bar`.
    Unit,
}

/// A variant without its location.
#[derive(Debug, PartialEq, Eq)]
pub struct Variant_ {
    pub name: Ident,
    pub attrs: Vec<Attribute>,
    pub data: VariantData,
}

/// A variant of an enum.
#[derive(Debug, PartialEq, Eq)]
pub struct Variant {
    pub node: Variant_,
    pub span: Span,
}

#[verifier::ext_equal]
pub struct StructFieldView {
    pub span: Span,
    pub ident: Option<Seq<char>>,
    pub vis: Visibility,
    pub ty: TyView,
    pub attrs: Seq<AttributeView>,
}

#[verifier::ext_equal]
pub enum VariantDataView {
    Struct(Seq<StructFieldView>),
    Tuple(Seq<StructFieldView>),
    Unit,
}

#[verifier::ext_equal]
pub struct VariantNodeView {
    pub name: Seq<char>,
    pub attrs: Seq<AttributeView>,
    pub data: VariantDataView,
}

#[verifier::ext_equal]
pub struct VariantView {
    pub node: VariantNodeView,
    pub span: Span,
}

impl View for StructField {
    type V = StructFieldView;

    open spec fn view(&self) -> StructFieldView {
        StructFieldView {
            span: self.span,
            ident: match self.ident {
                Some(ident) => Some(ident@),
                None => None,
            },
            vis: self.vis,
            ty: self.ty@,
            attrs: views(self.attrs@),
        }
    }
}

impl View for VariantData {
    type V = VariantDataView;

    open spec fn view(&self) -> VariantDataView {
        match self {
            VariantData::Struct(fields) => VariantDataView::Struct(views(fields@)),
            VariantData::Tuple(fields) => VariantDataView::Tuple(views(fields@)),
            VariantData::Unit => VariantDataView::Unit,
        }
    }
}

impl View for Variant_ {
    type V = VariantNodeView;

    open spec fn view(&self) -> VariantNodeView {
        VariantNodeView { name: self.name@, attrs: views(self.attrs@), data: self.data@ }
    }
}

impl View for Variant {
    type V = VariantView;

    open spec fn view(&self) -> VariantView {
        VariantView { node: self.node@, span: self.span }
    }
}

} // verus!
