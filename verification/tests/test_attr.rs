use aster::ast::{AttrStyle, Attribute, Ident, MetaItem, MetaItemKind, Span};
use aster::attr::{AttrBuilder, AttrListBuilder};
use aster::invoke::Identity;

fn id(name: &str) -> Ident {
    Ident { name: name.to_string() }
}

fn item(name: &str, node: MetaItemKind, span: Span) -> MetaItem {
    MetaItem { name: id(name), node, span }
}

#[test]
fn test_attr_word() {
    assert_eq!(
        AttrBuilder::new().word("test"),
        Attribute {
            style: AttrStyle::Outer,
            value: item("test", MetaItemKind::Word, Span::dummy()),
            is_sugared_doc: false,
            span: Span::dummy(),
        }
    );
    assert_eq!(AttrBuilder::new().test(), AttrBuilder::new().word("test"));
    assert_eq!(AttrBuilder::new().inline(), AttrBuilder::new().word("inline"));
}

#[test]
fn test_attr_inner_and_outer() {
    assert_eq!(AttrBuilder::new().inner().word("a").style, AttrStyle::Inner);
    assert_eq!(AttrBuilder::new().inner().outer().word("a").style, AttrStyle::Outer);
    assert_eq!(AttrBuilder::new().outer().inner().word("a").style, AttrStyle::Inner);
}

#[test]
fn test_attr_name_value() {
    let at = Span { lo: 1, hi: 5 };
    assert_eq!(
        AttrBuilder::new().span(at).name_value("feature", "foo"),
        Attribute {
            style: AttrStyle::Outer,
            value: item("feature", MetaItemKind::NameValue("foo".to_string()), at),
            is_sugared_doc: false,
            span: at,
        }
    );
}

#[test]
fn test_attr_doc_is_sugared() {
    assert_eq!(
        AttrBuilder::new().doc("/// text"),
        Attribute {
            style: AttrStyle::Outer,
            value: item("doc", MetaItemKind::NameValue("/// text".to_string()), Span::dummy()),
            is_sugared_doc: true,
            span: Span::dummy(),
        }
    );
}

#[test]
fn test_attr_list_keeps_call_order() {
    let at = Span { lo: 2, hi: 4 };
    let attr = AttrBuilder::new()
        .span(at)
        .list("derive")
        .word("Clone")
        .name_value("bound", "T")
        .word("Clone")
        .with_meta_item(item("raw", MetaItemKind::Word, Span::dummy()))
        .build();
    assert_eq!(
        attr,
        Attribute {
            style: AttrStyle::Outer,
            value: item(
                "derive",
                MetaItemKind::List(vec![
                    item("Clone", MetaItemKind::Word, at),
                    item("bound", MetaItemKind::NameValue("T".to_string()), at),
                    item("Clone", MetaItemKind::Word, at),
                    item("raw", MetaItemKind::Word, Span::dummy()),
                ]),
                at
            ),
            is_sugared_doc: false,
            span: at,
        }
    );
}

#[test]
fn test_attr_nested_list_returns_to_its_parent() {
    let attr = AttrBuilder::new()
        .list("cfg")
        .list("any")
        .word("unix")
        .list("not").word("windows").build()
        .build()
        .word("test")
        .build();
    let at = Span::dummy();
    assert_eq!(
        attr.value,
        item(
            "cfg",
            MetaItemKind::List(vec![
                item(
                    "any",
                    MetaItemKind::List(vec![
                        item("unix", MetaItemKind::Word, at),
                        item("not", MetaItemKind::List(vec![item("windows", MetaItemKind::Word, at)]), at),
                    ]),
                    at
                ),
                item("test", MetaItemKind::Word, at),
            ]),
            at
        )
    );
}

#[test]
fn test_attr_empty_list() {
    let attr = AttrBuilder::new().list("allow").build();
    assert_eq!(attr.value, item("allow", MetaItemKind::List(vec![]), Span::dummy()));
}

#[test]
fn test_attr_list_standalone() {
    let at = Span { lo: 6, hi: 6 };
    let list = AttrListBuilder::new_with_callback("allow", Identity).span(at).word("dead_code").build();
    assert_eq!(
        list,
        item("allow", MetaItemKind::List(vec![item("dead_code", MetaItemKind::Word, at)]), at)
    );
}

#[test]
fn test_attr_raw_content_and_raw_node() {
    let at = Span { lo: 3, hi: 4 };
    let attr = AttrBuilder::new().span(at).inner().build_meta_item(item("x", MetaItemKind::Word, Span::dummy()));
    assert_eq!(
        attr,
        Attribute {
            style: AttrStyle::Inner,
            value: item("x", MetaItemKind::Word, Span::dummy()),
            is_sugared_doc: false,
            span: at,
        }
    );
    let forwarded = AttrBuilder::new().span(at).inner().build(Attribute {
        style: AttrStyle::Outer,
        value: item("y", MetaItemKind::Word, Span::dummy()),
        is_sugared_doc: true,
        span: Span::dummy(),
    });
    assert_eq!(
        forwarded,
        Attribute {
            style: AttrStyle::Outer,
            value: item("y", MetaItemKind::Word, Span::dummy()),
            is_sugared_doc: true,
            span: Span::dummy(),
        }
    );
}

#[test]
fn test_attr_span_last_write_wins() {
    let first = Span { lo: 1, hi: 1 };
    let last = Span { lo: 2, hi: 2 };
    assert_eq!(AttrBuilder::new().span(first).span(last).word("a").span, last);
    assert_eq!(AttrBuilder::new().word("a").span, Span::dummy());
}
