use annotations::Annotations;
use annotations::Attr;
use annotations::CommentKind;
use annotations::CommentNode;
use annotations::FieldAccessorKind;
use annotations::parse_accessor;

fn elem(tag: &str, attrs: &[(&str, &str)], children: Vec<CommentNode>) -> CommentNode {
    CommentNode {
        kind: CommentKind::HtmlStartTag,
        tag_name: tag.to_string(),
        attrs: attrs
            .iter()
            .map(|(n, v)| Attr { name: n.to_string(), value: v.to_string() })
            .collect(),
        children,
    }
}

fn other(children: Vec<CommentNode>) -> CommentNode {
    CommentNode {
        kind: CommentKind::Other,
        tag_name: String::new(),
        attrs: Vec::new(),
        children,
    }
}

#[test]
fn no_div_yields_absence() {
    let tree = other(vec![other(vec![]), other(vec![other(vec![])])]);
    assert!(Annotations::new(&tree).is_none());
}

#[test]
fn div_named_otherwise_yields_absence() {
    let tree = elem("span", &[("rustbindgen", ""), ("opaque", "")], vec![]);
    assert!(Annotations::new(&tree).is_none());
}

#[test]
fn non_start_tag_div_yields_absence() {
    let mut tree = other(vec![]);
    tree.tag_name = "div".to_string();
    tree.attrs = vec![
        Attr { name: "rustbindgen".to_string(), value: String::new() },
        Attr { name: "opaque".to_string(), value: String::new() },
    ];
    assert!(Annotations::new(&tree).is_none());
}

#[test]
fn sentinel_alone_yields_absence() {
    let tree = elem("div", &[("rustbindgen", "")], vec![]);
    assert!(Annotations::new(&tree).is_none());
}

#[test]
fn sentinel_not_first_yields_absence() {
    let tree = elem("div", &[("opaque", ""), ("rustbindgen", "")], vec![]);
    assert!(Annotations::new(&tree).is_none());
}

#[test]
fn opaque_directive() {
    let tree = elem("div", &[("rustbindgen", ""), ("opaque", "")], vec![]);
    let a = Annotations::new(&tree).unwrap();
    assert!(a.opaque());
    assert!(!a.hidden());
    assert!(!a.disallow_copy());
    assert_eq!(a.use_instead_of(), None);
    assert_eq!(a.private_fields(), None);
    assert_eq!(a.accessor_kind(), None);
}

#[test]
fn hide_directive() {
    let tree = elem("div", &[("rustbindgen", ""), ("hide", "")], vec![]);
    let a = Annotations::new(&tree).unwrap();
    assert!(a.hidden());
    assert!(!a.opaque());
}

#[test]
fn nocopy_directive() {
    let tree = elem("div", &[("rustbindgen", ""), ("nocopy", "")], vec![]);
    let a = Annotations::new(&tree).unwrap();
    assert!(a.disallow_copy());
    assert!(!a.opaque());
    assert!(!a.hidden());
}

#[test]
fn replaces_directive() {
    let tree = elem("div", &[("rustbindgen", ""), ("replaces", "Bar")], vec![]);
    let a = Annotations::new(&tree).unwrap();
    assert_eq!(a.use_instead_of(), Some("Bar"));
}

#[test]
fn private_false_and_private_bare() {
    let tree = elem("div", &[("rustbindgen", ""), ("private", "false")], vec![]);
    let a = Annotations::new(&tree).unwrap();
    assert_eq!(a.private_fields(), Some(false));

    let tree = elem("div", &[("rustbindgen", ""), ("private", "")], vec![]);
    let a = Annotations::new(&tree).unwrap();
    assert_eq!(a.private_fields(), Some(true));
}

#[test]
fn accessor_unsafe_and_bogus() {
    let tree = elem("div", &[("rustbindgen", ""), ("accessor", "unsafe")], vec![]);
    let a = Annotations::new(&tree).unwrap();
    assert_eq!(a.accessor_kind(), Some(FieldAccessorKind::Unsafe));

    let tree = elem("div", &[("rustbindgen", ""), ("accessor", "bogus")], vec![]);
    let a = Annotations::new(&tree).unwrap();
    assert_eq!(a.accessor_kind(), Some(FieldAccessorKind::Regular));
}

#[test]
fn accessor_false_and_immutable() {
    let tree = elem("div", &[("rustbindgen", ""), ("accessor", "false")], vec![]);
    let a = Annotations::new(&tree).unwrap();
    assert_eq!(a.accessor_kind(), Some(FieldAccessorKind::NoAccessor));

    let tree = elem("div", &[("rustbindgen", ""), ("accessor", "immutable")], vec![]);
    let a = Annotations::new(&tree).unwrap();
    assert_eq!(a.accessor_kind(), Some(FieldAccessorKind::Immutable));
}

#[test]
fn unrecognized_directive_still_matches() {
    let tree = elem("div", &[("rustbindgen", ""), ("wibble", "wobble")], vec![]);
    let a = Annotations::new(&tree).unwrap();
    assert!(!a.opaque());
    assert!(!a.hidden());
    assert!(!a.disallow_copy());
    assert_eq!(a.use_instead_of(), None);
    assert_eq!(a.private_fields(), None);
    assert_eq!(a.accessor_kind(), None);
}

#[test]
fn deeply_nested_marker_is_found() {
    let marker = elem("div", &[("rustbindgen", ""), ("opaque", "")], vec![]);
    let tree = other(vec![other(vec![]), other(vec![other(vec![marker])])]);
    let a = Annotations::new(&tree).unwrap();
    assert!(a.opaque());
}

#[test]
fn two_markers_flags_or_scalars_last_write_wins() {
    let first = elem("div", &[("rustbindgen", ""), ("opaque", "")], vec![]);
    let second = elem(
        "div",
        &[("rustbindgen", ""), ("hide", ""), ("replaces", "X")],
        vec![],
    );
    let tree = other(vec![first, second]);
    let a = Annotations::new(&tree).unwrap();
    assert!(a.opaque());
    assert!(a.hidden());
    assert_eq!(a.use_instead_of(), Some("X"));
}

#[test]
fn repeated_scalar_last_write_wins() {
    let first = elem("div", &[("rustbindgen", ""), ("replaces", "First")], vec![]);
    let second = elem("div", &[("rustbindgen", ""), ("replaces", "Second")], vec![]);
    let tree = other(vec![first, second]);
    let a = Annotations::new(&tree).unwrap();
    assert_eq!(a.use_instead_of(), Some("Second"));
}

#[test]
fn marker_attributes_apply_in_document_order() {
    let tree = elem(
        "div",
        &[("rustbindgen", ""), ("accessor", "unsafe"), ("accessor", "immutable")],
        vec![],
    );
    let a = Annotations::new(&tree).unwrap();
    assert_eq!(a.accessor_kind(), Some(FieldAccessorKind::Immutable));
}

#[test]
fn default_record_is_all_defaults() {
    let a = Annotations::default();
    assert!(!a.opaque());
    assert!(!a.hidden());
    assert!(!a.disallow_copy());
    assert_eq!(a.use_instead_of(), None);
    assert_eq!(a.private_fields(), None);
    assert_eq!(a.accessor_kind(), None);
}

#[test]
fn parse_accessor_total_mapping() {
    assert_eq!(parse_accessor("false"), FieldAccessorKind::NoAccessor);
    assert_eq!(parse_accessor("unsafe"), FieldAccessorKind::Unsafe);
    assert_eq!(parse_accessor("immutable"), FieldAccessorKind::Immutable);
    assert_eq!(parse_accessor(""), FieldAccessorKind::Regular);
    assert_eq!(parse_accessor("bogus"), FieldAccessorKind::Regular);
}
