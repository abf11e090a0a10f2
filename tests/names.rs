use sourcetrail::name::{NameElement, NameElementBuilder, NameHierarchy};
use sourcetrail::SourcetrailError;

fn element(prefix: &str, name: &str, postfix: &str) -> NameElement {
    NameElementBuilder::new().prefix(prefix).name(name).postfix(postfix).build()
}

#[test]
fn encode_single_element() {
    let h = NameHierarchy::new("::", vec![element("int", "main", "()")]).unwrap();
    assert_eq!(h.serialize_name().unwrap(), "::\tmmain\tsint\tp()");
}

#[test]
fn encode_unset_parts_as_empty() {
    let h = NameHierarchy::new(".", vec![NameElement::builder().name("foo").build()]).unwrap();
    assert_eq!(h.serialize_name().unwrap(), ".\tmfoo\ts\tp");
}

#[test]
fn encode_joins_elements() {
    let h = NameHierarchy::new("::", vec![element("", "a", ""), element("p", "b", "q")]).unwrap();
    assert_eq!(h.serialize_name().unwrap(), "::\tma\ts\tp\tnb\tsp\tpq");
    assert_eq!(h.serialize_range(0, 1).unwrap(), "::\tma\ts\tp");
    assert_eq!(h.serialize_range(1, 2).unwrap(), "::\tmb\tsp\tpq");
}

#[test]
fn encode_rejects_bad_range() {
    let h = NameHierarchy::new("::", vec![element("", "a", "")]).unwrap();
    assert!(matches!(h.serialize_range(1, 1), Err(SourcetrailError::Serialize)));
    assert!(matches!(h.serialize_range(0, 2), Err(SourcetrailError::Serialize)));
}

#[test]
fn empty_hierarchy_is_refused() {
    assert!(matches!(NameHierarchy::new("::", vec![]), Err(SourcetrailError::EmptyNameHierarchy)));
}

#[test]
fn round_trip_keeps_elements_and_delimiter() {
    let h = NameHierarchy::new(
        "::",
        vec![element("", "std", ""), element("void", "vector", "<int>"), element("", "push", "(T)")],
    )
    .unwrap();
    let text = h.serialize_name().unwrap();
    let back = NameHierarchy::deserialize_name(&text).unwrap();
    assert_eq!(back.delimiter(), "::");
    assert_eq!(back.size(), 3);
    for (a, b) in h.names().iter().zip(back.names().iter()) {
        assert_eq!(a.prefix(), b.prefix());
        assert_eq!(a.name(), b.name());
        assert_eq!(a.postfix(), b.postfix());
    }
    assert_eq!(back.serialize_name().unwrap(), text);
}

#[test]
fn round_trip_makes_unset_parts_empty() {
    let h = NameHierarchy::new("/", vec![NameElement::builder().name("src/main.rs").build()]).unwrap();
    let back = NameHierarchy::deserialize_name(&h.serialize_name().unwrap()).unwrap();
    assert_eq!(back.names()[0].name(), Some("src/main.rs"));
    assert_eq!(back.names()[0].prefix(), Some(""));
    assert_eq!(back.names()[0].postfix(), Some(""));
}

#[test]
fn decode_without_meta_marker_fails() {
    assert!(matches!(NameHierarchy::deserialize_name("::a\ts\tp"), Err(SourcetrailError::Deserialize)));
}

#[test]
fn decode_empty_body_fails() {
    assert!(matches!(NameHierarchy::deserialize_name("::\tm"), Err(SourcetrailError::Deserialize)));
}

#[test]
fn decode_missing_signature_marker_fails() {
    assert!(matches!(NameHierarchy::deserialize_name("::\tma\tsb"), Err(SourcetrailError::Deserialize)));
}

#[test]
fn decode_ignores_extra_parts() {
    let h = NameHierarchy::deserialize_name("@\tmx\tsa\tpb\tpc\tsd").unwrap();
    assert_eq!(h.delimiter(), "@");
    assert_eq!(h.names()[0].name(), Some("x"));
    assert_eq!(h.names()[0].prefix(), Some("a"));
    assert_eq!(h.names()[0].postfix(), Some("b"));
}

#[test]
fn push_and_extend_elements() {
    let mut h = NameHierarchy::new("::", vec![element("", "a", "")]).unwrap();
    h.push_element(element("", "b", ""));
    h.extend_elements(vec![element("", "c", ""), element("", "d", "")]);
    assert_eq!(h.size(), 4);
    assert_eq!(h.names()[3].name(), Some("d"));
}

#[test]
fn element_setters() {
    let mut e = NameElement::new(None, Some("n".to_string()), None);
    assert_eq!(e.prefix(), None);
    e.set_prefix("p");
    e.set_name("m");
    e.set_postfix("q");
    assert_eq!(e.prefix(), Some("p"));
    assert_eq!(e.name(), Some("m"));
    assert_eq!(e.postfix(), Some("q"));
}
