use sourcetrail::db::{count_lines, SourcetrailDB};
use sourcetrail::name::{NameElementBuilder, NameHierarchy};
use sourcetrail::types::{EdgeType, NodeType, SourceLocationType, SymbolType};
use sourcetrail::SourcetrailError;

fn hierarchy(names: &[&str]) -> NameHierarchy {
    NameHierarchy::new("::", names.iter().map(|n| NameElementBuilder::new().name(n).build()).collect())
        .unwrap()
}

#[test]
fn scenario_class_field_and_usage() {
    let mut db = SourcetrailDB::new("test");
    let a = db.record_class().name("PersonalInfo").commit(&mut db).unwrap();
    let b = db.record_field().name("first_name").parent(a).commit(&mut db).unwrap();
    let names: Vec<&str> = db.nodes().iter().map(|n| n.name()).collect();
    assert!(names.contains(&"::\tmPersonalInfo\ts\tp"));
    assert!(names.contains(&"::\tmPersonalInfo\ts\tp\tnfirst_name\ts\tp"));
    assert_eq!(db.nodes().len(), 2);
    let members: Vec<_> = db.edges().iter().filter(|e| matches!(e.type_(), EdgeType::Member)).collect();
    assert_eq!(members.len(), 1);
    assert_eq!(members[0].source_id(), a);
    assert_eq!(members[0].target_id(), b);
    let m = db.record_method().name("main").commit(&mut db).unwrap();
    let r = db.record_ref_usage(m, b).unwrap();
    let usages: Vec<_> = db.edges().iter().filter(|e| matches!(e.type_(), EdgeType::Usage)).collect();
    assert_eq!(usages.len(), 1);
    assert_eq!(usages[0].id(), r);
    assert_eq!(usages[0].source_id(), m);
    assert_eq!(usages[0].target_id(), b);
    let kinds: Vec<_> = db.nodes().iter().map(|n| (n.id(), n.type_())).collect();
    assert!(kinds.iter().any(|(id, k)| *id == a && matches!(k, NodeType::NodeClass)));
    assert!(kinds.iter().any(|(id, k)| *id == b && matches!(k, NodeType::NodeField)));
}

#[test]
fn interning_twice_is_idempotent() {
    let mut db = SourcetrailDB::new("test");
    let h = hierarchy(&["a", "b", "c"]);
    let first = db.record_symbol(&h).unwrap();
    let nodes = db.nodes().len();
    let second = db.record_symbol(&h).unwrap();
    assert_eq!(first, second);
    assert_eq!(db.nodes().len(), nodes);
}

#[test]
fn fresh_hierarchy_makes_chain() {
    let mut db = SourcetrailDB::new("test");
    let h = hierarchy(&["a", "b", "c", "d"]);
    let leaf = db.record_symbol(&h).unwrap();
    assert_eq!(db.nodes().len(), 4);
    assert_eq!(db.edges().len(), 3);
    for (i, n) in db.nodes().iter().enumerate() {
        assert_eq!(n.name(), h.serialize_range(0, i + 1).unwrap());
        assert!(matches!(n.type_(), NodeType::NodeSymbol));
    }
    for (j, e) in db.edges().iter().enumerate() {
        assert!(matches!(e.type_(), EdgeType::Member));
        assert_eq!(e.source_id(), db.nodes()[j].id());
        assert_eq!(e.target_id(), db.nodes()[j + 1].id());
    }
    assert_eq!(leaf, db.nodes()[3].id());
}

#[test]
fn shared_prefix_is_interned_once() {
    let mut db = SourcetrailDB::new("test");
    db.record_symbol(&hierarchy(&["ns", "a"])).unwrap();
    db.record_symbol(&hierarchy(&["ns", "b"])).unwrap();
    assert_eq!(db.nodes().len(), 3);
}

#[test]
fn missing_parent_writes_nothing() {
    let mut db = SourcetrailDB::new("test");
    let r = db.record_field().name("x").parent(42).commit(&mut db);
    assert!(matches!(r, Err(SourcetrailError::ParentNotFound(42))));
    assert_eq!(db.nodes().len(), 0);
    assert_eq!(db.next_id(), 1);
}

#[test]
fn indexed_node_is_explicit_and_unindexed_has_no_definition() {
    let mut db = SourcetrailDB::new("test");
    let a = db.record_function().name("f").commit(&mut db).unwrap();
    let b = db.record_function().name("g").indexed(false).commit(&mut db).unwrap();
    assert!(db.symbols().iter().any(|s| s.id() == a && s.definition_kind() == SymbolType::Explicit));
    assert!(!db.symbols().iter().any(|s| s.id() == b));
}

#[test]
fn unsolved_references_share_placeholder() {
    let mut db = SourcetrailDB::new("test");
    let f = db.record_file(0).path("a.cpp").content("x\n").commit(&mut db).unwrap();
    let s = db.record_function().name("f").commit(&mut db).unwrap();
    let e1 = db
        .record_reference_to_unsolved_symbol()
        .symbol(s)
        .reference_type(EdgeType::Call)
        .file(f)
        .start_position(1, 1)
        .end_position(1, 4)
        .commit(&mut db)
        .unwrap();
    let e2 = db
        .record_reference_to_unsolved_symbol()
        .symbol(s)
        .reference_type(EdgeType::Usage)
        .file(f)
        .start_position(2, 1)
        .end_position(2, 4)
        .commit(&mut db)
        .unwrap();
    assert_ne!(e1, e2);
    let edge = |id| *db.edges().iter().find(|e| e.id() == id).unwrap();
    assert_eq!(edge(e1).target_id(), edge(e2).target_id());
    let placeholder = db.nodes().iter().find(|n| n.id() == edge(e1).target_id()).unwrap();
    assert_eq!(placeholder.name(), "@\tmunsolved symbol\ts\tp");
    let locs: Vec<_> = db
        .occurrences()
        .iter()
        .filter(|o| o.element_id() == e1 || o.element_id() == e2)
        .map(|o| o.source_location_id())
        .collect();
    assert_eq!(locs.len(), 2);
    assert_ne!(locs[0], locs[1]);
    assert!(db.source_locations().iter().filter(|l| l.location_type() == SourceLocationType::Unsolved).count() == 2);
}

#[test]
fn unsolved_reference_needs_type() {
    let mut db = SourcetrailDB::new("test");
    let r = db
        .record_reference_to_unsolved_symbol()
        .symbol(1)
        .file(2)
        .start_position(1, 1)
        .end_position(1, 2)
        .commit(&mut db);
    assert!(matches!(r, Err(SourcetrailError::UnsolvedSymbolBuilder(m)) if m == "missing reference type"));
    assert_eq!(db.edges().len(), 0);
}

#[test]
fn all_reference_kinds() {
    let mut db = SourcetrailDB::new("test");
    db.record_ref_member(1, 2).unwrap();
    db.record_ref_type_usage(1, 2).unwrap();
    db.record_ref_usage(1, 2).unwrap();
    db.record_ref_call(1, 2).unwrap();
    db.record_ref_inheritance(1, 2).unwrap();
    db.record_ref_override(1, 2).unwrap();
    db.record_ref_type_argument(1, 2).unwrap();
    db.record_ref_template_specialization(1, 2).unwrap();
    db.record_ref_include(1, 2).unwrap();
    db.record_ref_import(1, 2).unwrap();
    db.record_ref_bundled_edges(1, 2).unwrap();
    db.record_ref_macro_usage(1, 2).unwrap();
    let last = db.record_ref_annotation_usage(1, 2).unwrap();
    let codes: Vec<i32> = db.edges().iter().map(|e| e.type_().to_i32()).collect();
    assert_eq!(codes, vec![1, 2, 4, 8, 16, 32, 64, 128, 256, 512, 1024, 2048, 4096]);
    assert_eq!(last, 13);
}

#[test]
fn ambiguous_reference_is_marked() {
    let mut db = SourcetrailDB::new("test");
    let r = db.record_ref_call(1, 2).unwrap();
    db.record_reference_is_ambiguous(r).unwrap();
    assert_eq!(db.element_components().len(), 1);
    assert_eq!(db.element_components()[0].elem_id(), r);
}

#[test]
fn local_symbols_are_keyed_by_name() {
    let mut db = SourcetrailDB::new("test");
    let a = db.record_local_symbol("x").unwrap();
    let b = db.record_local_symbol("y").unwrap();
    let c = db.record_local_symbol("x").unwrap();
    assert_eq!(a, c);
    assert_ne!(a, b);
    assert_eq!(db.local_symbols().len(), 2);
}

#[test]
fn file_record_and_language() {
    let mut db = SourcetrailDB::new("test");
    let f = db.record_file(0).path("src/a.rs").modification_time(0).content("a\nb\n\nc").commit(&mut db).unwrap();
    assert_eq!(db.files().len(), 1);
    assert_eq!(db.files()[0].line_count(), 4);
    assert_eq!(db.files()[0].path(), "src/a.rs");
    assert_eq!(db.file_contents()[0].content(), "a\nb\n\nc");
    assert_eq!(db.nodes()[0].name(), "/\tmsrc/a.rs\ts\tp");
    assert!(matches!(db.nodes()[0].type_(), NodeType::NodeFile));
    db.record_file_language(f, "rust").unwrap();
    assert_eq!(db.files()[0].language(), "rust");
    assert!(matches!(db.record_file_language(99, "c"), Err(SourcetrailError::FileNotFound(99))));
    assert_eq!(db.files()[0].modification_time_str().unwrap(), "1970-01-01 00:00:00");
}

#[test]
fn unindexed_file_has_no_content() {
    let mut db = SourcetrailDB::new("test");
    db.record_file(0).path("b.rs").indexed(false).content("x\ny\n").commit(&mut db).unwrap();
    assert_eq!(db.files()[0].line_count(), 0);
    assert_eq!(db.file_contents().len(), 0);
}

#[test]
fn file_recorded_twice_is_updated() {
    let mut db = SourcetrailDB::new("test");
    let f = db.record_file(0).path("a.rs").content("x\n").commit(&mut db).unwrap();
    db.record_file_language(f, "rust").unwrap();
    let before = db.next_id();
    let again = db.record_file(60).path("a.rs").content("x\ny\nz\n").commit(&mut db).unwrap();
    assert_eq!(again, f);
    assert_eq!(db.next_id(), before);
    assert_eq!(db.files().len(), 1);
    assert_eq!(db.files()[0].modification_time(), 60);
    assert_eq!(db.files()[0].line_count(), 3);
    assert_eq!(db.files()[0].language(), "rust");
    assert_eq!(db.file_contents().len(), 1);
    assert_eq!(db.file_contents()[0].content(), "x\ny\nz\n");
    assert_eq!(db.nodes().len(), 1);
}

#[test]
fn file_without_path_is_refused() {
    let mut db = SourcetrailDB::new("test");
    assert!(matches!(db.record_file(0).commit(&mut db), Err(SourcetrailError::FileRecorder(m)) if m == "missing file path"));
}

#[test]
fn line_counting() {
    assert_eq!(count_lines(""), 0);
    assert_eq!(count_lines("a"), 1);
    assert_eq!(count_lines("a\n"), 1);
    assert_eq!(count_lines("a\r\nb"), 2);
    assert_eq!(count_lines("\n\n"), 2);
}

#[test]
fn clear_empties_store() {
    let mut db = SourcetrailDB::new("path/x");
    db.record_class().name("A").commit(&mut db).unwrap();
    db.clear();
    assert_eq!(db.nodes().len(), 0);
    assert_eq!(db.next_id(), 1);
    assert_eq!(db.path(), "path/x");
    let again = db.record_class().name("A").commit(&mut db).unwrap();
    assert_eq!(again, 1);
}

#[test]
fn restored_nodes_are_found_again() {
    let mut db = SourcetrailDB::new("test");
    db.restore_node(7, NodeType::NodeClass, "::\tmA\ts\tp").unwrap();
    assert_eq!(db.next_id(), 8);
    let a = db.record_class().name("A").commit(&mut db).unwrap();
    assert_eq!(a, 7);
    assert_eq!(db.nodes().len(), 1);
    let b = db.record_field().name("x").parent(7).commit(&mut db).unwrap();
    assert_eq!(b, 8);
    assert!(matches!(db.restore_node(9, NodeType::NodeClass, "::\tmA\ts\tp"), Err(SourcetrailError::Database(_))));
    assert!(matches!(db.restore_node(0, NodeType::NodeClass, "other"), Err(SourcetrailError::Database(_))));
}

#[test]
fn parent_with_undecodable_name_fails() {
    let mut db = SourcetrailDB::new("test");
    db.restore_node(3, NodeType::NodeClass, "no markers").unwrap();
    let r = db.record_field().name("x").parent(3).commit(&mut db);
    assert!(matches!(r, Err(SourcetrailError::Deserialize)));
    assert_eq!(db.nodes().len(), 1);
}

#[test]
fn restored_local_symbols_and_reserved_ids() {
    let mut db = SourcetrailDB::new("test");
    db.restore_local_symbol(4, "tmp").unwrap();
    assert_eq!(db.record_local_symbol("tmp").unwrap(), 4);
    assert!(matches!(db.restore_local_symbol(5, "tmp"), Err(SourcetrailError::Database(_))));
    db.reserve_ids_through(100).unwrap();
    assert_eq!(db.next_id(), 101);
    db.reserve_ids_through(10).unwrap();
    assert_eq!(db.next_id(), 101);
    assert!(matches!(db.reserve_ids_through(i64::MAX), Err(SourcetrailError::Database(_))));
}

#[test]
fn nested_delimiter_comes_from_parent() {
    let mut db = SourcetrailDB::new("test");
    let p = db.record_package().name("java").delimiter(".").commit(&mut db).unwrap();
    let c = db.record_class().name("util").parent(p).delimiter("::").commit(&mut db).unwrap();
    let node = db.nodes().iter().find(|n| n.id() == c).unwrap();
    assert_eq!(node.name(), ".\tmjava\ts\tp\tnutil\ts\tp");
}

#[test]
fn restored_file_keeps_its_time() {
    let mut db = SourcetrailDB::new("test");
    db.restore_node(2, NodeType::NodeFile, "/\tmmain.c\ts\tp").unwrap();
    db.restore_file(2, "main.c", "c", "1970-01-02 00:00:10", true, true, 12).unwrap();
    assert_eq!(db.files()[0].modification_time(), 86_410);
    assert_eq!(db.files()[0].modification_time_str().unwrap(), "1970-01-02 00:00:10");
    db.record_file_language(2, "cpp").unwrap();
    assert_eq!(db.files()[0].language(), "cpp");
    assert!(matches!(
        db.restore_file(2, "main.c", "c", "1970-01-02 00:00:10", true, true, 12),
        Err(SourcetrailError::Database(_))
    ));
    assert!(matches!(
        db.restore_file(3, "x.c", "c", "yesterday", true, true, 1),
        Err(SourcetrailError::TypeConversion(_))
    ));
    assert_eq!(db.record_file(5).path("main.c").content("a").commit(&mut db).unwrap(), 2);
    assert_eq!(db.files()[0].modification_time(), 5);
    assert_eq!(db.file_contents()[0].content(), "a");
    assert!(matches!(db.restore_node(2, NodeType::NodeClass, "::\tmB\ts\tp"), Err(SourcetrailError::Database(_))));
}
