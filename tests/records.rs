use sourcetrail::db::SourcetrailDB;
use sourcetrail::types::{
    ComponentAccessType, ErrorBuilder, File, EdgeType, NodeType, SourceLocation, SourceLocationBuilder, SourceLocationType,
    SymbolType,
};
use sourcetrail::SourcetrailError;

#[test]
fn location_same_line_same_column_is_refused() {
    let mut db = SourcetrailDB::new("test");
    let r = db.record_symbol_location().symbol(1).file(2).start_position(5, 10).end_position(5, 10).commit(&mut db);
    assert!(matches!(r, Err(SourcetrailError::InvalidSourceRange)));
    assert_eq!(db.source_locations().len(), 0);
    let ok = db.record_symbol_location().symbol(1).file(2).start_position(5, 10).end_position(5, 11).commit(&mut db);
    assert!(ok.is_ok());
    assert_eq!(db.source_locations().len(), 1);
    assert_eq!(db.occurrences()[0].element_id(), 1);
    assert_eq!(db.occurrences()[0].source_location_id(), db.source_locations()[0].id());
}

#[test]
fn location_missing_fields() {
    let mut db = SourcetrailDB::new("test");
    let r = db.record_symbol_scope_location().file(2).start_position(1, 1).end_position(2, 1).commit(&mut db);
    assert!(matches!(r, Err(SourcetrailError::SourceLocationBuilder(m)) if m == "missing symbol"));
    let r = db.record_qualifier_location().symbol(1).start_position(1, 1).end_position(2, 1).commit(&mut db);
    assert!(matches!(r, Err(SourcetrailError::SourceLocationBuilder(m)) if m == "missing file"));
    let r = db.record_local_symbol_location().symbol(1).file(1).end_position(2, 1).commit(&mut db);
    assert!(matches!(r, Err(SourcetrailError::SourceLocationBuilder(m)) if m == "missing start position"));
    let r = db.record_atomic_source_range().symbol(1).file(1).start_position(2, 1).commit(&mut db);
    assert!(matches!(r, Err(SourcetrailError::SourceLocationBuilder(m)) if m == "missing end position"));
    let r = db.record_symbol_signature_location().symbol(0).file(0).start_position(0, 0).end_position(1, 0).commit(&mut db);
    assert!(r.is_ok());
    let r = db.record_reference_location().symbol(1).file(1).start_position(3, 0).end_position(2, 9).commit(&mut db);
    assert!(matches!(r, Err(SourcetrailError::InvalidSourceRange)));
}

#[test]
fn error_record_requires_message() {
    let mut db = SourcetrailDB::new("test");
    let f = db.record_file(0).path("a.c").commit(&mut db).unwrap();
    let r = db.record_error().message("").file(f).start_position(1, 0).end_position(1, 5).commit(&mut db);
    assert!(matches!(r, Err(SourcetrailError::ErrorLocationBuilder(m)) if m == "message is empty"));
    assert_eq!(db.errors().len(), 0);
    let r = db.record_error().message("boom").fatal(true).file(f).start_position(1, 0).end_position(1, 5).commit(&mut db);
    assert!(r.is_ok());
    assert_eq!(db.errors().len(), 1);
    assert_eq!(db.errors()[0].message(), "boom");
    assert!(db.errors()[0].is_fatal());
    assert!(db.errors()[0].is_indexed());
    assert_eq!(db.source_locations().len(), 1);
    assert_eq!(db.source_locations()[0].location_type(), SourceLocationType::IndexerError);
    assert_eq!(db.occurrences()[0].element_id(), db.errors()[0].id());
}

#[test]
fn error_record_missing_file_and_bad_range() {
    let mut db = SourcetrailDB::new("test");
    let r = db.record_error().message("m").start_position(1, 0).end_position(1, 5).commit(&mut db);
    assert!(matches!(r, Err(SourcetrailError::ErrorLocationBuilder(m)) if m == "missing file"));
    let r = db.record_error().message("m").file(1).start_position(2, 0).end_position(1, 5).commit(&mut db);
    assert!(matches!(r, Err(SourcetrailError::InvalidSourceRange)));
}

#[test]
fn source_location_constructor_checks_range() {
    assert!(matches!(SourceLocation::new(1, 2, 3, 4, 3, 4, SourceLocationType::Token), Err(SourcetrailError::InvalidSourceRange)));
    assert!(matches!(SourceLocation::new(1, 2, 4, 1, 3, 9, SourceLocationType::Token), Err(SourcetrailError::InvalidSourceRange)));
    let l = SourceLocation::new(1, 2, 3, 9, 4, 1, SourceLocationType::Scope).unwrap();
    assert_eq!((l.start_line(), l.start_column(), l.end_line(), l.end_column()), (3, 9, 4, 1));
}

#[test]
fn source_location_builder_validates() {
    let b = SourceLocationBuilder::new().start_line(5).end_line(5).start_column(10).end_column(10);
    assert!(b.validate().is_err());
    assert!(matches!(b.build(), Err(SourcetrailError::Builder(_))));
    let b = SourceLocationBuilder::new()
        .id(1)
        .file_node_id(2)
        .start_line(5)
        .start_column(10)
        .end_line(5)
        .end_column(11)
        .location_type(SourceLocationType::Token);
    assert!(b.validate().is_ok());
    let l = b.build().unwrap();
    assert_eq!(l.file_node_id(), 2);
}

#[test]
fn tags_round_trip() {
    assert_eq!(NodeType::NodeClass.to_i32(), 128);
    assert!(matches!(NodeType::try_from_i32(1 << 18), Some(NodeType::NodeFile)));
    assert!(NodeType::try_from_i32(3).is_none());
    assert!(matches!(EdgeType::try_from_i32(0), Some(EdgeType::Undefined)));
    assert_eq!(SymbolType::Explicit.to_i32(), 2);
    assert_eq!(SourceLocationType::try_from_i32(9), Some(SourceLocationType::Unsolved));
    assert_eq!(ComponentAccessType::try_from_i32(7), None);
}

#[test]
fn file_builder_needs_every_field() {
    assert!(matches!(File::builder().id(1).path("a").build(), Err(SourcetrailError::Builder(_))));
    let f = File::builder()
        .id(1)
        .path("a.rs")
        .language("rust")
        .modification_time(86_400)
        .indexed(true)
        .complete(false)
        .line_count(3)
        .build()
        .unwrap();
    assert_eq!(f.path(), "a.rs");
    assert_eq!(f.modification_time_str().unwrap(), "1970-01-02 00:00:00");
    assert!(!f.is_complete());
}

#[test]
fn error_builder_defaults_flags() {
    assert!(matches!(ErrorBuilder::new().id(1).build(), Err(SourcetrailError::Builder(_))));
    let e = ErrorBuilder::new().id(1).message("m").translation_unit("tu").build().unwrap();
    assert!(!e.is_fatal());
    assert!(!e.is_indexed());
    assert_eq!(e.translation_unit(), "tu");
}
