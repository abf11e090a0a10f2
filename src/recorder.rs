use vstd::prelude::*;
use crate::db::{
    add_location, error_recorded, file_hierarchy, file_known, file_recorded, file_refreshed,
    node_recorded, unsolved_spec,
    SourcetrailDB,
};
use crate::error::SourcetrailError;
use crate::name::{encode, NameHierarchy};
use crate::types::{valid_range, EdgeType, NodeType, SourceLocationType};

verus! {

// ---------------------------------------------------------------------------
// Node records.
// ---------------------------------------------------------------------------

/// Collects one node record: a name segment, an optional parent, whether
/// the definition is indexed, and the node's kind.
#[derive(Debug)]
pub struct NodeRecorder {
    pub name: String,
    pub prefix: String,
    pub postfix: String,
    pub delimiter: String,
    pub parent_id: Option<i64>,
    pub is_indexed: bool,
    pub node_type: NodeType,
}

impl NodeRecorder {
    /// Nothing set yet for a record of kind `kind`: empty name parts,
    /// delimiter `::`, no parent, indexed.
    pub open spec fn is_fresh(&self, kind: NodeType) -> bool {
        self.name@ == Seq::<char>::empty() && self.prefix@ == Seq::<char>::empty() && self.postfix@
            == Seq::<char>::empty() && self.delimiter@ == seq![':', ':'] && self.parent_id is None
            && self.is_indexed && self.node_type == kind
    }

    pub fn new(kind: NodeType) -> (r: Self)
        ensures
            r.is_fresh(kind),
    {
        proof {
            reveal_strlit("::");
        }
        let r = NodeRecorder {
            name: String::new(),
            prefix: String::new(),
            postfix: String::new(),
            delimiter: String::from_str(NameHierarchy::NAME_DELIMITER_CXX),
            parent_id: None,
            is_indexed: true,
            node_type: kind,
        };
        assert(r.delimiter@ =~= seq![':', ':']);
        r
    }

    pub fn set_name(&mut self, name: &str)
        ensures
            final(self).name@ == name@ && final(self).prefix == old(self).prefix && final(self).postfix
                == old(self).postfix && final(self).delimiter == old(self).delimiter
                && final(self).parent_id == old(self).parent_id
                    && final(self).is_indexed == old(self).is_indexed
                    && final(self).node_type == old(self).node_type,
    {
        self.name = String::from_str(name);
    }

    pub fn name(self, name: &str) -> (r: Self)
        ensures
            r.name@ == name@ && r.prefix == self.prefix && r.postfix == self.postfix && r.delimiter
                == self.delimiter && r.parent_id == self.parent_id && r.is_indexed == self.is_indexed
                && r.node_type == self.node_type,
    {
        NodeRecorder { name: String::from_str(name), ..self }
    }

    pub fn set_prefix(&mut self, prefix: &str)
        ensures
            final(self).prefix@ == prefix@ && final(self).name == old(self).name && final(self).postfix
                == old(self).postfix && final(self).delimiter == old(self).delimiter
                && final(self).parent_id == old(self).parent_id
                    && final(self).is_indexed == old(self).is_indexed
                    && final(self).node_type == old(self).node_type,
    {
        self.prefix = String::from_str(prefix);
    }

    pub fn prefix(self, prefix: &str) -> (r: Self)
        ensures
            r.prefix@ == prefix@ && r.name == self.name && r.postfix == self.postfix && r.delimiter
                == self.delimiter && r.parent_id == self.parent_id && r.is_indexed == self.is_indexed
                && r.node_type == self.node_type,
    {
        NodeRecorder { prefix: String::from_str(prefix), ..self }
    }

    pub fn set_postfix(&mut self, postfix: &str)
        ensures
            final(self).postfix@ == postfix@ && final(self).name == old(self).name && final(self).prefix
                == old(self).prefix && final(self).delimiter == old(self).delimiter
                && final(self).parent_id == old(self).parent_id
                    && final(self).is_indexed == old(self).is_indexed
                    && final(self).node_type == old(self).node_type,
    {
        self.postfix = String::from_str(postfix);
    }

    pub fn postfix(self, postfix: &str) -> (r: Self)
        ensures
            r.postfix@ == postfix@ && r.name == self.name && r.prefix == self.prefix && r.delimiter
                == self.delimiter && r.parent_id == self.parent_id && r.is_indexed == self.is_indexed
                && r.node_type == self.node_type,
    {
        NodeRecorder { postfix: String::from_str(postfix), ..self }
    }

    pub fn set_delimiter(&mut self, delimiter: &str)
        ensures
            final(self).delimiter@ == delimiter@ && final(self).name == old(self).name
                && final(self).prefix == old(self).prefix && final(self).postfix == old(self).postfix
                && final(self).parent_id == old(self).parent_id
                    && final(self).is_indexed == old(self).is_indexed
                    && final(self).node_type == old(self).node_type,
    {
        self.delimiter = String::from_str(delimiter);
    }

    pub fn delimiter(self, delimiter: &str) -> (r: Self)
        ensures
            r.delimiter@ == delimiter@ && r.name == self.name && r.prefix == self.prefix && r.postfix
                == self.postfix && r.parent_id == self.parent_id && r.is_indexed == self.is_indexed
                && r.node_type == self.node_type,
    {
        NodeRecorder { delimiter: String::from_str(delimiter), ..self }
    }

    pub fn set_parent(&mut self, id: Option<i64>)
        ensures
            *final(self) == (NodeRecorder { parent_id: id, ..*old(self) }),
    {
        self.parent_id = id;
    }

    /// Nests the record under the node `id`.
    pub fn parent(self, id: i64) -> (r: Self)
        ensures
            r == (NodeRecorder { parent_id: Some(id), ..self }),
    {
        NodeRecorder { parent_id: Some(id), ..self }
    }

    pub fn set_indexed(&mut self, indexed: bool)
        ensures
            *final(self) == (NodeRecorder { is_indexed: indexed, ..*old(self) }),
    {
        self.is_indexed = indexed;
    }

    pub fn indexed(self, indexed: bool) -> (r: Self)
        ensures
            r == (NodeRecorder { is_indexed: indexed, ..self }),
    {
        NodeRecorder { is_indexed: indexed, ..self }
    }

    /// Records the node and gives its id.
    pub fn commit(self, db: &mut SourcetrailDB) -> (r: Result<i64, SourcetrailError>)
        requires
            old(db)@.wf(),
        ensures
            final(db)@.wf(),
            node_recorded(
                old(db)@,
                final(db)@,
                r,
                self.name@,
                self.prefix@,
                self.postfix@,
                self.delimiter@,
                self.parent_id,
                self.is_indexed,
                self.node_type,
            ),
    {
        db.full_record_node(
            self.name.as_str(),
            self.prefix.as_str(),
            self.postfix.as_str(),
            self.delimiter.as_str(),
            self.parent_id,
            self.is_indexed,
            self.node_type,
        )
    }
}

// ---------------------------------------------------------------------------
// Source locations.
// ---------------------------------------------------------------------------

/// The reason a span record is refused before anything is written, if any.
/// Fields are checked in order: symbol, file, start, end, then the ordering.
pub open spec fn span_refusal(
    symbol: Option<i64>,
    file: Option<i64>,
    start: Option<(i32, i32)>,
    end: Option<(i32, i32)>,
) -> Option<Seq<char>> {
    if symbol is None {
        Some("missing symbol"@)
    } else if file is None {
        Some("missing file"@)
    } else if start is None {
        Some("missing start position"@)
    } else if end is None {
        Some("missing end position"@)
    } else {
        None
    }
}

pub open spec fn span_ordered(start: Option<(i32, i32)>, end: Option<(i32, i32)>) -> bool {
    match (start, end) {
        (Some((sl, sc)), Some((el, ec))) => valid_range(sl, sc, el, ec),
        _ => false,
    }
}

/// Collects one span record: the element it belongs to, the file, and the
/// start and end positions, each unset until given.
#[derive(Debug)]
pub struct SourceLocationRecorder {
    pub symbol_id: Option<i64>,
    pub file_id: Option<i64>,
    pub start: Option<(i32, i32)>,
    pub end: Option<(i32, i32)>,
    pub location_kind: SourceLocationType,
}

impl SourceLocationRecorder {
    /// A record of kind `kind` with nothing set.
    pub open spec fn new_spec(kind: SourceLocationType) -> SourceLocationRecorder {
        SourceLocationRecorder { symbol_id: None, file_id: None, start: None, end: None, location_kind: kind }
    }

    pub fn new(kind: SourceLocationType) -> (r: Self)
        ensures
            r == Self::new_spec(kind),
    {
        SourceLocationRecorder { symbol_id: None, file_id: None, start: None, end: None, location_kind: kind }
    }

    pub fn set_symbol(&mut self, id: i64)
        ensures
            *final(self) == (SourceLocationRecorder { symbol_id: Some(id), ..*old(self) }),
    {
        self.symbol_id = Some(id);
    }

    pub fn symbol(self, id: i64) -> (r: Self)
        ensures
            r == (SourceLocationRecorder { symbol_id: Some(id), ..self }),
    {
        SourceLocationRecorder { symbol_id: Some(id), ..self }
    }

    pub fn set_file(&mut self, id: i64)
        ensures
            *final(self) == (SourceLocationRecorder { file_id: Some(id), ..*old(self) }),
    {
        self.file_id = Some(id);
    }

    pub fn file(self, id: i64) -> (r: Self)
        ensures
            r == (SourceLocationRecorder { file_id: Some(id), ..self }),
    {
        SourceLocationRecorder { file_id: Some(id), ..self }
    }

    pub fn set_start_position(&mut self, line: i32, column: i32)
        ensures
            *final(self) == (SourceLocationRecorder { start: Some((line, column)), ..*old(self) }),
    {
        self.start = Some((line, column));
    }

    pub fn start_position(self, line: i32, column: i32) -> (r: Self)
        ensures
            r == (SourceLocationRecorder { start: Some((line, column)), ..self }),
    {
        SourceLocationRecorder { start: Some((line, column)), ..self }
    }

    pub fn set_end_position(&mut self, line: i32, column: i32)
        ensures
            *final(self) == (SourceLocationRecorder { end: Some((line, column)), ..*old(self) }),
    {
        self.end = Some((line, column));
    }

    pub fn end_position(self, line: i32, column: i32) -> (r: Self)
        ensures
            r == (SourceLocationRecorder { end: Some((line, column)), ..self }),
    {
        SourceLocationRecorder { end: Some((line, column)), ..self }
    }

    /// Validates the record, then writes the span and its occurrence.
    pub fn commit(self, db: &mut SourcetrailDB) -> (r: Result<(), SourcetrailError>)
        requires
            old(db)@.wf(),
        ensures
            final(db)@.wf(),
            span_refusal(self.symbol_id, self.file_id, self.start, self.end) matches Some(m) ==> (r matches Err(
                SourcetrailError::SourceLocationBuilder(t),
            ) && t@ == m && final(db)@ == old(db)@),
            span_refusal(self.symbol_id, self.file_id, self.start, self.end) is None && !span_ordered(
                self.start,
                self.end,
            ) ==> r == Err::<(), SourcetrailError>(SourcetrailError::InvalidSourceRange)
                && final(db)@ == old(db)@,
            span_refusal(self.symbol_id, self.file_id, self.start, self.end) is None && span_ordered(
                self.start,
                self.end,
            ) && !old(db)@.has_room(1) ==> (r matches Err(e) && e is Database) && final(db)@ == old(db)@,
            span_refusal(self.symbol_id, self.file_id, self.start, self.end) is None && span_ordered(
                self.start,
                self.end,
            ) && old(db)@.has_room(1) ==> r is Ok && final(db)@ == add_location(
                old(db)@,
                self.symbol_id->Some_0,
                self.file_id->Some_0,
                self.start->Some_0.0,
                self.start->Some_0.1,
                self.end->Some_0.0,
                self.end->Some_0.1,
                self.location_kind,
            ),
    {
        let symbol_id = match self.symbol_id {
            Some(id) => id,
            None => return Err(SourcetrailError::source_location("missing symbol")),
        };
        let file_id = match self.file_id {
            Some(id) => id,
            None => return Err(SourcetrailError::source_location("missing file")),
        };
        let (start_line, start_column) = match self.start {
            Some(p) => p,
            None => return Err(SourcetrailError::source_location("missing start position")),
        };
        let (end_line, end_column) = match self.end {
            Some(p) => p,
            None => return Err(SourcetrailError::source_location("missing end position")),
        };
        db.record_source_location(
            symbol_id,
            file_id,
            start_line,
            start_column,
            end_line,
            end_column,
            self.location_kind,
        )
    }
}


// ---------------------------------------------------------------------------
// References to unsolved symbols.
// ---------------------------------------------------------------------------

/// Collects one reference whose target could not be resolved; it will point
/// at the shared placeholder node.
#[derive(Debug)]
pub struct UnsolvedSymbolRecorder {
    pub symbol_id: Option<i64>,
    pub reference_type: Option<EdgeType>,
    pub file_id: Option<i64>,
    pub start: Option<(i32, i32)>,
    pub end: Option<(i32, i32)>,
}

impl UnsolvedSymbolRecorder {
    /// A record with nothing set.
    pub open spec fn new_spec() -> UnsolvedSymbolRecorder {
        UnsolvedSymbolRecorder { symbol_id: None, reference_type: None, file_id: None, start: None, end: None }
    }

    pub fn new() -> (r: Self)
        ensures
            r == Self::new_spec(),
    {
        UnsolvedSymbolRecorder { symbol_id: None, reference_type: None, file_id: None, start: None, end: None }
    }

    pub fn set_symbol(&mut self, id: i64)
        ensures
            *final(self) == (UnsolvedSymbolRecorder { symbol_id: Some(id), ..*old(self) }),
    {
        self.symbol_id = Some(id);
    }

    pub fn symbol(self, id: i64) -> (r: Self)
        ensures
            r == (UnsolvedSymbolRecorder { symbol_id: Some(id), ..self }),
    {
        UnsolvedSymbolRecorder { symbol_id: Some(id), ..self }
    }

    pub fn set_reference_type(&mut self, kind: EdgeType)
        ensures
            *final(self) == (UnsolvedSymbolRecorder { reference_type: Some(kind), ..*old(self) }),
    {
        self.reference_type = Some(kind);
    }

    pub fn reference_type(self, kind: EdgeType) -> (r: Self)
        ensures
            r == (UnsolvedSymbolRecorder { reference_type: Some(kind), ..self }),
    {
        UnsolvedSymbolRecorder { reference_type: Some(kind), ..self }
    }

    pub fn set_file(&mut self, id: i64)
        ensures
            *final(self) == (UnsolvedSymbolRecorder { file_id: Some(id), ..*old(self) }),
    {
        self.file_id = Some(id);
    }

    pub fn file(self, id: i64) -> (r: Self)
        ensures
            r == (UnsolvedSymbolRecorder { file_id: Some(id), ..self }),
    {
        UnsolvedSymbolRecorder { file_id: Some(id), ..self }
    }

    pub fn set_start_position(&mut self, line: i32, column: i32)
        ensures
            *final(self) == (UnsolvedSymbolRecorder { start: Some((line, column)), ..*old(self) }),
    {
        self.start = Some((line, column));
    }

    pub fn start_position(self, line: i32, column: i32) -> (r: Self)
        ensures
            r == (UnsolvedSymbolRecorder { start: Some((line, column)), ..self }),
    {
        UnsolvedSymbolRecorder { start: Some((line, column)), ..self }
    }

    pub fn set_end_position(&mut self, line: i32, column: i32)
        ensures
            *final(self) == (UnsolvedSymbolRecorder { end: Some((line, column)), ..*old(self) }),
    {
        self.end = Some((line, column));
    }

    pub fn end_position(self, line: i32, column: i32) -> (r: Self)
        ensures
            r == (UnsolvedSymbolRecorder { end: Some((line, column)), ..self }),
    {
        UnsolvedSymbolRecorder { end: Some((line, column)), ..self }
    }

    /// Validates the record (symbol, file, start, end, ordering, then
    /// reference type), then records an edge of the reference type from the
    /// symbol to the shared placeholder and an `Unsolved` span tied to the
    /// edge; gives the edge's id.
    pub fn commit(self, db: &mut SourcetrailDB) -> (r: Result<i64, SourcetrailError>)
        requires
            old(db)@.wf(),
        ensures
            final(db)@.wf(),
            span_refusal(self.symbol_id, self.file_id, self.start, self.end) matches Some(m) ==> (r matches Err(
                SourcetrailError::UnsolvedSymbolBuilder(t),
            ) && t@ == m && final(db)@ == old(db)@),
            span_refusal(self.symbol_id, self.file_id, self.start, self.end) is None && !span_ordered(
                self.start,
                self.end,
            ) ==> r == Err::<i64, SourcetrailError>(SourcetrailError::InvalidSourceRange)
                && final(db)@ == old(db)@,
            span_refusal(self.symbol_id, self.file_id, self.start, self.end) is None && span_ordered(
                self.start,
                self.end,
            ) && self.reference_type is None ==> (r matches Err(
                SourcetrailError::UnsolvedSymbolBuilder(t),
            ) && t@ == "missing reference type"@ && final(db)@ == old(db)@),
            span_refusal(self.symbol_id, self.file_id, self.start, self.end) is None && span_ordered(
                self.start,
                self.end,
            ) && self.reference_type is Some && !old(db)@.has_room(4) ==> (r matches Err(e)
                && e is Database) && final(db)@ == old(db)@,
            span_refusal(self.symbol_id, self.file_id, self.start, self.end) is None && span_ordered(
                self.start,
                self.end,
            ) && self.reference_type is Some && old(db)@.has_room(4) ==> (r matches Ok(id) && (
            final(db)@, id) == unsolved_spec(
                old(db)@,
                self.symbol_id->Some_0,
                self.reference_type->Some_0,
                self.file_id->Some_0,
                self.start->Some_0.0,
                self.start->Some_0.1,
                self.end->Some_0.0,
                self.end->Some_0.1,
            )),
    {
        let symbol_id = match self.symbol_id {
            Some(id) => id,
            None => return Err(SourcetrailError::unsolved_symbol("missing symbol")),
        };
        let file_id = match self.file_id {
            Some(id) => id,
            None => return Err(SourcetrailError::unsolved_symbol("missing file")),
        };
        let (start_line, start_column) = match self.start {
            Some(p) => p,
            None => return Err(SourcetrailError::unsolved_symbol("missing start position")),
        };
        let (end_line, end_column) = match self.end {
            Some(p) => p,
            None => return Err(SourcetrailError::unsolved_symbol("missing end position")),
        };
        if start_line > end_line || (start_line == end_line && start_column >= end_column) {
            return Err(SourcetrailError::InvalidSourceRange);
        }
        let kind = match self.reference_type {
            Some(k) => k,
            None => return Err(SourcetrailError::unsolved_symbol("missing reference type")),
        };
        db.record_unsolved(symbol_id, kind, file_id, start_line, start_column, end_line, end_column)
    }
}

// ---------------------------------------------------------------------------
// Indexer errors.
// ---------------------------------------------------------------------------

/// The reason an error record is refused before anything is written, if
/// any. Checked in order: file, message, start, end.
pub open spec fn error_refusal(
    file: Option<i64>,
    message: Seq<char>,
    start: Option<(i32, i32)>,
    end: Option<(i32, i32)>,
) -> Option<Seq<char>> {
    if file is None {
        Some("missing file"@)
    } else if message.len() == 0 {
        Some("message is empty"@)
    } else if start is None {
        Some("missing start position"@)
    } else if end is None {
        Some("missing end position"@)
    } else {
        None
    }
}

/// Collects one indexer error: a message, whether it is fatal, and where it
/// occurred.
#[derive(Debug)]
pub struct ErrorRecorder {
    pub msg: String,
    pub fatal: bool,
    pub file_id: Option<i64>,
    pub start: Option<(i32, i32)>,
    pub end: Option<(i32, i32)>,
}

impl ErrorRecorder {
    pub fn new() -> (r: Self)
        ensures
            r.msg@ == Seq::<char>::empty() && !r.fatal && r.file_id is None && r.start is None
                && r.end is None,
    {
        ErrorRecorder { msg: String::new(), fatal: false, file_id: None, start: None, end: None }
    }

    pub fn set_message(&mut self, msg: &str)
        ensures
            final(self).msg@ == msg@ && final(self).fatal == old(self).fatal && final(self).file_id
                == old(self).file_id && final(self).start == old(self).start
                    && final(self).end == old(self).end,
    {
        self.msg = String::from_str(msg);
    }

    pub fn message(self, msg: &str) -> (r: Self)
        ensures
            r.msg@ == msg@ && r.fatal == self.fatal && r.file_id == self.file_id && r.start
                == self.start && r.end == self.end,
    {
        ErrorRecorder { msg: String::from_str(msg), ..self }
    }

    pub fn set_fatal(&mut self, fatal: bool)
        ensures
            *final(self) == (ErrorRecorder { fatal, ..*old(self) }),
    {
        self.fatal = fatal;
    }

    pub fn fatal(self, fatal: bool) -> (r: Self)
        ensures
            r == (ErrorRecorder { fatal, ..self }),
    {
        ErrorRecorder { fatal, ..self }
    }

    pub fn set_file(&mut self, id: i64)
        ensures
            *final(self) == (ErrorRecorder { file_id: Some(id), ..*old(self) }),
    {
        self.file_id = Some(id);
    }

    pub fn file(self, id: i64) -> (r: Self)
        ensures
            r == (ErrorRecorder { file_id: Some(id), ..self }),
    {
        ErrorRecorder { file_id: Some(id), ..self }
    }

    pub fn set_start_position(&mut self, line: i32, column: i32)
        ensures
            *final(self) == (ErrorRecorder { start: Some((line, column)), ..*old(self) }),
    {
        self.start = Some((line, column));
    }

    pub fn start_position(self, line: i32, column: i32) -> (r: Self)
        ensures
            r == (ErrorRecorder { start: Some((line, column)), ..self }),
    {
        ErrorRecorder { start: Some((line, column)), ..self }
    }

    pub fn set_end_position(&mut self, line: i32, column: i32)
        ensures
            *final(self) == (ErrorRecorder { end: Some((line, column)), ..*old(self) }),
    {
        self.end = Some((line, column));
    }

    pub fn end_position(self, line: i32, column: i32) -> (r: Self)
        ensures
            r == (ErrorRecorder { end: Some((line, column)), ..self }),
    {
        ErrorRecorder { end: Some((line, column)), ..self }
    }

    /// Validates the record, then writes an indexed error row under a new id
    /// and an `IndexerError` span tied to it.
    pub fn commit(self, db: &mut SourcetrailDB) -> (r: Result<(), SourcetrailError>)
        requires
            old(db)@.wf(),
        ensures
            final(db)@.wf(),
            error_refusal(self.file_id, self.msg@, self.start, self.end) matches Some(m) ==> (r matches Err(
                SourcetrailError::ErrorLocationBuilder(t),
            ) && t@ == m && final(db)@ == old(db)@),
            error_refusal(self.file_id, self.msg@, self.start, self.end) is None && !span_ordered(
                self.start,
                self.end,
            ) ==> r == Err::<(), SourcetrailError>(SourcetrailError::InvalidSourceRange)
                && final(db)@ == old(db)@,
            error_refusal(self.file_id, self.msg@, self.start, self.end) is None && span_ordered(
                self.start,
                self.end,
            ) && !old(db)@.has_room(2) ==> (r matches Err(e) && e is Database) && final(db)@ == old(db)@,
            error_refusal(self.file_id, self.msg@, self.start, self.end) is None && span_ordered(
                self.start,
                self.end,
            ) && old(db)@.has_room(2) ==> r is Ok && error_recorded(
                old(db)@,
                final(db)@,
                self.msg@,
                self.fatal,
                self.file_id->Some_0,
                self.start->Some_0.0,
                self.start->Some_0.1,
                self.end->Some_0.0,
                self.end->Some_0.1,
            ),
    {
        let file_id = match self.file_id {
            Some(id) => id,
            None => return Err(SourcetrailError::error_location("missing file")),
        };
        if self.msg.as_str().unicode_len() == 0 {
            return Err(SourcetrailError::error_location("message is empty"));
        }
        let (start_line, start_column) = match self.start {
            Some(p) => p,
            None => return Err(SourcetrailError::error_location("missing start position")),
        };
        let (end_line, end_column) = match self.end {
            Some(p) => p,
            None => return Err(SourcetrailError::error_location("missing end position")),
        };
        if start_line > end_line || (start_line == end_line && start_column >= end_column) {
            return Err(SourcetrailError::InvalidSourceRange);
        }
        db.record_error_with(
            self.msg.as_str(),
            self.fatal,
            file_id,
            start_line,
            start_column,
            end_line,
            end_column,
        )
    }
}

// ---------------------------------------------------------------------------
// Files.
// ---------------------------------------------------------------------------

/// Collects one file record. `modification_time` counts seconds since the
/// Unix epoch.
#[derive(Debug)]
pub struct FileRecorder {
    pub path: Option<String>,
    pub modification_time: i64,
    pub content: String,
    pub indexed: bool,
}

impl FileRecorder {
    /// No path, modified at `now` (the caller's current time), empty
    /// content, indexed.
    pub fn new(now: i64) -> (r: Self)
        ensures
            r.path is None && r.modification_time == now && r.content@ == Seq::<char>::empty()
                && r.indexed,
    {
        FileRecorder { path: None, modification_time: now, content: String::new(), indexed: true }
    }

    pub fn set_path(&mut self, path: &str)
        ensures
            final(self).path matches Some(p) && p@ == path@,
            final(self).modification_time == old(self).modification_time
                && final(self).content == old(self).content
                && final(self).indexed == old(self).indexed,
    {
        self.path = Some(String::from_str(path));
    }

    pub fn path(self, path: &str) -> (r: Self)
        ensures
            r.path matches Some(p) && p@ == path@,
            r.modification_time == self.modification_time && r.content == self.content && r.indexed
                == self.indexed,
    {
        FileRecorder { path: Some(String::from_str(path)), ..self }
    }

    pub fn set_modification_time(&mut self, time: i64)
        ensures
            *final(self) == (FileRecorder { modification_time: time, ..*old(self) }),
    {
        self.modification_time = time;
    }

    pub fn modification_time(self, time: i64) -> (r: Self)
        ensures
            r == (FileRecorder { modification_time: time, ..self }),
    {
        FileRecorder { modification_time: time, ..self }
    }

    pub fn set_content(&mut self, content: &str)
        ensures
            final(self).content@ == content@ && final(self).path == old(self).path
                && final(self).modification_time == old(self).modification_time && final(self).indexed
                == old(self).indexed,
    {
        self.content = String::from_str(content);
    }

    pub fn content(self, content: &str) -> (r: Self)
        ensures
            r.content@ == content@ && r.path == self.path && r.modification_time
                == self.modification_time && r.indexed == self.indexed,
    {
        FileRecorder { content: String::from_str(content), ..self }
    }

    pub fn set_indexed(&mut self, indexed: bool)
        ensures
            *final(self) == (FileRecorder { indexed, ..*old(self) }),
    {
        self.indexed = indexed;
    }

    pub fn indexed(self, indexed: bool) -> (r: Self)
        ensures
            r == (FileRecorder { indexed, ..self }),
    {
        FileRecorder { indexed, ..self }
    }

    /// Records the file, or brings a file recorded before up to date, and
    /// gives the id of its node.
    pub fn commit(self, db: &mut SourcetrailDB) -> (r: Result<i64, SourcetrailError>)
        requires
            old(db)@.wf(),
        ensures
            final(db)@.wf(),
            self.path is None ==> (r matches Err(SourcetrailError::FileRecorder(t)) && t@
                == "missing file path"@ && final(db)@ == old(db)@),
            self.path is Some && file_known(old(db)@, self.path->Some_0@) ==> r == Ok::<
                i64,
                SourcetrailError,
            >(old(db)@.names[encode(file_hierarchy(self.path->Some_0@))]) && file_refreshed(
                old(db)@,
                final(db)@,
                old(db)@.names[encode(file_hierarchy(self.path->Some_0@))],
                self.modification_time,
                self.content@,
                self.indexed,
            ),
            self.path is Some && !file_known(old(db)@, self.path->Some_0@)
                && !old(db)@.has_room(1) ==> (r matches Err(
                e,
            ) && e is Database) && final(db)@ == old(db)@,
            self.path is Some && !file_known(old(db)@, self.path->Some_0@)
                && old(db)@.has_room(1) ==> (r matches Ok(
                id,
            ) && file_recorded(
                old(db)@,
                final(db)@,
                id,
                self.path->Some_0@,
                self.modification_time,
                self.content@,
                self.indexed,
            )),
    {
        let path = match self.path {
            Some(p) => p,
            None => return Err(SourcetrailError::file_recorder_with("missing file path")),
        };
        db.record_file_with(path.as_str(), self.modification_time, self.content.as_str(), self.indexed)
    }
}

// ---------------------------------------------------------------------------
// Where records start.
// ---------------------------------------------------------------------------

impl SourcetrailDB {
    pub fn record_node(&self, kind: NodeType) -> (r: NodeRecorder)
        ensures
            r.is_fresh(kind),
    {
        NodeRecorder::new(kind)
    }

    pub fn record_symbol_node(&self) -> (r: NodeRecorder)
        ensures
            r.is_fresh(NodeType::NodeSymbol),
    {
        self.record_node(NodeType::NodeSymbol)
    }

    pub fn record_builtin_type_node(&self) -> (r: NodeRecorder)
        ensures
            r.is_fresh(NodeType::NodeBuiltinType),
    {
        self.record_node(NodeType::NodeBuiltinType)
    }

    pub fn record_module(&self) -> (r: NodeRecorder)
        ensures
            r.is_fresh(NodeType::NodeModule),
    {
        self.record_node(NodeType::NodeModule)
    }

    pub fn record_namespace(&self) -> (r: NodeRecorder)
        ensures
            r.is_fresh(NodeType::NodeNamespace),
    {
        self.record_node(NodeType::NodeNamespace)
    }

    pub fn record_package(&self) -> (r: NodeRecorder)
        ensures
            r.is_fresh(NodeType::NodePackage),
    {
        self.record_node(NodeType::NodePackage)
    }

    pub fn record_struct(&self) -> (r: NodeRecorder)
        ensures
            r.is_fresh(NodeType::NodeStruct),
    {
        self.record_node(NodeType::NodeStruct)
    }

    pub fn record_class(&self) -> (r: NodeRecorder)
        ensures
            r.is_fresh(NodeType::NodeClass),
    {
        self.record_node(NodeType::NodeClass)
    }

    pub fn record_interface(&self) -> (r: NodeRecorder)
        ensures
            r.is_fresh(NodeType::NodeInterface),
    {
        self.record_node(NodeType::NodeInterface)
    }

    pub fn record_annotation(&self) -> (r: NodeRecorder)
        ensures
            r.is_fresh(NodeType::NodeAnnotation),
    {
        self.record_node(NodeType::NodeAnnotation)
    }

    pub fn record_global_variable(&self) -> (r: NodeRecorder)
        ensures
            r.is_fresh(NodeType::NodeGlobalVariable),
    {
        self.record_node(NodeType::NodeGlobalVariable)
    }

    pub fn record_field(&self) -> (r: NodeRecorder)
        ensures
            r.is_fresh(NodeType::NodeField),
    {
        self.record_node(NodeType::NodeField)
    }

    pub fn record_function(&self) -> (r: NodeRecorder)
        ensures
            r.is_fresh(NodeType::NodeFunction),
    {
        self.record_node(NodeType::NodeFunction)
    }

    pub fn record_method(&self) -> (r: NodeRecorder)
        ensures
            r.is_fresh(NodeType::NodeMethod),
    {
        self.record_node(NodeType::NodeMethod)
    }

    pub fn record_enum(&self) -> (r: NodeRecorder)
        ensures
            r.is_fresh(NodeType::NodeEnum),
    {
        self.record_node(NodeType::NodeEnum)
    }

    pub fn record_enum_constant(&self) -> (r: NodeRecorder)
        ensures
            r.is_fresh(NodeType::NodeEnumConstant),
    {
        self.record_node(NodeType::NodeEnumConstant)
    }

    pub fn record_typedef_node(&self) -> (r: NodeRecorder)
        ensures
            r.is_fresh(NodeType::NodeTypedef),
    {
        self.record_node(NodeType::NodeTypedef)
    }

    pub fn record_type_parameter_node(&self) -> (r: NodeRecorder)
        ensures
            r.is_fresh(NodeType::NodeTypeParameter),
    {
        self.record_node(NodeType::NodeTypeParameter)
    }

    pub fn record_type_node(&self) -> (r: NodeRecorder)
        ensures
            r.is_fresh(NodeType::NodeType),
    {
        self.record_node(NodeType::NodeType)
    }

    pub fn record_macro(&self) -> (r: NodeRecorder)
        ensures
            r.is_fresh(NodeType::NodeMacro),
    {
        self.record_node(NodeType::NodeMacro)
    }

    pub fn record_union(&self) -> (r: NodeRecorder)
        ensures
            r.is_fresh(NodeType::NodeUnion),
    {
        self.record_node(NodeType::NodeUnion)
    }

    pub fn record_reference_to_unsolved_symbol(&self) -> (r: UnsolvedSymbolRecorder)
        ensures
            r == UnsolvedSymbolRecorder::new_spec(),
    {
        UnsolvedSymbolRecorder::new()
    }

    /// A file record modified at `now`, the caller's current time.
    pub fn record_file(&self, now: i64) -> (r: FileRecorder)
        ensures
            r.path is None && r.modification_time == now && r.content@ == Seq::<char>::empty()
                && r.indexed,
    {
        FileRecorder::new(now)
    }

    pub fn record_location(&self, kind: SourceLocationType) -> (r: SourceLocationRecorder)
        ensures
            r == SourceLocationRecorder::new_spec(kind),
    {
        SourceLocationRecorder::new(kind)
    }

    pub fn record_symbol_location(&self) -> (r: SourceLocationRecorder)
        ensures
            r == SourceLocationRecorder::new_spec(SourceLocationType::Token),
    {
        self.record_location(SourceLocationType::Token)
    }

    pub fn record_symbol_scope_location(&self) -> (r: SourceLocationRecorder)
        ensures
            r == SourceLocationRecorder::new_spec(SourceLocationType::Scope),
    {
        self.record_location(SourceLocationType::Scope)
    }

    pub fn record_symbol_signature_location(&self) -> (r: SourceLocationRecorder)
        ensures
            r == SourceLocationRecorder::new_spec(SourceLocationType::Signature),
    {
        self.record_location(SourceLocationType::Signature)
    }

    pub fn record_reference_location(&self) -> (r: SourceLocationRecorder)
        ensures
            r == SourceLocationRecorder::new_spec(SourceLocationType::Token),
    {
        self.record_location(SourceLocationType::Token)
    }

    pub fn record_qualifier_location(&self) -> (r: SourceLocationRecorder)
        ensures
            r == SourceLocationRecorder::new_spec(SourceLocationType::Qualifier),
    {
        self.record_location(SourceLocationType::Qualifier)
    }

    pub fn record_local_symbol_location(&self) -> (r: SourceLocationRecorder)
        ensures
            r == SourceLocationRecorder::new_spec(SourceLocationType::LocalSymbol),
    {
        self.record_location(SourceLocationType::LocalSymbol)
    }

    pub fn record_atomic_source_range(&self) -> (r: SourceLocationRecorder)
        ensures
            r == SourceLocationRecorder::new_spec(SourceLocationType::AtomicRange),
    {
        self.record_location(SourceLocationType::AtomicRange)
    }

    pub fn record_error(&self) -> (r: ErrorRecorder)
        ensures
            r.msg@ == Seq::<char>::empty() && !r.fatal && r.file_id is None && r.start is None
                && r.end is None,
    {
        ErrorRecorder::new()
    }
}

} // verus!
