use vstd::prelude::*;

verus! {

/// Every failure the library reports to its caller.
#[derive(Debug)]
pub enum SourcetrailError {
    /// The backing store failed or ran out of element ids.
    Database(String),
    /// A persisted name did not parse.
    Deserialize,
    /// A name range could not be encoded.
    Serialize,
    /// A store file could not be found or created.
    File(String),
    /// A read from disk failed.
    Io(String),
    /// No store is open.
    NoDatabaseOpen,
    /// A declared parent id has no node.
    ParentNotFound(i64),
    /// A file id has no file record.
    FileNotFound(i64),
    /// A name hierarchy was built without elements.
    EmptyNameHierarchy,
    /// A source range violates the line/column ordering.
    InvalidSourceRange,
    /// A record could not be assembled.
    Builder(String),
    /// An error record failed validation.
    ErrorLocationBuilder(String),
    /// A file record failed validation.
    FileRecorder(String),
    /// A source-location record failed validation.
    SourceLocationBuilder(String),
    /// An unsolved-symbol record failed validation.
    UnsolvedSymbolBuilder(String),
    /// A stored value has no matching tag.
    TypeConversion(String),
}

impl SourcetrailError {
    /// An error-record validation failure with the given reason.
    pub fn error_location(m: &str) -> (r: Self)
        ensures
            r matches SourcetrailError::ErrorLocationBuilder(s) && s@ == m@,
    {
        SourcetrailError::ErrorLocationBuilder(String::from_str(m))
    }

    /// A file-record validation failure with the given reason.
    pub fn file_recorder_with(m: &str) -> (r: Self)
        ensures
            r matches SourcetrailError::FileRecorder(s) && s@ == m@,
    {
        SourcetrailError::FileRecorder(String::from_str(m))
    }

    /// A source-location validation failure with the given reason.
    pub fn source_location(m: &str) -> (r: Self)
        ensures
            r matches SourcetrailError::SourceLocationBuilder(s) && s@ == m@,
    {
        SourcetrailError::SourceLocationBuilder(String::from_str(m))
    }

    /// An unsolved-symbol validation failure with the given reason.
    pub fn unsolved_symbol(m: &str) -> (r: Self)
        ensures
            r matches SourcetrailError::UnsolvedSymbolBuilder(s) && s@ == m@,
    {
        SourcetrailError::UnsolvedSymbolBuilder(String::from_str(m))
    }
}

} // verus!
