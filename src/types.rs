use vstd::prelude::*;
use crate::error::SourcetrailError;
use crate::time::{format_utc, utc_text};

verus! {

/// What an element component marks.
#[derive(Debug, Clone, Copy, PartialEq, Eq, Structural)]
pub enum ElementComponentType {
    NoComponent,
    IsAmbiguous,
}

impl ElementComponentType {
    /// The stored integer tag of this variant; tags never change.
    pub open spec fn spec_code(self) -> i32 {
        match self {
            ElementComponentType::NoComponent => 0,
            ElementComponentType::IsAmbiguous => 1,
        }
    }

    pub fn to_i32(self) -> (r: i32)
        ensures
            r == self.spec_code(),
    {
        match self {
            ElementComponentType::NoComponent => 0,
            ElementComponentType::IsAmbiguous => 1,
        }
    }

    /// The variant stored as `v`; `None` for an unknown tag.
    pub fn try_from_i32(v: i32) -> (r: Option<ElementComponentType>)
        ensures
            match r {
                Some(t) => t.spec_code() == v,
                None => forall|t: ElementComponentType| t.spec_code() != v,
            },
    {
        match v {
            0 => Some(ElementComponentType::NoComponent),
            1 => Some(ElementComponentType::IsAmbiguous),
            _ => None,
        }
    }
}

/// The kind of an edge between two nodes.
#[derive(Debug, Clone, Copy, PartialEq, Eq, Structural)]
pub enum EdgeType {
    Undefined,
    Member,
    TypeUsage,
    Usage,
    Call,
    Inheritance,
    Override,
    TypeArgument,
    TemplateSpecialization,
    Include,
    Import,
    BundledEdges,
    MacroUsage,
    AnnotationUsage,
}

impl EdgeType {
    /// The stored integer tag of this variant; tags never change.
    pub open spec fn spec_code(self) -> i32 {
        match self {
            EdgeType::Undefined => 0,
            EdgeType::Member => 1,
            EdgeType::TypeUsage => 2,
            EdgeType::Usage => 4,
            EdgeType::Call => 8,
            EdgeType::Inheritance => 16,
            EdgeType::Override => 32,
            EdgeType::TypeArgument => 64,
            EdgeType::TemplateSpecialization => 128,
            EdgeType::Include => 256,
            EdgeType::Import => 512,
            EdgeType::BundledEdges => 1024,
            EdgeType::MacroUsage => 2048,
            EdgeType::AnnotationUsage => 4096,
        }
    }

    pub fn to_i32(self) -> (r: i32)
        ensures
            r == self.spec_code(),
    {
        match self {
            EdgeType::Undefined => 0,
            EdgeType::Member => 1,
            EdgeType::TypeUsage => 2,
            EdgeType::Usage => 4,
            EdgeType::Call => 8,
            EdgeType::Inheritance => 16,
            EdgeType::Override => 32,
            EdgeType::TypeArgument => 64,
            EdgeType::TemplateSpecialization => 128,
            EdgeType::Include => 256,
            EdgeType::Import => 512,
            EdgeType::BundledEdges => 1024,
            EdgeType::MacroUsage => 2048,
            EdgeType::AnnotationUsage => 4096,
        }
    }

    /// The variant stored as `v`; `None` for an unknown tag.
    pub fn try_from_i32(v: i32) -> (r: Option<EdgeType>)
        ensures
            match r {
                Some(t) => t.spec_code() == v,
                None => forall|t: EdgeType| t.spec_code() != v,
            },
    {
        match v {
            0 => Some(EdgeType::Undefined),
            1 => Some(EdgeType::Member),
            2 => Some(EdgeType::TypeUsage),
            4 => Some(EdgeType::Usage),
            8 => Some(EdgeType::Call),
            16 => Some(EdgeType::Inheritance),
            32 => Some(EdgeType::Override),
            64 => Some(EdgeType::TypeArgument),
            128 => Some(EdgeType::TemplateSpecialization),
            256 => Some(EdgeType::Include),
            512 => Some(EdgeType::Import),
            1024 => Some(EdgeType::BundledEdges),
            2048 => Some(EdgeType::MacroUsage),
            4096 => Some(EdgeType::AnnotationUsage),
            _ => None,
        }
    }
}

/// The kind of a graph node.
#[derive(Debug, Clone, Copy, PartialEq, Eq, Structural)]
pub enum NodeType {
    NodeSymbol,
    NodeType,
    NodeBuiltinType,
    NodeModule,
    NodeNamespace,
    NodePackage,
    NodeStruct,
    NodeClass,
    NodeInterface,
    NodeAnnotation,
    NodeGlobalVariable,
    NodeField,
    NodeFunction,
    NodeMethod,
    NodeEnum,
    NodeEnumConstant,
    NodeTypedef,
    NodeTypeParameter,
    NodeFile,
    NodeMacro,
    NodeUnion,
}

impl NodeType {
    /// The stored integer tag of this variant; tags never change.
    pub open spec fn spec_code(self) -> i32 {
        match self {
            NodeType::NodeSymbol => 1,
            NodeType::NodeType => 2,
            NodeType::NodeBuiltinType => 4,
            NodeType::NodeModule => 8,
            NodeType::NodeNamespace => 16,
            NodeType::NodePackage => 32,
            NodeType::NodeStruct => 64,
            NodeType::NodeClass => 128,
            NodeType::NodeInterface => 256,
            NodeType::NodeAnnotation => 512,
            NodeType::NodeGlobalVariable => 1024,
            NodeType::NodeField => 2048,
            NodeType::NodeFunction => 4096,
            NodeType::NodeMethod => 8192,
            NodeType::NodeEnum => 16384,
            NodeType::NodeEnumConstant => 32768,
            NodeType::NodeTypedef => 65536,
            NodeType::NodeTypeParameter => 131072,
            NodeType::NodeFile => 262144,
            NodeType::NodeMacro => 524288,
            NodeType::NodeUnion => 1048576,
        }
    }

    pub fn to_i32(self) -> (r: i32)
        ensures
            r == self.spec_code(),
    {
        match self {
            NodeType::NodeSymbol => 1,
            NodeType::NodeType => 2,
            NodeType::NodeBuiltinType => 4,
            NodeType::NodeModule => 8,
            NodeType::NodeNamespace => 16,
            NodeType::NodePackage => 32,
            NodeType::NodeStruct => 64,
            NodeType::NodeClass => 128,
            NodeType::NodeInterface => 256,
            NodeType::NodeAnnotation => 512,
            NodeType::NodeGlobalVariable => 1024,
            NodeType::NodeField => 2048,
            NodeType::NodeFunction => 4096,
            NodeType::NodeMethod => 8192,
            NodeType::NodeEnum => 16384,
            NodeType::NodeEnumConstant => 32768,
            NodeType::NodeTypedef => 65536,
            NodeType::NodeTypeParameter => 131072,
            NodeType::NodeFile => 262144,
            NodeType::NodeMacro => 524288,
            NodeType::NodeUnion => 1048576,
        }
    }

    /// The variant stored as `v`; `None` for an unknown tag.
    pub fn try_from_i32(v: i32) -> (r: Option<NodeType>)
        ensures
            match r {
                Some(t) => t.spec_code() == v,
                None => forall|t: NodeType| t.spec_code() != v,
            },
    {
        match v {
            1 => Some(NodeType::NodeSymbol),
            2 => Some(NodeType::NodeType),
            4 => Some(NodeType::NodeBuiltinType),
            8 => Some(NodeType::NodeModule),
            16 => Some(NodeType::NodeNamespace),
            32 => Some(NodeType::NodePackage),
            64 => Some(NodeType::NodeStruct),
            128 => Some(NodeType::NodeClass),
            256 => Some(NodeType::NodeInterface),
            512 => Some(NodeType::NodeAnnotation),
            1024 => Some(NodeType::NodeGlobalVariable),
            2048 => Some(NodeType::NodeField),
            4096 => Some(NodeType::NodeFunction),
            8192 => Some(NodeType::NodeMethod),
            16384 => Some(NodeType::NodeEnum),
            32768 => Some(NodeType::NodeEnumConstant),
            65536 => Some(NodeType::NodeTypedef),
            131072 => Some(NodeType::NodeTypeParameter),
            262144 => Some(NodeType::NodeFile),
            524288 => Some(NodeType::NodeMacro),
            1048576 => Some(NodeType::NodeUnion),
            _ => None,
        }
    }
}

/// How a symbol was defined.
#[derive(Debug, Clone, Copy, PartialEq, Eq, Structural, PartialOrd, Ord)]
pub enum SymbolType {
    NoDefinition,
    Implicit,
    Explicit,
}

impl SymbolType {
    /// The stored integer tag of this variant; tags never change.
    pub open spec fn spec_code(self) -> i32 {
        match self {
            SymbolType::NoDefinition => 0,
            SymbolType::Implicit => 1,
            SymbolType::Explicit => 2,
        }
    }

    pub fn to_i32(self) -> (r: i32)
        ensures
            r == self.spec_code(),
    {
        match self {
            SymbolType::NoDefinition => 0,
            SymbolType::Implicit => 1,
            SymbolType::Explicit => 2,
        }
    }

    /// The variant stored as `v`; `None` for an unknown tag.
    pub fn try_from_i32(v: i32) -> (r: Option<SymbolType>)
        ensures
            match r {
                Some(t) => t.spec_code() == v,
                None => forall|t: SymbolType| t.spec_code() != v,
            },
    {
        match v {
            0 => Some(SymbolType::NoDefinition),
            1 => Some(SymbolType::Implicit),
            2 => Some(SymbolType::Explicit),
            _ => None,
        }
    }
}

/// The kind of a source span.
#[derive(Debug, Clone, Copy, PartialEq, Eq, Structural, PartialOrd, Ord)]
pub enum SourceLocationType {
    Token,
    Scope,
    Qualifier,
    LocalSymbol,
    Signature,
    AtomicRange,
    IndexerError,
    FulltextSearch,
    ScreenSearch,
    Unsolved,
}

impl SourceLocationType {
    /// The stored integer tag of this variant; tags never change.
    pub open spec fn spec_code(self) -> i32 {
        match self {
            SourceLocationType::Token => 0,
            SourceLocationType::Scope => 1,
            SourceLocationType::Qualifier => 2,
            SourceLocationType::LocalSymbol => 3,
            SourceLocationType::Signature => 4,
            SourceLocationType::AtomicRange => 5,
            SourceLocationType::IndexerError => 6,
            SourceLocationType::FulltextSearch => 7,
            SourceLocationType::ScreenSearch => 8,
            SourceLocationType::Unsolved => 9,
        }
    }

    pub fn to_i32(self) -> (r: i32)
        ensures
            r == self.spec_code(),
    {
        match self {
            SourceLocationType::Token => 0,
            SourceLocationType::Scope => 1,
            SourceLocationType::Qualifier => 2,
            SourceLocationType::LocalSymbol => 3,
            SourceLocationType::Signature => 4,
            SourceLocationType::AtomicRange => 5,
            SourceLocationType::IndexerError => 6,
            SourceLocationType::FulltextSearch => 7,
            SourceLocationType::ScreenSearch => 8,
            SourceLocationType::Unsolved => 9,
        }
    }

    /// The variant stored as `v`; `None` for an unknown tag.
    pub fn try_from_i32(v: i32) -> (r: Option<SourceLocationType>)
        ensures
            match r {
                Some(t) => t.spec_code() == v,
                None => forall|t: SourceLocationType| t.spec_code() != v,
            },
    {
        match v {
            0 => Some(SourceLocationType::Token),
            1 => Some(SourceLocationType::Scope),
            2 => Some(SourceLocationType::Qualifier),
            3 => Some(SourceLocationType::LocalSymbol),
            4 => Some(SourceLocationType::Signature),
            5 => Some(SourceLocationType::AtomicRange),
            6 => Some(SourceLocationType::IndexerError),
            7 => Some(SourceLocationType::FulltextSearch),
            8 => Some(SourceLocationType::ScreenSearch),
            9 => Some(SourceLocationType::Unsolved),
            _ => None,
        }
    }
}

/// The access level of a member.
#[derive(Debug, Clone, Copy, PartialEq, Eq, Structural, PartialOrd, Ord)]
pub enum ComponentAccessType {
    NoAccess,
    Public,
    Protected,
    Private,
    Default,
    TemplateParameter,
    TypeParameter,
}

impl ComponentAccessType {
    /// The stored integer tag of this variant; tags never change.
    pub open spec fn spec_code(self) -> i32 {
        match self {
            ComponentAccessType::NoAccess => 0,
            ComponentAccessType::Public => 1,
            ComponentAccessType::Protected => 2,
            ComponentAccessType::Private => 3,
            ComponentAccessType::Default => 4,
            ComponentAccessType::TemplateParameter => 5,
            ComponentAccessType::TypeParameter => 6,
        }
    }

    pub fn to_i32(self) -> (r: i32)
        ensures
            r == self.spec_code(),
    {
        match self {
            ComponentAccessType::NoAccess => 0,
            ComponentAccessType::Public => 1,
            ComponentAccessType::Protected => 2,
            ComponentAccessType::Private => 3,
            ComponentAccessType::Default => 4,
            ComponentAccessType::TemplateParameter => 5,
            ComponentAccessType::TypeParameter => 6,
        }
    }

    /// The variant stored as `v`; `None` for an unknown tag.
    pub fn try_from_i32(v: i32) -> (r: Option<ComponentAccessType>)
        ensures
            match r {
                Some(t) => t.spec_code() == v,
                None => forall|t: ComponentAccessType| t.spec_code() != v,
            },
    {
        match v {
            0 => Some(ComponentAccessType::NoAccess),
            1 => Some(ComponentAccessType::Public),
            2 => Some(ComponentAccessType::Protected),
            3 => Some(ComponentAccessType::Private),
            4 => Some(ComponentAccessType::Default),
            5 => Some(ComponentAccessType::TemplateParameter),
            6 => Some(ComponentAccessType::TypeParameter),
            _ => None,
        }
    }
}
/// A key/value entry of store metadata.
#[derive(Debug)]
pub struct Meta {
    pub id: i64,
    pub key: String,
    pub value: String,
}

impl Meta {
    pub fn new(id: i64, key: &str, value: &str) -> (r: Self)
        ensures
            r.id == id && r.key@ == key@ && r.value@ == value@,
    {
        Meta { id, key: String::from_str(key), value: String::from_str(value) }
    }

    pub fn id(&self) -> (r: i64)
        ensures
            r == self.id,
    {
        self.id
    }

    pub fn key(&self) -> (r: &str)
        ensures
            r@ == self.key@,
    {
        self.key.as_str()
    }

    pub fn value(&self) -> (r: &str)
        ensures
            r@ == self.value@,
    {
        self.value.as_str()
    }
}

/// An allocated entity id.
#[derive(Debug)]
pub struct Element {
    pub id: i64,
}

impl Element {
    pub fn new(id: i64) -> (r: Self)
        ensures
            r.id == id,
    {
        Element { id }
    }

    pub fn id(&self) -> (r: i64)
        ensures
            r == self.id,
    {
        self.id
    }
}

/// A flag attached to an element, such as an ambiguous reference.
#[derive(Debug)]
pub struct ElementComponent {
    pub id: i64,
    pub elem_id: i64,
    pub type_: ElementComponentType,
    pub data: String,
}

impl ElementComponent {
    pub fn new(id: i64, elem_id: i64, type_: ElementComponentType, data: &str) -> (r: Self)
        ensures
            r.id == id && r.elem_id == elem_id && r.type_ == type_ && r.data@ == data@,
    {
        ElementComponent { id, elem_id, type_, data: String::from_str(data) }
    }

    pub fn id(&self) -> (r: i64)
        ensures
            r == self.id,
    {
        self.id
    }

    pub fn elem_id(&self) -> (r: i64)
        ensures
            r == self.elem_id,
    {
        self.elem_id
    }

    pub fn component_type(&self) -> (r: ElementComponentType)
        ensures
            r == self.type_,
    {
        self.type_
    }

    pub fn data(&self) -> (r: &str)
        ensures
            r@ == self.data@,
    {
        self.data.as_str()
    }
}

/// A typed edge from a source node to a target node.
#[derive(Debug, Clone, Copy, PartialEq, Eq, Structural)]
pub struct Edge {
    pub id: i64,
    pub type_: EdgeType,
    pub src: i64,
    pub dst: i64,
}

impl Edge {
    pub fn new(id: i64, type_: EdgeType, src: i64, dst: i64) -> (r: Self)
        ensures
            r == (Edge { id, type_, src, dst }),
    {
        Edge { id, type_, src, dst }
    }

    pub fn id(&self) -> (r: i64)
        ensures
            r == self.id,
    {
        self.id
    }

    pub fn type_(&self) -> (r: EdgeType)
        ensures
            r == self.type_,
    {
        self.type_
    }

    pub fn source_id(&self) -> (r: i64)
        ensures
            r == self.src,
    {
        self.src
    }

    pub fn target_id(&self) -> (r: i64)
        ensures
            r == self.dst,
    {
        self.dst
    }
}

/// What a graph node holds: its id, kind and encoded name.
pub struct NodeView {
    pub id: i64,
    pub kind: NodeType,
    pub name: Seq<char>,
}

/// A graph node.
#[derive(Debug)]
pub struct Node {
    pub id: i64,
    pub type_: NodeType,
    pub name: String,
}

impl View for Node {
    type V = NodeView;

    open spec fn view(&self) -> NodeView {
        NodeView { id: self.id, kind: self.type_, name: self.name@ }
    }
}

impl Node {
    pub fn new(id: i64, type_: NodeType, name: &str) -> (r: Self)
        ensures
            r@ == (NodeView { id, kind: type_, name: name@ }),
    {
        Node { id, type_, name: String::from_str(name) }
    }

    pub fn id(&self) -> (r: i64)
        ensures
            r == self.id,
    {
        self.id
    }

    pub fn type_(&self) -> (r: NodeType)
        ensures
            r == self.type_,
    {
        self.type_
    }

    pub fn set_type(&mut self, type_: NodeType)
        ensures
            final(self)@ == (NodeView { kind: type_, ..old(self)@ }),
    {
        self.type_ = type_;
    }

    pub fn name(&self) -> (r: &str)
        ensures
            r@ == self.name@,
    {
        self.name.as_str()
    }
}

/// The definition record of a symbol node.
#[derive(Debug, Clone, Copy, PartialEq, Eq, Structural)]
pub struct Symbol {
    pub id: i64,
    pub definition_kind: SymbolType,
}

impl Symbol {
    pub fn new(id: i64, definition_kind: SymbolType) -> (r: Self)
        ensures
            r == (Symbol { id, definition_kind }),
    {
        Symbol { id, definition_kind }
    }

    pub fn id(&self) -> (r: i64)
        ensures
            r == self.id,
    {
        self.id
    }

    pub fn definition_kind(&self) -> (r: SymbolType)
        ensures
            r == self.definition_kind,
    {
        self.definition_kind
    }

    pub fn set_definition_kind(&mut self, kind: SymbolType)
        ensures
            *final(self) == (Symbol { definition_kind: kind, ..*old(self) }),
    {
        self.definition_kind = kind;
    }
}

/// A source file known to the store. `modification_time` counts seconds
/// since the Unix epoch, in UTC.
#[derive(Debug)]
pub struct File {
    pub id: i64,
    pub path: String,
    pub language: String,
    pub modification_time: i64,
    pub indexed: bool,
    pub complete: bool,
    pub line_count: u32,
}

impl File {
    pub fn new(
        id: i64,
        path: &str,
        language: &str,
        modification_time: i64,
        indexed: bool,
        complete: bool,
        line_count: u32,
    ) -> (r: Self)
        ensures
            r.id == id && r.path@ == path@ && r.language@ == language@ && r.modification_time
                == modification_time && r.indexed == indexed && r.complete == complete
                && r.line_count == line_count,
    {
        File {
            id,
            path: String::from_str(path),
            language: String::from_str(language),
            modification_time,
            indexed,
            complete,
            line_count,
        }
    }

    pub fn builder() -> (r: FileBuilder)
        ensures
            r == FileBuilder::empty(),
    {
        FileBuilder::new()
    }

    pub fn id(&self) -> (r: i64)
        ensures
            r == self.id,
    {
        self.id
    }

    pub fn path(&self) -> (r: &str)
        ensures
            r@ == self.path@,
    {
        self.path.as_str()
    }

    pub fn modification_time(&self) -> (r: i64)
        ensures
            r == self.modification_time,
    {
        self.modification_time
    }

    /// The modification time as `YYYY-MM-DD HH:MM:SS` in UTC; `None` where the
    /// time lies outside the calendar range.
    pub fn modification_time_str(&self) -> (r: Option<String>)
        ensures
            r matches Some(s) ==> s@ == utc_text(self.modification_time as int),
    {
        format_utc(self.modification_time)
    }

    pub fn language(&self) -> (r: &str)
        ensures
            r@ == self.language@,
    {
        self.language.as_str()
    }

    pub fn set_language(&mut self, language: &str)
        ensures
            final(self).language@ == language@,
            final(self).id == old(self).id,
            final(self).path == old(self).path,
            final(self).modification_time == old(self).modification_time,
            final(self).indexed == old(self).indexed,
            final(self).complete == old(self).complete,
            final(self).line_count == old(self).line_count,
    {
        self.language = String::from_str(language);
    }

    pub fn is_indexed(&self) -> (r: bool)
        ensures
            r == self.indexed,
    {
        self.indexed
    }

    pub fn is_complete(&self) -> (r: bool)
        ensures
            r == self.complete,
    {
        self.complete
    }

    pub fn line_count(&self) -> (r: u32)
        ensures
            r == self.line_count,
    {
        self.line_count
    }
}

/// Collects the fields of a [`File`]; building fails while any is unset.
#[derive(Debug)]
pub struct FileBuilder {
    pub id: Option<i64>,
    pub path: Option<String>,
    pub language: Option<String>,
    pub modification_time: Option<i64>,
    pub indexed: Option<bool>,
    pub complete: Option<bool>,
    pub line_count: Option<u32>,
}

impl FileBuilder {
    /// A builder with no field set.
    pub open spec fn empty() -> FileBuilder {
        FileBuilder {
            id: None,
            path: None,
            language: None,
            modification_time: None,
            indexed: None,
            complete: None,
            line_count: None,
        }
    }

    /// Every field is set.
    pub open spec fn complete_fields(&self) -> bool {
        self.id is Some && self.path is Some && self.language is Some
            && self.modification_time is Some && self.indexed is Some && self.complete is Some
            && self.line_count is Some
    }

    pub fn new() -> (r: Self)
        ensures
            r == Self::empty(),
    {
        FileBuilder {
            id: None,
            path: None,
            language: None,
            modification_time: None,
            indexed: None,
            complete: None,
            line_count: None,
        }
    }

    pub fn id(self, id: i64) -> (r: Self)
        ensures
            r == (FileBuilder { id: Some(id), ..self }),
    {
        FileBuilder { id: Some(id), ..self }
    }

    pub fn path(self, path: &str) -> (r: Self)
        ensures
            r.path matches Some(p) && p@ == path@,
            r.id == self.id && r.language == self.language && r.modification_time
                == self.modification_time && r.indexed == self.indexed && r.complete
                == self.complete && r.line_count == self.line_count,
    {
        FileBuilder { path: Some(String::from_str(path)), ..self }
    }

    pub fn language(self, language: &str) -> (r: Self)
        ensures
            r.language matches Some(l) && l@ == language@,
            r.id == self.id && r.path == self.path && r.modification_time
                == self.modification_time && r.indexed == self.indexed && r.complete
                == self.complete && r.line_count == self.line_count,
    {
        FileBuilder { language: Some(String::from_str(language)), ..self }
    }

    pub fn modification_time(self, time: i64) -> (r: Self)
        ensures
            r == (FileBuilder { modification_time: Some(time), ..self }),
    {
        FileBuilder { modification_time: Some(time), ..self }
    }

    pub fn indexed(self, indexed: bool) -> (r: Self)
        ensures
            r == (FileBuilder { indexed: Some(indexed), ..self }),
    {
        FileBuilder { indexed: Some(indexed), ..self }
    }

    pub fn complete(self, complete: bool) -> (r: Self)
        ensures
            r == (FileBuilder { complete: Some(complete), ..self }),
    {
        FileBuilder { complete: Some(complete), ..self }
    }

    pub fn line_count(self, line_count: u32) -> (r: Self)
        ensures
            r == (FileBuilder { line_count: Some(line_count), ..self }),
    {
        FileBuilder { line_count: Some(line_count), ..self }
    }

    /// The file, or `Builder` naming the first field left unset.
    pub fn build(self) -> (r: Result<File, SourcetrailError>)
        ensures
            self.complete_fields() ==> (r matches Ok(f) && f.id == self.id->Some_0 && f.path
                == self.path->Some_0 && f.language == self.language->Some_0
                && f.modification_time == self.modification_time->Some_0 && f.indexed
                == self.indexed->Some_0 && f.complete == self.complete->Some_0 && f.line_count
                == self.line_count->Some_0),
            !self.complete_fields() ==> r matches Err(SourcetrailError::Builder(_)),
    {
        match (
            self.id,
            self.path,
            self.language,
            self.modification_time,
            self.indexed,
            self.complete,
            self.line_count,
        ) {
            (
                Some(id),
                Some(path),
                Some(language),
                Some(modification_time),
                Some(indexed),
                Some(complete),
                Some(line_count),
            ) => Ok(
                File { id, path, language, modification_time, indexed, complete, line_count },
            ),
            _ => Err(SourcetrailError::Builder(String::from_str("a file field is not set"))),
        }
    }
}

/// The full text of an indexed file.
#[derive(Debug)]
pub struct FileContent {
    pub id: i64,
    pub content: String,
}

impl FileContent {
    pub fn new(id: i64, content: &str) -> (r: Self)
        ensures
            r.id == id && r.content@ == content@,
    {
        FileContent { id, content: String::from_str(content) }
    }

    pub fn id(&self) -> (r: i64)
        ensures
            r == self.id,
    {
        self.id
    }

    pub fn content(&self) -> (r: &str)
        ensures
            r@ == self.content@,
    {
        self.content.as_str()
    }

    pub fn set_content(&mut self, content: &str)
        ensures
            final(self).id == old(self).id && final(self).content@ == content@,
    {
        self.content = String::from_str(content);
    }
}

/// A symbol local to a function body, keyed by name.
#[derive(Debug)]
pub struct LocalSymbol {
    pub id: i64,
    pub name: String,
}

impl LocalSymbol {
    pub fn new(id: i64, name: &str) -> (r: Self)
        ensures
            r.id == id && r.name@ == name@,
    {
        LocalSymbol { id, name: String::from_str(name) }
    }

    pub fn id(&self) -> (r: i64)
        ensures
            r == self.id,
    {
        self.id
    }

    pub fn name(&self) -> (r: &str)
        ensures
            r@ == self.name@,
    {
        self.name.as_str()
    }

    pub fn set_name(&mut self, name: &str)
        ensures
            final(self).id == old(self).id && final(self).name@ == name@,
    {
        self.name = String::from_str(name);
    }
}

/// The ordering invariant of a span: it ends after it starts, and a span on
/// one line ends at a later column.
pub open spec fn valid_range(start_line: i32, start_column: i32, end_line: i32, end_column: i32) -> bool {
    start_line < end_line || (start_line == end_line && start_column < end_column)
}

/// What a span holds.
pub struct SourceLocationView {
    pub id: i64,
    pub file_node_id: i64,
    pub start_line: i32,
    pub start_column: i32,
    pub end_line: i32,
    pub end_column: i32,
    pub type_: SourceLocationType,
}

impl SourceLocationView {
    /// The span meets the ordering invariant.
    pub open spec fn ordered(self) -> bool {
        valid_range(self.start_line, self.start_column, self.end_line, self.end_column)
    }
}

/// A span of a file. Every value meets the ordering invariant: it can only
/// be built through [`SourceLocation::new`] or a builder that checks it.
#[derive(Debug)]
pub struct SourceLocation {
    id: i64,
    file_node_id: i64,
    start_line: i32,
    start_column: i32,
    end_line: i32,
    end_column: i32,
    type_: SourceLocationType,
}

impl View for SourceLocation {
    type V = SourceLocationView;

    closed spec fn view(&self) -> SourceLocationView {
        SourceLocationView {
            id: self.id,
            file_node_id: self.file_node_id,
            start_line: self.start_line,
            start_column: self.start_column,
            end_line: self.end_line,
            end_column: self.end_column,
            type_: self.type_,
        }
    }
}

impl SourceLocation {
    #[verifier::type_invariant]
    spec fn inv(self) -> bool {
        valid_range(self.start_line, self.start_column, self.end_line, self.end_column)
    }

    /// The span, or `InvalidSourceRange` where it violates the ordering
    /// invariant.
    pub fn new(
        id: i64,
        file_node_id: i64,
        start_line: i32,
        start_column: i32,
        end_line: i32,
        end_column: i32,
        type_: SourceLocationType,
    ) -> (r: Result<Self, SourcetrailError>)
        ensures
            valid_range(start_line, start_column, end_line, end_column) ==> (r matches Ok(l) && l@
                == (SourceLocationView {
                id,
                file_node_id,
                start_line,
                start_column,
                end_line,
                end_column,
                type_,
            })),
            !valid_range(start_line, start_column, end_line, end_column) ==> r matches Err(
                SourcetrailError::InvalidSourceRange,
            ),
    {
        if start_line > end_line {
            return Err(SourcetrailError::InvalidSourceRange);
        }
        if start_line == end_line && start_column >= end_column {
            return Err(SourcetrailError::InvalidSourceRange);
        }
        Ok(SourceLocation { id, file_node_id, start_line, start_column, end_line, end_column, type_ })
    }

    /// A fresh builder; the span itself is not carried over.
    pub fn builder(self) -> (r: SourceLocationBuilder)
        ensures
            r == SourceLocationBuilder::empty(),
    {
        SourceLocationBuilder::new()
    }

    pub fn id(&self) -> (r: i64)
        ensures
            r == self@.id,
            self@.ordered(),
    {
        proof {
            use_type_invariant(self);
        }
        self.id
    }

    pub fn file_node_id(&self) -> (r: i64)
        ensures
            r == self@.file_node_id,
            self@.ordered(),
    {
        proof {
            use_type_invariant(self);
        }
        self.file_node_id
    }

    pub fn start_line(&self) -> (r: i32)
        ensures
            r == self@.start_line,
            self@.ordered(),
    {
        proof {
            use_type_invariant(self);
        }
        self.start_line
    }

    pub fn start_column(&self) -> (r: i32)
        ensures
            r == self@.start_column,
            self@.ordered(),
    {
        proof {
            use_type_invariant(self);
        }
        self.start_column
    }

    pub fn end_line(&self) -> (r: i32)
        ensures
            r == self@.end_line,
            self@.ordered(),
    {
        proof {
            use_type_invariant(self);
        }
        self.end_line
    }

    pub fn end_column(&self) -> (r: i32)
        ensures
            r == self@.end_column,
            self@.ordered(),
    {
        proof {
            use_type_invariant(self);
        }
        self.end_column
    }

    pub fn location_type(&self) -> (r: SourceLocationType)
        ensures
            r == self@.type_,
            self@.ordered(),
    {
        proof {
            use_type_invariant(self);
        }
        self.type_
    }
}

/// Collects the fields of a [`SourceLocation`]; the ordering of whatever
/// positions are set is checked first, then every field must be set.
#[derive(Debug, Clone, Copy, PartialEq, Eq, Structural)]
pub struct SourceLocationBuilder {
    pub id: Option<i64>,
    pub file_node_id: Option<i64>,
    pub start_line: Option<i32>,
    pub start_column: Option<i32>,
    pub end_line: Option<i32>,
    pub end_column: Option<i32>,
    pub type_: Option<SourceLocationType>,
}

impl SourceLocationBuilder {
    /// A builder with no field set.
    pub open spec fn empty() -> SourceLocationBuilder {
        SourceLocationBuilder {
            id: None,
            file_node_id: None,
            start_line: None,
            start_column: None,
            end_line: None,
            end_column: None,
            type_: None,
        }
    }

    /// The positions that are set do not contradict the ordering invariant.
    pub open spec fn ordered(&self) -> bool {
        match (self.start_line, self.end_line) {
            (Some(s), Some(e)) => s <= e && (s == e ==> match (self.start_column, self.end_column) {
                (Some(a), Some(b)) => a < b,
                _ => true,
            }),
            _ => true,
        }
    }

    pub open spec fn complete_fields(&self) -> bool {
        self.id is Some && self.file_node_id is Some && self.start_line is Some
            && self.start_column is Some && self.end_line is Some && self.end_column is Some
            && self.type_ is Some
    }

    pub fn new() -> (r: Self)
        ensures
            r == Self::empty(),
    {
        SourceLocationBuilder {
            id: None,
            file_node_id: None,
            start_line: None,
            start_column: None,
            end_line: None,
            end_column: None,
            type_: None,
        }
    }

    pub fn id(self, id: i64) -> (r: Self)
        ensures
            r == (SourceLocationBuilder { id: Some(id), ..self }),
    {
        SourceLocationBuilder { id: Some(id), ..self }
    }

    pub fn file_node_id(self, id: i64) -> (r: Self)
        ensures
            r == (SourceLocationBuilder { file_node_id: Some(id), ..self }),
    {
        SourceLocationBuilder { file_node_id: Some(id), ..self }
    }

    pub fn start_line(self, v: i32) -> (r: Self)
        ensures
            r == (SourceLocationBuilder { start_line: Some(v), ..self }),
    {
        SourceLocationBuilder { start_line: Some(v), ..self }
    }

    pub fn start_column(self, v: i32) -> (r: Self)
        ensures
            r == (SourceLocationBuilder { start_column: Some(v), ..self }),
    {
        SourceLocationBuilder { start_column: Some(v), ..self }
    }

    pub fn end_line(self, v: i32) -> (r: Self)
        ensures
            r == (SourceLocationBuilder { end_line: Some(v), ..self }),
    {
        SourceLocationBuilder { end_line: Some(v), ..self }
    }

    pub fn end_column(self, v: i32) -> (r: Self)
        ensures
            r == (SourceLocationBuilder { end_column: Some(v), ..self }),
    {
        SourceLocationBuilder { end_column: Some(v), ..self }
    }

    pub fn location_type(self, t: SourceLocationType) -> (r: Self)
        ensures
            r == (SourceLocationBuilder { type_: Some(t), ..self }),
    {
        SourceLocationBuilder { type_: Some(t), ..self }
    }

    /// Checks the ordering of the positions that are set.
    pub fn validate(&self) -> (r: Result<(), String>)
        ensures
            r is Ok <==> self.ordered(),
    {
        if let (Some(start), Some(end)) = (self.start_line, self.end_line) {
            if start > end {
                return Err(String::from_str("start_line must be less than end_line"));
            }
            if start == end {
                if let (Some(start), Some(end)) = (self.start_column, self.end_column) {
                    if start >= end {
                        return Err(
                            String::from_str("start_column must be less than end_column (same line)"),
                        );
                    }
                }
            }
        }
        Ok(())
    }

    /// The span, or `Builder` where the positions are out of order or a field
    /// is unset.
    pub fn build(&self) -> (r: Result<SourceLocation, SourcetrailError>)
        ensures
            self.ordered() && self.complete_fields() ==> (r matches Ok(l) && l@ == (SourceLocationView {
                id: self.id->Some_0,
                file_node_id: self.file_node_id->Some_0,
                start_line: self.start_line->Some_0,
                start_column: self.start_column->Some_0,
                end_line: self.end_line->Some_0,
                end_column: self.end_column->Some_0,
                type_: self.type_->Some_0,
            })),
            !(self.ordered() && self.complete_fields()) ==> r matches Err(SourcetrailError::Builder(_)),
    {
        match self.validate() {
            Ok(()) => {},
            Err(m) => return Err(SourcetrailError::Builder(m)),
        }
        match (
            self.id,
            self.file_node_id,
            self.start_line,
            self.start_column,
            self.end_line,
            self.end_column,
            self.type_,
        ) {
            (
                Some(id),
                Some(file_node_id),
                Some(start_line),
                Some(start_column),
                Some(end_line),
                Some(end_column),
                Some(type_),
            ) => Ok(
                SourceLocation {
                    id,
                    file_node_id,
                    start_line,
                    start_column,
                    end_line,
                    end_column,
                    type_,
                },
            ),
            _ => Err(SourcetrailError::Builder(String::from_str("a source location field is not set"))),
        }
    }
}

/// Ties an element to a span.
#[derive(Debug, Clone, Copy, PartialEq, Eq, Structural)]
pub struct Occurrence {
    pub element_id: i64,
    pub source_location_id: i64,
}

impl Occurrence {
    pub fn new(element_id: i64, source_location_id: i64) -> (r: Self)
        ensures
            r == (Occurrence { element_id, source_location_id }),
    {
        Occurrence { element_id, source_location_id }
    }

    pub fn element_id(&self) -> (r: i64)
        ensures
            r == self.element_id,
    {
        self.element_id
    }

    pub fn source_location_id(&self) -> (r: i64)
        ensures
            r == self.source_location_id,
    {
        self.source_location_id
    }
}

/// The access level recorded for a node.
#[derive(Debug, Clone, Copy, PartialEq, Eq, Structural)]
pub struct ComponentAccess {
    pub node_id: i64,
    pub type_: ComponentAccessType,
}

impl ComponentAccess {
    pub fn new(node_id: i64, type_: ComponentAccessType) -> (r: Self)
        ensures
            r == (ComponentAccess { node_id, type_ }),
    {
        ComponentAccess { node_id, type_ }
    }

    pub fn id(&self) -> (r: i64)
        ensures
            r == self.node_id,
    {
        self.node_id
    }

    pub fn access_type(&self) -> (r: ComponentAccessType)
        ensures
            r == self.type_,
    {
        self.type_
    }
}

/// An indexer error.
#[derive(Debug)]
pub struct Error {
    pub id: i64,
    pub message: String,
    pub fatal: bool,
    pub indexed: bool,
    pub translation_unit: String,
}

impl Error {
    pub fn new(id: i64, message: &str, fatal: bool, indexed: bool, translation_unit: &str) -> (r: Self)
        ensures
            r.id == id && r.message@ == message@ && r.fatal == fatal && r.indexed == indexed
                && r.translation_unit@ == translation_unit@,
    {
        Error {
            id,
            message: String::from_str(message),
            fatal,
            indexed,
            translation_unit: String::from_str(translation_unit),
        }
    }

    pub fn id(&self) -> (r: i64)
        ensures
            r == self.id,
    {
        self.id
    }

    pub fn message(&self) -> (r: &str)
        ensures
            r@ == self.message@,
    {
        self.message.as_str()
    }

    pub fn is_fatal(&self) -> (r: bool)
        ensures
            r == self.fatal,
    {
        self.fatal
    }

    pub fn is_indexed(&self) -> (r: bool)
        ensures
            r == self.indexed,
    {
        self.indexed
    }

    pub fn translation_unit(&self) -> (r: &str)
        ensures
            r@ == self.translation_unit@,
    {
        self.translation_unit.as_str()
    }
}

/// Collects the fields of an [`Error`]; `fatal` and `indexed` default to
/// false, the others must be set.
#[derive(Debug)]
pub struct ErrorBuilder {
    pub id: Option<i64>,
    pub message: Option<String>,
    pub fatal: Option<bool>,
    pub indexed: Option<bool>,
    pub translation_unit: Option<String>,
}

pub open spec fn flag_or_false(o: Option<bool>) -> bool {
    match o {
        Some(b) => b,
        None => false,
    }
}

impl ErrorBuilder {
    pub fn new() -> (r: Self)
        ensures
            r.id is None && r.message is None && r.fatal is None && r.indexed is None
                && r.translation_unit is None,
    {
        ErrorBuilder { id: None, message: None, fatal: None, indexed: None, translation_unit: None }
    }

    pub fn id(self, id: i64) -> (r: Self)
        ensures
            r == (ErrorBuilder { id: Some(id), ..self }),
    {
        ErrorBuilder { id: Some(id), ..self }
    }

    pub fn message(self, message: &str) -> (r: Self)
        ensures
            r.message matches Some(m) && m@ == message@,
            r.id == self.id && r.fatal == self.fatal && r.indexed == self.indexed
                && r.translation_unit == self.translation_unit,
    {
        ErrorBuilder { message: Some(String::from_str(message)), ..self }
    }

    pub fn fatal(self, fatal: bool) -> (r: Self)
        ensures
            r == (ErrorBuilder { fatal: Some(fatal), ..self }),
    {
        ErrorBuilder { fatal: Some(fatal), ..self }
    }

    pub fn indexed(self, indexed: bool) -> (r: Self)
        ensures
            r == (ErrorBuilder { indexed: Some(indexed), ..self }),
    {
        ErrorBuilder { indexed: Some(indexed), ..self }
    }

    pub fn translation_unit(self, unit: &str) -> (r: Self)
        ensures
            r.translation_unit matches Some(t) && t@ == unit@,
            r.id == self.id && r.message == self.message && r.fatal == self.fatal && r.indexed
                == self.indexed,
    {
        ErrorBuilder { translation_unit: Some(String::from_str(unit)), ..self }
    }

    /// The error record, or `Builder` where the id, message or translation
    /// unit is unset.
    pub fn build(self) -> (r: Result<Error, SourcetrailError>)
        ensures
            (self.id is Some && self.message is Some && self.translation_unit is Some) ==> (r matches Ok(
                e,
            ) && e.id == self.id->Some_0 && e.message == self.message->Some_0 && e.fatal
                == flag_or_false(self.fatal) && e.indexed == flag_or_false(self.indexed)
                && e.translation_unit == self.translation_unit->Some_0),
            !(self.id is Some && self.message is Some && self.translation_unit is Some) ==> r matches Err(
                SourcetrailError::Builder(_),
            ),
    {
        let fatal = match self.fatal {
            Some(b) => b,
            None => false,
        };
        let indexed = match self.indexed {
            Some(b) => b,
            None => false,
        };
        match (self.id, self.message, self.translation_unit) {
            (Some(id), Some(message), Some(translation_unit)) => Ok(
                Error { id, message, fatal, indexed, translation_unit },
            ),
            _ => Err(SourcetrailError::Builder(String::from_str("an error field is not set"))),
        }
    }
}

} // verus!
