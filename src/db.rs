use vstd::prelude::*;
use vstd::hash_map::StringHashMap;
use crate::error::SourcetrailError;
use crate::time::{parse_utc, utc_parsed};
use crate::name::{
    decode, encode, encode_range, lemma_join_push, ElementView, HierarchyView, NameElement,
    NameHierarchy,
};
use crate::types::{
    Edge, EdgeType, ElementComponent, ElementComponentType, Error, File, FileContent, LocalSymbol,
    Node, NodeType, NodeView, Occurrence, SourceLocation, SourceLocationType, SourceLocationView,
    Symbol, SymbolType, valid_range,
};

verus! {

/// Everything the store holds. Every row id, of whatever table, comes from
/// the one counter `next_id`.
#[verifier::ext_equal]
pub struct StoreView {
    pub path: Seq<char>,
    pub next_id: int,
    pub nodes: Seq<NodeView>,
    /// The name index: each node's encoded name to its id.
    pub names: Map<Seq<char>, i64>,
    pub edges: Seq<Edge>,
    pub symbols: Seq<Symbol>,
    pub locations: Seq<SourceLocationView>,
    pub occurrences: Seq<Occurrence>,
    pub files: Seq<File>,
    pub contents: Seq<FileContent>,
    pub locals: Seq<LocalSymbol>,
    pub errors: Seq<Error>,
    pub components: Seq<ElementComponent>,
}

impl StoreView {
    /// The counter is in range, and the name index lists exactly the nodes,
    /// so that no two nodes share an encoded name.
    pub open spec fn wf(self) -> bool {
        &&& 1 <= self.next_id <= i64::MAX
        &&& forall|i: int|
            0 <= i < self.nodes.len() ==> self.names.contains_key(#[trigger] self.nodes[i].name)
                && self.names[self.nodes[i].name] == self.nodes[i].id
        &&& forall|k: Seq<char>|
            #[trigger] self.names.contains_key(k) ==> exists|i: int|
                0 <= i < self.nodes.len() && #[trigger] self.nodes[i].name == k
                    && self.nodes[i].id == self.names[k]
    }

    /// `k` more ids can be handed out.
    pub open spec fn has_room(self, k: int) -> bool {
        self.next_id + k <= i64::MAX
    }
}

/// Looks `k` up in the name index; on a miss, a node of kind `kind` named
/// `k` is created under the next id.
pub open spec fn intern_key(s: StoreView, k: Seq<char>, kind: NodeType) -> (StoreView, i64) {
    if s.names.contains_key(k) {
        (s, s.names[k])
    } else {
        let id = s.next_id as i64;
        (
            StoreView {
                next_id: s.next_id + 1,
                nodes: s.nodes.push(NodeView { id, kind, name: k }),
                names: s.names.insert(k, id),
                ..s
            },
            id,
        )
    }
}

/// The encoded name of level `i` of `h`: its first `i + 1` segments.
pub open spec fn level_key(h: HierarchyView, i: int) -> Seq<char> {
    encode_range(h, 0, i + 1)
}

/// Interns the encodings of the first `n` levels of `h`, in order, and gives
/// the ids of those levels.
pub open spec fn intern_levels(s: StoreView, h: HierarchyView, n: nat) -> (StoreView, Seq<i64>)
    decreases n,
{
    if n == 0 {
        (s, Seq::empty())
    } else {
        let (s1, ids) = intern_levels(s, h, (n - 1) as nat);
        let (s2, id) = intern_key(s1, level_key(h, n - 1), NodeType::NodeSymbol);
        (s2, ids.push(id))
    }
}

/// The membership edges of a chain of ids, one per adjacent pair, under
/// consecutive ids from `first`.
pub open spec fn chain_edges(first: int, ids: Seq<i64>) -> Seq<Edge> {
    Seq::new(
        (ids.len() - 1) as nat,
        |j: int| Edge { id: (first + j) as i64, type_: EdgeType::Member, src: ids[j], dst: ids[j + 1] },
    )
}

/// Adds the membership edges of a non-empty chain.
pub open spec fn link_chain(s: StoreView, ids: Seq<i64>) -> StoreView {
    StoreView {
        next_id: s.next_id + ids.len() - 1,
        edges: s.edges + chain_edges(s.next_id, ids),
        ..s
    }
}

/// What the graph builder does with a non-empty hierarchy: intern every
/// level, link each level to the next, and give the id of the full name.
pub open spec fn build_graph(s: StoreView, h: HierarchyView) -> (StoreView, i64) {
    let (s1, ids) = intern_levels(s, h, h.elements.len());
    (link_chain(s1, ids), ids.last())
}

/// The symbol graph of one store session.
pub struct SourcetrailDB {
    path: String,
    next_id: i64,
    nodes: Vec<Node>,
    name_cache: StringHashMap<i64>,
    edges: Vec<Edge>,
    symbols: Vec<Symbol>,
    locations: Vec<SourceLocation>,
    occurrences: Vec<Occurrence>,
    files: Vec<File>,
    contents: Vec<FileContent>,
    locals: Vec<LocalSymbol>,
    errors: Vec<Error>,
    components: Vec<ElementComponent>,
}

impl View for SourcetrailDB {
    type V = StoreView;

    closed spec fn view(&self) -> StoreView {
        StoreView {
            path: self.path@,
            next_id: self.next_id as int,
            nodes: self.nodes@.map_values(|n: Node| n@),
            names: self.name_cache@,
            edges: self.edges@,
            symbols: self.symbols@,
            locations: self.locations@.map_values(|l: SourceLocation| l@),
            occurrences: self.occurrences@,
            files: self.files@,
            contents: self.contents@,
            locals: self.locals@,
            errors: self.errors@,
            components: self.components@,
        }
    }
}

/// An empty store for the database at `path`.
pub open spec fn empty_store(path: Seq<char>) -> StoreView {
    StoreView {
        path,
        next_id: 1,
        nodes: Seq::empty(),
        names: Map::empty(),
        edges: Seq::empty(),
        symbols: Seq::empty(),
        locations: Seq::empty(),
        occurrences: Seq::empty(),
        files: Seq::empty(),
        contents: Seq::empty(),
        locals: Seq::empty(),
        errors: Seq::empty(),
        components: Seq::empty(),
    }
}

fn out_of_ids() -> (r: SourcetrailError)
    ensures
        r is Database,
{
    SourcetrailError::Database(String::from_str("element ids are exhausted"))
}

impl SourcetrailDB {
    /// An empty store for the database at `path`.
    pub fn new(path: &str) -> (r: Self)
        ensures
            r@ == empty_store(path@),
            r@.wf(),
    {
        let db = SourcetrailDB {
            path: String::from_str(path),
            next_id: 1,
            nodes: Vec::new(),
            name_cache: StringHashMap::new(),
            edges: Vec::new(),
            symbols: Vec::new(),
            locations: Vec::new(),
            occurrences: Vec::new(),
            files: Vec::new(),
            contents: Vec::new(),
            locals: Vec::new(),
            errors: Vec::new(),
            components: Vec::new(),
        };
        assert(db@ =~= empty_store(path@));
        db
    }

    pub fn path(&self) -> (r: &str)
        ensures
            r@ == self@.path,
    {
        self.path.as_str()
    }

    /// Whether `k` more ids can be handed out.
    pub fn has_room(&self, k: u32) -> (r: bool)
        requires
            self@.wf(),
        ensures
            r == self@.has_room(k as int),
    {
        self.next_id <= i64::MAX - k as i64
    }

    /// Hands out the next id.
    fn allocate(&mut self) -> (r: i64)
        requires
            old(self)@.wf(),
            old(self)@.has_room(1),
        ensures
            r == old(self)@.next_id,
            final(self)@ == (StoreView { next_id: old(self)@.next_id + 1, ..old(self)@ }),
    {
        let id = self.next_id;
        self.next_id = self.next_id + 1;
        id
    }

    /// The id of the node named `name`, creating it with kind `type_` when
    /// the name is new.
    fn add_if_not_existing(&mut self, name: &str, type_: NodeType) -> (r: i64)
        requires
            old(self)@.wf(),
            old(self)@.has_room(1),
        ensures
            (final(self)@, r) == intern_key(old(self)@, name@, type_),
            final(self)@.wf(),
    {
        match self.name_cache.get(name) {
            Some(id) => *id,
            None => {
                let ghost s = self@;
                let id = self.allocate();
                self.nodes.push(Node::new(id, type_, name));
                self.name_cache.insert(String::from_str(name), id);
                let ghost t = intern_key(s, name@, type_).0;
                assert(self@.nodes =~= t.nodes);
                assert(self@ =~= t);
                assert forall|k: Seq<char>| #[trigger] t.names.contains_key(k) implies exists|i: int|
                    0 <= i < t.nodes.len() && #[trigger] t.nodes[i].name == k && t.nodes[i].id
                        == t.names[k] by {
                    if k == name@ {
                        assert(t.nodes[s.nodes.len() as int].name == k);
                    } else {
                        let i = choose|i: int|
                            0 <= i < s.nodes.len() && #[trigger] s.nodes[i].name == k
                                && s.nodes[i].id == s.names[k];
                        assert(t.nodes[i] == s.nodes[i]);
                    }
                }
                assert forall|i: int| 0 <= i < t.nodes.len() implies t.names.contains_key(
                    #[trigger] t.nodes[i].name,
                ) && t.names[t.nodes[i].name] == t.nodes[i].id by {
                    if i < s.nodes.len() {
                        assert(t.nodes[i] == s.nodes[i]);
                    }
                }
                id
            },
        }
    }

    /// The graph builder: interns every level of `hierarchy` as a node, links
    /// each level to the next by a membership edge, and gives the id of the
    /// full name. Fails, writing nothing, when the ids could run out.
    pub fn record_symbol(&mut self, hierarchy: &NameHierarchy) -> (r: Result<i64, SourcetrailError>)
        requires
            old(self)@.wf(),
            hierarchy.wf(),
        ensures
            final(self)@.wf(),
            old(self)@.has_room(2 * hierarchy@.elements.len() as int) ==> (r matches Ok(id) && (
            final(self)@, id) == build_graph(old(self)@, hierarchy@)),
            !old(self)@.has_room(2 * hierarchy@.elements.len() as int) ==> (r matches Err(e) && e is Database
                && final(self)@ == old(self)@),
    {
        let n = hierarchy.size();
        if (self.next_id as i128) + 2 * (n as i128) > i64::MAX as i128 {
            return Err(out_of_ids());
        }
        let ghost s0 = self@;
        let ghost h = hierarchy@;
        let mut ids: Vec<i64> = Vec::new();
        let mut i: usize = 0;
        while i < n
            invariant
                n == h.elements.len(),
                h == hierarchy@,
                s0.has_room(2 * n as int),
                i <= n,
                self@.wf(),
                (self@, ids@) == intern_levels(s0, h, i as nat),
                self@.next_id <= s0.next_id + i,
            decreases n - i,
        {
            let key = match hierarchy.serialize_range(0, i + 1) {
                Ok(k) => k,
                Err(e) => return Err(e),
            };
            let id = self.add_if_not_existing(key.as_str(), NodeType::NodeSymbol);
            ids.push(id);
            i = i + 1;
        }
        let ghost s1 = self@;
        assert(ids@.len() == n) by {
            lemma_intern_levels_len(s0, h, n as nat);
        }
        let mut j: usize = 0;
        while j + 1 < n
            invariant
                n == ids@.len(),
                n >= 1,
                j < n,
                s1.wf(),
                s1.next_id <= s0.next_id + n,
                s0.has_room(2 * n as int),
                self@ == (StoreView {
                    next_id: s1.next_id + j,
                    edges: s1.edges + chain_edges(s1.next_id, ids@).take(j as int),
                    ..s1
                }),
            decreases n - j,
        {
            let eid = self.allocate();
            self.edges.push(Edge::new(eid, EdgeType::Member, ids[j], ids[j + 1]));
            assert(chain_edges(s1.next_id, ids@).take(j + 1) =~= chain_edges(s1.next_id, ids@).take(
                j as int,
            ).push(Edge { id: eid, type_: EdgeType::Member, src: ids@[j as int], dst: ids@[j + 1] }));
            j = j + 1;
            assert(self@ =~= (StoreView {
                next_id: s1.next_id + j,
                edges: s1.edges + chain_edges(s1.next_id, ids@).take(j as int),
                ..s1
            }));
        }
        assert(chain_edges(s1.next_id, ids@).take(j as int) =~= chain_edges(s1.next_id, ids@));
        assert(self@ =~= link_chain(s1, ids@));
        Ok(ids[n - 1])
    }
}

proof fn lemma_intern_levels_len(s: StoreView, h: HierarchyView, n: nat)
    ensures
        intern_levels(s, h, n).1.len() == n,
    decreases n,
{
    if n > 0 {
        lemma_intern_levels_len(s, h, (n - 1) as nat);
    }
}


/// Interning levels that are all known changes nothing and gives their ids.
proof fn lemma_intern_levels_known(s: StoreView, h: HierarchyView, n: nat)
    requires
        forall|i: int| 0 <= i < n ==> s.names.contains_key(#[trigger] level_key(h, i)),
    ensures
        intern_levels(s, h, n).0 == s,
        intern_levels(s, h, n).1 == Seq::new(n, |i: int| s.names[level_key(h, i)]),
    decreases n,
{
    if n > 0 {
        lemma_intern_levels_known(s, h, (n - 1) as nat);
        assert(intern_levels(s, h, n).1 =~= Seq::new(n, |i: int| s.names[level_key(h, i)]));
    }
}

/// After interning, every level is known under the id it was given, and
/// what was known before stays known under the same id.
proof fn lemma_intern_levels_interned(s: StoreView, h: HierarchyView, n: nat)
    ensures
        intern_levels(s, h, n).1.len() == n,
        forall|i: int|
            0 <= i < n ==> intern_levels(s, h, n).0.names.contains_key(#[trigger] level_key(h, i))
                && intern_levels(s, h, n).0.names[level_key(h, i)] == intern_levels(s, h, n).1[i],
        forall|k: Seq<char>|
            #[trigger] s.names.contains_key(k) ==> intern_levels(s, h, n).0.names.contains_key(k)
                && intern_levels(s, h, n).0.names[k] == s.names[k],
    decreases n,
{
    if n > 0 {
        lemma_intern_levels_interned(s, h, (n - 1) as nat);
    }
}

/// A non-empty segment list is a prefix of one segment longer, and the longer
/// encoding is longer.
proof fn lemma_level_key_grows(h: HierarchyView, i: int)
    requires
        0 <= i,
        i + 1 < h.elements.len(),
    ensures
        level_key(h, i).len() < level_key(h, i + 1).len(),
{
    let es = h.elements;
    assert(es.subrange(0, i + 2) =~= es.subrange(0, i + 1).push(es[i + 1]));
    lemma_join_push(es.subrange(0, i + 1), es[i + 1]);
}

/// Interning levels none of which is known creates one node per level, in
/// order, under consecutive ids.
proof fn lemma_intern_levels_fresh(s: StoreView, h: HierarchyView, n: nat)
    requires
        n <= h.elements.len(),
        forall|i: int| 0 <= i < n ==> !s.names.contains_key(#[trigger] level_key(h, i)),
    ensures
        intern_levels(s, h, n).0.next_id == s.next_id + n,
        intern_levels(s, h, n).0.nodes == s.nodes + Seq::new(
            n,
            |j: int| NodeView { id: (s.next_id + j) as i64, kind: NodeType::NodeSymbol, name: level_key(h, j) },
        ),
        intern_levels(s, h, n).0.edges == s.edges,
        intern_levels(s, h, n).1 == Seq::new(n, |j: int| (s.next_id + j) as i64),
        forall|k: Seq<char>|
            #[trigger] intern_levels(s, h, n).0.names.contains_key(k) && !s.names.contains_key(k)
                ==> n > 0 && k.len() <= level_key(h, n - 1).len(),
    decreases n,
{
    if n > 0 {
        let m = (n - 1) as nat;
        lemma_intern_levels_fresh(s, h, m);
        let t1 = intern_levels(s, h, m).0;
        let key = level_key(h, m as int);
        if m > 0 {
            lemma_level_key_grows(h, m - 1);
        }
        assert(!t1.names.contains_key(key));
        let t = intern_levels(s, h, n).0;
        assert(t.nodes =~= s.nodes + Seq::new(
            n,
            |j: int| NodeView { id: (s.next_id + j) as i64, kind: NodeType::NodeSymbol, name: level_key(h, j) },
        ));
        assert(intern_levels(s, h, n).1 =~= Seq::new(n, |j: int| (s.next_id + j) as i64));
        assert forall|k: Seq<char>| #[trigger]
            t.names.contains_key(k) && !s.names.contains_key(k) implies n > 0 && k.len()
            <= level_key(h, n - 1).len() by {
            if k != key {
                assert(t1.names.contains_key(k));
            }
        }
    }
}

/// Building the graph of `h` again, in a store whose name index is the one an
/// earlier build of `h` left, gives the same id and adds no node.
proof fn lemma_build_graph_again(s: StoreView, h: HierarchyView, t: StoreView)
    requires
        h.elements.len() > 0,
        t.names == build_graph(s, h).0.names,
    ensures
        build_graph(t, h).1 == build_graph(s, h).1,
        build_graph(t, h).0.nodes == t.nodes,
        build_graph(t, h).0.names == t.names,
        build_graph(t, h).0.next_id == t.next_id + h.elements.len() - 1,
        h.elements.len() == 1 ==> build_graph(t, h).0 == t,
{
    let n = h.elements.len();
    let (u, ids) = intern_levels(s, h, n);
    lemma_intern_levels_interned(s, h, n);
    lemma_intern_levels_known(t, h, n);
    assert(intern_levels(t, h, n).1 =~= ids);
    if n == 1 {
        assert(chain_edges(t.next_id, ids) =~= Seq::<Edge>::empty());
        assert(t.edges + chain_edges(t.next_id, ids) =~= t.edges);
        assert(build_graph(t, h).0 =~= t);
    }
}

/// Building the graph of the same hierarchy twice gives the same id both
/// times, and the second build adds no node.
pub proof fn lemma_build_graph_idempotent(s: StoreView, h: HierarchyView)
    requires
        h.elements.len() > 0,
    ensures
        build_graph(build_graph(s, h).0, h).1 == build_graph(s, h).1,
        build_graph(build_graph(s, h).0, h).0.nodes == build_graph(s, h).0.nodes,
        build_graph(build_graph(s, h).0, h).0.names == build_graph(s, h).0.names,
{
    lemma_build_graph_again(s, h, build_graph(s, h).0);
}

/// Building the graph of a hierarchy of `n` segments none of whose levels is
/// known creates exactly `n` nodes, one per level in order, and `n - 1`
/// membership edges from each level to the next, and gives the id of the
/// last node.
pub proof fn lemma_build_graph_fresh(s: StoreView, h: HierarchyView)
    requires
        h.elements.len() > 0,
        forall|i: int| 0 <= i < h.elements.len() ==> !s.names.contains_key(#[trigger] level_key(h, i)),
    ensures
        build_graph(s, h).0.nodes == s.nodes + Seq::new(
            h.elements.len(),
            |j: int| NodeView { id: (s.next_id + j) as i64, kind: NodeType::NodeSymbol, name: level_key(h, j) },
        ),
        build_graph(s, h).0.edges == s.edges + Seq::new(
            (h.elements.len() - 1) as nat,
            |j: int| Edge {
                id: (s.next_id + h.elements.len() + j) as i64,
                type_: EdgeType::Member,
                src: (s.next_id + j) as i64,
                dst: (s.next_id + j + 1) as i64,
            },
        ),
        build_graph(s, h).0.next_id == s.next_id + 2 * h.elements.len() - 1,
        build_graph(s, h).1 == (s.next_id + h.elements.len() - 1) as i64,
{
    let n = h.elements.len();
    lemma_intern_levels_fresh(s, h, n);
    let (t, ids) = intern_levels(s, h, n);
    assert(chain_edges(t.next_id, ids) =~= Seq::new(
        (n - 1) as nat,
        |j: int| Edge {
            id: (s.next_id + n + j) as i64,
            type_: EdgeType::Member,
            src: (s.next_id + j) as i64,
            dst: (s.next_id + j + 1) as i64,
        },
    ));
}


// ---------------------------------------------------------------------------
// Node kinds, definitions and references.
// ---------------------------------------------------------------------------

/// The first position at or after `i` of a node with id `id`, or -1.
pub open spec fn find_node(nodes: Seq<NodeView>, id: i64, i: int) -> int
    decreases nodes.len() - i,
{
    if i < 0 || i >= nodes.len() {
        -1
    } else if nodes[i].id == id {
        i
    } else {
        find_node(nodes, id, i + 1)
    }
}

/// Every node with id `id` takes the kind `kind`.
pub open spec fn set_kind(s: StoreView, id: i64, kind: NodeType) -> StoreView {
    StoreView {
        nodes: s.nodes.map_values(
            |n: NodeView|
                if n.id == id {
                    NodeView { kind, ..n }
                } else {
                    n
                },
        ),
        ..s
    }
}

pub open spec fn has_symbol(s: StoreView, id: i64) -> bool {
    exists|i: int| 0 <= i < s.symbols.len() && #[trigger] s.symbols[i].id == id
}

/// The definition record of `id` becomes `kind`; one is added where none
/// exists.
pub open spec fn define_symbol(s: StoreView, id: i64, kind: SymbolType) -> StoreView {
    if has_symbol(s, id) {
        StoreView {
            symbols: s.symbols.map_values(
                |y: Symbol|
                    if y.id == id {
                        Symbol { id, definition_kind: kind }
                    } else {
                        y
                    },
            ),
            ..s
        }
    } else {
        StoreView { symbols: s.symbols.push(Symbol { id, definition_kind: kind }), ..s }
    }
}

/// The hierarchy a node record resolves to: one segment under `delimiter`,
/// or, under a parent, the parent's decoded name with the segment appended.
pub open spec fn node_hierarchy(
    s: StoreView,
    name: Seq<char>,
    prefix: Seq<char>,
    postfix: Seq<char>,
    delimiter: Seq<char>,
    parent: Option<i64>,
) -> Result<HierarchyView, SourcetrailError> {
    let e = ElementView { prefix: Some(prefix), name: Some(name), postfix: Some(postfix) };
    match parent {
        None => Ok(HierarchyView { delimiter, elements: seq![e] }),
        Some(p) => {
            let i = find_node(s.nodes, p, 0);
            if i < 0 {
                Err(SourcetrailError::ParentNotFound(p))
            } else {
                match decode(s.nodes[i].name) {
                    Some(ph) => Ok(HierarchyView { elements: ph.elements.push(e), ..ph }),
                    None => Err(SourcetrailError::Deserialize),
                }
            }
        },
    }
}

/// Builds the graph of `h`, gives the leaf the kind `kind`, and, when
/// `indexed`, marks its definition explicit.
pub open spec fn record_node_spec(s: StoreView, h: HierarchyView, kind: NodeType, indexed: bool) -> (
    StoreView,
    i64,
) {
    let (s1, id) = build_graph(s, h);
    let s2 = set_kind(s1, id, kind);
    (
        if indexed {
            define_symbol(s2, id, SymbolType::Explicit)
        } else {
            s2
        },
        id,
    )
}

/// The outcome of recording a node: the resolution error with nothing
/// written, no ids left with nothing written, or the node recorded.
pub open spec fn node_recorded(
    s: StoreView,
    t: StoreView,
    r: Result<i64, SourcetrailError>,
    name: Seq<char>,
    prefix: Seq<char>,
    postfix: Seq<char>,
    delimiter: Seq<char>,
    parent: Option<i64>,
    indexed: bool,
    kind: NodeType,
) -> bool {
    match node_hierarchy(s, name, prefix, postfix, delimiter, parent) {
        Err(e) => r == Err::<i64, SourcetrailError>(e) && t == s,
        Ok(h) => if s.has_room(2 * h.elements.len() as int) {
            r matches Ok(id) && (t, id) == record_node_spec(s, h, kind, indexed)
        } else {
            (r matches Err(e) && e is Database) && t == s
        },
    }
}

/// A new edge of kind `kind` under the next id.
pub open spec fn add_edge(s: StoreView, src: i64, dst: i64, kind: EdgeType) -> StoreView {
    StoreView {
        next_id: s.next_id + 1,
        edges: s.edges.push(Edge { id: s.next_id as i64, type_: kind, src, dst }),
        ..s
    }
}

/// A reference edge was recorded from `t` to `s`, or, with no id left,
/// nothing was.
pub open spec fn reference_recorded(
    s: StoreView,
    t: StoreView,
    r: Result<i64, SourcetrailError>,
    src: i64,
    dst: i64,
    kind: EdgeType,
) -> bool {
    &&& t.wf()
    &&& s.has_room(1) ==> r == Ok::<i64, SourcetrailError>(s.next_id as i64) && t == add_edge(
        s,
        src,
        dst,
        kind,
    )
    &&& !s.has_room(1) ==> (r matches Err(e) && e is Database) && t == s
}

/// A span under the next id, and the occurrence tying `elem` to it.
pub open spec fn add_location(
    s: StoreView,
    elem: i64,
    file: i64,
    start_line: i32,
    start_column: i32,
    end_line: i32,
    end_column: i32,
    kind: SourceLocationType,
) -> StoreView {
    let lid = s.next_id as i64;
    StoreView {
        next_id: s.next_id + 1,
        locations: s.locations.push(
            SourceLocationView {
                id: lid,
                file_node_id: file,
                start_line,
                start_column,
                end_line,
                end_column,
                type_: kind,
            },
        ),
        occurrences: s.occurrences.push(Occurrence { element_id: elem, source_location_id: lid }),
        ..s
    }
}

proof fn lemma_same_names_wf(s: StoreView, t: StoreView)
    requires
        s.wf(),
        t.names == s.names,
        1 <= t.next_id <= i64::MAX,
        t.nodes.len() == s.nodes.len(),
        forall|i: int|
            0 <= i < s.nodes.len() ==> (#[trigger] t.nodes[i]).name == s.nodes[i].name
                && t.nodes[i].id == s.nodes[i].id,
    ensures
        t.wf(),
{
    assert forall|k: Seq<char>| #[trigger] t.names.contains_key(k) implies exists|i: int|
        0 <= i < t.nodes.len() && #[trigger] t.nodes[i].name == k && t.nodes[i].id == t.names[k] by {
        let i = choose|i: int|
            0 <= i < s.nodes.len() && #[trigger] s.nodes[i].name == k && s.nodes[i].id == s.names[k];
        assert(t.nodes[i].name == k);
    }
    assert forall|i: int| 0 <= i < t.nodes.len() implies t.names.contains_key(
        #[trigger] t.nodes[i].name,
    ) && t.names[t.nodes[i].name] == t.nodes[i].id by {
        assert(s.nodes[i].name == t.nodes[i].name);
    }
}

impl SourcetrailDB {
    fn find_node_index(&self, id: i64) -> (r: Option<usize>)
        ensures
            match r {
                Some(i) => find_node(self@.nodes, id, 0) == i as int && i < self@.nodes.len(),
                None => find_node(self@.nodes, id, 0) == -1,
            },
    {
        let mut i: usize = 0;
        while i < self.nodes.len()
            invariant
                find_node(self@.nodes, id, 0) == find_node(self@.nodes, id, i as int),
                self@.nodes.len() == self.nodes@.len(),
            decreases self.nodes@.len() - i,
        {
            if self.nodes[i].id == id {
                return Some(i);
            }
            i = i + 1;
        }
        None
    }

    /// Gives every node with id `id` the kind `type_`.
    fn record_symbol_kind(&mut self, id: i64, type_: NodeType)
        requires
            old(self)@.wf(),
        ensures
            final(self)@ == set_kind(old(self)@, id, type_),
            final(self)@.wf(),
    {
        let ghost s = self@;
        let ghost t = set_kind(s, id, type_);
        let mut i: usize = 0;
        while i < self.nodes.len()
            invariant
                s.wf(),
                t == set_kind(s, id, type_),
                self@ == (StoreView { nodes: self@.nodes, ..s }),
                self@.nodes.len() == s.nodes.len(),
                i <= s.nodes.len(),
                forall|j: int| 0 <= j < i ==> #[trigger] self@.nodes[j] == t.nodes[j],
                forall|j: int| i <= j < s.nodes.len() ==> #[trigger] self@.nodes[j] == s.nodes[j],
            decreases s.nodes.len() - i,
        {
            assert(self@.nodes[i as int] == s.nodes[i as int]);
            let ghost before = self@.nodes;
            if self.nodes[i].id == id {
                let updated = Node { id: self.nodes[i].id, type_, name: self.nodes[i].name.clone() };
                self.nodes.set(i, updated);
            }
            assert(self@.nodes[i as int] == t.nodes[i as int]);
            assert forall|j: int| 0 <= j < i + 1 implies #[trigger] self@.nodes[j] == t.nodes[j] by {
                if j < i {
                    assert(before[j] == t.nodes[j]);
                    assert(self@.nodes[j] == before[j]);
                }
            }
            assert forall|j: int| i + 1 <= j < s.nodes.len() implies #[trigger] self@.nodes[j]
                == s.nodes[j] by {
                assert(before[j] == s.nodes[j]);
                assert(self@.nodes[j] == before[j]);
            }
            i = i + 1;
        }
        assert(self@.nodes =~= t.nodes);
        assert(self@ =~= t);
        proof {
            lemma_same_names_wf(s, t);
        }
    }

    /// Sets the definition record of `id` to `kind`, adding one where none
    /// exists.
    fn record_symbol_definition_kind(&mut self, id: i64, kind: SymbolType)
        requires
            old(self)@.wf(),
        ensures
            final(self)@ == define_symbol(old(self)@, id, kind),
            final(self)@.wf(),
    {
        let ghost s = self@;
        let ghost upd: Seq<Symbol> = s.symbols.map_values(
            |y: Symbol|
                if y.id == id {
                    Symbol { id, definition_kind: kind }
                } else {
                    y
                },
        );
        let mut found = false;
        let mut i: usize = 0;
        while i < self.symbols.len()
            invariant
                self@ == (StoreView { symbols: self@.symbols, ..s }),
                self@.symbols.len() == s.symbols.len(),
                upd == s.symbols.map_values(
                    |y: Symbol|
                        if y.id == id {
                            Symbol { id, definition_kind: kind }
                        } else {
                            y
                        },
                ),
                i <= s.symbols.len(),
                forall|j: int| 0 <= j < i ==> #[trigger] self@.symbols[j] == upd[j],
                forall|j: int| i <= j < s.symbols.len() ==> #[trigger] self@.symbols[j] == s.symbols[j],
                found <==> exists|j: int| 0 <= j < i && #[trigger] s.symbols[j].id == id,
            decreases s.symbols.len() - i,
        {
            let sym = self.symbols[i];
            assert(sym == s.symbols[i as int]);
            let ghost before = self@.symbols;
            assert(upd[i as int] == (if sym.id == id {
                Symbol { id, definition_kind: kind }
            } else {
                sym
            }));
            if sym.id == id {
                found = true;
                self.symbols.set(i, Symbol::new(id, kind));
                assert(self@.symbols[i as int] == Symbol { id, definition_kind: kind });
            } else {
                assert(self@.symbols[i as int] == sym);
            }
            assert(self@.symbols[i as int] == upd[i as int]);
            assert(forall|j: int| 0 <= j < s.symbols.len() && j != i ==> self@.symbols[j] == before[j]);
            i = i + 1;
        }
        if found {
            assert(self@.symbols =~= upd);
        } else {
            assert(s.symbols =~= upd);
            assert(self@.symbols =~= s.symbols);
            self.symbols.push(Symbol::new(id, kind));
        }
        assert(self@ =~= define_symbol(s, id, kind));
    }

    /// Records a node: resolves its hierarchy (failing before any write when
    /// the parent is missing or its name does not decode), builds the graph,
    /// sets the leaf's kind and, when `is_indexed`, marks it explicitly
    /// defined.
    pub(crate) fn full_record_node(
        &mut self,
        name: &str,
        prefix: &str,
        postfix: &str,
        delimiter: &str,
        parent_id: Option<i64>,
        is_indexed: bool,
        node_type: NodeType,
    ) -> (r: Result<i64, SourcetrailError>)
        requires
            old(self)@.wf(),
        ensures
            final(self)@.wf(),
            node_recorded(
                old(self)@,
                final(self)@,
                r,
                name@,
                prefix@,
                postfix@,
                delimiter@,
                parent_id,
                is_indexed,
                node_type,
            ),
    {
        let element = NameElement::builder().prefix(prefix).name(name).postfix(postfix).build();
        let hierarchy = match parent_id {
            Some(pid) => {
                let i = match self.find_node_index(pid) {
                    Some(i) => i,
                    None => return Err(SourcetrailError::ParentNotFound(pid)),
                };
                let mut h = match NameHierarchy::deserialize_name(self.nodes[i].name.as_str()) {
                    Ok(h) => h,
                    Err(e) => return Err(e),
                };
                h.push_element(element);
                h
            },
            None => {
                let mut elements: Vec<NameElement> = Vec::new();
                elements.push(element);
                let h = match NameHierarchy::new(delimiter, elements) {
                    Ok(h) => h,
                    Err(e) => return Err(e),
                };
                assert(h@.elements =~= seq![element@]);
                h
            },
        };
        assert(hierarchy@ == node_hierarchy(old(self)@, name@, prefix@, postfix@, delimiter@, parent_id)->Ok_0);
        let id = match self.record_symbol(&hierarchy) {
            Ok(id) => id,
            Err(e) => return Err(e),
        };
        self.record_symbol_kind(id, node_type);
        if is_indexed {
            self.record_symbol_definition_kind(id, SymbolType::Explicit);
        }
        Ok(id)
    }

    fn record_reference(&mut self, source_id: i64, target_id: i64, edge_type: EdgeType) -> (r: Result<
        i64,
        SourcetrailError,
    >)
        requires
            old(self)@.wf(),
        ensures
            reference_recorded(old(self)@, final(self)@, r, source_id, target_id, edge_type),
    {
        if !self.has_room(1) {
            return Err(out_of_ids());
        }
        let id = self.allocate();
        self.edges.push(Edge::new(id, edge_type, source_id, target_id));
        assert(self@ =~= add_edge(old(self)@, source_id, target_id, edge_type));
        Ok(id)
    }

    /// Writes a span and the occurrence that ties `symbol_id` to it.
    pub(crate) fn record_source_location(
        &mut self,
        symbol_id: i64,
        file_id: i64,
        start_line: i32,
        start_column: i32,
        end_line: i32,
        end_column: i32,
        location_type: SourceLocationType,
    ) -> (r: Result<(), SourcetrailError>)
        requires
            old(self)@.wf(),
        ensures
            final(self)@.wf(),
            !valid_range(start_line, start_column, end_line, end_column) ==> r == Err::<
                (),
                SourcetrailError,
            >(SourcetrailError::InvalidSourceRange) && final(self)@ == old(self)@,
            valid_range(start_line, start_column, end_line, end_column) && !old(self)@.has_room(1)
                ==> (r matches Err(e) && e is Database) && final(self)@ == old(self)@,
            valid_range(start_line, start_column, end_line, end_column) && old(self)@.has_room(1)
                ==> r is Ok && final(self)@ == add_location(
                old(self)@,
                symbol_id,
                file_id,
                start_line,
                start_column,
                end_line,
                end_column,
                location_type,
            ),
    {
        if !self.has_room(1) {
            if start_line > end_line || (start_line == end_line && start_column >= end_column) {
                return Err(SourcetrailError::InvalidSourceRange);
            }
            return Err(out_of_ids());
        }
        let lid = self.next_id;
        let loc = match SourceLocation::new(
            lid,
            file_id,
            start_line,
            start_column,
            end_line,
            end_column,
            location_type,
        ) {
            Ok(loc) => loc,
            Err(e) => return Err(e),
        };
        let lid = self.allocate();
        self.locations.push(loc);
        self.occurrences.push(Occurrence::new(symbol_id, lid));
        assert(self@ =~= add_location(
            old(self)@,
            symbol_id,
            file_id,
            start_line,
            start_column,
            end_line,
            end_column,
            location_type,
        ));
        Ok(())
    }
}

impl SourcetrailDB {
    /// Records a `Member` edge from `source_id` to `target_id` and gives its id.
    pub fn record_ref_member(
        &mut self,
        source_id: i64,
        target_id: i64,
    ) -> (r: Result<i64, SourcetrailError>)
        requires
            old(self)@.wf(),
        ensures
            reference_recorded(old(self)@, final(self)@, r, source_id, target_id, EdgeType::Member),
    {
        self.record_reference(source_id, target_id, EdgeType::Member)
    }

    /// Records a `TypeUsage` edge from `source_id` to `target_id` and gives its id.
    pub fn record_ref_type_usage(
        &mut self,
        source_id: i64,
        target_id: i64,
    ) -> (r: Result<i64, SourcetrailError>)
        requires
            old(self)@.wf(),
        ensures
            reference_recorded(old(self)@, final(self)@, r, source_id, target_id, EdgeType::TypeUsage),
    {
        self.record_reference(source_id, target_id, EdgeType::TypeUsage)
    }

    /// Records a `Usage` edge from `source_id` to `target_id` and gives its id.
    pub fn record_ref_usage(
        &mut self,
        source_id: i64,
        target_id: i64,
    ) -> (r: Result<i64, SourcetrailError>)
        requires
            old(self)@.wf(),
        ensures
            reference_recorded(old(self)@, final(self)@, r, source_id, target_id, EdgeType::Usage),
    {
        self.record_reference(source_id, target_id, EdgeType::Usage)
    }

    /// Records a `Call` edge from `source_id` to `target_id` and gives its id.
    pub fn record_ref_call(
        &mut self,
        source_id: i64,
        target_id: i64,
    ) -> (r: Result<i64, SourcetrailError>)
        requires
            old(self)@.wf(),
        ensures
            reference_recorded(old(self)@, final(self)@, r, source_id, target_id, EdgeType::Call),
    {
        self.record_reference(source_id, target_id, EdgeType::Call)
    }

    /// Records a `Inheritance` edge from `source_id` to `target_id` and gives its id.
    pub fn record_ref_inheritance(
        &mut self,
        source_id: i64,
        target_id: i64,
    ) -> (r: Result<i64, SourcetrailError>)
        requires
            old(self)@.wf(),
        ensures
            reference_recorded(old(self)@, final(self)@, r, source_id, target_id, EdgeType::Inheritance),
    {
        self.record_reference(source_id, target_id, EdgeType::Inheritance)
    }

    /// Records a `Override` edge from `source_id` to `target_id` and gives its id.
    pub fn record_ref_override(
        &mut self,
        source_id: i64,
        target_id: i64,
    ) -> (r: Result<i64, SourcetrailError>)
        requires
            old(self)@.wf(),
        ensures
            reference_recorded(old(self)@, final(self)@, r, source_id, target_id, EdgeType::Override),
    {
        self.record_reference(source_id, target_id, EdgeType::Override)
    }

    /// Records a `TypeArgument` edge from `source_id` to `target_id` and gives its id.
    pub fn record_ref_type_argument(
        &mut self,
        source_id: i64,
        target_id: i64,
    ) -> (r: Result<i64, SourcetrailError>)
        requires
            old(self)@.wf(),
        ensures
            reference_recorded(old(self)@, final(self)@, r, source_id, target_id, EdgeType::TypeArgument),
    {
        self.record_reference(source_id, target_id, EdgeType::TypeArgument)
    }

    /// Records a `TemplateSpecialization` edge from `source_id` to `target_id` and gives its id.
    pub fn record_ref_template_specialization(
        &mut self,
        source_id: i64,
        target_id: i64,
    ) -> (r: Result<i64, SourcetrailError>)
        requires
            old(self)@.wf(),
        ensures
            reference_recorded(old(self)@, final(self)@, r, source_id, target_id, EdgeType::TemplateSpecialization),
    {
        self.record_reference(source_id, target_id, EdgeType::TemplateSpecialization)
    }

    /// Records a `Include` edge from `source_id` to `target_id` and gives its id.
    pub fn record_ref_include(
        &mut self,
        source_id: i64,
        target_id: i64,
    ) -> (r: Result<i64, SourcetrailError>)
        requires
            old(self)@.wf(),
        ensures
            reference_recorded(old(self)@, final(self)@, r, source_id, target_id, EdgeType::Include),
    {
        self.record_reference(source_id, target_id, EdgeType::Include)
    }

    /// Records a `Import` edge from `source_id` to `target_id` and gives its id.
    pub fn record_ref_import(
        &mut self,
        source_id: i64,
        target_id: i64,
    ) -> (r: Result<i64, SourcetrailError>)
        requires
            old(self)@.wf(),
        ensures
            reference_recorded(old(self)@, final(self)@, r, source_id, target_id, EdgeType::Import),
    {
        self.record_reference(source_id, target_id, EdgeType::Import)
    }

    /// Records a `BundledEdges` edge from `source_id` to `target_id` and gives its id.
    pub fn record_ref_bundled_edges(
        &mut self,
        source_id: i64,
        target_id: i64,
    ) -> (r: Result<i64, SourcetrailError>)
        requires
            old(self)@.wf(),
        ensures
            reference_recorded(old(self)@, final(self)@, r, source_id, target_id, EdgeType::BundledEdges),
    {
        self.record_reference(source_id, target_id, EdgeType::BundledEdges)
    }

    /// Records a `MacroUsage` edge from `source_id` to `target_id` and gives its id.
    pub fn record_ref_macro_usage(
        &mut self,
        source_id: i64,
        target_id: i64,
    ) -> (r: Result<i64, SourcetrailError>)
        requires
            old(self)@.wf(),
        ensures
            reference_recorded(old(self)@, final(self)@, r, source_id, target_id, EdgeType::MacroUsage),
    {
        self.record_reference(source_id, target_id, EdgeType::MacroUsage)
    }

    /// Records a `AnnotationUsage` edge from `source_id` to `target_id` and gives its id.
    pub fn record_ref_annotation_usage(
        &mut self,
        source_id: i64,
        target_id: i64,
    ) -> (r: Result<i64, SourcetrailError>)
        requires
            old(self)@.wf(),
        ensures
            reference_recorded(old(self)@, final(self)@, r, source_id, target_id, EdgeType::AnnotationUsage),
    {
        self.record_reference(source_id, target_id, EdgeType::AnnotationUsage)
    }

}

// ---------------------------------------------------------------------------
// Files, local symbols and element components.
// ---------------------------------------------------------------------------

/// The number of `\n` in `s`.
pub open spec fn newline_count(s: Seq<char>) -> nat
    decreases s.len(),
{
    if s.len() == 0 {
        0
    } else {
        newline_count(s.drop_last()) + if s.last() == '\n' {
            1nat
        } else {
            0nat
        }
    }
}

/// The number of lines of `s`, as `str::lines` counts them: each `\n` ends
/// one, and a non-empty tail after the last `\n` is one more.
pub open spec fn line_total(s: Seq<char>) -> nat {
    if s.len() > 0 && s.last() != '\n' {
        newline_count(s) + 1
    } else {
        newline_count(s)
    }
}

/// The line count stored with a file, saturated at `u32::MAX`.
pub open spec fn stored_line_count(s: Seq<char>) -> u32 {
    if line_total(s) > u32::MAX {
        u32::MAX
    } else {
        line_total(s) as u32
    }
}

pub fn count_lines(content: &str) -> (r: u32)
    ensures
        r == stored_line_count(content@),
{
    let v = crate::name::chars_of(content);
    let mut n: usize = 0;
    let mut i: usize = 0;
    while i < v.len()
        invariant
            v@ == content@,
            i <= v@.len(),
            n == newline_count(v@.take(i as int)),
            n <= i,
        decreases v@.len() - i,
    {
        assert(v@.take(i + 1).drop_last() =~= v@.take(i as int));
        if v[i] == '\n' {
            n = n + 1;
        }
        i = i + 1;
    }
    assert(v@.take(i as int) =~= v@);
    let extra: usize = if v.len() > 0 && v[v.len() - 1] != '\n' {
        1
    } else {
        0
    };
    if n >= u32::MAX as usize {
        u32::MAX
    } else {
        (n + extra) as u32
    }
}

/// The one-segment hierarchy under `/` that names a file.
pub open spec fn file_hierarchy(path: Seq<char>) -> HierarchyView {
    HierarchyView {
        delimiter: seq!['/'],
        elements: seq![ElementView { prefix: None, name: Some(path), postfix: None }],
    }
}

pub open spec fn has_file(s: StoreView, id: i64) -> bool {
    exists|i: int| 0 <= i < s.files.len() && #[trigger] s.files[i].id == id
}

/// The path of a file is already recorded.
pub open spec fn file_known(s: StoreView, path: Seq<char>) -> bool {
    let key = encode(file_hierarchy(path));
    s.names.contains_key(key) && has_file(s, s.names[key])
}

/// A file record was written: its node was interned under the path's
/// encoded name, a file row added, and, when indexed, a content row.
pub open spec fn file_recorded(
    s: StoreView,
    t: StoreView,
    id: i64,
    path: Seq<char>,
    modification_time: i64,
    content: Seq<char>,
    indexed: bool,
) -> bool {
    let (s1, nid) = intern_key(s, encode(file_hierarchy(path)), NodeType::NodeFile);
    let f = t.files.last();
    &&& id == nid
    &&& t.next_id == s1.next_id && t.nodes == s1.nodes && t.names == s1.names
    &&& t.edges == s.edges && t.symbols == s.symbols && t.locations == s.locations
    &&& t.occurrences == s.occurrences && t.locals == s.locals && t.errors == s.errors
    &&& t.components == s.components && t.path == s.path
    &&& t.files.len() == s.files.len() + 1 && t.files.drop_last() == s.files
    &&& f.id == id && f.path@ == path && f.language@ == Seq::<char>::empty()
    &&& f.modification_time == modification_time && f.indexed == indexed && f.complete
    &&& f.line_count == (if indexed {
        stored_line_count(content)
    } else {
        0
    })
    &&& if indexed {
        t.contents.len() == s.contents.len() + 1 && t.contents.drop_last() == s.contents
            && t.contents.last().id == id && t.contents.last().content@ == content
    } else {
        t.contents == s.contents
    }
}

pub open spec fn has_content(s: StoreView, id: i64) -> bool {
    exists|i: int| 0 <= i < s.contents.len() && #[trigger] s.contents[i].id == id
}

/// The content rows after storing `content` for `id`: every row of `id`
/// takes the new text, or one is added where there is none.
pub open spec fn contents_stored(s: StoreView, t: StoreView, id: i64, content: Seq<char>) -> bool {
    if has_content(s, id) {
        &&& t.contents.len() == s.contents.len()
        &&& forall|j: int|
            0 <= j < s.contents.len() ==> if (#[trigger] s.contents[j]).id == id {
                t.contents[j].id == id && t.contents[j].content@ == content
            } else {
                t.contents[j] == s.contents[j]
            }
    } else {
        &&& t.contents.len() == s.contents.len() + 1
        &&& t.contents.drop_last() == s.contents
        &&& t.contents.last().id == id && t.contents.last().content@ == content
    }
}

/// A file recorded again: each row of `id` takes the new modification time,
/// indexed flag and line count and is complete, keeping its path and
/// language; when indexed, the content is stored too. Nothing else changes.
pub open spec fn file_refreshed(
    s: StoreView,
    t: StoreView,
    id: i64,
    modification_time: i64,
    content: Seq<char>,
    indexed: bool,
) -> bool {
    &&& t == (StoreView { files: t.files, contents: t.contents, ..s })
    &&& t.files.len() == s.files.len()
    &&& forall|j: int|
        0 <= j < s.files.len() ==> if (#[trigger] s.files[j]).id == id {
            t.files[j].id == id && t.files[j].path@ == s.files[j].path@ && t.files[j].language@
                == s.files[j].language@ && t.files[j].modification_time == modification_time
                && t.files[j].indexed == indexed && t.files[j].complete && t.files[j].line_count
                == (if indexed {
                stored_line_count(content)
            } else {
                0
            })
        } else {
            t.files[j] == s.files[j]
        }
    &&& if indexed {
        contents_stored(s, t, id, content)
    } else {
        t.contents == s.contents
    }
}

/// The first local symbol named `name` at or after `i`, or -1.
pub open spec fn find_local(locals: Seq<LocalSymbol>, name: Seq<char>, i: int) -> int
    decreases locals.len() - i,
{
    if i < 0 || i >= locals.len() {
        -1
    } else if locals[i].name@ == name {
        i
    } else {
        find_local(locals, name, i + 1)
    }
}

impl SourcetrailDB {
    /// Gives every file row of `id` the new time, indexed flag and line
    /// count, and marks it complete.
    fn refresh_file_rows(&mut self, id: i64, modification_time: i64, indexed: bool, lines: u32)
        requires
            old(self)@.wf(),
        ensures
            final(self)@.wf(),
            final(self)@ == (StoreView { files: final(self)@.files, ..old(self)@ }),
            final(self)@.files.len() == old(self)@.files.len(),
            forall|j: int|
                0 <= j < old(self)@.files.len() ==> if (#[trigger] old(self)@.files[j]).id == id {
                    final(self)@.files[j].id == id && final(self)@.files[j].path@ == old(
                        self)@.files[j].path@ && final(self)@.files[j].language@ == old(
                        self)@.files[j].language@ && final(self)@.files[j].modification_time
                        == modification_time && final(self)@.files[j].indexed == indexed
                        && final(self)@.files[j].complete && final(self)@.files[j].line_count == lines
                } else {
                    final(self)@.files[j] == old(self)@.files[j]
                },
    {
        let ghost s = self@;
        let mut i: usize = 0;
        while i < self.files.len()
            invariant
                self@ == (StoreView { files: self@.files, ..s }),
                self@.files.len() == s.files.len(),
                i <= s.files.len(),
                forall|j: int|
                    0 <= j < s.files.len() ==> if (#[trigger] s.files[j]).id == id && j < i {
                        self@.files[j].id == id && self@.files[j].path@ == s.files[j].path@
                            && self@.files[j].language@ == s.files[j].language@
                            && self@.files[j].modification_time == modification_time
                            && self@.files[j].indexed == indexed && self@.files[j].complete
                            && self@.files[j].line_count == lines
                    } else {
                        self@.files[j] == s.files[j]
                    },
            decreases s.files.len() - i,
        {
            assert(self@.files[i as int] == s.files[i as int]);
            if self.files[i].id == id {
                let f = &self.files[i];
                let updated = File {
                    id: f.id,
                    path: f.path.clone(),
                    language: f.language.clone(),
                    modification_time,
                    indexed,
                    complete: true,
                    line_count: lines,
                };
                self.files.set(i, updated);
            }
            i = i + 1;
        }
    }

    /// Stores `content` as the text of file `id`.
    fn store_content(&mut self, id: i64, content: &str)
        requires
            old(self)@.wf(),
        ensures
            final(self)@.wf(),
            final(self)@ == (StoreView { contents: final(self)@.contents, ..old(self)@ }),
            contents_stored(old(self)@, final(self)@, id, content@),
    {
        let ghost s = self@;
        let mut found = false;
        let mut i: usize = 0;
        while i < self.contents.len()
            invariant
                self@ == (StoreView { contents: self@.contents, ..s }),
                self@.contents.len() == s.contents.len(),
                i <= s.contents.len(),
                forall|j: int|
                    0 <= j < s.contents.len() ==> if (#[trigger] s.contents[j]).id == id && j < i {
                        self@.contents[j].id == id && self@.contents[j].content@ == content@
                    } else {
                        self@.contents[j] == s.contents[j]
                    },
                found <==> exists|j: int| 0 <= j < i && #[trigger] s.contents[j].id == id,
            decreases s.contents.len() - i,
        {
            assert(self@.contents[i as int] == s.contents[i as int]);
            if self.contents[i].id == id {
                found = true;
                self.contents.set(i, FileContent::new(id, content));
            }
            i = i + 1;
        }
        if !found {
            self.contents.push(FileContent::new(id, content));
            assert(self@.contents.drop_last() =~= s.contents);
        }
    }

    fn find_file_index(&self, id: i64) -> (r: Option<usize>)
        ensures
            match r {
                Some(i) => i < self@.files.len() && self@.files[i as int].id == id,
                None => !has_file(self@, id),
            },
    {
        let mut i: usize = 0;
        while i < self.files.len()
            invariant
                forall|j: int| 0 <= j < i ==> #[trigger] self@.files[j].id != id,
            decreases self.files@.len() - i,
        {
            if self.files[i].id == id {
                return Some(i);
            }
            i = i + 1;
        }
        None
    }

    /// Records a file under its path: the node named by the path, a file row
    /// with the content's line count when indexed, and the content itself
    /// when indexed. A path recorded before has its file row and content
    /// brought up to date instead.
    pub(crate) fn record_file_with(
        &mut self,
        path: &str,
        modification_time: i64,
        content: &str,
        indexed: bool,
    ) -> (r: Result<i64, SourcetrailError>)
        requires
            old(self)@.wf(),
        ensures
            final(self)@.wf(),
            file_known(old(self)@, path@) ==> r == Ok::<i64, SourcetrailError>(
                old(self)@.names[encode(file_hierarchy(path@))],
            ) && file_refreshed(
                old(self)@,
                final(self)@,
                old(self)@.names[encode(file_hierarchy(path@))],
                modification_time,
                content@,
                indexed,
            ),
            !file_known(old(self)@, path@) && !old(self)@.has_room(1) ==> (r matches Err(e)
                && e is Database) && final(self)@ == old(self)@,
            !file_known(old(self)@, path@) && old(self)@.has_room(1) ==> (r matches Ok(id)
                && file_recorded(
                old(self)@,
                final(self)@,
                id,
                path@,
                modification_time,
                content@,
                indexed,
            )),
    {
        let mut elements: Vec<NameElement> = Vec::new();
        elements.push(NameElement::builder().name(path).build());
        let ghost es = elements@.map_values(|e: NameElement| e@);
        assert(es =~= seq![ElementView { prefix: None, name: Some(path@), postfix: None }]);
        let hierarchy = match NameHierarchy::new("/", elements) {
            Ok(h) => h,
            Err(e) => return Err(e),
        };
        proof {
            reveal_strlit("/");
        }
        assert(hierarchy@.delimiter =~= seq!['/']);
        assert(hierarchy@.elements =~= es);
        assert(hierarchy@ == file_hierarchy(path@));
        let key = match hierarchy.serialize_name() {
            Ok(k) => k,
            Err(e) => return Err(e),
        };
        let lines = if indexed {
            count_lines(content)
        } else {
            0
        };
        match self.name_cache.get(key.as_str()) {
            Some(known) => {
                let id = *known;
                if self.find_file_index(id).is_some() {
                    self.refresh_file_rows(id, modification_time, indexed, lines);
                    if indexed {
                        self.store_content(id, content);
                    }
                    return Ok(id);
                }
            },
            None => {},
        }
        if !self.has_room(1) {
            return Err(out_of_ids());
        }
        let id = self.add_if_not_existing(key.as_str(), NodeType::NodeFile);
        let ghost s1 = self@;
        assert(key@ == encode(file_hierarchy(path@)));
        assert((s1, id) == intern_key(old(self)@, encode(file_hierarchy(path@)), NodeType::NodeFile));
        proof {
            reveal_strlit("");
        }
        self.files.push(File::new(id, path, "", modification_time, indexed, true, lines));
        assert(self@.files.last().language@ =~= Seq::<char>::empty());
        if indexed {
            self.contents.push(FileContent::new(id, content));
            assert(self@.contents.drop_last() =~= old(self)@.contents);
        }
        assert(self@.files.drop_last() =~= old(self)@.files);
        assert(self@.nodes == s1.nodes && self@.names == s1.names && self@.next_id == s1.next_id);
        assert(self@.wf());
        Ok(id)
    }

    /// Sets the language of the file `id`; `FileNotFound` where there is none.
    pub fn record_file_language(&mut self, id: i64, language: &str) -> (r: Result<(), SourcetrailError>)
        requires
            old(self)@.wf(),
        ensures
            final(self)@.wf(),
            !has_file(old(self)@, id) ==> r == Err::<(), SourcetrailError>(
                SourcetrailError::FileNotFound(id),
            ) && final(self)@ == old(self)@,
            has_file(old(self)@, id) ==> r is Ok && final(self)@ == (StoreView {
                files: final(self)@.files,
                ..old(self)@
            }) && final(self)@.files.len() == old(self)@.files.len() && forall|j: int|
                0 <= j < old(self)@.files.len() ==> if (#[trigger] old(self)@.files[j]).id == id {
                    final(self)@.files[j].language@ == language@ && final(self)@.files[j].id == id
                        && final(self)@.files[j].path@ == old(self)@.files[j].path@
                        && final(self)@.files[j].modification_time
                        == old(self)@.files[j].modification_time && final(self)@.files[j].indexed
                        == old(self)@.files[j].indexed && final(self)@.files[j].complete
                        == old(self)@.files[j].complete && final(self)@.files[j].line_count
                        == old(self)@.files[j].line_count
                } else {
                    final(self)@.files[j] == old(self)@.files[j]
                },
    {
        if self.find_file_index(id).is_none() {
            return Err(SourcetrailError::FileNotFound(id));
        }
        let ghost s = self@;
        let mut i: usize = 0;
        while i < self.files.len()
            invariant
                self@ == (StoreView { files: self@.files, ..s }),
                self@.files.len() == s.files.len(),
                i <= s.files.len(),
                forall|j: int|
                    0 <= j < s.files.len() ==> if (#[trigger] s.files[j]).id == id && j < i {
                        self@.files[j].language@ == language@ && self@.files[j].id == id
                            && self@.files[j].path@ == s.files[j].path@
                            && self@.files[j].modification_time == s.files[j].modification_time
                            && self@.files[j].indexed == s.files[j].indexed
                            && self@.files[j].complete == s.files[j].complete
                            && self@.files[j].line_count == s.files[j].line_count
                    } else {
                        self@.files[j] == s.files[j]
                    },
            decreases s.files.len() - i,
        {
            assert(self@.files[i as int] == s.files[i as int]);
            if self.files[i].id == id {
                let f = &self.files[i];
                let updated = File {
                    id: f.id,
                    path: f.path.clone(),
                    language: String::from_str(language),
                    modification_time: f.modification_time,
                    indexed: f.indexed,
                    complete: f.complete,
                    line_count: f.line_count,
                };
                self.files.set(i, updated);
            }
            i = i + 1;
        }
        Ok(())
    }

    /// The id of the local symbol `name`, created when new.
    pub fn record_local_symbol(&mut self, name: &str) -> (r: Result<i64, SourcetrailError>)
        requires
            old(self)@.wf(),
        ensures
            final(self)@.wf(),
            find_local(old(self)@.locals, name@, 0) >= 0 ==> r == Ok::<i64, SourcetrailError>(
                old(self)@.locals[find_local(old(self)@.locals, name@, 0)].id,
            ) && final(self)@ == old(self)@,
            find_local(old(self)@.locals, name@, 0) < 0 && !old(self)@.has_room(1) ==> (r matches Err(
                e,
            ) && e is Database) && final(self)@ == old(self)@,
            find_local(old(self)@.locals, name@, 0) < 0 && old(self)@.has_room(1) ==> r
                == Ok::<i64, SourcetrailError>(old(self)@.next_id as i64) && final(self)@ == (
            StoreView { next_id: old(self)@.next_id + 1, locals: final(self)@.locals, ..old(self)@ })
                && final(self)@.locals.drop_last() == old(self)@.locals
                && final(self)@.locals.len() == old(self)@.locals.len() + 1
                && final(self)@.locals.last().id == old(self)@.next_id
                && final(self)@.locals.last().name@ == name@,
    {
        let key = String::from_str(name);
        let mut i: usize = 0;
        while i < self.locals.len()
            invariant
                key@ == name@,
                self@ == old(self)@,
                self@.wf(),
                find_local(self@.locals, name@, 0) == find_local(self@.locals, name@, i as int),
            decreases self.locals@.len() - i,
        {
            if self.locals[i].name == key {
                return Ok(self.locals[i].id);
            }
            i = i + 1;
        }
        if !self.has_room(1) {
            return Err(out_of_ids());
        }
        let id = self.allocate();
        self.locals.push(LocalSymbol::new(id, name));
        assert(self@.locals.drop_last() =~= old(self)@.locals);
        Ok(id)
    }

    /// Marks the reference `reference_id` as ambiguous.
    pub fn record_reference_is_ambiguous(&mut self, reference_id: i64) -> (r: Result<(), SourcetrailError>)
        requires
            old(self)@.wf(),
        ensures
            final(self)@.wf(),
            !old(self)@.has_room(1) ==> (r matches Err(e) && e is Database) && final(self)@ == old(self)@,
            old(self)@.has_room(1) ==> r is Ok && final(self)@ == (StoreView {
                next_id: old(self)@.next_id + 1,
                components: final(self)@.components,
                ..old(self)@
            }) && final(self)@.components.drop_last() == old(self)@.components
                && final(self)@.components.len() == old(self)@.components.len() + 1
                && final(self)@.components.last().id == old(self)@.next_id
                && final(self)@.components.last().elem_id == reference_id
                && final(self)@.components.last().type_ == ElementComponentType::IsAmbiguous
                && final(self)@.components.last().data@ == Seq::<char>::empty(),
    {
        if !self.has_room(1) {
            return Err(out_of_ids());
        }
        let id = self.allocate();
        self.components.push(ElementComponent::new(id, reference_id, ElementComponentType::IsAmbiguous, ""));
        proof {
            reveal_strlit("");
        }
        assert(self@.components.drop_last() =~= old(self)@.components);
        Ok(())
    }

    /// Empties every table and the name index; ids start over.
    pub fn clear(&mut self)
        ensures
            final(self)@ == empty_store(old(self)@.path),
            final(self)@.wf(),
    {
        self.next_id = 1;
        self.nodes.clear();
        self.name_cache.clear();
        self.edges.clear();
        self.symbols.clear();
        self.locations.clear();
        self.occurrences.clear();
        self.files.clear();
        self.contents.clear();
        self.locals.clear();
        self.errors.clear();
        self.components.clear();
        assert(self@ =~= empty_store(old(self)@.path));
    }

    pub fn nodes(&self) -> (r: &[Node])
        ensures
            r@.map_values(|n: Node| n@) == self@.nodes,
    {
        self.nodes.as_slice()
    }

    pub fn edges(&self) -> (r: &[Edge])
        ensures
            r@ == self@.edges,
    {
        self.edges.as_slice()
    }

    pub fn symbols(&self) -> (r: &[Symbol])
        ensures
            r@ == self@.symbols,
    {
        self.symbols.as_slice()
    }

    pub fn source_locations(&self) -> (r: &[SourceLocation])
        ensures
            r@.map_values(|l: SourceLocation| l@) == self@.locations,
    {
        self.locations.as_slice()
    }

    pub fn occurrences(&self) -> (r: &[Occurrence])
        ensures
            r@ == self@.occurrences,
    {
        self.occurrences.as_slice()
    }

    pub fn files(&self) -> (r: &[File])
        ensures
            r@ == self@.files,
    {
        self.files.as_slice()
    }

    pub fn file_contents(&self) -> (r: &[FileContent])
        ensures
            r@ == self@.contents,
    {
        self.contents.as_slice()
    }

    pub fn local_symbols(&self) -> (r: &[LocalSymbol])
        ensures
            r@ == self@.locals,
    {
        self.locals.as_slice()
    }

    pub fn errors(&self) -> (r: &[Error])
        ensures
            r@ == self@.errors,
    {
        self.errors.as_slice()
    }

    pub fn element_components(&self) -> (r: &[ElementComponent])
        ensures
            r@ == self@.components,
    {
        self.components.as_slice()
    }

    /// The next id the store will hand out.
    pub fn next_id(&self) -> (r: i64)
        ensures
            r == self@.next_id,
    {
        self.next_id
    }
}


// ---------------------------------------------------------------------------
// Unsolved references and indexer errors.
// ---------------------------------------------------------------------------

/// The name every unresolved reference points to.
pub open spec fn unsolved_name() -> Seq<char> {
    seq!['u', 'n', 's', 'o', 'l', 'v', 'e', 'd', ' ', 's', 'y', 'm', 'b', 'o', 'l']
}

/// The shared placeholder: one segment named `unsolved symbol` under the
/// delimiter namespace `@`.
pub open spec fn placeholder() -> HierarchyView {
    HierarchyView {
        delimiter: seq!['@'],
        elements: seq![ElementView { prefix: None, name: Some(unsolved_name()), postfix: None }],
    }
}

/// Interns the placeholder, adds an edge of kind `kind` from `symbol` to it,
/// and an `Unsolved` span tied to that edge; gives the edge's id.
pub open spec fn unsolved_spec(
    s: StoreView,
    symbol: i64,
    kind: EdgeType,
    file: i64,
    start_line: i32,
    start_column: i32,
    end_line: i32,
    end_column: i32,
) -> (StoreView, i64) {
    let (s1, uid) = build_graph(s, placeholder());
    let eid = s1.next_id as i64;
    let s2 = add_edge(s1, symbol, uid, kind);
    (
        add_location(
            s2,
            eid,
            file,
            start_line,
            start_column,
            end_line,
            end_column,
            SourceLocationType::Unsolved,
        ),
        eid,
    )
}

/// An error row under the next id, with an `IndexerError` span tied to it.
pub open spec fn error_recorded(
    s: StoreView,
    t: StoreView,
    message: Seq<char>,
    fatal: bool,
    file: i64,
    start_line: i32,
    start_column: i32,
    end_line: i32,
    end_column: i32,
) -> bool {
    let e = t.errors.last();
    let s1 = StoreView { next_id: s.next_id + 1, errors: t.errors, ..s };
    &&& t.errors.len() == s.errors.len() + 1 && t.errors.drop_last() == s.errors
    &&& e.id == s.next_id && e.message@ == message && e.fatal == fatal && e.indexed
    &&& e.translation_unit@ == Seq::<char>::empty()
    &&& t == add_location(
        s1,
        s.next_id as i64,
        file,
        start_line,
        start_column,
        end_line,
        end_column,
        SourceLocationType::IndexerError,
    )
}

impl SourcetrailDB {
    /// Records a reference to the shared placeholder node and its span.
    pub(crate) fn record_unsolved(
        &mut self,
        symbol_id: i64,
        kind: EdgeType,
        file_id: i64,
        start_line: i32,
        start_column: i32,
        end_line: i32,
        end_column: i32,
    ) -> (r: Result<i64, SourcetrailError>)
        requires
            old(self)@.wf(),
            valid_range(start_line, start_column, end_line, end_column),
        ensures
            final(self)@.wf(),
            !old(self)@.has_room(4) ==> (r matches Err(e) && e is Database) && final(self)@ == old(self)@,
            old(self)@.has_room(4) ==> (r matches Ok(id) && (final(self)@, id) == unsolved_spec(
                old(self)@,
                symbol_id,
                kind,
                file_id,
                start_line,
                start_column,
                end_line,
                end_column,
            )),
    {
        if !self.has_room(4) {
            return Err(out_of_ids());
        }
        let mut elements: Vec<NameElement> = Vec::new();
        elements.push(NameElement::builder().name("unsolved symbol").build());
        let ghost es = elements@.map_values(|e: NameElement| e@);
        assert(es =~= seq![ElementView { prefix: None, name: Some("unsolved symbol"@), postfix: None }]);
        let hierarchy = match NameHierarchy::new("@", elements) {
            Ok(h) => h,
            Err(e) => return Err(e),
        };
        proof {
            reveal_strlit("@");
            reveal_strlit("unsolved symbol");
        }
        assert(hierarchy@.delimiter =~= seq!['@']);
        assert("unsolved symbol"@ =~= unsolved_name());
        assert(hierarchy@.elements =~= placeholder().elements);
        assert(hierarchy@ == placeholder());
        let ghost s0 = self@;
        let uid = match self.record_symbol(&hierarchy) {
            Ok(id) => id,
            Err(e) => return Err(e),
        };
        proof {
            lemma_build_graph_next_id(s0, placeholder());
        }
        let eid = match self.record_reference(symbol_id, uid, kind) {
            Ok(id) => id,
            Err(e) => return Err(e),
        };
        match self.record_source_location(
            eid,
            file_id,
            start_line,
            start_column,
            end_line,
            end_column,
            SourceLocationType::Unsolved,
        ) {
            Ok(()) => {},
            Err(e) => return Err(e),
        }
        Ok(eid)
    }

    /// Records an indexer error and its span.
    pub(crate) fn record_error_with(
        &mut self,
        message: &str,
        fatal: bool,
        file_id: i64,
        start_line: i32,
        start_column: i32,
        end_line: i32,
        end_column: i32,
    ) -> (r: Result<(), SourcetrailError>)
        requires
            old(self)@.wf(),
            valid_range(start_line, start_column, end_line, end_column),
        ensures
            final(self)@.wf(),
            !old(self)@.has_room(2) ==> (r matches Err(e) && e is Database) && final(self)@ == old(self)@,
            old(self)@.has_room(2) ==> r is Ok && error_recorded(
                old(self)@,
                final(self)@,
                message@,
                fatal,
                file_id,
                start_line,
                start_column,
                end_line,
                end_column,
            ),
    {
        if !self.has_room(2) {
            return Err(out_of_ids());
        }
        let id = self.allocate();
        self.errors.push(Error::new(id, message, fatal, true, ""));
        proof {
            reveal_strlit("");
        }
        assert(self@.errors.drop_last() =~= old(self)@.errors);
        assert(self@.errors.last().translation_unit@ =~= Seq::<char>::empty());
        let ghost s1 = self@;
        match self.record_source_location(
            id,
            file_id,
            start_line,
            start_column,
            end_line,
            end_column,
            SourceLocationType::IndexerError,
        ) {
            Ok(()) => {},
            Err(e) => return Err(e),
        }
        assert(s1 == (StoreView { next_id: old(self)@.next_id + 1, errors: self@.errors, ..old(self)@ }));
        Ok(())
    }
}

/// Building a graph never moves the id counter back, and moves it by at most
/// twice the number of segments.
proof fn lemma_build_graph_next_id(s: StoreView, h: HierarchyView)
    requires
        h.elements.len() > 0,
    ensures
        s.next_id <= build_graph(s, h).0.next_id <= s.next_id + 2 * h.elements.len() - 1,
{
    lemma_intern_levels_next_id(s, h, h.elements.len());
    lemma_intern_levels_len(s, h, h.elements.len());
}

proof fn lemma_intern_levels_next_id(s: StoreView, h: HierarchyView, n: nat)
    ensures
        s.next_id <= intern_levels(s, h, n).0.next_id <= s.next_id + n,
    decreases n,
{
    if n > 0 {
        lemma_intern_levels_next_id(s, h, (n - 1) as nat);
    }
}


/// Two unsolved references recorded one after the other both point at the
/// same placeholder node, the one the name index lists under the
/// placeholder's encoded name; the second adds no node, exactly one edge and
/// exactly one `Unsolved` span; the two edges and the two spans are distinct,
/// each span tied to its edge.
pub proof fn lemma_unsolved_shared(
    s: StoreView,
    a_symbol: i64,
    a_kind: EdgeType,
    a_file: i64,
    a_start: (i32, i32),
    a_end: (i32, i32),
    b_symbol: i64,
    b_kind: EdgeType,
    b_file: i64,
    b_start: (i32, i32),
    b_end: (i32, i32),
)
    requires
        s.wf(),
        s.has_room(8),
    ensures
        ({
            let (s1, e1) = unsolved_spec(s, a_symbol, a_kind, a_file, a_start.0, a_start.1, a_end.0, a_end.1);
            let (s2, e2) = unsolved_spec(s1, b_symbol, b_kind, b_file, b_start.0, b_start.1, b_end.0, b_end.1);
            let u = build_graph(s, placeholder()).1;
            &&& s1.names.contains_key(level_key(placeholder(), 0))
            &&& s1.names[level_key(placeholder(), 0)] == u
            &&& s1.edges.last() == Edge { id: e1, type_: a_kind, src: a_symbol, dst: u }
            &&& s2.nodes == s1.nodes
            &&& s2.edges == s1.edges.push(Edge { id: e2, type_: b_kind, src: b_symbol, dst: u })
            &&& s2.locations.len() == s1.locations.len() + 1
            &&& s2.locations.last().type_ == SourceLocationType::Unsolved
            &&& e1 != e2
            &&& s1.locations.last().id != s2.locations.last().id
            &&& s1.occurrences.last() == Occurrence {
                element_id: e1,
                source_location_id: s1.locations.last().id,
            }
            &&& s2.occurrences.last() == Occurrence {
                element_id: e2,
                source_location_id: s2.locations.last().id,
            }
        }),
{
    let h = placeholder();
    let (s1, e1) = unsolved_spec(s, a_symbol, a_kind, a_file, a_start.0, a_start.1, a_end.0, a_end.1);
    lemma_build_graph_next_id(s, h);
    let bg1 = build_graph(s, h).0;
    assert(bg1.next_id <= s.next_id + 1);
    assert(e1 == bg1.next_id);
    assert(s1.next_id == bg1.next_id + 2);
    lemma_intern_levels_interned(s, h, 1);
    lemma_build_graph_again(s, h, s1);
    let bg2 = build_graph(s1, h).0;
    assert(bg2 == s1);
}


// ---------------------------------------------------------------------------
// Resuming a store that was persisted earlier.
// ---------------------------------------------------------------------------

impl SourcetrailDB {
    /// Loads a node persisted earlier, so that its name is found again. A
    /// name or id already known, or an id outside `1..i64::MAX`, is refused.
    pub fn restore_node(&mut self, id: i64, kind: NodeType, name: &str) -> (r: Result<(), SourcetrailError>)
        requires
            old(self)@.wf(),
        ensures
            final(self)@.wf(),
            (old(self)@.names.contains_key(name@) || find_node(old(self)@.nodes, id, 0) >= 0 || id < 1
                || id == i64::MAX) ==> (r matches Err(e) && e is Database) && final(self)@ == old(
                self)@,
            !(old(self)@.names.contains_key(name@) || find_node(old(self)@.nodes, id, 0) >= 0 || id < 1
                || id == i64::MAX) ==> r is Ok
                && final(self)@ == (StoreView {
                next_id: if id < old(self)@.next_id {
                    old(self)@.next_id
                } else {
                    id + 1
                },
                nodes: old(self)@.nodes.push(NodeView { id, kind, name: name@ }),
                names: old(self)@.names.insert(name@, id),
                ..old(self)@
            }),
    {
        if self.name_cache.contains_key(name) || self.find_node_index(id).is_some() || id < 1 || id
            == i64::MAX {
            return Err(SourcetrailError::Database(String::from_str("node cannot be restored")));
        }
        let ghost s = self@;
        if id >= self.next_id {
            self.next_id = id + 1;
        }
        self.nodes.push(Node::new(id, kind, name));
        self.name_cache.insert(String::from_str(name), id);
        let ghost t = self@;
        assert(t.nodes =~= s.nodes.push(NodeView { id, kind, name: name@ }));
        assert forall|k: Seq<char>| #[trigger] t.names.contains_key(k) implies exists|i: int|
            0 <= i < t.nodes.len() && #[trigger] t.nodes[i].name == k && t.nodes[i].id == t.names[k] by {
            if k == name@ {
                assert(t.nodes[s.nodes.len() as int].name == k);
            } else {
                let i = choose|i: int|
                    0 <= i < s.nodes.len() && #[trigger] s.nodes[i].name == k && s.nodes[i].id
                        == s.names[k];
                assert(t.nodes[i] == s.nodes[i]);
            }
        }
        assert forall|i: int| 0 <= i < t.nodes.len() implies t.names.contains_key(
            #[trigger] t.nodes[i].name,
        ) && t.names[t.nodes[i].name] == t.nodes[i].id by {
            if i < s.nodes.len() {
                assert(t.nodes[i] == s.nodes[i]);
            }
        }
        Ok(())
    }

    /// Loads a local symbol persisted earlier. A name already known, or an id
    /// outside `1..i64::MAX`, is refused.
    pub fn restore_local_symbol(&mut self, id: i64, name: &str) -> (r: Result<(), SourcetrailError>)
        requires
            old(self)@.wf(),
        ensures
            final(self)@.wf(),
            (find_local(old(self)@.locals, name@, 0) >= 0 || id < 1 || id == i64::MAX) ==> (r matches Err(
                e,
            ) && e is Database) && final(self)@ == old(self)@,
            !(find_local(old(self)@.locals, name@, 0) >= 0 || id < 1 || id == i64::MAX) ==> r is Ok
                && final(self)@ == (StoreView {
                next_id: if id < old(self)@.next_id {
                    old(self)@.next_id
                } else {
                    id + 1
                },
                locals: final(self)@.locals,
                ..old(self)@
            }) && final(self)@.locals.drop_last() == old(self)@.locals
                && final(self)@.locals.len() == old(self)@.locals.len() + 1
                && final(self)@.locals.last().id == id && final(self)@.locals.last().name@ == name@,
    {
        let key = String::from_str(name);
        let mut i: usize = 0;
        while i < self.locals.len()
            invariant
                key@ == name@,
                self@ == old(self)@,
                self@.wf(),
                find_local(self@.locals, name@, 0) == find_local(self@.locals, name@, i as int),
            decreases self.locals@.len() - i,
        {
            if self.locals[i].name == key {
                return Err(SourcetrailError::Database(String::from_str("local symbol cannot be restored")));
            }
            i = i + 1;
        }
        if id < 1 || id == i64::MAX {
            return Err(SourcetrailError::Database(String::from_str("local symbol cannot be restored")));
        }
        if id >= self.next_id {
            self.next_id = id + 1;
        }
        self.locals.push(LocalSymbol::new(id, name));
        assert(self@.locals.drop_last() =~= old(self)@.locals);
        Ok(())
    }

    /// Makes sure no id up to `last` is handed out again.
    pub fn reserve_ids_through(&mut self, last: i64) -> (r: Result<(), SourcetrailError>)
        requires
            old(self)@.wf(),
        ensures
            final(self)@.wf(),
            last == i64::MAX ==> (r matches Err(e) && e is Database) && final(self)@ == old(self)@,
            last < i64::MAX ==> r is Ok && final(self)@ == (StoreView {
                next_id: if last < old(self)@.next_id {
                    old(self)@.next_id
                } else {
                    last + 1
                },
                ..old(self)@
            }),
    {
        if last == i64::MAX {
            return Err(out_of_ids());
        }
        if last >= self.next_id {
            self.next_id = last + 1;
        }
        Ok(())
    }
}


impl SourcetrailDB {
    /// Loads a file row persisted earlier, its modification time written
    /// `YYYY-MM-DD HH:MM:SS` in UTC. A file id already known is refused, and
    /// a time that does not parse is a `TypeConversion` failure.
    pub fn restore_file(
        &mut self,
        id: i64,
        path: &str,
        language: &str,
        modification_time: &str,
        indexed: bool,
        complete: bool,
        line_count: u32,
    ) -> (r: Result<(), SourcetrailError>)
        requires
            old(self)@.wf(),
        ensures
            final(self)@.wf(),
            has_file(old(self)@, id) ==> (r matches Err(e) && e is Database) && final(self)@ == old(
                self)@,
            !has_file(old(self)@, id) && utc_parsed(modification_time@) is None ==> (r matches Err(
                e,
            ) && e is TypeConversion) && final(self)@ == old(self)@,
            !has_file(old(self)@, id) && utc_parsed(modification_time@) is Some ==> r is Ok
                && final(self)@ == (StoreView { files: final(self)@.files, ..old(self)@ })
                && final(self)@.files.drop_last() == old(self)@.files
                && final(self)@.files.len() == old(self)@.files.len() + 1 && ({
                let f = final(self)@.files.last();
                f.id == id && f.path@ == path@ && f.language@ == language@ && f.modification_time
                    == utc_parsed(modification_time@)->Some_0 && f.indexed == indexed && f.complete
                    == complete && f.line_count == line_count
            }),
    {
        if self.find_file_index(id).is_some() {
            return Err(SourcetrailError::Database(String::from_str("file cannot be restored")));
        }
        let time = match parse_utc(modification_time) {
            Some(t) => t,
            None => return Err(SourcetrailError::TypeConversion(String::from_str(modification_time))),
        };
        self.files.push(File::new(id, path, language, time, indexed, complete, line_count));
        assert(self@.files.drop_last() =~= old(self)@.files);
        Ok(())
    }
}

} // verus!
