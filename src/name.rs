use vstd::prelude::*;
use crate::error::SourcetrailError;

verus! {

// ---------------------------------------------------------------------------
// The text encoding, stated over character sequences.
// ---------------------------------------------------------------------------

/// The two-character control marker `\t` followed by `c`.
pub open spec fn marker(c: char) -> Seq<char> {
    seq!['\t', c]
}

/// The letters that follow `\t` in the four control markers.
pub open spec fn is_marker_letter(c: char) -> bool {
    c == 'm' || c == 'n' || c == 's' || c == 'p'
}

/// `s` holds the marker `\t c` at position `i`.
pub open spec fn marker_at(s: Seq<char>, i: int, c: char) -> bool {
    0 <= i && i + 1 < s.len() && s[i] == '\t' && s[i + 1] == c
}

/// `s` nowhere holds the marker `\t c`.
pub open spec fn free_of(s: Seq<char>, c: char) -> bool {
    forall|i: int| !#[trigger] marker_at(s, i, c)
}

/// `s` holds none of the four control markers.
pub open spec fn free_of_markers(s: Seq<char>) -> bool {
    free_of(s, 'm') && free_of(s, 'n') && free_of(s, 's') && free_of(s, 'p')
}

/// The first position at or after `i` where the marker `\t c` starts, or -1.
pub open spec fn find_from(s: Seq<char>, c: char, i: int) -> int
    decreases s.len() - i,
{
    if i < 0 || i + 1 >= s.len() {
        -1
    } else if s[i] == '\t' && s[i + 1] == c {
        i
    } else {
        find_from(s, c, i + 1)
    }
}

/// The pieces of `s` from position `i` on, cut at each marker `\t c`.
pub open spec fn split_from(s: Seq<char>, c: char, i: int) -> Seq<Seq<char>>
    decreases s.len() - i,
{
    let k = find_from(s, c, i);
    if i <= k && k + 2 <= s.len() {
        seq![s.subrange(i, k)] + split_from(s, c, k + 2)
    } else {
        seq![s.subrange(i, s.len() as int)]
    }
}

/// The pieces of `s` cut at each marker `\t c`; there is always at least one.
pub open spec fn split(s: Seq<char>, c: char) -> Seq<Seq<char>> {
    split_from(s, c, 0)
}

/// What one name segment holds, each part possibly unset.
pub struct ElementView {
    pub prefix: Option<Seq<char>>,
    pub name: Option<Seq<char>>,
    pub postfix: Option<Seq<char>>,
}

/// A delimiter and the ordered segments of a qualified name.
pub struct HierarchyView {
    pub delimiter: Seq<char>,
    pub elements: Seq<ElementView>,
}

/// The text of an optional part: empty when unset.
pub open spec fn text(o: Option<Seq<char>>) -> Seq<char> {
    match o {
        Some(s) => s,
        None => Seq::empty(),
    }
}

/// `NAME \ts PREFIX \tp POSTFIX`.
pub open spec fn encode_element(e: ElementView) -> Seq<char> {
    text(e.name) + marker('s') + text(e.prefix) + marker('p') + text(e.postfix)
}

/// The encoded elements joined by `\tn`.
pub open spec fn join(es: Seq<ElementView>) -> Seq<char>
    decreases es.len(),
{
    if es.len() == 0 {
        Seq::empty()
    } else if es.len() == 1 {
        encode_element(es[0])
    } else {
        encode_element(es[0]) + marker('n') + join(es.drop_first())
    }
}

/// `DELIMITER \tm` followed by the joined elements `start..end`.
pub open spec fn encode_range(h: HierarchyView, start: int, end: int) -> Seq<char> {
    h.delimiter + marker('m') + join(h.elements.subrange(start, end))
}

/// The encoding of the whole hierarchy.
pub open spec fn encode(h: HierarchyView) -> Seq<char> {
    encode_range(h, 0, h.elements.len() as int)
}

/// One encoded segment read back: name before the first `\ts`, then prefix and
/// postfix around the first `\tp` of what follows.
pub open spec fn decode_element(p: Seq<char>) -> Option<ElementView> {
    let segs = split(p, 's');
    if segs.len() < 2 {
        None
    } else {
        let sp = split(segs[1], 'p');
        if sp.len() < 2 {
            None
        } else {
            Some(ElementView { prefix: Some(sp[0]), name: Some(segs[0]), postfix: Some(sp[1]) })
        }
    }
}

/// A whole encoded name read back: the delimiter before the first `\tm`, then
/// one segment per `\tn`-separated piece; `None` where any step fails.
pub open spec fn decode(s: Seq<char>) -> Option<HierarchyView> {
    let i = find_from(s, 'm', 0);
    if i < 0 {
        None
    } else {
        let pieces = split(s.subrange(i + 2, s.len() as int), 'n');
        if forall|j: int| 0 <= j < pieces.len() ==> #[trigger] decode_element(pieces[j]) is Some {
            Some(
                HierarchyView {
                    delimiter: s.subrange(0, i),
                    elements: pieces.map_values(|p: Seq<char>| decode_element(p)->Some_0),
                },
            )
        } else {
            None
        }
    }
}

/// The same segment with every unset part made explicit as empty text.
pub open spec fn normalized(e: ElementView) -> ElementView {
    ElementView { prefix: Some(text(e.prefix)), name: Some(text(e.name)), postfix: Some(text(e.postfix)) }
}

// ---------------------------------------------------------------------------
// Facts about markers, searching and splitting.
// ---------------------------------------------------------------------------

pub proof fn lemma_find_from_bounds(s: Seq<char>, c: char, i: int)
    ensures
        find_from(s, c, i) == -1 || (i <= find_from(s, c, i) && find_from(s, c, i) + 2 <= s.len()
            && marker_at(s, find_from(s, c, i), c)),
    decreases s.len() - i,
{
    if i < 0 || i + 1 >= s.len() {
    } else if s[i] == '\t' && s[i + 1] == c {
    } else {
        lemma_find_from_bounds(s, c, i + 1);
    }
}

/// Where `x` holds no marker `\t c`, the first one in `x`, the marker, then `y`
/// is the one after `x`.
pub proof fn lemma_find_first(x: Seq<char>, c: char, y: Seq<char>, i: int)
    requires
        is_marker_letter(c),
        free_of(x, c),
        0 <= i <= x.len(),
    ensures
        find_from(x + marker(c) + y, c, i) == x.len(),
    decreases x.len() - i,
{
    let t = x + marker(c) + y;
    if i < x.len() {
        if i + 1 < x.len() {
            assert(!marker_at(x, i, c));
            assert(t[i] == x[i] && t[i + 1] == x[i + 1]);
        } else {
            assert(t[i + 1] == '\t');
        }
        lemma_find_first(x, c, y, i + 1);
    } else {
        assert(t[i] == '\t' && t[i + 1] == c);
    }
}

pub proof fn lemma_find_none(s: Seq<char>, c: char, i: int)
    requires
        free_of(s, c),
        0 <= i,
    ensures
        find_from(s, c, i) == -1,
    decreases s.len() - i,
{
    if i + 1 < s.len() {
        assert(!marker_at(s, i, c));
        lemma_find_none(s, c, i + 1);
    }
}

pub proof fn lemma_split_single(x: Seq<char>, c: char)
    requires
        free_of(x, c),
    ensures
        split(x, c) == seq![x],
{
    lemma_find_none(x, c, 0);
    assert(x.subrange(0, x.len() as int) =~= x);
}

/// Searching `x + y` from inside `y` is searching `y`.
pub proof fn lemma_find_shift(x: Seq<char>, y: Seq<char>, c: char, i: int)
    requires
        0 <= i,
    ensures
        find_from(y, c, i) == -1 ==> find_from(x + y, c, x.len() + i) == -1,
        find_from(y, c, i) != -1 ==> find_from(x + y, c, x.len() + i) == find_from(y, c, i)
            + x.len(),
    decreases y.len() - i,
{
    let t = x + y;
    if i + 1 < y.len() {
        assert(t[x.len() + i] == y[i] && t[x.len() + i + 1] == y[i + 1]);
        lemma_find_shift(x, y, c, i + 1);
    }
}

/// Splitting `x + y` from inside `y` is splitting `y`.
pub proof fn lemma_split_shift(x: Seq<char>, y: Seq<char>, c: char, i: int)
    requires
        0 <= i <= y.len(),
    ensures
        split_from(x + y, c, x.len() + i) == split_from(y, c, i),
    decreases y.len() - i,
{
    let t = x + y;
    let k = find_from(y, c, i);
    lemma_find_from_bounds(y, c, i);
    lemma_find_shift(x, y, c, i);
    if k == -1 {
        assert(t.subrange(x.len() + i, t.len() as int) =~= y.subrange(i, y.len() as int));
    } else {
        assert(t.subrange(x.len() + i, x.len() + k) =~= y.subrange(i, k));
        lemma_split_shift(x, y, c, k + 2);
    }
}

/// Cutting at the first marker of `x`, the marker, `y`.
pub proof fn lemma_split_cons(x: Seq<char>, c: char, y: Seq<char>)
    requires
        is_marker_letter(c),
        free_of(x, c),
    ensures
        split(x + marker(c) + y, c) == seq![x] + split(y, c),
{
    let t = x + marker(c) + y;
    lemma_find_first(x, c, y, 0);
    assert(t.subrange(0, x.len() as int) =~= x);
    lemma_split_shift(x + marker(c), y, c, 0);
}

/// No marker appears where two marker-free texts meet, unless the first ends
/// in `\t` and the second starts with `c`.
pub proof fn lemma_free_concat(a: Seq<char>, b: Seq<char>, c: char)
    requires
        free_of(a, c),
        free_of(b, c),
        a.len() == 0 || b.len() == 0 || a.last() != '\t' || b[0] != c,
    ensures
        free_of(a + b, c),
{
    let t = a + b;
    assert forall|i: int| !#[trigger] marker_at(t, i, c) by {
        if marker_at(t, i, c) {
            if i + 1 < a.len() {
                assert(marker_at(a, i, c));
            } else if i >= a.len() {
                assert(marker_at(b, i - a.len(), c));
            } else {
                assert(t[i] == a.last() && t[i + 1] == b[0]);
            }
        }
    }
}

pub proof fn lemma_marker_free(m: char, c: char)
    requires
        m != c,
    ensures
        free_of(marker(m), c),
{
    assert forall|i: int| !#[trigger] marker_at(marker(m), i, c) by {
        if marker_at(marker(m), i, c) {
            assert(i == 0);
        }
    }
}

/// `a`, then the marker `\t m`, then `b` holds no marker `\t c` for another
/// letter `c`.
pub proof fn lemma_free_around(a: Seq<char>, m: char, b: Seq<char>, c: char)
    requires
        is_marker_letter(m),
        is_marker_letter(c),
        m != c,
        free_of(a, c),
        free_of(b, c),
    ensures
        free_of(a + marker(m) + b, c),
{
    lemma_marker_free(m, c);
    lemma_free_concat(a, marker(m), c);
    lemma_free_concat(a + marker(m), b, c);
}

/// No part of the segment holds a control marker.
pub open spec fn element_free_of_markers(e: ElementView) -> bool {
    free_of_markers(text(e.name)) && free_of_markers(text(e.prefix)) && free_of_markers(
        text(e.postfix),
    )
}

pub proof fn lemma_encode_element_free(e: ElementView)
    requires
        element_free_of_markers(e),
    ensures
        free_of(encode_element(e), 'n'),
{
    lemma_free_around(text(e.name), 's', text(e.prefix), 'n');
    lemma_free_around(text(e.name) + marker('s') + text(e.prefix), 'p', text(e.postfix), 'n');
}

/// A segment's encoding reads back as the segment with its parts made explicit.
pub proof fn lemma_decode_element(e: ElementView)
    requires
        element_free_of_markers(e),
    ensures
        decode_element(encode_element(e)) == Some(normalized(e)),
{
    let (nm, pre, post) = (text(e.name), text(e.prefix), text(e.postfix));
    let tail = pre + marker('p') + post;
    assert(encode_element(e) =~= nm + marker('s') + tail);
    lemma_split_cons(nm, 's', tail);
    lemma_free_around(pre, 'p', post, 's');
    lemma_split_single(tail, 's');
    let segs = split(encode_element(e), 's');
    assert(segs =~= seq![nm, tail]);
    lemma_split_cons(pre, 'p', post);
    lemma_split_single(post, 'p');
    assert(split(tail, 'p') =~= seq![pre, post]);
}

/// The joined encodings cut at `\tn` are the encodings, one per segment.
pub proof fn lemma_split_join(es: Seq<ElementView>)
    requires
        es.len() >= 1,
        forall|j: int| 0 <= j < es.len() ==> element_free_of_markers(#[trigger] es[j]),
    ensures
        split(join(es), 'n') == es.map_values(|e: ElementView| encode_element(e)),
    decreases es.len(),
{
    lemma_encode_element_free(es[0]);
    if es.len() == 1 {
        lemma_split_single(encode_element(es[0]), 'n');
        assert(es.map_values(|e: ElementView| encode_element(e)) =~= seq![encode_element(es[0])]);
    } else {
        let rest = es.drop_first();
        assert forall|j: int| 0 <= j < rest.len() implies element_free_of_markers(
            #[trigger] rest[j],
        ) by {
            assert(rest[j] == es[j + 1]);
        }
        lemma_split_join(rest);
        lemma_split_cons(encode_element(es[0]), 'n', join(rest));
        assert(es.map_values(|e: ElementView| encode_element(e)) =~= seq![encode_element(es[0])]
            + rest.map_values(|e: ElementView| encode_element(e)));
    }
}

/// Decoding the encoding of a hierarchy gives the hierarchy back, segment for
/// segment and delimiter for delimiter, provided that no segment text holds a
/// control marker and the delimiter does not hold `\tm`; unset parts come back
/// as empty text.
pub proof fn lemma_round_trip(h: HierarchyView)
    requires
        h.elements.len() > 0,
        free_of(h.delimiter, 'm'),
        forall|j: int| 0 <= j < h.elements.len() ==> element_free_of_markers(#[trigger] h.elements[j]),
    ensures
        decode(encode(h)) == Some(
            HierarchyView {
                delimiter: h.delimiter,
                elements: h.elements.map_values(|e: ElementView| normalized(e)),
            },
        ),
{
    let es = h.elements;
    assert(es.subrange(0, es.len() as int) =~= es);
    let body = join(es);
    let s = encode(h);
    assert(s == h.delimiter + marker('m') + body);
    lemma_find_first(h.delimiter, 'm', body, 0);
    let i = h.delimiter.len() as int;
    assert(s.subrange(i + 2, s.len() as int) =~= body);
    assert(s.subrange(0, i) =~= h.delimiter);
    lemma_split_join(es);
    let pieces = split(body, 'n');
    assert forall|j: int| 0 <= j < pieces.len() implies #[trigger] decode_element(pieces[j])
        == Some(normalized(es[j])) by {
        lemma_decode_element(es[j]);
    }
    assert(pieces.map_values(|p: Seq<char>| decode_element(p)->Some_0) =~= es.map_values(
        |e: ElementView| normalized(e),
    ));
}

// ---------------------------------------------------------------------------
// NameElement
// ---------------------------------------------------------------------------

/// One segment of a qualified name.
#[derive(Debug, Default)]
pub struct NameElement {
    prefix: Option<String>,
    name: Option<String>,
    postfix: Option<String>,
}

/// The text of an optional owned string.
pub open spec fn opt_view(o: Option<String>) -> Option<Seq<char>> {
    match o {
        Some(s) => Some(s@),
        None => None,
    }
}

/// The text of an optional borrowed string.
pub open spec fn opt_str_view(o: Option<&str>) -> Option<Seq<char>> {
    match o {
        Some(s) => Some(s@),
        None => None,
    }
}

fn opt_as_str(o: &Option<String>) -> (r: Option<&str>)
    ensures
        opt_str_view(r) == opt_view(*o),
{
    match o {
        Some(s) => Some(s.as_str()),
        None => None,
    }
}

impl View for NameElement {
    type V = ElementView;

    closed spec fn view(&self) -> ElementView {
        ElementView {
            prefix: opt_view(self.prefix),
            name: opt_view(self.name),
            postfix: opt_view(self.postfix),
        }
    }
}

impl NameElement {
    pub fn new(prefix: Option<String>, name: Option<String>, postfix: Option<String>) -> (r: Self)
        ensures
            r@ == (ElementView {
                prefix: opt_view(prefix),
                name: opt_view(name),
                postfix: opt_view(postfix),
            }),
    {
        NameElement { prefix, name, postfix }
    }

    pub fn builder() -> (r: NameElementBuilder)
        ensures
            r@ == (ElementView { prefix: None, name: None, postfix: None }),
    {
        NameElementBuilder::new()
    }

    pub fn prefix(&self) -> (r: Option<&str>)
        ensures
            opt_str_view(r) == self@.prefix,
    {
        opt_as_str(&self.prefix)
    }

    pub fn name(&self) -> (r: Option<&str>)
        ensures
            opt_str_view(r) == self@.name,
    {
        opt_as_str(&self.name)
    }

    pub fn postfix(&self) -> (r: Option<&str>)
        ensures
            opt_str_view(r) == self@.postfix,
    {
        opt_as_str(&self.postfix)
    }

    pub fn set_prefix(&mut self, prefix: &str)
        ensures
            final(self)@ == (ElementView { prefix: Some(prefix@), ..old(self)@ }),
    {
        self.prefix = Some(String::from_str(prefix));
    }

    pub fn set_name(&mut self, name: &str)
        ensures
            final(self)@ == (ElementView { name: Some(name@), ..old(self)@ }),
    {
        self.name = Some(String::from_str(name));
    }

    pub fn set_postfix(&mut self, postfix: &str)
        ensures
            final(self)@ == (ElementView { postfix: Some(postfix@), ..old(self)@ }),
    {
        self.postfix = Some(String::from_str(postfix));
    }
}

/// Collects the parts of a [`NameElement`]; parts never set stay unset.
#[derive(Debug, Default)]
pub struct NameElementBuilder {
    prefix: Option<String>,
    name: Option<String>,
    postfix: Option<String>,
}

impl View for NameElementBuilder {
    type V = ElementView;

    closed spec fn view(&self) -> ElementView {
        ElementView {
            prefix: opt_view(self.prefix),
            name: opt_view(self.name),
            postfix: opt_view(self.postfix),
        }
    }
}

impl NameElementBuilder {
    pub fn new() -> (r: Self)
        ensures
            r@ == (ElementView { prefix: None, name: None, postfix: None }),
    {
        NameElementBuilder { prefix: None, name: None, postfix: None }
    }

    pub fn prefix(self, prefix: &str) -> (r: Self)
        ensures
            r@ == (ElementView { prefix: Some(prefix@), ..self@ }),
    {
        NameElementBuilder { prefix: Some(String::from_str(prefix)), ..self }
    }

    pub fn name(self, name: &str) -> (r: Self)
        ensures
            r@ == (ElementView { name: Some(name@), ..self@ }),
    {
        NameElementBuilder { name: Some(String::from_str(name)), ..self }
    }

    pub fn postfix(self, postfix: &str) -> (r: Self)
        ensures
            r@ == (ElementView { postfix: Some(postfix@), ..self@ }),
    {
        NameElementBuilder { postfix: Some(String::from_str(postfix)), ..self }
    }

    pub fn build(self) -> (r: NameElement)
        ensures
            r@ == self@,
    {
        NameElement { prefix: self.prefix, name: self.name, postfix: self.postfix }
    }
}


// ---------------------------------------------------------------------------
// Reading the encoding back.
// ---------------------------------------------------------------------------

pub(crate) fn chars_of(s: &str) -> (r: Vec<char>)
    ensures
        r@ == s@,
{
    let n = s.unicode_len();
    let mut r: Vec<char> = Vec::new();
    let mut i: usize = 0;
    while i < n
        invariant
            n == s@.len(),
            i <= n,
            r@ == s@.subrange(0, i as int),
        decreases n - i,
    {
        r.push(s.get_char(i));
        i = i + 1;
        assert(r@ =~= s@.subrange(0, i as int));
    }
    assert(r@ =~= s@);
    r
}

fn sub_chars(v: &Vec<char>, a: usize, b: usize) -> (r: Vec<char>)
    requires
        a <= b <= v@.len(),
    ensures
        r@ == v@.subrange(a as int, b as int),
{
    let mut r: Vec<char> = Vec::new();
    let mut i = a;
    while i < b
        invariant
            a <= i <= b <= v@.len(),
            r@ == v@.subrange(a as int, i as int),
        decreases b - i,
    {
        r.push(v[i]);
        i = i + 1;
        assert(r@ =~= v@.subrange(a as int, i as int));
    }
    r
}

/// The first position at or after `from` where `\t c` starts.
fn find_marker(v: &Vec<char>, c: char, from: usize) -> (r: Option<usize>)
    ensures
        match r {
            Some(k) => find_from(v@, c, from as int) == k as int,
            None => find_from(v@, c, from as int) == -1,
        },
{
    let mut i = from;
    while i < v.len() && i + 1 < v.len()
        invariant
            from <= i,
            find_from(v@, c, from as int) == find_from(v@, c, i as int),
        decreases v@.len() - i,
    {
        if v[i] == '\t' && v[i + 1] == c {
            return Some(i);
        }
        i = i + 1;
    }
    None
}

pub open spec fn range_texts(v: Seq<char>, rs: Seq<(usize, usize)>) -> Seq<Seq<char>> {
    rs.map_values(|p: (usize, usize)| v.subrange(p.0 as int, p.1 as int))
}

/// The bounds of the pieces of `v` cut at each `\t c`.
fn split_ranges(v: &Vec<char>, c: char) -> (r: Vec<(usize, usize)>)
    ensures
        r@.len() == split(v@, c).len(),
        forall|j: int| 0 <= j < r@.len() ==> #[trigger] r@[j].0 <= r@[j].1 <= v@.len(),
        range_texts(v@, r@) == split(v@, c),
{
    let mut r: Vec<(usize, usize)> = Vec::new();
    let mut pos: usize = 0;
    let n = v.len();
    loop
        invariant
            n == v@.len(),
            pos <= v@.len(),
            forall|j: int| 0 <= j < r@.len() ==> #[trigger] r@[j].0 <= r@[j].1 <= v@.len(),
            split(v@, c) == range_texts(v@, r@) + split_from(v@, c, pos as int),
        decreases v@.len() - pos,
    {
        proof {
            lemma_find_from_bounds(v@, c, pos as int);
        }
        match find_marker(v, c, pos) {
            Some(k) => {
                let ghost old_r = r@;
                r.push((pos, k));
                assert(range_texts(v@, r@) =~= range_texts(v@, old_r).push(
                    v@.subrange(pos as int, k as int),
                ));
                assert(split_from(v@, c, pos as int) == seq![v@.subrange(pos as int, k as int)]
                    + split_from(v@, c, k + 2));
                assert(split(v@, c) =~= range_texts(v@, r@) + split_from(v@, c, k + 2));
                pos = k + 2;
            },
            None => {
                let ghost old_r = r@;
                r.push((pos, v.len()));
                assert(range_texts(v@, r@) =~= range_texts(v@, old_r).push(
                    v@.subrange(pos as int, v@.len() as int),
                ));
                assert(split(v@, c) =~= range_texts(v@, r@));
                return r;
            },
        }
    }
}

/// Reads one segment; `piece` is `s` from `off` on.
fn decode_piece(s: &str, off: usize, piece: &Vec<char>) -> (r: Option<NameElement>)
    requires
        off + piece@.len() <= s@.len() <= usize::MAX,
        piece@ == s@.subrange(off as int, off + piece@.len()),
    ensures
        match r {
            Some(e) => decode_element(piece@) == Some(e@),
            None => decode_element(piece@) is None,
        },
{
    let segs = split_ranges(piece, 's');
    if segs.len() < 2 {
        return None;
    }
    let (a0, b0) = segs[0];
    let (a1, b1) = segs[1];
    assert(segs@[0].0 <= segs@[0].1 <= piece@.len());
    assert(segs@[1].0 <= segs@[1].1 <= piece@.len());
    assert(range_texts(piece@, segs@)[0] == piece@.subrange(a0 as int, b0 as int));
    assert(range_texts(piece@, segs@)[1] == piece@.subrange(a1 as int, b1 as int));
    let seg1 = sub_chars(piece, a1, b1);
    let sp = split_ranges(&seg1, 'p');
    if sp.len() < 2 {
        return None;
    }
    let (c0, d0) = sp[0];
    let (c1, d1) = sp[1];
    assert(sp@[0].0 <= sp@[0].1 <= seg1@.len());
    assert(sp@[1].0 <= sp@[1].1 <= seg1@.len());
    assert(range_texts(seg1@, sp@)[0] == seg1@.subrange(c0 as int, d0 as int));
    assert(range_texts(seg1@, sp@)[1] == seg1@.subrange(c1 as int, d1 as int));
    let name = String::from_str(s.substring_char(off + a0, off + b0));
    let prefix = String::from_str(s.substring_char(off + a1 + c0, off + a1 + d0));
    let postfix = String::from_str(s.substring_char(off + a1 + c1, off + a1 + d1));
    assert(name@ =~= piece@.subrange(a0 as int, b0 as int));
    assert(prefix@ =~= seg1@.subrange(c0 as int, d0 as int));
    assert(postfix@ =~= seg1@.subrange(c1 as int, d1 as int));
    let e = NameElement { prefix: Some(prefix), name: Some(name), postfix: Some(postfix) };
    assert(e@ == decode_element(piece@)->Some_0);
    Some(e)
}

// ---------------------------------------------------------------------------
// NameHierarchy
// ---------------------------------------------------------------------------

/// A qualified name: a delimiter and a non-empty ordered list of segments.
#[derive(Debug)]
pub struct NameHierarchy {
    delimiter: String,
    elements: Vec<NameElement>,
}

impl View for NameHierarchy {
    type V = HierarchyView;

    closed spec fn view(&self) -> HierarchyView {
        HierarchyView {
            delimiter: self.delimiter@,
            elements: self.elements@.map_values(|e: NameElement| e@),
        }
    }
}

pub proof fn lemma_join_push(es: Seq<ElementView>, e: ElementView)
    requires
        es.len() >= 1,
    ensures
        join(es.push(e)) == join(es) + marker('n') + encode_element(e),
    decreases es.len(),
{
    if es.len() == 1 {
        assert(es.push(e).drop_first() =~= seq![e]);
        assert(join(seq![e]) == encode_element(e));
    } else {
        assert(es.push(e).drop_first() =~= es.drop_first().push(e));
        lemma_join_push(es.drop_first(), e);
    }
}

fn append_text(out: &mut String, o: &Option<String>)
    ensures
        final(out)@ == old(out)@ + text(opt_view(*o)),
{
    match o {
        Some(s) => out.append(s.as_str()),
        None => {
            assert(old(out)@ + text(opt_view(*o)) =~= old(out)@);
        },
    }
}

fn append_element(out: &mut String, e: &NameElement)
    ensures
        final(out)@ == old(out)@ + encode_element(e@),
{
    proof {
        reveal_strlit("\ts");
        reveal_strlit("\tp");
    }
    append_text(out, &e.name);
    out.append("\ts");
    append_text(out, &e.prefix);
    out.append("\tp");
    append_text(out, &e.postfix);
    assert(final(out)@ =~= old(out)@ + encode_element(e@));
}

impl NameHierarchy {
    /// The separator inside a marker.
    pub const DELIMITER: &'static str = "\t";
    /// Ends the delimiter.
    pub const META_DELIMITER: &'static str = "\tm";
    /// Separates two segments.
    pub const NAME_DELIMITER: &'static str = "\tn";
    /// Ends the name of a segment.
    pub const PART_DELIMITER: &'static str = "\ts";
    /// Separates prefix from postfix of a segment.
    pub const SIGNATURE_DELIMITER: &'static str = "\tp";
    /// Joins the display form of a file path.
    pub const NAME_DELIMITER_FILE: &'static str = "/";
    /// Joins the display form of a C++ name.
    pub const NAME_DELIMITER_CXX: &'static str = "::";
    /// Joins the display form of a Java name.
    pub const NAME_DELIMITER_JAVA: &'static str = ".";
    /// The delimiter namespace of names whose language is unknown.
    pub const NAME_DELIMITER_UNKNOWN: &'static str = "@";

    /// Holds when the hierarchy has at least one segment.
    pub open spec fn wf(&self) -> bool {
        self@.elements.len() > 0
    }

    pub fn new(delimiter: &str, elements: Vec<NameElement>) -> (r: Result<Self, SourcetrailError>)
        ensures
            elements@.len() == 0 ==> r == Err::<Self, SourcetrailError>(SourcetrailError::EmptyNameHierarchy),
            elements@.len() > 0 ==> (r matches Ok(h) && h.wf() && h@ == (HierarchyView {
                delimiter: delimiter@,
                elements: elements@.map_values(|e: NameElement| e@),
            })),
    {
        if elements.len() == 0 {
            return Err(SourcetrailError::EmptyNameHierarchy);
        }
        Ok(NameHierarchy { delimiter: String::from_str(delimiter), elements })
    }

    pub fn delimiter(&self) -> (r: &str)
        ensures
            r@ == self@.delimiter,
    {
        self.delimiter.as_str()
    }

    pub fn names(&self) -> (r: &[NameElement])
        ensures
            r@.map_values(|e: NameElement| e@) == self@.elements,
    {
        self.elements.as_slice()
    }

    pub fn size(&self) -> (r: usize)
        ensures
            r == self@.elements.len(),
    {
        self.elements.len()
    }

    pub fn push_element(&mut self, element: NameElement)
        ensures
            final(self)@ == (HierarchyView {
                elements: old(self)@.elements.push(element@),
                ..old(self)@
            }),
    {
        self.elements.push(element);
        assert(self@.elements =~= old(self)@.elements.push(element@));
    }

    pub fn extend_elements(&mut self, elements: Vec<NameElement>)
        ensures
            final(self)@ == (HierarchyView {
                elements: old(self)@.elements + elements@.map_values(|e: NameElement| e@),
                ..old(self)@
            }),
    {
        let mut more = elements;
        self.elements.append(&mut more);
        assert(self@.elements =~= old(self)@.elements + elements@.map_values(|e: NameElement| e@));
    }

    /// Encodes the segments `start..end`.
    pub fn serialize_range(&self, start: usize, end: usize) -> (r: Result<String, SourcetrailError>)
        ensures
            start < end <= self@.elements.len() ==> (r matches Ok(s) && s@ == encode_range(
                self@,
                start as int,
                end as int,
            )),
            !(start < end <= self@.elements.len()) ==> r == Err::<String, SourcetrailError>(
                SourcetrailError::Serialize,
            ),
    {
        if start >= end || end > self.elements.len() {
            return Err(SourcetrailError::Serialize);
        }
        proof {
            reveal_strlit("\tm");
        }
        let ghost es = self@.elements;
        let mut out = String::new();
        out.append(self.delimiter.as_str());
        out.append("\tm");
        let mut i = start;
        assert(es.subrange(start as int, start as int) =~= Seq::<ElementView>::empty());
        assert(out@ =~= self.delimiter@ + marker('m') + join(es.subrange(start as int, i as int)));
        while i < end
            invariant
                start <= i <= end <= self.elements@.len(),
                es == self@.elements,
                out@ == self.delimiter@ + marker('m') + join(es.subrange(start as int, i as int)),
            decreases end - i,
        {
            let ghost before = out@;
            let ghost done = es.subrange(start as int, i as int);
            assert(es.subrange(start as int, i + 1) =~= done.push(es[i as int]));
            assert(es[i as int] == self.elements@[i as int]@);
            if i > start {
                proof {
                    reveal_strlit("\tn");
                }
                out.append("\tn");
                assert("\tn"@ =~= marker('n'));
                append_element(&mut out, &self.elements[i]);
                proof {
                    lemma_join_push(done, es[i as int]);
                }
                assert(out@ =~= before + marker('n') + encode_element(es[i as int]));
                assert(out@ =~= self.delimiter@ + marker('m') + join(es.subrange(start as int, i + 1)));
            } else {
                append_element(&mut out, &self.elements[i]);
                assert(done =~= Seq::<ElementView>::empty());
                assert(join(done) =~= Seq::<char>::empty());
                assert(es.subrange(start as int, i + 1) =~= seq![es[i as int]]);
                assert(join(seq![es[i as int]]) == encode_element(es[i as int]));
                assert(out@ =~= self.delimiter@ + marker('m') + join(es.subrange(start as int, i + 1)));
            }
            i = i + 1;
        }
        Ok(out)
    }

    /// Reads a hierarchy back from its encoding.
    pub fn deserialize_name(serialized_name: &str) -> (r: Result<NameHierarchy, SourcetrailError>)
        ensures
            match decode(serialized_name@) {
                Some(v) => r matches Ok(h) && h.wf() && h@ == v,
                None => r == Err::<NameHierarchy, SourcetrailError>(SourcetrailError::Deserialize),
            },
    {
        let chars = chars_of(serialized_name);
        assert(chars@.len() == chars.len());
        let m = match find_marker(&chars, 'm', 0) {
            Some(m) => m,
            None => return Err(SourcetrailError::Deserialize),
        };
        proof {
            lemma_find_from_bounds(chars@, 'm', 0);
        }
        let delimiter = String::from_str(serialized_name.substring_char(0, m));
        let base = m + 2;
        let rest = sub_chars(&chars, base, chars.len());
        let pieces = split_ranges(&rest, 'n');
        let ghost ps = split(rest@, 'n');
        let mut elements: Vec<NameElement> = Vec::new();
        let mut j: usize = 0;
        while j < pieces.len()
            invariant
                serialized_name@.len() <= usize::MAX,
                find_from(serialized_name@, 'm', 0) == m as int,
                base == m + 2,
                base + rest@.len() == serialized_name@.len(),
                rest@ == serialized_name@.subrange(base as int, serialized_name@.len() as int),
                ps == split(rest@, 'n'),
                pieces@.len() == ps.len(),
                forall|k: int| 0 <= k < pieces@.len() ==> #[trigger] pieces@[k].0 <= pieces@[k].1
                    <= rest@.len(),
                range_texts(rest@, pieces@) == ps,
                j <= pieces@.len(),
                forall|k: int| 0 <= k < j ==> #[trigger] decode_element(ps[k]) is Some,
                elements@.map_values(|e: NameElement| e@) == ps.take(j as int).map_values(
                    |p: Seq<char>| decode_element(p)->Some_0,
                ),
            decreases pieces@.len() - j,
        {
            let (a, b) = pieces[j];
            assert(pieces@[j as int].0 <= pieces@[j as int].1 <= rest@.len());
            assert(range_texts(rest@, pieces@)[j as int] == rest@.subrange(a as int, b as int));
            let piece = sub_chars(&rest, a, b);
            assert(piece@ =~= serialized_name@.subrange(base + a, base + a + piece@.len()));
            match decode_piece(serialized_name, base + a, &piece) {
                Some(e) => {
                    let ghost before = elements@;
                    elements.push(e);
                    assert(ps.take(j + 1) =~= ps.take(j as int).push(ps[j as int]));
                    assert(elements@.map_values(|e: NameElement| e@) =~= before.map_values(
                        |e: NameElement| e@,
                    ).push(e@));
                    assert(elements@.map_values(|e: NameElement| e@) =~= ps.take(j + 1).map_values(
                        |p: Seq<char>| decode_element(p)->Some_0,
                    ));
                },
                None => {
                    assert(piece@ == ps[j as int]);
                    assert(decode(serialized_name@) is None);
                    return Err(SourcetrailError::Deserialize);
                },
            }
            j = j + 1;
        }
        assert(ps.take(j as int) =~= ps);
        let h = NameHierarchy { delimiter, elements };
        assert(h@ =~= decode(serialized_name@)->Some_0);
        Ok(h)
    }

    /// Encodes the whole hierarchy.
    pub fn serialize_name(&self) -> (r: Result<String, SourcetrailError>)
        ensures
            self.wf() ==> (r matches Ok(s) && s@ == encode(self@)),
            !self.wf() ==> r == Err::<String, SourcetrailError>(SourcetrailError::Serialize),
    {
        self.serialize_range(0, self.size())
    }
}

} // verus!
