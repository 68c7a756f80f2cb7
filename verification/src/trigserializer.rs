//! A TriG serializer that is configured first and then written to, and that
//! hands out one blank node per label.

use vstd::prelude::*;

use crate::rdf::{RdfGraph, RdfNode, RdfQuad, RdfTerm};

verus! {

#[verifier::external_type_specification]
#[verifier::external_body]
pub struct ExBlankNode(oxrdf::BlankNode);

#[verifier::external_type_specification]
#[verifier::external_body]
pub struct ExNamedOrBlankNodeRef<'a>(oxrdf::NamedOrBlankNodeRef<'a>);

#[verifier::external_type_specification]
#[verifier::external_body]
pub struct ExTermRef<'a>(oxrdf::TermRef<'a>);

#[verifier::external_type_specification]
#[verifier::external_body]
pub struct ExGraphNameRef<'a>(oxrdf::GraphNameRef<'a>);

#[verifier::external_type_specification]
#[verifier::external_body]
pub struct ExQuadRef<'a>(oxrdf::QuadRef<'a>);

/// The oxrdf subject for a plain subject (`NamedNodeRef::new_unchecked`,
/// `BlankNodeRef::new_unchecked`), borrowing its text.
#[verifier::external_body]
fn node_ref(n: &RdfNode) -> oxrdf::NamedOrBlankNodeRef<'_> {
    match n {
        RdfNode::Named(x) => oxrdf::NamedNodeRef::new_unchecked(x).into(),
        RdfNode::Blank(x) => oxrdf::BlankNodeRef::new_unchecked(x).into(),
    }
}

/// The oxrdf term for a plain object: a language-tagged literal by
/// `LiteralRef::new_language_tagged_literal_unchecked`, another literal by
/// `LiteralRef::new_typed_literal` with its datatype.
#[verifier::external_body]
fn term_ref(t: &RdfTerm) -> oxrdf::TermRef<'_> {
    match t {
        RdfTerm::Named(x) => oxrdf::NamedNodeRef::new_unchecked(x).into(),
        RdfTerm::Blank(x) => oxrdf::BlankNodeRef::new_unchecked(x).into(),
        RdfTerm::Literal { value, language: Some(l), .. } => oxrdf::LiteralRef::new_language_tagged_literal_unchecked(value, l).into(),
        RdfTerm::Literal { value, language: None, datatype } => oxrdf::LiteralRef::new_typed_literal(value, oxrdf::NamedNodeRef::new_unchecked(datatype)).into(),
    }
}

/// The oxrdf graph name for a plain graph.
#[verifier::external_body]
fn graph_ref(g: &RdfGraph) -> oxrdf::GraphNameRef<'_> {
    match g {
        RdfGraph::Default => oxrdf::GraphNameRef::DefaultGraph,
        RdfGraph::Named(x) => oxrdf::NamedNodeRef::new_unchecked(x).into(),
        RdfGraph::Blank(x) => oxrdf::BlankNodeRef::new_unchecked(x).into(),
    }
}

/// The oxrdf quad for a plain quad (`QuadRef::new`).
#[verifier::external_body]
fn quad_ref(q: &RdfQuad) -> oxrdf::QuadRef<'_> {
    oxrdf::QuadRef::new(node_ref(&q.subject), oxrdf::NamedNodeRef::new_unchecked(&q.predicate), term_ref(&q.object), graph_ref(&q.graph))
}

/// The TriG text that oxttl's serializer with its default settings (no base
/// IRI, no prefixes) appends for `quad` when the quad it wrote last is
/// `last` (`None`: no quad yet). The serializer's state after a quad is the
/// graph, subject and predicate of that quad, so the text depends on these
/// two quads alone.
pub uninterp spec fn trig_quad_text(last: Option<RdfQuad>, quad: RdfQuad) -> Seq<u8>;

/// The text that `LowLevelTriGSerializer::serialize_quad` appends for `quad`,
/// the serializer being in the state that writing `last` leaves it in: the
/// serializer is brought there by writing `last` into a sink. Writing into a
/// `Vec<u8>` never fails, and every branch of `serialize_quad` writes at
/// least the object term, so the text is not empty.
#[verifier::external_body]
fn quad_text(last: &Option<RdfQuad>, quad: &RdfQuad) -> (res: Vec<u8>)
    ensures
        res@ == trig_quad_text(*last, *quad),
        res@.len() > 0,
{
    let mut serializer = oxttl::TriGSerializer::new().low_level();
    match last {
        Some(p) => { let _ = serializer.serialize_quad(quad_ref(p), std::io::sink()); },
        None => {},
    }
    let mut out = Vec::new();
    let _ = serializer.serialize_quad(quad_ref(quad), &mut out);
    out
}

/// The closing text of a TriG document whose last quad is `last`: nothing
/// when no quad was written; otherwise " .\n" ending the last statement and,
/// when that quad was in a named graph, "}\n" closing the graph.
pub open spec fn trig_closing_text(last: Option<RdfQuad>) -> Seq<u8> {
    match last {
        None => Seq::empty(),
        Some(q) => seq![32u8, 46u8, 10u8] + if q.graph is Default {
            Seq::<u8>::empty()
        } else {
            seq![125u8, 10u8]
        },
    }
}

/// The text that `LowLevelTriGSerializer::finish` writes, the serializer
/// being in the state that writing `last` leaves it in (brought there by
/// writing `last` into a sink).
#[verifier::external_body]
fn closing_text(last: &Option<RdfQuad>) -> (res: Vec<u8>)
    ensures
        res@ == trig_closing_text(*last),
{
    let mut serializer = oxttl::TriGSerializer::new().low_level();
    match last {
        Some(p) => { let _ = serializer.serialize_quad(quad_ref(p), std::io::sink()); },
        None => {},
    }
    let mut out = Vec::new();
    let _ = serializer.finish(&mut out);
    out
}

/// A new blank node (`BlankNode::default`), which oxrdf documents as built
/// "with a unique id" (128 random bits): it is none of the blank nodes
/// already kept in `taken`.
#[verifier::external_body]
fn fresh_blank_node(taken: &Vec<(String, oxrdf::BlankNode)>) -> (res: oxrdf::BlankNode)
    ensures
        forall|i: int| 0 <= i < taken@.len() ==> taken@[i].1 != res,
{
    let _ = taken;
    oxrdf::BlankNode::default()
}

/// A copy of a blank node (the derived `Clone` of `BlankNode`, which copies
/// its identifier), equal to it.
#[verifier::external_body]
fn copy_blank_node(b: &oxrdf::BlankNode) -> (res: oxrdf::BlankNode)
    ensures
        res == *b,
{
    b.clone()
}

/// The text written so far, and the quad written last.
struct TrigWriter {
    output: Vec<u8>,
    last: Option<RdfQuad>,
}

/// The blank node that `table` holds for `label`: that of its first entry
/// with this label.
pub open spec fn lookup_bnode(table: Seq<(String, oxrdf::BlankNode)>, label: Seq<char>) -> Option<
    oxrdf::BlankNode,
>
    decreases table.len(),
{
    if table.len() == 0 {
        None
    } else if table[0].0@ == label {
        Some(table[0].1)
    } else {
        lookup_bnode(table.drop_first(), label)
    }
}

proof fn lemma_lookup_push(table: Seq<(String, oxrdf::BlankNode)>, e: (String, oxrdf::BlankNode), label: Seq<char>)
    ensures
        lookup_bnode(table.push(e), label) == (if lookup_bnode(table, label) is Some {
            lookup_bnode(table, label)
        } else if e.0@ == label {
            Some(e.1)
        } else {
            None
        }),
    decreases table.len(),
{
    if table.len() > 0 {
        assert(table.push(e).drop_first() =~= table.drop_first().push(e));
        lemma_lookup_push(table.drop_first(), e, label);
    } else {
        assert(table.push(e).drop_first() =~= table);
    }
}

/// The settings of the TriG output: oxttl's defaults, no base IRI and no
/// prefixes (setting a base IRI or a prefix is not offered).
pub struct TrigSettings {}

proof fn lemma_lookup_found(table: Seq<(String, oxrdf::BlankNode)>, label: Seq<char>)
    ensures
        lookup_bnode(table, label) matches Some(b) ==> exists|i: int|
            0 <= i < table.len() && #[trigger] table[i].1 == b,
    decreases table.len(),
{
    if table.len() > 0 && table[0].0@ != label {
        lemma_lookup_found(table.drop_first(), label);
        if lookup_bnode(table, label) is Some {
            let b = lookup_bnode(table, label)->0;
            let i = choose|i: int| 0 <= i < table.drop_first().len() && #[trigger] table.drop_first()[i].1 == b;
            assert(table[i + 1].1 == b);
        }
    } else if table.len() > 0 {
        assert(table[0].1 == lookup_bnode(table, label)->0);
    }
}

/// Serializes quads as TriG. It starts configured; the first quad turns the
/// configuration into a writer, and `finish` hands out what was written.
pub struct TrigSerializer {
    pub config: Option<TrigSettings>,
    writer: Option<TrigWriter>,
    /// Label and blank node, one entry per label, in the order handed out.
    /// A `Vec` and not a `HashMap<String, _>`: the specification of
    /// `HashMap` holds only for key types with a known hashing model, which
    /// integer keys have and `String` has not, so nothing could be shown of
    /// lookups by label.
    bnodemap: Vec<(String, oxrdf::BlankNode)>,
}

impl TrigSerializer {
    /// The configuration, until the first quad turns it into a writer.
    pub closed spec fn configuration(&self) -> Option<TrigSettings> {
        self.config
    }

    /// The text written so far, while the serializer is writing.
    pub closed spec fn output(&self) -> Option<Seq<u8>> {
        match self.writer {
            Some(w) => Some(w.output@),
            None => None,
        }
    }

    /// The quad written last, while the serializer is writing and has
    /// written one.
    pub closed spec fn last_quad(&self) -> Option<RdfQuad> {
        match self.writer {
            Some(w) => w.last,
            None => None,
        }
    }

    /// The blank node handed out for `label`, if any was.
    pub closed spec fn bnode_for(&self, label: Seq<char>) -> Option<oxrdf::BlankNode> {
        lookup_bnode(self.bnodemap@, label)
    }

    /// A configured serializer that has written nothing and handed out no
    /// blank node.
    pub fn new() -> (res: Self)
        ensures
            res.configuration() is Some,
            res.output() is None,
            res.last_quad() is None,
            forall|label: Seq<char>| res.bnode_for(label) is None,
    {
        TrigSerializer { config: Some(TrigSettings {}), writer: None, bnodemap: Vec::new() }
    }

    /// Ends the document and hands out the text written, then the closing
    /// text, then a 0 byte. Fails exactly when nothing is being written (no
    /// quad since the start or since the last `finish`), and then changes
    /// nothing. Afterwards nothing is being written.
    pub fn finish(&mut self) -> (res: Result<Vec<u8>, ()>)
        ensures
            finish_step(*old(self), *final(self), res),
    {
        let writer = match self.writer.take() {
            None => {
                return Err(());
            },
            Some(w) => w,
        };
        let TrigWriter { mut output, last } = writer;
        let ghost written = output@;
        let mut end = closing_text(&last);
        output.append(&mut end);
        output.push(0u8);
        assert(output@ =~= written + trig_closing_text(last) + seq![0u8]);
        Ok(output)
    }

    /// Makes sure a writer exists: a configuration still present becomes a
    /// new writer, with nothing written, in place of any earlier one.
    pub fn in_write_state(&mut self)
        ensures
            write_state_step(*old(self), *final(self)),
    {
        match self.config.take() {
            None => {},
            Some(_) => {
                self.writer = Some(TrigWriter { output: Vec::new(), last: None });
            },
        }
    }

    /// Writes a quad: its TriG text is appended to what was written, after
    /// turning the configuration into a writer if it is still there. After
    /// `finish` the quad is dropped.
    pub fn serialize_quad(&mut self, quad: RdfQuad)
        ensures
            serialize_step(*old(self), *final(self), quad),
    {
        self.in_write_state();
        let ghost mid = *self;
        match self.writer.take() {
            Some(w) => {
                let TrigWriter { mut output, last } = w;
                let ghost written = output@;
                let mut text = quad_text(&last, &quad);
                output.append(&mut text);
                assert(output@ =~= written + trig_quad_text(last, quad));
                self.writer = Some(TrigWriter { output, last: Some(quad) });
                assert(self.bnodemap == mid.bnodemap);
            },
            None => {},
        }
        assert(forall|label: Seq<char>| #[trigger] self.bnode_for(label) == mid.bnode_for(label));
    }

    /// The blank node for `label`: the one handed out before for this label,
    /// or else a fresh one, which is kept for the label from then on.
    pub fn get_bnode(&mut self, label: &str) -> (res: Option<oxrdf::BlankNode>)
        ensures
            bnode_step(*old(self), *final(self), label@, res),
    {
        let key = label.to_owned();
        let mut i: usize = 0;
        assert(self.bnodemap@.skip(0) =~= self.bnodemap@);
        while i < self.bnodemap.len()
            invariant
                i <= self.bnodemap@.len(),
                key@ == label@,
                lookup_bnode(self.bnodemap@, label@) == lookup_bnode(
                    self.bnodemap@.skip(i as int),
                    label@,
                ),
            decreases self.bnodemap@.len() - i,
        {
            if self.bnodemap[i].0 == key {
                let found = copy_blank_node(&self.bnodemap[i].1);
                return Some(found);
            }
            assert(self.bnodemap@.skip(i as int).drop_first() =~= self.bnodemap@.skip(i + 1));
            i = i + 1;
        }
        proof {
            assert(self.bnodemap@.skip(i as int) =~= Seq::<(String, oxrdf::BlankNode)>::empty());
        }
        let fresh = fresh_blank_node(&self.bnodemap);
        let kept = copy_blank_node(&fresh);
        proof {
            assert forall|other: Seq<char>| other != label@ implies lookup_bnode(self.bnodemap@, other)
                != Some(fresh) by {
                lemma_lookup_found(self.bnodemap@, other);
            }
            lemma_lookup_push(self.bnodemap@, (key, kept), label@);
            assert forall|other: Seq<char>| other != label@ implies lookup_bnode(
                self.bnodemap@.push((key, kept)),
                other,
            ) == lookup_bnode(self.bnodemap@, other) by {
                lemma_lookup_push(self.bnodemap@, (key, kept), other);
            }
        }
        self.bnodemap.push((key, kept));
        Some(fresh)
    }
}

/// What `in_write_state` does, from the state `pre` to the state `post`: a
/// configuration still there becomes a writer with nothing written; else
/// the writer, if any, stays as it is.
pub open spec fn write_state_step(pre: TrigSerializer, post: TrigSerializer) -> bool {
    &&& post.configuration() is None
    &&& forall|label: Seq<char>| #[trigger] post.bnode_for(label) == pre.bnode_for(label)
    &&& pre.configuration() is Some ==> post.output() == Some(Seq::<u8>::empty())
        && post.last_quad() is None
    &&& pre.configuration() is None ==> post.output() == pre.output() && post.last_quad()
        == pre.last_quad()
}

/// What `finish` does, from the state `pre` to the state `post`: with a
/// writer it succeeds and hands out the text written so far, then the
/// closing text, then a 0 byte; without one it fails and changes nothing.
pub open spec fn finish_step(pre: TrigSerializer, post: TrigSerializer, res: Result<Vec<u8>, ()>) -> bool {
    &&& post.configuration() == pre.configuration()
    &&& post.output() is None
    &&& post.last_quad() is None
    &&& forall|label: Seq<char>| #[trigger] post.bnode_for(label) == pre.bnode_for(label)
    &&& pre.output() is None ==> res is Err && post == pre
    &&& pre.output() matches Some(o) ==> res matches Ok(v) && v@ == o + trig_closing_text(
        pre.last_quad(),
    ) + seq![0u8]
}

/// What `serialize_quad` does with `quad`, from the state `pre` to the state
/// `post`: a configuration still there becomes a fresh writer; the quad's
/// text, which follows from the quad written before it, is then appended to
/// what the writer holds; with neither configuration nor writer, nothing is
/// written.
pub open spec fn serialize_step(pre: TrigSerializer, post: TrigSerializer, quad: RdfQuad) -> bool {
    &&& post.configuration() is None
    &&& forall|label: Seq<char>| #[trigger] post.bnode_for(label) == pre.bnode_for(label)
    &&& pre.configuration() is Some ==> post.output() == Some(trig_quad_text(None, quad))
        && post.last_quad() == Some(quad)
    &&& pre.configuration() is None ==> match pre.output() {
        Some(o) => post.output() == Some(o + trig_quad_text(pre.last_quad(), quad))
            && post.last_quad() == Some(quad),
        None => post.output() is None && post.last_quad() is None,
    }
}

/// What `get_bnode` does for `label`, from the state `pre` to the state
/// `post`: it hands out the node now kept for the label, which is the one
/// kept before if there was one; nothing else changes.
pub open spec fn bnode_step(
    pre: TrigSerializer,
    post: TrigSerializer,
    label: Seq<char>,
    res: Option<oxrdf::BlankNode>,
) -> bool {
    &&& res is Some
    &&& post.bnode_for(label) == res
    &&& pre.bnode_for(label) is Some ==> res == pre.bnode_for(label)
    &&& pre.bnode_for(label) is None ==> forall|other: Seq<char>| other != label ==> #[trigger] pre.bnode_for(other) != res
    &&& forall|other: Seq<char>| other != label ==> #[trigger] post.bnode_for(other) == pre.bnode_for(other)
    &&& post.configuration() == pre.configuration()
    &&& post.output() == pre.output()
    &&& post.last_quad() == pre.last_quad()
}

} // verus!

verus! {

/// A second `finish` in a row fails: the first one leaves nothing being
/// written.
pub proof fn finish_twice_fails(
    s0: TrigSerializer,
    s1: TrigSerializer,
    r1: Result<Vec<u8>, ()>,
    s2: TrigSerializer,
    r2: Result<Vec<u8>, ()>,
)
    requires
        finish_step(s0, s1, r1),
        finish_step(s1, s2, r2),
    ensures
        r2 is Err,
        s2 == s1,
{
}

/// Asking twice for the blank node of one label gives the same node.
pub proof fn same_label_same_bnode(
    s0: TrigSerializer,
    s1: TrigSerializer,
    s2: TrigSerializer,
    label: Seq<char>,
    r1: Option<oxrdf::BlankNode>,
    r2: Option<oxrdf::BlankNode>,
)
    requires
        bnode_step(s0, s1, label, r1),
        bnode_step(s1, s2, label, r2),
    ensures
        r1 == r2,
{
}

/// The TriG text of `quads` written one after the other by a serializer
/// that had written nothing before them.
pub open spec fn trig_body_text(quads: Seq<RdfQuad>) -> Seq<u8>
    decreases quads.len(),
{
    if quads.len() == 0 {
        Seq::empty()
    } else {
        let before = quads.drop_last();
        trig_body_text(before) + trig_quad_text(
            if before.len() == 0 {
                None
            } else {
                Some(before.last())
            },
            quads.last(),
        )
    }
}

/// The whole TriG document of `quads`: their text, then the closing text.
pub open spec fn trig_document(quads: Seq<RdfQuad>) -> Seq<u8> {
    trig_body_text(quads) + trig_closing_text(
        if quads.len() == 0 {
            None
        } else {
            Some(quads.last())
        },
    )
}

/// `s` is writing, and has written exactly the text of `quads` in order.
pub open spec fn has_written(s: TrigSerializer, quads: Seq<RdfQuad>) -> bool {
    &&& s.configuration() is None
    &&& s.output() == Some(trig_body_text(quads))
    &&& s.last_quad() == (if quads.len() == 0 {
        None
    } else {
        Some(quads.last())
    })
}

/// The first quad written by a configured serializer starts the document.
pub proof fn first_quad_starts_document(s0: TrigSerializer, s1: TrigSerializer, quad: RdfQuad)
    requires
        s0.configuration() is Some,
        serialize_step(s0, s1, quad),
    ensures
        has_written(s1, seq![quad]),
{
    let qs = seq![quad];
    assert(qs.drop_last() =~= Seq::<RdfQuad>::empty());
    assert(trig_body_text(qs.drop_last()) =~= Seq::<u8>::empty());
    assert(trig_body_text(qs) =~= trig_quad_text(None, quad));
}

/// Each further quad appends its text: the serializer has then written the
/// quads before it and this one, in order.
pub proof fn next_quad_extends_document(
    s0: TrigSerializer,
    s1: TrigSerializer,
    quads: Seq<RdfQuad>,
    quad: RdfQuad,
)
    requires
        has_written(s0, quads),
        serialize_step(s0, s1, quad),
    ensures
        has_written(s1, quads.push(quad)),
{
    assert(quads.push(quad).drop_last() =~= quads);
}

/// Finishing a serializer that has written `quads` hands out their TriG
/// document followed by a 0 byte.
pub proof fn finish_hands_out_document(
    s0: TrigSerializer,
    s1: TrigSerializer,
    quads: Seq<RdfQuad>,
    res: Result<Vec<u8>, ()>,
)
    requires
        has_written(s0, quads),
        finish_step(s0, s1, res),
    ensures
        res matches Ok(v) && v@ == trig_document(quads) + seq![0u8],
{
}

/// Once finished, a serializer whose configuration was used up writes
/// nothing more: quads are dropped and every later `finish` fails.
pub proof fn finished_serializer_stays_finished(
    s0: TrigSerializer,
    s1: TrigSerializer,
    s2: TrigSerializer,
    quad: RdfQuad,
    r2: Result<Vec<u8>, ()>,
)
    requires
        s0.configuration() is None,
        s0.output() is None,
        serialize_step(s0, s1, quad),
        finish_step(s1, s2, r2),
    ensures
        s1.output() is None,
        r2 is Err,
{
}

} // verus!

verus! {

/// Every label that has a blank node in `pre` keeps that node in `post`.
pub open spec fn keeps_bnodes(pre: TrigSerializer, post: TrigSerializer) -> bool {
    forall|label: Seq<char>| #[trigger] pre.bnode_for(label) is Some ==> post.bnode_for(label)
        == pre.bnode_for(label)
}

/// Each operation keeps the blank nodes handed out so far.
pub proof fn every_step_keeps_bnodes(
    pre: TrigSerializer,
    post: TrigSerializer,
    res: Result<Vec<u8>, ()>,
    quad: RdfQuad,
    label: Seq<char>,
    node: Option<oxrdf::BlankNode>,
)
    ensures
        finish_step(pre, post, res) ==> keeps_bnodes(pre, post),
        serialize_step(pre, post, quad) ==> keeps_bnodes(pre, post),
        bnode_step(pre, post, label, node) ==> keeps_bnodes(pre, post),
{
}

/// Keeping blank nodes carries over a sequence of operations.
pub proof fn keeps_bnodes_transitive(s0: TrigSerializer, s1: TrigSerializer, s2: TrigSerializer)
    requires
        keeps_bnodes(s0, s1),
        keeps_bnodes(s1, s2),
    ensures
        keeps_bnodes(s0, s2),
{
    assert forall|label: Seq<char>| #[trigger] s0.bnode_for(label) is Some implies s2.bnode_for(label)
        == s0.bnode_for(label) by {
        assert(s1.bnode_for(label) == s0.bnode_for(label));
    }
}

/// Asking for the blank node of a label gives the node handed out for it
/// earlier, whatever operations came in between (each keeps the blank
/// nodes, see `every_step_keeps_bnodes`), and leaves every label's node as
/// it was.
pub proof fn same_label_same_bnode_later(
    s0: TrigSerializer,
    s1: TrigSerializer,
    s2: TrigSerializer,
    s3: TrigSerializer,
    label: Seq<char>,
    r1: Option<oxrdf::BlankNode>,
    r2: Option<oxrdf::BlankNode>,
)
    requires
        bnode_step(s0, s1, label, r1),
        keeps_bnodes(s1, s2),
        bnode_step(s2, s3, label, r2),
    ensures
        r2 == r1,
        forall|other: Seq<char>| #[trigger] s3.bnode_for(other) == s2.bnode_for(other),
{
    assert(s1.bnode_for(label) is Some);
    assert(s2.bnode_for(label) == s1.bnode_for(label));
}

/// Making sure a writer exists twice in a row has the effect of doing it once.
pub proof fn in_write_state_is_idempotent(s0: TrigSerializer, s1: TrigSerializer, s2: TrigSerializer)
    requires
        write_state_step(s0, s1),
        write_state_step(s1, s2),
    ensures
        s2.configuration() == s1.configuration(),
        s2.output() == s1.output(),
        s2.last_quad() == s1.last_quad(),
        forall|label: Seq<char>| #[trigger] s2.bnode_for(label) == s1.bnode_for(label),
{
}

} // verus!

verus! {

/// No two labels of `s` share a blank node.
pub open spec fn labels_have_distinct_nodes(s: TrigSerializer) -> bool {
    forall|l1: Seq<char>, l2: Seq<char>|
        l1 != l2 && (#[trigger] s.bnode_for(l1)) is Some ==> s.bnode_for(l1) != #[trigger] s.bnode_for(l2)
}

/// A new serializer holds no blank node, so none is shared.
pub proof fn new_serializer_has_distinct_nodes(s: TrigSerializer)
    requires
        forall|label: Seq<char>| s.bnode_for(label) is None,
    ensures
        labels_have_distinct_nodes(s),
{
}

/// A label that had no node gets one that no other label holds.
pub proof fn new_label_gets_its_own_node(
    s0: TrigSerializer,
    s1: TrigSerializer,
    label: Seq<char>,
    res: Option<oxrdf::BlankNode>,
)
    requires
        bnode_step(s0, s1, label, res),
        s0.bnode_for(label) is None,
    ensures
        forall|other: Seq<char>| other != label ==> #[trigger] s1.bnode_for(other) != s1.bnode_for(label),
{
    assert forall|other: Seq<char>| other != label implies #[trigger] s1.bnode_for(other) != s1.bnode_for(
        label,
    ) by {
        assert(s0.bnode_for(other) != res);
    }
}

/// Distinct labels keep distinct blank nodes through every operation.
pub proof fn distinct_nodes_are_kept(
    s0: TrigSerializer,
    s1: TrigSerializer,
    res: Result<Vec<u8>, ()>,
    quad: RdfQuad,
    label: Seq<char>,
    node: Option<oxrdf::BlankNode>,
)
    requires
        labels_have_distinct_nodes(s0),
    ensures
        finish_step(s0, s1, res) ==> labels_have_distinct_nodes(s1),
        serialize_step(s0, s1, quad) ==> labels_have_distinct_nodes(s1),
        bnode_step(s0, s1, label, node) ==> labels_have_distinct_nodes(s1),
{
    if bnode_step(s0, s1, label, node) {
        assert forall|l1: Seq<char>, l2: Seq<char>|
            l1 != l2 && (#[trigger] s1.bnode_for(l1)) is Some implies s1.bnode_for(l1)
            != #[trigger] s1.bnode_for(l2) by {
            if s0.bnode_for(label) is Some {
                assert(s1.bnode_for(l1) == s0.bnode_for(l1));
                assert(s1.bnode_for(l2) == s0.bnode_for(l2));
            } else if l1 == label {
                assert(s0.bnode_for(l2) != node);
            } else if l2 == label {
                assert(s0.bnode_for(l1) != node);
            } else {
                assert(s1.bnode_for(l1) == s0.bnode_for(l1));
                assert(s1.bnode_for(l2) == s0.bnode_for(l2));
            }
        }
    }
    if finish_step(s0, s1, res) {
        assert forall|l1: Seq<char>, l2: Seq<char>|
            l1 != l2 && (#[trigger] s1.bnode_for(l1)) is Some implies s1.bnode_for(l1)
            != #[trigger] s1.bnode_for(l2) by {
            assert(s1.bnode_for(l1) == s0.bnode_for(l1));
            assert(s1.bnode_for(l2) == s0.bnode_for(l2));
        }
    }
    if serialize_step(s0, s1, quad) {
        assert forall|l1: Seq<char>, l2: Seq<char>|
            l1 != l2 && (#[trigger] s1.bnode_for(l1)) is Some implies s1.bnode_for(l1)
            != #[trigger] s1.bnode_for(l2) by {
            assert(s1.bnode_for(l1) == s0.bnode_for(l1));
            assert(s1.bnode_for(l2) == s0.bnode_for(l2));
        }
    }
}

} // verus!
