//! What holds of every stream, stated over the decoder's model.
use vstd::prelude::*;

use crate::deserialize::{
    configure, resolve_graph, resolve_iri, resolve_literal, resolve_term, run,
    set_position, step, update_spo, wire_physical, DecoderModel,
};
use crate::error::{
    ConfigError, DeserializeError, MessageType, PhysicalStreamError, PhysicalStreamType,
    TermLocation, MAX_DATATYPE_TABLE_SIZE, MAX_NAME_TABLE_SIZE, MAX_PREFIX_TABLE_SIZE,
};
use crate::proto::{LiteralKind, RdfGraph, RdfIri, RdfLiteral, RdfQuad, RdfStreamOptions, RdfTerm, RdfTriple, Row};
use crate::term::{EmissionModel, TermModel};

verus! {

/// Everything but the three tables is the same in `a` and `b`.
pub open spec fn same_registers(a: DecoderModel, b: DecoderModel) -> bool {
    &&& a.configured == b.configured
    &&& a.physical == b.physical
    &&& a.graph_open == b.graph_open
    &&& a.subject == b.subject
    &&& a.predicate == b.predicate
    &&& a.object == b.object
    &&& a.graph == b.graph
}

/// Every table cursor lies within its table.
pub open spec fn cursors_bounded(s: DecoderModel) -> bool {
    &&& s.names.last_read <= s.names.cap
    &&& s.prefixes.last_read <= s.prefixes.cap
    &&& s.datatypes.last_read <= s.datatypes.cap
}

proof fn lemma_iri_frame(s: DecoderModel, iri: RdfIri)
    requires
        s.wf(),
    ensures
        resolve_iri(s, iri).0.wf(),
        same_registers(s, resolve_iri(s, iri).0),
{
}

proof fn lemma_literal_frame(s: DecoderModel, l: RdfLiteral)
    requires
        s.wf(),
    ensures
        resolve_literal(s, l).0.wf(),
        same_registers(s, resolve_literal(s, l).0),
{
}

/// Materializing a term touches nothing but the table cursors.
pub proof fn lemma_term_frame(s: DecoderModel, t: RdfTerm)
    requires
        s.wf(),
    ensures
        resolve_term(s, t).0.wf(),
        same_registers(s, resolve_term(s, t).0),
    decreases t,
{
    match t {
        RdfTerm::Iri(iri) => lemma_iri_frame(s, iri),
        RdfTerm::Literal(l) => lemma_literal_frame(s, l),
        RdfTerm::Bnode(_) => {},
        RdfTerm::TripleTerm(bt) => {
            match (bt.subject, bt.predicate, bt.object) {
                (Some(sd), Some(pd), Some(od)) => {
                    lemma_term_frame(s, sd);
                    let s1 = resolve_term(s, sd).0;
                    lemma_term_frame(s1, pd);
                    let s2 = resolve_term(s1, pd).0;
                    lemma_term_frame(s2, od);
                },
                _ => {},
            }
        },
    }
}

proof fn lemma_graph_frame(s: DecoderModel, g: RdfGraph)
    requires
        s.wf(),
    ensures
        resolve_graph(s, g).0.wf(),
        same_registers(s, resolve_graph(s, g).0),
{
    match g {
        RdfGraph::Iri(iri) => lemma_iri_frame(s, iri),
        RdfGraph::Literal(l) => lemma_literal_frame(s, l),
        _ => {},
    }
}

/// Resolving the three positions of a row: each register afterwards holds
/// either what the row set there or, where the row leaves the position out,
/// what it held before; nothing else but the table cursors changes.
proof fn lemma_spo_frame(s: DecoderModel, sd: Option<RdfTerm>, pd: Option<RdfTerm>, od: Option<RdfTerm>)
    requires
        s.wf(),
    ensures
        ({
            let s2 = update_spo(s, sd, pd, od).0;
            &&& s2.wf()
            &&& s2.configured == s.configured
            &&& s2.physical == s.physical
            &&& s2.graph_open == s.graph_open
            &&& s2.graph == s.graph
            &&& update_spo(s, sd, pd, od).1 is Ok ==> {
                &&& sd is None ==> s2.subject == s.subject
                &&& pd is None ==> s2.predicate == s.predicate
                &&& od is None ==> s2.object == s.object
            }
        }),
{
    if let Some(d) = sd {
        lemma_term_frame(s, d);
    }
    let s1 = set_position(s, sd, TermLocation::Subject).0;
    if let Some(d) = pd {
        lemma_term_frame(s1, d);
    }
    let s2 = set_position(s1, pd, TermLocation::Predicate).0;
    if let Some(d) = od {
        lemma_term_frame(s2, d);
    }
}

/// A term that materializes leaves every table cursor within its table,
/// provided they were so before: each read it made found its slot.
proof fn lemma_term_bounded(s: DecoderModel, t: RdfTerm)
    requires
        s.wf(),
        cursors_bounded(s),
        resolve_term(s, t).1 is Ok,
    ensures
        cursors_bounded(resolve_term(s, t).0),
    decreases t,
{
    if let RdfTerm::TripleTerm(bt) = t {
        if let (Some(sd), Some(pd), Some(od)) = (bt.subject, bt.predicate, bt.object) {
            lemma_term_frame(s, sd);
            lemma_term_bounded(s, sd);
            let s1 = resolve_term(s, sd).0;
            lemma_term_frame(s1, pd);
            lemma_term_bounded(s1, pd);
            let s2 = resolve_term(s1, pd).0;
            lemma_term_bounded(s2, od);
        }
    }
}

proof fn lemma_spo_bounded(s: DecoderModel, sd: Option<RdfTerm>, pd: Option<RdfTerm>, od: Option<RdfTerm>)
    requires
        s.wf(),
        cursors_bounded(s),
        update_spo(s, sd, pd, od).1 is Ok,
    ensures
        cursors_bounded(update_spo(s, sd, pd, od).0),
{
    if let Some(d) = sd {
        lemma_term_frame(s, d);
        lemma_term_bounded(s, d);
    }
    let s1 = set_position(s, sd, TermLocation::Subject).0;
    if let Some(d) = pd {
        lemma_term_frame(s1, d);
        lemma_term_bounded(s1, d);
    }
    let s2 = set_position(s1, pd, TermLocation::Predicate).0;
    if let Some(d) = od {
        lemma_term_bounded(s2, d);
    }
}

/// Every row keeps the decoder well formed; and a row that succeeds leaves
/// each table's read cursor within the table's capacity, as it found it.
pub proof fn lemma_cursors_stay_in_table(s: DecoderModel, row: Row)
    requires
        s.wf(),
    ensures
        step(s, row).0.wf(),
        cursors_bounded(s) && step(s, row).1 is Ok ==> cursors_bounded(step(s, row).0),
{
    if s.configured {
        match row {
            Row::Triple(t) => {
                lemma_spo_frame(s, t.subject, t.predicate, t.object);
                if cursors_bounded(s) && step(s, row).1 is Ok {
                    lemma_spo_bounded(s, t.subject, t.predicate, t.object);
                }
            },
            Row::Quad(q) => {
                lemma_spo_frame(s, q.subject, q.predicate, q.object);
                let s1 = update_spo(s, q.subject, q.predicate, q.object).0;
                if let Some(g) = q.graph {
                    lemma_graph_frame(s1, g);
                }
                if cursors_bounded(s) && step(s, row).1 is Ok {
                    lemma_spo_bounded(s, q.subject, q.predicate, q.object);
                }
            },
            Row::GraphStart(gs) => {
                if let Some(g) = gs.graph {
                    lemma_graph_frame(s, g);
                }
            },
            _ => {},
        }
    }
}

/// An emitted statement is made of the registers as the emitting row left
/// them, all of them set; a position the row leaves out is the one that the
/// register held before the row.
pub proof fn lemma_emitted_positions(s: DecoderModel, row: Row)
    requires
        s.wf(),
    ensures
        ({
            let (s2, r) = step(s, row);
            &&& r matches Ok(Some(EmissionModel::Triple(a, b, c))) ==> s2.subject == Some(a)
                && s2.predicate == Some(b) && s2.object == Some(c)
            &&& r matches Ok(Some(EmissionModel::Quad(a, b, c, g))) ==> s2.subject == Some(a)
                && s2.predicate == Some(b) && s2.object == Some(c) && s2.graph == g
            &&& row matches Row::Triple(t) ==> r is Ok ==> {
                &&& t.subject is None ==> s2.subject == s.subject
                &&& t.predicate is None ==> s2.predicate == s.predicate
                &&& t.object is None ==> s2.object == s.object
            }
            &&& row matches Row::Quad(q) ==> r is Ok ==> {
                &&& q.subject is None ==> s2.subject == s.subject
                &&& q.predicate is None ==> s2.predicate == s.predicate
                &&& q.object is None ==> s2.object == s.object
            }
        }),
{
    if s.configured {
        match row {
            Row::Triple(t) => lemma_spo_frame(s, t.subject, t.predicate, t.object),
            Row::Quad(q) => {
                lemma_spo_frame(s, q.subject, q.predicate, q.object);
                let s1 = update_spo(s, q.subject, q.predicate, q.object).0;
                if let Some(g) = q.graph {
                    lemma_graph_frame(s1, g);
                }
            },
            _ => {},
        }
    }
}

/// In a graphs stream only GraphStart and GraphEnd change the current graph;
/// GraphStart sets it to the resolved graph term (none for the default
/// graph) and GraphEnd clears it; every emitted quad carries the current
/// graph of an open graph.
pub proof fn lemma_graphs_stream(s: DecoderModel, row: Row)
    requires
        s.wf(),
        s.configured,
        s.physical == PhysicalStreamType::Graphs,
    ensures
        ({
            let (s2, r) = step(s, row);
            &&& !(row is GraphStart) && !(row is GraphEnd) ==> s2.graph == s.graph
            &&& r matches Ok(Some(EmissionModel::Quad(_, _, _, g))) ==> g == s.graph && s.graph_open
            &&& r matches Ok(Some(e)) ==> e is Quad
            &&& row matches Row::GraphStart(gs) ==> r is Ok ==> (gs.graph matches Some(g)
                && resolve_graph(s, g).1 == Ok::<_, DeserializeError>(s2.graph) && s2.graph_open)
            &&& row is GraphEnd ==> s2.graph is None && !s2.graph_open
        }),
{
    match row {
        Row::Triple(t) => lemma_spo_frame(s, t.subject, t.predicate, t.object),
        _ => {},
    }
}

/// A second options row changes nothing: the row applied twice is the row
/// applied once.
pub proof fn lemma_options_idempotent(s: DecoderModel, o: RdfStreamOptions)
    ensures
        step(step(s, Row::Options(o)).0, Row::Options(o)) == step(s, Row::Options(o)),
{
}

/// Blank nodes are consistent: a blank-node key materializes to the same
/// term whatever the decoder's state, and reads no table.
pub proof fn lemma_blank_nodes_consistent(s1: DecoderModel, s2: DecoderModel, key: String)
    ensures
        resolve_term(s1, RdfTerm::Bnode(key)).1 == resolve_term(s2, RdfTerm::Bnode(key)).1,
        resolve_term(s1, RdfTerm::Bnode(key)).1 == Ok::<TermModel, DeserializeError>(
            TermModel::BlankNode(key@),
        ),
        resolve_term(s1, RdfTerm::Bnode(key)).0 == s1,
{
}

/// Options whose table sizes exceed the caps are rejected, and leave the
/// decoder unconfigured.
pub proof fn lemma_oversized_tables_rejected(s: DecoderModel, o: RdfStreamOptions)
    requires
        !s.configured,
        o.max_name_table_size > MAX_NAME_TABLE_SIZE || o.max_prefix_table_size
            > MAX_PREFIX_TABLE_SIZE || o.max_datatype_table_size > MAX_DATATYPE_TABLE_SIZE,
    ensures
        step(s, Row::Options(o)).0 == s,
        step(s, Row::Options(o)).1 is Err,
        wire_physical(o.physical_type) matches Some(pt) && pt != PhysicalStreamType::Unspecified
            ==> step(s, Row::Options(o)).1 matches Err(
            DeserializeError::ConfigError(ConfigError::TableToLarge { .. }),
        ),
{
}

/// Options with all three table sizes zero are accepted (for a decodable
/// physical type), after which every IRI and every typed literal fails to
/// resolve.
pub proof fn lemma_zero_tables(o: RdfStreamOptions, iri: RdfIri, lex: String, id: u32)
    requires
        o.max_name_table_size == 0,
        o.max_prefix_table_size == 0,
        o.max_datatype_table_size == 0,
        1 <= o.physical_type <= 3,
    ensures
        configure(o) is Ok,
        resolve_term(configure(o)->Ok_0, RdfTerm::Iri(iri)).1 is Err,
        resolve_term(
            configure(o)->Ok_0,
            RdfTerm::Literal(RdfLiteral { lex, literal_kind: Some(LiteralKind::Datatype(id)) }),
        ).1 is Err,
{
}

/// A triple row in a quads stream is rejected and changes nothing.
pub proof fn lemma_triple_in_quads_stream(s: DecoderModel, t: RdfTriple)
    requires
        s.configured,
        s.physical == PhysicalStreamType::Quads,
    ensures
        step(s, Row::Triple(t)) == (
            s,
            Err::<Option<EmissionModel>, DeserializeError>(
                DeserializeError::PhysicalStreamError(
                    PhysicalStreamError::IncorrectType {
                        detected: PhysicalStreamType::Quads,
                        incoming: MessageType::Triple,
                    },
                ),
            ),
        ),
{
}

/// A triple row of a graphs stream outside a graph is rejected and changes
/// nothing.
pub proof fn lemma_triple_before_graph_start(s: DecoderModel, t: RdfTriple)
    requires
        s.configured,
        s.physical == PhysicalStreamType::Graphs,
        !s.graph_open,
    ensures
        step(s, Row::Triple(t)) == (
            s,
            Err::<Option<EmissionModel>, DeserializeError>(
                DeserializeError::PhysicalStreamError(
                    PhysicalStreamError::NotYetSet {
                        detected: PhysicalStreamType::Graphs,
                        expected: MessageType::GraphStart,
                    },
                ),
            ),
        ),
{
}

/// A quad whose graph is the default graph clears the current graph: the
/// quad it emits, and the next one that leaves the graph out, have none.
pub proof fn lemma_default_graph_clears(s: DecoderModel, q: RdfQuad, next: RdfQuad)
    requires
        s.wf(),
        s.configured,
        s.physical == PhysicalStreamType::Quads,
        q.graph matches Some(RdfGraph::DefaultGraph),
        next.graph is None,
    ensures
        step(s, Row::Quad(q)).1 is Ok ==> step(s, Row::Quad(q)).0.graph is None,
        step(s, Row::Quad(q)).1 matches Ok(Some(EmissionModel::Quad(_, _, _, g))) ==> g is None,
        ({
            let s1 = step(s, Row::Quad(q)).0;
            step(s, Row::Quad(q)).1 is Ok ==> (step(s1, Row::Quad(next)).1 matches Ok(
                Some(EmissionModel::Quad(_, _, _, g)),
            ) ==> g is None)
        }),
{
    lemma_spo_frame(s, q.subject, q.predicate, q.object);
    lemma_cursors_stay_in_table(s, Row::Quad(q));
    let s1 = step(s, Row::Quad(q)).0;
    lemma_spo_frame(s1, next.subject, next.predicate, next.object);
}

/// Frame boundaries do not matter: decoding `a` and then `b` gives what
/// decoding their concatenation gives, statements included.
pub proof fn lemma_frames_compose(s: DecoderModel, a: Seq<Row>, b: Seq<Row>)
    ensures
        run(s, a + b) == ({
            let (s1, e1, r1) = run(s, a);
            if r1 is Err {
                (s1, e1, r1)
            } else {
                let (s2, e2, r2) = run(s1, b);
                (s2, e1 + e2, r2)
            }
        }),
    decreases b.len(),
{
    if b.len() == 0 {
        assert(a + b =~= a);
        assert(run(s, a).1 + Seq::<EmissionModel>::empty() =~= run(s, a).1);
    } else {
        lemma_frames_compose(s, a, b.drop_last());
        assert((a + b).drop_last() =~= a + b.drop_last());
        assert((a + b).last() == b.last());
        let (s1, e1, r1) = run(s, a);
        if r1 is Ok {
            let (s2, e2, r2) = run(s1, b.drop_last());
            if r2 is Ok {
                let (s3, r3) = step(s2, b.last());
                if let Ok(Some(em)) = r3 {
                    assert(e1 + e2.push(em) =~= (e1 + e2).push(em));
                }
            }
        }
    }
}

} // verus!
