//! The frame decoder: configuration, dictionary resolution, the
//! physical-stream state machine and the repeat-previous-term registers.
use vstd::prelude::*;

use crate::error::{
    table_check, ConfigError, DeserializeError, MessageType, PhysicalStreamError,
    PhysicalStreamType, Table, TermLocation, MAX_DATATYPE_TABLE_SIZE, MAX_NAME_TABLE_SIZE,
    MAX_PREFIX_TABLE_SIZE,
};
use crate::laws::lemma_cursors_stay_in_table;
use crate::lookup::{empty_table, lookup_get, lookup_set, Lookup, LookupModel, LookupType};
use crate::proto::{
    LiteralKind, RdfDatatypeEntry, RdfGraph, RdfIri, RdfLiteral, RdfNameEntry, RdfPrefixEntry,
    RdfQuad, RdfStreamFrame, RdfStreamOptions, RdfTerm, RdfTriple, Row,
};
use crate::term::{
    copy_opt, emission_view, opt_term_view, Emission, EmissionModel, FormModel, LiteralForm, Quad,
    Term, TermModel, Triple,
};

verus! {

// ---------------------------------------------------------------------------
// Abstract model
// ---------------------------------------------------------------------------
/// Abstract decoder state.
pub struct DecoderModel {
    pub configured: bool,
    pub physical: PhysicalStreamType,
    pub graph_open: bool,
    pub names: LookupModel,
    pub prefixes: LookupModel,
    pub datatypes: LookupModel,
    pub subject: Option<TermModel>,
    pub predicate: Option<TermModel>,
    pub object: Option<TermModel>,
    pub graph: Option<TermModel>,
}

impl DecoderModel {
    pub open spec fn tables_wf(self) -> bool {
        &&& self.names.wf()
        &&& self.prefixes.wf()
        &&& self.datatypes.wf()
    }

    /// Well-formed tables; a configured decoder has a decodable stream type.
    pub open spec fn wf(self) -> bool {
        &&& self.tables_wf()
        &&& self.configured ==> self.physical != PhysicalStreamType::Unspecified
    }
}

/// A decoder before its options row.
pub open spec fn unconfigured() -> DecoderModel {
    DecoderModel {
        configured: false,
        physical: PhysicalStreamType::Unspecified,
        graph_open: false,
        names: empty_table(0),
        prefixes: empty_table(0),
        datatypes: empty_table(0),
        subject: None,
        predicate: None,
        object: None,
        graph: None,
    }
}

/// The physical type that a wire number denotes.
pub open spec fn wire_physical(v: i32) -> Option<PhysicalStreamType> {
    if v == 0 {
        Some(PhysicalStreamType::Unspecified)
    } else if v == 1 {
        Some(PhysicalStreamType::Triples)
    } else if v == 2 {
        Some(PhysicalStreamType::Quads)
    } else if v == 3 {
        Some(PhysicalStreamType::Graphs)
    } else {
        None
    }
}

/// The state that an options row configures, or why it is rejected.
pub open spec fn configure(o: RdfStreamOptions) -> Result<DecoderModel, ConfigError> {
    match wire_physical(o.physical_type) {
        None => Err(ConfigError::InvalidPhysicalNotSet(o.physical_type)),
        Some(pt) => if pt == PhysicalStreamType::Unspecified {
            Err(ConfigError::InvalidPhysicalType(pt))
        } else {
            match table_check(Table::NameTable, o.max_name_table_size, MAX_NAME_TABLE_SIZE) {
                Some(e) => Err(e),
                None => match table_check(
                    Table::PrefixTable,
                    o.max_prefix_table_size,
                    MAX_PREFIX_TABLE_SIZE,
                ) {
                    Some(e) => Err(e),
                    None => match table_check(
                        Table::DatatypeTable,
                        o.max_datatype_table_size,
                        MAX_DATATYPE_TABLE_SIZE,
                    ) {
                        Some(e) => Err(e),
                        None => Ok(
                            DecoderModel {
                                configured: true,
                                physical: pt,
                                graph_open: false,
                                names: empty_table(o.max_name_table_size as nat),
                                prefixes: empty_table(o.max_prefix_table_size as nat),
                                datatypes: empty_table(o.max_datatype_table_size as nat),
                                subject: None,
                                predicate: None,
                                object: None,
                                graph: None,
                            },
                        ),
                    },
                },
            }
        },
    }
}

/// The prefix of an IRI: read under `Stay`, except that a prefix table of
/// capacity zero yields the empty prefix.
pub open spec fn resolve_prefix(s: DecoderModel, prefix_id: u32) -> (
    DecoderModel,
    Result<Seq<char>, DeserializeError>,
) {
    if s.prefixes.cap == 0 {
        (s, Ok(Seq::empty()))
    } else {
        let (t, r) = lookup_get(s.prefixes, prefix_id, LookupType::Stay);
        (
            DecoderModel { prefixes: t, ..s },
            match r {
                Ok(v) => Ok(v),
                Err(e) => Err(DeserializeError::LookupError(e)),
            },
        )
    }
}

/// An IRI: its prefix, then its name under `Inc`, concatenated.
pub open spec fn resolve_iri(s: DecoderModel, iri: RdfIri) -> (
    DecoderModel,
    Result<Seq<char>, DeserializeError>,
) {
    let (s1, p) = resolve_prefix(s, iri.prefix_id);
    match p {
        Err(e) => (s1, Err(e)),
        Ok(pv) => {
            let (t, n) = lookup_get(s1.names, iri.name_id, LookupType::Inc);
            let s2 = DecoderModel { names: t, ..s1 };
            match n {
                Err(e) => (s2, Err(DeserializeError::LookupError(e))),
                Ok(nv) => (s2, Ok(pv + nv)),
            }
        },
    }
}

/// A literal; a datatype id is read under `Invalid` (id 0 is an error).
pub open spec fn resolve_literal(s: DecoderModel, lit: RdfLiteral) -> (
    DecoderModel,
    Result<TermModel, DeserializeError>,
) {
    match lit.literal_kind {
        None => (s, Ok(TermModel::Literal(lit.lex@, FormModel::Simple))),
        Some(LiteralKind::Langtag(tag)) => (s, Ok(TermModel::Literal(lit.lex@, FormModel::Lang(tag@)))),
        Some(LiteralKind::Datatype(id)) => {
            let (t, d) = lookup_get(s.datatypes, id, LookupType::Invalid);
            let s1 = DecoderModel { datatypes: t, ..s };
            match d {
                Err(e) => (s1, Err(DeserializeError::LookupError(e))),
                Ok(dv) => (s1, Ok(TermModel::Literal(lit.lex@, FormModel::Typed(dv)))),
            }
        },
    }
}

/// A term descriptor.  A nested triple must carry all three positions
/// (checked before anything is read); they resolve in order.
pub open spec fn resolve_term(s: DecoderModel, t: RdfTerm) -> (
    DecoderModel,
    Result<TermModel, DeserializeError>,
)
    decreases t,
{
    match t {
        RdfTerm::Iri(iri) => {
            let (s1, r) = resolve_iri(s, iri);
            (
                s1,
                match r {
                    Ok(v) => Ok(TermModel::Iri(v)),
                    Err(e) => Err(e),
                },
            )
        },
        RdfTerm::Bnode(k) => (s, Ok(TermModel::BlankNode(k@))),
        RdfTerm::Literal(l) => resolve_literal(s, l),
        RdfTerm::TripleTerm(bt) => match (bt.subject, bt.predicate, bt.object) {
            (None, _, _) => (s, Err(DeserializeError::MissingTermTermTriple(TermLocation::Subject))),
            (_, None, _) => (
                s,
                Err(DeserializeError::MissingTermTermTriple(TermLocation::Predicate)),
            ),
            (_, _, None) => (s, Err(DeserializeError::MissingTermTermTriple(TermLocation::Object))),
            (Some(sd), Some(pd), Some(od)) => {
                let (s1, rs) = resolve_term(s, sd);
                match rs {
                    Err(e) => (s1, Err(e)),
                    Ok(st) => {
                        let (s2, rp) = resolve_term(s1, pd);
                        match rp {
                            Err(e) => (s2, Err(e)),
                            Ok(pt) => {
                                let (s3, ro) = resolve_term(s2, od);
                                match ro {
                                    Err(e) => (s3, Err(e)),
                                    Ok(ot) => (
                                        s3,
                                        Ok(TermModel::Triple(Box::new(st), Box::new(pt), Box::new(ot))),
                                    ),
                                }
                            },
                        }
                    },
                }
            },
        },
    }
}

/// A graph descriptor: `Ok(None)` for the default graph.
pub open spec fn resolve_graph(s: DecoderModel, g: RdfGraph) -> (
    DecoderModel,
    Result<Option<TermModel>, DeserializeError>,
) {
    match g {
        RdfGraph::Iri(iri) => {
            let (s1, r) = resolve_iri(s, iri);
            (
                s1,
                match r {
                    Ok(v) => Ok(Some(TermModel::Iri(v))),
                    Err(e) => Err(e),
                },
            )
        },
        RdfGraph::Bnode(k) => (s, Ok(Some(TermModel::BlankNode(k@)))),
        RdfGraph::Literal(l) => {
            let (s1, r) = resolve_literal(s, l);
            (
                s1,
                match r {
                    Ok(v) => Ok(Some(v)),
                    Err(e) => Err(e),
                },
            )
        },
        RdfGraph::DefaultGraph => (s, Ok(None)),
    }
}

/// Stores the resolved graph descriptor in the graph register.
pub open spec fn set_graph(s: DecoderModel, g: RdfGraph) -> (DecoderModel, Result<(), DeserializeError>) {
    let (s1, r) = resolve_graph(s, g);
    match r {
        Err(e) => (s1, Err(e)),
        Ok(gt) => (DecoderModel { graph: gt, ..s1 }, Ok(())),
    }
}

/// Resolves a position that is present and stores it in its register; an
/// absent position keeps the register as it was.
pub open spec fn set_position(s: DecoderModel, d: Option<RdfTerm>, loc: TermLocation) -> (
    DecoderModel,
    Result<(), DeserializeError>,
) {
    match d {
        None => (s, Ok(())),
        Some(d) => {
            let (s1, r) = resolve_term(s, d);
            match r {
                Err(e) => (s1, Err(e)),
                Ok(t) => (
                    match loc {
                        TermLocation::Subject => DecoderModel { subject: Some(t), ..s1 },
                        TermLocation::Predicate => DecoderModel { predicate: Some(t), ..s1 },
                        _ => DecoderModel { object: Some(t), ..s1 },
                    },
                    Ok(()),
                ),
            }
        },
    }
}

/// Subject, predicate and object in that order, stopping at the first error.
pub open spec fn update_spo(
    s: DecoderModel,
    sd: Option<RdfTerm>,
    pd: Option<RdfTerm>,
    od: Option<RdfTerm>,
) -> (DecoderModel, Result<(), DeserializeError>) {
    let (s1, r1) = set_position(s, sd, TermLocation::Subject);
    if r1 is Err {
        (s1, r1)
    } else {
        let (s2, r2) = set_position(s1, pd, TermLocation::Predicate);
        if r2 is Err {
            (s2, r2)
        } else {
            set_position(s2, od, TermLocation::Object)
        }
    }
}

/// The three statement registers, each of which must be set.
pub open spec fn current_spo(s: DecoderModel) -> Result<
    (TermModel, TermModel, TermModel),
    DeserializeError,
> {
    match (s.subject, s.predicate, s.object) {
        (None, _, _) => Err(DeserializeError::MissingTerm(TermLocation::Subject)),
        (_, None, _) => Err(DeserializeError::MissingTerm(TermLocation::Predicate)),
        (_, _, None) => Err(DeserializeError::MissingTerm(TermLocation::Object)),
        (Some(a), Some(b), Some(c)) => Ok((a, b, c)),
    }
}

/// A triple row of a triples stream.
pub open spec fn triple_step(s: DecoderModel, t: RdfTriple) -> (
    DecoderModel,
    Result<Option<EmissionModel>, DeserializeError>,
) {
    let (s1, r) = update_spo(s, t.subject, t.predicate, t.object);
    match r {
        Err(e) => (s1, Err(e)),
        Ok(_) => match current_spo(s1) {
            Err(e) => (s1, Err(e)),
            Ok((a, b, c)) => (s1, Ok(Some(EmissionModel::Triple(a, b, c)))),
        },
    }
}

/// A triple row inside an open graph of a graphs stream.
pub open spec fn graph_triple_step(s: DecoderModel, t: RdfTriple) -> (
    DecoderModel,
    Result<Option<EmissionModel>, DeserializeError>,
) {
    let (s1, r) = update_spo(s, t.subject, t.predicate, t.object);
    match r {
        Err(e) => (s1, Err(e)),
        Ok(_) => match current_spo(s1) {
            Err(e) => (s1, Err(e)),
            Ok((a, b, c)) => (s1, Ok(Some(EmissionModel::Quad(a, b, c, s1.graph)))),
        },
    }
}

/// A quad row of a quads stream.
pub open spec fn quad_step(s: DecoderModel, q: RdfQuad) -> (
    DecoderModel,
    Result<Option<EmissionModel>, DeserializeError>,
) {
    let (s1, r) = update_spo(s, q.subject, q.predicate, q.object);
    match r {
        Err(e) => (s1, Err(e)),
        Ok(_) => {
            let (s2, rg) = match q.graph {
                None => (s1, Ok(())),
                Some(g) => set_graph(s1, g),
            };
            match rg {
                Err(e) => (s2, Err(e)),
                Ok(_) => match current_spo(s2) {
                    Err(e) => (s2, Err(e)),
                    Ok((a, b, c)) => (s2, Ok(Some(EmissionModel::Quad(a, b, c, s2.graph)))),
                },
            }
        },
    }
}

pub open spec fn incorrect(s: DecoderModel, incoming: MessageType) -> (
    DecoderModel,
    Result<Option<EmissionModel>, DeserializeError>,
) {
    (
        s,
        Err(
            DeserializeError::PhysicalStreamError(
                PhysicalStreamError::IncorrectType { detected: s.physical, incoming },
            ),
        ),
    )
}

pub open spec fn entry_result(r: Result<(), crate::error::LookupError>) -> Result<
    Option<EmissionModel>,
    DeserializeError,
> {
    match r {
        Ok(_) => Ok(None),
        Err(e) => Err(DeserializeError::LookupError(e)),
    }
}

/// One row on a configured decoder.
pub open spec fn configured_step(s: DecoderModel, row: Row) -> (
    DecoderModel,
    Result<Option<EmissionModel>, DeserializeError>,
) {
    match row {
        Row::Options(_) => (s, Ok(None)),
        Row::Triple(t) => if s.physical == PhysicalStreamType::Graphs {
            if !s.graph_open {
                (
                    s,
                    Err(
                        DeserializeError::PhysicalStreamError(
                            PhysicalStreamError::NotYetSet {
                                detected: s.physical,
                                expected: MessageType::GraphStart,
                            },
                        ),
                    ),
                )
            } else {
                graph_triple_step(s, t)
            }
        } else if s.physical == PhysicalStreamType::Triples {
            triple_step(s, t)
        } else {
            incorrect(s, MessageType::Triple)
        },
        Row::Quad(q) => if s.physical == PhysicalStreamType::Quads {
            quad_step(s, q)
        } else {
            incorrect(s, MessageType::Quad)
        },
        Row::GraphStart(gs) => if s.physical == PhysicalStreamType::Graphs {
            match gs.graph {
                None => (s, Err(DeserializeError::MissingTerm(TermLocation::Graph))),
                Some(g) => {
                    let (s1, r) = set_graph(s, g);
                    match r {
                        Err(e) => (s1, Err(e)),
                        Ok(_) => (DecoderModel { graph_open: true, ..s1 }, Ok(None)),
                    }
                },
            }
        } else {
            incorrect(s, MessageType::GraphStart)
        },
        Row::GraphEnd(_) => if s.physical == PhysicalStreamType::Graphs {
            (DecoderModel { graph: None, graph_open: false, ..s }, Ok(None))
        } else {
            incorrect(s, MessageType::GraphEnd)
        },
        Row::Namespace(_) => (s, Ok(None)),
        Row::Name(e) => {
            let (t, r) = lookup_set(s.names, e.id, e.value@);
            (DecoderModel { names: t, ..s }, entry_result(r))
        },
        Row::Prefix(e) => {
            let (t, r) = lookup_set(s.prefixes, e.id, e.value@);
            (DecoderModel { prefixes: t, ..s }, entry_result(r))
        },
        Row::Datatype(e) => {
            let (t, r) = lookup_set(s.datatypes, e.id, e.value@);
            (DecoderModel { datatypes: t, ..s }, entry_result(r))
        },
    }
}

/// One row: the state afterwards and what it emits.  The first options row
/// configures the decoder and later ones are ignored; any other row before
/// configuration is an error.
pub open spec fn step(s: DecoderModel, row: Row) -> (
    DecoderModel,
    Result<Option<EmissionModel>, DeserializeError>,
) {
    match row {
        Row::Options(o) => if s.configured {
            (s, Ok(None))
        } else {
            match configure(o) {
                Err(e) => (s, Err(DeserializeError::ConfigError(e))),
                Ok(s2) => (s2, Ok(None)),
            }
        },
        _ => if !s.configured {
            (s, Err(DeserializeError::ConfigError(ConfigError::NotSet)))
        } else {
            configured_step(s, row)
        },
    }
}

/// The rows in order, stopping at the first error: the state afterwards,
/// what was emitted up to there, and the outcome.
pub open spec fn run(s: DecoderModel, rows: Seq<Row>) -> (
    DecoderModel,
    Seq<EmissionModel>,
    Result<(), DeserializeError>,
)
    decreases rows.len(),
{
    if rows.len() == 0 {
        (s, Seq::empty(), Ok(()))
    } else {
        let (s1, es, r) = run(s, rows.drop_last());
        match r {
            Err(e) => (s1, es, Err(e)),
            Ok(_) => {
                let (s2, r2) = step(s1, rows.last());
                match r2 {
                    Err(e) => (s2, es, Err(e)),
                    Ok(None) => (s2, es, Ok(())),
                    Ok(Some(em)) => (s2, es.push(em), Ok(())),
                }
            },
        }
    }
}

// ---------------------------------------------------------------------------
// Executable decoder
// ---------------------------------------------------------------------------
/// The two strings an IRI resolves to.
pub struct IriParams {
    pub prefix: String,
    pub name: String,
}

/// The datatype IRI a literal resolves to, if it names one.
pub struct LiteralParams {
    pub datatype: Option<String>,
}

pub open spec fn term_result(r: Result<Term, DeserializeError>) -> Result<TermModel, DeserializeError> {
    match r {
        Ok(t) => Ok(t@),
        Err(e) => Err(e),
    }
}

pub open spec fn iri_result(r: Result<IriParams, DeserializeError>) -> Result<
    Seq<char>,
    DeserializeError,
> {
    match r {
        Ok(p) => Ok(p.prefix@ + p.name@),
        Err(e) => Err(e),
    }
}

pub open spec fn graph_result(r: Result<Option<Term>, DeserializeError>) -> Result<
    Option<TermModel>,
    DeserializeError,
> {
    match r {
        Ok(g) => Ok(opt_term_view(g)),
        Err(e) => Err(e),
    }
}

pub open spec fn unit_result<T>(r: Result<T, DeserializeError>) -> Result<(), DeserializeError> {
    match r {
        Ok(_) => Ok(()),
        Err(e) => Err(e),
    }
}

/// The state of a configured decoder.
pub struct Inner {
    pub name_table: Lookup,
    pub prefix_table: Lookup,
    pub datatype_table: Lookup,
    pub last_subject: Option<Term>,
    pub last_predicate: Option<Term>,
    pub last_object: Option<Term>,
    pub last_graph: Option<Term>,
    physical_type: PhysicalStreamType,
    graph_started: bool,
}

impl View for Inner {
    type V = DecoderModel;

    closed spec fn view(&self) -> DecoderModel {
        DecoderModel {
            configured: true,
            physical: self.physical_type,
            graph_open: self.graph_started,
            names: self.name_table@,
            prefixes: self.prefix_table@,
            datatypes: self.datatype_table@,
            subject: opt_term_view(self.last_subject),
            predicate: opt_term_view(self.last_predicate),
            object: opt_term_view(self.last_object),
            graph: opt_term_view(self.last_graph),
        }
    }
}

/// The physical type that a wire number denotes, as its options field is
/// read.
pub fn physical_type_from_wire(v: i32) -> (r: Result<PhysicalStreamType, ConfigError>)
    ensures
        match wire_physical(v) {
            Some(pt) => r == Ok::<PhysicalStreamType, ConfigError>(pt),
            None => r == Err::<PhysicalStreamType, ConfigError>(ConfigError::InvalidPhysicalNotSet(v)),
        },
{
    if v == 0 {
        Ok(PhysicalStreamType::Unspecified)
    } else if v == 1 {
        Ok(PhysicalStreamType::Triples)
    } else if v == 2 {
        Ok(PhysicalStreamType::Quads)
    } else if v == 3 {
        Ok(PhysicalStreamType::Graphs)
    } else {
        Err(ConfigError::InvalidPhysicalNotSet(v))
    }
}

impl Inner {
    pub open spec fn wf(&self) -> bool {
        self@.tables_wf()
    }

    /// Validates the options and allocates the three tables.
    pub fn from_options(options: &RdfStreamOptions) -> (r: Result<Inner, ConfigError>)
        ensures
            match r {
                Ok(inner) => inner.wf() && configure(*options) == Ok::<DecoderModel, ConfigError>(
                    inner@,
                ),
                Err(e) => configure(*options) == Err::<DecoderModel, ConfigError>(e),
            },
    {
        let physical_type = physical_type_from_wire(options.physical_type)?;
        if physical_type == PhysicalStreamType::Unspecified {
            return Err(ConfigError::InvalidPhysicalType(physical_type));
        }
        if let Some(table_error) = ConfigError::name_table(options.max_name_table_size) {
            return Err(table_error);
        }
        if let Some(table_error) = ConfigError::prefix_table(options.max_prefix_table_size) {
            return Err(table_error);
        }
        if let Some(table_error) = ConfigError::datatype_table(options.max_datatype_table_size) {
            return Err(table_error);
        }
        Ok(
            Inner {
                name_table: Lookup::new(options.max_name_table_size),
                prefix_table: Lookup::new(options.max_prefix_table_size),
                datatype_table: Lookup::new(options.max_datatype_table_size),
                last_subject: None,
                last_predicate: None,
                last_object: None,
                last_graph: None,
                physical_type,
                graph_started: false,
            },
        )
    }

    /// A deep copy: tables with their cursors, and the registers.
    pub fn duplicate(&self) -> (r: Inner)
        requires
            self.wf(),
        ensures
            r.wf(),
            r@ == self@,
    {
        Inner {
            name_table: self.name_table.duplicate(),
            prefix_table: self.prefix_table.duplicate(),
            datatype_table: self.datatype_table.duplicate(),
            last_subject: copy_opt(&self.last_subject),
            last_predicate: copy_opt(&self.last_predicate),
            last_object: copy_opt(&self.last_object),
            last_graph: copy_opt(&self.last_graph),
            physical_type: self.physical_type,
            graph_started: self.graph_started,
        }
    }

    /// The state before any options row: empty tables, nothing set.
    fn unconfigured() -> (r: Inner)
        ensures
            r.wf(),
            r@ == (DecoderModel { configured: true, ..unconfigured() }),
    {
        Inner {
            name_table: Lookup::new(0),
            prefix_table: Lookup::new(0),
            datatype_table: Lookup::new(0),
            last_subject: None,
            last_predicate: None,
            last_object: None,
            last_graph: None,
            physical_type: PhysicalStreamType::Unspecified,
            graph_started: false,
        }
    }

    pub fn prefix_entry(&mut self, prefix: &RdfPrefixEntry) -> (r: Result<(), DeserializeError>)
        requires
            old(self).wf(),
        ensures
            final(self).wf(),
            (final(self)@, unit_result(r)) == ({
                let (t, e) = lookup_set(old(self)@.prefixes, prefix.id, prefix.value@);
                (DecoderModel { prefixes: t, ..old(self)@ }, unit_result(entry_result(e)))
            }),
    {
        match self.prefix_table.set(prefix.id, prefix.value.clone()) {
            Ok(()) => Ok(()),
            Err(e) => Err(DeserializeError::LookupError(e)),
        }
    }

    pub fn name_entry(&mut self, name: &RdfNameEntry) -> (r: Result<(), DeserializeError>)
        requires
            old(self).wf(),
        ensures
            final(self).wf(),
            (final(self)@, unit_result(r)) == ({
                let (t, e) = lookup_set(old(self)@.names, name.id, name.value@);
                (DecoderModel { names: t, ..old(self)@ }, unit_result(entry_result(e)))
            }),
    {
        match self.name_table.set(name.id, name.value.clone()) {
            Ok(()) => Ok(()),
            Err(e) => Err(DeserializeError::LookupError(e)),
        }
    }

    pub fn datatype_entry(&mut self, entry: &RdfDatatypeEntry) -> (r: Result<(), DeserializeError>)
        requires
            old(self).wf(),
        ensures
            final(self).wf(),
            (final(self)@, unit_result(r)) == ({
                let (t, e) = lookup_set(old(self)@.datatypes, entry.id, entry.value@);
                (DecoderModel { datatypes: t, ..old(self)@ }, unit_result(entry_result(e)))
            }),
    {
        match self.datatype_table.set(entry.id, entry.value.clone()) {
            Ok(()) => Ok(()),
            Err(e) => Err(DeserializeError::LookupError(e)),
        }
    }

    /// Reads the prefix and then the name of an IRI.
    pub fn iri_params(&mut self, iri: &RdfIri) -> (r: Result<IriParams, DeserializeError>)
        requires
            old(self).wf(),
        ensures
            final(self).wf(),
            (final(self)@, iri_result(r)) == resolve_iri(old(self)@, *iri),
    {
        let prefix = if self.prefix_table.capacity() == 0 {
            String::new()
        } else {
            match self.prefix_table.get(iri.prefix_id, LookupType::Stay) {
                Ok(p) => p,
                Err(e) => {
                    return Err(DeserializeError::LookupError(e));
                },
            }
        };
        match self.name_table.get(iri.name_id, LookupType::Inc) {
            Ok(name) => Ok(IriParams { prefix, name }),
            Err(e) => Err(DeserializeError::LookupError(e)),
        }
    }

    pub fn iri(&mut self, iri: &RdfIri) -> (r: Result<Term, DeserializeError>)
        requires
            old(self).wf(),
        ensures
            final(self).wf(),
            (final(self)@, term_result(r)) == resolve_term(old(self)@, RdfTerm::Iri(*iri)),
    {
        let params = self.iri_params(iri)?;
        Ok(Term::Iri(params.prefix.concat(params.name.as_str())))
    }

    /// Reads the datatype of a literal, if it has one.
    pub fn literal_params(&mut self, literal: &RdfLiteral) -> (r: Result<LiteralParams, DeserializeError>)
        requires
            old(self).wf(),
        ensures
            final(self).wf(),
            match literal.literal_kind {
                Some(LiteralKind::Datatype(id)) => {
                    let (t, d) = lookup_get(old(self)@.datatypes, id, LookupType::Invalid);
                    &&& final(self)@ == DecoderModel { datatypes: t, ..old(self)@ }
                    &&& match d {
                        Ok(dv) => (r matches Ok(p) && (p.datatype matches Some(dt) && dt@ == dv)),
                        Err(e) => r == Err::<LiteralParams, DeserializeError>(
                            DeserializeError::LookupError(e),
                        ),
                    }
                },
                _ => final(self)@ == old(self)@ && (r matches Ok(p) && p.datatype is None),
            },
    {
        match &literal.literal_kind {
            Some(LiteralKind::Datatype(id)) => match self.datatype_table.get(*id, LookupType::Invalid) {
                Ok(dt) => Ok(LiteralParams { datatype: Some(dt) }),
                Err(e) => Err(DeserializeError::LookupError(e)),
            },
            _ => Ok(LiteralParams { datatype: None }),
        }
    }

    pub fn literal(&mut self, literal: &RdfLiteral) -> (r: Result<Term, DeserializeError>)
        requires
            old(self).wf(),
        ensures
            final(self).wf(),
            (final(self)@, term_result(r)) == resolve_literal(old(self)@, *literal),
    {
        let params = self.literal_params(literal)?;
        let lex = literal.lex.clone();
        match &literal.literal_kind {
            Some(LiteralKind::Langtag(tag)) => Ok(Term::Literal(lex, LiteralForm::Lang(tag.clone()))),
            Some(LiteralKind::Datatype(_)) => match params.datatype {
                Some(dt) => Ok(Term::Literal(lex, LiteralForm::Typed(dt))),
                None => Err(
                    DeserializeError::LookupError(crate::error::LookupError::InvalidLookupAction),
                ),
            },
            None => Ok(Term::Literal(lex, LiteralForm::Simple)),
        }
    }

    /// Materializes a term descriptor (see `resolve_term`).
    pub fn to_term(&mut self, thing: &RdfTerm) -> (r: Result<Term, DeserializeError>)
        requires
            old(self).wf(),
        ensures
            final(self).wf(),
            (final(self)@, term_result(r)) == resolve_term(old(self)@, *thing),
        decreases thing,
    {
        match thing {
            RdfTerm::Iri(iri) => self.iri(iri),
            RdfTerm::Bnode(key) => Ok(Term::BlankNode(key.clone())),
            RdfTerm::Literal(literal) => self.literal(literal),
            RdfTerm::TripleTerm(triple) => {
                let (sd, pd, od) = match (&triple.subject, &triple.predicate, &triple.object) {
                    (None, _, _) => {
                        return Err(DeserializeError::MissingTermTermTriple(TermLocation::Subject));
                    },
                    (_, None, _) => {
                        return Err(DeserializeError::MissingTermTermTriple(TermLocation::Predicate));
                    },
                    (_, _, None) => {
                        return Err(DeserializeError::MissingTermTermTriple(TermLocation::Object));
                    },
                    (Some(sd), Some(pd), Some(od)) => (sd, pd, od),
                };
                let s = self.to_term(sd)?;
                let p = self.to_term(pd)?;
                let o = self.to_term(od)?;
                Ok(Term::Triple(Box::new(s), Box::new(p), Box::new(o)))
            },
        }
    }

    /// Materializes a graph descriptor; `None` for the default graph.
    pub fn graph_term(&mut self, graph: &RdfGraph) -> (r: Result<Option<Term>, DeserializeError>)
        requires
            old(self).wf(),
        ensures
            final(self).wf(),
            (final(self)@, graph_result(r)) == resolve_graph(old(self)@, *graph),
    {
        match graph {
            RdfGraph::Iri(iri) => {
                let t = self.iri(iri)?;
                Ok(Some(t))
            },
            RdfGraph::Bnode(key) => Ok(Some(Term::BlankNode(key.clone()))),
            RdfGraph::Literal(literal) => {
                let t = self.literal(literal)?;
                Ok(Some(t))
            },
            RdfGraph::DefaultGraph => Ok(None),
        }
    }

    /// Stores a graph descriptor in the graph register.
    pub fn q_graph(&mut self, graph: &RdfGraph) -> (r: Result<(), DeserializeError>)
        requires
            old(self).wf(),
        ensures
            final(self).wf(),
            (final(self)@, r) == set_graph(old(self)@, *graph),
    {
        let g = self.graph_term(graph)?;
        self.last_graph = g;
        Ok(())
    }

    fn update_spo(
        &mut self,
        subject: &Option<RdfTerm>,
        predicate: &Option<RdfTerm>,
        object: &Option<RdfTerm>,
    ) -> (r: Result<(), DeserializeError>)
        requires
            old(self).wf(),
        ensures
            final(self).wf(),
            (final(self)@, r) == update_spo(old(self)@, *subject, *predicate, *object),
    {
        if let Some(d) = subject {
            let t = self.to_term(d)?;
            self.last_subject = Some(t);
        }
        if let Some(d) = predicate {
            let t = self.to_term(d)?;
            self.last_predicate = Some(t);
        }
        if let Some(d) = object {
            let t = self.to_term(d)?;
            self.last_object = Some(t);
        }
        Ok(())
    }

    /// Copies of the three statement registers.
    fn spo(&self) -> (r: Result<(Term, Term, Term), DeserializeError>)
        ensures
            match current_spo(self@) {
                Ok((a, b, c)) => r matches Ok((x, y, z)) && x@ == a && y@ == b && z@ == c,
                Err(e) => r == Err::<(Term, Term, Term), DeserializeError>(e),
            },
    {
        let s = match &self.last_subject {
            Some(t) => t.copy(),
            None => {
                return Err(DeserializeError::MissingTerm(TermLocation::Subject));
            },
        };
        let p = match &self.last_predicate {
            Some(t) => t.copy(),
            None => {
                return Err(DeserializeError::MissingTerm(TermLocation::Predicate));
            },
        };
        let o = match &self.last_object {
            Some(t) => t.copy(),
            None => {
                return Err(DeserializeError::MissingTerm(TermLocation::Object));
            },
        };
        Ok((s, p, o))
    }

    /// A triple row of a triples stream.
    pub fn triple(&mut self, triple: &RdfTriple) -> (r: Result<Triple, DeserializeError>)
        requires
            old(self).wf(),
        ensures
            final(self).wf(),
            ({
                let (s, e) = triple_step(old(self)@, *triple);
                &&& final(self)@ == s
                &&& match e {
                    Ok(Some(em)) => r matches Ok(t) && emission_view(Emission::Triple(t)) == em,
                    Err(e) => r == Err::<Triple, DeserializeError>(e),
                    Ok(None) => false,
                }
            }),
    {
        self.update_spo(&triple.subject, &triple.predicate, &triple.object)?;
        let (subject, predicate, object) = self.spo()?;
        Ok(Triple { subject, predicate, object })
    }

    /// A triple row inside an open graph: a quad in the current graph.
    pub fn triple_with_graph(&mut self, triple: &RdfTriple) -> (r: Result<Quad, DeserializeError>)
        requires
            old(self).wf(),
        ensures
            final(self).wf(),
            ({
                let (s, e) = graph_triple_step(old(self)@, *triple);
                &&& final(self)@ == s
                &&& match e {
                    Ok(Some(em)) => r matches Ok(q) && emission_view(Emission::Quad(q)) == em,
                    Err(e) => r == Err::<Quad, DeserializeError>(e),
                    Ok(None) => false,
                }
            }),
    {
        self.update_spo(&triple.subject, &triple.predicate, &triple.object)?;
        let (subject, predicate, object) = self.spo()?;
        let graph = copy_opt(&self.last_graph);
        Ok(Quad { subject, predicate, object, graph })
    }

    /// A quad row of a quads stream.
    pub fn quad(&mut self, quad: &RdfQuad) -> (r: Result<Quad, DeserializeError>)
        requires
            old(self).wf(),
        ensures
            final(self).wf(),
            ({
                let (s, e) = quad_step(old(self)@, *quad);
                &&& final(self)@ == s
                &&& match e {
                    Ok(Some(em)) => r matches Ok(q) && emission_view(Emission::Quad(q)) == em,
                    Err(e) => r == Err::<Quad, DeserializeError>(e),
                    Ok(None) => false,
                }
            }),
    {
        self.update_spo(&quad.subject, &quad.predicate, &quad.object)?;
        if let Some(g) = &quad.graph {
            self.q_graph(g)?;
        }
        let (subject, predicate, object) = self.spo()?;
        let graph = copy_opt(&self.last_graph);
        Ok(Quad { subject, predicate, object, graph })
    }
}

/// Where emitted statements go: at most one call per emitting row, in row
/// order.  `handled` is the sequence of statements received so far.
pub trait RdfHandler {
    spec fn handled(&self) -> Seq<EmissionModel>;

    fn handle_triple(&mut self, triple: Triple)
        ensures
            final(self).handled() == old(self).handled().push(
                emission_view(Emission::Triple(triple)),
            ),
    ;

    fn handle_quad(&mut self, quad: Quad)
        ensures
            final(self).handled() == old(self).handled().push(emission_view(Emission::Quad(quad))),
    ;
}

/// The two callbacks of a `StateHandler`, each of which accepts every
/// statement.
pub struct Callbacks<S, FT, FQ> where FT: Fn(Triple, &mut S), FQ: Fn(Quad, &mut S) {
    ft: FT,
    fq: FQ,
    marker: core::marker::PhantomData<S>,
}

impl<S, FT, FQ> Callbacks<S, FT, FQ> where FT: Fn(Triple, &mut S), FQ: Fn(Quad, &mut S) {
    #[verifier::type_invariant]
    spec fn total(&self) -> bool {
        &&& forall|a: (Triple, &mut S)| #[trigger] self.ft.requires(a)
        &&& forall|a: (Quad, &mut S)| #[trigger] self.fq.requires(a)
    }

    /// The callback for triples.
    pub closed spec fn triple_fn(&self) -> FT {
        self.ft
    }

    /// The callback for quads.
    pub closed spec fn quad_fn(&self) -> FQ {
        self.fq
    }
}

/// A handler made of two callbacks that share a state; it records what it
/// was handed.
pub struct StateHandler<S, FT, FQ> where FT: Fn(Triple, &mut S), FQ: Fn(Quad, &mut S) {
    pub state: S,
    pub callbacks: Callbacks<S, FT, FQ>,
    pub log: Ghost<Seq<EmissionModel>>,
}

impl<S, FT, FQ> StateHandler<S, FT, FQ> where FT: Fn(Triple, &mut S), FQ: Fn(Quad, &mut S) {
    pub fn new(state: S, ft: FT, fq: FQ) -> (r: Self)
        requires
            forall|a: (Triple, &mut S)| #[trigger] ft.requires(a),
            forall|a: (Quad, &mut S)| #[trigger] fq.requires(a),
        ensures
            r.state == state,
            r.callbacks.triple_fn() == ft,
            r.callbacks.quad_fn() == fq,
            r.log@ == Seq::<EmissionModel>::empty(),
    {
        StateHandler {
            state,
            callbacks: Callbacks { ft, fq, marker: core::marker::PhantomData },
            log: Ghost(Seq::empty()),
        }
    }
}

impl<S, FT, FQ> RdfHandler for StateHandler<S, FT, FQ> where
    FT: Fn(Triple, &mut S),
    FQ: Fn(Quad, &mut S),
 {
    open spec fn handled(&self) -> Seq<EmissionModel> {
        self.log@
    }

    fn handle_triple(&mut self, triple: Triple) {
        proof {
            use_type_invariant(&self.callbacks);
        }
        let ghost em = emission_view(Emission::Triple(triple));
        (self.callbacks.ft)(triple, &mut self.state);
        self.log = Ghost(self.log@.push(em));
    }

    fn handle_quad(&mut self, quad: Quad) {
        proof {
            use_type_invariant(&self.callbacks);
        }
        let ghost em = emission_view(Emission::Quad(quad));
        (self.callbacks.fq)(quad, &mut self.state);
        self.log = Ghost(self.log@.push(em));
    }
}

pub open spec fn emission_result(r: Result<Option<Emission>, DeserializeError>) -> Result<
    Option<EmissionModel>,
    DeserializeError,
> {
    match r {
        Ok(Some(e)) => Ok(Some(emission_view(e))),
        Ok(None) => Ok(None),
        Err(e) => Err(e),
    }
}

pub open spec fn emissions_view(v: Seq<Emission>) -> Seq<EmissionModel> {
    v.map_values(|e: Emission| emission_view(e))
}

/// A stream decoder: unconfigured until its first options row.
pub struct Deserializer {
    configured: bool,
    inner: Inner,
}

impl View for Deserializer {
    type V = DecoderModel;

    closed spec fn view(&self) -> DecoderModel {
        DecoderModel { configured: self.configured, ..self.inner@ }
    }
}

pub proof fn lemma_run_prefix(s: DecoderModel, rows: Seq<Row>, i: int)
    requires
        0 <= i < rows.len(),
    ensures
        rows.take(i + 1).drop_last() == rows.take(i),
        rows.take(i + 1).last() == rows[i],
        rows.take(i + 1).len() == i + 1,
{
    assert(rows.take(i + 1).drop_last() =~= rows.take(i));
}

impl Deserializer {
    pub open spec fn wf(&self) -> bool {
        self@.wf()
    }

    pub fn new() -> (r: Deserializer)
        ensures
            r.wf(),
            r@ == unconfigured(),
    {
        Deserializer { configured: false, inner: Inner::unconfigured() }
    }

    /// A deep copy that decodes the rest of a stream as this one would.
    pub fn duplicate(&self) -> (r: Deserializer)
        requires
            self.wf(),
        ensures
            r.wf(),
            r@ == self@,
    {
        Deserializer { configured: self.configured, inner: self.inner.duplicate() }
    }

    pub fn is_configured(&self) -> (r: bool)
        ensures
            r == self@.configured,
    {
        self.configured
    }

    /// Applies one options row: configures an unconfigured decoder and
    /// leaves a configured one as it is.
    pub fn configure(&mut self, options: &RdfStreamOptions) -> (r: Result<(), DeserializeError>)
        requires
            old(self).wf(),
        ensures
            final(self).wf(),
            (final(self)@, unit_result(r)) == ({
                let (s, e) = step(old(self)@, Row::Options(*options));
                (s, unit_result(e))
            }),
    {
        if !self.configured {
            match Inner::from_options(options) {
                Ok(inner) => {
                    self.inner = inner;
                    self.configured = true;
                },
                Err(e) => {
                    return Err(DeserializeError::ConfigError(e));
                },
            }
        }
        Ok(())
    }

    /// Processes one row (see `step`), returning what it emits.
    pub fn handle_row(&mut self, row: &Row) -> (r: Result<Option<Emission>, DeserializeError>)
        requires
            old(self).wf(),
        ensures
            final(self).wf(),
            (final(self)@, emission_result(r)) == step(old(self)@, *row),
    {
        proof {
            lemma_cursors_stay_in_table(self@, *row);
        }
        if let Row::Options(options) = row {
            return match self.configure(options) {
                Ok(()) => Ok(None),
                Err(e) => Err(e),
            };
        }
        if !self.configured {
            return Err(DeserializeError::ConfigError(ConfigError::NotSet));
        }
        let inner = &mut self.inner;
        let physical = inner.physical_type;
        match row {
            Row::Options(_) => Ok(None),
            Row::Triple(triple) => {
                if physical == PhysicalStreamType::Graphs {
                    if !inner.graph_started {
                        Err(
                            DeserializeError::PhysicalStreamError(
                                PhysicalStreamError::NotYetSet {
                                    detected: physical,
                                    expected: MessageType::GraphStart,
                                },
                            ),
                        )
                    } else {
                        let q = inner.triple_with_graph(triple)?;
                        Ok(Some(Emission::Quad(q)))
                    }
                } else if physical == PhysicalStreamType::Triples {
                    let t = inner.triple(triple)?;
                    Ok(Some(Emission::Triple(t)))
                } else {
                    Err(
                        DeserializeError::PhysicalStreamError(
                            PhysicalStreamError::IncorrectType {
                                detected: physical,
                                incoming: MessageType::Triple,
                            },
                        ),
                    )
                }
            },
            Row::Quad(quad) => {
                if physical == PhysicalStreamType::Quads {
                    let q = inner.quad(quad)?;
                    Ok(Some(Emission::Quad(q)))
                } else {
                    Err(
                        DeserializeError::PhysicalStreamError(
                            PhysicalStreamError::IncorrectType {
                                detected: physical,
                                incoming: MessageType::Quad,
                            },
                        ),
                    )
                }
            },
            Row::GraphStart(start) => {
                if physical == PhysicalStreamType::Graphs {
                    match &start.graph {
                        None => Err(DeserializeError::MissingTerm(TermLocation::Graph)),
                        Some(g) => {
                            inner.q_graph(g)?;
                            inner.graph_started = true;
                            Ok(None)
                        },
                    }
                } else {
                    Err(
                        DeserializeError::PhysicalStreamError(
                            PhysicalStreamError::IncorrectType {
                                detected: physical,
                                incoming: MessageType::GraphStart,
                            },
                        ),
                    )
                }
            },
            Row::GraphEnd(_) => {
                if physical == PhysicalStreamType::Graphs {
                    inner.last_graph = None;
                    inner.graph_started = false;
                    Ok(None)
                } else {
                    Err(
                        DeserializeError::PhysicalStreamError(
                            PhysicalStreamError::IncorrectType {
                                detected: physical,
                                incoming: MessageType::GraphEnd,
                            },
                        ),
                    )
                }
            },
            Row::Namespace(_) => Ok(None),
            Row::Name(entry) => {
                inner.name_entry(entry)?;
                Ok(None)
            },
            Row::Prefix(entry) => {
                inner.prefix_entry(entry)?;
                Ok(None)
            },
            Row::Datatype(entry) => {
                inner.datatype_entry(entry)?;
                Ok(None)
            },
        }
    }

    /// Processes the rows of a frame in order and hands each emitted
    /// statement to `handler`; stops at the first error, keeping what was
    /// already handed over.
    pub fn handle_frame<H: RdfHandler>(&mut self, frame: &RdfStreamFrame, handler: &mut H) -> (r:
        Result<(), DeserializeError>)
        requires
            old(self).wf(),
        ensures
            final(self).wf(),
            final(self)@ == run(old(self)@, frame.rows@).0,
            final(handler).handled() == old(handler).handled() + run(old(self)@, frame.rows@).1,
            r == run(old(self)@, frame.rows@).2,
    {
        let ghost s0 = self@;
        let ghost h0 = handler.handled();
        let n = frame.rows.len();
        let mut i: usize = 0;
        while i < n
            invariant
                n == frame.rows@.len(),
                i <= n,
                self.wf(),
                s0 == old(self)@,
                h0 == old(handler).handled(),
                run(s0, frame.rows@.take(i as int)).0 == self@,
                handler.handled() == h0 + run(s0, frame.rows@.take(i as int)).1,
                run(s0, frame.rows@.take(i as int)).2 == Ok::<(), DeserializeError>(()),
            decreases n - i,
        {
            proof {
                lemma_run_prefix(s0, frame.rows@, i as int);
            }
            let ghost before = handler.handled();
            let ghost es = run(s0, frame.rows@.take(i as int)).1;
            match self.handle_row(&frame.rows[i]) {
                Err(e) => {
                    proof {
                        lemma_run_stops(s0, frame.rows@, i as int + 1);
                    }
                    return Err(e);
                },
                Ok(Some(Emission::Triple(t))) => {
                    handler.handle_triple(t);
                    proof {
                        assert(h0 + es.push(emission_view(Emission::Triple(t))) =~= before.push(
                            emission_view(Emission::Triple(t)),
                        ));
                    }
                },
                Ok(Some(Emission::Quad(q))) => {
                    handler.handle_quad(q);
                    proof {
                        assert(h0 + es.push(emission_view(Emission::Quad(q))) =~= before.push(
                            emission_view(Emission::Quad(q)),
                        ));
                    }
                },
                Ok(None) => {},
            }
            i += 1;
        }
        assert(frame.rows@.take(n as int) =~= frame.rows@);
        Ok(())
    }

    /// As `handle_frame`, appending each emitted statement to `out`.
    pub fn decode_frame(&mut self, frame: &RdfStreamFrame, out: &mut Vec<Emission>) -> (r: Result<
        (),
        DeserializeError,
    >)
        requires
            old(self).wf(),
        ensures
            final(self).wf(),
            final(self)@ == run(old(self)@, frame.rows@).0,
            emissions_view(final(out)@) == emissions_view(old(out)@) + run(
                old(self)@,
                frame.rows@,
            ).1,
            r == run(old(self)@, frame.rows@).2,
    {
        let ghost s0 = self@;
        let ghost out0 = emissions_view(out@);
        let n = frame.rows.len();
        let mut i: usize = 0;
        while i < n
            invariant
                n == frame.rows@.len(),
                i <= n,
                self.wf(),
                s0 == old(self)@,
                run(s0, frame.rows@.take(i as int)).0 == self@,
                out0 == emissions_view(old(out)@),
                emissions_view(out@) == out0 + run(s0, frame.rows@.take(i as int)).1,
                run(s0, frame.rows@.take(i as int)).2 == Ok::<(), DeserializeError>(()),
            decreases n - i,
        {
            proof {
                lemma_run_prefix(s0, frame.rows@, i as int);
            }
            let ghost before = out@;
            match self.handle_row(&frame.rows[i]) {
                Err(e) => {
                    proof {
                        lemma_run_stops(s0, frame.rows@, i as int + 1);
                    }
                    return Err(e);
                },
                Ok(Some(em)) => {
                    out.push(em);
                    proof {
                        assert(emissions_view(out@) =~= emissions_view(before).push(emission_view(em)));
                    }
                },
                Ok(None) => {},
            }
            i += 1;
        }
        assert(frame.rows@.take(n as int) =~= frame.rows@);
        Ok(())
    }
}

/// Once a prefix of the rows fails, the whole run ends there.
proof fn lemma_run_stops(s: DecoderModel, rows: Seq<Row>, k: int)
    requires
        0 <= k <= rows.len(),
        run(s, rows.take(k)).2 is Err,
    ensures
        run(s, rows) == run(s, rows.take(k)),
    decreases rows.len() - k,
{
    if k < rows.len() {
        lemma_run_prefix(s, rows, k);
        lemma_run_stops(s, rows, k + 1);
    } else {
        assert(rows.take(k) =~= rows);
    }
}

} // verus!
