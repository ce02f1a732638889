use jelly::deserialize::{Deserializer, StateHandler};
use jelly::error::{
    ConfigError, DeserializeError, LookupError, MessageType, PhysicalStreamError,
    PhysicalStreamType, Table, TermLocation,
};
use jelly::proto::{
    LiteralKind, RdfGraph, RdfGraphEnd, RdfGraphStart, RdfIri, RdfLiteral, RdfNameEntry,
    RdfPrefixEntry, RdfDatatypeEntry, RdfQuad, RdfStreamFrame, RdfStreamOptions, RdfTerm,
    RdfTriple, Row,
};
use jelly::strings::StringRdf;
use jelly::sophia::{SophiaError, SophiaFrameError, SophiaRdf};
use jelly::term::{Emission, LiteralForm, Quad, Term, Triple};

fn options(physical_type: i32, name: u32, prefix: u32, datatype: u32) -> Row {
    Row::Options(RdfStreamOptions {
        physical_type,
        max_name_table_size: name,
        max_prefix_table_size: prefix,
        max_datatype_table_size: datatype,
    })
}

fn iri(prefix_id: u32, name_id: u32) -> RdfTerm {
    RdfTerm::Iri(RdfIri { prefix_id, name_id })
}

fn name(id: u32, value: &str) -> Row {
    Row::Name(RdfNameEntry { id, value: value.to_string() })
}

fn prefix(id: u32, value: &str) -> Row {
    Row::Prefix(RdfPrefixEntry { id, value: value.to_string() })
}

fn datatype(id: u32, value: &str) -> Row {
    Row::Datatype(RdfDatatypeEntry { id, value: value.to_string() })
}

fn triple(s: Option<RdfTerm>, p: Option<RdfTerm>, o: Option<RdfTerm>) -> RdfTriple {
    RdfTriple { subject: s, predicate: p, object: o }
}

fn literal(lex: &str, kind: Option<LiteralKind>) -> RdfTerm {
    RdfTerm::Literal(RdfLiteral { lex: lex.to_string(), literal_kind: kind })
}

/// Statements as text: (s, p, o, graph).
type Text = (String, String, String, Option<String>);

fn text(e: &Emission) -> Text {
    match e {
        Emission::Triple(t) => {
            let (s, p, o) = StringRdf::triple(t);
            (s, p, o, None)
        }
        Emission::Quad(q) => StringRdf::quad(q),
    }
}

fn decode(rows: Vec<Row>) -> (Vec<Text>, Result<(), DeserializeError>) {
    let mut d = Deserializer::new();
    let mut out = Vec::new();
    let r = d.decode_frame(&RdfStreamFrame { rows }, &mut out);
    (out.iter().map(text).collect(), r)
}

fn t3(s: &str, p: &str, o: &str) -> Text {
    (s.to_string(), p.to_string(), o.to_string(), None)
}

fn t4(s: &str, p: &str, o: &str, g: Option<&str>) -> Text {
    (s.to_string(), p.to_string(), o.to_string(), g.map(|g| g.to_string()))
}

fn ex_rows(physical_type: i32) -> Vec<Row> {
    vec![
        options(physical_type, 8, 2, 2),
        prefix(0, "http://ex.org/"),
        name(0, "a"),
        name(0, "b"),
        name(0, "c"),
    ]
}

#[test]
fn triples_prefix_name_compression() {
    // The object's name id 0 follows the predicate's slot 2 to slot 3,
    // which this stream never wrote.
    let mut rows = vec![
        options(1, 8, 2, 0),
        prefix(0, "http://ex.org/"),
        name(0, "a"),
        name(0, "b"),
    ];
    rows.push(Row::Triple(triple(Some(iri(1, 1)), Some(iri(0, 0)), Some(iri(0, 0)))));
    let (out, r) = decode(rows);
    assert!(out.is_empty());
    assert_eq!(r, Err(DeserializeError::LookupError(LookupError::Missing(3, 9))));
}

#[test]
fn triples_prefix_name_compression_explicit_object() {
    let mut rows = vec![
        options(1, 8, 2, 0),
        prefix(0, "http://ex.org/"),
        name(0, "a"),
        name(0, "b"),
    ];
    rows.push(Row::Triple(triple(Some(iri(1, 1)), Some(iri(0, 0)), Some(iri(0, 2)))));
    let (out, r) = decode(rows);
    assert_eq!(r, Ok(()));
    assert_eq!(out, vec![t3("<http://ex.org/a>", "<http://ex.org/b>", "<http://ex.org/b>")]);
}

#[test]
fn quads_stream_default_graph() {
    let mut rows = ex_rows(2);
    rows.push(Row::Quad(RdfQuad {
        subject: Some(iri(1, 1)),
        predicate: Some(iri(0, 0)),
        object: Some(iri(0, 0)),
        graph: Some(RdfGraph::Iri(RdfIri { prefix_id: 0, name_id: 1 })),
    }));
    rows.push(Row::Quad(RdfQuad {
        subject: None,
        predicate: None,
        object: None,
        graph: Some(RdfGraph::DefaultGraph),
    }));
    rows.push(Row::Quad(RdfQuad { subject: None, predicate: None, object: None, graph: None }));
    let (out, r) = decode(rows);
    assert_eq!(r, Ok(()));
    let a = "<http://ex.org/a>";
    let b = "<http://ex.org/b>";
    let c = "<http://ex.org/c>";
    assert_eq!(out, vec![t4(a, b, c, Some(a)), t4(a, b, c, None), t4(a, b, c, None)]);
}

#[test]
fn graphs_stream_triple_before_graph_start() {
    let mut rows = ex_rows(3);
    rows.push(Row::Triple(triple(Some(iri(1, 1)), Some(iri(0, 0)), Some(iri(0, 0)))));
    let (out, r) = decode(rows);
    assert!(out.is_empty());
    assert_eq!(
        r,
        Err(DeserializeError::PhysicalStreamError(PhysicalStreamError::NotYetSet {
            detected: PhysicalStreamType::Graphs,
            expected: MessageType::GraphStart,
        }))
    );
}

#[test]
fn graphs_stream_quads_carry_open_graph() {
    let mut rows = ex_rows(3);
    rows.push(Row::GraphStart(RdfGraphStart {
        graph: Some(RdfGraph::Bnode("g1".to_string())),
    }));
    rows.push(Row::Triple(triple(Some(iri(1, 1)), Some(iri(0, 0)), Some(iri(0, 0)))));
    rows.push(Row::Triple(triple(None, None, Some(literal("x", None)))));
    rows.push(Row::GraphEnd(RdfGraphEnd {}));
    rows.push(Row::GraphStart(RdfGraphStart { graph: Some(RdfGraph::DefaultGraph) }));
    rows.push(Row::Triple(triple(None, None, None)));
    rows.push(Row::GraphEnd(RdfGraphEnd {}));
    rows.push(Row::Triple(triple(None, None, None)));
    let (out, r) = decode(rows);
    let a = "<http://ex.org/a>";
    let b = "<http://ex.org/b>";
    let c = "<http://ex.org/c>";
    assert_eq!(
        out,
        vec![
            t4(a, b, c, Some("_:Bg1")),
            t4(a, b, "\"x\"", Some("_:Bg1")),
            t4(a, b, "\"x\"", None),
        ]
    );
    assert_eq!(
        r,
        Err(DeserializeError::PhysicalStreamError(PhysicalStreamError::NotYetSet {
            detected: PhysicalStreamType::Graphs,
            expected: MessageType::GraphStart,
        }))
    );
}

#[test]
fn graph_start_without_graph_fails() {
    let mut rows = ex_rows(3);
    rows.push(Row::GraphStart(RdfGraphStart { graph: None }));
    let (_, r) = decode(rows);
    assert_eq!(r, Err(DeserializeError::MissingTerm(TermLocation::Graph)));
}

#[test]
fn language_tagged_literal() {
    let mut rows = ex_rows(1);
    rows.push(Row::Triple(triple(
        Some(iri(1, 1)),
        Some(iri(0, 0)),
        Some(literal("hello", Some(LiteralKind::Langtag("en".to_string())))),
    )));
    let (out, r) = decode(rows);
    assert_eq!(r, Ok(()));
    assert_eq!(out, vec![t3("<http://ex.org/a>", "<http://ex.org/b>", "\"hello\"@en")]);
}

#[test]
fn typed_literal_with_id_zero_fails() {
    let mut rows = ex_rows(1);
    rows.push(datatype(0, "http://www.w3.org/2001/XMLSchema#integer"));
    rows.push(Row::Triple(triple(
        Some(iri(1, 1)),
        Some(iri(0, 0)),
        Some(literal("x", Some(LiteralKind::Datatype(0)))),
    )));
    let (out, r) = decode(rows);
    assert!(out.is_empty());
    assert_eq!(r, Err(DeserializeError::LookupError(LookupError::InvalidLookupAction)));
}

#[test]
fn typed_and_plain_literals() {
    let mut rows = ex_rows(1);
    rows.push(datatype(0, "http://www.w3.org/2001/XMLSchema#integer"));
    rows.push(Row::Triple(triple(
        Some(iri(1, 1)),
        Some(iri(0, 0)),
        Some(literal("42", Some(LiteralKind::Datatype(1)))),
    )));
    rows.push(Row::Triple(triple(None, None, Some(literal("plain", None)))));
    let (out, r) = decode(rows);
    assert_eq!(r, Ok(()));
    let a = "<http://ex.org/a>";
    let b = "<http://ex.org/b>";
    assert_eq!(
        out,
        vec![
            t3(a, b, "\"42\"^^<http://www.w3.org/2001/XMLSchema#integer>"),
            t3(a, b, "\"plain\""),
        ]
    );
}

#[test]
fn nested_triple_missing_subject() {
    let mut rows = ex_rows(1);
    let nested = RdfTerm::TripleTerm(Box::new(triple(None, Some(iri(1, 1)), Some(iri(0, 0)))));
    rows.push(Row::Triple(triple(Some(nested), Some(iri(0, 0)), Some(iri(0, 0)))));
    let (out, r) = decode(rows);
    assert!(out.is_empty());
    assert_eq!(r, Err(DeserializeError::MissingTermTermTriple(TermLocation::Subject)));
}

#[test]
fn nested_triple_resolves_recursively() {
    let mut rows = ex_rows(1);
    let inner = RdfTerm::TripleTerm(Box::new(triple(
        Some(RdfTerm::Bnode("x".to_string())),
        Some(iri(1, 1)),
        Some(iri(0, 0)),
    )));
    let outer = RdfTerm::TripleTerm(Box::new(triple(Some(inner), Some(iri(0, 0)), Some(iri(0, 1)))));
    rows.push(Row::Triple(triple(Some(outer), Some(iri(0, 1)), Some(iri(0, 0)))));
    let (out, r) = decode(rows);
    assert_eq!(r, Ok(()));
    let a = "<http://ex.org/a>";
    let b = "<http://ex.org/b>";
    let c = "<http://ex.org/c>";
    let inner_text = format!("<< _:Bx {} {} >>", a, b);
    let outer_text = format!("<< {} {} {} >>", inner_text, c, a);
    assert_eq!(out, vec![t3(&outer_text, a, b)]);
}

#[test]
fn omitted_positions_repeat_previous_terms() {
    let mut rows = ex_rows(1);
    rows.push(Row::Triple(triple(Some(iri(1, 1)), Some(iri(0, 0)), Some(iri(0, 0)))));
    rows.push(Row::Triple(triple(None, None, Some(iri(0, 1)))));
    rows.push(Row::Triple(triple(Some(iri(0, 3)), None, None)));
    let (out, r) = decode(rows);
    assert_eq!(r, Ok(()));
    let a = "<http://ex.org/a>";
    let b = "<http://ex.org/b>";
    let c = "<http://ex.org/c>";
    assert_eq!(out, vec![t3(a, b, c), t3(a, b, a), t3(c, b, a)]);
}

#[test]
fn first_triple_with_omitted_position_fails() {
    let mut rows = ex_rows(1);
    rows.push(Row::Triple(triple(Some(iri(1, 1)), None, Some(iri(0, 0)))));
    let (_, r) = decode(rows);
    assert_eq!(r, Err(DeserializeError::MissingTerm(TermLocation::Predicate)));
}

#[test]
fn options_twice_is_options_once() {
    let mut rows = ex_rows(1);
    rows.insert(1, options(2, 1, 1, 1));
    rows.push(options(3, 0, 0, 0));
    rows.push(Row::Triple(triple(Some(iri(1, 1)), Some(iri(0, 0)), Some(iri(0, 0)))));
    let (out, r) = decode(rows);
    assert_eq!(r, Ok(()));
    assert_eq!(out, vec![t3("<http://ex.org/a>", "<http://ex.org/b>", "<http://ex.org/c>")]);
}

#[test]
fn replay_gives_same_statements() {
    let build = || {
        let mut rows = ex_rows(1);
        rows.push(Row::Triple(triple(Some(iri(1, 1)), Some(iri(0, 0)), Some(iri(0, 0)))));
        rows.push(Row::Triple(triple(Some(RdfTerm::Bnode("k".to_string())), None, None)));
        rows
    };
    let first = decode(build());
    let second = decode(build());
    assert_eq!(first, second);
    assert_eq!(first.0.len(), 2);
}

#[test]
fn oversized_tables_rejected() {
    let cases = [
        (options(1, 4097, 0, 0), Table::NameTable, 4097, 4096),
        (options(1, 0, 1025, 0), Table::PrefixTable, 1025, 1024),
        (options(1, 0, 0, 257), Table::DatatypeTable, 257, 256),
    ];
    for (row, table, set, max) in cases {
        let mut d = Deserializer::new();
        assert_eq!(
            d.handle_row(&row).err(),
            Some(DeserializeError::ConfigError(ConfigError::TableToLarge { table, set, max }))
        );
        assert!(!d.is_configured());
    }
    let mut d = Deserializer::new();
    assert!(d.handle_row(&options(1, 4096, 1024, 256)).is_ok());
    assert!(d.is_configured());
}

#[test]
fn config_table_checks() {
    assert_eq!(ConfigError::name_table(4096), None);
    assert_eq!(
        ConfigError::name_table(5000),
        Some(ConfigError::TableToLarge { table: Table::NameTable, set: 5000, max: 4096 })
    );
    assert_eq!(ConfigError::prefix_table(1024), None);
    assert!(ConfigError::prefix_table(1025).is_some());
    assert_eq!(ConfigError::datatype_table(256), None);
    assert!(ConfigError::datatype_table(257).is_some());
}

#[test]
fn zero_tables_accepted_then_lookups_fail() {
    let (_, r) = decode(vec![options(1, 0, 0, 0), Row::Triple(triple(None, None, None))]);
    assert_eq!(r, Err(DeserializeError::MissingTerm(TermLocation::Subject)));
    let (_, r) = decode(vec![
        options(1, 0, 0, 0),
        Row::Triple(triple(Some(iri(0, 1)), None, None)),
    ]);
    assert_eq!(r, Err(DeserializeError::LookupError(LookupError::LookupFromEmptyTable)));
    let (_, r) = decode(vec![
        options(1, 0, 0, 0),
        Row::Triple(triple(Some(literal("1", Some(LiteralKind::Datatype(1)))), None, None)),
    ]);
    assert_eq!(r, Err(DeserializeError::LookupError(LookupError::LookupFromEmptyTable)));
    let (out, r) = decode(vec![
        options(1, 0, 0, 0),
        Row::Triple(triple(
            Some(RdfTerm::Bnode("s".to_string())),
            Some(RdfTerm::Bnode("p".to_string())),
            Some(literal("o", None)),
        )),
    ]);
    assert_eq!(r, Ok(()));
    assert_eq!(out, vec![t3("_:Bs", "_:Bp", "\"o\"")]);
}

#[test]
fn triple_in_quads_stream_fails() {
    let mut rows = ex_rows(2);
    rows.push(Row::Triple(triple(Some(iri(1, 1)), Some(iri(0, 0)), Some(iri(0, 0)))));
    let (_, r) = decode(rows);
    assert_eq!(
        r,
        Err(DeserializeError::PhysicalStreamError(PhysicalStreamError::IncorrectType {
            detected: PhysicalStreamType::Quads,
            incoming: MessageType::Triple,
        }))
    );
}

#[test]
fn wrong_row_kinds_for_stream_type_fail() {
    let quad = || RdfQuad { subject: None, predicate: None, object: None, graph: None };
    let cases = [
        (1, Row::Quad(quad()), MessageType::Quad, PhysicalStreamType::Triples),
        (3, Row::Quad(quad()), MessageType::Quad, PhysicalStreamType::Graphs),
        (1, Row::GraphStart(RdfGraphStart { graph: None }), MessageType::GraphStart, PhysicalStreamType::Triples),
        (2, Row::GraphEnd(RdfGraphEnd {}), MessageType::GraphEnd, PhysicalStreamType::Quads),
    ];
    for (pt, row, incoming, detected) in cases {
        let mut rows = ex_rows(pt);
        rows.push(row);
        let (_, r) = decode(rows);
        assert_eq!(
            r,
            Err(DeserializeError::PhysicalStreamError(PhysicalStreamError::IncorrectType {
                detected,
                incoming,
            }))
        );
    }
}

#[test]
fn rows_before_options_fail() {
    let (_, r) = decode(vec![name(0, "a")]);
    assert_eq!(r, Err(DeserializeError::ConfigError(ConfigError::NotSet)));
}

#[test]
fn bad_physical_types_rejected() {
    let (_, r) = decode(vec![options(0, 1, 1, 1)]);
    assert_eq!(
        r,
        Err(DeserializeError::ConfigError(ConfigError::InvalidPhysicalType(
            PhysicalStreamType::Unspecified
        )))
    );
    let (_, r) = decode(vec![options(9, 1, 1, 1)]);
    assert_eq!(r, Err(DeserializeError::ConfigError(ConfigError::InvalidPhysicalNotSet(9))));
}

#[test]
fn table_overflow_on_entry_row() {
    let (_, r) = decode(vec![options(1, 1, 1, 1), name(0, "a"), name(0, "b")]);
    assert_eq!(r, Err(DeserializeError::LookupError(LookupError::LookupTableTooSmall(1))));
}

#[test]
fn emissions_before_error_are_kept() {
    let mut rows = ex_rows(1);
    rows.push(Row::Triple(triple(Some(iri(1, 1)), Some(iri(0, 0)), Some(iri(0, 0)))));
    rows.push(Row::Quad(RdfQuad { subject: None, predicate: None, object: None, graph: None }));
    rows.push(Row::Triple(triple(None, None, None)));
    let (out, r) = decode(rows);
    assert_eq!(out.len(), 1);
    assert!(r.is_err());
}

#[test]
fn handle_frame_across_frames() {
    let mut d = Deserializer::new();
    let mut h = StateHandler::new(
        (0usize, 0usize),
        |_t: Triple, s: &mut (usize, usize)| s.0 += 1,
        |_q: Quad, s: &mut (usize, usize)| s.1 += 1,
    );
    d.handle_frame(&RdfStreamFrame { rows: ex_rows(1) }, &mut h).unwrap();
    let rows = vec![
        Row::Triple(triple(Some(iri(1, 1)), Some(iri(0, 0)), Some(iri(0, 0)))),
        Row::Triple(triple(None, None, Some(iri(0, 1)))),
    ];
    d.handle_frame(&RdfStreamFrame { rows }, &mut h).unwrap();
    assert_eq!(h.state, (2, 0));
}

#[test]
fn state_handler_collects() {
    let mut d = Deserializer::new();
    let mut h = StateHandler::new(
        Vec::<String>::new(),
        |t: Triple, s: &mut Vec<String>| s.push(StringRdf::term(&t.object)),
        |q: Quad, s: &mut Vec<String>| s.push(StringRdf::term(&q.subject)),
    );
    let mut rows = ex_rows(1);
    rows.push(Row::Triple(triple(Some(iri(1, 1)), Some(iri(0, 0)), Some(iri(0, 0)))));
    d.handle_frame(&RdfStreamFrame { rows }, &mut h).unwrap();
    assert_eq!(h.state, vec!["<http://ex.org/c>".to_string()]);
}

#[test]
fn sophia_check_accepts_and_refuses() {
    let lit = |f: LiteralForm| Term::Literal("x".to_string(), f);
    assert!(SophiaRdf::check_term(&lit(LiteralForm::Lang("en-GB".to_string()))).is_ok());
    assert!(SophiaRdf::check_term(&lit(LiteralForm::Typed("http://ex.org/t".to_string()))).is_ok());
    assert!(SophiaRdf::check_term(&lit(LiteralForm::Simple)).is_ok());
    match SophiaRdf::check_term(&lit(LiteralForm::Lang("not a tag".to_string()))) {
        Err(SophiaError::InvalidLanguageTag(t)) => assert_eq!(t, "not a tag"),
        other => panic!("unexpected {:?}", other),
    }
    let bad_dt = lit(LiteralForm::Typed("http://ex.org/a b".to_string()));
    let nested = Term::Triple(
        Box::new(Term::BlankNode("s".to_string())),
        Box::new(Term::Iri("http://ex.org/p".to_string())),
        Box::new(bad_dt),
    );
    match SophiaRdf::check_term(&nested) {
        Err(SophiaError::InvalidIri(t)) => assert_eq!(t, "http://ex.org/a b"),
        other => panic!("unexpected {:?}", other),
    }
}

#[test]
fn duplicate_decodes_like_its_source() {
    let mut d = Deserializer::new();
    let mut sink = Vec::new();
    d.decode_frame(&RdfStreamFrame { rows: ex_rows(1) }, &mut sink).unwrap();
    let first = vec![Row::Triple(triple(Some(iri(1, 1)), Some(iri(0, 0)), Some(iri(0, 0))))];
    d.decode_frame(&RdfStreamFrame { rows: first }, &mut sink).unwrap();
    let mut copy = d.duplicate();
    let next = || {
        vec![
            Row::Triple(triple(None, None, Some(iri(0, 1)))),
            Row::Triple(triple(Some(iri(0, 0)), None, None)),
        ]
    };
    let mut a = Vec::new();
    let mut b = Vec::new();
    d.decode_frame(&RdfStreamFrame { rows: next() }, &mut a).unwrap();
    copy.decode_frame(&RdfStreamFrame { rows: next() }, &mut b).unwrap();
    let a: Vec<Text> = a.iter().map(text).collect();
    let b: Vec<Text> = b.iter().map(text).collect();
    assert_eq!(a, b);
    let x = "<http://ex.org/a>";
    let y = "<http://ex.org/b>";
    assert_eq!(a, vec![t3(x, y, x), t3(y, y, x)]);
}

#[test]
fn sophia_frame_stops_at_refused_term() {
    let mut rows = ex_rows(1);
    rows.push(Row::Triple(triple(Some(iri(1, 1)), Some(iri(0, 0)), Some(iri(0, 0)))));
    rows.push(Row::Triple(triple(
        None,
        None,
        Some(literal("x", Some(LiteralKind::Langtag("bad tag".to_string())))),
    )));
    rows.push(Row::Triple(triple(None, None, Some(literal("y", None)))));
    let mut d = Deserializer::new();
    let mut out = Vec::new();
    let r = SophiaRdf::decode_frame(&mut d, &RdfStreamFrame { rows }, &mut out);
    assert_eq!(out.len(), 1);
    match r {
        Err(SophiaFrameError::Term(SophiaError::InvalidLanguageTag(t))) => assert_eq!(t, "bad tag"),
        other => panic!("unexpected {:?}", other),
    }
    let mut rows = ex_rows(1);
    rows.push(Row::Triple(triple(
        Some(iri(1, 1)),
        Some(iri(0, 0)),
        Some(literal("x", Some(LiteralKind::Langtag("en".to_string())))),
    )));
    let mut d = Deserializer::new();
    let mut out = Vec::new();
    assert!(SophiaRdf::decode_frame(&mut d, &RdfStreamFrame { rows }, &mut out).is_ok());
    assert_eq!(out.len(), 1);
}

#[test]
fn handler_receives_nothing_for_rejected_rows() {
    let mut d = Deserializer::new();
    let mut h = StateHandler::new(
        0usize,
        |_t: Triple, n: &mut usize| *n += 1,
        |_q: Quad, n: &mut usize| *n += 1,
    );
    let r = d.handle_frame(&RdfStreamFrame { rows: vec![name(0, "a")] }, &mut h);
    assert_eq!(r, Err(DeserializeError::ConfigError(ConfigError::NotSet)));
    let mut rows = ex_rows(2);
    rows.push(Row::Triple(triple(Some(iri(1, 1)), Some(iri(0, 0)), Some(iri(0, 0)))));
    assert!(d.handle_frame(&RdfStreamFrame { rows }, &mut h).is_err());
    assert_eq!(h.state, 0);
}
