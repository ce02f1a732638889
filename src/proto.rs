//! The rows of a stream, as plain values (the wire messages after
//! protobuf decoding).
use vstd::prelude::*;

verus! {

/// An IRI as two table references: a prefix id and a name id.
#[derive(Debug, Clone, Copy, PartialEq, Eq, Structural)]
pub struct RdfIri {
    pub prefix_id: u32,
    pub name_id: u32,
}

#[derive(Debug, Clone)]
pub enum LiteralKind {
    Langtag(String),
    Datatype(u32),
}

#[derive(Debug, Clone)]
pub struct RdfLiteral {
    pub lex: String,
    pub literal_kind: Option<LiteralKind>,
}

/// A term descriptor in a subject, predicate or object position.
#[derive(Debug)]
pub enum RdfTerm {
    Iri(RdfIri),
    Bnode(String),
    Literal(RdfLiteral),
    TripleTerm(Box<RdfTriple>),
}

/// A triple row, or a nested triple; an absent position repeats the
/// previous value at top level and is an error inside a nested triple.
#[derive(Debug)]
pub struct RdfTriple {
    pub subject: Option<RdfTerm>,
    pub predicate: Option<RdfTerm>,
    pub object: Option<RdfTerm>,
}

/// A term descriptor in a graph position.
#[derive(Debug, Clone)]
pub enum RdfGraph {
    Iri(RdfIri),
    Bnode(String),
    Literal(RdfLiteral),
    DefaultGraph,
}

#[derive(Debug)]
pub struct RdfQuad {
    pub subject: Option<RdfTerm>,
    pub predicate: Option<RdfTerm>,
    pub object: Option<RdfTerm>,
    pub graph: Option<RdfGraph>,
}

#[derive(Debug)]
pub struct RdfGraphStart {
    pub graph: Option<RdfGraph>,
}

#[derive(Debug, Clone, Copy, PartialEq, Eq, Structural)]
pub struct RdfGraphEnd {}

#[derive(Debug, Clone)]
pub struct RdfNamespaceDeclaration {
    pub name: String,
    pub value: Option<RdfIri>,
}

#[derive(Debug, Clone)]
pub struct RdfNameEntry {
    pub id: u32,
    pub value: String,
}

#[derive(Debug, Clone)]
pub struct RdfPrefixEntry {
    pub id: u32,
    pub value: String,
}

#[derive(Debug, Clone)]
pub struct RdfDatatypeEntry {
    pub id: u32,
    pub value: String,
}

/// Stream options; `physical_type` is the wire number
/// (0 unspecified, 1 triples, 2 quads, 3 graphs).
#[derive(Debug, Clone, Copy, PartialEq, Eq, Structural)]
pub struct RdfStreamOptions {
    pub physical_type: i32,
    pub max_name_table_size: u32,
    pub max_prefix_table_size: u32,
    pub max_datatype_table_size: u32,
}

#[derive(Debug)]
pub enum Row {
    Options(RdfStreamOptions),
    Triple(RdfTriple),
    Quad(RdfQuad),
    GraphStart(RdfGraphStart),
    GraphEnd(RdfGraphEnd),
    Namespace(RdfNamespaceDeclaration),
    Name(RdfNameEntry),
    Prefix(RdfPrefixEntry),
    Datatype(RdfDatatypeEntry),
}

/// One frame: a batch of rows in wire order.
#[derive(Debug)]
pub struct RdfStreamFrame {
    pub rows: Vec<Row>,
}

} // verus!
