//! Materialized RDF terms and statements, and their abstract views.
use vstd::prelude::*;

verus! {

#[derive(Debug, Clone)]
pub enum LiteralForm {
    /// A plain literal (xsd:string).
    Simple,
    /// A language-tagged literal.
    Lang(String),
    /// A literal with the datatype IRI given.
    Typed(String),
}

#[derive(Debug)]
pub enum Term {
    Iri(String),
    BlankNode(String),
    Literal(String, LiteralForm),
    /// A quoted (RDF-star) triple: subject, predicate, object.
    Triple(Box<Term>, Box<Term>, Box<Term>),
}

pub enum FormModel {
    Simple,
    Lang(Seq<char>),
    Typed(Seq<char>),
}

pub enum TermModel {
    Iri(Seq<char>),
    BlankNode(Seq<char>),
    Literal(Seq<char>, FormModel),
    Triple(Box<TermModel>, Box<TermModel>, Box<TermModel>),
}

pub open spec fn form_view(f: LiteralForm) -> FormModel {
    match f {
        LiteralForm::Simple => FormModel::Simple,
        LiteralForm::Lang(t) => FormModel::Lang(t@),
        LiteralForm::Typed(d) => FormModel::Typed(d@),
    }
}

pub open spec fn term_view(t: Term) -> TermModel
    decreases t,
{
    match t {
        Term::Iri(v) => TermModel::Iri(v@),
        Term::BlankNode(k) => TermModel::BlankNode(k@),
        Term::Literal(lex, f) => TermModel::Literal(lex@, form_view(f)),
        Term::Triple(s, p, o) => TermModel::Triple(
            Box::new(term_view(*s)),
            Box::new(term_view(*p)),
            Box::new(term_view(*o)),
        ),
    }
}

impl View for Term {
    type V = TermModel;

    open spec fn view(&self) -> TermModel {
        term_view(*self)
    }
}

pub open spec fn opt_term_view(t: Option<Term>) -> Option<TermModel> {
    match t {
        Some(t) => Some(term_view(t)),
        None => None,
    }
}

impl LiteralForm {
    pub fn copy(&self) -> (r: LiteralForm)
        ensures
            form_view(r) == form_view(*self),
    {
        match self {
            LiteralForm::Simple => LiteralForm::Simple,
            LiteralForm::Lang(t) => LiteralForm::Lang(t.clone()),
            LiteralForm::Typed(d) => LiteralForm::Typed(d.clone()),
        }
    }
}

impl Term {
    /// A deep copy with the same view.
    pub fn copy(&self) -> (r: Term)
        ensures
            r@ == self@,
        decreases self,
    {
        match self {
            Term::Iri(v) => Term::Iri(v.clone()),
            Term::BlankNode(k) => Term::BlankNode(k.clone()),
            Term::Literal(lex, f) => Term::Literal(lex.clone(), f.copy()),
            Term::Triple(s, p, o) => {
                let s2 = s.copy();
                let p2 = p.copy();
                let o2 = o.copy();
                Term::Triple(Box::new(s2), Box::new(p2), Box::new(o2))
            },
        }
    }
}

pub fn copy_opt(t: &Option<Term>) -> (r: Option<Term>)
    ensures
        opt_term_view(r) == opt_term_view(*t),
{
    match t {
        Some(t) => Some(t.copy()),
        None => None,
    }
}

/// A statement of a triples stream.
#[derive(Debug)]
pub struct Triple {
    pub subject: Term,
    pub predicate: Term,
    pub object: Term,
}

/// A statement of a quads or graphs stream; `graph` is `None` for the
/// default graph.
#[derive(Debug)]
pub struct Quad {
    pub subject: Term,
    pub predicate: Term,
    pub object: Term,
    pub graph: Option<Term>,
}

/// What one row hands to the handler.
#[derive(Debug)]
pub enum Emission {
    Triple(Triple),
    Quad(Quad),
}

pub enum EmissionModel {
    Triple(TermModel, TermModel, TermModel),
    Quad(TermModel, TermModel, TermModel, Option<TermModel>),
}

pub open spec fn emission_view(e: Emission) -> EmissionModel {
    match e {
        Emission::Triple(t) => EmissionModel::Triple(t.subject@, t.predicate@, t.object@),
        Emission::Quad(q) => EmissionModel::Quad(
            q.subject@,
            q.predicate@,
            q.object@,
            opt_term_view(q.graph),
        ),
    }
}

} // verus!
