//! What sophia's term model accepts of a materialized term.  Building the
//! sophia terms themselves happens outside the library.
use vstd::prelude::*;

use crate::deserialize::{emissions_view, lemma_run_prefix, step, DecoderModel, Deserializer};
use crate::error::DeserializeError;
use crate::proto::{RdfStreamFrame, Row};
use crate::term::{emission_view, Emission, EmissionModel, FormModel, LiteralForm, Term, TermModel};

verus! {

/// Whether sophia accepts `s` as an IRI reference (RFC 3987).
pub uninterp spec fn valid_iri_ref(s: Seq<char>) -> bool;

/// Whether sophia accepts `s` as a language tag (BCP 47 syntax).
pub uninterp spec fn valid_language_tag(s: Seq<char>) -> bool;

/// Relies on `sophia_iri::IriRef::new`, which accepts its argument exactly
/// when it matches the IRI-reference grammar; the answer depends on the
/// text alone.
#[verifier::external_body]
fn is_iri_ref(s: &str) -> (r: bool)
    ensures
        r == valid_iri_ref(s@),
{
    sophia_iri::IriRef::new(s).is_ok()
}

/// Relies on `sophia_api::term::LanguageTag::new`, which accepts its
/// argument exactly when it matches the BCP 47 tag grammar; the answer
/// depends on the text alone.
#[verifier::external_body]
fn is_language_tag(s: &str) -> (r: bool)
    ensures
        r == valid_language_tag(s@),
{
    sophia_api::term::LanguageTag::new(s).is_ok()
}

/// Text of a term that sophia refuses.
#[derive(Debug, Clone)]
pub enum SophiaError {
    /// A datatype that is not an IRI reference.
    InvalidIri(String),
    /// A language tag that is not a BCP 47 tag.
    InvalidLanguageTag(String),
}

pub enum IssueModel {
    InvalidIri(Seq<char>),
    InvalidLanguageTag(Seq<char>),
}

/// The first text of `t` that sophia refuses, searching quoted triples
/// subject first, then predicate, then object.  IRIs of IRI terms are taken
/// as they are; datatype IRIs and language tags are checked.
pub open spec fn first_issue(t: TermModel) -> Option<IssueModel>
    decreases t,
{
    match t {
        TermModel::Literal(_, FormModel::Lang(tag)) => if valid_language_tag(tag) {
            None
        } else {
            Some(IssueModel::InvalidLanguageTag(tag))
        },
        TermModel::Literal(_, FormModel::Typed(dt)) => if valid_iri_ref(dt) {
            None
        } else {
            Some(IssueModel::InvalidIri(dt))
        },
        TermModel::Triple(s, p, o) => match first_issue(*s) {
            Some(i) => Some(i),
            None => match first_issue(*p) {
                Some(i) => Some(i),
                None => first_issue(*o),
            },
        },
        _ => None,
    }
}

pub open spec fn issue_view(e: SophiaError) -> IssueModel {
    match e {
        SophiaError::InvalidIri(s) => IssueModel::InvalidIri(s@),
        SophiaError::InvalidLanguageTag(s) => IssueModel::InvalidLanguageTag(s@),
    }
}

/// The first refused text among three terms, in order.
pub open spec fn first_issue3(a: TermModel, b: TermModel, c: TermModel) -> Option<IssueModel> {
    match first_issue(a) {
        Some(i) => Some(i),
        None => match first_issue(b) {
            Some(i) => Some(i),
            None => first_issue(c),
        },
    }
}

/// The first refused text of a statement: subject, predicate, object, graph.
pub open spec fn emission_issue(e: EmissionModel) -> Option<IssueModel> {
    match e {
        EmissionModel::Triple(a, b, c) => first_issue3(a, b, c),
        EmissionModel::Quad(a, b, c, g) => match first_issue3(a, b, c) {
            Some(i) => Some(i),
            None => match g {
                Some(g) => first_issue(g),
                None => None,
            },
        },
    }
}

/// Why a frame could not be decoded into sophia terms.
#[derive(Debug, Clone)]
pub enum SophiaFrameError {
    Decode(DeserializeError),
    Term(SophiaError),
}

pub enum FrameIssue {
    Decode(DeserializeError),
    Term(IssueModel),
}

pub open spec fn frame_issue_view(r: Result<(), SophiaFrameError>) -> Result<(), FrameIssue> {
    match r {
        Ok(_) => Ok(()),
        Err(SophiaFrameError::Decode(e)) => Err(FrameIssue::Decode(e)),
        Err(SophiaFrameError::Term(e)) => Err(FrameIssue::Term(issue_view(e))),
    }
}

/// The rows decoded for sophia: as `run`, except that a statement with a
/// refused text ends the frame there (the row's own effect on the decoder
/// stays) and is not delivered.
pub open spec fn run_sophia(s: DecoderModel, rows: Seq<Row>) -> (
    DecoderModel,
    Seq<EmissionModel>,
    Result<(), FrameIssue>,
)
    decreases rows.len(),
{
    if rows.len() == 0 {
        (s, Seq::empty(), Ok(()))
    } else {
        let (s1, es, r) = run_sophia(s, rows.drop_last());
        match r {
            Err(e) => (s1, es, Err(e)),
            Ok(_) => {
                let (s2, r2) = step(s1, rows.last());
                match r2 {
                    Err(e) => (s2, es, Err(FrameIssue::Decode(e))),
                    Ok(None) => (s2, es, Ok(())),
                    Ok(Some(em)) => match emission_issue(em) {
                        Some(i) => (s2, es, Err(FrameIssue::Term(i))),
                        None => (s2, es.push(em), Ok(())),
                    },
                }
            },
        }
    }
}

proof fn lemma_run_sophia_stops(s: DecoderModel, rows: Seq<Row>, k: int)
    requires
        0 <= k <= rows.len(),
        run_sophia(s, rows.take(k)).2 is Err,
    ensures
        run_sophia(s, rows) == run_sophia(s, rows.take(k)),
    decreases rows.len() - k,
{
    if k < rows.len() {
        lemma_run_prefix(s, rows, k);
        lemma_run_sophia_stops(s, rows, k + 1);
    } else {
        assert(rows.take(k) =~= rows);
    }
}

/// The sophia host model (shared-ownership terms, interned blank nodes).
pub struct SophiaRdf;

impl SophiaRdf {
    /// Checks `t` against what sophia's term model accepts.
    pub fn check_term(t: &Term) -> (r: Result<(), SophiaError>)
        ensures
            match first_issue(t@) {
                None => r is Ok,
                Some(i) => r matches Err(e) && issue_view(e) == i,
            },
        decreases t,
    {
        match t {
            Term::Literal(_, LiteralForm::Lang(tag)) => {
                if is_language_tag(tag.as_str()) {
                    Ok(())
                } else {
                    Err(SophiaError::InvalidLanguageTag(tag.clone()))
                }
            },
            Term::Literal(_, LiteralForm::Typed(dt)) => {
                if is_iri_ref(dt.as_str()) {
                    Ok(())
                } else {
                    Err(SophiaError::InvalidIri(dt.clone()))
                }
            },
            Term::Triple(s, p, o) => {
                SophiaRdf::check_term(s)?;
                SophiaRdf::check_term(p)?;
                SophiaRdf::check_term(o)
            },
            _ => Ok(()),
        }
    }
}

impl SophiaRdf {
    /// Checks every term of a statement, subject first and graph last.
    pub fn check_emission(e: &Emission) -> (r: Result<(), SophiaError>)
        ensures
            match emission_issue(emission_view(*e)) {
                None => r is Ok,
                Some(i) => r matches Err(x) && issue_view(x) == i,
            },
    {
        match e {
            Emission::Triple(t) => {
                SophiaRdf::check_term(&t.subject)?;
                SophiaRdf::check_term(&t.predicate)?;
                SophiaRdf::check_term(&t.object)
            },
            Emission::Quad(q) => {
                SophiaRdf::check_term(&q.subject)?;
                SophiaRdf::check_term(&q.predicate)?;
                SophiaRdf::check_term(&q.object)?;
                match &q.graph {
                    Some(g) => SophiaRdf::check_term(g),
                    None => Ok(()),
                }
            },
        }
    }

    /// Decodes a frame for sophia (see `run_sophia`), appending the
    /// statements to `out`.
    pub fn decode_frame(
        d: &mut Deserializer,
        frame: &RdfStreamFrame,
        out: &mut Vec<Emission>,
    ) -> (r: Result<(), SophiaFrameError>)
        requires
            old(d).wf(),
        ensures
            final(d).wf(),
            final(d)@ == run_sophia(old(d)@, frame.rows@).0,
            emissions_view(final(out)@) == emissions_view(old(out)@) + run_sophia(
                old(d)@,
                frame.rows@,
            ).1,
            frame_issue_view(r) == run_sophia(old(d)@, frame.rows@).2,
    {
        let ghost s0 = d@;
        let ghost out0 = emissions_view(out@);
        let n = frame.rows.len();
        let mut i: usize = 0;
        while i < n
            invariant
                n == frame.rows@.len(),
                i <= n,
                d.wf(),
                s0 == old(d)@,
                out0 == emissions_view(old(out)@),
                run_sophia(s0, frame.rows@.take(i as int)).0 == d@,
                emissions_view(out@) == out0 + run_sophia(s0, frame.rows@.take(i as int)).1,
                run_sophia(s0, frame.rows@.take(i as int)).2 == Ok::<(), FrameIssue>(()),
            decreases n - i,
        {
            proof {
                lemma_run_prefix(s0, frame.rows@, i as int);
            }
            let ghost before = out@;
            match d.handle_row(&frame.rows[i]) {
                Err(e) => {
                    proof {
                        lemma_run_sophia_stops(s0, frame.rows@, i as int + 1);
                    }
                    return Err(SophiaFrameError::Decode(e));
                },
                Ok(Some(em)) => {
                    match SophiaRdf::check_emission(&em) {
                        Err(e) => {
                            proof {
                                lemma_run_sophia_stops(s0, frame.rows@, i as int + 1);
                            }
                            return Err(SophiaFrameError::Term(e));
                        },
                        Ok(()) => {},
                    }
                    out.push(em);
                    proof {
                        assert(emissions_view(out@) =~= emissions_view(before).push(
                            emission_view(em),
                        ));
                    }
                },
                Ok(None) => {},
            }
            i += 1;
        }
        assert(frame.rows@.take(n as int) =~= frame.rows@);
        Ok(())
    }
}

} // verus!
