//! The textual (N-Quads style) form of materialized terms.
use vstd::prelude::*;
use vstd::string::StringExecFns;

use crate::term::{FormModel, LiteralForm, Quad, Term, TermModel, Triple};

verus! {

/// The text of a term: `<iri>`, `_:B<key>`, `"lex"`, `"lex"@tag`,
/// `"lex"^^<datatype>`, or `<< s p o >>` for a quoted triple.  The lexical
/// form is written as it is, without escapes.
pub open spec fn term_text(t: TermModel) -> Seq<char>
    decreases t,
{
    match t {
        TermModel::Iri(v) => "<"@ + v + ">"@,
        TermModel::BlankNode(k) => "_:B"@ + k,
        TermModel::Literal(lex, FormModel::Simple) => "\""@ + lex + "\""@,
        TermModel::Literal(lex, FormModel::Lang(tag)) => "\""@ + lex + "\"@"@ + tag,
        TermModel::Literal(lex, FormModel::Typed(dt)) => "\""@ + lex + "\"^^<"@ + dt + ">"@,
        TermModel::Triple(s, p, o) => "<< "@ + term_text(*s) + " "@ + term_text(*p) + " "@
            + term_text(*o) + " >>"@,
    }
}

/// The string host model: every term becomes its text.
pub struct StringRdf;

impl StringRdf {
    pub fn term(t: &Term) -> (r: String)
        ensures
            r@ == term_text(t@),
        decreases t,
    {
        match t {
            Term::Iri(v) => {
                let mut r = String::from_str("<");
                r.append(v.as_str());
                r.append(">");
                r
            },
            Term::BlankNode(k) => {
                let mut r = String::from_str("_:B");
                r.append(k.as_str());
                r
            },
            Term::Literal(lex, form) => {
                let mut r = String::from_str("\"");
                r.append(lex.as_str());
                match form {
                    LiteralForm::Simple => {
                        r.append("\"");
                    },
                    LiteralForm::Lang(tag) => {
                        r.append("\"@");
                        r.append(tag.as_str());
                    },
                    LiteralForm::Typed(dt) => {
                        r.append("\"^^<");
                        r.append(dt.as_str());
                        r.append(">");
                    },
                }
                r
            },
            Term::Triple(s, p, o) => {
                let ts = StringRdf::term(s);
                let tp = StringRdf::term(p);
                let to = StringRdf::term(o);
                let mut r = String::from_str("<< ");
                r.append(ts.as_str());
                r.append(" ");
                r.append(tp.as_str());
                r.append(" ");
                r.append(to.as_str());
                r.append(" >>");
                r
            },
        }
    }

    pub fn triple(t: &Triple) -> (r: (String, String, String))
        ensures
            r.0@ == term_text(t.subject@),
            r.1@ == term_text(t.predicate@),
            r.2@ == term_text(t.object@),
    {
        (StringRdf::term(&t.subject), StringRdf::term(&t.predicate), StringRdf::term(&t.object))
    }

    pub fn quad(q: &Quad) -> (r: (String, String, String, Option<String>))
        ensures
            r.0@ == term_text(q.subject@),
            r.1@ == term_text(q.predicate@),
            r.2@ == term_text(q.object@),
            match q.graph {
                Some(g) => r.3 matches Some(x) && x@ == term_text(g@),
                None => r.3 is None,
            },
    {
        let g = match &q.graph {
            Some(g) => Some(StringRdf::term(g)),
            None => None,
        };
        (StringRdf::term(&q.subject), StringRdf::term(&q.predicate), StringRdf::term(&q.object), g)
    }
}

} // verus!
