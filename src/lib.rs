//! Streaming decoder for the Jelly binary RDF format: frame delimitation,
//! the rotating-cursor lookup tables, and the per-stream state machine that
//! rebuilds triples and quads from compact rows.
//!
//! Every executable function states its behaviour against an abstract model
//! (`deserialize::DecoderModel`, `lookup::LookupModel`, `term::TermModel`);
//! `laws` proves what holds of every stream.
pub mod deserialize;
pub mod error;
pub mod frame;
pub mod laws;
pub mod lookup;
pub mod proto;
pub mod sophia;
pub mod strings;
pub mod term;

pub use deserialize::Deserializer;
