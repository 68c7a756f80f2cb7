//! Turtle and TriG parsing that hands each quad to a callback as plain strings
//! and term-type codes, and a TriG serializer, built on oxttl and oxrdf.

pub mod rdf;
pub mod callhook;
pub mod terms;
pub mod ttlparser;
pub mod trigparser;
pub mod parse;
pub mod trigserializer;
