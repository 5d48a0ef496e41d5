//! A typed ActivityStreams 2.0 domain model and the conversion layer between
//! it and the loose JSON-LD wire shapes used by federated social protocols.

pub mod context;
pub mod context_json;
pub mod convert;
pub mod date;
pub mod json;
pub mod lax;
pub mod laws;
pub mod model;
pub mod value;
pub mod wire;
