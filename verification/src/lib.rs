//! A hierarchical resource-identifier library: colon- and slash-delimited
//! entity resource names with validated segments, a type-state builder that
//! admits segments only in their required order, and a parser that
//! reconstructs an identifier from its rendered text.

pub mod builder;
pub mod errors;
pub mod idgen;
pub mod model;
pub mod parser;
pub mod text;

pub use builder::{ErnBuilder, ErnComponent, PrivateErnBuilder};
pub use errors::ArnError;
pub use idgen::{IdType, Timestamp, UnixTime};
pub use model::{Account, Category, Domain, Eid, Ern, Part, Parts, Root};
pub use parser::ErnParser;
