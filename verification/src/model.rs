//! The value types of the identifier scheme: one module per segment kind,
//! and the identifier aggregates themselves.

mod account;
mod category;
mod domain;
mod ern;
mod part;
mod parts;
mod root;

pub use account::Account;
pub use category::Category;
pub use domain::Domain;
pub use ern::Eid;
pub use ern::Ern;
pub use part::Part;
pub use parts::parts_view;
pub use parts::Parts;
pub use root::Root;
