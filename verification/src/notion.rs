//! The target store: its data model, the check of a database's fields and the
//! construction of the page to create.

pub mod client;
pub mod model;
pub mod new_page;
