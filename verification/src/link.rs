//! Building absolute links from the raw `href`s of a page.

pub mod error;
pub mod laws;
pub mod link_constructor;
pub mod parts;

pub use error::LinkConstructionError;
pub use link_constructor::LinkConstructor;
