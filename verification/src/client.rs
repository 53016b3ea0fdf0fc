//! The seam to the transport, and what the library makes of an answer.

pub mod crawl_client;
pub mod error;

pub use crawl_client::CrawlClient;
pub use error::CrawlClientError;
