//! Scraping pages: fetching, normalizing what was found, and offering it to
//! the frontier.

pub mod error;
pub mod laws;
pub mod scrape_service;

pub use error::ScraperError;
pub use scrape_service::{CrawleyScrapeService, ScrapeService};
