//! A same-domain web crawler's core: the frontier of pending and visited
//! URLs with its admission policies, the link normalizer, the per-page
//! scraper and the driver's decisions.

pub mod client;
pub mod crawly;
pub mod link;
pub mod queue;
pub mod result_publisher;
pub mod service;
pub mod text;
