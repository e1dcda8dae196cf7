//! Verified core of a concurrent price harvester.
//!
//! The pipeline turns a list of product-page URLs into structured price
//! records: each URL is fetched over HTTP with bounded concurrency and
//! automatic retry, the markup is handed to a site-specific extractor chosen
//! by hostname, and successful records are streamed to a sink while failed
//! bodies are preserved for offline inspection.
//!
//! This crate holds the decision logic of that pipeline — the retry/backoff
//! policy, the error taxonomy, the hostname dispatch, the per-URL fetch state
//! machine, the debug-capture path, and the pipeline configuration — with
//! contracts checked by Verus. The surrounding I/O (HTTP requests, channels,
//! worker tasks, file writes) lives outside the library and drives the state
//! machine with the outcomes it observes.

pub mod clock;
pub mod collector;
pub mod diagnose;
pub mod driver;
pub mod errors;
pub mod fetcher;
pub mod input;
pub mod record;
pub mod registry;
pub mod retry;
pub mod text;
pub mod worker;
