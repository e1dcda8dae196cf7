//! Error taxonomy of the pipeline.
//!
//! Per-URL failures are contained in the worker that met them and never abort
//! the run; configuration and diagnostic-mode failures are fatal.

use vstd::prelude::*;

verus! {

/// Classification of a failed attempt to turn one URL into a price record.
///
/// Every variant is terminal for its URL. Only transport-level failures are
/// retried, and that happens before a `Http` value is surfaced: `Http` means
/// the retry budget was already exhausted.
#[derive(Debug, Clone, Copy, PartialEq, Eq, Structural)]
pub enum FetchError {
    /// Transport-level failure (connection error, timeout), surfaced after
    /// the retry budget was exhausted.
    Http,
    /// The server answered with a non-2xx status; carries the status code.
    /// Not retried: status validation happens after a response is obtained.
    HttpStatus(u16),
    /// The fetched markup could not be tokenized at all.
    Tl,
    /// The markup parsed, but the site extractor could not locate a
    /// mandatory field. Triggers capture of the raw body for inspection.
    Parse,
    /// No extractor is registered for the URL's host, or the URL has no
    /// well-formed host at all. Nothing is fetched for such a URL.
    UnknownHost,
}

/// A fatal configuration failure: it aborts the whole run, unlike the
/// per-URL failures of [`FetchError`].
#[derive(Debug, Clone, Copy, PartialEq, Eq, Structural)]
pub enum ConfigError {
    /// The concurrency override is present but is not a decimal number that
    /// fits the machine's word size.
    InvalidConcurrency,
}

/// A fatal failure of the single-file diagnostic mode.
#[derive(Debug, Clone, Copy, PartialEq, Eq, Structural)]
pub enum DiagError {
    /// The saved markup holds no canonical-link element to recover the
    /// source URL from.
    NoCanonical,
}

impl FetchError {
    /// A short label for log lines; the status code is reported separately
    /// by the caller.
    pub fn label(&self) -> (r: &'static str)
        ensures
            r@ == match self {
                FetchError::Http => "http"@,
                FetchError::HttpStatus(_) => "http status"@,
                FetchError::Tl => "tl"@,
                FetchError::Parse => "parse"@,
                FetchError::UnknownHost => "unknown host"@,
            },
    {
        match self {
            FetchError::Http => "http",
            FetchError::HttpStatus(_) => "http status",
            FetchError::Tl => "tl",
            FetchError::Parse => "parse",
            FetchError::UnknownHost => "unknown host",
        }
    }
}

} // verus!
