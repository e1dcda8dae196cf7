//! The extractor registry: an exact hostname decides which site extractor a
//! page is handed to.
//!
//! The registry is the sole extension point for new sites: adding one means
//! adding a variant here and a branch in [`site_for`], nothing in the fetch
//! machine or the worker logic changes. An unregistered host is a hard,
//! non-retryable failure; the pipeline never falls back to a generic parse.

use vstd::prelude::*;
use crate::errors::FetchError;
use crate::text::str_eq;

verus! {

/// The sites the registry knows, one extractor each.
#[derive(Debug, Clone, Copy, PartialEq, Eq, Structural)]
pub enum Site {
    /// `www.carrefour.com.ar`
    Carrefour,
    /// `diaonline.supermercadosdia.com.ar`
    Dia,
    /// `www.cotodigital3.com.ar`
    Coto,
}

/// The registry as a mapping: which extractor, if any, serves an exact
/// hostname.
pub open spec fn site_for(host: Seq<char>) -> Option<Site> {
    if host == "www.carrefour.com.ar"@ {
        Some(Site::Carrefour)
    } else if host == "diaonline.supermercadosdia.com.ar"@ {
        Some(Site::Dia)
    } else if host == "www.cotodigital3.com.ar"@ {
        Some(Site::Coto)
    } else {
        None
    }
}

/// Look a hostname up in the registry.
pub fn resolve_site(host: &str) -> (r: Option<Site>)
    ensures
        r == site_for(host@),
{
    if str_eq(host, "www.carrefour.com.ar") {
        Some(Site::Carrefour)
    } else if str_eq(host, "diaonline.supermercadosdia.com.ar") {
        Some(Site::Dia)
    } else if str_eq(host, "www.cotodigital3.com.ar") {
        Some(Site::Coto)
    } else {
        None
    }
}

/// The host component of an absolute URL, as the URL parser reads it: a
/// function of the URL string alone; `None` when the string is not a
/// well-formed absolute URL or has no host.
pub uninterp spec fn host_of(url: Seq<char>) -> Option<Seq<char>>;

/// Relies on `reqwest::Url::parse` (the `url` crate's parser) and
/// `Url::host_str`: the host component of an absolute URL, a pure function
/// of the URL string.
#[verifier::external_body]
fn url_host(url: &str) -> (r: Option<String>)
    ensures
        match r {
            Some(h) => host_of(url@) == Some(h@),
            None => host_of(url@) is None,
        },
{
    match reqwest::Url::parse(url) {
        Ok(u) => match u.host_str() {
            Some(h) => Some(h.to_owned()),
            None => None,
        },
        Err(_) => None,
    }
}

/// Pick the extractor for a URL, by its host.
///
/// Returns `Err(UnknownHost)` exactly when the URL has no well-formed host
/// or its host is not in the registry; in that case nothing will be fetched
/// for this URL.
pub fn resolve_extractor(url: &str) -> (r: Result<Site, FetchError>)
    ensures
        match host_of(url@) {
            Some(h) => match site_for(h) {
                Some(site) => r == Ok::<Site, FetchError>(site),
                None => r == Err::<Site, FetchError>(FetchError::UnknownHost),
            },
            None => r == Err::<Site, FetchError>(FetchError::UnknownHost),
        },
{
    match url_host(url) {
        Some(h) => match resolve_site(h.as_str()) {
            Some(site) => Ok(site),
            None => Err(FetchError::UnknownHost),
        },
        None => Err(FetchError::UnknownHost),
    }
}

} // verus!
