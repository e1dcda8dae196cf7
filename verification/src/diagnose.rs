//! The single-file diagnostic mode.
//!
//! A previously saved markup file is run through the same parse path as a
//! live fetch, bypassing the network: the source URL is recovered from the
//! page's canonical-link element, the host is resolved against the
//! registry, and the extractor takes over from there. Everything decided
//! here is a function of the file's bytes alone, so running the mode twice
//! on the same file decides identically. A file without a canonical link
//! cannot name its own URL: that is fatal for this mode only.

use vstd::prelude::*;
use crate::errors::DiagError;
use crate::fetcher::{start_fetch, FetchPhase};
use crate::registry::{host_of, site_for};
use crate::retry::FetchPolicy;

verus! {

/// The `href` of the first `link[rel="canonical"]` element of a document,
/// as the markup parser reads it: a function of the markup alone; `None`
/// when the document has no such element or it carries no `href`.
pub uninterp spec fn canonical_of(markup: Seq<char>) -> Option<Seq<char>>;

/// Relies on `tl::parse` and `VDom::query_selector`: the `href` attribute
/// of the document's first canonical-link element, a pure function of the
/// markup string.
#[verifier::external_body]
fn canonical_link(markup: &str) -> (r: Option<String>)
    ensures
        match r {
            Some(u) => canonical_of(markup@) == Some(u@),
            None => canonical_of(markup@) is None,
        },
{
    let dom = tl::parse(markup, tl::ParserOptions::default()).ok()?;
    let mut nodes = dom.query_selector("link[rel=\"canonical\"]")?;
    loop {
        let handle = nodes.next()?;
        if let Some(tag) = handle.get(dom.parser()).and_then(|n| n.as_tag()) {
            return match tag.attributes().get("href") {
                Some(Some(href)) => Some(href.as_utf8_str().into_owned()),
                _ => None,
            };
        }
    }
}

/// What the diagnostic mode decided for one saved file.
#[derive(Debug)]
pub struct Diagnosis {
    /// The URL the file names as its own, from its canonical link.
    pub url: String,
    /// The fetch cycle for that URL, opened at the point a live fetch
    /// reaches after its network steps: ready for extraction dispatch, or
    /// already failed on an unknown host.
    pub start: FetchPhase,
}

/// Open the diagnostic cycle for a saved markup file.
///
/// The whole result is pinned by the file's content: the recovered URL is
/// the markup's canonical link, and the opening phase is exactly what
/// [`start_fetch`] decides for that URL — so two runs on the same content
/// decide the same. A markup without a canonical link is a fatal error for
/// this mode.
pub fn diagnose_markup(policy: &FetchPolicy, markup: &str) -> (r: Result<Diagnosis, DiagError>)
    requires
        policy.wf(),
    ensures
        match canonical_of(markup@) {
            Some(u) => r matches Ok(d) && d.url@ == u && crate::fetcher::phase_wf(*policy, d.start)
                && (match host_of(u) {
                Some(h) => match site_for(h) {
                    Some(site) => d.start == (FetchPhase::Request { site, attempt: 0 }),
                    None => d.start == (FetchPhase::Failed {
                        error: crate::errors::FetchError::UnknownHost,
                    }),
                },
                None => d.start == (FetchPhase::Failed {
                    error: crate::errors::FetchError::UnknownHost,
                }),
            }),
            None => r matches Err(e) && e == DiagError::NoCanonical,
        },
{
    match canonical_link(markup) {
        Some(url) => {
            let start = start_fetch(policy, url.as_str());
            Ok(Diagnosis { url, start })
        },
        None => Err(DiagError::NoCanonical),
    }
}

} // verus!
