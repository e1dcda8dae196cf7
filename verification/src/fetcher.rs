//! The per-URL fetch state machine.
//!
//! One URL's fetch-and-parse cycle is a sequence of decisions between pieces
//! of outside work (an HTTP request, a sleep, reading a body, running a site
//! extractor, writing a debug file). The machine below makes every decision
//! in verified code: the caller performs the work a phase calls for and
//! hands the observed outcome back to the matching step function, which
//! returns the next phase.
//!
//! The cycle, in phases:
//! `Request -> (Backoff -> Request)* -> ReadBody -> Extract -> Done`,
//! with `Capture` interposed before `Failed` on an extraction mismatch, and
//! `Failed` reachable from every decision point. `Failed` and `Done` are
//! terminal: no step function accepts them, so a URL is decided exactly
//! once.

use vstd::prelude::*;
use vstd::string::*;
use crate::errors::FetchError;
use crate::record::{ExtractedData, PricePoint};
use crate::registry::{host_of, resolve_extractor, site_for, Site};
use crate::retry::{backoff_ms, FetchPolicy};

verus! {

/// Where one URL stands in its fetch-and-parse cycle, and what outside work
/// is due next.
#[derive(Debug)]
pub enum FetchPhase {
    /// Issue HTTP GET attempt number `attempt` (counted from zero).
    Request { site: Site, attempt: u64 },
    /// Wait `delay_ms` (after jitter is applied to it), then make attempt
    /// number `next_attempt`.
    Backoff { site: Site, next_attempt: u64, delay_ms: u64 },
    /// A 2xx response arrived: read its full body as text.
    ReadBody { site: Site },
    /// Tokenize `body` and run the site extractor on it.
    Extract { site: Site, body: String },
    /// The extractor could not match the page: write `body` to one debug
    /// file under a fresh random name, then report the failure.
    Capture { body: String },
    /// The URL is decided: no record will come of it.
    Failed { error: FetchError },
    /// The URL is decided: `point` goes to the output channel.
    Done { point: PricePoint },
}

/// Every phase the machine can be in respects the retry budget: a request
/// is only ever due while its attempt index is below the ceiling, and a
/// backoff delay is exactly the policy's delay for the attempt it precedes.
pub open spec fn phase_wf(policy: FetchPolicy, p: FetchPhase) -> bool {
    match p {
        FetchPhase::Request { attempt, .. } => attempt < policy.max_attempts,
        FetchPhase::Backoff { next_attempt, delay_ms, .. } => 1 <= next_attempt
            < policy.max_attempts && delay_ms == backoff_ms(
            policy.base_delay_ms,
            (next_attempt - 1) as nat,
        ),
        _ => true,
    }
}

/// What one HTTP GET attempt came back with.
#[derive(Debug, Clone, Copy, PartialEq, Eq, Structural)]
pub enum RequestOutcome {
    /// A response arrived, with this status code.
    Status(u16),
    /// The attempt failed at the transport level (connection error,
    /// timeout) and produced no response.
    TransportFailure,
}

/// What reading the response body came back with.
#[derive(Debug)]
pub enum BodyOutcome {
    /// The full body, as text.
    Body(String),
    /// Reading the body failed at the transport level.
    TransportFailure,
}

/// What tokenizing the body and running the site extractor came back with.
#[derive(Debug)]
pub enum ExtractOutcome {
    /// The extractor matched the page and produced its fields.
    Extracted(ExtractedData),
    /// The body could not be tokenized at all.
    Untokenizable,
    /// The document parsed, but a mandatory field could not be located.
    StructureMismatch,
}

/// Open the cycle for one URL: resolve its host against the registry.
///
/// An unregistered or missing host decides the URL on the spot — the
/// machine never reaches a `Request` phase for it, so no network request is
/// ever issued for such a URL.
pub fn start_fetch(policy: &FetchPolicy, url: &str) -> (p: FetchPhase)
    requires
        policy.wf(),
    ensures
        phase_wf(*policy, p),
        match host_of(url@) {
            Some(h) => match site_for(h) {
                Some(site) => p == (FetchPhase::Request { site, attempt: 0 }),
                None => p == (FetchPhase::Failed { error: FetchError::UnknownHost }),
            },
            None => p == (FetchPhase::Failed { error: FetchError::UnknownHost }),
        },
{
    match resolve_extractor(url) {
        Ok(site) => FetchPhase::Request { site, attempt: 0 },
        Err(error) => FetchPhase::Failed { error },
    }
}

/// Decide on the outcome of one HTTP GET attempt.
///
/// A response ends the retrying whatever its status: a 2xx goes on to the
/// body, any other status is terminal with exactly that code and no further
/// attempt. Only a transport failure may retry, and only while attempts
/// remain; the delay before the next attempt is the policy's backoff for
/// it. An exhausted budget surfaces the transport failure.
pub fn on_request_result(
    policy: &FetchPolicy,
    site: Site,
    attempt: u64,
    outcome: RequestOutcome,
) -> (p: FetchPhase)
    requires
        attempt < policy.max_attempts,
    ensures
        phase_wf(*policy, p),
        match outcome {
            RequestOutcome::Status(code) => if 200 <= code < 300 {
                p == (FetchPhase::ReadBody { site })
            } else {
                p == (FetchPhase::Failed { error: FetchError::HttpStatus(code) })
            },
            RequestOutcome::TransportFailure => if attempt + 1 < policy.max_attempts {
                p == (FetchPhase::Backoff {
                    site,
                    next_attempt: (attempt + 1) as u64,
                    delay_ms: backoff_ms(policy.base_delay_ms, attempt as nat),
                })
            } else {
                p == (FetchPhase::Failed { error: FetchError::Http })
            },
        },
{
    match outcome {
        RequestOutcome::Status(code) => {
            if 200 <= code && code < 300 {
                FetchPhase::ReadBody { site }
            } else {
                FetchPhase::Failed { error: FetchError::HttpStatus(code) }
            }
        },
        RequestOutcome::TransportFailure => {
            let next_attempt = attempt + 1;
            if policy.may_retry(true, next_attempt) {
                let delay_ms = policy.delay_before_ms(next_attempt);
                FetchPhase::Backoff { site, next_attempt, delay_ms }
            } else {
                FetchPhase::Failed { error: FetchError::Http }
            }
        },
    }
}

/// The backoff delay has elapsed: the next attempt is due.
pub fn on_backoff_elapsed(policy: &FetchPolicy, site: Site, next_attempt: u64) -> (p: FetchPhase)
    requires
        1 <= next_attempt < policy.max_attempts,
    ensures
        phase_wf(*policy, p),
        p == (FetchPhase::Request { site, attempt: next_attempt }),
{
    FetchPhase::Request { site, attempt: next_attempt }
}

/// Decide on the outcome of reading the response body.
///
/// A transport failure here is terminal — the retry policy wraps only the
/// request itself, not the body read.
pub fn on_body_result(policy: &FetchPolicy, site: Site, outcome: BodyOutcome) -> (p: FetchPhase)
    ensures
        phase_wf(*policy, p),
        match outcome {
            BodyOutcome::Body(b) => p == (FetchPhase::Extract { site, body: b }),
            BodyOutcome::TransportFailure => p == (FetchPhase::Failed { error: FetchError::Http }),
        },
{
    match outcome {
        BodyOutcome::Body(body) => FetchPhase::Extract { site, body },
        BodyOutcome::TransportFailure => FetchPhase::Failed { error: FetchError::Http },
    }
}

/// Decide on the outcome of tokenizing and extracting.
///
/// On success the machine seals the record itself: the source URL is the
/// URL this cycle was opened for, and the timestamp is the capture time the
/// caller observed; every other field comes from the extractor. Markup that
/// would not tokenize is terminal with no capture. An extraction mismatch
/// moves to `Capture` with the body intact, byte for byte — exactly one
/// debug write follows per mismatch.
pub fn on_extract_result(
    policy: &FetchPolicy,
    url: &str,
    fetched_at: u64,
    body: String,
    outcome: ExtractOutcome,
) -> (p: FetchPhase)
    ensures
        phase_wf(*policy, p),
        match outcome {
            ExtractOutcome::Extracted(d) => p matches FetchPhase::Done { point }
                && point.source_url@ == url@
                && point.fetched_at == fetched_at
                && point.product_id == d.product_id
                && point.extractor_version == d.extractor_version
                && point.price_minor_units == d.price_minor_units
                && point.in_stock == d.in_stock
                && point.name == d.name
                && point.image_url == d.image_url,
            ExtractOutcome::Untokenizable => p == (FetchPhase::Failed { error: FetchError::Tl }),
            ExtractOutcome::StructureMismatch => p == (FetchPhase::Capture { body }),
        },
{
    match outcome {
        ExtractOutcome::Extracted(d) => FetchPhase::Done {
            point: PricePoint {
                product_id: d.product_id,
                fetched_at,
                price_minor_units: d.price_minor_units,
                in_stock: d.in_stock,
                source_url: url.to_owned(),
                extractor_version: d.extractor_version,
                name: d.name,
                image_url: d.image_url,
            },
        },
        ExtractOutcome::Untokenizable => FetchPhase::Failed { error: FetchError::Tl },
        ExtractOutcome::StructureMismatch => FetchPhase::Capture { body },
    }
}

/// Decide after the debug write.
///
/// The write's own failure is swallowed: whether or not the body could be
/// saved, the primary failure — the extraction mismatch — is what the URL
/// is decided with, and no second capture is attempted.
pub fn on_capture_done(policy: &FetchPolicy, write_succeeded: bool) -> (p: FetchPhase)
    ensures
        phase_wf(*policy, p),
        p == (FetchPhase::Failed { error: FetchError::Parse }),
{
    let _ = write_succeeded;
    FetchPhase::Failed { error: FetchError::Parse }
}

/// Relies on `nanoid::format` with the crate's URL-safe default alphabet
/// and default length: a fresh random 21-character identifier. The value is
/// random, so only its length is stated; its randomness is what makes
/// concurrent captures collision-resistant.
#[verifier::external_body]
fn fresh_capture_id() -> (r: String)
    ensures
        r@.len() == 21,
{
    nanoid::format(nanoid::rngs::default, &nanoid::alphabet::SAFE, 21)
}

/// The relative path a captured body is written to: the debug directory, a
/// fresh random identifier, and an extension marking it as markup. Each
/// call names exactly one file.
pub fn capture_path() -> (r: String)
    ensures
        r@.len() == 32,
        exists|id: Seq<char>| id.len() == 21 && r@ == "debug/"@ + id + ".html"@,
{
    proof {
        reveal_strlit("debug/");
        reveal_strlit(".html");
    }
    let id = fresh_capture_id();
    let mut path = String::new();
    path.append("debug/");
    path.append(id.as_str());
    path.append(".html");
    proof {
        assert(path@ =~= "debug/"@ + id@ + ".html"@);
    }
    path
}

/// The retry ceiling, as a law of the machine: every request the machine
/// can ever call for carries an attempt index below the policy's ceiling,
/// so one URL makes at most `max_attempts` attempts. Together with
/// [`crate::retry::lemma_backoff_monotone`], which orders the delays those
/// attempts wait, this bounds the whole retry schedule.
pub proof fn lemma_attempts_bounded(policy: FetchPolicy, p: FetchPhase)
    requires
        phase_wf(policy, p),
    ensures
        p matches FetchPhase::Request { attempt, .. } ==> attempt < policy.max_attempts,
        p matches FetchPhase::Backoff { next_attempt, .. } ==> next_attempt < policy.max_attempts,
{
}

} // verus!
