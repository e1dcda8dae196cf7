//! The per-URL fetch state machine, driven through whole scenarios.

use scraper_rs::collector::Collector;
use scraper_rs::errors::FetchError;
use scraper_rs::fetcher::{
    on_backoff_elapsed, on_body_result, on_capture_done, on_extract_result, on_request_result,
    start_fetch, BodyOutcome, ExtractOutcome, FetchPhase, RequestOutcome,
};
use scraper_rs::record::ExtractedData;
use scraper_rs::registry::Site;
use scraper_rs::retry::FetchPolicy;
use scraper_rs::worker::{route_outcome, WorkerAction};

fn sample_data(ean: &str) -> ExtractedData {
    ExtractedData {
        product_id: String::from(ean),
        extractor_version: 5,
        price_minor_units: Some(109900),
        in_stock: Some(true),
        name: Some(String::from("Yerba")),
        image_url: None,
    }
}

#[test]
fn three_extractable_pages_reach_the_sink() {
    let policy = FetchPolicy::default_policy();
    let urls = [
        "https://www.carrefour.com.ar/p/1",
        "https://www.carrefour.com.ar/p/2",
        "https://diaonline.supermercadosdia.com.ar/p/3",
    ];
    let mut collector = Collector::new();
    for url in urls {
        let phase = start_fetch(&policy, url);
        let site = match phase {
            FetchPhase::Request { site, attempt } => {
                assert_eq!(attempt, 0);
                site
            },
            _ => panic!("a registered host must open with a request"),
        };
        let phase = on_request_result(&policy, site, 0, RequestOutcome::Status(200));
        assert!(matches!(phase, FetchPhase::ReadBody { .. }));
        let body = String::from("<html><body>precio</body></html>");
        let phase = on_body_result(&policy, site, BodyOutcome::Body(body));
        let body = match phase {
            FetchPhase::Extract { body, .. } => body,
            _ => panic!("a body must go to extraction"),
        };
        let outcome = ExtractOutcome::Extracted(sample_data("7790001001234"));
        let phase = on_extract_result(&policy, url, 1_700_000_000, body, outcome);
        let point = match phase {
            FetchPhase::Done { point } => point,
            _ => panic!("an extracted page must yield a record"),
        };
        assert_eq!(point.source_url.as_str(), url);
        assert_eq!(point.fetched_at, 1_700_000_000);
        assert_eq!(point.product_id.as_str(), "7790001001234");
        match route_outcome(Ok(point)) {
            WorkerAction::Forward(p) => collector.accept(p),
            WorkerAction::LogFailure(_) => panic!("a record must be forwarded"),
        }
    }
    assert_eq!(collector.count(), 3);
    for (i, url) in urls.iter().enumerate() {
        assert_eq!(collector.records[i].source_url.as_str(), *url);
    }
}

#[test]
fn a_404_is_terminal_with_no_retry_and_no_capture() {
    let policy = FetchPolicy::default_policy();
    let phase = start_fetch(&policy, "https://www.cotodigital3.com.ar/p/9");
    let site = match phase {
        FetchPhase::Request { site, .. } => site,
        _ => panic!("a registered host must open with a request"),
    };
    assert_eq!(site, Site::Coto);
    let phase = on_request_result(&policy, site, 0, RequestOutcome::Status(404));
    match phase {
        FetchPhase::Failed { error } => assert_eq!(error, FetchError::HttpStatus(404)),
        _ => panic!("a non-2xx status must be terminal"),
    }
    let mut collector = Collector::new();
    match route_outcome(Err(FetchError::HttpStatus(404))) {
        WorkerAction::Forward(p) => collector.accept(p),
        WorkerAction::LogFailure(error) => assert_eq!(error, FetchError::HttpStatus(404)),
    }
    assert_eq!(collector.count(), 0);
}

#[test]
fn an_unregistered_host_never_issues_a_request() {
    let policy = FetchPolicy::default_policy();
    let phase = start_fetch(&policy, "https://example.com/item/1");
    match phase {
        FetchPhase::Failed { error } => assert_eq!(error, FetchError::UnknownHost),
        _ => panic!("an unregistered host must fail on the spot"),
    }
}

#[test]
fn a_url_without_a_host_is_an_unknown_host() {
    let policy = FetchPolicy::default_policy();
    let phase = start_fetch(&policy, "not a url at all");
    assert!(matches!(phase, FetchPhase::Failed { error: FetchError::UnknownHost }));
}

#[test]
fn an_extraction_mismatch_captures_the_body_byte_for_byte() {
    let policy = FetchPolicy::default_policy();
    let url = "https://www.carrefour.com.ar/p/1";
    let phase = start_fetch(&policy, url);
    let site = match phase {
        FetchPhase::Request { site, .. } => site,
        _ => panic!("a registered host must open with a request"),
    };
    let phase = on_request_result(&policy, site, 0, RequestOutcome::Status(200));
    assert!(matches!(phase, FetchPhase::ReadBody { .. }));
    let fetched = String::from("<html><body>no price here</body></html>");
    let phase = on_body_result(&policy, site, BodyOutcome::Body(fetched.clone()));
    let body = match phase {
        FetchPhase::Extract { body, .. } => body,
        _ => panic!("a body must go to extraction"),
    };
    let mut captures: u32 = 0;
    let phase = on_extract_result(&policy, url, 1_700_000_000, body, ExtractOutcome::StructureMismatch);
    let phase = match phase {
        FetchPhase::Capture { body } => {
            captures += 1;
            assert_eq!(body, fetched);
            on_capture_done(&policy, true)
        },
        _ => panic!("a mismatch must capture the body"),
    };
    assert!(matches!(phase, FetchPhase::Failed { error: FetchError::Parse }));
    assert_eq!(captures, 1);
}

#[test]
fn a_failed_capture_write_still_reports_the_mismatch() {
    let policy = FetchPolicy::default_policy();
    let phase = on_capture_done(&policy, false);
    assert!(matches!(phase, FetchPhase::Failed { error: FetchError::Parse }));
}

#[test]
fn untokenizable_markup_is_terminal_without_capture() {
    let policy = FetchPolicy::default_policy();
    let url = "https://www.carrefour.com.ar/p/1";
    let body = String::from("\u{0}\u{0}");
    let phase = on_extract_result(&policy, url, 1, body, ExtractOutcome::Untokenizable);
    assert!(matches!(phase, FetchPhase::Failed { error: FetchError::Tl }));
}

#[test]
fn transport_failures_retry_up_to_the_ceiling_with_growing_delays() {
    let policy = FetchPolicy { max_attempts: 3, base_delay_ms: 300, jitter: false };
    let mut phase = start_fetch(&policy, "https://www.carrefour.com.ar/p/1");
    let mut requests = 0u64;
    let mut delays: Vec<u64> = Vec::new();
    let error = loop {
        match phase {
            FetchPhase::Request { site, attempt } => {
                requests += 1;
                phase = on_request_result(&policy, site, attempt, RequestOutcome::TransportFailure);
            },
            FetchPhase::Backoff { site, next_attempt, delay_ms } => {
                delays.push(delay_ms);
                phase = on_backoff_elapsed(&policy, site, next_attempt);
            },
            FetchPhase::Failed { error } => break error,
            _ => panic!("a transport failure can only retry or fail"),
        }
    };
    assert_eq!(error, FetchError::Http);
    assert_eq!(requests, 3);
    assert_eq!(delays, vec![300, 600]);
}

#[test]
fn the_record_carries_the_observed_capture_time() {
    let policy = FetchPolicy::default_policy();
    let url = "https://www.carrefour.com.ar/p/1";
    let before = scraper_rs::clock::now_sec();
    let stamp = scraper_rs::clock::now_sec();
    let body = String::from("<html></html>");
    let outcome = ExtractOutcome::Extracted(sample_data("7790001001234"));
    let phase = on_extract_result(&policy, url, stamp, body, outcome);
    let after = scraper_rs::clock::now_sec();
    match phase {
        FetchPhase::Done { point } => {
            assert_eq!(point.fetched_at, stamp);
            assert!(before <= point.fetched_at);
            assert!(point.fetched_at <= after);
        },
        _ => panic!("an extracted page must yield a record"),
    }
}

#[test]
fn a_body_read_failure_is_terminal() {
    let policy = FetchPolicy::default_policy();
    let phase = on_body_result(&policy, Site::Dia, BodyOutcome::TransportFailure);
    assert!(matches!(phase, FetchPhase::Failed { error: FetchError::Http }));
}
