use scrape_pipeline::builders::EngineBuilder;
use scrape_pipeline::builders::RedisWindowBuilder;
use scrape_pipeline::encode::encode_response;
use scrape_pipeline::ident::create_identifier;
use scrape_pipeline::json::decode_request;
use scrape_pipeline::parser::ParserErr;
use scrape_pipeline::parser::contains_nul;
use scrape_pipeline::parser::ffi_parse_outcome;
use scrape_pipeline::parser::max_idx_outcome;
use scrape_pipeline::pipeline_model::PathState;
use scrape_pipeline::request::BasicRedisReq;
use scrape_pipeline::request::ProcessItem;
use scrape_pipeline::request::RedisRequest;
use scrape_pipeline::retry::bounded_retry_plan;
use scrape_pipeline::retry::retry_forever_plan;
use scrape_pipeline::stages::FetchAction;
use scrape_pipeline::stages::FetchEvent;
use scrape_pipeline::stages::ScrapeErr;
use scrape_pipeline::stages::fetcher_decision;
use scrape_pipeline::stages::make_process_item;
use scrape_pipeline::stages::post_plan;
use scrape_pipeline::stages::prior_prepare;
use scrape_pipeline::stages::worker_result;
use scrape_pipeline::temp_backoff_next;

use sha2::Digest;
use std::collections::HashMap;
use std::collections::HashSet;

/// A toy store for driving the stage functions end to end in a test:
/// the result hash, the job lists (newest first) and the de-dup marks.
struct TestStore {
    results: HashMap<String, String>,
    jobs: HashMap<String, Vec<String>>,
    marks: HashSet<String>,
}

impl TestStore {
    fn new() -> Self {
        TestStore { results: HashMap::new(), jobs: HashMap::new(), marks: HashSet::new() }
    }

    /// One item through prior, scrape and post, with the given scrape
    /// outcome when a fetch is owed. Returns whether an HTTP fetch was
    /// issued.
    fn run_item(&mut self, raw: &str, outcome: Option<Result<String, ScrapeErr>>) -> bool {
        let (req, ident) = match prior_prepare(raw) {
            Some(v) => v,
            None => return false,
        };
        let recently = self.marks.contains(&ident);
        let item = make_process_item(&req, recently);
        let fetched = item.need_request;
        let used = if item.need_request { outcome } else { None };
        let result = worker_result(item, used);
        let plan = post_plan(&result);
        self.results.insert(plan.hash_field, plan.hash_value);
        self.jobs.entry(plan.job_key).or_default().insert(0, plan.job_value);
        if let Some(mark) = plan.refresh_mark {
            self.marks.insert(mark);
        }
        fetched
    }
}

#[test]
fn happy_path_scenario() {
    let mut store = TestStore::new();
    let fetched = store.run_item(
        "{\"url\":\"http://h/a\",\"id\":\"t1\",\"job_id\":\"j1\",\"index\":0,\"force\":true}",
        Some(Ok(String::from("{\"x\":1}"))),
    );
    assert!(fetched);
    assert_eq!(
        store.results["t1"],
        "{\"error\":null,\"payload\":\"{\\\"x\\\":1}\",\"index\":0}"
    );
    assert_eq!(store.jobs["j1"], vec!["t1".to_string()]);
    assert!(store.marks.contains(&create_identifier(&String::from("http://h/a"))));
}

#[test]
fn dedup_hit_scenario() {
    let mut store = TestStore::new();
    store.run_item(
        "{\"url\":\"http://h/a\",\"id\":\"t1\",\"job_id\":\"j1\",\"index\":0,\"force\":true}",
        Some(Ok(String::from("{\"x\":1}"))),
    );
    let fetched = store.run_item(
        "{\"url\":\"http://h/a\",\"id\":\"t2\",\"job_id\":\"j1\",\"index\":1,\"force\":false}",
        None,
    );
    assert!(!fetched);
    let second: serde_json::Value = serde_json::from_str(&store.results["t2"]).unwrap();
    assert!(second["error"].as_str().unwrap().contains("recent"));
    assert!(second["payload"].is_null());
    assert_eq!(second["index"].as_i64().unwrap(), 1);
    assert_eq!(store.jobs["j1"], vec!["t2".to_string(), "t1".to_string()]);
}

#[test]
fn forced_override_scenario() {
    let mut store = TestStore::new();
    store.run_item(
        "{\"url\":\"http://h/a\",\"id\":\"t1\",\"job_id\":\"j1\",\"index\":0,\"force\":true}",
        Some(Ok(String::from("p"))),
    );
    let fetched = store.run_item(
        "{\"url\":\"http://h/a\",\"id\":\"t3\",\"job_id\":\"j1\",\"index\":2,\"force\":true}",
        Some(Ok(String::from("q"))),
    );
    assert!(fetched);
    assert!(store.marks.contains(&create_identifier(&String::from("http://h/a"))));
}

#[test]
fn http_over_retry_scenario() {
    let transcript = vec![false, false, false];
    let (attempts, got) = bounded_retry_plan(&transcript, 3);
    assert_eq!(attempts, 3);
    assert!(!got);
    let mut store = TestStore::new();
    store.run_item(
        "{\"url\":\"http://h/b\",\"id\":\"t4\",\"job_id\":\"j1\",\"index\":5,\"force\":true}",
        Some(Err(ScrapeErr::OverRetry)),
    );
    assert_eq!(
        store.results["t4"],
        "{\"error\":\"OverRetry\",\"payload\":null,\"index\":5}"
    );
    assert!(store.marks.contains(&create_identifier(&String::from("http://h/b"))));
}

#[test]
fn malformed_request_scenario() {
    let mut store = TestStore::new();
    let fetched = store.run_item("not-json", None);
    assert!(!fetched);
    assert!(store.results.is_empty());
    assert!(store.jobs.is_empty());
    assert!(store.marks.is_empty());
}

#[test]
fn parser_error_isolation_scenario() {
    let mut store = TestStore::new();
    store.run_item(
        "{\"url\":\"http://h/c\",\"id\":\"t5\",\"job_id\":\"j2\",\"index\":7,\"force\":true}",
        Some(Err(ScrapeErr::Parser(ParserErr::FFICallErr(-3)))),
    );
    let entry: serde_json::Value = serde_json::from_str(&store.results["t5"]).unwrap();
    assert!(entry["error"].as_str().unwrap().contains("-3"));
    assert!(entry["payload"].is_null());
    assert_eq!(entry["index"].as_i64().unwrap(), 7);
    assert_eq!(store.jobs["j2"], vec!["t5".to_string()]);
    assert!(store.marks.contains(&create_identifier(&String::from("http://h/c"))));
}

#[test]
fn idempotence_last_write_wins() {
    let mut store = TestStore::new();
    store.run_item(
        "{\"url\":\"http://h/d\",\"id\":\"t6\",\"job_id\":\"j3\",\"index\":0,\"force\":true}",
        Some(Ok(String::from("first"))),
    );
    store.run_item(
        "{\"url\":\"http://h/d\",\"id\":\"t6\",\"job_id\":\"j3\",\"index\":0,\"force\":true}",
        Some(Ok(String::from("second"))),
    );
    let entry: serde_json::Value = serde_json::from_str(&store.results["t6"]).unwrap();
    assert_eq!(entry["payload"].as_str().unwrap(), "second");
    assert_eq!(store.jobs["j3"], vec!["t6".to_string(), "t6".to_string()]);
}

#[test]
fn cancellation_restores_permits() {
    let mut path = PathState::new(4, 4, 10);
    // Enqueue and start ten slow workers.
    for _ in 0..4 {
        path.fetch_deliver();
    }
    for _ in 0..4 {
        path.prior_forward();
    }
    for _ in 0..4 {
        path.dispatch_worker();
    }
    for _ in 0..3 {
        path.fetch_deliver();
        path.prior_forward();
        path.dispatch_worker();
    }
    for _ in 0..3 {
        path.fetch_deliver();
        path.prior_forward();
        path.dispatch_worker();
    }
    assert_eq!(path.workers, 10);
    assert_eq!(path.permits_free, 0);
    path.stop();
    assert!(path.cancelled);
    assert_eq!(path.workers, 0);
    assert_eq!(path.permits_free, 10);
}

#[test]
fn backpressure_saturates_and_fetcher_stops() {
    let mut path = PathState::new(2, 2, 1);
    // Fill the path with the post stage never taking an item.
    path.fetch_deliver();
    path.prior_forward();
    path.dispatch_worker();
    path.worker_send();
    path.worker_finish();
    path.fetch_deliver();
    path.prior_forward();
    path.dispatch_worker();
    path.worker_send();
    // The second worker cannot send: the result channel is full. Fill
    // the rest of the path behind it.
    path.fetch_deliver();
    path.prior_forward();
    path.fetch_deliver();
    path.prior_forward();
    path.fetch_deliver();
    path.fetch_deliver();
    assert_eq!(path.raw_len, 2);
    assert_eq!(path.proc_len, 2);
    assert_eq!(path.result_len, 2);
    assert_eq!(path.permits_free, 0);
    // Saturated: 2 + 2 + 1 + 2 items are in flight and the fetcher's
    // guard is closed until the post stage drains.
    assert_eq!(path.raw_len + path.proc_len + path.workers + path.result_len, 7);
    // Once the post stage takes an item, the stalled worker can send,
    // finish, and return its permit; the path moves again.
    path.post_take();
    path.worker_send();
    path.worker_finish();
    assert_eq!(path.permits_free, 1);
}

#[test]
fn prior_drops_leave_channels_consistent() {
    let mut path = PathState::new(1, 1, 1);
    path.fetch_deliver();
    path.prior_drop();
    assert_eq!(path.raw_len, 0);
    assert_eq!(path.proc_len, 0);
}

#[test]
fn retry_plans() {
    assert_eq!(bounded_retry_plan(&vec![false, true, false], 3), (2, true));
    assert_eq!(bounded_retry_plan(&vec![true, true], 2), (1, true));
    assert_eq!(bounded_retry_plan(&vec![false, false, true], 2), (2, false));
    assert_eq!(bounded_retry_plan(&vec![], 0), (0, false));
    assert_eq!(retry_forever_plan(&vec![false, false, false, true]), 3);
    assert_eq!(retry_forever_plan(&vec![true]), 0);
}

#[test]
fn backoff_grows_half_again() {
    assert_eq!(temp_backoff_next(1000), 1500);
    assert_eq!(temp_backoff_next(1500), 2250);
    assert_eq!(temp_backoff_next(0), 0);
    assert_eq!(temp_backoff_next(1), 1);
}

#[test]
fn identifier_matches_reference_hash() {
    let ident = create_identifier(&String::from("abc"));
    assert_eq!(ident, "ba7816bf8f01cfea414140de5dae2223b00361a396177a9cb410ff61f20015ad");
    let url = String::from("http://h/a");
    let reference = hex::encode(sha2::Sha256::digest(url.as_bytes()));
    assert_eq!(create_identifier(&url), reference);
    assert_eq!(create_identifier(&url), create_identifier(&url));
    assert_ne!(create_identifier(&String::from("http://h/b")), reference);
}

#[test]
fn parser_outcomes() {
    assert_eq!(ffi_parse_outcome(0, Some(String::from("out"))).unwrap(), "out");
    assert!(matches!(
        ffi_parse_outcome(2, Some(String::from("out"))),
        Err(ParserErr::FFICallErr(2))
    ));
    assert!(matches!(ffi_parse_outcome(0, None), Err(ParserErr::NonNulIsNoneErr)));
    assert_eq!(max_idx_outcome(0, 42).unwrap(), "42");
    assert_eq!(max_idx_outcome(0, -1).unwrap(), "-1");
    assert!(matches!(max_idx_outcome(7, 42), Err(ParserErr::FFICallErr(7))));
    assert!(contains_nul("a\0b"));
    assert!(!contains_nul("ab"));
    let msg = ParserErr::FFICallErr(-3).message();
    assert_eq!(msg, "FFICallErr(-3)");
    assert_eq!(ParserErr::FFICallErr(2147483647).message(), "FFICallErr(2147483647)");
    assert_eq!(ParserErr::NulErr.message(), "NulErr: nul byte in input");
    assert_eq!(ParserErr::NonNulIsNoneErr.message(), "NonNulIsNoneErr");
    assert_eq!(ScrapeErr::OverRetry.message(), "OverRetry");
    assert_eq!(ScrapeErr::Http(String::from("connect refused")).message(), "connect refused");
}

#[test]
fn fetcher_decisions() {
    assert!(matches!(
        fetcher_decision(FetchEvent::Popped(String::from("p"))),
        FetchAction::Forward(s) if s == "p"
    ));
    assert!(matches!(fetcher_decision(FetchEvent::StoreFailed), FetchAction::Reacquire));
    assert!(matches!(fetcher_decision(FetchEvent::Cancelled), FetchAction::Stop));
}

#[test]
fn process_item_decision() {
    let req = BasicRedisReq::new(
        String::from("u"),
        String::from("i"),
        String::from("j"),
        3,
        Some(false),
    );
    let fresh: ProcessItem = make_process_item(&req, false);
    assert!(fresh.need_request);
    let seen = make_process_item(&req, true);
    assert!(!seen.need_request);
    let forced = BasicRedisReq::new(
        String::from("u"),
        String::from("i"),
        String::from("j"),
        3,
        Some(true),
    );
    assert!(make_process_item(&forced, true).need_request);
    assert_eq!(fresh.idx, 3);
    assert_eq!(fresh.url, "u");
}

#[test]
fn builders_accumulate_settings() {
    let e = EngineBuilder::new()
        .semaphore_size(9)
        .redis_url(String::from("redis://localhost"))
        .max_size(5)
        .channel_buf(16);
    assert_eq!(e.semaphore_size, 9);
    assert_eq!(e.redis_url, "redis://localhost");
    assert_eq!(e.max_size, 5);
    assert_eq!(e.channel_buf, 16);
    let w = RedisWindowBuilder::new().max_size(3).redis_url(String::from("r")).channel_buf(8);
    assert_eq!(w.max_size, 3);
    assert_eq!(w.redis_url, "r");
    assert_eq!(w.channel_buf, 8);
}

#[test]
fn decode_then_getters_roundtrip() {
    let raw = "{\"url\":\"http://h/a\",\"id\":\"t1\",\"job_id\":\"j1\",\"index\":0,\"force\":true}";
    let req = decode_request(raw).unwrap();
    let resp = scrape_pipeline::request::RedisResponse {
        error: None,
        payload: Some(String::from("p")),
        index: req.index(),
    };
    assert_eq!(encode_response(&resp), "{\"error\":null,\"payload\":\"p\",\"index\":0}");
}
