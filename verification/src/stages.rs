//! The decisions of the four pipeline stages. Each stage's loop lives
//! with the I/O it drives; what the loop decides — what to forward, what
//! to drop, which response an item earns, which store writes a finished
//! item owes — is fixed and proved here, over plain values.

use vstd::prelude::*;

use crate::encode::encode_response;
use crate::encode::opt_view;
use crate::encode::spec_encode_response;
use crate::ident::create_identifier;
use crate::ident::spec_identifier;
use crate::json::req_model;
use crate::json::spec_parse_request;
use crate::json::decode_request;
use crate::parser::ParserErr;
use crate::parser::spec_parser_err_message;
use crate::request::BasicRedisReq;
use crate::request::ProcessItem;
use crate::request::RedisRequest;
use crate::request::RedisResponse;
use crate::request::ScrapeResultItem;
use crate::request::response_wf;

verus! {

/// Why a scrape produced no payload: the parser failed on the fetched
/// body; the body could not be read off the transport; or every HTTP
/// attempt failed and the retry budget ran out.
#[derive(Debug)]
pub enum ScrapeErr {
    Parser(ParserErr),
    Http(String),
    OverRetry,
}

/// The text a scrape failure puts into the response's `error` field.
pub open spec fn spec_scrape_err_message(e: ScrapeErr) -> Seq<char> {
    match e {
        ScrapeErr::Parser(p) => spec_parser_err_message(p),
        ScrapeErr::Http(m) => m@,
        ScrapeErr::OverRetry => "OverRetry"@,
    }
}

impl ScrapeErr {
    pub fn message(&self) -> (r: String)
        ensures
            r@ == spec_scrape_err_message(*self),
    {
        match self {
            ScrapeErr::Parser(p) => p.message(),
            ScrapeErr::Http(m) => m.clone(),
            ScrapeErr::OverRetry => {
                let mut out = String::new();
                out.append("OverRetry");
                proof {
                    assert(out@ =~= "OverRetry"@);
                }
                out
            },
        }
    }
}

/// Whether an item owes a fresh HTTP fetch: always when forced, and
/// otherwise only when its URL was not recently fetched.
pub open spec fn spec_need_request(forced: bool, recently_got: bool) -> bool {
    forced || !recently_got
}

pub fn need_request(forced: bool, recently_got: bool) -> (r: bool)
    ensures
        r == spec_need_request(forced, recently_got),
{
    forced || !recently_got
}

/// The marker a de-dup-skipped item answers with.
pub open spec fn spec_skipped_marker() -> Seq<char> {
    "skipped: recent"@
}

/// The response of a skipped item: an error marker, no payload, the
/// request's index.
pub fn skipped_response(idx: i32) -> (r: RedisResponse)
    ensures
        opt_view(r.error) == Some(spec_skipped_marker()),
        r.payload is None,
        r.index == idx,
        response_wf(&r),
{
    let mut marker = String::new();
    marker.append("skipped: recent");
    proof {
        assert(marker@ =~= "skipped: recent"@);
    }
    RedisResponse { error: Some(marker), payload: None, index: idx }
}

/// The response of a fetched item: the parsed payload on success, the
/// failure's text otherwise; the index echoes the request either way.
pub fn response_of_outcome(outcome: Result<String, ScrapeErr>, idx: i32) -> (r: RedisResponse)
    ensures
        match outcome {
            Ok(p) => opt_view(r.payload) == Some(p@) && r.error is None,
            Err(e) => opt_view(r.error) == Some(spec_scrape_err_message(e)) && r.payload is None,
        },
        r.index == idx,
        response_wf(&r),
{
    match outcome {
        Ok(p) => RedisResponse { error: None, payload: Some(p), index: idx },
        Err(e) => {
            let msg = e.message();
            RedisResponse { error: Some(msg), payload: None, index: idx }
        },
    }
}

/// What the prior stage derives from one raw queue payload before it
/// consults the store: the decoded request and the de-dup key to look
/// up. A payload outside the request grammar is dropped here.
pub fn prior_prepare(raw: &str) -> (r: Option<(BasicRedisReq, String)>)
    ensures
        match r {
            Some(v) => {
                &&& spec_parse_request(raw@) == Some(req_model(v.0))
                &&& v.1@ == spec_identifier(v.0.spec_url())
            },
            None => spec_parse_request(raw@) is None,
        },
{
    match decode_request(raw) {
        None => None,
        Some(req) => {
            let url = req.get_url();
            let ident = create_identifier(&url);
            Some((req, ident))
        },
    }
}

/// The item the prior stage forwards once the store has answered the
/// de-dup lookup: the request's fields plus the fetch decision.
pub fn make_process_item(req: &BasicRedisReq, recently_got: bool) -> (item: ProcessItem)
    ensures
        item.id@ == req.spec_id(),
        item.job_id@ == req.spec_job_id(),
        item.url@ == req.spec_url(),
        item.idx == req.spec_index(),
        item.need_request == spec_need_request(req.spec_forced(), recently_got),
{
    ProcessItem {
        id: req.get_id(),
        job_id: req.get_job_id(),
        url: req.get_url(),
        idx: req.index(),
        need_request: need_request(req.is_forced(), recently_got),
    }
}

/// What one scrape worker sends onward for its item. A skipped item
/// (`outcome` absent) earns the skip marker and no de-dup refresh; a
/// fetched item carries its fetch outcome and names its URL so the post
/// stage refreshes the mark. The serialized response is fixed exactly.
pub fn worker_result(item: ProcessItem, outcome: Option<Result<String, ScrapeErr>>) -> (r:
    ScrapeResultItem)
    requires
        item.need_request <==> outcome is Some,
    ensures
        r.id@ == item.id@,
        r.job_id@ == item.job_id@,
        item.need_request ==> (r.status_update_url matches Some(u) && u@ == item.url@),
        !item.need_request ==> r.status_update_url is None,
        r.send_content@ == spec_encode_response(
            spec_worker_error(item.need_request, outcome),
            spec_worker_payload(outcome),
            item.idx as int,
        ),
{
    let resp = match outcome {
        None => skipped_response(item.idx),
        Some(oc) => response_of_outcome(oc, item.idx),
    };
    let send_content = encode_response(&resp);
    ScrapeResultItem {
        id: item.id,
        job_id: item.job_id,
        status_update_url: if item.need_request {
            Some(item.url)
        } else {
            None
        },
        send_content,
    }
}

/// The `error` field a worker's response carries.
pub open spec fn spec_worker_error(
    need_request: bool,
    outcome: Option<Result<String, ScrapeErr>>,
) -> Option<Seq<char>> {
    if !need_request {
        Some(spec_skipped_marker())
    } else {
        match outcome {
            Some(Ok(_)) => None,
            Some(Err(e)) => Some(spec_scrape_err_message(e)),
            None => None,
        }
    }
}

/// The `payload` field a worker's response carries.
pub open spec fn spec_worker_payload(outcome: Option<Result<String, ScrapeErr>>) -> Option<
    Seq<char>,
> {
    match outcome {
        Some(Ok(p)) => Some(p@),
        _ => None,
    }
}


/// A worker's response always carries exactly one of `error` and
/// `payload`: a skipped item and a failed fetch carry an error and no
/// payload, a successful fetch a payload and no error.
pub proof fn lemma_worker_response_exclusive(
    need_request: bool,
    outcome: Option<Result<String, ScrapeErr>>,
)
    requires
        need_request <==> outcome is Some,
    ensures
        spec_worker_error(need_request, outcome) is Some <==> spec_worker_payload(outcome) is None,
{
}

/// The store writes one finished item owes: the result hash entry, the
/// job list entry, and — after a fresh fetch only — the de-dup mark to
/// refresh.
pub struct PostPlan {
    pub hash_field: String,
    pub hash_value: String,
    pub job_key: String,
    pub job_value: String,
    pub refresh_mark: Option<String>,
}

pub fn post_plan(item: &ScrapeResultItem) -> (p: PostPlan)
    ensures
        p.hash_field@ == item.id@,
        p.hash_value@ == item.send_content@,
        p.job_key@ == item.job_id@,
        p.job_value@ == item.id@,
        match item.status_update_url {
            Some(ref u) => (p.refresh_mark matches Some(m) && m@ == spec_identifier(u@)),
            None => p.refresh_mark is None,
        },
{
    let refresh_mark = match &item.status_update_url {
        Some(u) => Some(create_identifier(u)),
        None => None,
    };
    PostPlan {
        hash_field: item.id.clone(),
        hash_value: item.send_content.clone(),
        job_key: item.job_id.clone(),
        job_value: item.id.clone(),
        refresh_mark,
    }
}


/// What the fetcher's select loop observed in one round.
pub enum FetchEvent {
    /// `BLPOP` handed back a payload.
    Popped(String),
    /// The pop failed: connection loss, protocol error, or timeout.
    StoreFailed,
    /// The path's token fired.
    Cancelled,
}

/// What the fetcher does next.
pub enum FetchAction {
    /// Send the payload down the raw channel, in arrival order.
    Forward(String),
    /// Replace the connection (retry-forever) and keep looping.
    Reacquire,
    /// Leave the loop, dropping the connection and closing the channel.
    Stop,
}

/// The fetcher's decision for one observed event.
pub fn fetcher_decision(e: FetchEvent) -> (a: FetchAction)
    ensures
        match e {
            FetchEvent::Popped(p) => (a matches FetchAction::Forward(q) && q@ == p@),
            FetchEvent::StoreFailed => a is Reacquire,
            FetchEvent::Cancelled => a is Stop,
        },
{
    match e {
        FetchEvent::Popped(p) => FetchAction::Forward(p),
        FetchEvent::StoreFailed => FetchAction::Reacquire,
        FetchEvent::Cancelled => FetchAction::Stop,
    }
}

} // verus!
