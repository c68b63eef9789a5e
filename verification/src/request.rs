//! The data model of the pipeline: the request read from the queue, the
//! response written to the result hash, and the items passed between
//! stages.

use vstd::prelude::*;

verus! {

/// What a queue payload must decode to: one scraping task. The spec
/// functions give the value of each accessor, so stage contracts can speak
/// about any request type.
pub trait RedisRequest {
    spec fn spec_url(&self) -> Seq<char>;

    spec fn spec_id(&self) -> Seq<char>;

    spec fn spec_job_id(&self) -> Seq<char>;

    spec fn spec_index(&self) -> i32;

    spec fn spec_forced(&self) -> bool;

    fn get_url(&self) -> (r: String)
        ensures
            r@ == self.spec_url(),
    ;

    fn get_id(&self) -> (r: String)
        ensures
            r@ == self.spec_id(),
    ;

    fn get_job_id(&self) -> (r: String)
        ensures
            r@ == self.spec_job_id(),
    ;

    fn index(&self) -> (r: i32)
        ensures
            r == self.spec_index(),
    ;

    fn is_forced(&self) -> (r: bool)
        ensures
            r == self.spec_forced(),
    ;
}

/// The queue payload shape: `url`, `id` and `job_id` are required, `index`
/// is a signed position within the job, and `force` is optional (absent
/// means not forced).
pub struct BasicRedisReq {
    url: String,
    id: String,
    job_id: String,
    index: i32,
    force: Option<bool>,
}

impl BasicRedisReq {
    pub fn new(url: String, id: String, job_id: String, index: i32, force: Option<bool>) -> (r:
        Self)
        ensures
            r.spec_url() == url@,
            r.spec_id() == id@,
            r.spec_job_id() == job_id@,
            r.spec_index() == index,
            r.spec_force_field() == force,
    {
        BasicRedisReq { url, id, job_id, index, force }
    }

    /// The raw optional `force` field, before it is collapsed to a bool.
    pub closed spec fn spec_force_field(&self) -> Option<bool> {
        self.force
    }
}

impl RedisRequest for BasicRedisReq {
    closed spec fn spec_url(&self) -> Seq<char> {
        self.url@
    }

    closed spec fn spec_id(&self) -> Seq<char> {
        self.id@
    }

    closed spec fn spec_job_id(&self) -> Seq<char> {
        self.job_id@
    }

    closed spec fn spec_index(&self) -> i32 {
        self.index
    }

    closed spec fn spec_forced(&self) -> bool {
        self.force == Some(true)
    }

    fn get_url(&self) -> (r: String) {
        self.url.clone()
    }

    fn get_id(&self) -> (r: String) {
        self.id.clone()
    }

    fn get_job_id(&self) -> (r: String) {
        self.job_id.clone()
    }

    fn index(&self) -> (r: i32) {
        self.index
    }

    fn is_forced(&self) -> (r: bool) {
        match self.force {
            Some(b) => b,
            None => false,
        }
    }
}

/// What is written into the result hash, serialized as JSON. Exactly one
/// of `error` and `payload` is set; `index` echoes the request.
pub struct RedisResponse {
    pub error: Option<String>,
    pub payload: Option<String>,
    pub index: i32,
}

/// A well-formed response carries either an error or a payload, never both
/// and never neither.
pub open spec fn response_wf(r: &RedisResponse) -> bool {
    r.error.is_some() <==> r.payload.is_none()
}

/// One decoded request on its way from the prior stage to a scrape worker.
/// `need_request` records whether a fresh HTTP fetch is owed.
pub struct ProcessItem {
    pub id: String,
    pub job_id: String,
    pub url: String,
    pub idx: i32,
    pub need_request: bool,
}

/// One finished scrape on its way to the post stage. `status_update_url`
/// is the fetched URL when a fresh fetch happened (so the de-dup mark must
/// be refreshed) and `None` when the item was skipped by de-dup.
pub struct ScrapeResultItem {
    pub id: String,
    pub job_id: String,
    pub status_update_url: Option<String>,
    pub send_content: String,
}

} // verus!
