//! A model of the store as the pipeline touches it: the result hash, the
//! per-job lists and the set of live de-dup marks. `apply_post` is the
//! effect of the post stage executing one `PostPlan`; the laws below are
//! stated and proved over it.

use vstd::prelude::*;

use crate::encode::spec_encode_response;
use crate::ident::spec_identifier;
use crate::json::ReqModel;
use crate::stages::spec_need_request;
use crate::stages::spec_skipped_marker;
use crate::stages::spec_worker_error;
use crate::stages::spec_worker_payload;
use crate::stages::ScrapeErr;
use crate::stages::spec_scrape_err_message;
use crate::parser::ParserErr;
use crate::parser::spec_parser_err_message;

verus! {

/// The store's pipeline-visible state: result hash entries by task id,
/// job lists newest-first by job id, and the identifiers currently
/// marked as recently fetched.
pub struct StoreModel {
    pub results: Map<Seq<char>, Seq<char>>,
    pub jobs: Map<Seq<char>, Seq<Seq<char>>>,
    pub marks: Set<Seq<char>>,
}

/// The list a job key currently holds; an untouched job is empty.
pub open spec fn spec_job_list(m: StoreModel, job_id: Seq<char>) -> Seq<Seq<char>> {
    if m.jobs.contains_key(job_id) {
        m.jobs[job_id]
    } else {
        Seq::empty()
    }
}

/// The store after the post stage commits one finished item: the result
/// hash entry is written (overwriting any earlier one), the task id is
/// prepended to its job list, and the de-dup mark — when the plan names
/// one — is set.
pub open spec fn spec_apply_post(
    m: StoreModel,
    id: Seq<char>,
    job_id: Seq<char>,
    content: Seq<char>,
    mark: Option<Seq<char>>,
) -> StoreModel {
    StoreModel {
        results: m.results.insert(id, content),
        jobs: m.jobs.insert(job_id, seq![id] + spec_job_list(m, job_id)),
        marks: match mark {
            Some(mk) => m.marks.insert(mk),
            None => m.marks,
        },
    }
}

/// Whether the store currently counts a URL as recently fetched.
pub open spec fn spec_recently_got(m: StoreModel, url: Seq<char>) -> bool {
    m.marks.contains(spec_identifier(url))
}

/// A committed item never clears a de-dup mark: the set of marks only
/// grows under posts. (Expiry of a mark is the store's TTL, outside
/// this model.) So the window argument below extends over any number of
/// intervening commits.
pub proof fn lemma_marks_monotonic(
    m: StoreModel,
    id: Seq<char>,
    job_id: Seq<char>,
    content: Seq<char>,
    mark: Option<Seq<char>>,
)
    ensures
        m.marks.subset_of(spec_apply_post(m, id, job_id, content, mark).marks),
{
    match mark {
        Some(mk) => {
            assert(m.marks.subset_of(m.marks.insert(mk)));
        },
        None => {},
    }
}

/// De-duplication window. Once any fresh fetch of a URL has been
/// committed — that is, once a post carrying that URL's mark has run —
/// an unforced observation of the same URL owes no further fetch, and
/// its worker answers with the skip marker and no payload, whatever
/// other items were committed in between.
pub proof fn lemma_dedup_window(
    m: StoreModel,
    url: Seq<char>,
    id: Seq<char>,
    job_id: Seq<char>,
    content: Seq<char>,
    later_id: Seq<char>,
    later_job: Seq<char>,
    later_content: Seq<char>,
    later_mark: Option<Seq<char>>,
)
    ensures
        !spec_need_request(
            false,
            spec_recently_got(
                spec_apply_post(
                    spec_apply_post(m, id, job_id, content, Some(spec_identifier(url))),
                    later_id,
                    later_job,
                    later_content,
                    later_mark,
                ),
                url,
            ),
        ),
        spec_worker_error(false, None) == Some(spec_skipped_marker()),
        spec_worker_payload(None) is None,
{
    let marked = spec_apply_post(m, id, job_id, content, Some(spec_identifier(url)));
    assert(marked.marks.contains(spec_identifier(url)));
}

/// Round trip. A forced request whose scrape succeeds with payload `p`
/// ends with the result hash holding, under the request's id, exactly
/// the response text `{"error":null,"payload":"p","index":k}`, and with
/// the request's id at the head of its job list, and the URL's mark set.
pub proof fn lemma_round_trip(m: StoreModel, req: ReqModel, p: Seq<char>)
    ensures
        ({
            let content = spec_encode_response(None, Some(p), req.index);
            let m2 = spec_apply_post(
                m,
                req.id,
                req.job_id,
                content,
                Some(spec_identifier(req.url)),
            );
            &&& spec_need_request(true, spec_recently_got(m, req.url))
            &&& m2.results[req.id] == content
            &&& spec_job_list(m2, req.job_id)[0] == req.id
            &&& spec_job_list(m2, req.job_id).len() == spec_job_list(m, req.job_id).len() + 1
            &&& spec_recently_got(m2, req.url)
        }),
{
}

/// Idempotence. Two posts for the same task id leave the later write in
/// the result hash, while the job list keeps both entries: the list
/// grows by two and holds the id at its first two places.
pub proof fn lemma_post_idempotence(
    m: StoreModel,
    id: Seq<char>,
    job_id: Seq<char>,
    c1: Seq<char>,
    c2: Seq<char>,
    mark1: Option<Seq<char>>,
    mark2: Option<Seq<char>>,
)
    ensures
        ({
            let m2 = spec_apply_post(
                spec_apply_post(m, id, job_id, c1, mark1),
                id,
                job_id,
                c2,
                mark2,
            );
            &&& m2.results[id] == c2
            &&& spec_job_list(m2, job_id).len() == spec_job_list(m, job_id).len() + 2
            &&& spec_job_list(m2, job_id)[0] == id
            &&& spec_job_list(m2, job_id)[1] == id
        }),
{
    let m1 = spec_apply_post(m, id, job_id, c1, mark1);
    assert(spec_job_list(m1, job_id) =~= seq![id] + spec_job_list(m, job_id));
}

/// Parser error isolation. A fetched item whose parser fails with a
/// status code still earns a committed response — error text naming the
/// code, no payload, the request's index — and still refreshes the
/// de-dup mark and the job list, exactly like a success.
pub proof fn lemma_parser_error_isolation(
    m: StoreModel,
    url: Seq<char>,
    id: Seq<char>,
    job_id: Seq<char>,
    idx: int,
    code: i32,
)
    ensures
        ({
            let err = spec_scrape_err_message(ScrapeErr::Parser(ParserErr::FFICallErr(code)));
            let content = spec_encode_response(Some(err), None, idx);
            let m2 = spec_apply_post(m, id, job_id, content, Some(spec_identifier(url)));
            &&& err == spec_parser_err_message(ParserErr::FFICallErr(code))
            &&& m2.results[id] == content
            &&& spec_job_list(m2, job_id)[0] == id
            &&& spec_recently_got(m2, url)
        }),
{
}

} // verus!
