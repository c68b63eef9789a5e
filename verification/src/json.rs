//! Decoding a queue payload into a `BasicRedisReq`. The payload grammar
//! is a JSON object holding exactly the request's fields — `url`, `id`
//! and `job_id` as strings, `index` as an integer, `force` optionally as
//! a boolean or `null` — in any order, each at most once, with JSON
//! whitespace and the short string escapes. Anything else is a decode
//! error and the item is dropped. The spec functions define the grammar;
//! `decode_request` is proved to parse exactly that grammar.

use vstd::prelude::*;

use crate::request::BasicRedisReq;
use crate::request::RedisRequest;
use crate::strutil::push_char;

verus! {

/// JSON insignificant whitespace.
pub open spec fn is_json_ws(c: char) -> bool {
    c == ' ' || c == '\t' || c == '\n' || c == '\r'
}

/// The first position at or after `i` holding no whitespace.
pub open spec fn spec_skip_ws(s: Seq<char>, i: int) -> int
    decreases s.len() - i,
{
    if 0 <= i < s.len() && is_json_ws(s[i]) {
        spec_skip_ws(s, i + 1)
    } else {
        i
    }
}

fn ws_at(s: &str, j: usize) -> (r: bool)
    requires
        j < s@.len(),
    ensures
        r == is_json_ws(s@[j as int]),
{
    let c = s.get_char(j);
    c == ' ' || c == '\t' || c == '\n' || c == '\r'
}

fn skip_ws(s: &str, i: usize, n: usize) -> (r: usize)
    requires
        n == s@.len(),
        i <= n,
    ensures
        r == spec_skip_ws(s@, i as int),
        i <= r <= n,
{
    let mut j = i;
    while j < n && ws_at(s, j)
        invariant
            n == s@.len(),
            i <= j <= n,
            spec_skip_ws(s@, i as int) == spec_skip_ws(s@, j as int),
        decreases n - j,
    {
        j = j + 1;
    }
    j
}

/// What a backslash escape stands for; `None` for an unsupported escape.
pub open spec fn spec_escape_code(c: char) -> Option<char> {
    if c == '"' {
        Some('"')
    } else if c == '\\' {
        Some('\\')
    } else if c == '/' {
        Some('/')
    } else if c == 'n' {
        Some('\n')
    } else if c == 't' {
        Some('\t')
    } else if c == 'r' {
        Some('\r')
    } else if c == 'b' {
        Some('\u{8}')
    } else if c == 'f' {
        Some('\u{c}')
    } else {
        None
    }
}

fn escape_code(c: char) -> (r: Option<char>)
    ensures
        r == spec_escape_code(c),
{
    if c == '"' {
        Some('"')
    } else if c == '\\' {
        Some('\\')
    } else if c == '/' {
        Some('/')
    } else if c == 'n' {
        Some('\n')
    } else if c == 't' {
        Some('\t')
    } else if c == 'r' {
        Some('\r')
    } else if c == 'b' {
        Some('\u{8}')
    } else if c == 'f' {
        Some('\u{c}')
    } else {
        None
    }
}

/// The characters of a string literal read from position `i` (just after
/// the opening quote) up to its closing quote, unescaped, together with
/// the position after the closing quote.
pub open spec fn spec_parse_string_body(s: Seq<char>, i: int) -> Option<(Seq<char>, int)>
    decreases s.len() - i,
{
    if i < 0 || i >= s.len() {
        None
    } else if s[i] == '"' {
        Some((Seq::empty(), i + 1))
    } else if s[i] == '\\' {
        if i + 1 >= s.len() {
            None
        } else {
            match spec_escape_code(s[i + 1]) {
                None => None,
                Some(c) => match spec_parse_string_body(s, i + 2) {
                    None => None,
                    Some((rest, j)) => Some((seq![c] + rest, j)),
                },
            }
        }
    } else if (s[i] as u32) < 32 {
        None
    } else {
        match spec_parse_string_body(s, i + 1) {
            None => None,
            Some((rest, j)) => Some((seq![s[i]] + rest, j)),
        }
    }
}

/// A quoted string literal starting at `i`.
pub open spec fn spec_parse_string(s: Seq<char>, i: int) -> Option<(Seq<char>, int)> {
    if 0 <= i < s.len() && s[i] == '"' {
        spec_parse_string_body(s, i + 1)
    } else {
        None
    }
}

/// Joins an already-read prefix with the rest of a string-body parse.
spec fn with_prefix(pre: Seq<char>, r: Option<(Seq<char>, int)>) -> Option<(Seq<char>, int)> {
    match r {
        None => None,
        Some((rest, j)) => Some((pre + rest, j)),
    }
}

fn parse_string(s: &str, i: usize, n: usize) -> (r: Option<(String, usize)>)
    requires
        n == s@.len(),
        i <= n,
    ensures
        match r {
            Some(v) => spec_parse_string(s@, i as int) == Some((v.0@, v.1 as int)) && i < v.1 <= n,
            None => spec_parse_string(s@, i as int) is None,
        },
{
    if i >= n || s.get_char(i) != '"' {
        return None;
    }
    let mut acc = String::new();
    let mut j = i + 1;
    loop
        invariant
            n == s@.len(),
            i + 1 <= j <= n,
            spec_parse_string(s@, i as int) == spec_parse_string_body(s@, i + 1),
            spec_parse_string_body(s@, i + 1) == with_prefix(acc@, spec_parse_string_body(s@, j as int)),
        decreases n - j,
    {
        let ghost old_acc = acc@;
        if j >= n {
            return None;
        }
        let c = s.get_char(j);
        if c == '"' {
            proof {
                assert(old_acc + Seq::<char>::empty() =~= old_acc);
            }
            return Some((acc, j + 1));
        } else if c == '\\' {
            if j + 1 >= n {
                return None;
            }
            let e = s.get_char(j + 1);
            match escape_code(e) {
                None => {
                    return None;
                },
                Some(d) => {
                    push_char(&mut acc, d);
                    j = j + 2;
                    proof {
                        let tail = spec_parse_string_body(s@, j as int);
                        match tail {
                            Some((rest, k)) => {
                                assert(old_acc + (seq![d] + rest) =~= acc@ + rest);
                            },
                            None => {},
                        }
                    }
                },
            }
        } else {
            let u = c as u32;
            if u < 32 {
                return None;
            }
            push_char(&mut acc, c);
            j = j + 1;
            proof {
                let tail = spec_parse_string_body(s@, j as int);
                match tail {
                    Some((rest, k)) => {
                        assert(old_acc + (seq![c] + rest) =~= acc@ + rest);
                    },
                    None => {},
                }
            }
        }
    }
}

/// Is `c` a decimal digit?
pub open spec fn is_json_digit(c: char) -> bool {
    48 <= (c as u32) <= 57
}

/// The numeric value of a digit character.
pub open spec fn spec_digit_val(c: char) -> int {
    (c as u32) as int - 48
}

/// The first position at or after `i` holding no digit.
pub open spec fn spec_digit_run_end(s: Seq<char>, i: int) -> int
    decreases s.len() - i,
{
    if 0 <= i < s.len() && is_json_digit(s[i]) {
        spec_digit_run_end(s, i + 1)
    } else {
        i
    }
}

/// The value of the digits `s[i..j]`, most significant first.
pub open spec fn spec_digits_val(s: Seq<char>, i: int, j: int) -> int
    decreases j - i,
{
    if i >= j {
        0
    } else {
        spec_digits_val(s, i, j - 1) * 10 + spec_digit_val(s[j - 1])
    }
}

/// An integer literal at `i`: an optional minus sign and a digit run
/// without a redundant leading zero (a minus followed by a zero digit is
/// rejected too: a negative zero is no integer index). Yields the value
/// and the position after the run.
pub open spec fn spec_parse_int(s: Seq<char>, i: int) -> Option<(int, int)> {
    let neg = 0 <= i < s.len() && s[i] == '-';
    let start = if neg {
        i + 1
    } else {
        i
    };
    let end = spec_digit_run_end(s, start);
    if end == start {
        None
    } else if s[start] == '0' && (end > start + 1 || neg) {
        None
    } else {
        let v = spec_digits_val(s, start, end);
        Some((if neg { -v } else { v }, end))
    }
}

fn digit_at(s: &str, j: usize) -> (r: bool)
    requires
        j < s@.len(),
    ensures
        r == is_json_digit(s@[j as int]),
{
    let c = s.get_char(j);
    (c as u32) >= 48 && (c as u32) <= 57
}

/// The digits' value only grows as the run extends.
proof fn lemma_digits_val_nonneg(s: Seq<char>, i: int, j: int)
    requires
        forall|k: int| i <= k < j ==> is_json_digit(s[k]),
    ensures
        spec_digits_val(s, i, j) >= 0,
    decreases j - i,
{
    if i < j {
        lemma_digits_val_nonneg(s, i, j - 1);
    }
}

fn parse_int(s: &str, i: usize, n: usize) -> (r: Option<(Option<i32>, usize)>)
    requires
        n == s@.len(),
        i <= n,
    ensures
        match r {
            Some(v) => {
                &&& spec_parse_int(s@, i as int) is Some
                &&& spec_parse_int(s@, i as int)->Some_0.1 == v.1 as int
                &&& v.1 <= n
                &&& match v.0 {
                    Some(x) => spec_parse_int(s@, i as int)->Some_0.0 == x as int,
                    None => !(i32::MIN <= spec_parse_int(s@, i as int)->Some_0.0 <= i32::MAX),
                }
            },
            None => spec_parse_int(s@, i as int) is None,
        },
{
    let neg = i < n && s.get_char(i) == '-';
    let start = if neg {
        i + 1
    } else {
        i
    };
    let mut j = start;
    let mut mag: u64 = 0;
    let mut ovf = false;
    while j < n && digit_at(s, j)
        invariant
            n == s@.len(),
            start <= j <= n,
            forall|k: int| start <= k < j ==> is_json_digit(s@[k]),
            spec_digit_run_end(s@, start as int) == spec_digit_run_end(s@, j as int),
            !ovf ==> mag == spec_digits_val(s@, start as int, j as int) && mag <= 0xFFFF_FFFF,
            ovf ==> spec_digits_val(s@, start as int, j as int) > 0xFFFF_FFFF,
        decreases n - j,
    {
        let c = s.get_char(j);
        let d = ((c as u32) - 48) as u64;
        proof {
            if ovf {
                lemma_digits_val_nonneg(s@, start as int, j as int);
            }
        }
        if !ovf {
            let next = mag * 10 + d;
            if next > 0xFFFF_FFFF {
                ovf = true;
            } else {
                mag = next;
            }
        }
        j = j + 1;
    }
    if j == start {
        return None;
    }
    if s.get_char(start) == '0' && (j > start + 1 || neg) {
        return None;
    }
    if ovf {
        return Some((None, j));
    }
    if neg {
        let v64: i64 = -(mag as i64);
        if v64 >= -0x8000_0000i64 {
            Some((Some(v64 as i32), j))
        } else {
            Some((None, j))
        }
    } else {
        if mag <= 0x7FFF_FFFF {
            Some((Some(mag as i32), j))
        } else {
            Some((None, j))
        }
    }
}

/// The `force` member's value: `true`, `false` or `null` (`null` counts
/// as the field being absent).
pub open spec fn spec_parse_force(s: Seq<char>, i: int) -> Option<(Option<bool>, int)> {
    if 0 <= i && i + 4 <= s.len() && s[i] == 't' && s[i + 1] == 'r' && s[i + 2] == 'u' && s[i + 3]
        == 'e' {
        Some((Some(true), i + 4))
    } else if 0 <= i && i + 5 <= s.len() && s[i] == 'f' && s[i + 1] == 'a' && s[i + 2] == 'l' && s[i
        + 3] == 's' && s[i + 4] == 'e' {
        Some((Some(false), i + 5))
    } else if 0 <= i && i + 4 <= s.len() && s[i] == 'n' && s[i + 1] == 'u' && s[i + 2] == 'l' && s[i
        + 3] == 'l' {
        Some((None, i + 4))
    } else {
        None
    }
}

fn parse_force(s: &str, i: usize, n: usize) -> (r: Option<(Option<bool>, usize)>)
    requires
        n == s@.len(),
        i <= n,
    ensures
        match r {
            Some(v) => spec_parse_force(s@, i as int) == Some((v.0, v.1 as int)) && v.1 <= n,
            None => spec_parse_force(s@, i as int) is None,
        },
{
    if n - i >= 4 && s.get_char(i) == 't' && s.get_char(i + 1) == 'r' && s.get_char(i + 2) == 'u'
        && s.get_char(i + 3) == 'e' {
        Some((Some(true), i + 4))
    } else if n - i >= 5 && s.get_char(i) == 'f' && s.get_char(i + 1) == 'a' && s.get_char(i + 2)
        == 'l' && s.get_char(i + 3) == 's' && s.get_char(i + 4) == 'e' {
        Some((Some(false), i + 5))
    } else if n - i >= 4 && s.get_char(i) == 'n' && s.get_char(i + 1) == 'u' && s.get_char(i + 2)
        == 'l' && s.get_char(i + 3) == 'l' {
        Some((None, i + 4))
    } else {
        None
    }
}


/// The fields collected so far while reading the object's members.
pub struct ReqAcc {
    pub url: Option<Seq<char>>,
    pub id: Option<Seq<char>>,
    pub job_id: Option<Seq<char>>,
    pub index: Option<int>,
    pub force: Option<Option<bool>>,
}

/// No field read yet.
pub open spec fn empty_req_acc() -> ReqAcc {
    ReqAcc { url: None, id: None, job_id: None, index: None, force: None }
}

/// How many fields are still unread; each accepted member lowers it.
pub open spec fn unset_count(acc: ReqAcc) -> nat {
    (if acc.url is None { 1nat } else { 0nat }) + (if acc.id is None { 1nat } else { 0nat }) + (
    if acc.job_id is None { 1nat } else { 0nat }) + (if acc.index is None { 1nat } else { 0nat })
        + (if acc.force is None { 1nat } else { 0nat })
}

/// One member's value applied to the accumulator: the key picks the
/// field, a repeated or unknown key or an ill-typed or out-of-range value
/// rejects the payload.
pub open spec fn spec_apply_member(s: Seq<char>, i: int, key: Seq<char>, acc: ReqAcc) -> Option<
    (ReqAcc, int),
> {
    if key == "url"@ {
        if acc.url is Some {
            None
        } else {
            match spec_parse_string(s, i) {
                None => None,
                Some((v, j)) => Some((ReqAcc { url: Some(v), ..acc }, j)),
            }
        }
    } else if key == "id"@ {
        if acc.id is Some {
            None
        } else {
            match spec_parse_string(s, i) {
                None => None,
                Some((v, j)) => Some((ReqAcc { id: Some(v), ..acc }, j)),
            }
        }
    } else if key == "job_id"@ {
        if acc.job_id is Some {
            None
        } else {
            match spec_parse_string(s, i) {
                None => None,
                Some((v, j)) => Some((ReqAcc { job_id: Some(v), ..acc }, j)),
            }
        }
    } else if key == "index"@ {
        if acc.index is Some {
            None
        } else {
            match spec_parse_int(s, i) {
                None => None,
                Some((v, j)) => if i32::MIN <= v <= i32::MAX {
                    Some((ReqAcc { index: Some(v), ..acc }, j))
                } else {
                    None
                },
            }
        }
    } else if key == "force"@ {
        if acc.force is Some {
            None
        } else {
            match spec_parse_force(s, i) {
                None => None,
                Some((v, j)) => Some((ReqAcc { force: Some(v), ..acc }, j)),
            }
        }
    } else {
        None
    }
}

/// An accepted member always fills a field that was empty.
proof fn lemma_apply_member_unset(s: Seq<char>, i: int, key: Seq<char>, acc: ReqAcc)
    ensures
        match spec_apply_member(s, i, key, acc) {
            Some(r) => unset_count(r.0) < unset_count(acc),
            None => true,
        },
{
}

/// The members of the object from position `i` on: `key: value` pairs
/// separated by commas. Ends at the first non-comma after a member,
/// yielding the filled accumulator and that position.
pub open spec fn spec_parse_members(s: Seq<char>, i: int, acc: ReqAcc) -> Option<(ReqAcc, int)>
    decreases unset_count(acc),
    via spec_parse_members_decreases
{
    match spec_parse_string(s, i) {
        None => None,
        Some((key, i2)) => {
            let i3 = spec_skip_ws(s, i2);
            if !(i3 < s.len() && s[i3] == ':') {
                None
            } else {
                let i4 = spec_skip_ws(s, i3 + 1);
                match spec_apply_member(s, i4, key, acc) {
                    None => None,
                    Some((acc2, i5)) => {
                        let i6 = spec_skip_ws(s, i5);
                        if i6 < s.len() && s[i6] == ',' {
                            let i7 = spec_skip_ws(s, i6 + 1);
                            spec_parse_members(s, i7, acc2)
                        } else {
                            Some((acc2, i6))
                        }
                    },
                }
            }
        },
    }
}

#[via_fn]
proof fn spec_parse_members_decreases(s: Seq<char>, i: int, acc: ReqAcc) {
    match spec_parse_string(s, i) {
        None => {},
        Some((key, i2)) => {
            let i3 = spec_skip_ws(s, i2);
            let i4 = spec_skip_ws(s, i3 + 1);
            lemma_apply_member_unset(s, i4, key, acc);
        },
    }
}

/// The decoded request as mathematical values.
pub struct ReqModel {
    pub url: Seq<char>,
    pub id: Seq<char>,
    pub job_id: Seq<char>,
    pub index: int,
    pub force: Option<bool>,
}

/// The final acceptance check: `url`, `id`, `job_id` and `index` must
/// have been read and the URL must not be empty; a missing `force` means
/// not forced.
pub open spec fn spec_finalize(acc: ReqAcc) -> Option<ReqModel> {
    match (acc.url, acc.id, acc.job_id, acc.index) {
        (Some(u), Some(id), Some(jid), Some(ix)) => if u.len() > 0 {
            Some(
                ReqModel {
                    url: u,
                    id: id,
                    job_id: jid,
                    index: ix,
                    force: match acc.force {
                        Some(f) => f,
                        None => None,
                    },
                },
            )
        } else {
            None
        },
        _ => None,
    }
}

/// What a whole queue payload decodes to, if anything: an object holding
/// the request's members and nothing after it.
pub open spec fn spec_parse_request(s: Seq<char>) -> Option<ReqModel> {
    let i0 = spec_skip_ws(s, 0);
    if !(i0 < s.len() && s[i0] == '{') {
        None
    } else {
        let i1 = spec_skip_ws(s, i0 + 1);
        if i1 < s.len() && s[i1] == '}' {
            None
        } else {
            match spec_parse_members(s, i1, empty_req_acc()) {
                None => None,
                Some((acc, j)) => {
                    if !(j < s.len() && s[j] == '}') {
                        None
                    } else {
                        let j2 = spec_skip_ws(s, j + 1);
                        if j2 != s.len() {
                            None
                        } else {
                            spec_finalize(acc)
                        }
                    }
                },
            }
        }
    }
}

/// The model of a decoded request value.
pub open spec fn req_model(req: BasicRedisReq) -> ReqModel {
    ReqModel {
        url: req.spec_url(),
        id: req.spec_id(),
        job_id: req.spec_job_id(),
        index: req.spec_index() as int,
        force: req.spec_force_field(),
    }
}

struct ReqAccX {
    url: Option<String>,
    id: Option<String>,
    job_id: Option<String>,
    index: Option<i32>,
    force: Option<Option<bool>>,
}

spec fn accx_view(a: &ReqAccX) -> ReqAcc {
    ReqAcc {
        url: match a.url {
            Some(ref s) => Some(s@),
            None => None,
        },
        id: match a.id {
            Some(ref s) => Some(s@),
            None => None,
        },
        job_id: match a.job_id {
            Some(ref s) => Some(s@),
            None => None,
        },
        index: match a.index {
            Some(x) => Some(x as int),
            None => None,
        },
        force: a.force,
    }
}

fn apply_member(s: &str, i: usize, n: usize, key: &String, acc: ReqAccX) -> (r: Option<
    (ReqAccX, usize),
>)
    requires
        n == s@.len(),
        i <= n,
    ensures
        match r {
            Some(v) => spec_apply_member(s@, i as int, key@, accx_view(&acc)) == Some(
                (accx_view(&v.0), v.1 as int),
            ) && v.1 <= n,
            None => spec_apply_member(s@, i as int, key@, accx_view(&acc)) is None,
        },
{
    let url_key: String = String::from_str("url");
    let id_key: String = String::from_str("id");
    let job_id_key: String = String::from_str("job_id");
    let index_key: String = String::from_str("index");
    let force_key: String = String::from_str("force");
    if key.eq(&url_key) {
        if acc.url.is_some() {
            return None;
        }
        match parse_string(s, i, n) {
            None => None,
            Some((v, j)) => Some((ReqAccX { url: Some(v), ..acc }, j)),
        }
    } else if key.eq(&id_key) {
        if acc.id.is_some() {
            return None;
        }
        match parse_string(s, i, n) {
            None => None,
            Some((v, j)) => Some((ReqAccX { id: Some(v), ..acc }, j)),
        }
    } else if key.eq(&job_id_key) {
        if acc.job_id.is_some() {
            return None;
        }
        match parse_string(s, i, n) {
            None => None,
            Some((v, j)) => Some((ReqAccX { job_id: Some(v), ..acc }, j)),
        }
    } else if key.eq(&index_key) {
        if acc.index.is_some() {
            return None;
        }
        match parse_int(s, i, n) {
            None => None,
            Some((v, j)) => match v {
                Some(x) => Some((ReqAccX { index: Some(x), ..acc }, j)),
                None => None,
            },
        }
    } else if key.eq(&force_key) {
        if acc.force.is_some() {
            return None;
        }
        match parse_force(s, i, n) {
            None => None,
            Some((v, j)) => Some((ReqAccX { force: Some(v), ..acc }, j)),
        }
    } else {
        None
    }
}

fn finalize_acc(acc: ReqAccX) -> (r: Option<BasicRedisReq>)
    ensures
        match r {
            Some(req) => spec_finalize(accx_view(&acc)) == Some(req_model(req)),
            None => spec_finalize(accx_view(&acc)) is None,
        },
{
    match (acc.url, acc.id, acc.job_id, acc.index) {
        (Some(url), Some(id), Some(job_id), Some(ix)) => {
            if url.as_str().is_empty() {
                return None;
            }
            let force = match acc.force {
                Some(f) => f,
                None => None,
            };
            Some(BasicRedisReq::new(url, id, job_id, ix, force))
        },
        _ => None,
    }
}

/// Decode one queue payload. Returns the request exactly when the
/// payload matches the request grammar, and nothing otherwise.
pub fn decode_request(s: &str) -> (r: Option<BasicRedisReq>)
    ensures
        match r {
            Some(req) => spec_parse_request(s@) == Some(req_model(req)),
            None => spec_parse_request(s@) is None,
        },
{
    let n = s.unicode_len();
    let i0 = skip_ws(s, 0, n);
    if i0 >= n {
        return None;
    }
    if s.get_char(i0) != '{' {
        return None;
    }
    let i1 = skip_ws(s, i0 + 1, n);
    if i1 < n && s.get_char(i1) == '}' {
        return None;
    }
    let mut acc = ReqAccX { url: None, id: None, job_id: None, index: None, force: None };
    let mut j = i1;
    let ghost start = i1 as int;
    loop
        invariant
            n == s@.len(),
            j <= n,
            spec_parse_request(s@) == (match spec_parse_members(s@, start, empty_req_acc()) {
                None => None,
                Some((a, k)) => {
                    if !(k < s@.len() && s@[k] == '}') {
                        None
                    } else {
                        let k2 = spec_skip_ws(s@, k + 1);
                        if k2 != s@.len() {
                            None
                        } else {
                            spec_finalize(a)
                        }
                    }
                },
            }),
            spec_parse_members(s@, start, empty_req_acc()) == spec_parse_members(
                s@,
                j as int,
                accx_view(&acc),
            ),
        decreases unset_count(accx_view(&acc)),
    {
        let ghost acc_in = accx_view(&acc);
        match parse_string(s, j, n) {
            None => {
                return None;
            },
            Some((key, j2)) => {
                let i3 = skip_ws(s, j2, n);
                if i3 >= n {
                    return None;
                }
                if s.get_char(i3) != ':' {
                    return None;
                }
                let i4 = skip_ws(s, i3 + 1, n);
                match apply_member(s, i4, n, &key, acc) {
                    None => {
                        return None;
                    },
                    Some((acc2, i5)) => {
                        let i6 = skip_ws(s, i5, n);
                        if i6 < n && s.get_char(i6) == ',' {
                            let i7 = skip_ws(s, i6 + 1, n);
                            proof {
                                lemma_apply_member_unset(s@, i4 as int, key@, acc_in);
                            }
                            acc = acc2;
                            j = i7;
                        } else {
                            if i6 >= n {
                                return None;
                            }
                            if s.get_char(i6) != '}' {
                                return None;
                            }
                            let j2b = skip_ws(s, i6 + 1, n);
                            if j2b != n {
                                return None;
                            }
                            return finalize_acc(acc2);
                        }
                    },
                }
            },
        }
    }
}

} // verus!
