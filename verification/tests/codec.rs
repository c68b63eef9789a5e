use scrape_pipeline::json::decode_request;
use scrape_pipeline::request::RedisRequest;
use scrape_pipeline::request::RedisResponse;
use scrape_pipeline::encode::encode_response;

fn decode_ok(s: &str) -> scrape_pipeline::request::BasicRedisReq {
    match decode_request(s) {
        Some(r) => r,
        None => panic!("expected a decodable request: {}", s),
    }
}

#[test]
fn decode_happy_path() {
    let req = decode_ok("{\"url\":\"http://h/a\",\"id\":\"t1\",\"job_id\":\"j1\",\"index\":0,\"force\":true}");
    assert_eq!(req.get_url(), "http://h/a");
    assert_eq!(req.get_id(), "t1");
    assert_eq!(req.get_job_id(), "j1");
    assert_eq!(req.index(), 0);
    assert!(req.is_forced());
}

#[test]
fn decode_fields_any_order_with_whitespace() {
    let req = decode_ok(" { \"index\" : -7 ,\n\t\"job_id\" : \"j\" , \"id\" : \"i\" , \"url\" : \"u\" } ");
    assert_eq!(req.index(), -7);
    assert_eq!(req.get_url(), "u");
    assert!(!req.is_forced());
}

#[test]
fn decode_force_absent_false_and_null() {
    let a = decode_ok("{\"url\":\"u\",\"id\":\"i\",\"job_id\":\"j\",\"index\":1}");
    assert!(!a.is_forced());
    let b = decode_ok("{\"url\":\"u\",\"id\":\"i\",\"job_id\":\"j\",\"index\":1,\"force\":null}");
    assert!(!b.is_forced());
    let c = decode_ok("{\"url\":\"u\",\"id\":\"i\",\"job_id\":\"j\",\"index\":1,\"force\":false}");
    assert!(!c.is_forced());
}

#[test]
fn decode_string_escapes() {
    let req = decode_ok("{\"url\":\"a\\\"b\\\\c\\n\\t\\/\",\"id\":\"i\",\"job_id\":\"j\",\"index\":2}");
    assert_eq!(req.get_url(), "a\"b\\c\n\t/");
}

#[test]
fn decode_rejects_malformed() {
    assert!(decode_request("not-json").is_none());
    assert!(decode_request("").is_none());
    assert!(decode_request("{}").is_none());
    assert!(decode_request("[1,2]").is_none());
    assert!(decode_request("{\"url\":\"u\"}").is_none());
    assert!(decode_request("{\"url\":\"u\",\"id\":\"i\",\"job_id\":\"j\",\"index\":1,} ").is_none());
    assert!(decode_request("{\"url\":\"u\",\"id\":\"i\",\"job_id\":\"j\",\"index\":1} x").is_none());
}

#[test]
fn decode_rejects_wrong_types_and_duplicates() {
    assert!(decode_request("{\"url\":1,\"id\":\"i\",\"job_id\":\"j\",\"index\":1}").is_none());
    assert!(decode_request("{\"url\":\"u\",\"id\":\"i\",\"job_id\":\"j\",\"index\":\"1\"}").is_none());
    assert!(decode_request("{\"url\":\"u\",\"url\":\"v\",\"id\":\"i\",\"job_id\":\"j\",\"index\":1}").is_none());
    assert!(decode_request("{\"url\":\"u\",\"id\":\"i\",\"job_id\":\"j\",\"index\":1,\"extra\":2}").is_none());
}

#[test]
fn decode_rejects_unicode_escape() {
    // The request grammar supports the short escapes only.
    assert!(decode_request("{\"url\":\"\\u0041\",\"id\":\"i\",\"job_id\":\"j\",\"index\":1}").is_none());
}

#[test]
fn decode_rejects_empty_url() {
    assert!(decode_request("{\"url\":\"\",\"id\":\"i\",\"job_id\":\"j\",\"index\":1}").is_none());
}

#[test]
fn decode_index_range_and_leading_zero() {
    let min = decode_ok("{\"url\":\"u\",\"id\":\"i\",\"job_id\":\"j\",\"index\":-2147483648}");
    assert_eq!(min.index(), i32::MIN);
    let max = decode_ok("{\"url\":\"u\",\"id\":\"i\",\"job_id\":\"j\",\"index\":2147483647}");
    assert_eq!(max.index(), i32::MAX);
    assert!(decode_request("{\"url\":\"u\",\"id\":\"i\",\"job_id\":\"j\",\"index\":2147483648}").is_none());
    assert!(decode_request("{\"url\":\"u\",\"id\":\"i\",\"job_id\":\"j\",\"index\":-2147483649}").is_none());
    assert!(decode_request("{\"url\":\"u\",\"id\":\"i\",\"job_id\":\"j\",\"index\":999999999999999999999999}").is_none());
    assert!(decode_request("{\"url\":\"u\",\"id\":\"i\",\"job_id\":\"j\",\"index\":01}").is_none());
    assert!(decode_request("{\"url\":\"u\",\"id\":\"i\",\"job_id\":\"j\",\"index\":-0}").is_none());
    let zero = decode_ok("{\"url\":\"u\",\"id\":\"i\",\"job_id\":\"j\",\"index\":0}");
    assert_eq!(zero.index(), 0);
}

#[test]
fn decode_agrees_with_serde_json_on_examples() {
    let cases = [
        "{\"url\":\"http://h/a\",\"id\":\"t1\",\"job_id\":\"j1\",\"index\":0,\"force\":true}",
        "{\"url\":\"u\",\"id\":\"i\",\"job_id\":\"j\",\"index\":-3}",
        "not-json",
        "{\"url\":\"u\",\"id\":\"i\",\"job_id\":\"j\"}",
        " {\"index\":7,\"url\":\"a\\\"b\\\\c\",\"id\":\"x\",\"job_id\":\"y\",\"force\":null} ",
        "{\"url\":\"u\",\"id\":\"\\t\\n\",\"job_id\":\"j\",\"index\":2147483647}",
    ];
    for case in cases {
        let ours = decode_request(case);
        let theirs: Result<serde_json::Value, _> = serde_json::from_str(case);
        match (&ours, &theirs) {
            (Some(req), Ok(v)) => {
                assert_eq!(v["url"].as_str().unwrap(), req.get_url());
                assert_eq!(v["id"].as_str().unwrap(), req.get_id());
                assert_eq!(v["job_id"].as_str().unwrap(), req.get_job_id());
                assert_eq!(v["index"].as_i64().unwrap(), req.index() as i64);
            },
            (None, _) => {},
            (Some(_), Err(_)) => panic!("decoded what serde_json rejects: {}", case),
        }
    }
}

#[test]
fn encode_success_response_exact() {
    let resp = RedisResponse { error: None, payload: Some(String::from("{\"x\":1}")), index: 0 };
    assert_eq!(encode_response(&resp), "{\"error\":null,\"payload\":\"{\\\"x\\\":1}\",\"index\":0}");
}

#[test]
fn encode_error_response_exact() {
    let resp = RedisResponse { error: Some(String::from("OverRetry")), payload: None, index: -4 };
    assert_eq!(encode_response(&resp), "{\"error\":\"OverRetry\",\"payload\":null,\"index\":-4}");
}

#[test]
fn encode_output_is_valid_json_with_the_same_fields() {
    let cases = [
        (None, Some("{\"x\":1}".to_string()), 0i32),
        (Some("boom \"quoted\" \\ line\nend\ttab".to_string()), None, i32::MIN),
        (Some("ctrl:\u{1}\u{1f}".to_string()), None, i32::MAX),
    ];
    for (error, payload, index) in cases {
        let ours = encode_response(&RedisResponse {
            error: error.clone(),
            payload: payload.clone(),
            index,
        });
        let parsed: serde_json::Value = serde_json::from_str(&ours).unwrap();
        match &error {
            Some(e) => assert_eq!(parsed["error"].as_str().unwrap(), e),
            None => assert!(parsed["error"].is_null()),
        }
        match &payload {
            Some(p) => assert_eq!(parsed["payload"].as_str().unwrap(), p),
            None => assert!(parsed["payload"].is_null()),
        }
        assert_eq!(parsed["index"].as_i64().unwrap(), index as i64);
    }
}
