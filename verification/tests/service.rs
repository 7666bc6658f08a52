use actix_hello::counter::SharedCounter;
use actix_hello::errors::{translate, render_api_error, FetchFailure};
use actix_hello::router::{
    counter_reply, echo_reply, hey_reply, route_of, tags_reply, Method, Route,
};
use actix_hello::tags::{interpret_outcome, render_tags, tags_url, Commit, FetchOutcome, RepoTag};
use actix_hello::wire::{push_decimal, push_json_escaped, push_pct_encoded};

fn tag(
    name: &str,
    commit: Option<Commit>,
    zip: &str,
    tar: &str,
    node: &str,
) -> RepoTag {
    RepoTag {
        name: name.as_bytes().to_vec(),
        commit,
        zipball_url: zip.as_bytes().to_vec(),
        tarball_url: tar.as_bytes().to_vec(),
        node_id: node.as_bytes().to_vec(),
    }
}

#[test]
fn counter_increments_accumulate() {
    let mut c = SharedCounter::new(0);
    let mut seen = Vec::new();
    for _ in 0..100 {
        seen.push(c.increment_and_get());
    }
    for i in 0..seen.len() {
        assert_eq!(seen[i], (i as u64) + 1);
        for j in 0..i {
            assert_ne!(seen[i], seen[j]);
        }
    }
    assert_eq!(seen[99], 100);
}

#[test]
fn counter_starts_from_prior_value() {
    let mut c = SharedCounter::new(41);
    assert_eq!(c.increment_and_get(), 42);
    assert_eq!(c.increment_and_get(), 43);
}

#[test]
fn counter_reply_reports_new_count() {
    let mut c = SharedCounter::new(0);
    let r = counter_reply(&mut c);
    assert_eq!(r.status, 200);
    assert_eq!(r.body, b"1".to_vec());
    let r = counter_reply(&mut c);
    assert_eq!(r.body, b"2".to_vec());
}

#[test]
fn echo_is_identity() {
    let body = b"hello world \xF0\x9F\x99\x82".to_vec();
    let r = echo_reply(body.clone());
    assert_eq!(r.status, 200);
    assert_eq!(r.body, body);
}

#[test]
fn echo_is_identity_on_empty() {
    let r = echo_reply(Vec::new());
    assert_eq!(r.status, 200);
    assert_eq!(r.body, Vec::<u8>::new());
}

#[test]
fn hey_is_fixed_greeting() {
    let r = hey_reply();
    assert_eq!(r.status, 200);
    assert_eq!(r.body, b"Hey there!".to_vec());
}

#[test]
fn translate_transport_failure() {
    let e = translate(&FetchFailure::Transport);
    assert_eq!(e.status_code, 500);
    assert_eq!(e.message, b"Something went wrong! Try again later.".to_vec());
}

#[test]
fn translate_upstream_not_found() {
    let e = translate(&FetchFailure::UpstreamNotFound);
    assert_eq!(e.status_code, 404);
    assert_eq!(e.message, b"Not Found".to_vec());
}

#[test]
fn translate_decode_failure() {
    let e = translate(&FetchFailure::Decode);
    assert_eq!(e.status_code, 500);
    assert_eq!(e.message, b"Internal Server Error.".to_vec());
}

#[test]
fn error_body_is_exact_json() {
    let body = render_api_error(&translate(&FetchFailure::UpstreamNotFound));
    assert_eq!(body, b"{\"statusCode\":404,\"message\":\"Not Found\"}".to_vec());
}

#[test]
fn tags_reply_on_upstream_404() {
    let r = tags_reply(FetchOutcome::Response { status: 404, tags: None });
    assert_eq!(r.status, 404);
    assert_eq!(r.body, b"{\"statusCode\":404,\"message\":\"Not Found\"}".to_vec());
}

#[test]
fn tags_reply_on_upstream_404_ignores_body() {
    let ts = vec![tag("v1", None, "z", "t", "n")];
    let r = tags_reply(FetchOutcome::Response { status: 404, tags: Some(ts) });
    assert_eq!(r.status, 404);
    assert_eq!(r.body, b"{\"statusCode\":404,\"message\":\"Not Found\"}".to_vec());
}

#[test]
fn tags_reply_on_transport_failure() {
    let r = tags_reply(FetchOutcome::Transport);
    assert_eq!(r.status, 500);
    assert_eq!(
        r.body,
        b"{\"statusCode\":500,\"message\":\"Something went wrong! Try again later.\"}".to_vec()
    );
}

#[test]
fn tags_reply_on_undecodable_body() {
    let r = tags_reply(FetchOutcome::Response { status: 200, tags: None });
    assert_eq!(r.status, 500);
    assert_eq!(
        r.body,
        b"{\"statusCode\":500,\"message\":\"Internal Server Error.\"}".to_vec()
    );
}

#[test]
fn tags_reply_on_two_tags_preserves_order_and_fields() {
    let ts = vec![
        tag(
            "v1.0",
            Some(Commit {
                sha: b"abc123".to_vec(),
                url: Some(b"https://api.github.com/commits/abc123".to_vec()),
                absent: None,
            }),
            "https://z/1",
            "https://t/1",
            "N1",
        ),
        tag("v2.0", None, "https://z/2", "https://t/2", "N2"),
    ];
    let r = tags_reply(FetchOutcome::Response { status: 200, tags: Some(ts) });
    assert_eq!(r.status, 200);
    let expected = "[{\"name\":\"v1.0\",\"commit\":{\"sha\":\"abc123\",\"url\":\"https://api.github.com/commits/abc123\",\"absent\":null},\"zipball_url\":\"https://z/1\",\"tarball_url\":\"https://t/1\",\"node_id\":\"N1\"},{\"name\":\"v2.0\",\"commit\":null,\"zipball_url\":\"https://z/2\",\"tarball_url\":\"https://t/2\",\"node_id\":\"N2\"}]";
    assert_eq!(r.body, expected.as_bytes().to_vec());
}

#[test]
fn tags_reply_absent_field_renders_null_even_when_set() {
    let ts = vec![tag(
        "v1",
        Some(Commit { sha: b"s".to_vec(), url: None, absent: Some(true) }),
        "z",
        "t",
        "n",
    )];
    let r = tags_reply(FetchOutcome::Response { status: 200, tags: Some(ts) });
    let expected = "[{\"name\":\"v1\",\"commit\":{\"sha\":\"s\",\"url\":null,\"absent\":null},\"zipball_url\":\"z\",\"tarball_url\":\"t\",\"node_id\":\"n\"}]";
    assert_eq!(r.body, expected.as_bytes().to_vec());
}

#[test]
fn tags_reply_decodes_any_non_404_status() {
    let ts = vec![tag("v1", None, "z", "t", "n")];
    let r = tags_reply(FetchOutcome::Response { status: 503, tags: Some(ts) });
    assert_eq!(r.status, 200);
}

#[test]
fn interpret_outcome_matches_table() {
    assert_eq!(
        interpret_outcome(FetchOutcome::Transport),
        Err(FetchFailure::Transport)
    );
    assert_eq!(
        interpret_outcome(FetchOutcome::Response { status: 404, tags: None }),
        Err(FetchFailure::UpstreamNotFound)
    );
    assert_eq!(
        interpret_outcome(FetchOutcome::Response { status: 301, tags: None }),
        Err(FetchFailure::Decode)
    );
    let ts = vec![tag("v", None, "z", "t", "n")];
    assert_eq!(
        interpret_outcome(FetchOutcome::Response { status: 200, tags: Some(ts.clone()) }),
        Ok(ts)
    );
}

#[test]
fn render_tags_empty_array() {
    assert_eq!(render_tags(&Vec::new()), b"[]".to_vec());
}

#[test]
fn render_tags_escapes_json_text() {
    let ts = vec![tag("a\"b\\c\nd\u{1}", None, "z", "t", "n")];
    let out = render_tags(&ts);
    let expected = "[{\"name\":\"a\\\"b\\\\c\\nd\\u0001\",\"commit\":null,\"zipball_url\":\"z\",\"tarball_url\":\"t\",\"node_id\":\"n\"}]";
    assert_eq!(out, expected.as_bytes().to_vec());
}

#[test]
fn tags_url_for_plain_segments() {
    let url = tags_url(b"alice", b"repo-x");
    assert_eq!(url, b"https://api.github.com/repos/alice/repo-x/tags".to_vec());
}

#[test]
fn tags_url_percent_encodes_segments() {
    let url = tags_url(b"a b", b"x/y");
    assert_eq!(url, b"https://api.github.com/repos/a%20b/x%2Fy/tags".to_vec());
}

#[test]
fn route_counter() {
    assert_eq!(route_of(&Method::Get, b"/api/v1/"), Some(Route::Counter));
}

#[test]
fn route_echo() {
    assert_eq!(route_of(&Method::Post, b"/api/v1/echo"), Some(Route::Echo));
}

#[test]
fn route_hey() {
    assert_eq!(route_of(&Method::Get, b"/api/v1/hey"), Some(Route::Hey));
}

#[test]
fn route_tags_extracts_repo() {
    assert_eq!(
        route_of(&Method::Post, b"/api/v1/myrepo/tags"),
        Some(Route::Tags { repo: b"myrepo".to_vec() })
    );
}

#[test]
fn route_rejects_wrong_prefix() {
    assert_eq!(route_of(&Method::Get, b"/other/v1/"), None);
    assert_eq!(route_of(&Method::Get, b"/api"), None);
}

#[test]
fn route_rejects_wrong_method() {
    assert_eq!(route_of(&Method::Post, b"/api/v1/"), None);
    assert_eq!(route_of(&Method::Get, b"/api/v1/echo"), None);
    assert_eq!(route_of(&Method::Get, b"/api/v1/myrepo/tags"), None);
}

#[test]
fn route_rejects_malformed_tags_paths() {
    assert_eq!(route_of(&Method::Post, b"/api/v1//tags"), None);
    assert_eq!(route_of(&Method::Post, b"/api/v1/a/b/tags"), None);
    assert_eq!(route_of(&Method::Post, b"/api/v1/tags"), None);
}

#[test]
fn decimal_rendering_is_exact() {
    let mut out = Vec::new();
    push_decimal(&mut out, 0);
    assert_eq!(out, b"0".to_vec());
    let mut out = Vec::new();
    push_decimal(&mut out, 1234567890);
    assert_eq!(out, b"1234567890".to_vec());
    let mut out = Vec::new();
    push_decimal(&mut out, u64::MAX);
    assert_eq!(out, b"18446744073709551615".to_vec());
}

#[test]
fn json_escaping_of_control_bytes() {
    let mut out = Vec::new();
    push_json_escaped(&mut out, b"\x08\x09\x0A\x0C\x0D\x1F");
    assert_eq!(out, b"\\b\\t\\n\\f\\r\\u001f".to_vec());
}

#[test]
fn percent_encoding_keeps_unreserved_bytes() {
    let mut out = Vec::new();
    push_pct_encoded(&mut out, b"AZaz09-._~");
    assert_eq!(out, b"AZaz09-._~".to_vec());
    let mut out = Vec::new();
    push_pct_encoded(&mut out, b"%?&#\xC3\xA9");
    assert_eq!(out, b"%25%3F%26%23%C3%A9".to_vec());
}

#[test]
fn env_config_carries_startup_values() {
    let c = actix_hello::env::EnvConfig {
        db_string: "mongodb://localhost:27017".to_string(),
        port: 8080,
        shell_env_var: "value".to_string(),
    };
    assert_eq!(c.port, 8080);
    assert_eq!(c.db_string, "mongodb://localhost:27017");
    assert_eq!(c.shell_env_var, "value");
}

#[test]
fn routed_counter_request_end_to_end() {
    let mut c = SharedCounter::new(0);
    match route_of(&Method::Get, b"/api/v1/") {
        Some(Route::Counter) => {
            let r = counter_reply(&mut c);
            assert_eq!(r.status, 200);
            assert_eq!(r.body, b"1".to_vec());
        }
        other => panic!("unexpected route: {:?}", other),
    }
}

#[test]
fn increment_n_returns_the_serialized_history() {
    let mut c = SharedCounter::new(5);
    let observed = actix_hello::counter::increment_n(&mut c, 10);
    let expected: Vec<u64> = (6..=15).collect();
    assert_eq!(observed, expected);
    assert_eq!(c.current(), 15);
}
