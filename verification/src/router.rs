use crate::counter::SharedCounter;
use crate::errors::{api_error_json, message_of, render_api_error, status_of, translate};
use crate::tags::{
    interpret_outcome, json_tags, lit_url_tail, render_tags, verdict_of, FetchOutcome,
};
use crate::wire::{copy_range, dec_digits, push_bytes, push_decimal, starts_with, tail_eq};
use vstd::prelude::*;

verus! {

/// The request methods the service distinguishes.
#[derive(Clone, Copy, Debug, PartialEq, Eq, Structural)]
pub enum Method {
    Get,
    Post,
}

/// Where a request is dispatched.
#[derive(Debug, PartialEq, Eq)]
pub enum Route {
    /// `GET /` under the prefix: increment the counter and report it.
    Counter,
    /// `POST /echo`: return the body unchanged.
    Echo,
    /// `POST /{repo}/tags`: the tags proxy; carries the repo segment.
    Tags { repo: Vec<u8> },
    /// `GET /hey`: the fixed greeting.
    Hey,
}

/// The spec-level image of a route: the tags route carries the repo bytes.
pub enum RouteModel {
    Counter,
    Echo,
    Tags(Seq<u8>),
    Hey,
}

/// The spec-level image of a `Route`.
pub open spec fn route_view(r: Route) -> RouteModel {
    match r {
        Route::Counter => RouteModel::Counter,
        Route::Echo => RouteModel::Echo,
        Route::Tags { repo } => RouteModel::Tags(repo@),
        Route::Hey => RouteModel::Hey,
    }
}

/// Wire text: `/api/v1`.
pub open spec fn lit_api_prefix() -> Seq<u8> {
    seq![0x2Fu8, 0x61u8, 0x70u8, 0x69u8, 0x2Fu8, 0x76u8, 0x31u8]
}

/// Wire text: `/`.
pub open spec fn lit_path_root() -> Seq<u8> {
    seq![0x2Fu8]
}

/// Wire text: `/echo`.
pub open spec fn lit_path_echo() -> Seq<u8> {
    seq![0x2Fu8, 0x65u8, 0x63u8, 0x68u8, 0x6Fu8]
}

/// Wire text: `/hey`.
pub open spec fn lit_path_hey() -> Seq<u8> {
    seq![0x2Fu8, 0x68u8, 0x65u8, 0x79u8]
}

/// Wire text: `Hey there!`.
pub open spec fn lit_greeting() -> Seq<u8> {
    seq![0x48u8, 0x65u8, 0x79u8, 0x20u8, 0x74u8, 0x68u8, 0x65u8, 0x72u8, 0x65u8, 0x21u8]
}

/// Appends `Hey there!`.
fn push_greeting(out: &mut Vec<u8>)
    ensures
        final(out)@ == old(out)@ + lit_greeting(),
{
    let frag: [u8; 10] = [0x48u8, 0x65u8, 0x79u8, 0x20u8, 0x74u8, 0x68u8, 0x65u8, 0x72u8, 0x65u8, 0x21u8];
    push_bytes(out, frag.as_slice());
    proof {
        assert(out@ =~= old(out)@ + lit_greeting());
    }
}

/// Is `p` of the form `/{repo}/tags`, with a non-empty repo segment that
/// holds no further slash?
pub open spec fn is_tags_path(p: Seq<u8>) -> bool {
    p.len() >= 7 && p[0] == 0x2Fu8 && p.skip(p.len() - 5) == lit_url_tail() && (forall|i: int|
        1 <= i < p.len() - 5 ==> p[i] != 0x2Fu8)
}

/// The repo segment of a tags path `/{repo}/tags`.
pub open spec fn tags_path_repo(p: Seq<u8>) -> Seq<u8> {
    p.subrange(1, p.len() - 5)
}

/// The routing table over the method and the full request path: every
/// route sits under the common prefix `/api/v1`; `GET /` is the counter,
/// `POST /echo` the echo, `POST /{repo}/tags` the tags proxy, `GET /hey`
/// the greeting; anything else matches no route.
pub open spec fn route_spec(m: Method, path: Seq<u8>) -> Option<RouteModel> {
    if path.len() < 7 || path.take(7) != lit_api_prefix() {
        Option::None
    } else {
        let rest = path.skip(7);
        match m {
            Method::Get => if rest == lit_path_root() {
                Option::Some(RouteModel::Counter)
            } else if rest == lit_path_hey() {
                Option::Some(RouteModel::Hey)
            } else {
                Option::None
            },
            Method::Post => if rest == lit_path_echo() {
                Option::Some(RouteModel::Echo)
            } else if is_tags_path(rest) {
                Option::Some(RouteModel::Tags(tags_path_repo(rest)))
            } else {
                Option::None
            },
        }
    }
}

/// Dispatches a request to its route, exactly as `route_spec` reads the
/// method and path.
pub fn route_of(method: &Method, path: &[u8]) -> (r: Option<Route>)
    ensures
        match r {
            Option::Some(rt) => route_spec(*method, path@) == Option::Some(route_view(rt)),
            Option::None => route_spec(*method, path@) == Option::<RouteModel>::None,
        },
{
    let pre: [u8; 7] = [0x2Fu8, 0x61u8, 0x70u8, 0x69u8, 0x2Fu8, 0x76u8, 0x31u8];
    proof {
        assert(pre@ =~= lit_api_prefix());
    }
    if !starts_with(path, pre.as_slice()) {
        return Option::None;
    }
    let ghost rest: Seq<u8> = path@.skip(7);
    match method {
        Method::Get => {
            let root: [u8; 1] = [0x2Fu8];
            proof {
                assert(root@ =~= lit_path_root());
            }
            if tail_eq(path, 7, root.as_slice()) {
                return Option::Some(Route::Counter);
            }
            let hey: [u8; 4] = [0x2Fu8, 0x68u8, 0x65u8, 0x79u8];
            proof {
                assert(hey@ =~= lit_path_hey());
            }
            if tail_eq(path, 7, hey.as_slice()) {
                return Option::Some(Route::Hey);
            }
            Option::None
        },
        Method::Post => {
            let echo: [u8; 5] = [0x2Fu8, 0x65u8, 0x63u8, 0x68u8, 0x6Fu8];
            proof {
                assert(echo@ =~= lit_path_echo());
            }
            if tail_eq(path, 7, echo.as_slice()) {
                return Option::Some(Route::Echo);
            }
            let n = path.len();
            if n < 14 {
                return Option::None;
            }
            if path[7] != 0x2F {
                proof {
                    assert(rest[0] == path@[7]);
                }
                return Option::None;
            }
            let suffix: [u8; 5] = [0x2Fu8, 0x74u8, 0x61u8, 0x67u8, 0x73u8];
            proof {
                assert(suffix@ =~= lit_url_tail());
                assert(rest.skip(rest.len() - 5) =~= path@.skip(n - 5));
            }
            if !tail_eq(path, n - 5, suffix.as_slice()) {
                return Option::None;
            }
            let mut i: usize = 8;
            while i < n - 5
                invariant
                    14 <= n == path@.len(),
                    rest == path@.skip(7),
                    8 <= i <= n - 5,
                    forall|j: int| 8 <= j < i ==> path@[j] != 0x2Fu8,
                decreases n - 5 - i,
            {
                if path[i] == 0x2F {
                    proof {
                        assert(rest[i - 7] == path@[i as int]);
                        assert(!is_tags_path(rest));
                    }
                    return Option::None;
                }
                i = i + 1;
            }
            let repo = copy_range(path, 8, n - 5);
            proof {
                assert(forall|k: int| 1 <= k < rest.len() - 5 ==> rest[k] == path@[7 + k]);
                assert(is_tags_path(rest));
                assert(repo@ =~= tags_path_repo(rest));
            }
            Option::Some(Route::Tags { repo })
        },
    }
}

/// One HTTP response as the service puts it on the wire: a status code
/// and a body.
pub struct Reply {
    pub status: u16,
    pub body: Vec<u8>,
}

/// The counter endpoint: one guarded increment, then 200 with the new
/// count in decimal. Nothing else happens inside the critical section;
/// any delay or outbound work stays outside the guard.
pub fn counter_reply(counter: &mut SharedCounter) -> (r: Reply)
    requires
        old(counter).count() < u64::MAX,
    ensures
        final(counter).count() == old(counter).count() + 1,
        r.status == 200,
        r.body@ == dec_digits(final(counter).count() as nat),
{
    let v = counter.increment_and_get();
    let mut body: Vec<u8> = Vec::new();
    push_decimal(&mut body, v);
    proof {
        assert(body@ =~= dec_digits(v as nat));
    }
    Reply { status: 200, body }
}

/// The echo endpoint: 200 with the request body returned unchanged, byte
/// for byte, the empty body included.
pub fn echo_reply(body: Vec<u8>) -> (r: Reply)
    ensures
        r.status == 200,
        r.body@ == body@,
{
    Reply { status: 200, body }
}

/// The greeting endpoint: 200 with the fixed text.
pub fn hey_reply() -> (r: Reply)
    ensures
        r.status == 200,
        r.body@ == lit_greeting(),
{
    let mut body: Vec<u8> = Vec::new();
    push_greeting(&mut body);
    proof {
        assert(body@ =~= lit_greeting());
    }
    Reply { status: 200, body }
}

/// The wire reply for a tags-proxy outcome: on success 200 with the JSON
/// tag array; on failure the translated status with the `ApiError` JSON
/// body. No other status can leave this route.
pub open spec fn tags_reply_spec(o: FetchOutcome) -> (u16, Seq<u8>) {
    match verdict_of(o) {
        Result::Ok(ts) => (200u16, json_tags(ts)),
        Result::Err(f) => (status_of(f), api_error_json(status_of(f), message_of(f))),
    }
}

/// The tags route answers with 200, 404 or 500 and nothing else, whatever
/// the upstream did; 200 appears exactly when the outcome carries decoded
/// tags and the upstream status was not 404.
pub proof fn lemma_tags_reply_status_closed(o: FetchOutcome)
    ensures
        tags_reply_spec(o).0 == 200 || tags_reply_spec(o).0 == 404 || tags_reply_spec(o).0 == 500,
        tags_reply_spec(o).0 == 200 <==> verdict_of(o) is Ok,
{
}

/// Turns an upstream outcome into the reply the client sees, exactly
/// `tags_reply_spec`: the verdict of `interpret_outcome`, rendered.
pub fn tags_reply(o: FetchOutcome) -> (r: Reply)
    ensures
        r.status == tags_reply_spec(o).0,
        r.body@ == tags_reply_spec(o).1,
{
    match interpret_outcome(o) {
        Result::Ok(ts) => {
            let body = render_tags(&ts);
            Reply { status: 200, body }
        },
        Result::Err(f) => {
            let e = translate(&f);
            let body = render_api_error(&e);
            Reply { status: e.status_code, body }
        },
    }
}

} // verus!
