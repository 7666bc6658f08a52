use crate::wire::{dec_digits, json_escaped, push_bytes, push_decimal, push_json_escaped};
use vstd::prelude::*;

verus! {

/// The closed set of ways the tags proxy can fail. Every failure the
/// service ever reports to a client is one of these.
#[derive(Clone, Copy, Debug, PartialEq, Eq, Structural)]
pub enum FetchFailure {
    /// The outbound call produced no HTTP response at all (DNS, connect,
    /// timeout), or the response could not be read.
    Transport,
    /// The upstream answered with HTTP 404.
    UpstreamNotFound,
    /// The upstream answered with some other status, but the body did not
    /// decode as a tag array.
    Decode,
}

/// Wire text: `Something went wrong! Try again later.`.
pub open spec fn lit_msg_transport() -> Seq<u8> {
    seq![0x53u8, 0x6Fu8, 0x6Du8, 0x65u8, 0x74u8, 0x68u8, 0x69u8, 0x6Eu8, 0x67u8, 0x20u8, 0x77u8, 0x65u8, 0x6Eu8, 0x74u8, 0x20u8, 0x77u8, 0x72u8, 0x6Fu8, 0x6Eu8, 0x67u8, 0x21u8, 0x20u8, 0x54u8, 0x72u8, 0x79u8, 0x20u8, 0x61u8, 0x67u8, 0x61u8, 0x69u8, 0x6Eu8, 0x20u8, 0x6Cu8, 0x61u8, 0x74u8, 0x65u8, 0x72u8, 0x2Eu8]
}

/// Appends `Something went wrong! Try again later.`.
fn push_msg_transport(out: &mut Vec<u8>)
    ensures
        final(out)@ == old(out)@ + lit_msg_transport(),
{
    let frag: [u8; 38] = [0x53u8, 0x6Fu8, 0x6Du8, 0x65u8, 0x74u8, 0x68u8, 0x69u8, 0x6Eu8, 0x67u8, 0x20u8, 0x77u8, 0x65u8, 0x6Eu8, 0x74u8, 0x20u8, 0x77u8, 0x72u8, 0x6Fu8, 0x6Eu8, 0x67u8, 0x21u8, 0x20u8, 0x54u8, 0x72u8, 0x79u8, 0x20u8, 0x61u8, 0x67u8, 0x61u8, 0x69u8, 0x6Eu8, 0x20u8, 0x6Cu8, 0x61u8, 0x74u8, 0x65u8, 0x72u8, 0x2Eu8];
    push_bytes(out, frag.as_slice());
    proof {
        assert(out@ =~= old(out)@ + lit_msg_transport());
    }
}

/// Wire text: `Not Found`.
pub open spec fn lit_msg_not_found() -> Seq<u8> {
    seq![0x4Eu8, 0x6Fu8, 0x74u8, 0x20u8, 0x46u8, 0x6Fu8, 0x75u8, 0x6Eu8, 0x64u8]
}

/// Appends `Not Found`.
fn push_msg_not_found(out: &mut Vec<u8>)
    ensures
        final(out)@ == old(out)@ + lit_msg_not_found(),
{
    let frag: [u8; 9] = [0x4Eu8, 0x6Fu8, 0x74u8, 0x20u8, 0x46u8, 0x6Fu8, 0x75u8, 0x6Eu8, 0x64u8];
    push_bytes(out, frag.as_slice());
    proof {
        assert(out@ =~= old(out)@ + lit_msg_not_found());
    }
}

/// Wire text: `Internal Server Error.`.
pub open spec fn lit_msg_decode() -> Seq<u8> {
    seq![0x49u8, 0x6Eu8, 0x74u8, 0x65u8, 0x72u8, 0x6Eu8, 0x61u8, 0x6Cu8, 0x20u8, 0x53u8, 0x65u8, 0x72u8, 0x76u8, 0x65u8, 0x72u8, 0x20u8, 0x45u8, 0x72u8, 0x72u8, 0x6Fu8, 0x72u8, 0x2Eu8]
}

/// Appends `Internal Server Error.`.
fn push_msg_decode(out: &mut Vec<u8>)
    ensures
        final(out)@ == old(out)@ + lit_msg_decode(),
{
    let frag: [u8; 22] = [0x49u8, 0x6Eu8, 0x74u8, 0x65u8, 0x72u8, 0x6Eu8, 0x61u8, 0x6Cu8, 0x20u8, 0x53u8, 0x65u8, 0x72u8, 0x76u8, 0x65u8, 0x72u8, 0x20u8, 0x45u8, 0x72u8, 0x72u8, 0x6Fu8, 0x72u8, 0x2Eu8];
    push_bytes(out, frag.as_slice());
    proof {
        assert(out@ =~= old(out)@ + lit_msg_decode());
    }
}

/// Wire text: `{"statusCode":`.
pub open spec fn lit_err_pre() -> Seq<u8> {
    seq![0x7Bu8, 0x22u8, 0x73u8, 0x74u8, 0x61u8, 0x74u8, 0x75u8, 0x73u8, 0x43u8, 0x6Fu8, 0x64u8, 0x65u8, 0x22u8, 0x3Au8]
}

/// Appends `{"statusCode":`.
fn push_err_pre(out: &mut Vec<u8>)
    ensures
        final(out)@ == old(out)@ + lit_err_pre(),
{
    let frag: [u8; 14] = [0x7Bu8, 0x22u8, 0x73u8, 0x74u8, 0x61u8, 0x74u8, 0x75u8, 0x73u8, 0x43u8, 0x6Fu8, 0x64u8, 0x65u8, 0x22u8, 0x3Au8];
    push_bytes(out, frag.as_slice());
    proof {
        assert(out@ =~= old(out)@ + lit_err_pre());
    }
}

/// Wire text: `,"message":"`.
pub open spec fn lit_err_mid() -> Seq<u8> {
    seq![0x2Cu8, 0x22u8, 0x6Du8, 0x65u8, 0x73u8, 0x73u8, 0x61u8, 0x67u8, 0x65u8, 0x22u8, 0x3Au8, 0x22u8]
}

/// Appends `,"message":"`.
fn push_err_mid(out: &mut Vec<u8>)
    ensures
        final(out)@ == old(out)@ + lit_err_mid(),
{
    let frag: [u8; 12] = [0x2Cu8, 0x22u8, 0x6Du8, 0x65u8, 0x73u8, 0x73u8, 0x61u8, 0x67u8, 0x65u8, 0x22u8, 0x3Au8, 0x22u8];
    push_bytes(out, frag.as_slice());
    proof {
        assert(out@ =~= old(out)@ + lit_err_mid());
    }
}

/// Wire text: `"}`.
pub open spec fn lit_err_end() -> Seq<u8> {
    seq![0x22u8, 0x7Du8]
}

/// Appends `"}`.
fn push_err_end(out: &mut Vec<u8>)
    ensures
        final(out)@ == old(out)@ + lit_err_end(),
{
    let frag: [u8; 2] = [0x22u8, 0x7Du8];
    push_bytes(out, frag.as_slice());
    proof {
        assert(out@ =~= old(out)@ + lit_err_end());
    }
}

/// The client-visible error shape: an HTTP status code and a message
/// (UTF-8 bytes). This is the single error type every failure turns into.
pub struct ApiError {
    pub status_code: u16,
    pub message: Vec<u8>,
}

/// The status code the translation table assigns to a failure.
pub open spec fn status_of(f: FetchFailure) -> u16 {
    match f {
        FetchFailure::Transport => 500,
        FetchFailure::UpstreamNotFound => 404,
        FetchFailure::Decode => 500,
    }
}

/// The message the translation table assigns to a failure.
pub open spec fn message_of(f: FetchFailure) -> Seq<u8> {
    match f {
        FetchFailure::Transport => lit_msg_transport(),
        FetchFailure::UpstreamNotFound => lit_msg_not_found(),
        FetchFailure::Decode => lit_msg_decode(),
    }
}

/// The fixed, exhaustive translation table: a transport failure maps to
/// 500 with the retry message, an upstream 404 maps to 404 "Not Found",
/// and a body that failed to decode maps to 500 "Internal Server Error.".
/// Nothing of the upstream response is forwarded.
pub fn translate(f: &FetchFailure) -> (e: ApiError)
    ensures
        e.status_code == status_of(*f),
        e.message@ == message_of(*f),
{
    let mut m: Vec<u8> = Vec::new();
    let status: u16;
    match f {
        FetchFailure::Transport => {
            push_msg_transport(&mut m);
            status = 500;
        },
        FetchFailure::UpstreamNotFound => {
            push_msg_not_found(&mut m);
            status = 404;
        },
        FetchFailure::Decode => {
            push_msg_decode(&mut m);
            status = 500;
        },
    }
    proof {
        assert(m@ =~= message_of(*f));
    }
    ApiError { status_code: status, message: m }
}

/// The JSON body of an error response:
/// `{"statusCode":<code>,"message":"<message>"}`.
pub open spec fn api_error_json(status_code: u16, message: Seq<u8>) -> Seq<u8> {
    lit_err_pre() + dec_digits(status_code as nat) + lit_err_mid() + json_escaped(message)
        + lit_err_end()
}

/// Renders an `ApiError` as its JSON wire body, exactly `api_error_json`.
pub fn render_api_error(e: &ApiError) -> (r: Vec<u8>)
    ensures
        r@ == api_error_json(e.status_code, e.message@),
{
    let mut out: Vec<u8> = Vec::new();
    push_err_pre(&mut out);
    push_decimal(&mut out, e.status_code as u64);
    push_err_mid(&mut out);
    push_json_escaped(&mut out, e.message.as_slice());
    push_err_end(&mut out);
    proof {
        assert(out@ =~= api_error_json(e.status_code, e.message@));
    }
    out
}

} // verus!
