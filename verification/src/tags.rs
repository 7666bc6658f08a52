use crate::errors::FetchFailure;
use crate::wire::{
    json_escaped, json_string, lit_null, pct_encoded, push_bytes, push_json_escaped,
    push_json_string, push_null, push_pct_encoded,
};
use vstd::prelude::*;

verus! {

/// One commit reference inside a tag. Text fields hold UTF-8 bytes.
#[derive(Clone, Debug, PartialEq, Eq)]
pub struct Commit {
    pub sha: Vec<u8>,
    /// Optional link to the commit.
    pub url: Option<Vec<u8>>,
    /// The upstream API never supplies this field; it documents an
    /// upstream quirk and is always rendered as `null`.
    pub absent: Option<bool>,
}

/// One repository tag, kept in upstream order. Text fields hold UTF-8
/// bytes.
#[derive(Clone, Debug, PartialEq, Eq)]
pub struct RepoTag {
    pub name: Vec<u8>,
    pub commit: Option<Commit>,
    pub zipball_url: Vec<u8>,
    pub tarball_url: Vec<u8>,
    pub node_id: Vec<u8>,
}

/// Wire text: `{"name":"`.
pub open spec fn lit_tag_pre() -> Seq<u8> {
    seq![0x7Bu8, 0x22u8, 0x6Eu8, 0x61u8, 0x6Du8, 0x65u8, 0x22u8, 0x3Au8, 0x22u8]
}

/// Appends `{"name":"`.
fn push_tag_pre(out: &mut Vec<u8>)
    ensures
        final(out)@ == old(out)@ + lit_tag_pre(),
{
    let frag: [u8; 9] = [0x7Bu8, 0x22u8, 0x6Eu8, 0x61u8, 0x6Du8, 0x65u8, 0x22u8, 0x3Au8, 0x22u8];
    push_bytes(out, frag.as_slice());
    proof {
        assert(out@ =~= old(out)@ + lit_tag_pre());
    }
}

/// Wire text: `","commit":`.
pub open spec fn lit_tag_commit() -> Seq<u8> {
    seq![0x22u8, 0x2Cu8, 0x22u8, 0x63u8, 0x6Fu8, 0x6Du8, 0x6Du8, 0x69u8, 0x74u8, 0x22u8, 0x3Au8]
}

/// Appends `","commit":`.
fn push_tag_commit(out: &mut Vec<u8>)
    ensures
        final(out)@ == old(out)@ + lit_tag_commit(),
{
    let frag: [u8; 11] = [0x22u8, 0x2Cu8, 0x22u8, 0x63u8, 0x6Fu8, 0x6Du8, 0x6Du8, 0x69u8, 0x74u8, 0x22u8, 0x3Au8];
    push_bytes(out, frag.as_slice());
    proof {
        assert(out@ =~= old(out)@ + lit_tag_commit());
    }
}

/// Wire text: `,"zipball_url":"`.
pub open spec fn lit_tag_zip() -> Seq<u8> {
    seq![0x2Cu8, 0x22u8, 0x7Au8, 0x69u8, 0x70u8, 0x62u8, 0x61u8, 0x6Cu8, 0x6Cu8, 0x5Fu8, 0x75u8, 0x72u8, 0x6Cu8, 0x22u8, 0x3Au8, 0x22u8]
}

/// Appends `,"zipball_url":"`.
fn push_tag_zip(out: &mut Vec<u8>)
    ensures
        final(out)@ == old(out)@ + lit_tag_zip(),
{
    let frag: [u8; 16] = [0x2Cu8, 0x22u8, 0x7Au8, 0x69u8, 0x70u8, 0x62u8, 0x61u8, 0x6Cu8, 0x6Cu8, 0x5Fu8, 0x75u8, 0x72u8, 0x6Cu8, 0x22u8, 0x3Au8, 0x22u8];
    push_bytes(out, frag.as_slice());
    proof {
        assert(out@ =~= old(out)@ + lit_tag_zip());
    }
}

/// Wire text: `","tarball_url":"`.
pub open spec fn lit_tag_tar() -> Seq<u8> {
    seq![0x22u8, 0x2Cu8, 0x22u8, 0x74u8, 0x61u8, 0x72u8, 0x62u8, 0x61u8, 0x6Cu8, 0x6Cu8, 0x5Fu8, 0x75u8, 0x72u8, 0x6Cu8, 0x22u8, 0x3Au8, 0x22u8]
}

/// Appends `","tarball_url":"`.
fn push_tag_tar(out: &mut Vec<u8>)
    ensures
        final(out)@ == old(out)@ + lit_tag_tar(),
{
    let frag: [u8; 17] = [0x22u8, 0x2Cu8, 0x22u8, 0x74u8, 0x61u8, 0x72u8, 0x62u8, 0x61u8, 0x6Cu8, 0x6Cu8, 0x5Fu8, 0x75u8, 0x72u8, 0x6Cu8, 0x22u8, 0x3Au8, 0x22u8];
    push_bytes(out, frag.as_slice());
    proof {
        assert(out@ =~= old(out)@ + lit_tag_tar());
    }
}

/// Wire text: `","node_id":"`.
pub open spec fn lit_tag_node() -> Seq<u8> {
    seq![0x22u8, 0x2Cu8, 0x22u8, 0x6Eu8, 0x6Fu8, 0x64u8, 0x65u8, 0x5Fu8, 0x69u8, 0x64u8, 0x22u8, 0x3Au8, 0x22u8]
}

/// Appends `","node_id":"`.
fn push_tag_node(out: &mut Vec<u8>)
    ensures
        final(out)@ == old(out)@ + lit_tag_node(),
{
    let frag: [u8; 13] = [0x22u8, 0x2Cu8, 0x22u8, 0x6Eu8, 0x6Fu8, 0x64u8, 0x65u8, 0x5Fu8, 0x69u8, 0x64u8, 0x22u8, 0x3Au8, 0x22u8];
    push_bytes(out, frag.as_slice());
    proof {
        assert(out@ =~= old(out)@ + lit_tag_node());
    }
}

/// Wire text: `"}`.
pub open spec fn lit_tag_end() -> Seq<u8> {
    seq![0x22u8, 0x7Du8]
}

/// Appends `"}`.
fn push_tag_end(out: &mut Vec<u8>)
    ensures
        final(out)@ == old(out)@ + lit_tag_end(),
{
    let frag: [u8; 2] = [0x22u8, 0x7Du8];
    push_bytes(out, frag.as_slice());
    proof {
        assert(out@ =~= old(out)@ + lit_tag_end());
    }
}

/// Wire text: `{"sha":"`.
pub open spec fn lit_commit_pre() -> Seq<u8> {
    seq![0x7Bu8, 0x22u8, 0x73u8, 0x68u8, 0x61u8, 0x22u8, 0x3Au8, 0x22u8]
}

/// Appends `{"sha":"`.
fn push_commit_pre(out: &mut Vec<u8>)
    ensures
        final(out)@ == old(out)@ + lit_commit_pre(),
{
    let frag: [u8; 8] = [0x7Bu8, 0x22u8, 0x73u8, 0x68u8, 0x61u8, 0x22u8, 0x3Au8, 0x22u8];
    push_bytes(out, frag.as_slice());
    proof {
        assert(out@ =~= old(out)@ + lit_commit_pre());
    }
}

/// Wire text: `","url":`.
pub open spec fn lit_commit_url() -> Seq<u8> {
    seq![0x22u8, 0x2Cu8, 0x22u8, 0x75u8, 0x72u8, 0x6Cu8, 0x22u8, 0x3Au8]
}

/// Appends `","url":`.
fn push_commit_url(out: &mut Vec<u8>)
    ensures
        final(out)@ == old(out)@ + lit_commit_url(),
{
    let frag: [u8; 8] = [0x22u8, 0x2Cu8, 0x22u8, 0x75u8, 0x72u8, 0x6Cu8, 0x22u8, 0x3Au8];
    push_bytes(out, frag.as_slice());
    proof {
        assert(out@ =~= old(out)@ + lit_commit_url());
    }
}

/// Wire text: `,"absent":`.
pub open spec fn lit_commit_absent() -> Seq<u8> {
    seq![0x2Cu8, 0x22u8, 0x61u8, 0x62u8, 0x73u8, 0x65u8, 0x6Eu8, 0x74u8, 0x22u8, 0x3Au8]
}

/// Appends `,"absent":`.
fn push_commit_absent(out: &mut Vec<u8>)
    ensures
        final(out)@ == old(out)@ + lit_commit_absent(),
{
    let frag: [u8; 10] = [0x2Cu8, 0x22u8, 0x61u8, 0x62u8, 0x73u8, 0x65u8, 0x6Eu8, 0x74u8, 0x22u8, 0x3Au8];
    push_bytes(out, frag.as_slice());
    proof {
        assert(out@ =~= old(out)@ + lit_commit_absent());
    }
}

/// Wire text: `https://api.github.com/repos/`.
pub open spec fn lit_url_head() -> Seq<u8> {
    seq![0x68u8, 0x74u8, 0x74u8, 0x70u8, 0x73u8, 0x3Au8, 0x2Fu8, 0x2Fu8, 0x61u8, 0x70u8, 0x69u8, 0x2Eu8, 0x67u8, 0x69u8, 0x74u8, 0x68u8, 0x75u8, 0x62u8, 0x2Eu8, 0x63u8, 0x6Fu8, 0x6Du8, 0x2Fu8, 0x72u8, 0x65u8, 0x70u8, 0x6Fu8, 0x73u8, 0x2Fu8]
}

/// Appends `https://api.github.com/repos/`.
fn push_url_head(out: &mut Vec<u8>)
    ensures
        final(out)@ == old(out)@ + lit_url_head(),
{
    let frag: [u8; 29] = [0x68u8, 0x74u8, 0x74u8, 0x70u8, 0x73u8, 0x3Au8, 0x2Fu8, 0x2Fu8, 0x61u8, 0x70u8, 0x69u8, 0x2Eu8, 0x67u8, 0x69u8, 0x74u8, 0x68u8, 0x75u8, 0x62u8, 0x2Eu8, 0x63u8, 0x6Fu8, 0x6Du8, 0x2Fu8, 0x72u8, 0x65u8, 0x70u8, 0x6Fu8, 0x73u8, 0x2Fu8];
    push_bytes(out, frag.as_slice());
    proof {
        assert(out@ =~= old(out)@ + lit_url_head());
    }
}

/// Wire text: `/tags`.
pub open spec fn lit_url_tail() -> Seq<u8> {
    seq![0x2Fu8, 0x74u8, 0x61u8, 0x67u8, 0x73u8]
}

/// Appends `/tags`.
fn push_url_tail(out: &mut Vec<u8>)
    ensures
        final(out)@ == old(out)@ + lit_url_tail(),
{
    let frag: [u8; 5] = [0x2Fu8, 0x74u8, 0x61u8, 0x67u8, 0x73u8];
    push_bytes(out, frag.as_slice());
    proof {
        assert(out@ =~= old(out)@ + lit_url_tail());
    }
}

/// A JSON string for `o`, or `null` when it is absent.
pub open spec fn json_opt_string(o: Option<Vec<u8>>) -> Seq<u8> {
    match o {
        Option::Some(s) => json_string(s@),
        Option::None => lit_null(),
    }
}

/// The JSON object for one commit:
/// `{"sha":"...","url":<string or null>,"absent":null}`. The `absent`
/// field is always `null`, whatever the value carries.
pub open spec fn json_commit(c: Commit) -> Seq<u8> {
    lit_commit_pre() + json_escaped(c.sha@) + lit_commit_url() + json_opt_string(c.url)
        + lit_commit_absent() + lit_null() + seq![0x7Du8]
}

/// The JSON object for one tag, every field present, in the fixed order
/// `name`, `commit`, `zipball_url`, `tarball_url`, `node_id`.
pub open spec fn json_tag(t: RepoTag) -> Seq<u8> {
    lit_tag_pre() + json_escaped(t.name@) + lit_tag_commit() + (match t.commit {
        Option::Some(c) => json_commit(c),
        Option::None => lit_null(),
    }) + lit_tag_zip() + json_escaped(t.zipball_url@) + lit_tag_tar() + json_escaped(
        t.tarball_url@,
    ) + lit_tag_node() + json_escaped(t.node_id@) + lit_tag_end()
}

/// The tag objects joined by commas, upstream order preserved.
pub open spec fn json_tags_inner(ts: Seq<RepoTag>) -> Seq<u8>
    decreases ts.len(),
{
    if ts.len() == 0 {
        Seq::empty()
    } else if ts.len() == 1 {
        json_tag(ts[0])
    } else {
        json_tags_inner(ts.drop_last()) + seq![0x2Cu8] + json_tag(ts.last())
    }
}

/// The JSON array of tags: brackets around `json_tags_inner`.
pub open spec fn json_tags(ts: Seq<RepoTag>) -> Seq<u8> {
    seq![0x5Bu8] + json_tags_inner(ts) + seq![0x5Du8]
}

fn push_commit(out: &mut Vec<u8>, c: &Commit)
    ensures
        final(out)@ == old(out)@ + json_commit(*c),
{
    push_commit_pre(out);
    push_json_escaped(out, c.sha.as_slice());
    push_commit_url(out);
    match &c.url {
        Option::Some(u) => push_json_string(out, u.as_slice()),
        Option::None => push_null(out),
    }
    push_commit_absent(out);
    push_null(out);
    out.push(0x7D);
    proof {
        assert(out@ =~= old(out)@ + json_commit(*c));
    }
}

fn push_tag(out: &mut Vec<u8>, t: &RepoTag)
    ensures
        final(out)@ == old(out)@ + json_tag(*t),
{
    push_tag_pre(out);
    push_json_escaped(out, t.name.as_slice());
    push_tag_commit(out);
    match &t.commit {
        Option::Some(c) => push_commit(out, c),
        Option::None => push_null(out),
    }
    push_tag_zip(out);
    push_json_escaped(out, t.zipball_url.as_slice());
    push_tag_tar(out);
    push_json_escaped(out, t.tarball_url.as_slice());
    push_tag_node(out);
    push_json_escaped(out, t.node_id.as_slice());
    push_tag_end(out);
    proof {
        assert(out@ =~= old(out)@ + json_tag(*t));
    }
}

/// Renders the success body for the tags proxy: the JSON array of tags,
/// upstream order and every field preserved.
pub fn render_tags(tags: &Vec<RepoTag>) -> (r: Vec<u8>)
    ensures
        r@ == json_tags(tags@),
{
    let mut out: Vec<u8> = Vec::new();
    out.push(0x5B);
    let mut i: usize = 0;
    while i < tags.len()
        invariant
            i <= tags@.len(),
            out@ == seq![0x5Bu8] + json_tags_inner(tags@.take(i as int)),
        decreases tags@.len() - i,
    {
        if i > 0 {
            out.push(0x2C);
        }
        push_tag(&mut out, &tags[i]);
        proof {
            assert(tags@.take((i + 1) as int).drop_last() =~= tags@.take(i as int));
            assert(tags@.take((i + 1) as int).last() == tags@[i as int]);
            assert(out@ =~= seq![0x5Bu8] + json_tags_inner(tags@.take((i + 1) as int)));
        }
        i = i + 1;
    }
    out.push(0x5D);
    proof {
        assert(tags@.take(tags@.len() as int) =~= tags@);
        assert(out@ =~= json_tags(tags@));
    }
    out
}

/// The upstream URL for a tags fetch:
/// `https://api.github.com/repos/{username}/{repo}/tags`, with both path
/// segments percent-encoded.
pub open spec fn tags_url_spec(username: Seq<u8>, repo: Seq<u8>) -> Seq<u8> {
    lit_url_head() + pct_encoded(username) + seq![0x2Fu8] + pct_encoded(repo) + lit_url_tail()
}

/// Builds the upstream tags URL from the two path-segment values.
pub fn tags_url(username: &[u8], repo: &[u8]) -> (r: Vec<u8>)
    ensures
        r@ == tags_url_spec(username@, repo@),
{
    let mut out: Vec<u8> = Vec::new();
    push_url_head(&mut out);
    push_pct_encoded(&mut out, username);
    out.push(0x2F);
    push_pct_encoded(&mut out, repo);
    push_url_tail(&mut out);
    proof {
        assert(out@ =~= tags_url_spec(username@, repo@));
    }
    out
}

/// What one attempted upstream call produced, as seen once the transport
/// and the body decode are done: either no HTTP response at all, or a
/// status code with the result of decoding the body as a tag array
/// (`None` when the body does not decode as one).
pub enum FetchOutcome {
    Transport,
    Response { status: u16, tags: Option<Vec<RepoTag>> },
}

/// The spec-level image of an interpreted outcome.
pub open spec fn verdict_of(o: FetchOutcome) -> Result<Seq<RepoTag>, FetchFailure> {
    match o {
        FetchOutcome::Transport => Result::Err(FetchFailure::Transport),
        FetchOutcome::Response { status, tags } => if status == 404 {
            Result::Err(FetchFailure::UpstreamNotFound)
        } else {
            match tags {
                Option::Some(ts) => Result::Ok(ts@),
                Option::None => Result::Err(FetchFailure::Decode),
            }
        },
    }
}

/// The spec-level image of a fetch result.
pub open spec fn fetch_result_view(r: Result<Vec<RepoTag>, FetchFailure>) -> Result<
    Seq<RepoTag>,
    FetchFailure,
> {
    match r {
        Result::Ok(ts) => Result::Ok(ts@),
        Result::Err(f) => Result::Err(f),
    }
}

/// Decides the fetch result for an upstream outcome, one attempt, no
/// retry: a transport failure stays a transport failure; an upstream 404
/// is reported as not found whatever the body held; any other status with
/// a body that did not decode is a decode failure; otherwise the decoded
/// tags are returned unchanged, upstream order preserved.
pub fn interpret_outcome(o: FetchOutcome) -> (r: Result<Vec<RepoTag>, FetchFailure>)
    ensures
        fetch_result_view(r) == verdict_of(o),
{
    match o {
        FetchOutcome::Transport => Result::Err(FetchFailure::Transport),
        FetchOutcome::Response { status, tags } => {
            if status == 404 {
                Result::Err(FetchFailure::UpstreamNotFound)
            } else {
                match tags {
                    Option::Some(ts) => Result::Ok(ts),
                    Option::None => Result::Err(FetchFailure::Decode),
                }
            }
        },
    }
}

} // verus!
