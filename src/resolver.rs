use vstd::prelude::*;
use vstd::string::*;

verus! {

/// How an IP-echo service answers.
#[derive(Clone, Copy, Debug, PartialEq, Eq, Structural)]
pub enum ResponseShape {
    /// A JSON object whose `ip` field holds the address.
    Json,
    /// The address as plain text, possibly surrounded by whitespace.
    PlainText,
}

/// An IP-echo service: where to ask and how it answers.
pub struct IpSource {
    pub url: String,
    pub shape: ResponseShape,
}

/// The services asked, in order: three JSON ones, then one plain-text fallback.
pub open spec fn source_list() -> Seq<(Seq<char>, ResponseShape)> {
    seq![
        ("https://api.ipify.org?format=json"@, ResponseShape::Json),
        ("https://httpbin.org/ip"@, ResponseShape::Json),
        ("https://api.myip.com"@, ResponseShape::Json),
        ("https://ipinfo.io/ip"@, ResponseShape::PlainText),
    ]
}

pub open spec fn sources_view(sources: Seq<IpSource>) -> Seq<(Seq<char>, ResponseShape)> {
    sources.map_values(|s: IpSource| (s.url@, s.shape))
}

fn source(url: &str, shape: ResponseShape) -> (r: IpSource)
    ensures
        r.url@ == url@,
        r.shape == shape,
{
    IpSource { url: String::from_str(url), shape }
}

/// The IP-echo services in the order they are asked.
pub fn ip_sources() -> (r: Vec<IpSource>)
    ensures
        sources_view(r@) == source_list(),
{
    let mut v: Vec<IpSource> = Vec::new();
    v.push(source("https://api.ipify.org?format=json", ResponseShape::Json));
    v.push(source("https://httpbin.org/ip", ResponseShape::Json));
    v.push(source("https://api.myip.com", ResponseShape::Json));
    v.push(source("https://ipinfo.io/ip", ResponseShape::PlainText));
    assert(sources_view(v@) =~= source_list());
    v
}

/// `part` is a contiguous run of `whole`.
pub open spec fn is_slice_of(part: Seq<char>, whole: Seq<char>) -> bool {
    exists|i: int, j: int| 0 <= i <= j <= whole.len() && part == whole.subrange(i, j)
}

/// What `str::trim` makes of a string.
pub uninterp spec fn trimmed(s: Seq<char>) -> Seq<char>;

/// Relies on `str::trim`: the string without leading and trailing whitespace,
/// a contiguous slice of its argument.
#[verifier::external_body]
fn trim_whitespace(s: &str) -> (r: String)
    ensures
        r@ == trimmed(s@),
        is_slice_of(r@, s@),
{
    s.trim().to_string()
}

/// The next step of resolving the public IP.
pub enum ResolveStep {
    /// Ask the source at this index.
    Probe(usize),
    /// The public IP is known.
    Resolved(String),
    /// Every source failed.
    Failed,
}

/// The address that `shape` makes of a source's answer `body`.
pub open spec fn address_from(shape: ResponseShape, body: Seq<char>) -> Seq<char> {
    match shape {
        ResponseShape::Json => body,
        ResponseShape::PlainText => trimmed(body),
    }
}

/// The first step: ask the first source, if there is one.
pub fn first_step(sources: &Vec<IpSource>) -> (r: ResolveStep)
    ensures
        sources@.len() > 0 ==> r == ResolveStep::Probe(0),
        sources@.len() == 0 ==> r == ResolveStep::Failed,
{
    if sources.len() > 0 {
        ResolveStep::Probe(0)
    } else {
        ResolveStep::Failed
    }
}

/// The step after source `index` answered. `answer` is what it gave: the
/// decoded `ip` field of a JSON source, or the body of a plain-text one; `None`
/// when the request or the decoding failed. An answer resolves the IP (a
/// plain-text body trimmed); a failure moves on to the next source, and
/// failure of the last one fails the whole resolution.
pub fn after_probe(sources: &Vec<IpSource>, index: usize, answer: Option<String>) -> (r: ResolveStep)
    requires
        index < sources@.len(),
    ensures
        match answer {
            Some(body) => r matches ResolveStep::Resolved(ip)
                && ip@ == address_from(sources@[index as int].shape, body@)
                && is_slice_of(ip@, body@),
            None => if index + 1 < sources@.len() {
                r == ResolveStep::Probe((index + 1) as usize)
            } else {
                r == ResolveStep::Failed
            },
        },
{
    match answer {
        Some(body) => match sources[index].shape {
            ResponseShape::Json => {
                assert(body@ == body@.subrange(0, body@.len() as int));
                ResolveStep::Resolved(body)
            },
            ResponseShape::PlainText => ResolveStep::Resolved(trim_whitespace(body.as_str())),
        },
        None => if index < sources.len() - 1 {
            ResolveStep::Probe(index + 1)
        } else {
            ResolveStep::Failed
        },
    }
}

} // verus!
