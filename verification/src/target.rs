//! Where a request goes: the parts of its URL, as `url::Url` reads them.

use url::Url;
use vstd::prelude::*;

verus! {

/// The parts of a URL that a request needs.
#[derive(Clone, Debug, PartialEq, Eq)]
pub struct Target {
    /// The host, as it stands in the URL.
    pub host: String,
    /// The port: that of the URL, or the default of its scheme.
    pub port: u16,
    /// The path, starting with a slash.
    pub path: String,
    /// The query, without the question mark, if there is one.
    pub query: Option<String>,
}

/// A target as plain values.
pub struct TargetView {
    pub host: Seq<char>,
    pub port: u16,
    pub path: Seq<char>,
    pub query: Option<Seq<char>>,
}

impl View for Target {
    type V = TargetView;

    open spec fn view(&self) -> TargetView {
        TargetView {
            host: self.host@,
            port: self.port,
            path: self.path@,
            query: match self.query {
                Some(q) => Some(q@),
                None => None,
            },
        }
    }
}

/// What `url::Url::parse` makes of a text: the host, the port or the
/// default port of the scheme, the path and the query of the URL; `None`
/// where the text is no absolute URL, or the URL has no host or no port
/// that is known.
pub uninterp spec fn url_target(text: Seq<char>) -> Option<TargetView>;

/// Reads a URL with `url::Url::parse` and takes its parts out with
/// `host_str`, `port_or_known_default`, `path` and `query`.
#[verifier::external_body]
fn parse_target(text: &str) -> (r: Option<Target>)
    ensures
        match r {
            Some(target) => url_target(text@) == Some(target@),
            None => url_target(text@) is None,
        },
{
    match Url::parse(text) {
        Ok(url) => match (url.host_str(), url.port_or_known_default()) {
            (Some(host), Some(port)) => Some(
                Target {
                    host: host.to_owned(),
                    port,
                    path: url.path().to_owned(),
                    query: url.query().map(|q| q.to_owned()),
                },
            ),
            _ => None,
        },
        Err(_) => None,
    }
}

/// The URL of an endpoint of the speed test service, with a query if one
/// is given.
pub open spec fn url_text(endpoint: Seq<char>, query: Option<Seq<char>>) -> Seq<char> {
    "https://speed.cloudflare.com/"@ + endpoint + match query {
        Some(q) => "?"@ + q,
        None => Seq::empty(),
    }
}

/// A query taken as plain text, if there is one.
pub open spec fn query_text(query: Option<&str>) -> Option<Seq<char>> {
    match query {
        Some(q) => Some(q@),
        None => None,
    }
}

/// The target of a request to an endpoint of the speed test service: the
/// parts of the URL made of the base of the service, a slash, the
/// endpoint and, after a question mark, the query if one is given.
pub fn request_target(endpoint: &str, query: Option<&str>) -> (r: Option<Target>)
    ensures
        match r {
            Some(target) => url_target(url_text(endpoint@, query_text(query))) == Some(target@),
            None => url_target(url_text(endpoint@, query_text(query))) is None,
        },
{
    let mut text = "https://speed.cloudflare.com/".to_owned();
    text.append(endpoint);
    match query {
        Some(q) => {
            text.append("?");
            text.append(q);
        },
        None => {
            assert(text@ + Seq::<char>::empty() =~= text@);
        },
    }
    assert(text@ =~= url_text(endpoint@, query_text(query)));
    parse_target(text.as_str())
}

} // verus!
