//! The dispatcher: orchestrates one "shorten this URL" attempt against a
//! chosen provider, or iterates the catalog's ranked list until one provider
//! yields a result. The HTTP transport is an injected collaborator; every
//! failure surfaces as an absent result or a tagged outcome, never as a
//! fault.

use vstd::prelude::*;

use crate::catalog::Provider;
use crate::catalog::providers;
use crate::catalog::ranking;
use crate::registry::parse;
use crate::registry::parse_spec;
use crate::request::RequestSpec;
use crate::request::build_request;

verus! {

/// The HTTP call itself failed: DNS, connection, timeout, or a status the
/// transport chose to treat as failure. Always recoverable: the dispatcher
/// skips that single provider attempt.
#[derive(Clone, Copy, Debug, Eq, PartialEq, Structural)]
pub struct TransportError;

/// The capability the dispatcher consumes: an external HTTP client that
/// performs one described request and hands back the raw response body, or
/// reports its own failure. Implementations live outside this library; the
/// dispatcher promises nothing about what a call returns and decides from
/// whatever comes back.
pub trait Transport {
    /// Performs one HTTP request and returns the raw response body.
    fn perform(&mut self, req: &RequestSpec) -> Result<String, TransportError>;
}

/// The tagged outcome of one provider attempt. The transport's own failure
/// stays observably distinct from a received response in which the
/// extraction found nothing.
#[derive(Debug, Eq, PartialEq)]
pub enum ShortenOutcome {
    /// The provider answered and a short URL was extracted from the body.
    Shortened(String),
    /// The HTTP call itself failed.
    TransportFailed,
    /// The response was received but the extraction found no match. A
    /// provider that declined to shorten looks the same.
    ExtractionMissed,
}

/// What one provider attempt yields, given what the transport reported:
/// a transport failure is `None`, a received body is parsed by the
/// provider's extraction rule.
pub open spec fn attempt_outcome(
    provider: Provider,
    response: Result<String, TransportError>,
) -> Option<Seq<char>> {
    match response {
        Ok(body) => parse_spec(provider, body@),
        Err(_) => None,
    }
}

/// Decides the tagged outcome of one provider attempt from what the
/// transport reported.
pub fn outcome_from_response(provider: Provider, response: Result<String, TransportError>) -> (r:
    ShortenOutcome)
    ensures
        match response {
            Ok(body) => (match parse_spec(provider, body@) {
                Some(u) => r matches ShortenOutcome::Shortened(s) && s@ == u,
                None => r is ExtractionMissed,
            }),
            Err(_) => r is TransportFailed,
        },
{
    match response {
        Ok(body) => match parse(body.as_str(), provider) {
            Some(s) => ShortenOutcome::Shortened(s),
            None => ShortenOutcome::ExtractionMissed,
        },
        Err(_) => ShortenOutcome::TransportFailed,
    }
}

/// Decides the result of one provider attempt from the transport's outcome.
/// A transport failure and an extraction miss both come out as `None`, an
/// ordinary outcome rather than a fault.
pub fn shorten_from_response(provider: Provider, response: Result<String, TransportError>) -> (r:
    Option<String>)
    ensures
        r.deep_view() == attempt_outcome(provider, response),
{
    match outcome_from_response(provider, response) {
        ShortenOutcome::Shortened(s) => Some(s),
        ShortenOutcome::TransportFailed => None,
        ShortenOutcome::ExtractionMissed => None,
    }
}

/// Attempts to get a short link from the specified provider, reporting the
/// failure cause: builds the provider's request, performs it through the
/// injected transport, and, if the transport call succeeded, runs the
/// provider's extraction on the response body. Any short URL it returns is
/// one the provider's extraction produced from some received body.
pub fn shorten_via_outcome<T: Transport>(
    transport: &mut T,
    long_url: &str,
    provider: Provider,
) -> (r: ShortenOutcome)
    ensures
        r matches ShortenOutcome::Shortened(u) ==> exists|body: Seq<char>|
            #[trigger] parse_spec(provider, body) == Some(u@),
{
    let req = build_request(long_url, provider);
    let response = transport.perform(&req);
    let ghost gresponse = response;
    let r = outcome_from_response(provider, response);
    proof {
        match &r {
            ShortenOutcome::Shortened(s) => {
                match gresponse {
                    Ok(body) => {
                        assert(parse_spec(provider, body@) == Some(s@));
                    },
                    Err(_) => {},
                }
            },
            _ => {},
        }
    }
    r
}

/// Attempts to get a short link from the specified provider. Both a
/// transport failure and an extraction miss surface as `None`, an ordinary
/// outcome rather than a fault; [`shorten_via_outcome`] keeps the two causes
/// apart. Any result this returns is one the provider's extraction produced
/// from some received body.
pub fn shorten_via<T: Transport>(transport: &mut T, long_url: &str, provider: Provider) -> (r:
    Option<String>)
    ensures
        r matches Some(u) ==> exists|body: Seq<char>|
            #[trigger] parse_spec(provider, body) == Some(u@),
{
    match shorten_via_outcome(transport, long_url, provider) {
        ShortenOutcome::Shortened(s) => Some(s),
        ShortenOutcome::TransportFailed => None,
        ShortenOutcome::ExtractionMissed => None,
    }
}

/// Attempts to get a short link, trying the catalog's providers in rank
/// order until one yields a result; the first success is returned together
/// with the provider that produced it. `None` when every provider is
/// exhausted: an ordinary outcome, never a fault. No retries are made
/// against a single provider.
pub fn shorten_with_fallback<T: Transport>(transport: &mut T, long_url: &str) -> (r: Option<
    (Provider, String),
>)
    ensures
        r matches Some((winner, short)) ==> ranking().contains(winner) && (exists|
            body: Seq<char>,
        |
            #[trigger] parse_spec(winner, body) == Some(short@)),
{
    let list = providers();
    let n = list.len();
    let mut k: usize = 0;
    while k < n
        invariant
            n == list@.len(),
            list@ == ranking(),
        decreases n - k,
    {
        let p = list[k];
        match shorten_via(transport, long_url, p) {
            Some(u) => {
                proof {
                    assert(ranking().contains(p)) by {
                        assert(ranking()[k as int] == p);
                    }
                    let body = choose|body: Seq<char>| parse_spec(p, body) == Some(u@);
                    assert(parse_spec(p, body) == Some(u@));
                }
                return Some((p, u));
            },
            None => {},
        }
        k += 1;
    }
    None
}

} // verus!
