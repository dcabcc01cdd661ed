use urlshortener::Provider;
use urlshortener::RequestSpec;
use urlshortener::ShortenOutcome;
use urlshortener::Transport;
use urlshortener::TransportError;
use urlshortener::outcome_from_response;
use urlshortener::providers;
use urlshortener::shorten_from_response;
use urlshortener::shorten_via;
use urlshortener::shorten_via_outcome;
use urlshortener::shorten_with_fallback;

/// A transport whose every call fails.
struct FailingTransport {
    calls: usize,
}

impl Transport for FailingTransport {
    fn perform(&mut self, _req: &RequestSpec) -> Result<String, TransportError> {
        self.calls += 1;
        Err(TransportError)
    }
}

/// A deterministic transport that always hands back the same body.
struct FixedTransport {
    body: String,
}

impl Transport for FixedTransport {
    fn perform(&mut self, _req: &RequestSpec) -> Result<String, TransportError> {
        Ok(self.body.clone())
    }
}

/// A transport that fails every call except the one with the given index.
struct NthCallTransport {
    calls: usize,
    succeed_on: usize,
    body: String,
}

impl Transport for NthCallTransport {
    fn perform(&mut self, _req: &RequestSpec) -> Result<String, TransportError> {
        let index = self.calls;
        self.calls += 1;
        if index == self.succeed_on {
            Ok(self.body.clone())
        } else {
            Err(TransportError)
        }
    }
}

#[test]
fn shorten_via_is_none_on_transport_failure() {
    let mut transport = FailingTransport { calls: 0 };
    assert_eq!(
        shorten_via(&mut transport, "http://example.com/a", Provider::IsGd),
        None
    );
    assert_eq!(transport.calls, 1);
}

#[test]
fn shorten_via_is_none_on_extraction_miss() {
    let mut transport = FixedTransport {
        body: "a body without the expected tag".to_string(),
    };
    assert_eq!(
        shorten_via(&mut transport, "http://example.com/a", Provider::BnGy),
        None
    );
}

#[test]
fn shorten_via_returns_extracted_url() {
    let mut transport = FixedTransport {
        body: "<ShortenedUrl>http://bn.gy/7</ShortenedUrl>".to_string(),
    };
    assert_eq!(
        shorten_via(&mut transport, "http://example.com/a", Provider::BnGy),
        Some("http://bn.gy/7".to_string())
    );
}

#[test]
fn shorten_from_response_decides_from_the_outcome() {
    assert_eq!(shorten_from_response(Provider::IsGd, Err(TransportError)), None);
    assert_eq!(
        shorten_from_response(Provider::BnGy, Ok("no tag here".to_string())),
        None
    );
    assert_eq!(
        shorten_from_response(Provider::IsGd, Ok("http://is.gd/w".to_string())),
        Some("http://is.gd/w".to_string())
    );
}

#[test]
fn outcome_keeps_the_failure_causes_apart() {
    assert_eq!(
        outcome_from_response(Provider::BnGy, Err(TransportError)),
        ShortenOutcome::TransportFailed
    );
    assert_eq!(
        outcome_from_response(Provider::BnGy, Ok("no tag here".to_string())),
        ShortenOutcome::ExtractionMissed
    );
    assert_eq!(
        outcome_from_response(Provider::IsGd, Ok("http://is.gd/q".to_string())),
        ShortenOutcome::Shortened("http://is.gd/q".to_string())
    );
}

#[test]
fn shorten_via_outcome_tags_a_transport_failure() {
    let mut transport = FailingTransport { calls: 0 };
    assert_eq!(
        shorten_via_outcome(&mut transport, "http://example.com/a", Provider::IsGd),
        ShortenOutcome::TransportFailed
    );
    let mut transport = FixedTransport {
        body: "a body without the expected tag".to_string(),
    };
    assert_eq!(
        shorten_via_outcome(&mut transport, "http://example.com/a", Provider::BnGy),
        ShortenOutcome::ExtractionMissed
    );
}

#[test]
fn fallback_stops_at_the_first_ranked_success() {
    // Only the third-ranked provider answers; the ranking starts
    // is.gd, bn.gy, v.gd, so v.gd wins and nothing after it is tried.
    let mut transport = NthCallTransport {
        calls: 0,
        succeed_on: 2,
        body: "http://v.gd/Z".to_string(),
    };
    let got = shorten_with_fallback(&mut transport, "http://example.com/a");
    assert_eq!(got, Some((Provider::VGd, "http://v.gd/Z".to_string())));
    assert_eq!(transport.calls, 3);
}

#[test]
fn fallback_is_none_when_every_provider_fails() {
    let mut transport = FailingTransport { calls: 0 };
    assert_eq!(shorten_with_fallback(&mut transport, "http://example.com/a"), None);
    assert_eq!(transport.calls, providers().len());
}

#[test]
fn shorten_via_is_deterministic_for_a_deterministic_transport() {
    let mut transport = FixedTransport {
        body: "http://is.gd/w8".to_string(),
    };
    let first = shorten_via(&mut transport, "http://example.com/a", Provider::IsGd);
    let second = shorten_via(&mut transport, "http://example.com/a", Provider::IsGd);
    assert_eq!(first, second);
    assert_eq!(first, Some("http://is.gd/w8".to_string()));
}
