//! The provider registry's request side: deterministically builds, for each
//! provider, the description of the HTTP call that submits a long URL to it.
//! Performing the call is the transport's business, not this module's.

use vstd::prelude::*;
use vstd::string::*;

use crate::catalog::Provider;

verus! {

/// The HTTP verb a request uses.
#[derive(Clone, Copy, Debug, Eq, PartialEq, Structural)]
pub enum Method {
    Get,
    Post,
}

/// The description of one HTTP call to one provider: verb, target URL with
/// the long URL embedded, optional form body, and whether the body is to be
/// sent with a form content-type header. The caller is responsible for
/// URL-percent-encoding the long URL beforehand.
#[derive(Debug)]
pub struct RequestSpec {
    pub method: Method,
    pub url: String,
    pub body: Option<String>,
    pub form_encoded: bool,
}

/// The mathematical image of a `RequestSpec`.
#[verifier::ext_equal]
pub struct RequestSpecView {
    pub method: Method,
    pub url: Seq<char>,
    pub body: Option<Seq<char>>,
    pub form_encoded: bool,
}

impl View for RequestSpec {
    type V = RequestSpecView;

    open spec fn view(&self) -> RequestSpecView {
        RequestSpecView {
            method: self.method,
            url: self.url@,
            body: self.body.deep_view(),
            form_encoded: self.form_encoded,
        }
    }
}

/// A GET request: the whole call is carried by the URL.
pub open spec fn get_request(url: Seq<char>) -> RequestSpecView {
    RequestSpecView { method: Method::Get, url: url, body: None, form_encoded: false }
}

/// A POST request with a body, optionally flagged as form-encoded.
pub open spec fn post_request(url: Seq<char>, body: Seq<char>, form_encoded: bool) -> RequestSpecView {
    RequestSpecView { method: Method::Post, url: url, body: Some(body), form_encoded: form_encoded }
}

/// The documented endpoint shape of each provider, with the long URL
/// embedded.
pub open spec fn build_request_spec(p: Provider, long_url: Seq<char>) -> RequestSpecView {
    match p {
        Provider::Abv8 => get_request("http://abv8.me/?url="@ + long_url),
        Provider::BamBz => post_request("https://bam.bz/api/short"@, "target="@ + long_url, true),
        Provider::Bmeo => get_request("http://bmeo.org/api.php?url="@ + long_url),
        Provider::BnGy => get_request("https://bn.gy/API.asmx/CreateUrl?real_url="@ + long_url),
        Provider::FifoCc => get_request("https://fifo.cc/api/v2?url="@ + long_url),
        Provider::HecSu => get_request("https://hec.su/api?url="@ + long_url + "&method=xml"@),
        Provider::IsGd => get_request("https://is.gd/create.php?format=simple&url="@ + long_url),
        Provider::NowLinks => get_request("http://nowlinks.net/api?url="@ + long_url),
        Provider::PhxCoIn => get_request("http://phx.co.in/shrink.asp?url="@ + long_url),
        Provider::PsbeCo => get_request("http://psbe.co/API.asmx/CreateUrl?real_url="@ + long_url),
        Provider::SCoop => get_request(
            "http://s.coop/devapi.php?action=shorturl&url="@ + long_url + "&format=RETURN"@,
        ),
        Provider::Rdd => post_request(
            "https://readability.com/api/shortener/v1/urls"@,
            "url="@ + long_url,
            false,
        ),
        Provider::Rlu => get_request("http://rlu.ru/index.sema?a=api&link="@ + long_url),
        Provider::SirBz => post_request("http://sirbz.com/api/shorten_url"@, "url="@ + long_url, true),
        Provider::TinyUrl => get_request("http://tinyurl.com/create.php?url="@ + long_url),
        Provider::TinyPh => post_request("http://tiny.ph/api/url/create"@, "url="@ + long_url, true),
        Provider::TnyIm => get_request("http://tny.im/yourls-api.php?action=shorturl&url="@ + long_url),
        Provider::VGd => get_request("http://v.gd/create.php?format=simple&url="@ + long_url),
    }
}

fn get_req(prefix: &str, long_url: &str) -> (r: RequestSpec)
    ensures
        r@ == get_request(prefix@ + long_url@),
{
    let r = RequestSpec {
        method: Method::Get,
        url: String::from_str(prefix).concat(long_url),
        body: None,
        form_encoded: false,
    };
    proof {
        assert(r@ =~= get_request(prefix@ + long_url@));
    }
    r
}

fn get_req_wrapped(prefix: &str, long_url: &str, suffix: &str) -> (r: RequestSpec)
    ensures
        r@ == get_request(prefix@ + long_url@ + suffix@),
{
    let r = RequestSpec {
        method: Method::Get,
        url: String::from_str(prefix).concat(long_url).concat(suffix),
        body: None,
        form_encoded: false,
    };
    proof {
        assert(r@ =~= get_request(prefix@ + long_url@ + suffix@));
    }
    r
}

fn post_req(url: &str, body_prefix: &str, long_url: &str, form_encoded: bool) -> (r: RequestSpec)
    ensures
        r@ == post_request(url@, body_prefix@ + long_url@, form_encoded),
{
    let r = RequestSpec {
        method: Method::Post,
        url: String::from_str(url),
        body: Some(String::from_str(body_prefix).concat(long_url)),
        form_encoded: form_encoded,
    };
    proof {
        assert(r@ =~= post_request(url@, body_prefix@ + long_url@, form_encoded));
    }
    r
}

/// Builds the request description for submitting `long_url` (already
/// percent-encoded by the caller) to the given provider. Pure string
/// construction: it never fails.
pub fn build_request(long_url: &str, provider: Provider) -> (r: RequestSpec)
    ensures
        r@ == build_request_spec(provider, long_url@),
{
    match provider {
        Provider::Abv8 => get_req("http://abv8.me/?url=", long_url),
        Provider::BamBz => post_req("https://bam.bz/api/short", "target=", long_url, true),
        Provider::Bmeo => get_req("http://bmeo.org/api.php?url=", long_url),
        Provider::BnGy => get_req("https://bn.gy/API.asmx/CreateUrl?real_url=", long_url),
        Provider::FifoCc => get_req("https://fifo.cc/api/v2?url=", long_url),
        Provider::HecSu => get_req_wrapped("https://hec.su/api?url=", long_url, "&method=xml"),
        Provider::IsGd => get_req("https://is.gd/create.php?format=simple&url=", long_url),
        Provider::NowLinks => get_req("http://nowlinks.net/api?url=", long_url),
        Provider::PhxCoIn => get_req("http://phx.co.in/shrink.asp?url=", long_url),
        Provider::PsbeCo => get_req("http://psbe.co/API.asmx/CreateUrl?real_url=", long_url),
        Provider::SCoop => get_req_wrapped(
            "http://s.coop/devapi.php?action=shorturl&url=",
            long_url,
            "&format=RETURN",
        ),
        Provider::Rdd => post_req("https://readability.com/api/shortener/v1/urls", "url=", long_url, false),
        Provider::Rlu => get_req("http://rlu.ru/index.sema?a=api&link=", long_url),
        Provider::SirBz => post_req("http://sirbz.com/api/shorten_url", "url=", long_url, true),
        Provider::TinyUrl => get_req("http://tinyurl.com/create.php?url=", long_url),
        Provider::TinyPh => post_req("http://tiny.ph/api/url/create", "url=", long_url, true),
        Provider::TnyIm => get_req("http://tny.im/yourls-api.php?action=shorturl&url=", long_url),
        Provider::VGd => get_req("http://v.gd/create.php?format=simple&url=", long_url),
    }
}

} // verus!
