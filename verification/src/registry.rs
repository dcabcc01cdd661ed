//! The provider registry's parsing side: binds each provider to the
//! extraction rule that pulls the short URL out of that provider's raw
//! response body.

use vstd::prelude::*;

use crate::catalog::Provider;
use crate::extract::delimited_spec;
use crate::extract::extract_between;
use crate::extract::extract_keyed;
use crate::extract::keyed_spec;
use crate::extract::passthrough;
use crate::extract::passthrough_spec;

verus! {

/// The extraction rule bound to a provider: which strategy to run and the
/// string parameters to run it with.
pub enum ExtractionRule {
    /// The whole response body is the short URL.
    Passthrough,
    /// The short URL sits strictly between these two delimiters.
    Delimited(&'static str, &'static str),
    /// The short URL is the first quoted value after this quoted field name,
    /// with the second string put in front of it.
    Keyed(&'static str, &'static str),
}

/// What a rule extracts from a response body.
pub open spec fn apply_rule(rule: ExtractionRule, s: Seq<char>) -> Option<Seq<char>> {
    match rule {
        ExtractionRule::Passthrough => passthrough_spec(s),
        ExtractionRule::Delimited(opening, closing) => delimited_spec(s, opening@, closing@),
        ExtractionRule::Keyed(field, prefix) => keyed_spec(s, field@, prefix@),
    }
}

/// What each provider's extraction yields on a response body `s`.
pub open spec fn parse_spec(p: Provider, s: Seq<char>) -> Option<Seq<char>> {
    match p {
        Provider::Abv8 => passthrough_spec(s),
        Provider::BamBz => keyed_spec(s, "url"@, ""@),
        Provider::Bmeo => keyed_spec(s, "short"@, ""@),
        Provider::BnGy => delimited_spec(s, "<ShortenedUrl>"@, "</ShortenedUrl>"@),
        Provider::FifoCc => keyed_spec(s, "shortner"@, "http://fifo.cc/"@),
        Provider::HecSu => delimited_spec(s, "<short>"@, "</short>"@),
        Provider::IsGd => passthrough_spec(s),
        Provider::NowLinks => passthrough_spec(s),
        Provider::PhxCoIn => passthrough_spec(s),
        Provider::PsbeCo => delimited_spec(s, "<ShortUrl>"@, "</ShortUrl>"@),
        Provider::SCoop => passthrough_spec(s),
        Provider::Rdd => keyed_spec(s, "rdd_url"@, ""@),
        Provider::Rlu => passthrough_spec(s),
        Provider::SirBz => keyed_spec(s, "short_link"@, ""@),
        Provider::TinyUrl => delimited_spec(s, "data-clipboard-text=\""@, "\">"@),
        Provider::TinyPh => keyed_spec(s, "hash"@, "http://tiny.ph/"@),
        Provider::TnyIm => delimited_spec(s, "<shorturl>"@, "</shorturl>"@),
        Provider::VGd => passthrough_spec(s),
    }
}

/// The registry's static configuration: the extraction rule bound to each
/// provider. The rule extracts exactly what `parse_spec` describes.
pub fn rule_for(provider: Provider) -> (r: ExtractionRule)
    ensures
        forall|s: Seq<char>| #[trigger] apply_rule(r, s) == parse_spec(provider, s),
{
    match provider {
        Provider::Abv8 => ExtractionRule::Passthrough,
        Provider::BamBz => ExtractionRule::Keyed("url", ""),
        Provider::Bmeo => ExtractionRule::Keyed("short", ""),
        Provider::BnGy => ExtractionRule::Delimited("<ShortenedUrl>", "</ShortenedUrl>"),
        Provider::FifoCc => ExtractionRule::Keyed("shortner", "http://fifo.cc/"),
        Provider::HecSu => ExtractionRule::Delimited("<short>", "</short>"),
        Provider::IsGd => ExtractionRule::Passthrough,
        Provider::NowLinks => ExtractionRule::Passthrough,
        Provider::PhxCoIn => ExtractionRule::Passthrough,
        Provider::PsbeCo => ExtractionRule::Delimited("<ShortUrl>", "</ShortUrl>"),
        Provider::SCoop => ExtractionRule::Passthrough,
        Provider::Rdd => ExtractionRule::Keyed("rdd_url", ""),
        Provider::Rlu => ExtractionRule::Passthrough,
        Provider::SirBz => ExtractionRule::Keyed("short_link", ""),
        Provider::TinyUrl => ExtractionRule::Delimited("data-clipboard-text=\"", "\">"),
        Provider::TinyPh => ExtractionRule::Keyed("hash", "http://tiny.ph/"),
        Provider::TnyIm => ExtractionRule::Delimited("<shorturl>", "</shorturl>"),
        Provider::VGd => ExtractionRule::Passthrough,
    }
}

/// Parses the response from a successful request to a provider into the
/// URL-shortened string.
pub fn parse(res: &str, provider: Provider) -> (r: Option<String>)
    ensures
        r.deep_view() == parse_spec(provider, res@),
{
    let rule = rule_for(provider);
    proof {
        assert(apply_rule(rule, res@) == parse_spec(provider, res@));
    }
    match rule {
        ExtractionRule::Passthrough => passthrough(res),
        ExtractionRule::Delimited(opening, closing) => extract_between(res, opening, closing),
        ExtractionRule::Keyed(field, prefix) => extract_keyed(res, field, prefix),
    }
}

} // verus!
