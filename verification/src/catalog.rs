//! The provider catalog: the closed set of supported URL-shortening services,
//! their display domain names, and the quality-ordered ranking used for
//! fallback iteration.

use vstd::prelude::*;

verus! {

/// Used to specify which provider to use to generate a short URL.
#[derive(Clone, Copy, Debug, Eq, Hash, PartialEq, Structural)]
pub enum Provider {
    /// http://abv8.me provider
    ///
    /// Notes:
    ///
    /// * You may not shorten more than 20 unique URLs within a 3-minute period.
    /// * You may not shorten more than 60 unique URLs within a 15-minute
    ///   period.
    Abv8,
    /// https://bam.bz provider
    BamBz,
    /// http://bmeo.org provider
    Bmeo,
    /// https://bn.gy provider
    BnGy,
    /// http://fifo.cc provider
    FifoCc,
    /// https://hec.su provider
    ///
    /// Notes:
    ///
    /// * Limited to 3000 API requests per day
    HecSu,
    /// https://is.gd provider
    IsGd,
    /// http://nowlinks.net provider
    NowLinks,
    /// http://phx.co.in provider
    ///
    /// Notes:
    ///
    /// * After some time the service will display ads
    /// * Instead of redirecting, a preview page will be displayed
    /// * Currently unstable
    PhxCoIn,
    /// http://psbe.co provider
    PsbeCo,
    /// http://s.coop provider
    SCoop,
    /// http://readbility.com provider
    Rdd,
    /// http://rlu.ru provider
    ///
    /// Notes:
    ///
    /// * If you send a lot of requests from one IP, it can be blocked. If you
    ///   plan to add more than 100 URLs in one hour, please let the technical
    ///   support know. Otherwise your IP can be blocked unexpectedly. Prior
    ///   added URLs can be deleted.
    Rlu,
    /// http://sirbz.com provider
    ///
    /// Notes:
    ///
    /// * By default, you are limited to 250 requests per 15 minutes.
    SirBz,
    /// http://tinyurl.com provider
    ///
    /// Notes:
    ///
    /// * This service does not provide any API.
    /// * The implementation result depends on the service result web page.
    TinyUrl,
    /// http://tiny.ph provider
    TinyPh,
    /// http://tny.im provider
    TnyIm,
    /// https://v.gd provider
    VGd,
}

/// The domain name shown for each provider.
pub open spec fn display_name(p: Provider) -> Seq<char> {
    match p {
        Provider::Abv8 => "abv8.me"@,
        Provider::BamBz => "bam.bz"@,
        Provider::Bmeo => "bmeo.org"@,
        Provider::BnGy => "bn.gy"@,
        Provider::FifoCc => "fifo.cc"@,
        Provider::HecSu => "hec.su"@,
        Provider::IsGd => "is.gd"@,
        Provider::NowLinks => "nowlinks.net"@,
        Provider::PhxCoIn => "phx.co.in"@,
        Provider::PsbeCo => "psbe.co"@,
        Provider::SCoop => "s.coop"@,
        Provider::Rdd => "readability.com"@,
        Provider::Rlu => "rlu.ru"@,
        Provider::SirBz => "sirbz.com"@,
        Provider::TinyUrl => "tinyurl.com"@,
        Provider::TinyPh => "tiny.ph"@,
        Provider::TnyIm => "tny.im"@,
        Provider::VGd => "v.gd"@,
    }
}

/// Every provider's display name is a non-empty domain string.
pub proof fn lemma_display_names_nonempty()
    ensures
        forall|p: Provider| (#[trigger] display_name(p)).len() > 0,
{
    reveal_strlit("abv8.me");
    reveal_strlit("bam.bz");
    reveal_strlit("bmeo.org");
    reveal_strlit("bn.gy");
    reveal_strlit("fifo.cc");
    reveal_strlit("hec.su");
    reveal_strlit("is.gd");
    reveal_strlit("nowlinks.net");
    reveal_strlit("phx.co.in");
    reveal_strlit("psbe.co");
    reveal_strlit("s.coop");
    reveal_strlit("readability.com");
    reveal_strlit("rlu.ru");
    reveal_strlit("sirbz.com");
    reveal_strlit("tinyurl.com");
    reveal_strlit("tiny.ph");
    reveal_strlit("tny.im");
    reveal_strlit("v.gd");
}

impl Provider {
    /// Converts the `Provider` variant into its domain name equivalent.
    /// The name is never empty.
    pub fn to_name(&self) -> (r: &str)
        ensures
            r@ == display_name(*self),
            r@.len() > 0,
    {
        proof {
            lemma_display_names_nonempty();
            assert(display_name(*self).len() > 0);
        }
        match *self {
            Provider::Abv8 => "abv8.me",
            Provider::BamBz => "bam.bz",
            Provider::Bmeo => "bmeo.org",
            Provider::BnGy => "bn.gy",
            Provider::FifoCc => "fifo.cc",
            Provider::HecSu => "hec.su",
            Provider::IsGd => "is.gd",
            Provider::NowLinks => "nowlinks.net",
            Provider::PhxCoIn => "phx.co.in",
            Provider::PsbeCo => "psbe.co",
            Provider::SCoop => "s.coop",
            Provider::Rdd => "readability.com",
            Provider::Rlu => "rlu.ru",
            Provider::SirBz => "sirbz.com",
            Provider::TinyUrl => "tinyurl.com",
            Provider::TinyPh => "tiny.ph",
            Provider::TnyIm => "tny.im",
            Provider::VGd => "v.gd",
        }
    }
}

/// The catalog's preference order. Well-behaved providers come first, then
/// providers with occasionally slow responses, then providers that are
/// discouraged because of rate limits, missing APIs or instability, and last
/// the providers that answer with a preview page instead of a direct
/// redirect.
pub open spec fn ranking() -> Seq<Provider> {
    seq![
        Provider::IsGd,
        Provider::BnGy,
        Provider::VGd,
        Provider::Rdd,
        Provider::BamBz,
        Provider::TinyPh,
        Provider::FifoCc,
        Provider::SCoop,
        Provider::Bmeo,
        Provider::TnyIm,
        Provider::SirBz,
        Provider::Rlu,
        Provider::HecSu,
        Provider::Abv8,
        Provider::TinyUrl,
        Provider::PsbeCo,
        Provider::NowLinks,
        Provider::PhxCoIn,
    ]
}

/// The position each provider holds in the ranking.
pub open spec fn rank_of(p: Provider) -> int {
    match p {
        Provider::IsGd => 0,
        Provider::BnGy => 1,
        Provider::VGd => 2,
        Provider::Rdd => 3,
        Provider::BamBz => 4,
        Provider::TinyPh => 5,
        Provider::FifoCc => 6,
        Provider::SCoop => 7,
        Provider::Bmeo => 8,
        Provider::TnyIm => 9,
        Provider::SirBz => 10,
        Provider::Rlu => 11,
        Provider::HecSu => 12,
        Provider::Abv8 => 13,
        Provider::TinyUrl => 14,
        Provider::PsbeCo => 15,
        Provider::NowLinks => 16,
        Provider::PhxCoIn => 17,
    }
}

proof fn lemma_ranking_indexes()
    ensures
        ranking().len() == 18,
        forall|i: int| 0 <= i < 18 ==> rank_of(#[trigger] ranking()[i]) == i,
{
    assert forall|i: int| 0 <= i < 18 implies rank_of(#[trigger] ranking()[i]) == i by {
        assert(ranking()[0] == Provider::IsGd);
        assert(ranking()[1] == Provider::BnGy);
        assert(ranking()[2] == Provider::VGd);
        assert(ranking()[3] == Provider::Rdd);
        assert(ranking()[4] == Provider::BamBz);
        assert(ranking()[5] == Provider::TinyPh);
        assert(ranking()[6] == Provider::FifoCc);
        assert(ranking()[7] == Provider::SCoop);
        assert(ranking()[8] == Provider::Bmeo);
        assert(ranking()[9] == Provider::TnyIm);
        assert(ranking()[10] == Provider::SirBz);
        assert(ranking()[11] == Provider::Rlu);
        assert(ranking()[12] == Provider::HecSu);
        assert(ranking()[13] == Provider::Abv8);
        assert(ranking()[14] == Provider::TinyUrl);
        assert(ranking()[15] == Provider::PsbeCo);
        assert(ranking()[16] == Provider::NowLinks);
        assert(ranking()[17] == Provider::PhxCoIn);
    }
}

/// The catalog ranking lists every provider, and lists none of them twice:
/// each provider appears in it exactly once.
pub proof fn lemma_ranking_each_provider_once()
    ensures
        forall|p: Provider| ranking().contains(p),
        forall|i: int, j: int|
            0 <= i < j < ranking().len() ==> ranking()[i] != ranking()[j],
{
    lemma_ranking_indexes();
    assert forall|p: Provider| ranking().contains(p) by {
        assert(ranking()[rank_of(p)] == p);
    }
    assert forall|i: int, j: int|
        0 <= i < j < ranking().len() implies ranking()[i] != ranking()[j] by {
        assert(rank_of(ranking()[i]) == i);
        assert(rank_of(ranking()[j]) == j);
    }
}

/// Returns a vector of all `Provider` variants. This list is in order of
/// provider quality.
///
/// The providers which are discouraged from use - due to problems such as
/// rate limitations - are at the end of the resultant vector.
///
/// Note that some providers may not provide a generated short URL because the
/// submitted URL may already be short enough and would not benefit from
/// shortening via their service.
pub fn providers() -> (r: Vec<Provider>)
    ensures
        r@ == ranking(),
{
    let mut r: Vec<Provider> = Vec::new();
    r.push(Provider::IsGd);
    r.push(Provider::BnGy);
    r.push(Provider::VGd);
    r.push(Provider::Rdd);
    r.push(Provider::BamBz);
    r.push(Provider::TinyPh);
    r.push(Provider::FifoCc);
    r.push(Provider::SCoop);
    r.push(Provider::Bmeo);
    r.push(Provider::TnyIm);
    r.push(Provider::SirBz);
    r.push(Provider::Rlu);
    r.push(Provider::HecSu);
    r.push(Provider::Abv8);
    r.push(Provider::TinyUrl);
    r.push(Provider::PsbeCo);
    r.push(Provider::NowLinks);
    r.push(Provider::PhxCoIn);
    proof {
        assert(r@ =~= ranking());
    }
    r
}

} // verus!
