use urlshortener::Provider;
use urlshortener::providers;

#[test]
fn display_names_are_nonempty() {
    for p in providers() {
        assert!(!p.to_name().is_empty());
    }
}

#[test]
fn display_names_match_domains() {
    assert_eq!(Provider::IsGd.to_name(), "is.gd");
    assert_eq!(Provider::Abv8.to_name(), "abv8.me");
    assert_eq!(Provider::BamBz.to_name(), "bam.bz");
    assert_eq!(Provider::Rdd.to_name(), "readability.com");
    assert_eq!(Provider::TinyUrl.to_name(), "tinyurl.com");
    assert_eq!(Provider::PhxCoIn.to_name(), "phx.co.in");
    assert_eq!(Provider::VGd.to_name(), "v.gd");
}

#[test]
fn providers_ranked_order() {
    let expected = vec![
        Provider::IsGd,
        Provider::BnGy,
        Provider::VGd,
        Provider::Rdd,
        Provider::BamBz,
        Provider::TinyPh,
        Provider::FifoCc,
        Provider::SCoop,
        Provider::Bmeo,
        Provider::TnyIm,
        Provider::SirBz,
        Provider::Rlu,
        Provider::HecSu,
        Provider::Abv8,
        Provider::TinyUrl,
        Provider::PsbeCo,
        Provider::NowLinks,
        Provider::PhxCoIn,
    ];
    assert_eq!(providers(), expected);
}

#[test]
fn providers_contains_each_provider_exactly_once() {
    let all = providers();
    assert_eq!(all.len(), 18);
    for p in &all {
        let occurrences = all.iter().filter(|q| *q == p).count();
        assert_eq!(occurrences, 1);
    }
}
