use urlshortener::Provider;
use urlshortener::parse;

#[test]
fn passthrough_empty_input_is_none() {
    assert_eq!(parse("", Provider::IsGd), None);
    assert_eq!(parse("", Provider::Abv8), None);
    assert_eq!(parse("", Provider::VGd), None);
}

#[test]
fn passthrough_returns_whole_body() {
    assert_eq!(parse("abc", Provider::IsGd), Some("abc".to_string()));
    assert_eq!(
        parse("http://rlu.ru/xy", Provider::Rlu),
        Some("http://rlu.ru/xy".to_string())
    );
    assert_eq!(
        parse("http://s.coop/4fk1", Provider::SCoop),
        Some("http://s.coop/4fk1".to_string())
    );
    assert_eq!(
        parse("http://nowlinks.net/n", Provider::NowLinks),
        Some("http://nowlinks.net/n".to_string())
    );
    assert_eq!(
        parse("http://phx.co.in/p", Provider::PhxCoIn),
        Some("http://phx.co.in/p".to_string())
    );
}

#[test]
fn delimited_extracts_between_tags() {
    assert_eq!(
        parse("<ShortenedUrl>http://x.co/1</ShortenedUrl>", Provider::BnGy),
        Some("http://x.co/1".to_string())
    );
}

#[test]
fn delimited_missing_closing_tag_is_none() {
    assert_eq!(parse("<ShortenedUrl>http://x.co/1", Provider::BnGy), None);
}

#[test]
fn delimited_missing_opening_tag_is_none() {
    assert_eq!(parse("http://x.co/1</ShortenedUrl>", Provider::BnGy), None);
}

#[test]
fn delimited_empty_input_is_none() {
    assert_eq!(parse("", Provider::BnGy), None);
}

#[test]
fn delimited_takes_first_opening_and_next_closing() {
    let body = "<short>a</short><short>b</short>";
    assert_eq!(parse(body, Provider::HecSu), Some("a".to_string()));
}

#[test]
fn delimited_other_xml_providers() {
    assert_eq!(
        parse("<ShortUrl>http://psbe.co/z</ShortUrl>", Provider::PsbeCo),
        Some("http://psbe.co/z".to_string())
    );
    assert_eq!(
        parse(
            "<xml><shorturl>http://tny.im/4r</shorturl></xml>",
            Provider::TnyIm
        ),
        Some("http://tny.im/4r".to_string())
    );
}

#[test]
fn delimited_html_attribute_marker() {
    let body = "<input data-clipboard-text=\"http://tinyurl.com/abc\"> rest";
    assert_eq!(parse(body, Provider::TinyUrl), Some("http://tinyurl.com/abc".to_string()));
}

#[test]
fn keyed_extracts_quoted_value() {
    assert_eq!(
        parse("{\"short\":\"http://b.io/ab\",\"status\":1}", Provider::Bmeo),
        Some("http://b.io/ab".to_string())
    );
}

#[test]
fn keyed_concatenates_prefix() {
    assert_eq!(
        parse("{\"shortner\":\"xYz\"}", Provider::FifoCc),
        Some("http://fifo.cc/xYz".to_string())
    );
    assert_eq!(
        parse("{\"hash\":\"Ab9\",\"ok\":true}", Provider::TinyPh),
        Some("http://tiny.ph/Ab9".to_string())
    );
}

#[test]
fn keyed_strips_backslashes() {
    assert_eq!(
        parse("{\"short\":\"ht\\/tp\"}", Provider::Bmeo),
        Some("ht/tp".to_string())
    );
    assert_eq!(
        parse("{\"url\":\"http:\\/\\/bam.bz\\/q\"}", Provider::BamBz),
        Some("http://bam.bz/q".to_string())
    );
}

#[test]
fn keyed_other_json_providers() {
    assert_eq!(
        parse("{\"short_link\":\"http://sirbz.com/s\"}", Provider::SirBz),
        Some("http://sirbz.com/s".to_string())
    );
    assert_eq!(
        parse("{\"rdd_url\":\"http://rdd.me/ya\",\"id\":7}", Provider::Rdd),
        Some("http://rdd.me/ya".to_string())
    );
}

#[test]
fn keyed_field_absent_is_none() {
    assert_eq!(parse("{\"other\":\"x\"}", Provider::Bmeo), None);
    assert_eq!(parse("no json at all", Provider::BamBz), None);
}

#[test]
fn keyed_no_quote_after_field_is_none() {
    assert_eq!(parse("{\"short\":12,\"x\":3}", Provider::Bmeo), None);
}

#[test]
fn keyed_empty_input_is_none() {
    assert_eq!(parse("", Provider::Bmeo), None);
}
