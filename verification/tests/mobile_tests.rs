use kotori::error::TranslateError;
use kotori::google_translate_m::{
    get_value, read_translation, reply_received, translate, EndpointConfig,
};
use kotori::http::{Method, Reply};
use kotori::DEFAULT_USER_AGENT;

#[test]
fn endpoint_lists_languages_then_text() {
    let config = EndpointConfig::new();
    assert_eq!(
        config.build_endpoint("Hello", "en", "ja"),
        "https://translate.google.com/m?sl=en&tl=ja&q=Hello"
    );
}

#[test]
fn endpoint_encodes_what_a_query_cannot_hold() {
    let config = EndpointConfig::new();
    assert_eq!(
        config.build_endpoint("Hello world! a&b=c", "en", "zh-CN"),
        "https://translate.google.com/m?sl=en&tl=zh-CN&q=Hello+world%21+a%26b%3Dc"
    );
    assert_eq!(
        config.build_endpoint("テスト", "ja", "en"),
        "https://translate.google.com/m?sl=ja&tl=en&q=%E3%83%86%E3%82%B9%E3%83%88"
    );
    assert_eq!(
        config.build_endpoint("", "en", "ja"),
        "https://translate.google.com/m?sl=en&tl=ja&q="
    );
}

#[test]
fn request_is_one_get_with_the_user_agent() {
    let request = translate("Hello".to_owned(), "en", "ja", Some("agent/1.0".to_owned()));
    assert_eq!(request.method, Method::Get);
    assert_eq!(request.url, "https://translate.google.com/m?sl=en&tl=ja&q=Hello");
    assert_eq!(
        request.headers,
        vec![("User-Agent".to_owned(), "agent/1.0".to_owned())]
    );
    assert_eq!(request.body, None);
}

#[test]
fn request_falls_back_to_the_default_user_agent() {
    let request = translate("Hello".to_owned(), "en", "ja", None);
    assert_eq!(
        request.headers,
        vec![("User-Agent".to_owned(), DEFAULT_USER_AGENT.to_owned())]
    );
}

#[test]
fn value_stands_between_the_markers() {
    let html = "<html><div class=\"result-container\">こんにちは</div><div>x</div></html>";
    assert_eq!(get_value(html), Some("こんにちは"));
    assert_eq!(get_value("<div class=\"result-container\"></div>"), Some(""));
}

#[test]
fn value_keeps_its_entities() {
    let html = "<div class=\"result-container\">Tom &amp; Jerry</div>";
    assert_eq!(get_value(html), Some("Tom &amp; Jerry"));
}

#[test]
fn value_is_missed_without_either_marker() {
    assert_eq!(get_value(""), None);
    assert_eq!(get_value("<div class=\"other\">x</div>"), None);
    assert_eq!(get_value("<div class=\"result-container\">x"), None);
    assert_eq!(get_value("x</div><div class=\"result-container\">"), None);
}

#[test]
fn translation_has_its_entities_decoded() {
    let html = "<div class=\"result-container\">Tom &amp; Jerry&#39;s &lt;b&gt; &quot;x&quot; &#x30C6;</div>";
    assert_eq!(
        read_translation(html),
        Ok("Tom & Jerry's <b> \"x\" テ".to_owned())
    );
}

#[test]
fn translation_without_entities_comes_as_it_is() {
    let html = "<p><div class=\"result-container\">Hola, mundo</div></p>";
    assert_eq!(read_translation(html), Ok("Hola, mundo".to_owned()));
}

#[test]
fn translation_is_missed_without_the_markers() {
    assert_eq!(
        read_translation("<html>Error 429</html>"),
        Err(TranslateError::MarkerNotFound)
    );
    assert_eq!(
        read_translation("<div class=\"result-container\">never closed"),
        Err(TranslateError::MarkerNotFound)
    );
}

#[test]
fn reply_is_read_or_reported() {
    assert_eq!(
        reply_received(Reply::Body(
            "<div class=\"result-container\">a &gt; b</div>".to_owned()
        )),
        Ok("a > b".to_owned())
    );
    assert_eq!(
        reply_received(Reply::Body("nothing".to_owned())),
        Err(TranslateError::MarkerNotFound)
    );
    assert_eq!(reply_received(Reply::Failed), Err(TranslateError::TransportFailure));
}
