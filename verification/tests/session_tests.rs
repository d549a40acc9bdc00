use kotori::error::TranslateError;
use kotori::google_translate::{translate, translate_with};
use kotori::google_translate::EndpointConfig;
use kotori::http::{Method, Reply, Request};

fn pair(name: &str, value: &str) -> (String, String) {
    (name.to_owned(), value.to_owned())
}

fn page_with(token: &str) -> String {
    format!(
        "<!doctype html><script>window.WIZ_global_data = {{\"DpimGf\":false,\"FdrFJe\":\"{}\",\"GWsdKe\":\"en\"}};</script>",
        token
    )
}

fn reply_for(text: &str, translation: &str) -> String {
    let inner = format!(
        "[[null,null,\"en\"],[[[null,null,null,true,null,[[{},null,null,null,[]]]]],\"ja\",1,\"en\",[{},\"en\",\"ja\",true]]]",
        serde_json::to_string(translation).expect("a string"),
        serde_json::to_string(text).expect("a string")
    );
    format!(
        ")]}}'\n\n972\n[[\"wrb.fr\",\"MkEWBc\",{},null,null,null,\"generic\"]]\n25\n[[\"e\",4,null,null,1008]]\n",
        serde_json::to_string(&inner).expect("a string")
    )
}

fn token_in(request: &Request) -> String {
    let query = request.url.split('?').nth(1).expect("a query");
    let field = query.split('&').find(|f| f.starts_with("f.sid=")).expect("a session");
    field["f.sid=".len()..].to_owned()
}

#[test]
fn translation_runs_through_both_requests() {
    let config = EndpointConfig::from_samples(2, 31337);
    let (waiting, first) = translate_with(config, "Testing".to_owned(), "en", "ja");
    assert_eq!(first.method, Method::Get);
    assert_eq!(first.url, "https://translate.google.com");
    assert_eq!(first.headers, vec![pair("Upgrade-Insecure-Requests", "1")]);
    assert_eq!(first.body, None);

    let (waiting, second) = waiting
        .page_received(Reply::Body(page_with("-4242")))
        .expect("a batch request");
    assert_eq!(second.method, Method::Post);
    assert_eq!(
        second.url,
        "https://translate.google.com/_/TranslateWebserverUi/data/batchexecute?rpcids=MkEWBc&f.sid=-4242&bl=boq_translate-webserver_20231212.05_p0&hl=en-US&soc-app=1&soc-platform=1&soc-device=1&_reqid=31337&rt=c"
    );
    assert_eq!(
        second.headers,
        vec![
            pair("Referer", "https://translate.google.com/"),
            pair("X-Same-Domain", "1"),
            pair("DNT", "1"),
            pair("Content-Type", "application/x-www-form-urlencoded;charset=UTF-8"),
            pair("Accept", "*/*"),
            pair("Origin", "https://translate.google.com"),
            pair("Accept-Language", "en-US"),
        ]
    );
    assert_eq!(
        second.body.as_deref(),
        Some("f.req=%5B%5B%5B%22MkEWBc%22%2C%22%5B%5B%5C%22Testing%5C%22%2C%5C%22en%5C%22%2C%5C%22ja%5C%22%2Ctrue%5D%2C%5Bnull%5D%5D%22%2Cnull%2C%22generic%22%5D%5D%5D")
    );

    let result = waiting.reply_received(Reply::Body(reply_for("Testing", "テスト")));
    assert_eq!(result, Ok("テスト".to_owned()));
}

#[test]
fn translation_with_a_drawn_configuration() {
    let (waiting, first) = translate("Testing".to_owned(), "en", "ja");
    assert_eq!(first.method, Method::Get);
    assert_eq!(first.url, "https://translate.google.com");
    let (waiting, second) = waiting
        .page_received(Reply::Body(page_with("tok")))
        .expect("a batch request");
    assert!(second.url.starts_with(
        "https://translate.google.com/_/TranslateWebserverUi/data/batchexecute?rpcids=MkEWBc&f.sid=tok&bl="
    ));
    assert!(second.url.ends_with("&rt=c"));
    assert!(second.headers.len() == 6 || second.headers.len() == 7);
    assert_eq!(
        waiting.reply_received(Reply::Body(reply_for("Testing", "テスト"))),
        Ok("テスト".to_owned())
    );
}

#[test]
fn failed_page_fetch_ends_the_translation() {
    let (waiting, _) = translate_with(
        EndpointConfig::from_samples(0, 1),
        "Testing".to_owned(),
        "en",
        "ja",
    );
    assert_eq!(
        waiting.page_received(Reply::Failed).err(),
        Some(TranslateError::SessionFetchFailed)
    );
}

#[test]
fn page_without_token_ends_the_translation() {
    let (waiting, _) = translate_with(
        EndpointConfig::from_samples(0, 1),
        "Testing".to_owned(),
        "en",
        "ja",
    );
    assert_eq!(
        waiting
            .page_received(Reply::Body("<html>moved</html>".to_owned()))
            .err(),
        Some(TranslateError::TokenNotFound)
    );
}

#[test]
fn failed_batch_request_ends_the_translation() {
    let (waiting, _) = translate_with(
        EndpointConfig::from_samples(0, 1),
        "Testing".to_owned(),
        "en",
        "ja",
    );
    let (waiting, _) = waiting
        .page_received(Reply::Body(page_with("t")))
        .expect("a batch request");
    assert_eq!(
        waiting.reply_received(Reply::Failed),
        Err(TranslateError::TransportFailure)
    );
}

#[test]
fn reply_for_another_text_is_an_upstream_error() {
    let (waiting, _) = translate_with(
        EndpointConfig::from_samples(0, 1),
        "Testing".to_owned(),
        "en",
        "ja",
    );
    let (waiting, _) = waiting
        .page_received(Reply::Body(page_with("t")))
        .expect("a batch request");
    assert_eq!(
        waiting.reply_received(Reply::Body(reply_for("Other", "テスト"))),
        Err(TranslateError::UpstreamError)
    );
}

#[test]
fn broken_reply_breaks_the_protocol() {
    let (waiting, _) = translate_with(
        EndpointConfig::from_samples(0, 1),
        "Testing".to_owned(),
        "en",
        "ja",
    );
    let (waiting, _) = waiting
        .page_received(Reply::Body(page_with("t")))
        .expect("a batch request");
    assert_eq!(
        waiting.reply_received(Reply::Body("Testing [[1,2,\"[]\"]]\n".to_owned())),
        Err(TranslateError::ProtocolSchemaMismatch)
    );
}

#[test]
fn two_translations_keep_their_own_tokens() {
    let (first, _) = translate_with(
        EndpointConfig::from_samples(0, 11),
        "one".to_owned(),
        "en",
        "ja",
    );
    let (second, _) = translate_with(
        EndpointConfig::from_samples(1, 22),
        "two".to_owned(),
        "en",
        "fr",
    );
    let (second, second_request) = second
        .page_received(Reply::Body(page_with("token-B")))
        .expect("a batch request");
    let (first, first_request) = first
        .page_received(Reply::Body(page_with("token-A")))
        .expect("a batch request");
    assert_eq!(token_in(&first_request), "token-A");
    assert_eq!(token_in(&second_request), "token-B");
    assert!(first_request.url.contains("_reqid=11&"));
    assert!(second_request.url.contains("_reqid=22&"));
    assert_eq!(
        second.reply_received(Reply::Body(reply_for("two", "deux"))),
        Ok("deux".to_owned())
    );
    assert_eq!(
        first.reply_received(Reply::Body(reply_for("one", "一"))),
        Ok("一".to_owned())
    );
}
