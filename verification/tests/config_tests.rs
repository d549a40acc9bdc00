use kotori::google_translate::{accept_language, EndpointConfig};
use kotori::{default_user_agent, DEFAULT_USER_AGENT};

fn pair(name: &str, value: &str) -> (String, String) {
    (name.to_owned(), value.to_owned())
}

fn fixed_headers() -> Vec<(String, String)> {
    vec![
        pair("Referer", "https://translate.google.com/"),
        pair("X-Same-Domain", "1"),
        pair("DNT", "1"),
        pair("Content-Type", "application/x-www-form-urlencoded;charset=UTF-8"),
        pair("Accept", "*/*"),
        pair("Origin", "https://translate.google.com"),
    ]
}

#[test]
fn default_user_agent_keeps_a_given_one() {
    assert_eq!(default_user_agent(Some("agent/1.0".to_owned())), "agent/1.0");
    assert_eq!(default_user_agent(Some(String::new())), "");
}

#[test]
fn default_user_agent_falls_back() {
    assert_eq!(
        default_user_agent(None),
        "Mozilla/5.0 (Macintosh; Intel Mac OS X 10_15_7) AppleWebKit/537.36 (KHTML, like Gecko) Chrome/120.0.0.0 Safari/537.36"
    );
    assert_eq!(default_user_agent(None), DEFAULT_USER_AGENT);
}

#[test]
fn accept_language_has_four_candidates() {
    assert_eq!(accept_language(0), None);
    assert_eq!(accept_language(1).as_deref(), Some("en-US,en;q=0.9"));
    assert_eq!(accept_language(2).as_deref(), Some("en-US"));
    assert_eq!(accept_language(3).as_deref(), Some("en"));
    assert_eq!(accept_language(4), None);
}

#[test]
fn from_samples_holds_the_fixed_names() {
    let config = EndpointConfig::from_samples(2, 4711);
    assert_eq!(config.backend(), "https://translate.google.com");
    assert_eq!(config.translate_rpc_id(), "MkEWBc");
    assert_eq!(config.req_id(), 4711);
    assert_eq!(config.accept_language(), Some("en-US"));
}

#[test]
fn query_lists_the_parameters_in_order() {
    let config = EndpointConfig::from_samples(0, 7);
    assert_eq!(
        config.build_query_str("abc"),
        "rpcids=MkEWBc&f.sid=abc&bl=boq_translate-webserver_20231212.05_p0&hl=en-US&soc-app=1&soc-platform=1&soc-device=1&_reqid=7&rt=c"
    );
}

#[test]
fn query_takes_the_token_as_it_is() {
    let config = EndpointConfig::from_samples(0, 100_000);
    assert_eq!(
        config.build_query_str("-12 34&x=%"),
        "rpcids=MkEWBc&f.sid=-12 34&x=%&bl=boq_translate-webserver_20231212.05_p0&hl=en-US&soc-app=1&soc-platform=1&soc-device=1&_reqid=100000&rt=c"
    );
}

#[test]
fn endpoint_is_the_batch_path_with_the_query() {
    let config = EndpointConfig::from_samples(1, 1);
    assert_eq!(
        config.build_endpoint("-5"),
        "https://translate.google.com/_/TranslateWebserverUi/data/batchexecute?rpcids=MkEWBc&f.sid=-5&bl=boq_translate-webserver_20231212.05_p0&hl=en-US&soc-app=1&soc-platform=1&soc-device=1&_reqid=1&rt=c"
    );
    assert_eq!(
        config.build_endpoint("-5"),
        format!(
            "https://translate.google.com/_/TranslateWebserverUi/data/batchexecute?{}",
            config.build_query_str("-5")
        )
    );
}

#[test]
fn headers_leave_out_an_absent_language() {
    let config = EndpointConfig::from_samples(0, 1);
    assert_eq!(config.build_headers(), fixed_headers());
}

#[test]
fn headers_end_with_the_drawn_language() {
    let mut expected = fixed_headers();
    expected.push(pair("Accept-Language", "en-US,en;q=0.9"));
    assert_eq!(EndpointConfig::from_samples(1, 1).build_headers(), expected);

    let mut expected = fixed_headers();
    expected.push(pair("Accept-Language", "en-US"));
    assert_eq!(EndpointConfig::from_samples(2, 1).build_headers(), expected);
}

#[test]
fn new_draws_within_the_ranges() {
    for _ in 0..2000 {
        let config = EndpointConfig::new();
        assert!(1 <= config.req_id() && config.req_id() <= 100_000);
        assert!(matches!(
            config.accept_language(),
            None | Some("en-US,en;q=0.9") | Some("en-US")
        ));
        assert_eq!(config.backend(), "https://translate.google.com");
        assert_eq!(config.translate_rpc_id(), "MkEWBc");
    }
}

#[test]
fn new_draws_anew_each_time() {
    let ids: Vec<u32> = (0..200).map(|_| EndpointConfig::new().req_id()).collect();
    assert!(ids.iter().any(|id| *id != ids[0]));
    let languages: Vec<Option<String>> = (0..200)
        .map(|_| EndpointConfig::new().accept_language().map(|s| s.to_owned()))
        .collect();
    assert!(languages.iter().any(|l| l.is_none()));
    assert!(languages.iter().any(|l| l.as_deref() == Some("en-US")));
    assert!(languages.iter().any(|l| l.as_deref() == Some("en-US,en;q=0.9")));
}
