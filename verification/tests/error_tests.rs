use kotori::error::TranslateError;

#[test]
fn each_failure_has_its_line() {
    assert_eq!(TranslateError::UpstreamError.message(), "Google Translate return error");
    assert_eq!(TranslateError::MarkerNotFound.message(), "Unable to parse value");
    let all = [
        TranslateError::SessionFetchFailed,
        TranslateError::TransportFailure,
        TranslateError::TokenNotFound,
        TranslateError::MarkerNotFound,
        TranslateError::UpstreamError,
        TranslateError::ProtocolSchemaMismatch,
    ];
    for (i, a) in all.iter().enumerate() {
        assert!(!a.message().is_empty());
        for b in &all[i + 1..] {
            assert_ne!(a, b);
            assert_ne!(a.message(), b.message());
        }
    }
}
