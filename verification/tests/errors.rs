use okx_client::error::OkxError;

#[test]
fn response_code_is_described_with_its_code() {
    let error = OkxError::ResponseCode { code: "51000".to_string() };
    assert_eq!(error.describe(), "Response code is not OK: 51000");
}

#[test]
fn other_errors_have_a_sentence() {
    assert_eq!(OkxError::InvalidUrl.describe(), "The request path does not form a valid URL");
    assert_eq!(
        OkxError::UrlTooLong.describe(),
        "The request path and query are too long for a URL"
    );
    assert_eq!(
        OkxError::InvalidHeaderValue.describe(),
        "A header value holds a control character"
    );
}
