use hyperion::http::method::Method;

#[test]
fn methods_have_upper_case_tokens() {
    assert_eq!(Method::Get.as_str(), "GET");
    assert_eq!(Method::Head.as_str(), "HEAD");
    assert_eq!(Method::Post.as_str(), "POST");
    assert_eq!(Method::Put.as_str(), "PUT");
    assert_eq!(Method::Delete.as_str(), "DELETE");
    assert_eq!(Method::Connect.as_str(), "CONNECT");
    assert_eq!(Method::Options.as_str(), "OPTIONS");
    assert_eq!(Method::Trace.as_str(), "TRACE");
    assert_eq!(Method::Patch.as_str(), "PATCH");
}

#[test]
fn tokens_name_their_methods() {
    let all = [
        Method::Get,
        Method::Head,
        Method::Post,
        Method::Put,
        Method::Delete,
        Method::Connect,
        Method::Options,
        Method::Trace,
        Method::Patch,
    ];
    for method in all {
        assert_eq!(Method::from_token(method.as_str()), Some(method));
    }
}

#[test]
fn other_tokens_name_no_method() {
    for token in ["", "get", "Get", "GET ", " GET", "FOO", "GETS", "PATC", "\"GET\"", "G\\u0045T"] {
        assert_eq!(Method::from_token(token), None, "{:?}", token);
    }
}
