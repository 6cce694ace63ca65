use hyperion::http::status::HttpStatus;

#[test]
fn status_codes_and_phrases() {
    assert_eq!(HttpStatus::OK.code(), 200);
    assert_eq!(HttpStatus::OK.reason_phrase(), "Ok");
    assert_eq!(HttpStatus::NotFound.code(), 404);
    assert_eq!(HttpStatus::NotFound.reason_phrase(), "Not Found");
    assert_eq!(HttpStatus::Continue.code(), 100);
    assert_eq!(HttpStatus::IMUsed.code(), 226);
    assert_eq!(HttpStatus::IMUsed.reason_phrase(), "IM Used");
    assert_eq!(HttpStatus::Teapot.reason_phrase(), "I'm a teapot");
    assert_eq!(HttpStatus::RangeNotSatisfiable.reason_phrase(), "Range not Satisfiable");
    assert_eq!(HttpStatus::HttpVersionNotSupported.reason_phrase(), "HTTP Version not Supported");
    assert_eq!(HttpStatus::NetworkAuthenticationRequired.code(), 511);
    assert_eq!(u16::from(&HttpStatus::Teapot), 418);
    assert_eq!(u16::from(&HttpStatus::InternalServerError), 500);
}

#[test]
fn status_is_found_by_its_code() {
    assert_eq!(HttpStatus::from_code(200), Some(HttpStatus::OK));
    assert_eq!(HttpStatus::from_code(451), Some(HttpStatus::UnavailableForLegalReasons));
    assert_eq!(HttpStatus::from_code(303), None);
    assert_eq!(HttpStatus::from_code(0), None);
    assert_eq!(HttpStatus::from_code(999), None);
}

#[test]
fn every_code_leads_back_to_its_status() {
    let mut known = 0;
    for code in 0..=u16::MAX {
        if let Some(status) = HttpStatus::from_code(code) {
            assert_eq!(status.code(), code);
            assert!(!status.reason_phrase().is_empty());
            known += 1;
        }
    }
    assert_eq!(known, 62);
}
