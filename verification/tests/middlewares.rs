use ondc_websocket::errors::{CustomJWTTokenError, GenericError};
use ondc_websocket::middlewares::{BodyCapture, RequireAuth, SaveRequestResponse};

#[test]
fn cookie_comes_before_the_header() {
    assert_eq!(
        RequireAuth.credential(Some(String::from("from-cookie")), Some("Bearer from-header")),
        Ok(String::from("from-cookie"))
    );
    assert_eq!(RequireAuth.credential(Some(String::from("c")), None), Ok(String::from("c")));
}

#[test]
fn header_loses_its_first_seven_bytes() {
    assert_eq!(
        RequireAuth.credential(None, Some("Bearer abc.def.ghi")),
        Ok(String::from("abc.def.ghi"))
    );
    assert_eq!(RequireAuth.credential(None, Some("Bearer ")), Ok(String::new()));
    assert_eq!(RequireAuth.credential(None, Some("1234567rest")), Ok(String::from("rest")));
}

#[test]
fn header_that_cannot_be_cut_is_an_invalid_token() {
    assert_eq!(
        RequireAuth.credential(None, Some("Bearer")),
        Err(GenericError::InvalidJWT(String::from("Invalid Token")))
    );
    assert_eq!(
        RequireAuth.credential(None, Some("")),
        Err(GenericError::InvalidJWT(String::from("Invalid Token")))
    );
    assert_eq!(
        RequireAuth.credential(None, Some("Bearer\u{e9}x")),
        Err(GenericError::InvalidJWT(String::from("Invalid Token")))
    );
}

#[test]
fn request_without_credential_fails_to_authenticate() {
    let shown = RequireAuth.credential(None, None);
    assert_eq!(
        shown,
        Err(GenericError::InvalidJWT(String::from("Authorization header is missing")))
    );
    let response = GenericError::InvalidJWT(String::from("Authorization header is missing"))
        .response();
    assert!(!response.status);
    assert_eq!(response.code, "401");
    assert_eq!(response.customer_message, "Authorization header is missing");
}

#[test]
fn good_token_is_let_through_with_its_subject() {
    assert_eq!(RequireAuth.let_through(Ok(String::from("alice"))), Ok(String::from("alice")));
}

#[test]
fn bad_token_is_turned_down_with_its_text() {
    assert_eq!(
        RequireAuth.let_through(Err(CustomJWTTokenError::Expired)),
        Err(GenericError::InvalidJWT(String::from("Token expired")))
    );
    assert_eq!(
        RequireAuth.let_through(Err(CustomJWTTokenError::Invalid(String::from("Invalid Token")))),
        Err(GenericError::InvalidJWT(String::from("Invalid Token")))
    );
}

#[test]
fn socket_upgrade_passes_untouched() {
    assert_eq!(SaveRequestResponse.capture(Some("websocket"), "/websocket"), BodyCapture::Bypass);
    assert_eq!(SaveRequestResponse.capture(Some("websocket"), "/on_search"), BodyCapture::Bypass);
}

#[test]
fn other_upgrades_are_recorded() {
    assert_eq!(
        SaveRequestResponse.capture(Some("h2c"), "/send"),
        BodyCapture::RequestAndResponse
    );
    assert_eq!(
        SaveRequestResponse.capture(Some("WebSocket"), "/send"),
        BodyCapture::RequestAndResponse
    );
}

#[test]
fn documentation_passes_untouched() {
    assert_eq!(SaveRequestResponse.capture(None, "/docs/index.html"), BodyCapture::Bypass);
    assert_eq!(SaveRequestResponse.capture(None, "/api-docs/openapi.json"), BodyCapture::Bypass);
    assert_eq!(SaveRequestResponse.capture(None, "/x/docs/on_search"), BodyCapture::Bypass);
    assert_eq!(SaveRequestResponse.capture(None, "/docs"), BodyCapture::RequestAndResponse);
}

#[test]
fn search_answers_are_recorded_without_the_request() {
    assert_eq!(SaveRequestResponse.capture(None, "/on_search"), BodyCapture::ResponseOnly);
    assert_eq!(SaveRequestResponse.capture(None, "on_search"), BodyCapture::ResponseOnly);
    assert_eq!(SaveRequestResponse.capture(None, "/on_search/"), BodyCapture::RequestAndResponse);
}

#[test]
fn everything_else_is_recorded_in_full() {
    assert_eq!(SaveRequestResponse.capture(None, "/send"), BodyCapture::RequestAndResponse);
    assert_eq!(SaveRequestResponse.capture(None, ""), BodyCapture::RequestAndResponse);
}

#[test]
fn body_that_is_text_is_kept() {
    assert_eq!(SaveRequestResponse.body_text(b"{\"status\":true}"), "{\"status\":true}");
    assert_eq!(SaveRequestResponse.body_text("gr\u{fc}n".as_bytes()), "gr\u{fc}n");
    assert_eq!(SaveRequestResponse.body_text(b""), "");
}

#[test]
fn body_that_is_no_text_becomes_empty() {
    assert_eq!(SaveRequestResponse.body_text(&[0xff, 0xfe]), "");
    assert_eq!(SaveRequestResponse.body_text(&[b'a', 0xc3]), "");
    assert_eq!(SaveRequestResponse.body_text(&[0xed, 0xa0, 0x80]), "");
    assert_eq!(SaveRequestResponse.body_text(&[0xc0, 0x80]), "");
}
