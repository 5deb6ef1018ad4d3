use spotifyimport::access_token::{
    cookie_header, resolve_token, resolve_token_exact, token_request, TokenError, TokenReply,
    TokenResponse, SP_DC_INSTRUCTIONS, TOKEN_URL, USER_AGENT,
};
use spotifyimport::http::{HttpRequest, Method};

fn token() -> TokenResponse {
    TokenResponse { access_token: "tok".to_string(), expiry_ms: 1600000000000 }
}

#[test]
fn cookie_header_holds_both_cookies() {
    assert_eq!(cookie_header("abc", "def"), "sp_dc=abc; sp_key=def");
}

#[test]
fn cookie_header_with_empty_values() {
    assert_eq!(cookie_header("", ""), "sp_dc=; sp_key=");
}

#[test]
fn cookie_header_keeps_the_values_as_they_are() {
    assert_eq!(cookie_header("a=b; c", "\"q\" %20"), "sp_dc=a=b; c; sp_key=\"q\" %20");
}

#[test]
fn token_request_is_one_get_with_the_cookies() {
    assert_eq!(
        token_request("abc", "def"),
        HttpRequest {
            method: Method::Get,
            url: "https://open.spotify.com/get_access_token?reason=transport&productType=web_player"
                .to_string(),
            headers: vec![
                (
                    "user-agent".to_string(),
                    "Mozilla/5.0 (Macintosh; Intel Mac OS X 10_13_2) AppleWebKit/537.36 (KHTML, like Gecko) Chrome/63.0.3239.132 Safari/537.36"
                        .to_string()
                ),
                ("cookie".to_string(), "sp_dc=abc; sp_key=def".to_string()),
            ],
            query: vec![],
        }
    );
    assert_eq!(token_request("", "").url, TOKEN_URL);
    assert_eq!(token_request("", "").headers[0].1, USER_AGENT);
}

#[test]
fn token_is_granted() {
    assert_eq!(resolve_token(TokenReply::Answered(200, Ok(token()))), Ok(token()));
    assert_eq!(resolve_token(TokenReply::Answered(299, Ok(token()))), Ok(token()));
}

#[test]
fn token_is_refused_on_a_bad_status() {
    assert_eq!(resolve_token(TokenReply::Answered(401, Ok(token()))), Err(TokenError::BadStatus(401)));
    assert_eq!(
        resolve_token(TokenReply::Answered(302, Err("no body".to_string()))),
        Err(TokenError::BadStatus(302))
    );
}

#[test]
fn token_body_cannot_be_read() {
    assert_eq!(
        resolve_token(TokenReply::Answered(200, Err("missing field".to_string()))),
        Err(TokenError::Transport("missing field".to_string()))
    );
}

#[test]
fn token_request_was_never_answered() {
    assert_eq!(
        resolve_token(TokenReply::Failed("dns".to_string())),
        Err(TokenError::Transport("dns".to_string()))
    );
}

#[test]
fn token_errors_in_words() {
    assert_eq!(TokenError::Transport("dns".to_string()).message(), "dns");
    assert_eq!(TokenError::BadStatus(401).message(), "bad response status: 401");
}

#[test]
fn instructions_have_six_lines() {
    assert_eq!(SP_DC_INSTRUCTIONS.lines().count(), 6);
    assert!(SP_DC_INSTRUCTIONS.starts_with("1. open a new incognito window"));
    assert!(SP_DC_INSTRUCTIONS.ends_with("6. close the window without logging out"));
}

#[test]
fn exact_rule_grants_a_token_on_200() {
    assert_eq!(resolve_token_exact(TokenReply::Answered(200, Ok(token()))), Ok(token()));
}

#[test]
fn exact_rule_refuses_204() {
    assert_eq!(
        resolve_token_exact(TokenReply::Answered(204, Ok(token()))),
        Err(TokenError::BadStatus(204))
    );
    assert_eq!(
        resolve_token_exact(TokenReply::Answered(204, Ok(token()))).unwrap_err().message(),
        "bad response status: 204"
    );
}

#[test]
fn exact_rule_refuses_404() {
    assert_eq!(
        resolve_token_exact(TokenReply::Answered(404, Err("no body".to_string()))),
        Err(TokenError::BadStatus(404))
    );
    assert_eq!(
        resolve_token_exact(TokenReply::Answered(404, Ok(token()))),
        Err(TokenError::BadStatus(404))
    );
}

#[test]
fn exact_rule_refuses_every_other_success() {
    for status in [201u16, 202, 206, 299] {
        assert_eq!(
            resolve_token_exact(TokenReply::Answered(status, Ok(token()))),
            Err(TokenError::BadStatus(status))
        );
        assert_eq!(resolve_token(TokenReply::Answered(status, Ok(token()))), Ok(token()));
    }
}

#[test]
fn exact_rule_reports_an_unreadable_body_and_a_failed_request() {
    assert_eq!(
        resolve_token_exact(TokenReply::Answered(200, Err("missing field".to_string()))),
        Err(TokenError::Transport("missing field".to_string()))
    );
    assert_eq!(
        resolve_token_exact(TokenReply::Failed("dns".to_string())),
        Err(TokenError::Transport("dns".to_string()))
    );
}
