use ilet_sync::domain::ilet::{
    auth_request, authenticate_iLet, grab_iLet_data, read_status, AuthRequest, Reply,
};
use ilet_sync::models::ilet::{iLetAuthResponse, iLetSecrets, ServerErrors};

const AUTH: &str = "https://us-users.betabionicsapi.com/2/account/auth?encodedAppID=";

fn account(username: &str, password: &str) -> iLetSecrets {
    iLetSecrets {
        username: username.to_string(),
        password: password.to_string(),
        serial_number: "BB-0001".to_string(),
    }
}

fn signed_in(id_token: &str) -> iLetAuthResponse {
    iLetAuthResponse {
        message: None,
        status_code: 200,
        access_token: Some("access".to_string()),
        id_token: id_token.to_string(),
        refresh_token: "refresh".to_string(),
        session: None,
        user_name: Some("user".to_string()),
    }
}

fn session_of(request: &AuthRequest) -> String {
    let encoded = request.url.strip_prefix(AUTH).unwrap();
    let bytes = base64::Engine::decode(&base64::engine::general_purpose::STANDARD, encoded).unwrap();
    String::from_utf8(bytes).unwrap()
}

#[test]
fn sign_in_encodes_the_credentials() {
    let r = auth_request(&account("user", "pass"), "abc").unwrap();
    assert_eq!(r.authorization, "Basic dXNlcjpwYXNz");
    assert_eq!(r.url, format!("{}YWJj", AUTH));
}

#[test]
fn sign_in_pads_the_encoding() {
    let r = auth_request(&account("a", ""), "abcd").unwrap();
    assert_eq!(r.authorization, "Basic YTo=");
    assert_eq!(r.url, format!("{}YWJjZA==", AUTH));
}

#[test]
fn sign_in_encodes_the_bytes_of_the_text() {
    let r = auth_request(&account("zo\u{eb}", "p:w"), "").unwrap();
    assert_eq!(r.authorization, "Basic em/DqzpwOnc=");
    assert_eq!(r.url, AUTH);
}

#[test]
fn sign_in_under_a_fresh_session() {
    let conf = account("user", "pass");
    let r = authenticate_iLet(&conf).unwrap();
    assert_eq!(r.authorization, "Basic dXNlcjpwYXNz");
    let session = session_of(&r);
    assert_eq!(session.len(), 36);
    for (i, c) in session.chars().enumerate() {
        if i == 8 || i == 13 || i == 18 || i == 23 {
            assert_eq!(c, '-');
        } else {
            assert!(matches!(c, '0'..='9' | 'a'..='f'));
        }
    }
    assert_eq!(Some(r), auth_request(&conf, &session));
}

#[test]
fn sessions_differ() {
    let conf = account("user", "pass");
    let first = authenticate_iLet(&conf).unwrap();
    let second = authenticate_iLet(&conf).unwrap();
    assert_ne!(session_of(&first), session_of(&second));
    assert_eq!(first.authorization, second.authorization);
}

#[test]
fn telemetry_request_names_pump_and_span() {
    let r = grab_iLet_data(&signed_in("tok.en"), "BB-0001".to_string(), 1710864250, 1716073850);
    assert_eq!(r.url, "https://us-apps.betabionicsapi.com/1/reporting/clinicalstepdata?");
    assert_eq!(
        r.query,
        vec![
            ("serialNumber".to_string(), "BB-0001".to_string()),
            ("epochStartDate".to_string(), "1710864250".to_string()),
            ("epochEndDate".to_string(), "1716073850".to_string()),
        ]
    );
    assert_eq!(r.authorization, "Bearer tok.en");
    assert_eq!(r.timeout_seconds, 120);
}

#[test]
fn telemetry_request_before_the_epoch() {
    let r = grab_iLet_data(&signed_in(""), String::new(), -5, 0);
    assert_eq!(r.query[0], ("serialNumber".to_string(), String::new()));
    assert_eq!(r.query[1].1, "-5");
    assert_eq!(r.query[2].1, "0");
    assert_eq!(r.authorization, "Bearer ");
}

#[test]
fn status_of_the_answer() {
    assert_eq!(read_status(200), Reply::Accepted);
    assert_eq!(read_status(299), Reply::Accepted);
    assert_eq!(read_status(400), Reply::Rejected(ServerErrors::BadUserInfo));
    assert_eq!(read_status(401), Reply::Rejected(ServerErrors::BadUserInfo));
    assert_eq!(read_status(499), Reply::Rejected(ServerErrors::BadUserInfo));
    assert_eq!(read_status(500), Reply::Rejected(ServerErrors::ServerSideIssue));
    assert_eq!(read_status(599), Reply::Rejected(ServerErrors::ServerSideIssue));
    assert_eq!(read_status(100), Reply::Unexpected);
    assert_eq!(read_status(302), Reply::Unexpected);
    assert_eq!(read_status(600), Reply::Unexpected);
}

#[test]
fn messages_of_the_errors() {
    assert_eq!(ServerErrors::BadUserInfo.message(), "Check Inputted Credentials.");
    assert_eq!(
        ServerErrors::ServerSideIssue.message(),
        "iLet Server gave an unexpected response, retry."
    );
}

#[test]
fn account_is_cloned_whole() {
    let conf = account("user", "pass");
    assert_eq!(conf.clone(), conf);
}
