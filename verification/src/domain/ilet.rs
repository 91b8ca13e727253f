//! The requests to the pump vendor's service, and how its answers are read.

use crate::http::{classify, status_class, StatusClass};
use crate::models::ilet::{iLetAuthResponse, iLetSecrets, iLetSecretsView, ServerErrors};
use crate::text::{int_text, int_to_text};
use vstd::prelude::*;
use vstd::utf8::{encode_utf8, is_ascii_chars};

verus! {

/// The base64 of `bytes`, in the standard alphabet and padded with `=`, as
/// the `base64` crate's `STANDARD` engine writes it.
pub uninterp spec fn base64_standard(bytes: Seq<u8>) -> Seq<char>;

/// The length of the base64 of `len` bytes fits a `usize`.
pub open spec fn base64_fits(len: nat) -> bool {
    (len + 2) / 3 * 4 <= usize::MAX
}

/// Encodes through `base64::Engine::encode` on the `STANDARD` engine, which
/// panics only where the length of its result overflows a `usize`: four
/// characters for every three bytes, the last group padded.
#[verifier::external_body]
fn base64_encode(bytes: &[u8]) -> (r: String)
    requires
        base64_fits(bytes@.len()),
    ensures
        r@ == base64_standard(bytes@),
{
    base64::Engine::encode(&base64::engine::general_purpose::STANDARD, bytes)
}

/// The base64 of `bytes`, or `None` where its length does not fit a `usize`.
fn encode(bytes: &[u8]) -> (r: Option<String>)
    ensures
        r is Some <==> base64_fits(bytes@.len()),
        r matches Some(text) ==> text@ == base64_standard(bytes@),
{
    let groups: u128 = (bytes.len() as u128 + 2) / 3;
    if groups * 4 <= usize::MAX as u128 {
        Some(base64_encode(bytes))
    } else {
        None
    }
}

/// A lower-case hexadecimal digit.
pub open spec fn is_hex_digit(c: char) -> bool {
    ('0' <= c <= '9') || ('a' <= c <= 'f')
}

/// The shape of a session identifier: 32 hexadecimal digits in groups of
/// 8, 4, 4, 4 and 12, with a hyphen between the groups.
pub open spec fn is_session_id(s: Seq<char>) -> bool {
    &&& s.len() == 36
    &&& forall|i: int|
        0 <= i < 36 ==> if i == 8 || i == 13 || i == 18 || i == 23 {
            #[trigger] s[i] == '-'
        } else {
            is_hex_digit(s[i])
        }
}

/// A random identifier from `uuid::Uuid::new_v4`, written as `hyphenated`
/// writes it. Which one comes is open; its shape is not. The call fails only
/// where the operating system has no random bytes to give.
#[verifier::external_body]
fn fresh_session_id() -> (r: String)
    ensures
        is_session_id(r@),
{
    uuid::Uuid::new_v4().hyphenated().to_string()
}

/// A request to sign in.
#[derive(Debug, PartialEq)]
pub struct AuthRequest {
    /// The address to get.
    pub url: String,
    /// The value of the `Authorization` header.
    pub authorization: String,
}

/// What an `AuthRequest` holds.
pub struct AuthRequestView {
    pub url: Seq<char>,
    pub authorization: Seq<char>,
}

impl View for AuthRequest {
    type V = AuthRequestView;

    open spec fn view(&self) -> AuthRequestView {
        AuthRequestView { url: self.url@, authorization: self.authorization@ }
    }
}

/// The account's credentials as the vendor wants them encoded:
/// the bytes of `username:password`.
pub open spec fn credentials(conf: iLetSecretsView) -> Seq<u8> {
    encode_utf8(conf.username + ":"@ + conf.password)
}

/// The request that signs `conf` in under the session identifier `session`.
pub open spec fn sign_in(conf: iLetSecretsView, session: Seq<char>) -> AuthRequestView {
    AuthRequestView {
        url: "https://us-users.betabionicsapi.com/2/account/auth?encodedAppID="@
            + base64_standard(encode_utf8(session)),
        authorization: "Basic "@ + base64_standard(credentials(conf)),
    }
}

/// The request that signs the account in under a given session identifier.
/// `None` where the credentials or the identifier are too long for their
/// base64 to have a length.
#[allow(non_snake_case)]
pub fn auth_request(iLet_conf: &iLetSecrets, session: &str) -> (r: Option<AuthRequest>)
    ensures
        r is Some <==> base64_fits(credentials(iLet_conf@).len()) && base64_fits(
            encode_utf8(session@).len(),
        ),
        r matches Some(request) ==> request@ == sign_in(iLet_conf@, session@),
{
    let mut joined = iLet_conf.username.clone();
    joined.append(":");
    joined.append(iLet_conf.password.as_str());
    let encoded_credentials = match encode(joined.as_str().as_bytes()) {
        Some(text) => text,
        None => {
            return None;
        },
    };
    let encoded_session = match encode(session.as_bytes()) {
        Some(text) => text,
        None => {
            return None;
        },
    };
    let mut authorization = "Basic ".to_owned();
    authorization.append(encoded_credentials.as_str());
    let mut url = "https://us-users.betabionicsapi.com/2/account/auth?encodedAppID=".to_owned();
    url.append(encoded_session.as_str());
    Some(AuthRequest { url, authorization })
}

/// The request that signs the account in under a fresh session identifier.
/// `None` where the credentials are too long for their base64 to have a
/// length.
#[allow(non_snake_case)]
pub fn authenticate_iLet(iLet_conf: &iLetSecrets) -> (r: Option<AuthRequest>)
    ensures
        r is Some <==> base64_fits(credentials(iLet_conf@).len()),
        r matches Some(request) ==> exists|session: Seq<char>|
            is_session_id(session) && request@ == #[trigger] sign_in(iLet_conf@, session),
{
    let session = fresh_session_id();
    proof {
        assert(is_ascii_chars(session@)) by {
            assert forall|i: int| 0 <= i < session@.len() implies '\0' <= #[trigger] session@[i]
                <= '\u{7f}' by {
                if i == 8 || i == 13 || i == 18 || i == 23 {
                    assert(session@[i] == '-');
                } else {
                    assert(is_hex_digit(session@[i]));
                }
            }
        }
        vstd::utf8::is_ascii_chars_encode_utf8(session@);
    }
    auth_request(iLet_conf, session.as_str())
}

/// A request for the telemetry of a span of time.
#[derive(Debug, PartialEq)]
pub struct DataRequest {
    /// The address to get.
    pub url: String,
    /// The parameters of the query, by name and value.
    pub query: Vec<(String, String)>,
    /// The value of the `Authorization` header.
    pub authorization: String,
    /// How long to wait for the answer.
    pub timeout_seconds: u64,
}

/// What a `DataRequest` holds.
pub struct DataRequestView {
    pub url: Seq<char>,
    pub query: Seq<(Seq<char>, Seq<char>)>,
    pub authorization: Seq<char>,
    pub timeout_seconds: int,
}

impl View for DataRequest {
    type V = DataRequestView;

    open spec fn view(&self) -> DataRequestView {
        DataRequestView {
            url: self.url@,
            query: self.query@.map_values(|p: (String, String)| (p.0@, p.1@)),
            authorization: self.authorization@,
            timeout_seconds: self.timeout_seconds as int,
        }
    }
}

/// The request for what the pump `serial_number` reported from `start` to
/// `end`, both in seconds since 1970-01-01T00:00:00Z, made with `id_token`.
pub open spec fn telemetry_request(
    id_token: Seq<char>,
    serial_number: Seq<char>,
    start: int,
    end: int,
) -> DataRequestView {
    DataRequestView {
        url: "https://us-apps.betabionicsapi.com/1/reporting/clinicalstepdata?"@,
        query: seq![
            ("serialNumber"@, serial_number),
            ("epochStartDate"@, int_text(start)),
            ("epochEndDate"@, int_text(end)),
        ],
        authorization: "Bearer "@ + id_token,
        timeout_seconds: 120,
    }
}

/// The request for the telemetry of one pump between two moments, given in
/// seconds since 1970-01-01T00:00:00Z.
#[allow(non_snake_case)]
pub fn grab_iLet_data(
    iLet_auth_data: &iLetAuthResponse,
    serial_number: String,
    start: i64,
    end: i64,
) -> (r: DataRequest)
    ensures
        r@ == telemetry_request(
            iLet_auth_data@.id_token,
            serial_number@,
            start as int,
            end as int,
        ),
{
    let mut query: Vec<(String, String)> = Vec::new();
    query.push(("serialNumber".to_owned(), serial_number));
    query.push(("epochStartDate".to_owned(), int_to_text(start)));
    query.push(("epochEndDate".to_owned(), int_to_text(end)));
    let mut authorization = "Bearer ".to_owned();
    authorization.append(iLet_auth_data.id_token.as_str());
    let r = DataRequest {
        url: "https://us-apps.betabionicsapi.com/1/reporting/clinicalstepdata?".to_owned(),
        query,
        authorization,
        timeout_seconds: 120,
    };
    assert(r@.query =~= telemetry_request(
        iLet_auth_data@.id_token,
        serial_number@,
        start as int,
        end as int,
    ).query);
    r
}

/// What the status of the vendor's answer says.
#[derive(Clone, Copy, Debug, PartialEq, Eq, Structural)]
pub enum Reply {
    /// A success: the body holds what was asked for.
    Accepted,
    /// An error of the client or of the server.
    Rejected(ServerErrors),
    /// Neither a success nor an error.
    Unexpected,
}

/// What an answer with the status code `status` says.
pub open spec fn reply(status: int) -> Reply {
    match status_class(status) {
        StatusClass::Success => Reply::Accepted,
        StatusClass::ServerError => Reply::Rejected(ServerErrors::ServerSideIssue),
        StatusClass::ClientError => Reply::Rejected(ServerErrors::BadUserInfo),
        StatusClass::Other => Reply::Unexpected,
    }
}

/// Reads the status of the vendor's answer: a client error means that the
/// credentials are wrong, a server error that the vendor is at fault.
pub fn read_status(status: u16) -> (r: Reply)
    ensures
        r == reply(status as int),
{
    match classify(status) {
        StatusClass::Success => Reply::Accepted,
        StatusClass::ServerError => Reply::Rejected(ServerErrors::ServerSideIssue),
        StatusClass::ClientError => Reply::Rejected(ServerErrors::BadUserInfo),
        StatusClass::Other => Reply::Unexpected,
    }
}

} // verus!
