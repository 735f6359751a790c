//! The token exchange: what is sent to the token endpoint, how its answer
//! is judged, and what is reported when it refuses.

use vstd::prelude::*;
use crate::text::join;

verus! {

/// The four secrets of a password grant. They are handed on as they are;
/// nothing is checked locally. They cannot be formatted, so that they do not
/// end up in a log by accident.
#[derive(Clone, PartialEq, Eq)]
pub struct Credentials {
    pub client_id: String,
    pub client_secret: String,
    pub username: String,
    /// The password, followed by the security token.
    pub password: String,
}

/// What [`Credentials`] hold, as sequences of characters.
pub struct CredentialsView {
    pub client_id: Seq<char>,
    pub client_secret: Seq<char>,
    pub username: Seq<char>,
    pub password: Seq<char>,
}

impl View for Credentials {
    type V = CredentialsView;

    open spec fn view(&self) -> CredentialsView {
        CredentialsView {
            client_id: self.client_id@,
            client_secret: self.client_secret@,
            username: self.username@,
            password: self.password@,
        }
    }
}

/// What a successful token exchange yields: the bearer token and the base
/// address of the API host.
#[derive(Clone, Debug, PartialEq, Eq)]
pub struct AuthResponse {
    pub access_token: String,
    pub instance_url: String,
}

/// What an [`AuthResponse`] holds, as sequences of characters.
pub struct AuthResponseView {
    pub access_token: Seq<char>,
    pub instance_url: Seq<char>,
}

impl View for AuthResponse {
    type V = AuthResponseView;

    open spec fn view(&self) -> AuthResponseView {
        AuthResponseView { access_token: self.access_token@, instance_url: self.instance_url@ }
    }
}

/// Why a token exchange failed.
#[derive(Clone, Debug, PartialEq, Eq)]
pub enum AuthError {
    /// The request could not be sent, or no answer arrived.
    Unreachable { detail: String },
    /// The endpoint answered with a status outside the success class.
    /// `body` is the text of its answer, where that could be read.
    Rejected { status: u16, detail: String, body: Option<String> },
    /// The endpoint answered with success, but its body is not the
    /// expected JSON object.
    Undecodable { detail: String },
}

/// An [`AuthError`], as sequences of characters.
pub enum AuthErrorView {
    Unreachable { detail: Seq<char> },
    Rejected { status: u16, detail: Seq<char>, body: Option<Seq<char>> },
    Undecodable { detail: Seq<char> },
}

impl AuthErrorView {
    /// The transport's own description of what went wrong.
    pub open spec fn detail(self) -> Seq<char> {
        match self {
            AuthErrorView::Unreachable { detail } => detail,
            AuthErrorView::Rejected { detail, .. } => detail,
            AuthErrorView::Undecodable { detail } => detail,
        }
    }
}

impl View for AuthError {
    type V = AuthErrorView;

    open spec fn view(&self) -> AuthErrorView {
        match self {
            AuthError::Unreachable { detail } => AuthErrorView::Unreachable { detail: detail@ },
            AuthError::Rejected { status, detail, body } => AuthErrorView::Rejected {
                status: *status,
                detail: detail@,
                body: body.deep_view(),
            },
            AuthError::Undecodable { detail } => AuthErrorView::Undecodable { detail: detail@ },
        }
    }
}

impl AuthError {
    /// The transport's own description of what went wrong.
    pub fn detail(&self) -> (detail: &str)
        ensures
            detail@ == self@.detail(),
    {
        match self {
            AuthError::Unreachable { detail } => detail.as_str(),
            AuthError::Rejected { detail, .. } => detail.as_str(),
            AuthError::Undecodable { detail } => detail.as_str(),
        }
    }
}

/// The address of the token endpoint.
pub open spec fn spec_token_endpoint() -> Seq<char> {
    "https://na18-dev-ed.develop.my.salesforce.com/services/oauth2/token"@
}

/// The address of the token endpoint.
pub fn token_endpoint() -> (url: String)
    ensures
        url@ == spec_token_endpoint(),
{
    String::from_str("https://na18-dev-ed.develop.my.salesforce.com/services/oauth2/token")
}

/// The fields of the token request's form, in the order in which they are
/// sent: the grant type, then the four secrets.
pub open spec fn spec_token_form(credentials: CredentialsView) -> Seq<(Seq<char>, Seq<char>)> {
    seq![
        ("grant_type"@, "password"@),
        ("client_id"@, credentials.client_id),
        ("client_secret"@, credentials.client_secret),
        ("username"@, credentials.username),
        ("password"@, credentials.password),
    ]
}

/// The fields of the token request's form for `credentials`.
pub fn token_form(credentials: &Credentials) -> (fields: Vec<(String, String)>)
    ensures
        fields.deep_view() == spec_token_form(credentials@),
{
    let mut fields: Vec<(String, String)> = Vec::new();
    fields.push((String::from_str("grant_type"), String::from_str("password")));
    fields.push((String::from_str("client_id"), credentials.client_id.clone()));
    fields.push((String::from_str("client_secret"), credentials.client_secret.clone()));
    fields.push((String::from_str("username"), credentials.username.clone()));
    fields.push((String::from_str("password"), credentials.password.clone()));
    assert(fields.deep_view() =~= spec_token_form(credentials@));
    fields
}

/// The success class of HTTP status codes: 200 to 299.
pub open spec fn spec_is_success(status: u16) -> bool {
    200 <= status && status <= 299
}

/// Tells whether `status` belongs to the success class. Every other status
/// makes the token exchange fail.
pub fn is_success(status: u16) -> (ok: bool)
    ensures
        ok == spec_is_success(status),
{
    200 <= status && status <= 299
}

/// What stands in for the body of a refusal that could not be read.
pub open spec fn spec_unreadable_body() -> Seq<char> {
    "Failed to read error response"@
}

/// The diagnostic line for a refused token exchange: a fixed label, then
/// the body of the refusal, or the stand-in where there is none.
pub open spec fn spec_failure_diagnostic(body: Option<Seq<char>>) -> Seq<char> {
    "Failed to authenticate. Response: "@ + match body {
        Some(text) => text,
        None => spec_unreadable_body(),
    }
}

/// The diagnostic line for a refused token exchange whose body was `body`,
/// or could not be read (`None`).
pub fn failure_diagnostic(body: &Option<String>) -> (line: String)
    ensures
        line@ == spec_failure_diagnostic(body.deep_view()),
{
    match body {
        Some(text) => join("Failed to authenticate. Response: ", text.as_str()),
        None => join("Failed to authenticate. Response: ", "Failed to read error response"),
    }
}

} // verus!
