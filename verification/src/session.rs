//! One run of the client as a state machine: authenticate, then query,
//! then report. The machine names the next thing to do; whoever runs it
//! does that and tells the machine what came of it.

use vstd::prelude::*;
use crate::auth::{
    failure_diagnostic, is_success, spec_failure_diagnostic, spec_is_success, spec_token_endpoint,
    spec_token_form, token_endpoint, token_form, AuthError, AuthErrorView, AuthResponse,
    AuthResponseView, Credentials, CredentialsView,
};
use crate::query::{
    bearer, request_url, response_line, spec_bearer, spec_request_url, spec_response_line,
    QueryError, QueryErrorView,
};
use crate::text::join;

verus! {

/// The lines to write when a run ends, in order, for each of the two
/// streams.
#[derive(Clone, Debug, PartialEq, Eq)]
pub struct Report {
    /// Lines for standard output.
    pub stdout: Vec<String>,
    /// Lines for the error stream.
    pub stderr: Vec<String>,
}

/// A [`Report`], as sequences of characters.
pub struct ReportView {
    pub stdout: Seq<Seq<char>>,
    pub stderr: Seq<Seq<char>>,
}

impl View for Report {
    type V = ReportView;

    open spec fn view(&self) -> ReportView {
        ReportView { stdout: self.stdout.deep_view(), stderr: self.stderr.deep_view() }
    }
}

/// What the machine asks for next.
#[derive(Clone, Debug, PartialEq, Eq)]
pub enum Action {
    /// Send a POST to `url` with `fields` as its form-encoded body, and
    /// tell the status of the answer.
    PostForm { url: String, fields: Vec<(String, String)> },
    /// Decode the body of the token endpoint's answer as JSON.
    DecodeToken,
    /// Describe the refusal and read the body of the token endpoint's
    /// answer as text.
    ReadRefusal,
    /// Send a GET to `url` with `authorization` as the value of its
    /// `Authorization` header, and read the body of the answer as text.
    Get { url: String, authorization: String },
    /// Write the report's lines and stop.
    Finish { report: Report },
}

/// An [`Action`], as sequences of characters.
pub enum ActionView {
    PostForm { url: Seq<char>, fields: Seq<(Seq<char>, Seq<char>)> },
    DecodeToken,
    ReadRefusal,
    Get { url: Seq<char>, authorization: Seq<char> },
    Finish { report: ReportView },
}

impl View for Action {
    type V = ActionView;

    open spec fn view(&self) -> ActionView {
        match self {
            Action::PostForm { url, fields } => ActionView::PostForm {
                url: url@,
                fields: fields.deep_view(),
            },
            Action::DecodeToken => ActionView::DecodeToken,
            Action::ReadRefusal => ActionView::ReadRefusal,
            Action::Get { url, authorization } => ActionView::Get {
                url: url@,
                authorization: authorization@,
            },
            Action::Finish { report } => ActionView::Finish { report: report@ },
        }
    }
}

/// What came of the last action.
#[derive(Clone, Debug, PartialEq, Eq)]
pub enum Event {
    /// The request could not be sent, no answer arrived, or the body of
    /// the query's answer could not be read as text.
    TransportFailed { detail: String },
    /// The token endpoint answered with this status.
    TokenStatus { status: u16 },
    /// The body of the token endpoint's answer decoded to this.
    TokenDecoded { auth: AuthResponse },
    /// The body of the token endpoint's answer could not be read or is
    /// not the expected JSON object.
    TokenUndecodable { detail: String },
    /// The token endpoint's refusal: the transport's description of it,
    /// and the text of its body, or `None` where that could not be read.
    RefusalRead { detail: String, body: Option<String> },
    /// The body of the query's answer, as text.
    QueryAnswered { text: String },
}

/// An [`Event`], as sequences of characters.
pub enum EventView {
    TransportFailed { detail: Seq<char> },
    TokenStatus { status: u16 },
    TokenDecoded { auth: AuthResponseView },
    TokenUndecodable { detail: Seq<char> },
    RefusalRead { detail: Seq<char>, body: Option<Seq<char>> },
    QueryAnswered { text: Seq<char> },
}

impl View for Event {
    type V = EventView;

    open spec fn view(&self) -> EventView {
        match self {
            Event::TransportFailed { detail } => EventView::TransportFailed { detail: detail@ },
            Event::TokenStatus { status } => EventView::TokenStatus { status: *status },
            Event::TokenDecoded { auth } => EventView::TokenDecoded { auth: auth@ },
            Event::TokenUndecodable { detail } => EventView::TokenUndecodable { detail: detail@ },
            Event::RefusalRead { detail, body } => EventView::RefusalRead {
                detail: detail@,
                body: body.deep_view(),
            },
            Event::QueryAnswered { text } => EventView::QueryAnswered { text: text@ },
        }
    }
}

/// How a run ended.
#[derive(Clone, Debug, PartialEq, Eq)]
pub enum Outcome {
    /// The query was answered and its answer reported.
    Completed,
    /// Authentication failed; no query was sent.
    AuthFailed(AuthError),
    /// Authentication succeeded and the query failed.
    QueryFailed(QueryError),
}

/// An [`Outcome`], as sequences of characters.
pub enum OutcomeView {
    Completed,
    AuthFailed(AuthErrorView),
    QueryFailed(QueryErrorView),
}

impl View for Outcome {
    type V = OutcomeView;

    open spec fn view(&self) -> OutcomeView {
        match self {
            Outcome::Completed => OutcomeView::Completed,
            Outcome::AuthFailed(error) => OutcomeView::AuthFailed(error@),
            Outcome::QueryFailed(error) => OutcomeView::QueryFailed(error@),
        }
    }
}

/// Where a run stands: what it is waiting for, or how it ended.
#[derive(Clone, Debug, PartialEq, Eq)]
pub enum Phase {
    /// The token request is under way.
    AwaitingToken,
    /// The token endpoint answered with success; its body is being decoded.
    AwaitingDecode,
    /// The token endpoint answered with `status`, which is no success; its
    /// body is being read.
    AwaitingRefusal { status: u16 },
    /// Authentication yielded `auth`; the query is under way.
    AwaitingQuery { auth: AuthResponse },
    /// The run is over.
    Finished { outcome: Outcome },
}

/// A [`Phase`], as sequences of characters.
pub enum PhaseView {
    AwaitingToken,
    AwaitingDecode,
    AwaitingRefusal { status: u16 },
    AwaitingQuery { auth: AuthResponseView },
    Finished { outcome: OutcomeView },
}

impl View for Phase {
    type V = PhaseView;

    open spec fn view(&self) -> PhaseView {
        match self {
            Phase::AwaitingToken => PhaseView::AwaitingToken,
            Phase::AwaitingDecode => PhaseView::AwaitingDecode,
            Phase::AwaitingRefusal { status } => PhaseView::AwaitingRefusal { status: *status },
            Phase::AwaitingQuery { auth } => PhaseView::AwaitingQuery { auth: auth@ },
            Phase::Finished { outcome } => PhaseView::Finished { outcome: outcome@ },
        }
    }
}

/// One run: the query to send once authenticated, and where the run stands.
#[derive(Clone, Debug, PartialEq, Eq)]
pub struct Session {
    pub query: String,
    pub phase: Phase,
}

/// A [`Session`], as sequences of characters.
pub struct SessionView {
    pub query: Seq<char>,
    pub phase: PhaseView,
}

impl View for Session {
    type V = SessionView;

    open spec fn view(&self) -> SessionView {
        SessionView { query: self.query@, phase: self.phase@ }
    }
}

/// The line that reports a failed authentication to the error stream.
pub open spec fn spec_auth_error_line(detail: Seq<char>) -> Seq<char> {
    "Error authenticating: "@ + detail
}

/// The line that reports a failed query to the error stream.
pub open spec fn spec_query_error_line(detail: Seq<char>) -> Seq<char> {
    "Error querying Salesforce: "@ + detail
}

/// The line that reports a failed authentication, described by `detail`.
pub fn auth_error_line(detail: &str) -> (line: String)
    ensures
        line@ == spec_auth_error_line(detail@),
{
    join("Error authenticating: ", detail)
}

/// The line that reports a failed query, described by `detail`.
pub fn query_error_line(detail: &str) -> (line: String)
    ensures
        line@ == spec_query_error_line(detail@),
{
    join("Error querying Salesforce: ", detail)
}

/// The end of a run: the session is over with `outcome`, and the lines
/// are to be written.
pub open spec fn spec_finish(
    query: Seq<char>,
    outcome: OutcomeView,
    stdout: Seq<Seq<char>>,
    stderr: Seq<Seq<char>>,
) -> (SessionView, ActionView) {
    (
        SessionView { query, phase: PhaseView::Finished { outcome } },
        ActionView::Finish { report: ReportView { stdout, stderr } },
    )
}

/// The end of a failed authentication: the error line goes to the error
/// stream, after the diagnostic line where there is one.
pub open spec fn spec_auth_failed(
    query: Seq<char>,
    error: AuthErrorView,
    diagnostic: Seq<Seq<char>>,
) -> (SessionView, ActionView) {
    spec_finish(
        query,
        OutcomeView::AuthFailed(error),
        Seq::empty(),
        diagnostic.push(spec_auth_error_line(error.detail())),
    )
}

/// A run begins by sending the credentials to the token endpoint.
pub open spec fn spec_start(credentials: CredentialsView, query: Seq<char>) -> (
    SessionView,
    ActionView,
) {
    (
        SessionView { query, phase: PhaseView::AwaitingToken },
        ActionView::PostForm { url: spec_token_endpoint(), fields: spec_token_form(credentials) },
    )
}

/// What follows when `event` reaches `session`: the session after it and
/// the next action, or `None` where the session is not waiting for such an
/// event.
///
/// While the token request is under way, a transport failure ends the run,
/// and a status decides whether the body is decoded (success class) or read
/// as the text of a refusal (every other status). A decoded token leads to
/// the query; a body that does not decode ends the run. A refusal, once
/// read, ends the run with a diagnostic line that holds its body. While the
/// query is under way, an answer ends the run with the line that reports
/// it, and a transport failure ends it with an error line. A run that is
/// over accepts nothing.
pub open spec fn spec_step(session: SessionView, event: EventView) -> Option<
    (SessionView, ActionView),
> {
    let query = session.query;
    match (session.phase, event) {
        (PhaseView::AwaitingToken, EventView::TransportFailed { detail }) => Some(
            spec_auth_failed(query, AuthErrorView::Unreachable { detail }, Seq::empty()),
        ),
        (PhaseView::AwaitingToken, EventView::TokenStatus { status }) => Some(
            if spec_is_success(status) {
                (SessionView { query, phase: PhaseView::AwaitingDecode }, ActionView::DecodeToken)
            } else {
                (
                    SessionView { query, phase: PhaseView::AwaitingRefusal { status } },
                    ActionView::ReadRefusal,
                )
            },
        ),
        (PhaseView::AwaitingDecode, EventView::TokenDecoded { auth }) => Some(
            (
                SessionView { query, phase: PhaseView::AwaitingQuery { auth } },
                ActionView::Get {
                    url: spec_request_url(auth.instance_url, query),
                    authorization: spec_bearer(auth.access_token),
                },
            ),
        ),
        (PhaseView::AwaitingDecode, EventView::TokenUndecodable { detail }) => Some(
            spec_auth_failed(query, AuthErrorView::Undecodable { detail }, Seq::empty()),
        ),
        (PhaseView::AwaitingRefusal { status }, EventView::RefusalRead { detail, body }) => Some(
            spec_auth_failed(
                query,
                AuthErrorView::Rejected { status, detail, body },
                seq![spec_failure_diagnostic(body)],
            ),
        ),
        (PhaseView::AwaitingQuery { .. }, EventView::QueryAnswered { text }) => Some(
            spec_finish(
                query,
                OutcomeView::Completed,
                seq![spec_response_line(text)],
                Seq::empty(),
            ),
        ),
        (PhaseView::AwaitingQuery { .. }, EventView::TransportFailed { detail }) => Some(
            spec_finish(
                query,
                OutcomeView::QueryFailed(QueryErrorView { detail }),
                Seq::empty(),
                seq![spec_query_error_line(detail)],
            ),
        ),
        _ => None,
    }
}

/// The view of what a step returns.
pub open spec fn stepped_view(next: Option<(Session, Action)>) -> Option<(SessionView, ActionView)> {
    match next {
        Some((session, action)) => Some((session@, action@)),
        None => None,
    }
}

/// Ends a run with `outcome` and the lines to write.
fn finish(query: String, outcome: Outcome, stdout: Vec<String>, stderr: Vec<String>) -> (ended: (
    Session,
    Action,
))
    ensures
        (ended.0@, ended.1@) == spec_finish(
            query@,
            outcome@,
            stdout.deep_view(),
            stderr.deep_view(),
        ),
{
    (
        Session { query, phase: Phase::Finished { outcome } },
        Action::Finish { report: Report { stdout, stderr } },
    )
}

/// Ends a run whose authentication failed with `error`. `diagnostic` holds
/// the lines that go to the error stream before the error line.
fn auth_failed(query: String, error: AuthError, diagnostic: Vec<String>) -> (ended: (
    Session,
    Action,
))
    ensures
        (ended.0@, ended.1@) == spec_auth_failed(query@, error@, diagnostic.deep_view()),
{
    let mut stderr = diagnostic;
    stderr.push(auth_error_line(error.detail()));
    assert(stderr.deep_view() =~= diagnostic.deep_view().push(
        spec_auth_error_line(error@.detail()),
    ));
    let stdout: Vec<String> = Vec::new();
    assert(stdout.deep_view() =~= Seq::<Seq<char>>::empty());
    finish(query, Outcome::AuthFailed(error), stdout, stderr)
}

/// A list that holds `line` and nothing else.
fn single_line(line: String) -> (lines: Vec<String>)
    ensures
        lines.deep_view() == seq![line@],
{
    let mut lines: Vec<String> = Vec::new();
    lines.push(line);
    assert(lines.deep_view() =~= seq![line@]);
    lines
}

/// A list that holds no line.
fn no_line() -> (lines: Vec<String>)
    ensures
        lines.deep_view() == Seq::<Seq<char>>::empty(),
{
    let lines: Vec<String> = Vec::new();
    assert(lines.deep_view() =~= Seq::<Seq<char>>::empty());
    lines
}

impl Session {
    /// Begins a run that authenticates with `credentials` and then sends
    /// `query`. The first action is the token request.
    pub fn start(credentials: &Credentials, query: &str) -> (started: (Session, Action))
        ensures
            (started.0@, started.1@) == spec_start(credentials@, query@),
    {
        (
            Session { query: String::from_str(query), phase: Phase::AwaitingToken },
            Action::PostForm { url: token_endpoint(), fields: token_form(credentials) },
        )
    }

    /// Takes `event`, the result of the last action, and returns the
    /// session after it with the next action; `None` where the session is
    /// not waiting for such an event.
    pub fn step(self, event: Event) -> (next: Option<(Session, Action)>)
        ensures
            stepped_view(next) == spec_step(self@, event@),
    {
        let Session { query, phase } = self;
        match phase {
            Phase::AwaitingToken => match event {
                Event::TransportFailed { detail } => Some(
                    auth_failed(query, AuthError::Unreachable { detail }, no_line()),
                ),
                Event::TokenStatus { status } => {
                    if is_success(status) {
                        Some((Session { query, phase: Phase::AwaitingDecode }, Action::DecodeToken))
                    } else {
                        Some(
                            (
                                Session { query, phase: Phase::AwaitingRefusal { status } },
                                Action::ReadRefusal,
                            ),
                        )
                    }
                },
                _ => None,
            },
            Phase::AwaitingDecode => match event {
                Event::TokenDecoded { auth } => {
                    let url = request_url(auth.instance_url.as_str(), query.as_str());
                    let authorization = bearer(auth.access_token.as_str());
                    Some(
                        (
                            Session { query, phase: Phase::AwaitingQuery { auth } },
                            Action::Get { url, authorization },
                        ),
                    )
                },
                Event::TokenUndecodable { detail } => Some(
                    auth_failed(query, AuthError::Undecodable { detail }, no_line()),
                ),
                _ => None,
            },
            Phase::AwaitingRefusal { status } => match event {
                Event::RefusalRead { detail, body } => {
                    let diagnostic = single_line(failure_diagnostic(&body));
                    Some(auth_failed(query, AuthError::Rejected { status, detail, body }, diagnostic))
                },
                _ => None,
            },
            Phase::AwaitingQuery { .. } => match event {
                Event::QueryAnswered { text } => {
                    let stdout = single_line(response_line(text.as_str()));
                    Some(finish(query, Outcome::Completed, stdout, no_line()))
                },
                Event::TransportFailed { detail } => {
                    let stderr = single_line(query_error_line(detail.as_str()));
                    Some(
                        finish(
                            query,
                            Outcome::QueryFailed(QueryError { detail }),
                            no_line(),
                            stderr,
                        ),
                    )
                },
                _ => None,
            },
            Phase::Finished { .. } => None,
        }
    }
}

} // verus!
