//! What holds of every run, proved of the machine's transition function.

use vstd::prelude::*;
use crate::auth::{
    spec_failure_diagnostic, spec_is_success, spec_unreadable_body, AuthErrorView,
    AuthResponseView, CredentialsView,
};
use crate::query::{spec_bearer, spec_request_url, spec_response_line};
use crate::session::{
    spec_auth_error_line, spec_start, spec_step, ActionView, EventView, OutcomeView, PhaseView,
    ReportView, SessionView,
};
use crate::text::{lemma_occurs_behind, occurs_in};

verus! {

/// The number of events that a session can still take, at most.
pub open spec fn events_left(phase: PhaseView) -> nat {
    match phase {
        PhaseView::AwaitingToken => 3,
        PhaseView::AwaitingDecode => 2,
        PhaseView::AwaitingRefusal { .. } => 1,
        PhaseView::AwaitingQuery { .. } => 1,
        PhaseView::Finished { .. } => 0,
    }
}

/// Where the token endpoint answers with a status of the success class
/// and its body decodes to a token and an instance address, authentication
/// yields exactly that pair, whatever the credentials were: the session
/// holds it, and the query goes to that address with that token.
pub proof fn lemma_decoded_token_is_kept(
    credentials: CredentialsView,
    query: Seq<char>,
    status: u16,
    auth: AuthResponseView,
)
    requires
        spec_is_success(status),
    ensures
        ({
            let started = spec_start(credentials, query).0;
            let answered = spec_step(started, EventView::TokenStatus { status });
            &&& answered is Some
            &&& answered.unwrap().1 == ActionView::DecodeToken
            &&& spec_step(answered.unwrap().0, EventView::TokenDecoded { auth }) == Some(
                (
                    SessionView { query, phase: PhaseView::AwaitingQuery { auth } },
                    ActionView::Get {
                        url: spec_request_url(auth.instance_url, query),
                        authorization: spec_bearer(auth.access_token),
                    },
                ),
            )
        }),
{
}

/// Where the token endpoint answers with a status outside the success
/// class, authentication fails, whatever the credentials were. The body
/// of the answer is asked for, and the run ends with an error that holds
/// the status, the description and the body. Nothing goes to standard
/// output; the error stream gets the diagnostic line and then the error
/// line. The diagnostic line holds the body where it could be read, and
/// the fixed stand-in where it could not: an unreadable body is no
/// failure of its own.
pub proof fn lemma_refusal_is_reported(
    credentials: CredentialsView,
    query: Seq<char>,
    status: u16,
    detail: Seq<char>,
    body: Option<Seq<char>>,
)
    requires
        !spec_is_success(status),
    ensures
        ({
            let started = spec_start(credentials, query).0;
            let answered = spec_step(started, EventView::TokenStatus { status });
            &&& answered is Some
            &&& answered.unwrap().1 == ActionView::ReadRefusal
            &&& spec_step(answered.unwrap().0, EventView::RefusalRead { detail, body }) == Some(
                (
                    SessionView {
                        query,
                        phase: PhaseView::Finished {
                            outcome: OutcomeView::AuthFailed(
                                AuthErrorView::Rejected { status, detail, body },
                            ),
                        },
                    },
                    ActionView::Finish {
                        report: ReportView {
                            stdout: Seq::empty(),
                            stderr: seq![
                                spec_failure_diagnostic(body),
                                spec_auth_error_line(detail),
                            ],
                        },
                    },
                ),
            )
        }),
        match body {
            Some(text) => occurs_in(spec_failure_diagnostic(body), text),
            None => occurs_in(spec_failure_diagnostic(body), spec_unreadable_body()),
        },
{
    let started = spec_start(credentials, query).0;
    let answered = spec_step(started, EventView::TokenStatus { status });
    let stderr = seq![spec_failure_diagnostic(body), spec_auth_error_line(detail)];
    assert(seq![spec_failure_diagnostic(body)].push(spec_auth_error_line(detail)) =~= stderr);
    match body {
        Some(text) => lemma_occurs_behind("Failed to authenticate. Response: "@, text),
        None => lemma_occurs_behind(
            "Failed to authenticate. Response: "@,
            spec_unreadable_body(),
        ),
    }
}

/// Where the query is answered with a body, the run ends well: standard
/// output gets the line that reports the body, and the error stream gets
/// nothing. The status of the answer has no part in this: it is not even
/// told to the machine.
pub proof fn lemma_answer_is_reported(session: SessionView, body: Seq<char>)
    requires
        session.phase is AwaitingQuery,
    ensures
        spec_step(session, EventView::QueryAnswered { text: body }) == Some(
            (
                SessionView {
                    query: session.query,
                    phase: PhaseView::Finished { outcome: OutcomeView::Completed },
                },
                ActionView::Finish {
                    report: ReportView {
                        stdout: seq![spec_response_line(body)],
                        stderr: Seq::empty(),
                    },
                },
            ),
        ),
        occurs_in(spec_response_line(body), body),
{
    lemma_occurs_behind("Response: "@, body);
}

/// A query is sent only once a token has been decoded, and no step sends
/// a second token request.
pub proof fn lemma_query_needs_token(session: SessionView, event: EventView)
    ensures
        spec_step(session, event) matches Some((_, action)) ==> {
            &&& action is Get ==> session.phase is AwaitingDecode && event is TokenDecoded
            &&& !(action is PostForm)
        },
{
}

/// The session that a run begins with holds the query and nothing of the
/// credentials: it is the same whatever they are.
pub proof fn lemma_session_holds_no_secret(
    credentials: CredentialsView,
    others: CredentialsView,
    query: Seq<char>,
)
    ensures
        spec_start(credentials, query).0 == spec_start(others, query).0,
        spec_start(credentials, query).0 == (SessionView { query, phase: PhaseView::AwaitingToken }),
{
}

/// A run writes to standard output exactly when it ends well, and to the
/// error stream exactly when it ends in failure; and an action ends the run
/// exactly when the session after it is over.
pub proof fn lemma_output_matches_outcome(session: SessionView, event: EventView)
    ensures
        spec_step(session, event) matches Some((after, action)) ==> {
            &&& after.query == session.query
            &&& action is Finish <==> after.phase is Finished
            &&& action matches ActionView::Finish { report } ==> {
                &&& after.phase matches PhaseView::Finished { outcome }
                &&& outcome is Completed ==> report.stdout.len() == 1 && report.stderr.len() == 0
                &&& !(outcome is Completed) ==> report.stdout.len() == 0 && report.stderr.len()
                    >= 1
            }
        },
{
}

/// A run that is over takes no further event, and every event that a
/// session takes brings it nearer its end: no run takes more than three.
pub proof fn lemma_every_run_ends(session: SessionView, event: EventView)
    ensures
        session.phase is Finished ==> spec_step(session, event) is None,
        spec_step(session, event) is Some ==> events_left(spec_step(session, event).unwrap().0.phase)
            < events_left(session.phase),
        events_left(session.phase) <= 3,
{
}

} // verus!
