use salesforce_query::auth::{AuthError, AuthResponse, Credentials};
use salesforce_query::query::{account_query, QueryError};
use salesforce_query::session::{Action, Event, Outcome, Phase, Report, Session};

fn placeholders() -> Credentials {
    Credentials {
        client_id: "your_client_id".to_string(),
        client_secret: "your_client_secret".to_string(),
        username: "your_username".to_string(),
        password: "your_password_with_security_token".to_string(),
    }
}

fn authenticated(query: &str, auth: AuthResponse) -> (Session, Action) {
    let (session, _) = Session::start(&placeholders(), query);
    let (session, action) = session.step(Event::TokenStatus { status: 200 }).unwrap();
    assert_eq!(action, Action::DecodeToken);
    session.step(Event::TokenDecoded { auth }).unwrap()
}

#[test]
fn accepted_token_leads_to_the_account_query() {
    let (session, action) = Session::start(&placeholders(), &account_query());
    assert!(matches!(action, Action::PostForm { .. }));
    let (session, action) = session.step(Event::TokenStatus { status: 200 }).unwrap();
    assert_eq!(action, Action::DecodeToken);
    let auth = AuthResponse {
        access_token: "tok123".to_string(),
        instance_url: "https://example.my.salesforce.com".to_string(),
    };
    let (session, action) = session.step(Event::TokenDecoded { auth: auth.clone() }).unwrap();
    assert_eq!(
        action,
        Action::Get {
            url: "https://example.my.salesforce.com/services/data/v58.0/query/?q=SELECT Id, Name FROM Account"
                .to_string(),
            authorization: "Bearer tok123".to_string(),
        }
    );
    assert_eq!(session.phase, Phase::AwaitingQuery { auth });
}

#[test]
fn refused_token_is_diagnosed_and_no_query_is_sent() {
    let (session, first) = Session::start(&placeholders(), &account_query());
    let (session, second) = session.step(Event::TokenStatus { status: 400 }).unwrap();
    assert_eq!(second, Action::ReadRefusal);
    let (session, third) = session
        .step(Event::RefusalRead {
            detail: "HTTP status client error (400 Bad Request)".to_string(),
            body: Some("{\"error\":\"invalid_grant\"}".to_string()),
        })
        .unwrap();
    for action in [&first, &second, &third] {
        assert!(!matches!(action, Action::Get { .. }));
    }
    match &third {
        Action::Finish { report } => {
            assert!(report.stdout.is_empty());
            assert_eq!(report.stderr.len(), 2);
            assert!(report.stderr[0].contains("invalid_grant"));
            assert_eq!(
                report.stderr[0],
                "Failed to authenticate. Response: {\"error\":\"invalid_grant\"}"
            );
            assert_eq!(
                report.stderr[1],
                "Error authenticating: HTTP status client error (400 Bad Request)"
            );
        },
        other => panic!("the run did not end: {:?}", other),
    }
    assert_eq!(
        session.phase,
        Phase::Finished {
            outcome: Outcome::AuthFailed(AuthError::Rejected {
                status: 400,
                detail: "HTTP status client error (400 Bad Request)".to_string(),
                body: Some("{\"error\":\"invalid_grant\"}".to_string()),
            }),
        }
    );
    assert_eq!(session.step(Event::QueryAnswered { text: "late".to_string() }), None);
}

#[test]
fn unreachable_query_endpoint_is_reported_on_the_error_stream() {
    let auth = AuthResponse {
        access_token: "tok123".to_string(),
        instance_url: "http://127.0.0.1:9".to_string(),
    };
    let (session, action) = authenticated(&account_query(), auth);
    assert!(matches!(action, Action::Get { .. }));
    let (session, action) = session
        .step(Event::TransportFailed { detail: "connection refused".to_string() })
        .unwrap();
    match &action {
        Action::Finish { report } => {
            assert!(report.stdout.is_empty());
            assert_eq!(report.stderr.len(), 1);
            assert!(report.stderr[0].starts_with("Error querying Salesforce: "));
            assert_eq!(report.stderr[0], "Error querying Salesforce: connection refused");
        },
        other => panic!("the run did not end: {:?}", other),
    }
    assert_eq!(
        session.phase,
        Phase::Finished {
            outcome: Outcome::QueryFailed(QueryError { detail: "connection refused".to_string() }),
        }
    );
}

#[test]
fn answered_query_ends_the_run_with_one_line() {
    let auth = AuthResponse {
        access_token: "tok123".to_string(),
        instance_url: "https://example.my.salesforce.com".to_string(),
    };
    let (session, _) = authenticated(&account_query(), auth);
    let body = "{\"totalSize\":1,\"done\":true,\"records\":[{\"Id\":\"001\",\"Name\":\"Acme\"}]}";
    let (session, action) = session.step(Event::QueryAnswered { text: body.to_string() }).unwrap();
    assert_eq!(
        action,
        Action::Finish {
            report: Report { stdout: vec![format!("Response: {}", body)], stderr: vec![] },
        }
    );
    assert_eq!(session.phase, Phase::Finished { outcome: Outcome::Completed });
}

#[test]
fn unreachable_token_endpoint_sends_no_query() {
    let (session, _) = Session::start(&placeholders(), &account_query());
    let (session, action) = session
        .step(Event::TransportFailed { detail: "error sending request".to_string() })
        .unwrap();
    assert_eq!(
        action,
        Action::Finish {
            report: Report {
                stdout: vec![],
                stderr: vec!["Error authenticating: error sending request".to_string()],
            },
        }
    );
    assert_eq!(
        session.phase,
        Phase::Finished {
            outcome: Outcome::AuthFailed(AuthError::Unreachable {
                detail: "error sending request".to_string(),
            }),
        }
    );
}

#[test]
fn query_text_reaches_the_address_unchanged() {
    let auth = AuthResponse {
        access_token: "t".to_string(),
        instance_url: "https://h.example".to_string(),
    };
    let (_, action) = authenticated("SELECT Id FROM Account", auth);
    match action {
        Action::Get { url, .. } => assert!(url.contains("?q=SELECT Id FROM Account")),
        other => panic!("no query was sent: {:?}", other),
    }
}
