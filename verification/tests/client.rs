//! The typed request executor, driven through substitute transports: header
//! injection, pipeline short-circuiting, error classification and an
//! end-to-end decoded call.

use std::cell::{Cell, RefCell};
use std::rc::Rc;

use github_client::errors::GitErr;
use github_client::github_client::{
    GithubClient, HttpRequest, HttpResponse, Method, SimpleClient, TransportClient,
};
use github_client::gittm::GitTm;
use github_client::issue_comments::ListIssueCommentsQuery;
use github_client::pull_requests::PullRequestReference;
use github_client::types::Repository;
use github_client::{CommitCommenter, IssueCommenter, PullRequester, Repoer};

/// What a test transport saw and what it answers.
struct MockState {
    calls: Cell<usize>,
    last_url: RefCell<String>,
    last_method: RefCell<Option<Method>>,
    last_headers: RefCell<Vec<(String, String)>>,
    last_body: RefCell<String>,
    reply: RefCell<Vec<(String, String)>>,
    fail_with: RefCell<Option<String>>,
}

impl MockState {
    fn new() -> Rc<MockState> {
        Rc::new(MockState {
            calls: Cell::new(0),
            last_url: RefCell::new(String::new()),
            last_method: RefCell::new(None),
            last_headers: RefCell::new(Vec::new()),
            last_body: RefCell::new(String::new()),
            reply: RefCell::new(Vec::new()),
            fail_with: RefCell::new(None),
        })
    }

    fn header(&self, name: &str) -> Option<String> {
        self.last_headers
            .borrow()
            .iter()
            .find(|(n, _)| n == name)
            .map(|(_, v)| v.clone())
    }
}

struct MockTransport {
    state: Rc<MockState>,
}

impl TransportClient for MockTransport {
    fn send(&self, req: &HttpRequest) -> Result<HttpResponse, String> {
        let st = &self.state;
        st.calls.set(st.calls.get() + 1);
        *st.last_url.borrow_mut() = req.url.clone();
        *st.last_method.borrow_mut() = Some(req.method);
        *st.last_headers.borrow_mut() = req.headers.clone();
        *st.last_body.borrow_mut() = req.body.clone();
        if let Some(msg) = st.fail_with.borrow().clone() {
            return Err(msg);
        }
        let replies = st.reply.borrow();
        let body = replies
            .iter()
            .find(|(url, _)| *url == req.url)
            .map(|(_, b)| b.clone())
            .unwrap_or_else(|| "{}".to_owned());
        Ok(HttpResponse { status: 200, body })
    }
}

fn client_with(state: &Rc<MockState>, token: Option<String>) -> GithubClient<MockTransport> {
    GithubClient::new(
        MockTransport {
            state: Rc::clone(state),
        },
        token,
    )
}

fn acme_widgets() -> Repository {
    Repository {
        owner: "acme".to_owned(),
        repo_name: "widgets".to_owned(),
    }
}

fn user_json(id: u32) -> String {
    format!(
        "{{\"login\":\"octocat\",\"id\":{},\"avatar_url\":\"a\",\"gravatar_id\":\"g\",\
         \"html_url\":\"h\",\"followers_url\":\"f1\",\"following_url\":\"f2\",\
         \"gists_url\":\"g1\",\"starred_url\":\"s1\",\"subscriptions_url\":\"s2\",\
         \"organizations_url\":\"o1\",\"repos_url\":\"r1\",\"events_url\":\"e1\",\
         \"received_events_url\":\"e2\",\"site_admin\":false}}",
        id
    )
}

fn review_comment_json(id: u32) -> String {
    format!(
        "{{\"url\":\"u\",\"id\":{},\"diff_hunk\":\"@@\",\"path\":\"src/lib.rs\",\
         \"position\":3,\"original_position\":3,\"commit_id\":\"c1\",\
         \"original_commit_id\":\"c0\",\"user\":{},\"body\":\"nice\",\
         \"created_at\":\"2015-05-01T12:13:14+0000\",\"updated_at\":\"2015-05-01T12:13:14+0000\",\
         \"html_url\":\"h\",\"pull_request_url\":\"p\"}}",
        id,
        user_json(2)
    )
}

fn issue_comment_json(id: u32, body: &str) -> String {
    format!(
        "{{\"id\":{},\"url\":\"u\",\"html_url\":\"h\",\"body\":\"{}\",\"user\":{},\
         \"created_at\":\"2015-05-01T12:13:14Z\",\"updated_at\":\"2015-05-01T12:13:14Z\"}}",
        id,
        body,
        user_json(2)
    )
}

#[test]
fn headers_present_on_every_call() {
    let state = MockState::new();
    let client = client_with(&state, None);
    let _ = client.get_pr(acme_widgets(), 21);
    assert_eq!(state.calls.get(), 1);
    assert_eq!(
        state.header("Accept").as_deref(),
        Some("application/vnd.github.v3+json")
    );
    assert_eq!(state.header("User-Agent").as_deref(), Some("CatalystBot"));
    assert_eq!(state.header("Connection").as_deref(), Some("close"));
    assert_eq!(state.header("Authorization"), None);
}

#[test]
fn credential_header_present_iff_configured() {
    let state = MockState::new();
    let client = client_with(&state, Some("token abc".to_owned()));
    let _ = client.get_pr(acme_widgets(), 21);
    assert_eq!(state.header("Authorization").as_deref(), Some("token abc"));

    let bare_state = MockState::new();
    let bare = client_with(&bare_state, None);
    let _ = bare.get_pr(acme_widgets(), 21);
    assert_eq!(bare_state.header("Authorization"), None);
}

#[test]
fn encode_failure_short_circuits_before_dispatch() {
    let state = MockState::new();
    let client = client_with(&state, None);
    let broken_time = GitTm {
        year: 2015,
        month: 0,
        day: 1,
        hour: 0,
        minute: 0,
        second: 0,
        off_neg: false,
        off_hour: 0,
        off_minute: 0,
    };
    let query = ListIssueCommentsQuery { since: broken_time };
    let r = client.list_in_issue(acme_widgets(), 5, Some(query));
    assert!(matches!(r, Err(GitErr::EncodeErr(_))));
    assert_eq!(state.calls.get(), 0, "the transport must never be invoked");
}

#[test]
fn connection_failure_yields_network_err() {
    let state = MockState::new();
    *state.fail_with.borrow_mut() = Some("connection refused".to_owned());
    let client = client_with(&state, None);
    let r = client.get_pr(acme_widgets(), 21);
    match r {
        Err(e) => {
            assert!(matches!(e, GitErr::NetworkErr(_)));
            assert_eq!(e.message(), "connection refused");
        },
        Ok(_) => panic!("expected a network error"),
    }
}

#[test]
fn malformed_body_yields_decode_err() {
    let state = MockState::new();
    state.reply.borrow_mut().push((
        "https://api.github.com/repos/acme/widgets/pulls/21".to_owned(),
        "not json".to_owned(),
    ));
    let client = client_with(&state, None);
    let r = client.get_pr(acme_widgets(), 21);
    assert!(matches!(r, Err(GitErr::DecodeErr(_))));
}

#[test]
fn stub_operations_yield_not_implemented() {
    let state = MockState::new();
    let client = client_with(&state, None);
    let pr = PullRequestReference {
        repo: acme_widgets(),
        pull_request_id: 21,
    };
    assert!(matches!(
        client.get_merged(pr),
        Err(GitErr::NotImplemented(_))
    ));
    let pr = PullRequestReference {
        repo: acme_widgets(),
        pull_request_id: 21,
    };
    assert!(matches!(client.merge(pr, None), Err(GitErr::NotImplemented(_))));
    assert!(matches!(
        CommitCommenter::delete_comment(&client, acme_widgets(), 3),
        Err(GitErr::NotImplemented(_))
    ));
    assert!(matches!(
        IssueCommenter::delete_comment(&client, acme_widgets(), 3),
        Err(GitErr::NotImplemented(_))
    ));
    assert!(matches!(
        client.delete_repo(acme_widgets()),
        Err(GitErr::NotImplemented(_))
    ));
    assert_eq!(state.calls.get(), 0, "stubs never reach the transport");
}

#[test]
fn end_to_end_comment_listing_decodes() {
    let state = MockState::new();
    state.reply.borrow_mut().push((
        "https://api.github.com/repos/acme/widgets/pulls/21/comments".to_owned(),
        format!("[{}]", review_comment_json(1)),
    ));
    let client = client_with(&state, None);
    let pr = PullRequestReference {
        repo: acme_widgets(),
        pull_request_id: 21,
    };
    let comments = client.list_comments(pr).expect("the listing must decode");
    assert_eq!(comments.len(), 1);
    assert_eq!(comments[0].id, 1);
    assert_eq!(comments[0].user.login, "octocat");
    assert_eq!(comments[0].created_at.year, 2015);
    assert_eq!(
        *state.last_method.borrow(),
        Some(Method::Get),
        "listing is a read"
    );
}

#[test]
fn pretty_printed_response_decodes() {
    let state = MockState::new();
    state.reply.borrow_mut().push((
        "https://api.github.com/repos/acme/widgets/issues/comments/7".to_owned(),
        format!(
            "{{\n  \"id\": 7,\n  \"url\": \"u\",\n  \"html_url\": \"h\",\n  \"body\": \"fine\",\n  \"user\": {},\n  \"created_at\": \"2015-05-01T12:13:14+0000\",\n  \"updated_at\": \"2015-05-01T12:13:14+0000\"\n}}\n",
            user_json(2)
        ),
    ));
    let client = client_with(&state, None);
    let c = client.get_comment(acme_widgets(), 7).expect("a pretty-printed body must decode");
    assert_eq!(c.id, 7);
    assert_eq!(c.body, "fine");
}

#[test]
fn calls_on_one_client_are_independent() {
    let state = MockState::new();
    state.reply.borrow_mut().push((
        "https://api.github.com/repos/acme/widgets/issues/comments/1".to_owned(),
        issue_comment_json(1, "first"),
    ));
    state.reply.borrow_mut().push((
        "https://api.github.com/repos/acme/widgets/issues/comments/2".to_owned(),
        issue_comment_json(2, "second"),
    ));
    let client = client_with(&state, Some("token abc".to_owned()));
    let a = client.get_comment(acme_widgets(), 1).unwrap();
    let b = client.get_comment(acme_widgets(), 2).unwrap();
    let a_again = client.get_comment(acme_widgets(), 1).unwrap();
    assert_eq!(a.body, "first");
    assert_eq!(b.body, "second");
    assert_eq!(a_again, a, "the shared client holds no mutable state");
    assert_eq!(state.calls.get(), 3);
}
