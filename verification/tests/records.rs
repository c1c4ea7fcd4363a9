//! The response record decoders, driven on concrete bodies.

use github_client::codec::{decode_body, JsonDecode, JsonEncode};
use github_client::events::{
    IssueCommentEvent, IssueCommentEventType, PullRequestEvent, PullRequestEventType,
    PullRequestReviewCommentEventType, PushCommit, PushEvent,
};
use github_client::json::{render_json, JsonValue};
use github_client::repos::{LegacyRepo, Repo, RepoVisibility, RepoSortables};
use github_client::types::{Branch, LanguagePile, Tag, Team};
use github_client::users::GitUser;

fn s(text: &str) -> JsonValue {
    JsonValue::Str(text.to_owned())
}

fn field(name: &str, value: JsonValue) -> (String, JsonValue) {
    (name.to_owned(), value)
}

#[test]
fn language_pile_decodes_weights_in_order() {
    let doc = JsonValue::Obj(vec![
        field("Rust", JsonValue::Int(120)),
        field("C", JsonValue::Int(3)),
    ]);
    let pile: LanguagePile = decode_body(&render_json(&doc)).unwrap();
    assert_eq!(pile.0, vec![("Rust".to_owned(), 120), ("C".to_owned(), 3)]);
    let bad = JsonValue::Obj(vec![field("Rust", s("many"))]);
    assert!(decode_body::<LanguagePile>(&render_json(&bad)).is_err());
    let duplicated = JsonValue::Obj(vec![
        field("Rust", JsonValue::Int(1)),
        field("Rust", JsonValue::Int(2)),
    ]);
    assert!(decode_body::<LanguagePile>(&render_json(&duplicated)).is_err());
}

#[test]
fn branch_and_tag_and_team_decode() {
    fn node() -> JsonValue {
        JsonValue::Obj(vec![field("url", s("u")), field("sha", s("abc"))])
    }
    let branch = JsonValue::Obj(vec![field("name", s("main")), field("commit", node())]);
    let b: Branch = decode_body(&render_json(&branch)).unwrap();
    assert_eq!(b.name, "main");
    assert_eq!(b.commit.sha, "abc");

    let tag = JsonValue::Obj(vec![
        field("name", s("v1")),
        field("commit", node()),
        field("zipball_url", s("z")),
        field("tarball_url", s("t")),
    ]);
    let t: Tag = decode_body(&render_json(&tag)).unwrap();
    assert_eq!(t.name, "v1");

    let team = JsonValue::Obj(vec![
        field("id", JsonValue::Int(7)),
        field("url", s("u")),
        field("name", s("owners")),
        field("slug", s("owners")),
        field("description", s("d")),
        field("privacy", s("closed")),
        field("permission", s("admin")),
        field("members_url", s("m")),
        field("repositories_url", s("r")),
    ]);
    let t: Team = decode_body(&render_json(&team)).unwrap();
    assert_eq!(t.id, 7);
    assert_eq!(t.permission, "admin");
}

#[test]
fn git_user_tolerates_missing_username() {
    let doc = JsonValue::Obj(vec![field("name", s("Ada")), field("email", s("ada@example.invalid"))]);
    let u: GitUser = decode_body(&render_json(&doc)).unwrap();
    assert_eq!(u.username, None);
    let doc = JsonValue::Obj(vec![
        field("name", s("Ada")),
        field("email", s("ada@example.invalid")),
        field("username", s("ada")),
    ]);
    let u: GitUser = decode_body(&render_json(&doc)).unwrap();
    assert_eq!(u.username, Some("ada".to_owned()));
}

fn user_value(login: &str) -> JsonValue {
    JsonValue::Obj(vec![
        field("login", s(login)),
        field("id", JsonValue::Int(2)),
        field("avatar_url", s("a")),
        field("gravatar_id", s("g")),
        field("html_url", s("h")),
        field("followers_url", s("f1")),
        field("following_url", s("f2")),
        field("gists_url", s("g1")),
        field("starred_url", s("s1")),
        field("subscriptions_url", s("s2")),
        field("organizations_url", s("o1")),
        field("repos_url", s("r1")),
        field("events_url", s("e1")),
        field("received_events_url", s("e2")),
        field("site_admin", JsonValue::Bool(false)),
    ])
}

fn repo_value() -> JsonValue {
    let mut fields = vec![
        field("id", JsonValue::Int(99)),
        field("owner", user_value("acme")),
        field("name", s("widgets")),
        field("full_name", s("acme/widgets")),
        field("description", s("widget factory")),
        field("private", JsonValue::Bool(false)),
        field("fork", JsonValue::Bool(false)),
        field("url", s("u")),
        field("html_url", s("h")),
    ];
    for name in [
        "archive_url", "assignees_url", "blobs_url", "branches_url", "clone_url",
        "collaborators_url", "comments_url", "commits_url", "compare_url", "contents_url",
        "contributors_url", "downloads_url", "events_url", "forks_url", "git_commits_url",
        "git_refs_url", "git_tags_url", "git_url", "hooks_url", "issue_comment_url",
        "issue_events_url", "issues_url", "keys_url", "labels_url", "languages_url",
        "merges_url", "milestones_url",
    ] {
        fields.push(field(name, s("x")));
    }
    fields.push(field("mirror_url", JsonValue::Null));
    for name in [
        "notifications_url", "pulls_url", "releases_url", "ssh_url", "stargazers_url",
        "statuses_url", "subscribers_url", "subscription_url", "svn_url", "tags_url",
        "teams_url", "trees_url",
    ] {
        fields.push(field(name, s("x")));
    }
    fields.push(field("homepage", JsonValue::Null));
    fields.push(field("language", s("Rust")));
    fields.push(field("forks_count", JsonValue::Int(1)));
    fields.push(field("stargazers_count", JsonValue::Int(2)));
    fields.push(field("watchers_count", JsonValue::Int(3)));
    fields.push(field("size", JsonValue::Int(4)));
    fields.push(field("default_branch", s("main")));
    fields.push(field("open_issues_count", JsonValue::Int(5)));
    fields.push(field("has_issues", JsonValue::Bool(true)));
    fields.push(field("has_wiki", JsonValue::Bool(true)));
    fields.push(field("has_pages", JsonValue::Bool(false)));
    fields.push(field("has_downloads", JsonValue::Bool(true)));
    fields.push(field("pushed_at", s("2015-05-01T12:13:14Z")));
    fields.push(field("created_at", s("2014-01-02T03:04:05Z")));
    fields.push(field("updated_at", s("2015-05-01T12:13:14+00:00")));
    JsonValue::Obj(fields)
}

#[test]
fn full_repository_record_decodes() {
    let repo: Repo = decode_body(&render_json(&repo_value())).unwrap();
    assert_eq!(repo.id, 99);
    assert_eq!(repo.owner.login, "acme");
    assert_eq!(repo.name, "widgets");
    assert_eq!(repo.mirror_url, None);
    assert_eq!(repo.language, Some("Rust".to_owned()));
    assert_eq!(repo.default_branch, "main");
    assert_eq!(repo.created_at.year, 2014);
    assert_eq!(repo.permissions, None);
    assert_eq!(repo.subscribers_count, None);
    assert_eq!(repo.organization, None);
    assert!(repo.parent.is_none());
    assert!(repo.source.is_none());
}

#[test]
fn fork_record_decodes_nested_repositories() {
    let mut fields = match repo_value() {
        JsonValue::Obj(fs) => fs,
        _ => panic!("the fixture is an object"),
    };
    fields.push(field("parent", repo_value()));
    fields.push(field("source", JsonValue::Null));
    let fork: Repo = decode_body(&render_json(&JsonValue::Obj(fields))).unwrap();
    let parent = fork.parent.expect("the nested parent must be read back");
    assert_eq!(parent.name, "widgets");
    assert_eq!(parent.owner.login, "acme");
    assert!(parent.parent.is_none());
    assert!(fork.source.is_none());

    let mut fields = match repo_value() {
        JsonValue::Obj(fs) => fs,
        _ => panic!("the fixture is an object"),
    };
    fields.push(field("parent", s("not a repository")));
    assert!(decode_body::<Repo>(&render_json(&JsonValue::Obj(fields))).is_err());
}

#[test]
fn repository_record_missing_field_is_rejected() {
    let doc = JsonValue::Obj(vec![field("id", JsonValue::Int(99))]);
    assert!(decode_body::<Repo>(&render_json(&doc)).is_err());
}

#[test]
fn event_action_codecs_round_trip() {
    let j = IssueCommentEventType::Created.to_json().unwrap();
    assert_eq!(IssueCommentEventType::from_json(&j).unwrap(), IssueCommentEventType::Created);
    for e in [
        PullRequestEventType::Assigned,
        PullRequestEventType::Unassigned,
        PullRequestEventType::Labeled,
        PullRequestEventType::Unlabeled,
        PullRequestEventType::Opened,
        PullRequestEventType::Closed,
        PullRequestEventType::Synchronize,
    ] {
        let j = e.to_json().unwrap();
        assert_eq!(PullRequestEventType::from_json(&j).unwrap(), e);
    }
    let j = PullRequestReviewCommentEventType::Created.to_json().unwrap();
    assert_eq!(
        PullRequestReviewCommentEventType::from_json(&j).unwrap(),
        PullRequestReviewCommentEventType::Created
    );
    assert_eq!(render_json(&PullRequestEventType::Opened.to_json().unwrap()), "\"opened\"");
}

fn issue_value(number: u32) -> JsonValue {
    JsonValue::Obj(vec![
        field("url", s("u")),
        field("labels_url", s("l")),
        field("comments_url", s("c")),
        field("events_url", s("e")),
        field("html_url", s("h")),
        field("id", JsonValue::Int(5)),
        field("number", JsonValue::Int(number as i64)),
        field("title", s("a title")),
        field("user", user_value("acme")),
    ])
}

fn issue_comment_value(id: u32) -> JsonValue {
    JsonValue::Obj(vec![
        field("id", JsonValue::Int(id as i64)),
        field("url", s("u")),
        field("html_url", s("h")),
        field("body", s("fine")),
        field("user", user_value("octocat")),
        field("created_at", s("2015-05-01T12:13:14+0000")),
        field("updated_at", s("2015-05-01T12:13:14+0000")),
    ])
}

#[test]
fn issue_comment_event_decodes() {
    let doc = JsonValue::Obj(vec![
        field("action", s("created")),
        field("issue", issue_value(4)),
        field("comment", issue_comment_value(9)),
        field("repository", repo_value()),
        field("sender", user_value("octocat")),
    ]);
    let e: IssueCommentEvent = decode_body(&render_json(&doc)).unwrap();
    assert_eq!(e.action, IssueCommentEventType::Created);
    assert_eq!(e.issue.number, 4);
    assert_eq!(e.comment.id, 9);
    assert_eq!(e.repository.name, "widgets");
    assert_eq!(e.sender.login, "octocat");
}

#[test]
fn push_commit_and_legacy_repo_decode() {
    let pusher = JsonValue::Obj(vec![
        field("name", s("Ada")),
        field("email", s("ada@example.invalid")),
    ]);
    let commit = JsonValue::Obj(vec![
        field("id", s("c1")),
        field("distinct", JsonValue::Bool(true)),
        field("message", s("fix")),
        field("timestamp", s("2015-05-01T12:13:14+0000")),
        field("url", s("u")),
        field("author", pusher),
        field("committer", JsonValue::Obj(vec![
            field("name", s("Ada")),
            field("email", s("ada@example.invalid")),
        ])),
        field("added", JsonValue::Arr(vec![s("a.rs"), s("b.rs")])),
        field("removed", JsonValue::Arr(vec![])),
        field("modified", JsonValue::Arr(vec![s("c.rs")])),
    ]);
    let c: PushCommit = decode_body(&render_json(&commit)).unwrap();
    assert_eq!(c.id, "c1");
    assert_eq!(c.added, vec!["a.rs".to_owned(), "b.rs".to_owned()]);
    assert_eq!(c.timestamp.year, 2015);

    let legacy = legacy_repo_value();
    let r: LegacyRepo = decode_body(&render_json(&legacy)).unwrap();
    assert_eq!(r.id, 99);
    assert_eq!(r.owner.name, "Ada");
    assert_eq!(r.pushed_at, 1430481194);
    assert_eq!(r.updated_at.year, 2015);
    assert!(r.parent.is_none());
}

fn legacy_repo_value() -> JsonValue {
    let mut fields = vec![
        field("id", JsonValue::Int(99)),
        field("owner", JsonValue::Obj(vec![
            field("name", s("Ada")),
            field("email", s("ada@example.invalid")),
        ])),
        field("name", s("widgets")),
        field("full_name", s("acme/widgets")),
        field("description", s("widget factory")),
        field("private", JsonValue::Bool(false)),
        field("fork", JsonValue::Bool(false)),
        field("url", s("u")),
        field("html_url", s("h")),
    ];
    for name in [
        "archive_url", "assignees_url", "blobs_url", "branches_url", "clone_url",
        "collaborators_url", "comments_url", "commits_url", "compare_url", "contents_url",
        "contributors_url", "downloads_url", "events_url", "forks_url", "git_commits_url",
        "git_refs_url", "git_tags_url", "git_url", "hooks_url", "issue_comment_url",
        "issue_events_url", "issues_url", "keys_url", "labels_url", "languages_url",
        "merges_url", "milestones_url",
    ] {
        fields.push(field(name, s("x")));
    }
    fields.push(field("mirror_url", JsonValue::Null));
    for name in [
        "notifications_url", "pulls_url", "releases_url", "ssh_url", "stargazers_url",
        "statuses_url", "subscribers_url", "subscription_url", "svn_url", "tags_url",
        "teams_url", "trees_url",
    ] {
        fields.push(field(name, s("x")));
    }
    fields.push(field("homepage", JsonValue::Null));
    fields.push(field("language", s("Rust")));
    fields.push(field("forks_count", JsonValue::Int(1)));
    fields.push(field("stargazers_count", JsonValue::Int(2)));
    fields.push(field("watchers_count", JsonValue::Int(3)));
    fields.push(field("size", JsonValue::Int(4)));
    fields.push(field("default_branch", s("main")));
    fields.push(field("open_issues_count", JsonValue::Int(5)));
    fields.push(field("has_issues", JsonValue::Bool(true)));
    fields.push(field("has_wiki", JsonValue::Bool(true)));
    fields.push(field("has_pages", JsonValue::Bool(false)));
    fields.push(field("has_downloads", JsonValue::Bool(true)));
    fields.push(field("pushed_at", JsonValue::Int(1430481194)));
    fields.push(field("created_at", JsonValue::Int(1388649600)));
    fields.push(field("updated_at", s("2015-05-01T12:13:14+0000")));
    JsonValue::Obj(fields)
}

fn commit_value() -> JsonValue {
    JsonValue::Obj(vec![
        field("label", s("acme:main")),
        field("sha", s("abc")),
        field("user", user_value("acme")),
        field("repo", repo_value()),
    ])
}

fn pull_request_value(id: u32) -> JsonValue {
    JsonValue::Obj(vec![
        field("id", JsonValue::Int(id as i64)),
        field("url", s("u")),
        field("html_url", s("h")),
        field("patch_url", s("p")),
        field("issue_url", s("i")),
        field("commits_url", s("c")),
        field("review_comments_url", s("rc")),
        field("review_comment_url", s("rc1")),
        field("comments_url", s("cm")),
        field("number", JsonValue::Int(21)),
        field("state", s("open")),
        field("title", s("Add widgets")),
        field("body", s("please review")),
        field("created_at", s("2015-05-01T12:13:14+0000")),
        field("updated_at", s("2015-05-01T12:13:14+0000")),
        field("closed_at", JsonValue::Null),
        field("merged_at", JsonValue::Null),
        field("user", user_value("octocat")),
        field("head", commit_value()),
        field("base", commit_value()),
    ])
}

#[test]
fn push_event_decodes() {
    let pusher = || JsonValue::Obj(vec![
        field("name", s("Ada")),
        field("email", s("ada@example.invalid")),
    ]);
    let commit = |id: &str| JsonValue::Obj(vec![
        field("id", s(id)),
        field("distinct", JsonValue::Bool(true)),
        field("message", s("fix")),
        field("timestamp", s("2015-05-01T12:13:14+0000")),
        field("url", s("u")),
        field("author", pusher()),
        field("committer", pusher()),
        field("added", JsonValue::Arr(vec![])),
        field("removed", JsonValue::Arr(vec![])),
        field("modified", JsonValue::Arr(vec![s("c.rs")])),
    ]);
    let doc = JsonValue::Obj(vec![
        field("before", s("b0")),
        field("after", s("a1")),
        field("created", JsonValue::Bool(false)),
        field("deleted", JsonValue::Bool(false)),
        field("forced", JsonValue::Bool(false)),
        field("base_ref", JsonValue::Null),
        field("compare", s("cmp")),
        field("commits", JsonValue::Arr(vec![commit("c1"), commit("c2")])),
        field("head_commit", commit("c2")),
        field("repository", repo_value()),
        field("pusher", pusher()),
        field("sender", user_value("octocat")),
    ]);
    let e: PushEvent = decode_body(&render_json(&doc)).unwrap();
    assert_eq!(e.before, "b0");
    assert_eq!(e.commits.len(), 2);
    assert_eq!(e.commits[1].id, "c2");
    assert_eq!(e.head_commit.id, "c2");
    assert_eq!(e.base_ref, None);
}

#[test]
fn pull_request_event_decodes() {
    let doc = JsonValue::Obj(vec![
        field("action", s("opened")),
        field("number", JsonValue::Int(21)),
        field("pull_request", pull_request_value(77)),
        field("repository", repo_value()),
        field("sender", user_value("octocat")),
    ]);
    let e: PullRequestEvent = decode_body(&render_json(&doc)).unwrap();
    assert_eq!(e.action, PullRequestEventType::Opened);
    assert_eq!(e.number, 21);
    assert_eq!(e.pull_request.id, 77);
    assert_eq!(e.pull_request.head.repo.name, "widgets");
    assert_eq!(e.pull_request.closed_at, None);
}

#[test]
fn repo_listing_enums_round_trip() {
    for v in [RepoVisibility::Public, RepoVisibility::Private, RepoVisibility::All] {
        let j = v.to_json().unwrap();
        assert_eq!(RepoVisibility::from_json(&j).unwrap(), v);
    }
    for v in [RepoSortables::Updated, RepoSortables::Pushed, RepoSortables::FullName] {
        let j = v.to_json().unwrap();
        assert_eq!(RepoSortables::from_json(&j).unwrap(), v);
    }
}
