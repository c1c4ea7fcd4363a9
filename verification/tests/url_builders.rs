//! The resource locators map identifying fields to canonical paths.

use github_client::commit_comments;
use github_client::issue_comments::{issue_comment_at, issue_comments, issue_comments_for_repo};
use github_client::pull_requests::{
    all_pull_request_comments, pull_request_at, pull_request_comment_at, pull_request_comments,
    pull_request_commits, pull_request_files, pull_request_merge, pull_requests,
};
use github_client::repos::{
    all_repos, branch_at, branches_at, contributors_at, languages_at, organization_repos, own_repos,
    repo_at, tags_at, teams_at, user_repos,
};
use github_client::types::Repository;

fn test_repo() -> Repository {
    Repository {
        owner: "test_owner".to_owned(),
        repo_name: "test_repo".to_owned(),
    }
}

#[test]
fn it_builds_pull_requests() {
    let repo = test_repo();
    let expected = "https://api.github.com/repos/test_owner/test_repo/pulls".to_owned();
    assert_eq!(pull_requests(&repo), expected);
}

#[test]
fn it_builds_pull_request_at() {
    let repo = test_repo();
    let pr_id = 21;
    let expected = "https://api.github.com/repos/test_owner/test_repo/pulls/21".to_owned();
    assert_eq!(pull_request_at(&repo, &pr_id), expected);
}

#[test]
fn it_builds_pull_request_commits() {
    let repo = test_repo();
    let pr_id = 21;
    let expected = "https://api.github.com/repos/test_owner/test_repo/pulls/21/commits".to_owned();
    assert_eq!(pull_request_commits(&repo, &pr_id), expected);
}

#[test]
fn it_builds_pull_request_files() {
    let repo = test_repo();
    let pr_id = 21;
    let expected = "https://api.github.com/repos/test_owner/test_repo/pulls/21/files".to_owned();
    assert_eq!(pull_request_files(&repo, &pr_id), expected);
}

#[test]
fn it_builds_pull_request_merge() {
    let repo = test_repo();
    let pr_id = 21;
    let expected = "https://api.github.com/repos/test_owner/test_repo/pulls/21/merge".to_owned();
    assert_eq!(pull_request_merge(&repo, &pr_id), expected);
}

#[test]
fn it_builds_pull_request_comments() {
    let repo = test_repo();
    let pr_id = 21;
    let expected = "https://api.github.com/repos/test_owner/test_repo/pulls/21/comments".to_owned();
    assert_eq!(pull_request_comments(&repo, &pr_id), expected);
}

#[test]
fn it_builds_all_pull_request_comments() {
    let repo = test_repo();
    let expected = "https://api.github.com/repos/test_owner/test_repo/pulls/comments".to_owned();
    assert_eq!(all_pull_request_comments(&repo), expected);
}

#[test]
fn it_builds_pull_request_comment_at() {
    let repo = test_repo();
    let comment_id = 1;
    let expected = "https://api.github.com/repos/test_owner/test_repo/pulls/comments/1".to_owned();
    assert_eq!(pull_request_comment_at(&repo, &comment_id), expected);
}

#[test]
fn url_builders_it_builds_pull_request_comments() {
    let repo = test_repo();
    let pr_id = 21;
    let expected = "https://api.github.com/repos/test_owner/test_repo/pulls/21/comments".to_owned();
    assert_eq!(
        commit_comments::pull_request_comments(&repo, &pr_id),
        expected
    );
}

#[test]
fn url_builders_it_builds_all_pull_request_comments() {
    let repo = test_repo();
    let expected = "https://api.github.com/repos/test_owner/test_repo/pulls/comments".to_owned();
    assert_eq!(commit_comments::all_pull_request_comments(&repo), expected);
}

#[test]
fn url_builders_it_builds_pull_request_comment_at() {
    let repo = test_repo();
    let comment_id = 1;
    let expected = "https://api.github.com/repos/test_owner/test_repo/pulls/comments/1".to_owned();
    assert_eq!(
        commit_comments::pull_request_comment_at(&repo, &comment_id),
        expected
    );
}

#[test]
fn it_builds_issue_comments() {
    let repo = test_repo();
    let issue_id = 21;
    let expected = "https://api.github.com/repos/test_owner/test_repo/issues/21/comments".to_owned();
    assert_eq!(issue_comments(&repo, &issue_id), expected);
}

#[test]
fn it_builds_issue_comments_for_repo() {
    let repo = test_repo();
    let expected = "https://api.github.com/repos/test_owner/test_repo/issues/comments".to_owned();
    assert_eq!(issue_comments_for_repo(&repo), expected);
}

#[test]
fn it_builds_issue_comment_at() {
    let repo = test_repo();
    let comment_id = 21;
    let expected = "https://api.github.com/repos/test_owner/test_repo/issues/comments/21".to_owned();
    assert_eq!(issue_comment_at(&repo, &comment_id), expected);
}

#[test]
fn it_builds_own_repos() {
    let expected = "https://api.github.com/user/repos".to_owned();
    assert_eq!(own_repos(), expected);
}

#[test]
fn it_builds_user_repos() {
    let expected = "https://api.github.com/users/test_owner/repos".to_owned();
    assert_eq!(user_repos(&("test_owner".to_owned())), expected);
}

#[test]
fn it_builds_organization_repos() {
    let expected = "https://api.github.com/orgs/test_org/repos".to_owned();
    assert_eq!(organization_repos(&("test_org".to_owned())), expected);
}

#[test]
fn it_builds_all_repos() {
    let expected = "https://api.github.com/repositories".to_owned();
    assert_eq!(all_repos(), expected);
}

#[test]
fn it_builds_repo_at() {
    let repo = test_repo();
    let expected = "https://api.github.com/repos/test_owner/test_repo".to_owned();
    assert_eq!(repo_at(&repo), expected);
}

#[test]
fn it_builds_contributors_at() {
    let repo = test_repo();
    let expected = "https://api.github.com/repos/test_owner/test_repo/contributors".to_owned();
    assert_eq!(contributors_at(&repo), expected);
}

#[test]
fn it_builds_languages_at() {
    let repo = test_repo();
    let expected = "https://api.github.com/repos/test_owner/test_repo/languages".to_owned();
    assert_eq!(languages_at(&repo), expected);
}

#[test]
fn it_builds_teams_at() {
    let repo = test_repo();
    let expected = "https://api.github.com/repos/test_owner/test_repo/teams".to_owned();
    assert_eq!(teams_at(&repo), expected);
}

#[test]
fn it_builds_tags_at() {
    let repo = test_repo();
    let expected = "https://api.github.com/repos/test_owner/test_repo/tags".to_owned();
    assert_eq!(tags_at(&repo), expected);
}

#[test]
fn it_builds_branches_at() {
    let repo = test_repo();
    let expected = "https://api.github.com/repos/test_owner/test_repo/branches".to_owned();
    assert_eq!(branches_at(&repo), expected);
}

#[test]
fn it_builds_branch_at() {
    let repo = test_repo();
    let expected = "https://api.github.com/repos/test_owner/test_repo/branches/test_branch".to_owned();
    assert_eq!(branch_at(&repo, &("test_branch".to_owned())), expected);
}
