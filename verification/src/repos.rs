//! Repository records, queries, resource locators and operations.

use vstd::prelude::*;

use crate::codec::{field_bool, field_opt_rec, field_opt_str, field_opt_u32, field_rec, field_str,
    field_u32, lemma_obj_index, obj_index, spec_decode_body, spec_field_bool, spec_field_opt_rec,
    spec_field_opt_str, spec_field_opt_u32, spec_field_rec, spec_field_str, spec_field_u32,
    spec_obj_index, JsonCodec, JsonDecode, JsonEncode};
use crate::errors::GitErr;
use crate::github_client::{Method, SimpleClient};
use crate::gittm::{field_time, spec_field_time, GitTm};
use crate::json::{lemma_view_obj, lemma_view_obj_of, seq_view_fields, JsonVal, JsonValue};
use crate::types::{Branch, BranchName, ContributorsQuery, DeletedStatus, FullBranch, LanguagePile,
    Organization, OrganizationName, OrganizationView, RepoName, Repository, SortDirection, Tag,
    Team, Url, UserName};
use crate::users::{GitUser, GitUserView, GithubUser, GithubUserView};

verus! {

broadcast use vstd::seq::group_seq_axioms, vstd::std_specs::vec::group_vec_axioms;

/// A free-form affiliation filter for repository listings.
pub type RepoAffiliations = String;

/// Which repositories a listing covers.
#[derive(Debug, PartialEq, Eq, Structural, Clone, Copy)]
pub enum RepoVisibility {
    Public,
    Private,
    All,
}

impl DeepView for RepoVisibility {
    type V = RepoVisibility;

    open spec fn deep_view(&self) -> RepoVisibility {
        *self
    }
}

impl JsonEncode for RepoVisibility {
    open spec fn spec_to_json(&self) -> Option<JsonVal> {
        match self {
            RepoVisibility::Public => Some(JsonVal::Str("public"@)),
            RepoVisibility::Private => Some(JsonVal::Str("private"@)),
            RepoVisibility::All => Some(JsonVal::Str("all"@)),
        }
    }

    fn to_json(&self) -> (r: Result<JsonValue, String>) {
        match self {
            RepoVisibility::Public => Ok(JsonValue::Str(String::from_str("public"))),
            RepoVisibility::Private => Ok(JsonValue::Str(String::from_str("private"))),
            RepoVisibility::All => Ok(JsonValue::Str(String::from_str("all"))),
        }
    }
}

impl JsonDecode for RepoVisibility {
    open spec fn spec_from_json(j: JsonVal) -> Option<RepoVisibility> {
        match j {
            JsonVal::Str(s) => if s == "public"@ {
                Some(RepoVisibility::Public)
            } else if s == "private"@ {
                Some(RepoVisibility::Private)
            } else if s == "all"@ {
                Some(RepoVisibility::All)
            } else {
                None
            },
            _ => None,
        }
    }

    fn from_json(v: &JsonValue) -> (r: Result<Self, String>) {
        match v {
            JsonValue::Str(s) => {
                if *s == String::from_str("public") {
                    Ok(RepoVisibility::Public)
                } else if *s == String::from_str("private") {
                    Ok(RepoVisibility::Private)
                } else if *s == String::from_str("all") {
                    Ok(RepoVisibility::All)
                } else {
                    Err(String::from_str("no matching item"))
                }
            },
            _ => Err(String::from_str("no matching item")),
        }
    }
}

impl JsonCodec for RepoVisibility {
    proof fn lemma_codec_round_trip(&self) {
        reveal_strlit("public");
        reveal_strlit("private");
        reveal_strlit("all");
        assert(("public"@).len() == 6);
        assert(("private"@).len() == 7);
        assert(("all"@).len() == 3);
    }
}

/// The orders a repository listing can be sorted by.
#[derive(Debug, PartialEq, Eq, Structural, Clone, Copy)]
pub enum RepoSortables {
    Updated,
    Pushed,
    FullName,
}

impl DeepView for RepoSortables {
    type V = RepoSortables;

    open spec fn deep_view(&self) -> RepoSortables {
        *self
    }
}

impl JsonEncode for RepoSortables {
    open spec fn spec_to_json(&self) -> Option<JsonVal> {
        match self {
            RepoSortables::Updated => Some(JsonVal::Str("updated"@)),
            RepoSortables::Pushed => Some(JsonVal::Str("pushed"@)),
            RepoSortables::FullName => Some(JsonVal::Str("full_name"@)),
        }
    }

    fn to_json(&self) -> (r: Result<JsonValue, String>) {
        match self {
            RepoSortables::Updated => Ok(JsonValue::Str(String::from_str("updated"))),
            RepoSortables::Pushed => Ok(JsonValue::Str(String::from_str("pushed"))),
            RepoSortables::FullName => Ok(JsonValue::Str(String::from_str("full_name"))),
        }
    }
}

impl JsonDecode for RepoSortables {
    open spec fn spec_from_json(j: JsonVal) -> Option<RepoSortables> {
        match j {
            JsonVal::Str(s) => if s == "updated"@ {
                Some(RepoSortables::Updated)
            } else if s == "pushed"@ {
                Some(RepoSortables::Pushed)
            } else if s == "full_name"@ {
                Some(RepoSortables::FullName)
            } else {
                None
            },
            _ => None,
        }
    }

    fn from_json(v: &JsonValue) -> (r: Result<Self, String>) {
        match v {
            JsonValue::Str(s) => {
                if *s == String::from_str("updated") {
                    Ok(RepoSortables::Updated)
                } else if *s == String::from_str("pushed") {
                    Ok(RepoSortables::Pushed)
                } else if *s == String::from_str("full_name") {
                    Ok(RepoSortables::FullName)
                } else {
                    Err(String::from_str("no matching item"))
                }
            },
            _ => Err(String::from_str("no matching item")),
        }
    }
}

impl JsonCodec for RepoSortables {
    proof fn lemma_codec_round_trip(&self) {
        reveal_strlit("updated");
        reveal_strlit("pushed");
        reveal_strlit("full_name");
        assert(("updated"@).len() == 7);
        assert(("pushed"@).len() == 6);
        assert(("full_name"@).len() == 9);
    }
}

/// What the caller may do with a repository.
#[derive(Debug, PartialEq, Clone)]
pub struct RepoPermissions {
    pub admin: bool,
    pub push: bool,
    pub pull: bool,
}

/// The model of `RepoPermissions`.
pub struct RepoPermissionsView {
    pub admin: bool,
    pub push: bool,
    pub pull: bool,
}

impl DeepView for RepoPermissions {
    type V = RepoPermissionsView;

    open spec fn deep_view(&self) -> RepoPermissionsView
    {
        RepoPermissionsView {
            admin: self.admin,
            push: self.push,
            pull: self.pull,
        }
    }
}

impl JsonDecode for RepoPermissions {
    open spec fn spec_from_json(j: JsonVal) -> Option<RepoPermissionsView> {
        match j {
            JsonVal::Obj(fs) => {
                if spec_field_bool(fs, "admin"@) is None {
                    None
                } else if spec_field_bool(fs, "push"@) is None {
                    None
                } else if spec_field_bool(fs, "pull"@) is None {
                    None
                } else {
                    Some(
                        RepoPermissionsView {
                            admin: spec_field_bool(fs, "admin"@).unwrap(),
                            push: spec_field_bool(fs, "push"@).unwrap(),
                            pull: spec_field_bool(fs, "pull"@).unwrap(),
                        },
                    )
                }
            },
            _ => None,
        }
    }

    fn from_json(v: &JsonValue) -> (r: Result<Self, String>) {
        match v {
            JsonValue::Obj(fs) => {
                proof {
                    lemma_view_obj_of(v);
                }
                let admin = match field_bool(fs, "admin") {
                    Ok(x) => x,
                    Err(e) => {
                        return Err(e);
                    },
                };
                let push = match field_bool(fs, "push") {
                    Ok(x) => x,
                    Err(e) => {
                        return Err(e);
                    },
                };
                let pull = match field_bool(fs, "pull") {
                    Ok(x) => x,
                    Err(e) => {
                        return Err(e);
                    },
                };
                Ok(
                    RepoPermissions {
                        admin,
                        push,
                        pull,
                    },
                )
            },
            _ => Err(String::from_str("expected an object")),
        }
    }
}

/// A full repository record.  The nested repositories a fork's record
/// carries under `parent` and `source` are read back with the repository
/// decoder itself; an absent or null member reads as `None`.
#[derive(Debug, PartialEq)]
pub struct Repo {
    pub id: u32,
    pub owner: GithubUser,
    pub name: RepoName,
    pub full_name: RepoName,
    pub description: String,
    pub private: bool,
    pub fork: bool,
    pub url: Url,
    pub html_url: Url,
    pub archive_url: Url,
    pub assignees_url: Url,
    pub blobs_url: Url,
    pub branches_url: Url,
    pub clone_url: Url,
    pub collaborators_url: Url,
    pub comments_url: Url,
    pub commits_url: Url,
    pub compare_url: Url,
    pub contents_url: Url,
    pub contributors_url: Url,
    pub downloads_url: Url,
    pub events_url: Url,
    pub forks_url: Url,
    pub git_commits_url: Url,
    pub git_refs_url: Url,
    pub git_tags_url: Url,
    pub git_url: Url,
    pub hooks_url: Url,
    pub issue_comment_url: Url,
    pub issue_events_url: Url,
    pub issues_url: Url,
    pub keys_url: Url,
    pub labels_url: Url,
    pub languages_url: Url,
    pub merges_url: Url,
    pub milestones_url: Url,
    pub mirror_url: Option<Url>,
    pub notifications_url: Url,
    pub pulls_url: Url,
    pub releases_url: Url,
    pub ssh_url: Url,
    pub stargazers_url: Url,
    pub statuses_url: Url,
    pub subscribers_url: Url,
    pub subscription_url: Url,
    pub svn_url: Url,
    pub tags_url: Url,
    pub teams_url: Url,
    pub trees_url: Url,
    pub homepage: Option<Url>,
    pub language: Option<String>,
    pub forks_count: u32,
    pub stargazers_count: u32,
    pub watchers_count: u32,
    pub size: u32,
    pub default_branch: BranchName,
    pub open_issues_count: u32,
    pub has_issues: bool,
    pub has_wiki: bool,
    pub has_pages: bool,
    pub has_downloads: bool,
    pub pushed_at: GitTm,
    pub created_at: GitTm,
    pub updated_at: GitTm,
    pub permissions: Option<RepoPermissions>,
    pub subscribers_count: Option<u32>,
    pub organization: Option<Organization>,
    pub parent: Option<Box<Repo>>,
    pub source: Option<Box<Repo>>,
}

/// The model of `Repo`.
pub struct RepoView {
    pub id: u32,
    pub owner: GithubUserView,
    pub name: Seq<char>,
    pub full_name: Seq<char>,
    pub description: Seq<char>,
    pub private: bool,
    pub fork: bool,
    pub url: Seq<char>,
    pub html_url: Seq<char>,
    pub archive_url: Seq<char>,
    pub assignees_url: Seq<char>,
    pub blobs_url: Seq<char>,
    pub branches_url: Seq<char>,
    pub clone_url: Seq<char>,
    pub collaborators_url: Seq<char>,
    pub comments_url: Seq<char>,
    pub commits_url: Seq<char>,
    pub compare_url: Seq<char>,
    pub contents_url: Seq<char>,
    pub contributors_url: Seq<char>,
    pub downloads_url: Seq<char>,
    pub events_url: Seq<char>,
    pub forks_url: Seq<char>,
    pub git_commits_url: Seq<char>,
    pub git_refs_url: Seq<char>,
    pub git_tags_url: Seq<char>,
    pub git_url: Seq<char>,
    pub hooks_url: Seq<char>,
    pub issue_comment_url: Seq<char>,
    pub issue_events_url: Seq<char>,
    pub issues_url: Seq<char>,
    pub keys_url: Seq<char>,
    pub labels_url: Seq<char>,
    pub languages_url: Seq<char>,
    pub merges_url: Seq<char>,
    pub milestones_url: Seq<char>,
    pub mirror_url: Option<Seq<char>>,
    pub notifications_url: Seq<char>,
    pub pulls_url: Seq<char>,
    pub releases_url: Seq<char>,
    pub ssh_url: Seq<char>,
    pub stargazers_url: Seq<char>,
    pub statuses_url: Seq<char>,
    pub subscribers_url: Seq<char>,
    pub subscription_url: Seq<char>,
    pub svn_url: Seq<char>,
    pub tags_url: Seq<char>,
    pub teams_url: Seq<char>,
    pub trees_url: Seq<char>,
    pub homepage: Option<Seq<char>>,
    pub language: Option<Seq<char>>,
    pub forks_count: u32,
    pub stargazers_count: u32,
    pub watchers_count: u32,
    pub size: u32,
    pub default_branch: Seq<char>,
    pub open_issues_count: u32,
    pub has_issues: bool,
    pub has_wiki: bool,
    pub has_pages: bool,
    pub has_downloads: bool,
    pub pushed_at: GitTm,
    pub created_at: GitTm,
    pub updated_at: GitTm,
    pub permissions: Option<RepoPermissionsView>,
    pub subscribers_count: Option<u32>,
    pub organization: Option<OrganizationView>,
    pub parent: Option<Box<RepoView>>,
    pub source: Option<Box<RepoView>>,
}

/// The model of an optional nested repository.
pub open spec fn repo_sub_view(o: Option<Box<Repo>>) -> Option<Box<RepoView>> {
    match o {
        Some(b) => Some(Box::new((*b).deep_view())),
        None => None,
    }
}

/// An optional nested repository member: absent or null reads as `None`,
/// and a present member is read with the repository decoder itself.
pub open spec fn spec_repo_sub(fs: Seq<(Seq<char>, JsonVal)>, key: Seq<char>) -> Option<
    Option<Box<RepoView>>,
>
    decreases fs, 0int,
{
    let idx = spec_obj_index(fs, key);
    if idx < 0 {
        Some(None)
    } else if idx >= fs.len() {
        None
    } else {
        match fs[idx].1 {
            JsonVal::Null => Some(None),
            _ => match spec_repo_from_json(fs[idx].1) {
                Some(r) => Some(Some(Box::new(r))),
                None => None,
            },
        }
    }
}

impl DeepView for Repo {
    type V = RepoView;

    open spec fn deep_view(&self) -> RepoView
        decreases self,
    {
        RepoView {
            id: self.id,
            owner: self.owner.deep_view(),
            name: self.name@,
            full_name: self.full_name@,
            description: self.description@,
            private: self.private,
            fork: self.fork,
            url: self.url@,
            html_url: self.html_url@,
            archive_url: self.archive_url@,
            assignees_url: self.assignees_url@,
            blobs_url: self.blobs_url@,
            branches_url: self.branches_url@,
            clone_url: self.clone_url@,
            collaborators_url: self.collaborators_url@,
            comments_url: self.comments_url@,
            commits_url: self.commits_url@,
            compare_url: self.compare_url@,
            contents_url: self.contents_url@,
            contributors_url: self.contributors_url@,
            downloads_url: self.downloads_url@,
            events_url: self.events_url@,
            forks_url: self.forks_url@,
            git_commits_url: self.git_commits_url@,
            git_refs_url: self.git_refs_url@,
            git_tags_url: self.git_tags_url@,
            git_url: self.git_url@,
            hooks_url: self.hooks_url@,
            issue_comment_url: self.issue_comment_url@,
            issue_events_url: self.issue_events_url@,
            issues_url: self.issues_url@,
            keys_url: self.keys_url@,
            labels_url: self.labels_url@,
            languages_url: self.languages_url@,
            merges_url: self.merges_url@,
            milestones_url: self.milestones_url@,
            mirror_url: self.mirror_url.deep_view(),
            notifications_url: self.notifications_url@,
            pulls_url: self.pulls_url@,
            releases_url: self.releases_url@,
            ssh_url: self.ssh_url@,
            stargazers_url: self.stargazers_url@,
            statuses_url: self.statuses_url@,
            subscribers_url: self.subscribers_url@,
            subscription_url: self.subscription_url@,
            svn_url: self.svn_url@,
            tags_url: self.tags_url@,
            teams_url: self.teams_url@,
            trees_url: self.trees_url@,
            homepage: self.homepage.deep_view(),
            language: self.language.deep_view(),
            forks_count: self.forks_count,
            stargazers_count: self.stargazers_count,
            watchers_count: self.watchers_count,
            size: self.size,
            default_branch: self.default_branch@,
            open_issues_count: self.open_issues_count,
            has_issues: self.has_issues,
            has_wiki: self.has_wiki,
            has_pages: self.has_pages,
            has_downloads: self.has_downloads,
            pushed_at: self.pushed_at,
            created_at: self.created_at,
            updated_at: self.updated_at,
            permissions: self.permissions.deep_view(),
            subscribers_count: self.subscribers_count,
            organization: self.organization.deep_view(),
            parent: match &self.parent {
                Some(b) => Some(Box::new((**b).deep_view())),
                None => None,
            },
            source: match &self.source {
                Some(b) => Some(Box::new((**b).deep_view())),
                None => None,
            },
        }
    }
}

/// The model a document carries for a full repository record, the nested
/// `parent` and `source` repositories of a fork included.
pub open spec fn spec_repo_from_json(j: JsonVal) -> Option<RepoView>
    decreases j, 1int,
{
        match j {
            JsonVal::Obj(fs) => {
                if spec_field_u32(fs, "id"@) is None {
                    None
                } else if spec_field_rec::<GithubUser>(fs, "owner"@) is None {
                    None
                } else if spec_field_str(fs, "name"@) is None {
                    None
                } else if spec_field_str(fs, "full_name"@) is None {
                    None
                } else if spec_field_str(fs, "description"@) is None {
                    None
                } else if spec_field_bool(fs, "private"@) is None {
                    None
                } else if spec_field_bool(fs, "fork"@) is None {
                    None
                } else if spec_field_str(fs, "url"@) is None {
                    None
                } else if spec_field_str(fs, "html_url"@) is None {
                    None
                } else if spec_field_str(fs, "archive_url"@) is None {
                    None
                } else if spec_field_str(fs, "assignees_url"@) is None {
                    None
                } else if spec_field_str(fs, "blobs_url"@) is None {
                    None
                } else if spec_field_str(fs, "branches_url"@) is None {
                    None
                } else if spec_field_str(fs, "clone_url"@) is None {
                    None
                } else if spec_field_str(fs, "collaborators_url"@) is None {
                    None
                } else if spec_field_str(fs, "comments_url"@) is None {
                    None
                } else if spec_field_str(fs, "commits_url"@) is None {
                    None
                } else if spec_field_str(fs, "compare_url"@) is None {
                    None
                } else if spec_field_str(fs, "contents_url"@) is None {
                    None
                } else if spec_field_str(fs, "contributors_url"@) is None {
                    None
                } else if spec_field_str(fs, "downloads_url"@) is None {
                    None
                } else if spec_field_str(fs, "events_url"@) is None {
                    None
                } else if spec_field_str(fs, "forks_url"@) is None {
                    None
                } else if spec_field_str(fs, "git_commits_url"@) is None {
                    None
                } else if spec_field_str(fs, "git_refs_url"@) is None {
                    None
                } else if spec_field_str(fs, "git_tags_url"@) is None {
                    None
                } else if spec_field_str(fs, "git_url"@) is None {
                    None
                } else if spec_field_str(fs, "hooks_url"@) is None {
                    None
                } else if spec_field_str(fs, "issue_comment_url"@) is None {
                    None
                } else if spec_field_str(fs, "issue_events_url"@) is None {
                    None
                } else if spec_field_str(fs, "issues_url"@) is None {
                    None
                } else if spec_field_str(fs, "keys_url"@) is None {
                    None
                } else if spec_field_str(fs, "labels_url"@) is None {
                    None
                } else if spec_field_str(fs, "languages_url"@) is None {
                    None
                } else if spec_field_str(fs, "merges_url"@) is None {
                    None
                } else if spec_field_str(fs, "milestones_url"@) is None {
                    None
                } else if spec_field_opt_str(fs, "mirror_url"@) is None {
                    None
                } else if spec_field_str(fs, "notifications_url"@) is None {
                    None
                } else if spec_field_str(fs, "pulls_url"@) is None {
                    None
                } else if spec_field_str(fs, "releases_url"@) is None {
                    None
                } else if spec_field_str(fs, "ssh_url"@) is None {
                    None
                } else if spec_field_str(fs, "stargazers_url"@) is None {
                    None
                } else if spec_field_str(fs, "statuses_url"@) is None {
                    None
                } else if spec_field_str(fs, "subscribers_url"@) is None {
                    None
                } else if spec_field_str(fs, "subscription_url"@) is None {
                    None
                } else if spec_field_str(fs, "svn_url"@) is None {
                    None
                } else if spec_field_str(fs, "tags_url"@) is None {
                    None
                } else if spec_field_str(fs, "teams_url"@) is None {
                    None
                } else if spec_field_str(fs, "trees_url"@) is None {
                    None
                } else if spec_field_opt_str(fs, "homepage"@) is None {
                    None
                } else if spec_field_opt_str(fs, "language"@) is None {
                    None
                } else if spec_field_u32(fs, "forks_count"@) is None {
                    None
                } else if spec_field_u32(fs, "stargazers_count"@) is None {
                    None
                } else if spec_field_u32(fs, "watchers_count"@) is None {
                    None
                } else if spec_field_u32(fs, "size"@) is None {
                    None
                } else if spec_field_str(fs, "default_branch"@) is None {
                    None
                } else if spec_field_u32(fs, "open_issues_count"@) is None {
                    None
                } else if spec_field_bool(fs, "has_issues"@) is None {
                    None
                } else if spec_field_bool(fs, "has_wiki"@) is None {
                    None
                } else if spec_field_bool(fs, "has_pages"@) is None {
                    None
                } else if spec_field_bool(fs, "has_downloads"@) is None {
                    None
                } else if spec_field_time(fs, "pushed_at"@) is None {
                    None
                } else if spec_field_time(fs, "created_at"@) is None {
                    None
                } else if spec_field_time(fs, "updated_at"@) is None {
                    None
                } else if spec_field_opt_rec::<RepoPermissions>(fs, "permissions"@) is None {
                    None
                } else if spec_field_opt_u32(fs, "subscribers_count"@) is None {
                    None
                } else if spec_field_opt_rec::<Organization>(fs, "organization"@) is None {
                    None
                } else if spec_repo_sub(fs, "parent"@) is None {
                    None
                } else if spec_repo_sub(fs, "source"@) is None {
                    None
                } else {
                    Some(
                        RepoView {
                            id: spec_field_u32(fs, "id"@).unwrap(),
                            owner: spec_field_rec::<GithubUser>(fs, "owner"@).unwrap(),
                            name: spec_field_str(fs, "name"@).unwrap(),
                            full_name: spec_field_str(fs, "full_name"@).unwrap(),
                            description: spec_field_str(fs, "description"@).unwrap(),
                            private: spec_field_bool(fs, "private"@).unwrap(),
                            fork: spec_field_bool(fs, "fork"@).unwrap(),
                            url: spec_field_str(fs, "url"@).unwrap(),
                            html_url: spec_field_str(fs, "html_url"@).unwrap(),
                            archive_url: spec_field_str(fs, "archive_url"@).unwrap(),
                            assignees_url: spec_field_str(fs, "assignees_url"@).unwrap(),
                            blobs_url: spec_field_str(fs, "blobs_url"@).unwrap(),
                            branches_url: spec_field_str(fs, "branches_url"@).unwrap(),
                            clone_url: spec_field_str(fs, "clone_url"@).unwrap(),
                            collaborators_url: spec_field_str(fs, "collaborators_url"@).unwrap(),
                            comments_url: spec_field_str(fs, "comments_url"@).unwrap(),
                            commits_url: spec_field_str(fs, "commits_url"@).unwrap(),
                            compare_url: spec_field_str(fs, "compare_url"@).unwrap(),
                            contents_url: spec_field_str(fs, "contents_url"@).unwrap(),
                            contributors_url: spec_field_str(fs, "contributors_url"@).unwrap(),
                            downloads_url: spec_field_str(fs, "downloads_url"@).unwrap(),
                            events_url: spec_field_str(fs, "events_url"@).unwrap(),
                            forks_url: spec_field_str(fs, "forks_url"@).unwrap(),
                            git_commits_url: spec_field_str(fs, "git_commits_url"@).unwrap(),
                            git_refs_url: spec_field_str(fs, "git_refs_url"@).unwrap(),
                            git_tags_url: spec_field_str(fs, "git_tags_url"@).unwrap(),
                            git_url: spec_field_str(fs, "git_url"@).unwrap(),
                            hooks_url: spec_field_str(fs, "hooks_url"@).unwrap(),
                            issue_comment_url: spec_field_str(fs, "issue_comment_url"@).unwrap(),
                            issue_events_url: spec_field_str(fs, "issue_events_url"@).unwrap(),
                            issues_url: spec_field_str(fs, "issues_url"@).unwrap(),
                            keys_url: spec_field_str(fs, "keys_url"@).unwrap(),
                            labels_url: spec_field_str(fs, "labels_url"@).unwrap(),
                            languages_url: spec_field_str(fs, "languages_url"@).unwrap(),
                            merges_url: spec_field_str(fs, "merges_url"@).unwrap(),
                            milestones_url: spec_field_str(fs, "milestones_url"@).unwrap(),
                            mirror_url: spec_field_opt_str(fs, "mirror_url"@).unwrap(),
                            notifications_url: spec_field_str(fs, "notifications_url"@).unwrap(),
                            pulls_url: spec_field_str(fs, "pulls_url"@).unwrap(),
                            releases_url: spec_field_str(fs, "releases_url"@).unwrap(),
                            ssh_url: spec_field_str(fs, "ssh_url"@).unwrap(),
                            stargazers_url: spec_field_str(fs, "stargazers_url"@).unwrap(),
                            statuses_url: spec_field_str(fs, "statuses_url"@).unwrap(),
                            subscribers_url: spec_field_str(fs, "subscribers_url"@).unwrap(),
                            subscription_url: spec_field_str(fs, "subscription_url"@).unwrap(),
                            svn_url: spec_field_str(fs, "svn_url"@).unwrap(),
                            tags_url: spec_field_str(fs, "tags_url"@).unwrap(),
                            teams_url: spec_field_str(fs, "teams_url"@).unwrap(),
                            trees_url: spec_field_str(fs, "trees_url"@).unwrap(),
                            homepage: spec_field_opt_str(fs, "homepage"@).unwrap(),
                            language: spec_field_opt_str(fs, "language"@).unwrap(),
                            forks_count: spec_field_u32(fs, "forks_count"@).unwrap(),
                            stargazers_count: spec_field_u32(fs, "stargazers_count"@).unwrap(),
                            watchers_count: spec_field_u32(fs, "watchers_count"@).unwrap(),
                            size: spec_field_u32(fs, "size"@).unwrap(),
                            default_branch: spec_field_str(fs, "default_branch"@).unwrap(),
                            open_issues_count: spec_field_u32(fs, "open_issues_count"@).unwrap(),
                            has_issues: spec_field_bool(fs, "has_issues"@).unwrap(),
                            has_wiki: spec_field_bool(fs, "has_wiki"@).unwrap(),
                            has_pages: spec_field_bool(fs, "has_pages"@).unwrap(),
                            has_downloads: spec_field_bool(fs, "has_downloads"@).unwrap(),
                            pushed_at: spec_field_time(fs, "pushed_at"@).unwrap(),
                            created_at: spec_field_time(fs, "created_at"@).unwrap(),
                            updated_at: spec_field_time(fs, "updated_at"@).unwrap(),
                            permissions: spec_field_opt_rec::<RepoPermissions>(fs, "permissions"@).unwrap(),
                            subscribers_count: spec_field_opt_u32(fs, "subscribers_count"@).unwrap(),
                            organization: spec_field_opt_rec::<Organization>(fs, "organization"@).unwrap(),
                            parent: spec_repo_sub(fs, "parent"@).unwrap(),
                            source: spec_repo_sub(fs, "source"@).unwrap(),
                        },
                    )
                }
            },
            _ => None,
        }
    }

impl JsonDecode for Repo {
    open spec fn spec_from_json(j: JsonVal) -> Option<RepoView> {
        spec_repo_from_json(j)
    }

    fn from_json(v: &JsonValue) -> (r: Result<Self, String>) {
        decode_repo(v)
    }
}

/// Reads a full repository record out of a document, following the nested
/// `parent` and `source` repositories of a fork.
#[verifier::rlimit(100)]
#[verifier::spinoff_prover]
fn decode_repo(v: &JsonValue) -> (r: Result<Repo, String>)
    ensures
        match r {
            Ok(x) => spec_repo_from_json(v@) == Some(x.deep_view()),
            Err(_) => spec_repo_from_json(v@) is None,
        },
    decreases *v, 1int,
{
        match v {
            JsonValue::Obj(fs) => {
                proof {
                    lemma_view_obj_of(v);
                }
                let id = match field_u32(fs, "id") {
                    Ok(x) => x,
                    Err(e) => {
                        return Err(e);
                    },
                };
                let owner = match field_rec::<GithubUser>(fs, "owner") {
                    Ok(x) => x,
                    Err(e) => {
                        return Err(e);
                    },
                };
                let name = match field_str(fs, "name") {
                    Ok(x) => x,
                    Err(e) => {
                        return Err(e);
                    },
                };
                let full_name = match field_str(fs, "full_name") {
                    Ok(x) => x,
                    Err(e) => {
                        return Err(e);
                    },
                };
                let description = match field_str(fs, "description") {
                    Ok(x) => x,
                    Err(e) => {
                        return Err(e);
                    },
                };
                let private = match field_bool(fs, "private") {
                    Ok(x) => x,
                    Err(e) => {
                        return Err(e);
                    },
                };
                let fork = match field_bool(fs, "fork") {
                    Ok(x) => x,
                    Err(e) => {
                        return Err(e);
                    },
                };
                let url = match field_str(fs, "url") {
                    Ok(x) => x,
                    Err(e) => {
                        return Err(e);
                    },
                };
                let html_url = match field_str(fs, "html_url") {
                    Ok(x) => x,
                    Err(e) => {
                        return Err(e);
                    },
                };
                let archive_url = match field_str(fs, "archive_url") {
                    Ok(x) => x,
                    Err(e) => {
                        return Err(e);
                    },
                };
                let assignees_url = match field_str(fs, "assignees_url") {
                    Ok(x) => x,
                    Err(e) => {
                        return Err(e);
                    },
                };
                let blobs_url = match field_str(fs, "blobs_url") {
                    Ok(x) => x,
                    Err(e) => {
                        return Err(e);
                    },
                };
                let branches_url = match field_str(fs, "branches_url") {
                    Ok(x) => x,
                    Err(e) => {
                        return Err(e);
                    },
                };
                let clone_url = match field_str(fs, "clone_url") {
                    Ok(x) => x,
                    Err(e) => {
                        return Err(e);
                    },
                };
                let collaborators_url = match field_str(fs, "collaborators_url") {
                    Ok(x) => x,
                    Err(e) => {
                        return Err(e);
                    },
                };
                let comments_url = match field_str(fs, "comments_url") {
                    Ok(x) => x,
                    Err(e) => {
                        return Err(e);
                    },
                };
                let commits_url = match field_str(fs, "commits_url") {
                    Ok(x) => x,
                    Err(e) => {
                        return Err(e);
                    },
                };
                let compare_url = match field_str(fs, "compare_url") {
                    Ok(x) => x,
                    Err(e) => {
                        return Err(e);
                    },
                };
                let contents_url = match field_str(fs, "contents_url") {
                    Ok(x) => x,
                    Err(e) => {
                        return Err(e);
                    },
                };
                let contributors_url = match field_str(fs, "contributors_url") {
                    Ok(x) => x,
                    Err(e) => {
                        return Err(e);
                    },
                };
                let downloads_url = match field_str(fs, "downloads_url") {
                    Ok(x) => x,
                    Err(e) => {
                        return Err(e);
                    },
                };
                let events_url = match field_str(fs, "events_url") {
                    Ok(x) => x,
                    Err(e) => {
                        return Err(e);
                    },
                };
                let forks_url = match field_str(fs, "forks_url") {
                    Ok(x) => x,
                    Err(e) => {
                        return Err(e);
                    },
                };
                let git_commits_url = match field_str(fs, "git_commits_url") {
                    Ok(x) => x,
                    Err(e) => {
                        return Err(e);
                    },
                };
                let git_refs_url = match field_str(fs, "git_refs_url") {
                    Ok(x) => x,
                    Err(e) => {
                        return Err(e);
                    },
                };
                let git_tags_url = match field_str(fs, "git_tags_url") {
                    Ok(x) => x,
                    Err(e) => {
                        return Err(e);
                    },
                };
                let git_url = match field_str(fs, "git_url") {
                    Ok(x) => x,
                    Err(e) => {
                        return Err(e);
                    },
                };
                let hooks_url = match field_str(fs, "hooks_url") {
                    Ok(x) => x,
                    Err(e) => {
                        return Err(e);
                    },
                };
                let issue_comment_url = match field_str(fs, "issue_comment_url") {
                    Ok(x) => x,
                    Err(e) => {
                        return Err(e);
                    },
                };
                let issue_events_url = match field_str(fs, "issue_events_url") {
                    Ok(x) => x,
                    Err(e) => {
                        return Err(e);
                    },
                };
                let issues_url = match field_str(fs, "issues_url") {
                    Ok(x) => x,
                    Err(e) => {
                        return Err(e);
                    },
                };
                let keys_url = match field_str(fs, "keys_url") {
                    Ok(x) => x,
                    Err(e) => {
                        return Err(e);
                    },
                };
                let labels_url = match field_str(fs, "labels_url") {
                    Ok(x) => x,
                    Err(e) => {
                        return Err(e);
                    },
                };
                let languages_url = match field_str(fs, "languages_url") {
                    Ok(x) => x,
                    Err(e) => {
                        return Err(e);
                    },
                };
                let merges_url = match field_str(fs, "merges_url") {
                    Ok(x) => x,
                    Err(e) => {
                        return Err(e);
                    },
                };
                let milestones_url = match field_str(fs, "milestones_url") {
                    Ok(x) => x,
                    Err(e) => {
                        return Err(e);
                    },
                };
                let mirror_url = match field_opt_str(fs, "mirror_url") {
                    Ok(x) => x,
                    Err(e) => {
                        return Err(e);
                    },
                };
                let notifications_url = match field_str(fs, "notifications_url") {
                    Ok(x) => x,
                    Err(e) => {
                        return Err(e);
                    },
                };
                let pulls_url = match field_str(fs, "pulls_url") {
                    Ok(x) => x,
                    Err(e) => {
                        return Err(e);
                    },
                };
                let releases_url = match field_str(fs, "releases_url") {
                    Ok(x) => x,
                    Err(e) => {
                        return Err(e);
                    },
                };
                let ssh_url = match field_str(fs, "ssh_url") {
                    Ok(x) => x,
                    Err(e) => {
                        return Err(e);
                    },
                };
                let stargazers_url = match field_str(fs, "stargazers_url") {
                    Ok(x) => x,
                    Err(e) => {
                        return Err(e);
                    },
                };
                let statuses_url = match field_str(fs, "statuses_url") {
                    Ok(x) => x,
                    Err(e) => {
                        return Err(e);
                    },
                };
                let subscribers_url = match field_str(fs, "subscribers_url") {
                    Ok(x) => x,
                    Err(e) => {
                        return Err(e);
                    },
                };
                let subscription_url = match field_str(fs, "subscription_url") {
                    Ok(x) => x,
                    Err(e) => {
                        return Err(e);
                    },
                };
                let svn_url = match field_str(fs, "svn_url") {
                    Ok(x) => x,
                    Err(e) => {
                        return Err(e);
                    },
                };
                let tags_url = match field_str(fs, "tags_url") {
                    Ok(x) => x,
                    Err(e) => {
                        return Err(e);
                    },
                };
                let teams_url = match field_str(fs, "teams_url") {
                    Ok(x) => x,
                    Err(e) => {
                        return Err(e);
                    },
                };
                let trees_url = match field_str(fs, "trees_url") {
                    Ok(x) => x,
                    Err(e) => {
                        return Err(e);
                    },
                };
                let homepage = match field_opt_str(fs, "homepage") {
                    Ok(x) => x,
                    Err(e) => {
                        return Err(e);
                    },
                };
                let language = match field_opt_str(fs, "language") {
                    Ok(x) => x,
                    Err(e) => {
                        return Err(e);
                    },
                };
                let forks_count = match field_u32(fs, "forks_count") {
                    Ok(x) => x,
                    Err(e) => {
                        return Err(e);
                    },
                };
                let stargazers_count = match field_u32(fs, "stargazers_count") {
                    Ok(x) => x,
                    Err(e) => {
                        return Err(e);
                    },
                };
                let watchers_count = match field_u32(fs, "watchers_count") {
                    Ok(x) => x,
                    Err(e) => {
                        return Err(e);
                    },
                };
                let size = match field_u32(fs, "size") {
                    Ok(x) => x,
                    Err(e) => {
                        return Err(e);
                    },
                };
                let default_branch = match field_str(fs, "default_branch") {
                    Ok(x) => x,
                    Err(e) => {
                        return Err(e);
                    },
                };
                let open_issues_count = match field_u32(fs, "open_issues_count") {
                    Ok(x) => x,
                    Err(e) => {
                        return Err(e);
                    },
                };
                let has_issues = match field_bool(fs, "has_issues") {
                    Ok(x) => x,
                    Err(e) => {
                        return Err(e);
                    },
                };
                let has_wiki = match field_bool(fs, "has_wiki") {
                    Ok(x) => x,
                    Err(e) => {
                        return Err(e);
                    },
                };
                let has_pages = match field_bool(fs, "has_pages") {
                    Ok(x) => x,
                    Err(e) => {
                        return Err(e);
                    },
                };
                let has_downloads = match field_bool(fs, "has_downloads") {
                    Ok(x) => x,
                    Err(e) => {
                        return Err(e);
                    },
                };
                let pushed_at = match field_time(fs, "pushed_at") {
                    Ok(x) => x,
                    Err(e) => {
                        return Err(e);
                    },
                };
                let created_at = match field_time(fs, "created_at") {
                    Ok(x) => x,
                    Err(e) => {
                        return Err(e);
                    },
                };
                let updated_at = match field_time(fs, "updated_at") {
                    Ok(x) => x,
                    Err(e) => {
                        return Err(e);
                    },
                };
                let permissions = match field_opt_rec::<RepoPermissions>(fs, "permissions") {
                    Ok(x) => x,
                    Err(e) => {
                        return Err(e);
                    },
                };
                let subscribers_count = match field_opt_u32(fs, "subscribers_count") {
                    Ok(x) => x,
                    Err(e) => {
                        return Err(e);
                    },
                };
                let organization = match field_opt_rec::<Organization>(fs, "organization") {
                    Ok(x) => x,
                    Err(e) => {
                        return Err(e);
                    },
                };
                let parent = match decode_repo_sub(fs, "parent") {
                    Ok(x) => x,
                    Err(e) => {
                        return Err(e);
                    },
                };
                let source = match decode_repo_sub(fs, "source") {
                    Ok(x) => x,
                    Err(e) => {
                        return Err(e);
                    },
                };
                Ok(
                    Repo {
                        id,
                        owner,
                        name,
                        full_name,
                        description,
                        private,
                        fork,
                        url,
                        html_url,
                        archive_url,
                        assignees_url,
                        blobs_url,
                        branches_url,
                        clone_url,
                        collaborators_url,
                        comments_url,
                        commits_url,
                        compare_url,
                        contents_url,
                        contributors_url,
                        downloads_url,
                        events_url,
                        forks_url,
                        git_commits_url,
                        git_refs_url,
                        git_tags_url,
                        git_url,
                        hooks_url,
                        issue_comment_url,
                        issue_events_url,
                        issues_url,
                        keys_url,
                        labels_url,
                        languages_url,
                        merges_url,
                        milestones_url,
                        mirror_url,
                        notifications_url,
                        pulls_url,
                        releases_url,
                        ssh_url,
                        stargazers_url,
                        statuses_url,
                        subscribers_url,
                        subscription_url,
                        svn_url,
                        tags_url,
                        teams_url,
                        trees_url,
                        homepage,
                        language,
                        forks_count,
                        stargazers_count,
                        watchers_count,
                        size,
                        default_branch,
                        open_issues_count,
                        has_issues,
                        has_wiki,
                        has_pages,
                        has_downloads,
                        pushed_at,
                        created_at,
                        updated_at,
                        permissions,
                        subscribers_count,
                        organization,
                        parent,
                        source,
                    },
                )
            },
            _ => Err(String::from_str("expected an object")),
        }
    }

/// The older repository record some event payloads carry: plain counters
/// for two of its stamps, and a light owner identity.  The nested
/// repositories a fork's record carries under `parent` and `source` are
/// read back with the repository decoder; an absent or null member reads as
/// `None`.
#[derive(Debug, PartialEq)]
pub struct LegacyRepo {
    pub id: u32,
    pub owner: GitUser,
    pub name: RepoName,
    pub full_name: RepoName,
    pub description: String,
    pub private: bool,
    pub fork: bool,
    pub url: Url,
    pub html_url: Url,
    pub archive_url: Url,
    pub assignees_url: Url,
    pub blobs_url: Url,
    pub branches_url: Url,
    pub clone_url: Url,
    pub collaborators_url: Url,
    pub comments_url: Url,
    pub commits_url: Url,
    pub compare_url: Url,
    pub contents_url: Url,
    pub contributors_url: Url,
    pub downloads_url: Url,
    pub events_url: Url,
    pub forks_url: Url,
    pub git_commits_url: Url,
    pub git_refs_url: Url,
    pub git_tags_url: Url,
    pub git_url: Url,
    pub hooks_url: Url,
    pub issue_comment_url: Url,
    pub issue_events_url: Url,
    pub issues_url: Url,
    pub keys_url: Url,
    pub labels_url: Url,
    pub languages_url: Url,
    pub merges_url: Url,
    pub milestones_url: Url,
    pub mirror_url: Option<Url>,
    pub notifications_url: Url,
    pub pulls_url: Url,
    pub releases_url: Url,
    pub ssh_url: Url,
    pub stargazers_url: Url,
    pub statuses_url: Url,
    pub subscribers_url: Url,
    pub subscription_url: Url,
    pub svn_url: Url,
    pub tags_url: Url,
    pub teams_url: Url,
    pub trees_url: Url,
    pub homepage: Option<Url>,
    pub language: Option<String>,
    pub forks_count: u32,
    pub stargazers_count: u32,
    pub watchers_count: u32,
    pub size: u32,
    pub default_branch: BranchName,
    pub open_issues_count: u32,
    pub has_issues: bool,
    pub has_wiki: bool,
    pub has_pages: bool,
    pub has_downloads: bool,
    pub pushed_at: u32,
    pub created_at: u32,
    pub updated_at: GitTm,
    pub permissions: Option<RepoPermissions>,
    pub subscribers_count: Option<u32>,
    pub organization: Option<Organization>,
    pub parent: Option<Box<Repo>>,
    pub source: Option<Box<Repo>>,
}

/// The model of `LegacyRepo`.
pub struct LegacyRepoView {
    pub id: u32,
    pub owner: GitUserView,
    pub name: Seq<char>,
    pub full_name: Seq<char>,
    pub description: Seq<char>,
    pub private: bool,
    pub fork: bool,
    pub url: Seq<char>,
    pub html_url: Seq<char>,
    pub archive_url: Seq<char>,
    pub assignees_url: Seq<char>,
    pub blobs_url: Seq<char>,
    pub branches_url: Seq<char>,
    pub clone_url: Seq<char>,
    pub collaborators_url: Seq<char>,
    pub comments_url: Seq<char>,
    pub commits_url: Seq<char>,
    pub compare_url: Seq<char>,
    pub contents_url: Seq<char>,
    pub contributors_url: Seq<char>,
    pub downloads_url: Seq<char>,
    pub events_url: Seq<char>,
    pub forks_url: Seq<char>,
    pub git_commits_url: Seq<char>,
    pub git_refs_url: Seq<char>,
    pub git_tags_url: Seq<char>,
    pub git_url: Seq<char>,
    pub hooks_url: Seq<char>,
    pub issue_comment_url: Seq<char>,
    pub issue_events_url: Seq<char>,
    pub issues_url: Seq<char>,
    pub keys_url: Seq<char>,
    pub labels_url: Seq<char>,
    pub languages_url: Seq<char>,
    pub merges_url: Seq<char>,
    pub milestones_url: Seq<char>,
    pub mirror_url: Option<Seq<char>>,
    pub notifications_url: Seq<char>,
    pub pulls_url: Seq<char>,
    pub releases_url: Seq<char>,
    pub ssh_url: Seq<char>,
    pub stargazers_url: Seq<char>,
    pub statuses_url: Seq<char>,
    pub subscribers_url: Seq<char>,
    pub subscription_url: Seq<char>,
    pub svn_url: Seq<char>,
    pub tags_url: Seq<char>,
    pub teams_url: Seq<char>,
    pub trees_url: Seq<char>,
    pub homepage: Option<Seq<char>>,
    pub language: Option<Seq<char>>,
    pub forks_count: u32,
    pub stargazers_count: u32,
    pub watchers_count: u32,
    pub size: u32,
    pub default_branch: Seq<char>,
    pub open_issues_count: u32,
    pub has_issues: bool,
    pub has_wiki: bool,
    pub has_pages: bool,
    pub has_downloads: bool,
    pub pushed_at: u32,
    pub created_at: u32,
    pub updated_at: GitTm,
    pub permissions: Option<RepoPermissionsView>,
    pub subscribers_count: Option<u32>,
    pub organization: Option<OrganizationView>,
    pub parent: Option<Box<RepoView>>,
    pub source: Option<Box<RepoView>>,
}

impl DeepView for LegacyRepo {
    type V = LegacyRepoView;

    open spec fn deep_view(&self) -> LegacyRepoView
        decreases self,
    {
        LegacyRepoView {
            id: self.id,
            owner: self.owner.deep_view(),
            name: self.name@,
            full_name: self.full_name@,
            description: self.description@,
            private: self.private,
            fork: self.fork,
            url: self.url@,
            html_url: self.html_url@,
            archive_url: self.archive_url@,
            assignees_url: self.assignees_url@,
            blobs_url: self.blobs_url@,
            branches_url: self.branches_url@,
            clone_url: self.clone_url@,
            collaborators_url: self.collaborators_url@,
            comments_url: self.comments_url@,
            commits_url: self.commits_url@,
            compare_url: self.compare_url@,
            contents_url: self.contents_url@,
            contributors_url: self.contributors_url@,
            downloads_url: self.downloads_url@,
            events_url: self.events_url@,
            forks_url: self.forks_url@,
            git_commits_url: self.git_commits_url@,
            git_refs_url: self.git_refs_url@,
            git_tags_url: self.git_tags_url@,
            git_url: self.git_url@,
            hooks_url: self.hooks_url@,
            issue_comment_url: self.issue_comment_url@,
            issue_events_url: self.issue_events_url@,
            issues_url: self.issues_url@,
            keys_url: self.keys_url@,
            labels_url: self.labels_url@,
            languages_url: self.languages_url@,
            merges_url: self.merges_url@,
            milestones_url: self.milestones_url@,
            mirror_url: self.mirror_url.deep_view(),
            notifications_url: self.notifications_url@,
            pulls_url: self.pulls_url@,
            releases_url: self.releases_url@,
            ssh_url: self.ssh_url@,
            stargazers_url: self.stargazers_url@,
            statuses_url: self.statuses_url@,
            subscribers_url: self.subscribers_url@,
            subscription_url: self.subscription_url@,
            svn_url: self.svn_url@,
            tags_url: self.tags_url@,
            teams_url: self.teams_url@,
            trees_url: self.trees_url@,
            homepage: self.homepage.deep_view(),
            language: self.language.deep_view(),
            forks_count: self.forks_count,
            stargazers_count: self.stargazers_count,
            watchers_count: self.watchers_count,
            size: self.size,
            default_branch: self.default_branch@,
            open_issues_count: self.open_issues_count,
            has_issues: self.has_issues,
            has_wiki: self.has_wiki,
            has_pages: self.has_pages,
            has_downloads: self.has_downloads,
            pushed_at: self.pushed_at,
            created_at: self.created_at,
            updated_at: self.updated_at,
            permissions: self.permissions.deep_view(),
            subscribers_count: self.subscribers_count,
            organization: self.organization.deep_view(),
            parent: match &self.parent {
                Some(b) => Some(Box::new((**b).deep_view())),
                None => None,
            },
            source: match &self.source {
                Some(b) => Some(Box::new((**b).deep_view())),
                None => None,
            },
        }
    }
}

impl JsonDecode for LegacyRepo {
    open spec fn spec_from_json(j: JsonVal) -> Option<LegacyRepoView> {
        match j {
            JsonVal::Obj(fs) => {
                if spec_field_u32(fs, "id"@) is None {
                    None
                } else if spec_field_rec::<GitUser>(fs, "owner"@) is None {
                    None
                } else if spec_field_str(fs, "name"@) is None {
                    None
                } else if spec_field_str(fs, "full_name"@) is None {
                    None
                } else if spec_field_str(fs, "description"@) is None {
                    None
                } else if spec_field_bool(fs, "private"@) is None {
                    None
                } else if spec_field_bool(fs, "fork"@) is None {
                    None
                } else if spec_field_str(fs, "url"@) is None {
                    None
                } else if spec_field_str(fs, "html_url"@) is None {
                    None
                } else if spec_field_str(fs, "archive_url"@) is None {
                    None
                } else if spec_field_str(fs, "assignees_url"@) is None {
                    None
                } else if spec_field_str(fs, "blobs_url"@) is None {
                    None
                } else if spec_field_str(fs, "branches_url"@) is None {
                    None
                } else if spec_field_str(fs, "clone_url"@) is None {
                    None
                } else if spec_field_str(fs, "collaborators_url"@) is None {
                    None
                } else if spec_field_str(fs, "comments_url"@) is None {
                    None
                } else if spec_field_str(fs, "commits_url"@) is None {
                    None
                } else if spec_field_str(fs, "compare_url"@) is None {
                    None
                } else if spec_field_str(fs, "contents_url"@) is None {
                    None
                } else if spec_field_str(fs, "contributors_url"@) is None {
                    None
                } else if spec_field_str(fs, "downloads_url"@) is None {
                    None
                } else if spec_field_str(fs, "events_url"@) is None {
                    None
                } else if spec_field_str(fs, "forks_url"@) is None {
                    None
                } else if spec_field_str(fs, "git_commits_url"@) is None {
                    None
                } else if spec_field_str(fs, "git_refs_url"@) is None {
                    None
                } else if spec_field_str(fs, "git_tags_url"@) is None {
                    None
                } else if spec_field_str(fs, "git_url"@) is None {
                    None
                } else if spec_field_str(fs, "hooks_url"@) is None {
                    None
                } else if spec_field_str(fs, "issue_comment_url"@) is None {
                    None
                } else if spec_field_str(fs, "issue_events_url"@) is None {
                    None
                } else if spec_field_str(fs, "issues_url"@) is None {
                    None
                } else if spec_field_str(fs, "keys_url"@) is None {
                    None
                } else if spec_field_str(fs, "labels_url"@) is None {
                    None
                } else if spec_field_str(fs, "languages_url"@) is None {
                    None
                } else if spec_field_str(fs, "merges_url"@) is None {
                    None
                } else if spec_field_str(fs, "milestones_url"@) is None {
                    None
                } else if spec_field_opt_str(fs, "mirror_url"@) is None {
                    None
                } else if spec_field_str(fs, "notifications_url"@) is None {
                    None
                } else if spec_field_str(fs, "pulls_url"@) is None {
                    None
                } else if spec_field_str(fs, "releases_url"@) is None {
                    None
                } else if spec_field_str(fs, "ssh_url"@) is None {
                    None
                } else if spec_field_str(fs, "stargazers_url"@) is None {
                    None
                } else if spec_field_str(fs, "statuses_url"@) is None {
                    None
                } else if spec_field_str(fs, "subscribers_url"@) is None {
                    None
                } else if spec_field_str(fs, "subscription_url"@) is None {
                    None
                } else if spec_field_str(fs, "svn_url"@) is None {
                    None
                } else if spec_field_str(fs, "tags_url"@) is None {
                    None
                } else if spec_field_str(fs, "teams_url"@) is None {
                    None
                } else if spec_field_str(fs, "trees_url"@) is None {
                    None
                } else if spec_field_opt_str(fs, "homepage"@) is None {
                    None
                } else if spec_field_opt_str(fs, "language"@) is None {
                    None
                } else if spec_field_u32(fs, "forks_count"@) is None {
                    None
                } else if spec_field_u32(fs, "stargazers_count"@) is None {
                    None
                } else if spec_field_u32(fs, "watchers_count"@) is None {
                    None
                } else if spec_field_u32(fs, "size"@) is None {
                    None
                } else if spec_field_str(fs, "default_branch"@) is None {
                    None
                } else if spec_field_u32(fs, "open_issues_count"@) is None {
                    None
                } else if spec_field_bool(fs, "has_issues"@) is None {
                    None
                } else if spec_field_bool(fs, "has_wiki"@) is None {
                    None
                } else if spec_field_bool(fs, "has_pages"@) is None {
                    None
                } else if spec_field_bool(fs, "has_downloads"@) is None {
                    None
                } else if spec_field_u32(fs, "pushed_at"@) is None {
                    None
                } else if spec_field_u32(fs, "created_at"@) is None {
                    None
                } else if spec_field_time(fs, "updated_at"@) is None {
                    None
                } else if spec_field_opt_rec::<RepoPermissions>(fs, "permissions"@) is None {
                    None
                } else if spec_field_opt_u32(fs, "subscribers_count"@) is None {
                    None
                } else if spec_field_opt_rec::<Organization>(fs, "organization"@) is None {
                    None
                } else if spec_repo_sub(fs, "parent"@) is None {
                    None
                } else if spec_repo_sub(fs, "source"@) is None {
                    None
                } else {
                    Some(
                        LegacyRepoView {
                            id: spec_field_u32(fs, "id"@).unwrap(),
                            owner: spec_field_rec::<GitUser>(fs, "owner"@).unwrap(),
                            name: spec_field_str(fs, "name"@).unwrap(),
                            full_name: spec_field_str(fs, "full_name"@).unwrap(),
                            description: spec_field_str(fs, "description"@).unwrap(),
                            private: spec_field_bool(fs, "private"@).unwrap(),
                            fork: spec_field_bool(fs, "fork"@).unwrap(),
                            url: spec_field_str(fs, "url"@).unwrap(),
                            html_url: spec_field_str(fs, "html_url"@).unwrap(),
                            archive_url: spec_field_str(fs, "archive_url"@).unwrap(),
                            assignees_url: spec_field_str(fs, "assignees_url"@).unwrap(),
                            blobs_url: spec_field_str(fs, "blobs_url"@).unwrap(),
                            branches_url: spec_field_str(fs, "branches_url"@).unwrap(),
                            clone_url: spec_field_str(fs, "clone_url"@).unwrap(),
                            collaborators_url: spec_field_str(fs, "collaborators_url"@).unwrap(),
                            comments_url: spec_field_str(fs, "comments_url"@).unwrap(),
                            commits_url: spec_field_str(fs, "commits_url"@).unwrap(),
                            compare_url: spec_field_str(fs, "compare_url"@).unwrap(),
                            contents_url: spec_field_str(fs, "contents_url"@).unwrap(),
                            contributors_url: spec_field_str(fs, "contributors_url"@).unwrap(),
                            downloads_url: spec_field_str(fs, "downloads_url"@).unwrap(),
                            events_url: spec_field_str(fs, "events_url"@).unwrap(),
                            forks_url: spec_field_str(fs, "forks_url"@).unwrap(),
                            git_commits_url: spec_field_str(fs, "git_commits_url"@).unwrap(),
                            git_refs_url: spec_field_str(fs, "git_refs_url"@).unwrap(),
                            git_tags_url: spec_field_str(fs, "git_tags_url"@).unwrap(),
                            git_url: spec_field_str(fs, "git_url"@).unwrap(),
                            hooks_url: spec_field_str(fs, "hooks_url"@).unwrap(),
                            issue_comment_url: spec_field_str(fs, "issue_comment_url"@).unwrap(),
                            issue_events_url: spec_field_str(fs, "issue_events_url"@).unwrap(),
                            issues_url: spec_field_str(fs, "issues_url"@).unwrap(),
                            keys_url: spec_field_str(fs, "keys_url"@).unwrap(),
                            labels_url: spec_field_str(fs, "labels_url"@).unwrap(),
                            languages_url: spec_field_str(fs, "languages_url"@).unwrap(),
                            merges_url: spec_field_str(fs, "merges_url"@).unwrap(),
                            milestones_url: spec_field_str(fs, "milestones_url"@).unwrap(),
                            mirror_url: spec_field_opt_str(fs, "mirror_url"@).unwrap(),
                            notifications_url: spec_field_str(fs, "notifications_url"@).unwrap(),
                            pulls_url: spec_field_str(fs, "pulls_url"@).unwrap(),
                            releases_url: spec_field_str(fs, "releases_url"@).unwrap(),
                            ssh_url: spec_field_str(fs, "ssh_url"@).unwrap(),
                            stargazers_url: spec_field_str(fs, "stargazers_url"@).unwrap(),
                            statuses_url: spec_field_str(fs, "statuses_url"@).unwrap(),
                            subscribers_url: spec_field_str(fs, "subscribers_url"@).unwrap(),
                            subscription_url: spec_field_str(fs, "subscription_url"@).unwrap(),
                            svn_url: spec_field_str(fs, "svn_url"@).unwrap(),
                            tags_url: spec_field_str(fs, "tags_url"@).unwrap(),
                            teams_url: spec_field_str(fs, "teams_url"@).unwrap(),
                            trees_url: spec_field_str(fs, "trees_url"@).unwrap(),
                            homepage: spec_field_opt_str(fs, "homepage"@).unwrap(),
                            language: spec_field_opt_str(fs, "language"@).unwrap(),
                            forks_count: spec_field_u32(fs, "forks_count"@).unwrap(),
                            stargazers_count: spec_field_u32(fs, "stargazers_count"@).unwrap(),
                            watchers_count: spec_field_u32(fs, "watchers_count"@).unwrap(),
                            size: spec_field_u32(fs, "size"@).unwrap(),
                            default_branch: spec_field_str(fs, "default_branch"@).unwrap(),
                            open_issues_count: spec_field_u32(fs, "open_issues_count"@).unwrap(),
                            has_issues: spec_field_bool(fs, "has_issues"@).unwrap(),
                            has_wiki: spec_field_bool(fs, "has_wiki"@).unwrap(),
                            has_pages: spec_field_bool(fs, "has_pages"@).unwrap(),
                            has_downloads: spec_field_bool(fs, "has_downloads"@).unwrap(),
                            pushed_at: spec_field_u32(fs, "pushed_at"@).unwrap(),
                            created_at: spec_field_u32(fs, "created_at"@).unwrap(),
                            updated_at: spec_field_time(fs, "updated_at"@).unwrap(),
                            permissions: spec_field_opt_rec::<RepoPermissions>(fs, "permissions"@).unwrap(),
                            subscribers_count: spec_field_opt_u32(fs, "subscribers_count"@).unwrap(),
                            organization: spec_field_opt_rec::<Organization>(fs, "organization"@).unwrap(),
                            parent: spec_repo_sub(fs, "parent"@).unwrap(),
                            source: spec_repo_sub(fs, "source"@).unwrap(),
                        },
                    )
                }
            },
            _ => None,
        }
    }

    fn from_json(v: &JsonValue) -> (r: Result<Self, String>) {
        match v {
            JsonValue::Obj(fs) => {
                proof {
                    lemma_view_obj_of(v);
                }
                let id = match field_u32(fs, "id") {
                    Ok(x) => x,
                    Err(e) => {
                        return Err(e);
                    },
                };
                let owner = match field_rec::<GitUser>(fs, "owner") {
                    Ok(x) => x,
                    Err(e) => {
                        return Err(e);
                    },
                };
                let name = match field_str(fs, "name") {
                    Ok(x) => x,
                    Err(e) => {
                        return Err(e);
                    },
                };
                let full_name = match field_str(fs, "full_name") {
                    Ok(x) => x,
                    Err(e) => {
                        return Err(e);
                    },
                };
                let description = match field_str(fs, "description") {
                    Ok(x) => x,
                    Err(e) => {
                        return Err(e);
                    },
                };
                let private = match field_bool(fs, "private") {
                    Ok(x) => x,
                    Err(e) => {
                        return Err(e);
                    },
                };
                let fork = match field_bool(fs, "fork") {
                    Ok(x) => x,
                    Err(e) => {
                        return Err(e);
                    },
                };
                let url = match field_str(fs, "url") {
                    Ok(x) => x,
                    Err(e) => {
                        return Err(e);
                    },
                };
                let html_url = match field_str(fs, "html_url") {
                    Ok(x) => x,
                    Err(e) => {
                        return Err(e);
                    },
                };
                let archive_url = match field_str(fs, "archive_url") {
                    Ok(x) => x,
                    Err(e) => {
                        return Err(e);
                    },
                };
                let assignees_url = match field_str(fs, "assignees_url") {
                    Ok(x) => x,
                    Err(e) => {
                        return Err(e);
                    },
                };
                let blobs_url = match field_str(fs, "blobs_url") {
                    Ok(x) => x,
                    Err(e) => {
                        return Err(e);
                    },
                };
                let branches_url = match field_str(fs, "branches_url") {
                    Ok(x) => x,
                    Err(e) => {
                        return Err(e);
                    },
                };
                let clone_url = match field_str(fs, "clone_url") {
                    Ok(x) => x,
                    Err(e) => {
                        return Err(e);
                    },
                };
                let collaborators_url = match field_str(fs, "collaborators_url") {
                    Ok(x) => x,
                    Err(e) => {
                        return Err(e);
                    },
                };
                let comments_url = match field_str(fs, "comments_url") {
                    Ok(x) => x,
                    Err(e) => {
                        return Err(e);
                    },
                };
                let commits_url = match field_str(fs, "commits_url") {
                    Ok(x) => x,
                    Err(e) => {
                        return Err(e);
                    },
                };
                let compare_url = match field_str(fs, "compare_url") {
                    Ok(x) => x,
                    Err(e) => {
                        return Err(e);
                    },
                };
                let contents_url = match field_str(fs, "contents_url") {
                    Ok(x) => x,
                    Err(e) => {
                        return Err(e);
                    },
                };
                let contributors_url = match field_str(fs, "contributors_url") {
                    Ok(x) => x,
                    Err(e) => {
                        return Err(e);
                    },
                };
                let downloads_url = match field_str(fs, "downloads_url") {
                    Ok(x) => x,
                    Err(e) => {
                        return Err(e);
                    },
                };
                let events_url = match field_str(fs, "events_url") {
                    Ok(x) => x,
                    Err(e) => {
                        return Err(e);
                    },
                };
                let forks_url = match field_str(fs, "forks_url") {
                    Ok(x) => x,
                    Err(e) => {
                        return Err(e);
                    },
                };
                let git_commits_url = match field_str(fs, "git_commits_url") {
                    Ok(x) => x,
                    Err(e) => {
                        return Err(e);
                    },
                };
                let git_refs_url = match field_str(fs, "git_refs_url") {
                    Ok(x) => x,
                    Err(e) => {
                        return Err(e);
                    },
                };
                let git_tags_url = match field_str(fs, "git_tags_url") {
                    Ok(x) => x,
                    Err(e) => {
                        return Err(e);
                    },
                };
                let git_url = match field_str(fs, "git_url") {
                    Ok(x) => x,
                    Err(e) => {
                        return Err(e);
                    },
                };
                let hooks_url = match field_str(fs, "hooks_url") {
                    Ok(x) => x,
                    Err(e) => {
                        return Err(e);
                    },
                };
                let issue_comment_url = match field_str(fs, "issue_comment_url") {
                    Ok(x) => x,
                    Err(e) => {
                        return Err(e);
                    },
                };
                let issue_events_url = match field_str(fs, "issue_events_url") {
                    Ok(x) => x,
                    Err(e) => {
                        return Err(e);
                    },
                };
                let issues_url = match field_str(fs, "issues_url") {
                    Ok(x) => x,
                    Err(e) => {
                        return Err(e);
                    },
                };
                let keys_url = match field_str(fs, "keys_url") {
                    Ok(x) => x,
                    Err(e) => {
                        return Err(e);
                    },
                };
                let labels_url = match field_str(fs, "labels_url") {
                    Ok(x) => x,
                    Err(e) => {
                        return Err(e);
                    },
                };
                let languages_url = match field_str(fs, "languages_url") {
                    Ok(x) => x,
                    Err(e) => {
                        return Err(e);
                    },
                };
                let merges_url = match field_str(fs, "merges_url") {
                    Ok(x) => x,
                    Err(e) => {
                        return Err(e);
                    },
                };
                let milestones_url = match field_str(fs, "milestones_url") {
                    Ok(x) => x,
                    Err(e) => {
                        return Err(e);
                    },
                };
                let mirror_url = match field_opt_str(fs, "mirror_url") {
                    Ok(x) => x,
                    Err(e) => {
                        return Err(e);
                    },
                };
                let notifications_url = match field_str(fs, "notifications_url") {
                    Ok(x) => x,
                    Err(e) => {
                        return Err(e);
                    },
                };
                let pulls_url = match field_str(fs, "pulls_url") {
                    Ok(x) => x,
                    Err(e) => {
                        return Err(e);
                    },
                };
                let releases_url = match field_str(fs, "releases_url") {
                    Ok(x) => x,
                    Err(e) => {
                        return Err(e);
                    },
                };
                let ssh_url = match field_str(fs, "ssh_url") {
                    Ok(x) => x,
                    Err(e) => {
                        return Err(e);
                    },
                };
                let stargazers_url = match field_str(fs, "stargazers_url") {
                    Ok(x) => x,
                    Err(e) => {
                        return Err(e);
                    },
                };
                let statuses_url = match field_str(fs, "statuses_url") {
                    Ok(x) => x,
                    Err(e) => {
                        return Err(e);
                    },
                };
                let subscribers_url = match field_str(fs, "subscribers_url") {
                    Ok(x) => x,
                    Err(e) => {
                        return Err(e);
                    },
                };
                let subscription_url = match field_str(fs, "subscription_url") {
                    Ok(x) => x,
                    Err(e) => {
                        return Err(e);
                    },
                };
                let svn_url = match field_str(fs, "svn_url") {
                    Ok(x) => x,
                    Err(e) => {
                        return Err(e);
                    },
                };
                let tags_url = match field_str(fs, "tags_url") {
                    Ok(x) => x,
                    Err(e) => {
                        return Err(e);
                    },
                };
                let teams_url = match field_str(fs, "teams_url") {
                    Ok(x) => x,
                    Err(e) => {
                        return Err(e);
                    },
                };
                let trees_url = match field_str(fs, "trees_url") {
                    Ok(x) => x,
                    Err(e) => {
                        return Err(e);
                    },
                };
                let homepage = match field_opt_str(fs, "homepage") {
                    Ok(x) => x,
                    Err(e) => {
                        return Err(e);
                    },
                };
                let language = match field_opt_str(fs, "language") {
                    Ok(x) => x,
                    Err(e) => {
                        return Err(e);
                    },
                };
                let forks_count = match field_u32(fs, "forks_count") {
                    Ok(x) => x,
                    Err(e) => {
                        return Err(e);
                    },
                };
                let stargazers_count = match field_u32(fs, "stargazers_count") {
                    Ok(x) => x,
                    Err(e) => {
                        return Err(e);
                    },
                };
                let watchers_count = match field_u32(fs, "watchers_count") {
                    Ok(x) => x,
                    Err(e) => {
                        return Err(e);
                    },
                };
                let size = match field_u32(fs, "size") {
                    Ok(x) => x,
                    Err(e) => {
                        return Err(e);
                    },
                };
                let default_branch = match field_str(fs, "default_branch") {
                    Ok(x) => x,
                    Err(e) => {
                        return Err(e);
                    },
                };
                let open_issues_count = match field_u32(fs, "open_issues_count") {
                    Ok(x) => x,
                    Err(e) => {
                        return Err(e);
                    },
                };
                let has_issues = match field_bool(fs, "has_issues") {
                    Ok(x) => x,
                    Err(e) => {
                        return Err(e);
                    },
                };
                let has_wiki = match field_bool(fs, "has_wiki") {
                    Ok(x) => x,
                    Err(e) => {
                        return Err(e);
                    },
                };
                let has_pages = match field_bool(fs, "has_pages") {
                    Ok(x) => x,
                    Err(e) => {
                        return Err(e);
                    },
                };
                let has_downloads = match field_bool(fs, "has_downloads") {
                    Ok(x) => x,
                    Err(e) => {
                        return Err(e);
                    },
                };
                let pushed_at = match field_u32(fs, "pushed_at") {
                    Ok(x) => x,
                    Err(e) => {
                        return Err(e);
                    },
                };
                let created_at = match field_u32(fs, "created_at") {
                    Ok(x) => x,
                    Err(e) => {
                        return Err(e);
                    },
                };
                let updated_at = match field_time(fs, "updated_at") {
                    Ok(x) => x,
                    Err(e) => {
                        return Err(e);
                    },
                };
                let permissions = match field_opt_rec::<RepoPermissions>(fs, "permissions") {
                    Ok(x) => x,
                    Err(e) => {
                        return Err(e);
                    },
                };
                let subscribers_count = match field_opt_u32(fs, "subscribers_count") {
                    Ok(x) => x,
                    Err(e) => {
                        return Err(e);
                    },
                };
                let organization = match field_opt_rec::<Organization>(fs, "organization") {
                    Ok(x) => x,
                    Err(e) => {
                        return Err(e);
                    },
                };
                let parent = match decode_repo_sub(fs, "parent") {
                    Ok(x) => x,
                    Err(e) => {
                        return Err(e);
                    },
                };
                let source = match decode_repo_sub(fs, "source") {
                    Ok(x) => x,
                    Err(e) => {
                        return Err(e);
                    },
                };
                Ok(
                    LegacyRepo {
                        id,
                        owner,
                        name,
                        full_name,
                        description,
                        private,
                        fork,
                        url,
                        html_url,
                        archive_url,
                        assignees_url,
                        blobs_url,
                        branches_url,
                        clone_url,
                        collaborators_url,
                        comments_url,
                        commits_url,
                        compare_url,
                        contents_url,
                        contributors_url,
                        downloads_url,
                        events_url,
                        forks_url,
                        git_commits_url,
                        git_refs_url,
                        git_tags_url,
                        git_url,
                        hooks_url,
                        issue_comment_url,
                        issue_events_url,
                        issues_url,
                        keys_url,
                        labels_url,
                        languages_url,
                        merges_url,
                        milestones_url,
                        mirror_url,
                        notifications_url,
                        pulls_url,
                        releases_url,
                        ssh_url,
                        stargazers_url,
                        statuses_url,
                        subscribers_url,
                        subscription_url,
                        svn_url,
                        tags_url,
                        teams_url,
                        trees_url,
                        homepage,
                        language,
                        forks_count,
                        stargazers_count,
                        watchers_count,
                        size,
                        default_branch,
                        open_issues_count,
                        has_issues,
                        has_wiki,
                        has_pages,
                        has_downloads,
                        pushed_at,
                        created_at,
                        updated_at,
                        permissions,
                        subscribers_count,
                        organization,
                        parent,
                        source,
                    },
                )
            },
            _ => Err(String::from_str("expected an object")),
        }
    }
}

/// Reads an optional nested repository member.
fn decode_repo_sub(fs: &Vec<(String, JsonValue)>, key: &str) -> (r: Result<
    Option<Box<Repo>>,
    String,
>)
    ensures
        match r {
            Ok(o) => spec_repo_sub(seq_view_fields(fs@), key@) == Some(repo_sub_view(o)),
            Err(_) => spec_repo_sub(seq_view_fields(fs@), key@) is None,
        },
    decreases *fs, 0int,
{
    let ghost svf = seq_view_fields(fs@);
    proof {
        lemma_obj_index(svf, key@);
        assert(svf.len() == fs@.len());
    }
    match obj_index(fs, key) {
        None => Ok(None),
        Some(ix) => {
            proof {
                assert(svf[ix as int] == (fs@[ix as int].0@, fs@[ix as int].1@));
            }
            match &fs[ix].1 {
                JsonValue::Null => Ok(None),
                _ => match decode_repo(&fs[ix].1) {
                    Ok(rp) => Ok(Some(Box::new(rp))),
                    Err(e) => Err(e),
                },
            }
        },
    }
}

/// The query sent when listing the caller's own repositories.
#[derive(Debug, PartialEq, Clone)]
pub struct RepoQuery {
    pub visibility: Option<RepoVisibility>,
    pub affliation: Option<RepoAffiliations>,
    pub sort: Option<RepoSortables>,
    pub direction: Option<SortDirection>,
}

impl JsonEncode for RepoQuery {
    open spec fn spec_to_json(&self) -> Option<JsonVal> {
        Some(
            JsonVal::Obj(
                seq![
                    (
                        "visibility"@,
                        match self.visibility {
                            Some(v) => v.spec_to_json().unwrap(),
                            None => JsonVal::Null,
                        },
                    ),
                    (
                        "affliation"@,
                        match self.affliation {
                            Some(a) => JsonVal::Str(a@),
                            None => JsonVal::Null,
                        },
                    ),
                    (
                        "sort"@,
                        match self.sort {
                            Some(v) => v.spec_to_json().unwrap(),
                            None => JsonVal::Null,
                        },
                    ),
                    (
                        "direction"@,
                        match self.direction {
                            Some(v) => v.spec_to_json().unwrap(),
                            None => JsonVal::Null,
                        },
                    ),
                ],
            ),
        )
    }

    fn to_json(&self) -> (r: Result<JsonValue, String>) {
        let mut fs: Vec<(String, JsonValue)> = Vec::new();
        let visibility = match &self.visibility {
            Some(v) => match v.to_json() {
                Ok(j) => j,
                Err(e) => {
                    return Err(e);
                },
            },
            None => JsonValue::Null,
        };
        fs.push((String::from_str("visibility"), visibility));
        let affliation = match &self.affliation {
            Some(a) => JsonValue::Str(a.clone()),
            None => JsonValue::Null,
        };
        fs.push((String::from_str("affliation"), affliation));
        let sort = match &self.sort {
            Some(v) => match v.to_json() {
                Ok(j) => j,
                Err(e) => {
                    return Err(e);
                },
            },
            None => JsonValue::Null,
        };
        fs.push((String::from_str("sort"), sort));
        let direction = match &self.direction {
            Some(v) => match v.to_json() {
                Ok(j) => j,
                Err(e) => {
                    return Err(e);
                },
            },
            None => JsonValue::Null,
        };
        fs.push((String::from_str("direction"), direction));
        proof {
            lemma_view_obj(fs);
            assert(seq_view_fields(fs@) =~= self.spec_to_json().unwrap()->Obj_0);
        }
        Ok(JsonValue::Obj(fs))
    }
}

/// The details sent when creating a repository.
#[derive(Debug, PartialEq, Clone)]
pub struct CreateRepository {
    pub name: RepoName,
    pub description: Option<String>,
    pub homepage: Option<Url>,
    pub private: Option<bool>,
    pub has_issues: Option<bool>,
    pub has_wiki: Option<bool>,
    pub has_downloads: Option<bool>,
    pub team_id: Option<u32>,
    pub auto_init: Option<bool>,
    pub gitignore_template: Option<String>,
    pub license_template: Option<String>,
}

impl JsonEncode for CreateRepository {
    open spec fn spec_to_json(&self) -> Option<JsonVal> {
        Some(
            JsonVal::Obj(
                seq![
                    ("name"@, JsonVal::Str(self.name@)),
                    ("description"@, opt_str_json(self.description)),
                    ("homepage"@, opt_str_json(self.homepage)),
                    ("private"@, opt_bool_json(self.private)),
                    ("has_issues"@, opt_bool_json(self.has_issues)),
                    ("has_wiki"@, opt_bool_json(self.has_wiki)),
                    ("has_downloads"@, opt_bool_json(self.has_downloads)),
                    ("team_id"@, opt_u32_json(self.team_id)),
                    ("auto_init"@, opt_bool_json(self.auto_init)),
                    ("gitignore_template"@, opt_str_json(self.gitignore_template)),
                    ("license_template"@, opt_str_json(self.license_template)),
                ],
            ),
        )
    }

    fn to_json(&self) -> (r: Result<JsonValue, String>) {
        let mut fs: Vec<(String, JsonValue)> = Vec::new();
        fs.push((String::from_str("name"), JsonValue::Str(self.name.clone())));
        fs.push((String::from_str("description"), opt_str_value(&self.description)));
        fs.push((String::from_str("homepage"), opt_str_value(&self.homepage)));
        fs.push((String::from_str("private"), opt_bool_value(&self.private)));
        fs.push((String::from_str("has_issues"), opt_bool_value(&self.has_issues)));
        fs.push((String::from_str("has_wiki"), opt_bool_value(&self.has_wiki)));
        fs.push((String::from_str("has_downloads"), opt_bool_value(&self.has_downloads)));
        fs.push((String::from_str("team_id"), opt_u32_value(&self.team_id)));
        fs.push((String::from_str("auto_init"), opt_bool_value(&self.auto_init)));
        fs.push((String::from_str("gitignore_template"), opt_str_value(&self.gitignore_template)));
        fs.push((String::from_str("license_template"), opt_str_value(&self.license_template)));
        proof {
            lemma_view_obj(fs);
            assert(seq_view_fields(fs@) =~= self.spec_to_json().unwrap()->Obj_0);
        }
        Ok(JsonValue::Obj(fs))
    }
}

/// The details sent when editing a repository.
#[derive(Debug, PartialEq, Clone)]
pub struct EditRepository {
    pub name: RepoName,
    pub description: Option<String>,
    pub homepage: Option<Url>,
    pub private: Option<bool>,
    pub has_issues: Option<bool>,
    pub has_wiki: Option<bool>,
    pub has_downloads: Option<bool>,
    pub default_branch: Option<BranchName>,
}

impl JsonEncode for EditRepository {
    open spec fn spec_to_json(&self) -> Option<JsonVal> {
        Some(
            JsonVal::Obj(
                seq![
                    ("name"@, JsonVal::Str(self.name@)),
                    ("description"@, opt_str_json(self.description)),
                    ("homepage"@, opt_str_json(self.homepage)),
                    ("private"@, opt_bool_json(self.private)),
                    ("has_issues"@, opt_bool_json(self.has_issues)),
                    ("has_wiki"@, opt_bool_json(self.has_wiki)),
                    ("has_downloads"@, opt_bool_json(self.has_downloads)),
                    ("default_branch"@, opt_str_json(self.default_branch)),
                ],
            ),
        )
    }

    fn to_json(&self) -> (r: Result<JsonValue, String>) {
        let mut fs: Vec<(String, JsonValue)> = Vec::new();
        fs.push((String::from_str("name"), JsonValue::Str(self.name.clone())));
        fs.push((String::from_str("description"), opt_str_value(&self.description)));
        fs.push((String::from_str("homepage"), opt_str_value(&self.homepage)));
        fs.push((String::from_str("private"), opt_bool_value(&self.private)));
        fs.push((String::from_str("has_issues"), opt_bool_value(&self.has_issues)));
        fs.push((String::from_str("has_wiki"), opt_bool_value(&self.has_wiki)));
        fs.push((String::from_str("has_downloads"), opt_bool_value(&self.has_downloads)));
        fs.push((String::from_str("default_branch"), opt_str_value(&self.default_branch)));
        proof {
            lemma_view_obj(fs);
            assert(seq_view_fields(fs@) =~= self.spec_to_json().unwrap()->Obj_0);
        }
        Ok(JsonValue::Obj(fs))
    }
}

/// The query sent when walking all public repositories.
#[derive(Debug, PartialEq, Clone)]
pub struct PublicReposQuery {
    pub since: String,
}

impl JsonEncode for PublicReposQuery {
    open spec fn spec_to_json(&self) -> Option<JsonVal> {
        Some(JsonVal::Obj(seq![("since"@, JsonVal::Str(self.since@))]))
    }

    fn to_json(&self) -> (r: Result<JsonValue, String>) {
        let mut fs: Vec<(String, JsonValue)> = Vec::new();
        fs.push((String::from_str("since"), JsonValue::Str(self.since.clone())));
        proof {
            lemma_view_obj(fs);
            assert(seq_view_fields(fs@) =~= self.spec_to_json().unwrap()->Obj_0);
        }
        Ok(JsonValue::Obj(fs))
    }
}

/// An optional text as a document member: the text, or null.
pub open spec fn opt_str_json(o: Option<String>) -> JsonVal {
    match o {
        Some(s) => JsonVal::Str(s@),
        None => JsonVal::Null,
    }
}

/// An optional flag as a document member: the flag, or null.
pub open spec fn opt_bool_json(o: Option<bool>) -> JsonVal {
    match o {
        Some(b) => JsonVal::Bool(b),
        None => JsonVal::Null,
    }
}

/// An optional count as a document member: the count, or null.
pub open spec fn opt_u32_json(o: Option<u32>) -> JsonVal {
    match o {
        Some(n) => JsonVal::Int(n as int),
        None => JsonVal::Null,
    }
}

/// Builds the document member for an optional text.
pub fn opt_str_value(o: &Option<String>) -> (r: JsonValue)
    ensures
        r@ == opt_str_json(*o),
{
    match o {
        Some(s) => JsonValue::Str(s.clone()),
        None => JsonValue::Null,
    }
}

/// Builds the document member for an optional flag.
pub fn opt_bool_value(o: &Option<bool>) -> (r: JsonValue)
    ensures
        r@ == opt_bool_json(*o),
{
    match o {
        Some(b) => JsonValue::Bool(*b),
        None => JsonValue::Null,
    }
}

/// Builds the document member for an optional count.
pub fn opt_u32_value(o: &Option<u32>) -> (r: JsonValue)
    ensures
        r@ == opt_u32_json(*o),
{
    match o {
        Some(n) => JsonValue::Int(*n as i64),
        None => JsonValue::Null,
    }
}

/// The fixed origin every resource path starts from.
pub open spec fn spec_api_root() -> Seq<char> {
    "https://api.github.com/"@
}

/// The path of the caller's own repository listing.
pub open spec fn spec_own_repos() -> Seq<char> {
    spec_api_root() + "user/repos"@
}

/// The path listing a user's repositories.
pub open spec fn spec_user_repos(user: Seq<char>) -> Seq<char> {
    spec_api_root() + "users/"@ + user + "/repos"@
}

/// The path listing an organization's repositories.
pub open spec fn spec_organization_repos(org: Seq<char>) -> Seq<char> {
    spec_api_root() + "orgs/"@ + org + "/repos"@
}

/// The path walking all public repositories.
pub open spec fn spec_all_repos() -> Seq<char> {
    spec_api_root() + "repositories"@
}

/// The path of one repository.
pub open spec fn spec_repo_at(owner: Seq<char>, repo_name: Seq<char>) -> Seq<char> {
    spec_api_root() + "repos/"@ + owner + "/"@ + repo_name
}

/// The caller's own repository listing.
pub fn own_repos() -> (r: Url)
    ensures
        r@ == spec_own_repos(),
{
    String::from_str("https://api.github.com/").concat("user/repos")
}

/// A user's repository listing.
pub fn user_repos(user: &UserName) -> (r: Url)
    ensures
        r@ == spec_user_repos(user@),
{
    String::from_str("https://api.github.com/").concat("users/").concat(user.as_str()).concat(
        "/repos",
    )
}

/// An organization's repository listing.
pub fn organization_repos(org: &OrganizationName) -> (r: Url)
    ensures
        r@ == spec_organization_repos(org@),
{
    String::from_str("https://api.github.com/").concat("orgs/").concat(org.as_str()).concat(
        "/repos",
    )
}

/// The public repository walk.
pub fn all_repos() -> (r: Url)
    ensures
        r@ == spec_all_repos(),
{
    String::from_str("https://api.github.com/").concat("repositories")
}

/// One repository.
pub fn repo_at(repo: &Repository) -> (r: Url)
    ensures
        r@ == spec_repo_at(repo.owner@, repo.repo_name@),
{
    String::from_str("https://api.github.com/").concat("repos/").concat(
        repo.owner.as_str(),
    ).concat("/").concat(repo.repo_name.as_str())
}

/// A repository's contributors.
pub fn contributors_at(repo: &Repository) -> (r: Url)
    ensures
        r@ == spec_repo_at(repo.owner@, repo.repo_name@) + "/contributors"@,
{
    repo_at(repo).concat("/contributors")
}

/// A repository's languages.
pub fn languages_at(repo: &Repository) -> (r: Url)
    ensures
        r@ == spec_repo_at(repo.owner@, repo.repo_name@) + "/languages"@,
{
    repo_at(repo).concat("/languages")
}

/// A repository's teams.
pub fn teams_at(repo: &Repository) -> (r: Url)
    ensures
        r@ == spec_repo_at(repo.owner@, repo.repo_name@) + "/teams"@,
{
    repo_at(repo).concat("/teams")
}

/// A repository's tags.
pub fn tags_at(repo: &Repository) -> (r: Url)
    ensures
        r@ == spec_repo_at(repo.owner@, repo.repo_name@) + "/tags"@,
{
    repo_at(repo).concat("/tags")
}

/// A repository's branches.
pub fn branches_at(repo: &Repository) -> (r: Url)
    ensures
        r@ == spec_repo_at(repo.owner@, repo.repo_name@) + "/branches"@,
{
    repo_at(repo).concat("/branches")
}

/// One branch of a repository.
pub fn branch_at(repo: &Repository, branch: &BranchName) -> (r: Url)
    ensures
        r@ == spec_repo_at(repo.owner@, repo.repo_name@) + "/branches/"@ + branch@,
{
    let r = branches_at(repo).concat("/").concat(branch.as_str());
    proof {
        reveal_strlit("/branches");
        reveal_strlit("/");
        reveal_strlit("/branches/");
        assert("/branches"@ + "/"@ =~= "/branches/"@);
        assert(r@ =~= spec_repo_at(repo.owner@, repo.repo_name@) + "/branches/"@ + branch@);
    }
    r
}

/// The repository operations: thin facades that pick a path and a verb and
/// run the typed request executor.
pub trait Repoer {
    fn list_own_repos(&self, query: RepoQuery) -> (r: Result<Vec<Repo>, GitErr>)
        ensures
            r matches Ok(d) ==> exists|b: Seq<char>|
                #[trigger] spec_decode_body::<Vec<Repo>>(b) == Some(d.deep_view()),
            !(r matches Err(GitErr::EncodeErr(_))),
            !(r matches Err(GitErr::NotImplemented(_))),
    ;

    fn list_user_repos(&self, owner: UserName) -> (r: Result<Vec<Repo>, GitErr>)
        ensures
            r matches Ok(d) ==> exists|b: Seq<char>|
                #[trigger] spec_decode_body::<Vec<Repo>>(b) == Some(d.deep_view()),
            !(r matches Err(GitErr::EncodeErr(_))),
            !(r matches Err(GitErr::NotImplemented(_))),
    ;

    fn list_org_repos(&self, org: OrganizationName) -> (r: Result<Vec<Repo>, GitErr>)
        ensures
            r matches Ok(d) ==> exists|b: Seq<char>|
                #[trigger] spec_decode_body::<Vec<Repo>>(b) == Some(d.deep_view()),
            !(r matches Err(GitErr::EncodeErr(_))),
            !(r matches Err(GitErr::NotImplemented(_))),
    ;

    fn list_public_repos(&self, query: Option<PublicReposQuery>) -> (r: Result<Vec<Repo>, GitErr>)
        ensures
            r matches Ok(d) ==> exists|b: Seq<char>|
                #[trigger] spec_decode_body::<Vec<Repo>>(b) == Some(d.deep_view()),
            !(r matches Err(GitErr::EncodeErr(_))),
            !(r matches Err(GitErr::NotImplemented(_))),
    ;

    fn create_own_repo(&self, details: CreateRepository) -> (r: Result<Repo, GitErr>)
        ensures
            r matches Ok(d) ==> exists|b: Seq<char>|
                #[trigger] spec_decode_body::<Repo>(b) == Some(d.deep_view()),
            !(r matches Err(GitErr::EncodeErr(_))),
            !(r matches Err(GitErr::NotImplemented(_))),
    ;

    fn create_org_repo(&self, org: OrganizationName, details: CreateRepository) -> (r: Result<
        Repo,
        GitErr,
    >)
        ensures
            r matches Ok(d) ==> exists|b: Seq<char>|
                #[trigger] spec_decode_body::<Repo>(b) == Some(d.deep_view()),
            !(r matches Err(GitErr::EncodeErr(_))),
            !(r matches Err(GitErr::NotImplemented(_))),
    ;

    fn get_repo(&self, repo: Repository) -> (r: Result<Repo, GitErr>)
        ensures
            r matches Ok(d) ==> exists|b: Seq<char>|
                #[trigger] spec_decode_body::<Repo>(b) == Some(d.deep_view()),
            !(r matches Err(GitErr::EncodeErr(_))),
            !(r matches Err(GitErr::NotImplemented(_))),
    ;

    fn edit_repo(&self, repo: Repository, details: EditRepository) -> (r: Result<Repo, GitErr>)
        ensures
            r matches Ok(d) ==> exists|b: Seq<char>|
                #[trigger] spec_decode_body::<Repo>(b) == Some(d.deep_view()),
            !(r matches Err(GitErr::EncodeErr(_))),
            !(r matches Err(GitErr::NotImplemented(_))),
    ;

    fn list_contributors(&self, repo: Repository, query: ContributorsQuery) -> (r: Result<
        Vec<GithubUser>,
        GitErr,
    >)
        ensures
            r matches Ok(d) ==> exists|b: Seq<char>|
                #[trigger] spec_decode_body::<Vec<GithubUser>>(b) == Some(d.deep_view()),
            !(r matches Err(GitErr::EncodeErr(_))),
            !(r matches Err(GitErr::NotImplemented(_))),
    ;

    fn list_languages(&self, repo: Repository) -> (r: Result<LanguagePile, GitErr>)
        ensures
            r matches Ok(d) ==> exists|b: Seq<char>|
                #[trigger] spec_decode_body::<LanguagePile>(b) == Some(d.deep_view()),
            !(r matches Err(GitErr::EncodeErr(_))),
            !(r matches Err(GitErr::NotImplemented(_))),
    ;

    fn list_teams(&self, repo: Repository) -> (r: Result<Vec<Team>, GitErr>)
        ensures
            r matches Ok(d) ==> exists|b: Seq<char>|
                #[trigger] spec_decode_body::<Vec<Team>>(b) == Some(d.deep_view()),
            !(r matches Err(GitErr::EncodeErr(_))),
            !(r matches Err(GitErr::NotImplemented(_))),
    ;

    fn list_tags(&self, repo: Repository) -> (r: Result<Vec<Tag>, GitErr>)
        ensures
            r matches Ok(d) ==> exists|b: Seq<char>|
                #[trigger] spec_decode_body::<Vec<Tag>>(b) == Some(d.deep_view()),
            !(r matches Err(GitErr::EncodeErr(_))),
            !(r matches Err(GitErr::NotImplemented(_))),
    ;

    fn list_branches(&self, repo: Repository) -> (r: Result<Vec<Branch>, GitErr>)
        ensures
            r matches Ok(d) ==> exists|b: Seq<char>|
                #[trigger] spec_decode_body::<Vec<Branch>>(b) == Some(d.deep_view()),
            !(r matches Err(GitErr::EncodeErr(_))),
            !(r matches Err(GitErr::NotImplemented(_))),
    ;

    fn get_branch(&self, repo: Repository, branch: BranchName) -> (r: Result<FullBranch, GitErr>)
        ensures
            r matches Ok(d) ==> exists|b: Seq<char>|
                #[trigger] spec_decode_body::<FullBranch>(b) == Some(d.deep_view()),
            !(r matches Err(GitErr::EncodeErr(_))),
            !(r matches Err(GitErr::NotImplemented(_))),
    ;

    /// A deliberate stub: deleting a repository is not implemented, and the
    /// call always says so, whatever its input.
    fn delete_repo(&self, repo: Repository) -> (r: Result<DeletedStatus, GitErr>)
        ensures
            r matches Err(e) && e matches GitErr::NotImplemented(m) && m@ == "Repoer#delete_repo"@,
    ;
}

impl<C: SimpleClient> Repoer for C {
    fn list_own_repos(&self, query: RepoQuery) -> (r: Result<Vec<Repo>, GitErr>) {
        let url = own_repos();
        self.request_with_payload::<Vec<Repo>, RepoQuery>(Method::Get, url, query)
    }

    fn list_user_repos(&self, owner: UserName) -> (r: Result<Vec<Repo>, GitErr>) {
        let url = user_repos(&owner);
        self.request_without_payload::<Vec<Repo>>(Method::Get, url)
    }

    fn list_org_repos(&self, org: OrganizationName) -> (r: Result<Vec<Repo>, GitErr>) {
        let url = organization_repos(&org);
        self.request_without_payload::<Vec<Repo>>(Method::Get, url)
    }

    fn list_public_repos(&self, query: Option<PublicReposQuery>) -> (r: Result<Vec<Repo>, GitErr>) {
        let url = all_repos();
        match query {
            Some(query) => self.request_with_payload::<Vec<Repo>, PublicReposQuery>(
                Method::Get,
                url,
                query,
            ),
            None => self.request_without_payload::<Vec<Repo>>(Method::Get, url),
        }
    }

    fn create_own_repo(&self, details: CreateRepository) -> (r: Result<Repo, GitErr>) {
        let url = own_repos();
        self.request_with_payload::<Repo, CreateRepository>(Method::Post, url, details)
    }

    fn create_org_repo(&self, org: OrganizationName, details: CreateRepository) -> (r: Result<
        Repo,
        GitErr,
    >) {
        let url = organization_repos(&org);
        self.request_with_payload::<Repo, CreateRepository>(Method::Post, url, details)
    }

    fn get_repo(&self, repo: Repository) -> (r: Result<Repo, GitErr>) {
        let url = repo_at(&repo);
        self.request_without_payload::<Repo>(Method::Get, url)
    }

    fn edit_repo(&self, repo: Repository, details: EditRepository) -> (r: Result<Repo, GitErr>) {
        let url = repo_at(&repo);
        self.request_with_payload::<Repo, EditRepository>(Method::Patch, url, details)
    }

    fn list_contributors(&self, repo: Repository, query: ContributorsQuery) -> (r: Result<
        Vec<GithubUser>,
        GitErr,
    >) {
        let url = contributors_at(&repo);
        self.request_with_payload::<Vec<GithubUser>, ContributorsQuery>(Method::Get, url, query)
    }

    fn list_languages(&self, repo: Repository) -> (r: Result<LanguagePile, GitErr>) {
        let url = languages_at(&repo);
        self.request_without_payload::<LanguagePile>(Method::Get, url)
    }

    fn list_teams(&self, repo: Repository) -> (r: Result<Vec<Team>, GitErr>) {
        let url = teams_at(&repo);
        self.request_without_payload::<Vec<Team>>(Method::Get, url)
    }

    fn list_tags(&self, repo: Repository) -> (r: Result<Vec<Tag>, GitErr>) {
        let url = tags_at(&repo);
        self.request_without_payload::<Vec<Tag>>(Method::Get, url)
    }

    fn list_branches(&self, repo: Repository) -> (r: Result<Vec<Branch>, GitErr>) {
        let url = branches_at(&repo);
        self.request_without_payload::<Vec<Branch>>(Method::Get, url)
    }

    fn get_branch(&self, repo: Repository, branch: BranchName) -> (r: Result<FullBranch, GitErr>) {
        let url = branch_at(&repo, &branch);
        self.request_without_payload::<FullBranch>(Method::Get, url)
    }

    fn delete_repo(&self, repo: Repository) -> (r: Result<DeletedStatus, GitErr>) {
        Err(GitErr::NotImplemented(String::from_str("Repoer#delete_repo")))
    }
}

} // verus!
