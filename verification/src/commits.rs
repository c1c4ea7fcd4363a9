//! The commit records the service returns.

use vstd::prelude::*;

use crate::codec::{field_rec, field_str, field_u32, spec_field_rec, spec_field_str,
    spec_field_u32, JsonDecode};
use crate::gittm::{field_time, spec_field_time, GitTm};
use crate::json::{lemma_view_obj_of, JsonVal, JsonValue};
use crate::repos::{Repo, RepoView};
use crate::types::{BranchName, Message, Sha, Url};
use crate::users::{GithubUser, GithubUserView};

verus! {

broadcast use vstd::seq::group_seq_axioms, vstd::std_specs::vec::group_vec_axioms;

/// A reference to a commit or tree object: its address and hash.
#[derive(Debug, PartialEq, Clone)]
pub struct CommitTreeNode {
    pub url: Url,
    pub sha: Sha,
}

/// The model of `CommitTreeNode`.
pub struct CommitTreeNodeView {
    pub url: Seq<char>,
    pub sha: Seq<char>,
}

impl DeepView for CommitTreeNode {
    type V = CommitTreeNodeView;

    open spec fn deep_view(&self) -> CommitTreeNodeView {
        CommitTreeNodeView { url: self.url@, sha: self.sha@ }
    }
}

impl JsonDecode for CommitTreeNode {
    open spec fn spec_from_json(j: JsonVal) -> Option<CommitTreeNodeView> {
        match j {
            JsonVal::Obj(fs) => {
                if spec_field_str(fs, "url"@) is None {
                    None
                } else if spec_field_str(fs, "sha"@) is None {
                    None
                } else {
                    Some(
                        CommitTreeNodeView {
                            url: spec_field_str(fs, "url"@).unwrap(),
                            sha: spec_field_str(fs, "sha"@).unwrap(),
                        },
                    )
                }
            },
            _ => None,
        }
    }

    fn from_json(v: &JsonValue) -> (r: Result<Self, String>) {
        match v {
            JsonValue::Obj(fs) => {
                proof {
                    lemma_view_obj_of(v);
                }
                let url = match field_str(fs, "url") {
                    Ok(x) => x,
                    Err(e) => {
                        return Err(e);
                    },
                };
                let sha = match field_str(fs, "sha") {
                    Ok(x) => x,
                    Err(e) => {
                        return Err(e);
                    },
                };
                Ok(CommitTreeNode { url, sha })
            },
            _ => Err(String::from_str("expected an object")),
        }
    }
}

/// Who authored or committed a change, and when.
#[derive(Debug, PartialEq, Clone)]
pub struct CommitAuthor {
    pub name: String,
    pub email: String,
    pub date: GitTm,
}

/// The model of `CommitAuthor`.
pub struct CommitAuthorView {
    pub name: Seq<char>,
    pub email: Seq<char>,
    pub date: GitTm,
}

impl DeepView for CommitAuthor {
    type V = CommitAuthorView;

    open spec fn deep_view(&self) -> CommitAuthorView {
        CommitAuthorView { name: self.name@, email: self.email@, date: self.date }
    }
}

impl JsonDecode for CommitAuthor {
    open spec fn spec_from_json(j: JsonVal) -> Option<CommitAuthorView> {
        match j {
            JsonVal::Obj(fs) => {
                if spec_field_str(fs, "name"@) is None {
                    None
                } else if spec_field_str(fs, "email"@) is None {
                    None
                } else if spec_field_time(fs, "date"@) is None {
                    None
                } else {
                    Some(
                        CommitAuthorView {
                            name: spec_field_str(fs, "name"@).unwrap(),
                            email: spec_field_str(fs, "email"@).unwrap(),
                            date: spec_field_time(fs, "date"@).unwrap(),
                        },
                    )
                }
            },
            _ => None,
        }
    }

    fn from_json(v: &JsonValue) -> (r: Result<Self, String>) {
        match v {
            JsonValue::Obj(fs) => {
                proof {
                    lemma_view_obj_of(v);
                }
                let name = match field_str(fs, "name") {
                    Ok(x) => x,
                    Err(e) => {
                        return Err(e);
                    },
                };
                let email = match field_str(fs, "email") {
                    Ok(x) => x,
                    Err(e) => {
                        return Err(e);
                    },
                };
                let date = match field_time(fs, "date") {
                    Ok(x) => x,
                    Err(e) => {
                        return Err(e);
                    },
                };
                Ok(CommitAuthor { name, email, date })
            },
            _ => Err(String::from_str("expected an object")),
        }
    }
}

/// The summary part of a full commit record.
#[derive(Debug, PartialEq, Clone)]
pub struct GithubCommitSummary {
    pub url: Url,
    pub author: CommitAuthor,
    pub committer: CommitAuthor,
    pub message: Message,
    pub tree: CommitTreeNode,
    pub comment_count: u32,
}

/// The model of `GithubCommitSummary`.
pub struct GithubCommitSummaryView {
    pub url: Seq<char>,
    pub author: CommitAuthorView,
    pub committer: CommitAuthorView,
    pub message: Seq<char>,
    pub tree: CommitTreeNodeView,
    pub comment_count: u32,
}

impl DeepView for GithubCommitSummary {
    type V = GithubCommitSummaryView;

    open spec fn deep_view(&self) -> GithubCommitSummaryView {
        GithubCommitSummaryView {
            url: self.url@,
            author: self.author.deep_view(),
            committer: self.committer.deep_view(),
            message: self.message@,
            tree: self.tree.deep_view(),
            comment_count: self.comment_count,
        }
    }
}

impl JsonDecode for GithubCommitSummary {
    open spec fn spec_from_json(j: JsonVal) -> Option<GithubCommitSummaryView> {
        match j {
            JsonVal::Obj(fs) => {
                if spec_field_str(fs, "url"@) is None {
                    None
                } else if spec_field_rec::<CommitAuthor>(fs, "author"@) is None {
                    None
                } else if spec_field_rec::<CommitAuthor>(fs, "committer"@) is None {
                    None
                } else if spec_field_str(fs, "message"@) is None {
                    None
                } else if spec_field_rec::<CommitTreeNode>(fs, "tree"@) is None {
                    None
                } else if spec_field_u32(fs, "comment_count"@) is None {
                    None
                } else {
                    Some(
                        GithubCommitSummaryView {
                            url: spec_field_str(fs, "url"@).unwrap(),
                            author: spec_field_rec::<CommitAuthor>(fs, "author"@).unwrap(),
                            committer: spec_field_rec::<CommitAuthor>(fs, "committer"@).unwrap(),
                            message: spec_field_str(fs, "message"@).unwrap(),
                            tree: spec_field_rec::<CommitTreeNode>(fs, "tree"@).unwrap(),
                            comment_count: spec_field_u32(fs, "comment_count"@).unwrap(),
                        },
                    )
                }
            },
            _ => None,
        }
    }

    fn from_json(v: &JsonValue) -> (r: Result<Self, String>) {
        match v {
            JsonValue::Obj(fs) => {
                proof {
                    lemma_view_obj_of(v);
                }
                let url = match field_str(fs, "url") {
                    Ok(x) => x,
                    Err(e) => {
                        return Err(e);
                    },
                };
                let author = match field_rec::<CommitAuthor>(fs, "author") {
                    Ok(x) => x,
                    Err(e) => {
                        return Err(e);
                    },
                };
                let committer = match field_rec::<CommitAuthor>(fs, "committer") {
                    Ok(x) => x,
                    Err(e) => {
                        return Err(e);
                    },
                };
                let message = match field_str(fs, "message") {
                    Ok(x) => x,
                    Err(e) => {
                        return Err(e);
                    },
                };
                let tree = match field_rec::<CommitTreeNode>(fs, "tree") {
                    Ok(x) => x,
                    Err(e) => {
                        return Err(e);
                    },
                };
                let comment_count = match field_u32(fs, "comment_count") {
                    Ok(x) => x,
                    Err(e) => {
                        return Err(e);
                    },
                };
                Ok(GithubCommitSummary { url, author, committer, message, tree, comment_count })
            },
            _ => Err(String::from_str("expected an object")),
        }
    }
}

/// A full commit record.
#[derive(Debug, PartialEq, Clone)]
pub struct GithubCommit {
    pub url: Url,
    pub sha: Sha,
    pub html_url: Url,
    pub comments_url: Url,
    pub commit: GithubCommitSummary,
    pub author: GithubUser,
    pub committer: GithubUser,
    pub parents: Vec<CommitTreeNode>,
}

/// The model of `GithubCommit`.
pub struct GithubCommitView {
    pub url: Seq<char>,
    pub sha: Seq<char>,
    pub html_url: Seq<char>,
    pub comments_url: Seq<char>,
    pub commit: GithubCommitSummaryView,
    pub author: GithubUserView,
    pub committer: GithubUserView,
    pub parents: Seq<CommitTreeNodeView>,
}

impl DeepView for GithubCommit {
    type V = GithubCommitView;

    open spec fn deep_view(&self) -> GithubCommitView {
        GithubCommitView {
            url: self.url@,
            sha: self.sha@,
            html_url: self.html_url@,
            comments_url: self.comments_url@,
            commit: self.commit.deep_view(),
            author: self.author.deep_view(),
            committer: self.committer.deep_view(),
            parents: self.parents.deep_view(),
        }
    }
}

impl JsonDecode for GithubCommit {
    open spec fn spec_from_json(j: JsonVal) -> Option<GithubCommitView> {
        match j {
            JsonVal::Obj(fs) => {
                if spec_field_str(fs, "url"@) is None {
                    None
                } else if spec_field_str(fs, "sha"@) is None {
                    None
                } else if spec_field_str(fs, "html_url"@) is None {
                    None
                } else if spec_field_str(fs, "comments_url"@) is None {
                    None
                } else if spec_field_rec::<GithubCommitSummary>(fs, "commit"@) is None {
                    None
                } else if spec_field_rec::<GithubUser>(fs, "author"@) is None {
                    None
                } else if spec_field_rec::<GithubUser>(fs, "committer"@) is None {
                    None
                } else if spec_field_rec::<Vec<CommitTreeNode>>(fs, "parents"@) is None {
                    None
                } else {
                    Some(
                        GithubCommitView {
                            url: spec_field_str(fs, "url"@).unwrap(),
                            sha: spec_field_str(fs, "sha"@).unwrap(),
                            html_url: spec_field_str(fs, "html_url"@).unwrap(),
                            comments_url: spec_field_str(fs, "comments_url"@).unwrap(),
                            commit: spec_field_rec::<GithubCommitSummary>(fs, "commit"@).unwrap(),
                            author: spec_field_rec::<GithubUser>(fs, "author"@).unwrap(),
                            committer: spec_field_rec::<GithubUser>(fs, "committer"@).unwrap(),
                            parents: spec_field_rec::<Vec<CommitTreeNode>>(fs, "parents"@).unwrap(),
                        },
                    )
                }
            },
            _ => None,
        }
    }

    fn from_json(v: &JsonValue) -> (r: Result<Self, String>) {
        match v {
            JsonValue::Obj(fs) => {
                proof {
                    lemma_view_obj_of(v);
                }
                let url = match field_str(fs, "url") {
                    Ok(x) => x,
                    Err(e) => {
                        return Err(e);
                    },
                };
                let sha = match field_str(fs, "sha") {
                    Ok(x) => x,
                    Err(e) => {
                        return Err(e);
                    },
                };
                let html_url = match field_str(fs, "html_url") {
                    Ok(x) => x,
                    Err(e) => {
                        return Err(e);
                    },
                };
                let comments_url = match field_str(fs, "comments_url") {
                    Ok(x) => x,
                    Err(e) => {
                        return Err(e);
                    },
                };
                let commit = match field_rec::<GithubCommitSummary>(fs, "commit") {
                    Ok(x) => x,
                    Err(e) => {
                        return Err(e);
                    },
                };
                let author = match field_rec::<GithubUser>(fs, "author") {
                    Ok(x) => x,
                    Err(e) => {
                        return Err(e);
                    },
                };
                let committer = match field_rec::<GithubUser>(fs, "committer") {
                    Ok(x) => x,
                    Err(e) => {
                        return Err(e);
                    },
                };
                let parents = match field_rec::<Vec<CommitTreeNode>>(fs, "parents") {
                    Ok(x) => x,
                    Err(e) => {
                        return Err(e);
                    },
                };
                Ok(
                    GithubCommit {
                        url,
                        sha,
                        html_url,
                        comments_url,
                        commit,
                        author,
                        committer,
                        parents,
                    },
                )
            },
            _ => Err(String::from_str("expected an object")),
        }
    }
}

/// One end of a pull request: a branch label, its head hash, and where it
/// lives.
#[derive(Debug, PartialEq)]
pub struct Commit {
    pub label: BranchName,
    pub sha: Sha,
    pub user: GithubUser,
    pub repo: Repo,
}

/// The model of `Commit`.
pub struct CommitView {
    pub label: Seq<char>,
    pub sha: Seq<char>,
    pub user: GithubUserView,
    pub repo: RepoView,
}

impl DeepView for Commit {
    type V = CommitView;

    open spec fn deep_view(&self) -> CommitView {
        CommitView {
            label: self.label@,
            sha: self.sha@,
            user: self.user.deep_view(),
            repo: self.repo.deep_view(),
        }
    }
}

impl JsonDecode for Commit {
    open spec fn spec_from_json(j: JsonVal) -> Option<CommitView> {
        match j {
            JsonVal::Obj(fs) => {
                if spec_field_str(fs, "label"@) is None {
                    None
                } else if spec_field_str(fs, "sha"@) is None {
                    None
                } else if spec_field_rec::<GithubUser>(fs, "user"@) is None {
                    None
                } else if spec_field_rec::<Repo>(fs, "repo"@) is None {
                    None
                } else {
                    Some(
                        CommitView {
                            label: spec_field_str(fs, "label"@).unwrap(),
                            sha: spec_field_str(fs, "sha"@).unwrap(),
                            user: spec_field_rec::<GithubUser>(fs, "user"@).unwrap(),
                            repo: spec_field_rec::<Repo>(fs, "repo"@).unwrap(),
                        },
                    )
                }
            },
            _ => None,
        }
    }

    fn from_json(v: &JsonValue) -> (r: Result<Self, String>) {
        match v {
            JsonValue::Obj(fs) => {
                proof {
                    lemma_view_obj_of(v);
                }
                let label = match field_str(fs, "label") {
                    Ok(x) => x,
                    Err(e) => {
                        return Err(e);
                    },
                };
                let sha = match field_str(fs, "sha") {
                    Ok(x) => x,
                    Err(e) => {
                        return Err(e);
                    },
                };
                let user = match field_rec::<GithubUser>(fs, "user") {
                    Ok(x) => x,
                    Err(e) => {
                        return Err(e);
                    },
                };
                let repo = match field_rec::<Repo>(fs, "repo") {
                    Ok(x) => x,
                    Err(e) => {
                        return Err(e);
                    },
                };
                Ok(Commit { label, sha, user, repo })
            },
            _ => Err(String::from_str("expected an object")),
        }
    }
}

} // verus!
