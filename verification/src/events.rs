//! The event-action vocabularies carried in the service's webhook payloads,
//! and the pusher identity they name.

use vstd::prelude::*;

use crate::codec::{field_bool, field_opt_str, field_rec, field_str, field_u32, spec_field_bool,
    spec_field_opt_str, spec_field_rec, spec_field_str, spec_field_u32, JsonCodec, JsonDecode,
    JsonEncode};
use crate::commit_comments::{PullRequestComment, PullRequestCommentView};
use crate::gittm::{field_time, spec_field_time, GitTm};
use crate::issue_comments::{IssueComment, IssueCommentView};
use crate::json::{lemma_view_obj_of, JsonVal, JsonValue};
use crate::pull_requests::{PullRequest, PullRequestView};
use crate::repos::{Repo, RepoView};
use crate::types::{Filename, Issue, IssueView, Message, Sha, Url, UserName};
use crate::users::{User, UserView};

verus! {

broadcast use vstd::seq::group_seq_axioms, vstd::std_specs::vec::group_vec_axioms;

/// The action of an issue comment event.
#[derive(Debug, PartialEq, Eq, Structural, Clone, Copy)]
pub enum IssueCommentEventType {
    Created,
}

impl DeepView for IssueCommentEventType {
    type V = IssueCommentEventType;

    open spec fn deep_view(&self) -> IssueCommentEventType {
        *self
    }
}

impl JsonEncode for IssueCommentEventType {
    open spec fn spec_to_json(&self) -> Option<JsonVal> {
        match self {
            IssueCommentEventType::Created => Some(JsonVal::Str("created"@)),
        }
    }

    fn to_json(&self) -> (r: Result<JsonValue, String>) {
        match self {
            IssueCommentEventType::Created => Ok(JsonValue::Str(String::from_str("created"))),
        }
    }
}

impl JsonDecode for IssueCommentEventType {
    open spec fn spec_from_json(j: JsonVal) -> Option<IssueCommentEventType> {
        match j {
            JsonVal::Str(s) => {
                if s == "created"@ {
                    Some(IssueCommentEventType::Created)
                } else {
                    None
                }
            },
            _ => None,
        }
    }

    fn from_json(v: &JsonValue) -> (r: Result<Self, String>) {
        match v {
            JsonValue::Str(s) => {
                if *s == String::from_str("created") {
                    Ok(IssueCommentEventType::Created)
                } else {
                    Err(String::from_str("no matching item"))
                }
            },
            _ => Err(String::from_str("no matching item")),
        }
    }
}

impl JsonCodec for IssueCommentEventType {
    proof fn lemma_codec_round_trip(&self) {
        reveal_strlit("created");
        assert(("created"@).len() == 7);
    }
}
/// The action of a pull request event.
#[derive(Debug, PartialEq, Eq, Structural, Clone, Copy)]
pub enum PullRequestEventType {
    Assigned,
    Unassigned,
    Labeled,
    Unlabeled,
    Opened,
    Closed,
    Synchronize,
}

impl DeepView for PullRequestEventType {
    type V = PullRequestEventType;

    open spec fn deep_view(&self) -> PullRequestEventType {
        *self
    }
}

impl JsonEncode for PullRequestEventType {
    open spec fn spec_to_json(&self) -> Option<JsonVal> {
        match self {
            PullRequestEventType::Assigned => Some(JsonVal::Str("assigned"@)),
            PullRequestEventType::Unassigned => Some(JsonVal::Str("unassigned"@)),
            PullRequestEventType::Labeled => Some(JsonVal::Str("labeled"@)),
            PullRequestEventType::Unlabeled => Some(JsonVal::Str("unlabeled"@)),
            PullRequestEventType::Opened => Some(JsonVal::Str("opened"@)),
            PullRequestEventType::Closed => Some(JsonVal::Str("closed"@)),
            PullRequestEventType::Synchronize => Some(JsonVal::Str("synchronize"@)),
        }
    }

    fn to_json(&self) -> (r: Result<JsonValue, String>) {
        match self {
            PullRequestEventType::Assigned => Ok(JsonValue::Str(String::from_str("assigned"))),
            PullRequestEventType::Unassigned => Ok(JsonValue::Str(String::from_str("unassigned"))),
            PullRequestEventType::Labeled => Ok(JsonValue::Str(String::from_str("labeled"))),
            PullRequestEventType::Unlabeled => Ok(JsonValue::Str(String::from_str("unlabeled"))),
            PullRequestEventType::Opened => Ok(JsonValue::Str(String::from_str("opened"))),
            PullRequestEventType::Closed => Ok(JsonValue::Str(String::from_str("closed"))),
            PullRequestEventType::Synchronize => Ok(JsonValue::Str(String::from_str("synchronize"))),
        }
    }
}

impl JsonDecode for PullRequestEventType {
    open spec fn spec_from_json(j: JsonVal) -> Option<PullRequestEventType> {
        match j {
            JsonVal::Str(s) => {
                if s == "assigned"@ {
                    Some(PullRequestEventType::Assigned)
                } else if s == "unassigned"@ {
                    Some(PullRequestEventType::Unassigned)
                } else if s == "labeled"@ {
                    Some(PullRequestEventType::Labeled)
                } else if s == "unlabeled"@ {
                    Some(PullRequestEventType::Unlabeled)
                } else if s == "opened"@ {
                    Some(PullRequestEventType::Opened)
                } else if s == "closed"@ {
                    Some(PullRequestEventType::Closed)
                } else if s == "synchronize"@ {
                    Some(PullRequestEventType::Synchronize)
                } else {
                    None
                }
            },
            _ => None,
        }
    }

    fn from_json(v: &JsonValue) -> (r: Result<Self, String>) {
        match v {
            JsonValue::Str(s) => {
                if *s == String::from_str("assigned") {
                    Ok(PullRequestEventType::Assigned)
                } else if *s == String::from_str("unassigned") {
                    Ok(PullRequestEventType::Unassigned)
                } else if *s == String::from_str("labeled") {
                    Ok(PullRequestEventType::Labeled)
                } else if *s == String::from_str("unlabeled") {
                    Ok(PullRequestEventType::Unlabeled)
                } else if *s == String::from_str("opened") {
                    Ok(PullRequestEventType::Opened)
                } else if *s == String::from_str("closed") {
                    Ok(PullRequestEventType::Closed)
                } else if *s == String::from_str("synchronize") {
                    Ok(PullRequestEventType::Synchronize)
                } else {
                    Err(String::from_str("no matching item"))
                }
            },
            _ => Err(String::from_str("no matching item")),
        }
    }
}

impl JsonCodec for PullRequestEventType {
    proof fn lemma_codec_round_trip(&self) {
        reveal_strlit("assigned");
        reveal_strlit("unassigned");
        reveal_strlit("labeled");
        reveal_strlit("unlabeled");
        reveal_strlit("opened");
        reveal_strlit("closed");
        reveal_strlit("synchronize");
        assert(("assigned"@).len() == 8);
        assert(("unassigned"@).len() == 10);
        assert(("labeled"@).len() == 7);
        assert(("unlabeled"@).len() == 9);
        assert(("opened"@).len() == 6);
        assert(("closed"@).len() == 6);
        assert(("synchronize"@).len() == 11);
        assert(("assigned"@) != ("unassigned"@));
        assert(("assigned"@) != ("labeled"@));
        assert(("assigned"@) != ("unlabeled"@));
        assert(("assigned"@) != ("opened"@));
        assert(("assigned"@) != ("closed"@));
        assert(("assigned"@) != ("synchronize"@));
        assert(("unassigned"@) != ("labeled"@));
        assert(("unassigned"@) != ("unlabeled"@));
        assert(("unassigned"@) != ("opened"@));
        assert(("unassigned"@) != ("closed"@));
        assert(("unassigned"@) != ("synchronize"@));
        assert(("labeled"@) != ("unlabeled"@));
        assert(("labeled"@) != ("opened"@));
        assert(("labeled"@) != ("closed"@));
        assert(("labeled"@) != ("synchronize"@));
        assert(("unlabeled"@) != ("opened"@));
        assert(("unlabeled"@) != ("closed"@));
        assert(("unlabeled"@) != ("synchronize"@));
        assert(("opened"@)[0] == 'o');
        assert(("closed"@)[0] == 'c');
        assert(("opened"@) != ("closed"@));
        assert(("opened"@) != ("synchronize"@));
        assert(("closed"@) != ("synchronize"@));
    }
}
/// The action of a review comment event.
#[derive(Debug, PartialEq, Eq, Structural, Clone, Copy)]
pub enum PullRequestReviewCommentEventType {
    Created,
}

impl DeepView for PullRequestReviewCommentEventType {
    type V = PullRequestReviewCommentEventType;

    open spec fn deep_view(&self) -> PullRequestReviewCommentEventType {
        *self
    }
}

impl JsonEncode for PullRequestReviewCommentEventType {
    open spec fn spec_to_json(&self) -> Option<JsonVal> {
        match self {
            PullRequestReviewCommentEventType::Created => Some(JsonVal::Str("created"@)),
        }
    }

    fn to_json(&self) -> (r: Result<JsonValue, String>) {
        match self {
            PullRequestReviewCommentEventType::Created => Ok(JsonValue::Str(String::from_str("created"))),
        }
    }
}

impl JsonDecode for PullRequestReviewCommentEventType {
    open spec fn spec_from_json(j: JsonVal) -> Option<PullRequestReviewCommentEventType> {
        match j {
            JsonVal::Str(s) => {
                if s == "created"@ {
                    Some(PullRequestReviewCommentEventType::Created)
                } else {
                    None
                }
            },
            _ => None,
        }
    }

    fn from_json(v: &JsonValue) -> (r: Result<Self, String>) {
        match v {
            JsonValue::Str(s) => {
                if *s == String::from_str("created") {
                    Ok(PullRequestReviewCommentEventType::Created)
                } else {
                    Err(String::from_str("no matching item"))
                }
            },
            _ => Err(String::from_str("no matching item")),
        }
    }
}

impl JsonCodec for PullRequestReviewCommentEventType {
    proof fn lemma_codec_round_trip(&self) {
        reveal_strlit("created");
        assert(("created"@).len() == 7);
    }
}

/// Who pushed, as push events carry it.
#[derive(Debug, PartialEq, Clone)]
pub struct Pusher {
    pub name: String,
    pub email: String,
    pub username: Option<UserName>,
}

/// The model of `Pusher`.
pub struct PusherView {
    pub name: Seq<char>,
    pub email: Seq<char>,
    pub username: Option<Seq<char>>,
}

impl DeepView for Pusher {
    type V = PusherView;

    open spec fn deep_view(&self) -> PusherView
    {
        PusherView {
            name: self.name@,
            email: self.email@,
            username: self.username.deep_view(),
        }
    }
}

impl JsonDecode for Pusher {
    open spec fn spec_from_json(j: JsonVal) -> Option<PusherView> {
        match j {
            JsonVal::Obj(fs) => {
                if spec_field_str(fs, "name"@) is None {
                    None
                } else if spec_field_str(fs, "email"@) is None {
                    None
                } else if spec_field_opt_str(fs, "username"@) is None {
                    None
                } else {
                    Some(
                        PusherView {
                            name: spec_field_str(fs, "name"@).unwrap(),
                            email: spec_field_str(fs, "email"@).unwrap(),
                            username: spec_field_opt_str(fs, "username"@).unwrap(),
                        },
                    )
                }
            },
            _ => None,
        }
    }

    fn from_json(v: &JsonValue) -> (r: Result<Self, String>) {
        match v {
            JsonValue::Obj(fs) => {
                proof {
                    lemma_view_obj_of(v);
                }
                let name = match field_str(fs, "name") {
                    Ok(x) => x,
                    Err(e) => {
                        return Err(e);
                    },
                };
                let email = match field_str(fs, "email") {
                    Ok(x) => x,
                    Err(e) => {
                        return Err(e);
                    },
                };
                let username = match field_opt_str(fs, "username") {
                    Ok(x) => x,
                    Err(e) => {
                        return Err(e);
                    },
                };
                Ok(
                    Pusher {
                        name,
                        email,
                        username,
                    },
                )
            },
            _ => Err(String::from_str("expected an object")),
        }
    }
}

/// One commit carried in a push event.
#[derive(Debug, PartialEq, Clone)]
pub struct PushCommit {
    pub id: Sha,
    pub distinct: bool,
    pub message: Message,
    pub timestamp: GitTm,
    pub url: Url,
    pub author: Pusher,
    pub committer: Pusher,
    pub added: Vec<Filename>,
    pub removed: Vec<Filename>,
    pub modified: Vec<Filename>,
}

/// The model of `PushCommit`.
pub struct PushCommitView {
    pub id: Seq<char>,
    pub distinct: bool,
    pub message: Seq<char>,
    pub timestamp: GitTm,
    pub url: Seq<char>,
    pub author: PusherView,
    pub committer: PusherView,
    pub added: Seq<Seq<char>>,
    pub removed: Seq<Seq<char>>,
    pub modified: Seq<Seq<char>>,
}

impl DeepView for PushCommit {
    type V = PushCommitView;

    open spec fn deep_view(&self) -> PushCommitView
    {
        PushCommitView {
            id: self.id@,
            distinct: self.distinct,
            message: self.message@,
            timestamp: self.timestamp,
            url: self.url@,
            author: self.author.deep_view(),
            committer: self.committer.deep_view(),
            added: self.added.deep_view(),
            removed: self.removed.deep_view(),
            modified: self.modified.deep_view(),
        }
    }
}

impl JsonDecode for PushCommit {
    open spec fn spec_from_json(j: JsonVal) -> Option<PushCommitView> {
        match j {
            JsonVal::Obj(fs) => {
                if spec_field_str(fs, "id"@) is None {
                    None
                } else if spec_field_bool(fs, "distinct"@) is None {
                    None
                } else if spec_field_str(fs, "message"@) is None {
                    None
                } else if spec_field_time(fs, "timestamp"@) is None {
                    None
                } else if spec_field_str(fs, "url"@) is None {
                    None
                } else if spec_field_rec::<Pusher>(fs, "author"@) is None {
                    None
                } else if spec_field_rec::<Pusher>(fs, "committer"@) is None {
                    None
                } else if spec_field_rec::<Vec<String>>(fs, "added"@) is None {
                    None
                } else if spec_field_rec::<Vec<String>>(fs, "removed"@) is None {
                    None
                } else if spec_field_rec::<Vec<String>>(fs, "modified"@) is None {
                    None
                } else {
                    Some(
                        PushCommitView {
                            id: spec_field_str(fs, "id"@).unwrap(),
                            distinct: spec_field_bool(fs, "distinct"@).unwrap(),
                            message: spec_field_str(fs, "message"@).unwrap(),
                            timestamp: spec_field_time(fs, "timestamp"@).unwrap(),
                            url: spec_field_str(fs, "url"@).unwrap(),
                            author: spec_field_rec::<Pusher>(fs, "author"@).unwrap(),
                            committer: spec_field_rec::<Pusher>(fs, "committer"@).unwrap(),
                            added: spec_field_rec::<Vec<String>>(fs, "added"@).unwrap(),
                            removed: spec_field_rec::<Vec<String>>(fs, "removed"@).unwrap(),
                            modified: spec_field_rec::<Vec<String>>(fs, "modified"@).unwrap(),
                        },
                    )
                }
            },
            _ => None,
        }
    }

    fn from_json(v: &JsonValue) -> (r: Result<Self, String>) {
        match v {
            JsonValue::Obj(fs) => {
                proof {
                    lemma_view_obj_of(v);
                }
                let id = match field_str(fs, "id") {
                    Ok(x) => x,
                    Err(e) => {
                        return Err(e);
                    },
                };
                let distinct = match field_bool(fs, "distinct") {
                    Ok(x) => x,
                    Err(e) => {
                        return Err(e);
                    },
                };
                let message = match field_str(fs, "message") {
                    Ok(x) => x,
                    Err(e) => {
                        return Err(e);
                    },
                };
                let timestamp = match field_time(fs, "timestamp") {
                    Ok(x) => x,
                    Err(e) => {
                        return Err(e);
                    },
                };
                let url = match field_str(fs, "url") {
                    Ok(x) => x,
                    Err(e) => {
                        return Err(e);
                    },
                };
                let author = match field_rec::<Pusher>(fs, "author") {
                    Ok(x) => x,
                    Err(e) => {
                        return Err(e);
                    },
                };
                let committer = match field_rec::<Pusher>(fs, "committer") {
                    Ok(x) => x,
                    Err(e) => {
                        return Err(e);
                    },
                };
                let added = match field_rec::<Vec<String>>(fs, "added") {
                    Ok(x) => x,
                    Err(e) => {
                        return Err(e);
                    },
                };
                let removed = match field_rec::<Vec<String>>(fs, "removed") {
                    Ok(x) => x,
                    Err(e) => {
                        return Err(e);
                    },
                };
                let modified = match field_rec::<Vec<String>>(fs, "modified") {
                    Ok(x) => x,
                    Err(e) => {
                        return Err(e);
                    },
                };
                Ok(
                    PushCommit {
                        id,
                        distinct,
                        message,
                        timestamp,
                        url,
                        author,
                        committer,
                        added,
                        removed,
                        modified,
                    },
                )
            },
            _ => Err(String::from_str("expected an object")),
        }
    }
}

/// A push event payload.
#[derive(Debug, PartialEq)]
pub struct PushEvent {
    pub before: Sha,
    pub after: Sha,
    pub created: bool,
    pub deleted: bool,
    pub forced: bool,
    pub base_ref: Option<Sha>,
    pub compare: Url,
    pub commits: Vec<PushCommit>,
    pub head_commit: PushCommit,
    pub repository: Repo,
    pub pusher: Pusher,
    pub sender: User,
}

/// The model of `PushEvent`.
pub struct PushEventView {
    pub before: Seq<char>,
    pub after: Seq<char>,
    pub created: bool,
    pub deleted: bool,
    pub forced: bool,
    pub base_ref: Option<Seq<char>>,
    pub compare: Seq<char>,
    pub commits: Seq<PushCommitView>,
    pub head_commit: PushCommitView,
    pub repository: RepoView,
    pub pusher: PusherView,
    pub sender: UserView,
}

impl DeepView for PushEvent {
    type V = PushEventView;

    open spec fn deep_view(&self) -> PushEventView
    {
        PushEventView {
            before: self.before@,
            after: self.after@,
            created: self.created,
            deleted: self.deleted,
            forced: self.forced,
            base_ref: self.base_ref.deep_view(),
            compare: self.compare@,
            commits: self.commits.deep_view(),
            head_commit: self.head_commit.deep_view(),
            repository: self.repository.deep_view(),
            pusher: self.pusher.deep_view(),
            sender: self.sender.deep_view(),
        }
    }
}

impl JsonDecode for PushEvent {
    open spec fn spec_from_json(j: JsonVal) -> Option<PushEventView> {
        match j {
            JsonVal::Obj(fs) => {
                if spec_field_str(fs, "before"@) is None {
                    None
                } else if spec_field_str(fs, "after"@) is None {
                    None
                } else if spec_field_bool(fs, "created"@) is None {
                    None
                } else if spec_field_bool(fs, "deleted"@) is None {
                    None
                } else if spec_field_bool(fs, "forced"@) is None {
                    None
                } else if spec_field_opt_str(fs, "base_ref"@) is None {
                    None
                } else if spec_field_str(fs, "compare"@) is None {
                    None
                } else if spec_field_rec::<Vec<PushCommit>>(fs, "commits"@) is None {
                    None
                } else if spec_field_rec::<PushCommit>(fs, "head_commit"@) is None {
                    None
                } else if spec_field_rec::<Repo>(fs, "repository"@) is None {
                    None
                } else if spec_field_rec::<Pusher>(fs, "pusher"@) is None {
                    None
                } else if spec_field_rec::<User>(fs, "sender"@) is None {
                    None
                } else {
                    Some(
                        PushEventView {
                            before: spec_field_str(fs, "before"@).unwrap(),
                            after: spec_field_str(fs, "after"@).unwrap(),
                            created: spec_field_bool(fs, "created"@).unwrap(),
                            deleted: spec_field_bool(fs, "deleted"@).unwrap(),
                            forced: spec_field_bool(fs, "forced"@).unwrap(),
                            base_ref: spec_field_opt_str(fs, "base_ref"@).unwrap(),
                            compare: spec_field_str(fs, "compare"@).unwrap(),
                            commits: spec_field_rec::<Vec<PushCommit>>(fs, "commits"@).unwrap(),
                            head_commit: spec_field_rec::<PushCommit>(fs, "head_commit"@).unwrap(),
                            repository: spec_field_rec::<Repo>(fs, "repository"@).unwrap(),
                            pusher: spec_field_rec::<Pusher>(fs, "pusher"@).unwrap(),
                            sender: spec_field_rec::<User>(fs, "sender"@).unwrap(),
                        },
                    )
                }
            },
            _ => None,
        }
    }

    fn from_json(v: &JsonValue) -> (r: Result<Self, String>) {
        match v {
            JsonValue::Obj(fs) => {
                proof {
                    lemma_view_obj_of(v);
                }
                let before = match field_str(fs, "before") {
                    Ok(x) => x,
                    Err(e) => {
                        return Err(e);
                    },
                };
                let after = match field_str(fs, "after") {
                    Ok(x) => x,
                    Err(e) => {
                        return Err(e);
                    },
                };
                let created = match field_bool(fs, "created") {
                    Ok(x) => x,
                    Err(e) => {
                        return Err(e);
                    },
                };
                let deleted = match field_bool(fs, "deleted") {
                    Ok(x) => x,
                    Err(e) => {
                        return Err(e);
                    },
                };
                let forced = match field_bool(fs, "forced") {
                    Ok(x) => x,
                    Err(e) => {
                        return Err(e);
                    },
                };
                let base_ref = match field_opt_str(fs, "base_ref") {
                    Ok(x) => x,
                    Err(e) => {
                        return Err(e);
                    },
                };
                let compare = match field_str(fs, "compare") {
                    Ok(x) => x,
                    Err(e) => {
                        return Err(e);
                    },
                };
                let commits = match field_rec::<Vec<PushCommit>>(fs, "commits") {
                    Ok(x) => x,
                    Err(e) => {
                        return Err(e);
                    },
                };
                let head_commit = match field_rec::<PushCommit>(fs, "head_commit") {
                    Ok(x) => x,
                    Err(e) => {
                        return Err(e);
                    },
                };
                let repository = match field_rec::<Repo>(fs, "repository") {
                    Ok(x) => x,
                    Err(e) => {
                        return Err(e);
                    },
                };
                let pusher = match field_rec::<Pusher>(fs, "pusher") {
                    Ok(x) => x,
                    Err(e) => {
                        return Err(e);
                    },
                };
                let sender = match field_rec::<User>(fs, "sender") {
                    Ok(x) => x,
                    Err(e) => {
                        return Err(e);
                    },
                };
                Ok(
                    PushEvent {
                        before,
                        after,
                        created,
                        deleted,
                        forced,
                        base_ref,
                        compare,
                        commits,
                        head_commit,
                        repository,
                        pusher,
                        sender,
                    },
                )
            },
            _ => Err(String::from_str("expected an object")),
        }
    }
}

/// An issue comment event payload.
#[derive(Debug, PartialEq)]
pub struct IssueCommentEvent {
    pub action: IssueCommentEventType,
    pub issue: Issue,
    pub comment: IssueComment,
    pub repository: Repo,
    pub sender: User,
}

/// The model of `IssueCommentEvent`.
pub struct IssueCommentEventView {
    pub action: IssueCommentEventType,
    pub issue: IssueView,
    pub comment: IssueCommentView,
    pub repository: RepoView,
    pub sender: UserView,
}

impl DeepView for IssueCommentEvent {
    type V = IssueCommentEventView;

    open spec fn deep_view(&self) -> IssueCommentEventView
    {
        IssueCommentEventView {
            action: self.action,
            issue: self.issue.deep_view(),
            comment: self.comment.deep_view(),
            repository: self.repository.deep_view(),
            sender: self.sender.deep_view(),
        }
    }
}

impl JsonDecode for IssueCommentEvent {
    open spec fn spec_from_json(j: JsonVal) -> Option<IssueCommentEventView> {
        match j {
            JsonVal::Obj(fs) => {
                if spec_field_rec::<IssueCommentEventType>(fs, "action"@) is None {
                    None
                } else if spec_field_rec::<Issue>(fs, "issue"@) is None {
                    None
                } else if spec_field_rec::<IssueComment>(fs, "comment"@) is None {
                    None
                } else if spec_field_rec::<Repo>(fs, "repository"@) is None {
                    None
                } else if spec_field_rec::<User>(fs, "sender"@) is None {
                    None
                } else {
                    Some(
                        IssueCommentEventView {
                            action: spec_field_rec::<IssueCommentEventType>(fs, "action"@).unwrap(),
                            issue: spec_field_rec::<Issue>(fs, "issue"@).unwrap(),
                            comment: spec_field_rec::<IssueComment>(fs, "comment"@).unwrap(),
                            repository: spec_field_rec::<Repo>(fs, "repository"@).unwrap(),
                            sender: spec_field_rec::<User>(fs, "sender"@).unwrap(),
                        },
                    )
                }
            },
            _ => None,
        }
    }

    fn from_json(v: &JsonValue) -> (r: Result<Self, String>) {
        match v {
            JsonValue::Obj(fs) => {
                proof {
                    lemma_view_obj_of(v);
                }
                let action = match field_rec::<IssueCommentEventType>(fs, "action") {
                    Ok(x) => x,
                    Err(e) => {
                        return Err(e);
                    },
                };
                let issue = match field_rec::<Issue>(fs, "issue") {
                    Ok(x) => x,
                    Err(e) => {
                        return Err(e);
                    },
                };
                let comment = match field_rec::<IssueComment>(fs, "comment") {
                    Ok(x) => x,
                    Err(e) => {
                        return Err(e);
                    },
                };
                let repository = match field_rec::<Repo>(fs, "repository") {
                    Ok(x) => x,
                    Err(e) => {
                        return Err(e);
                    },
                };
                let sender = match field_rec::<User>(fs, "sender") {
                    Ok(x) => x,
                    Err(e) => {
                        return Err(e);
                    },
                };
                Ok(
                    IssueCommentEvent {
                        action,
                        issue,
                        comment,
                        repository,
                        sender,
                    },
                )
            },
            _ => Err(String::from_str("expected an object")),
        }
    }
}

/// A pull request event payload.
#[derive(Debug, PartialEq)]
pub struct PullRequestEvent {
    pub action: PullRequestEventType,
    pub number: u32,
    pub pull_request: PullRequest,
    pub repository: Repo,
    pub sender: User,
}

/// The model of `PullRequestEvent`.
pub struct PullRequestEventView {
    pub action: PullRequestEventType,
    pub number: u32,
    pub pull_request: PullRequestView,
    pub repository: RepoView,
    pub sender: UserView,
}

impl DeepView for PullRequestEvent {
    type V = PullRequestEventView;

    open spec fn deep_view(&self) -> PullRequestEventView
    {
        PullRequestEventView {
            action: self.action,
            number: self.number,
            pull_request: self.pull_request.deep_view(),
            repository: self.repository.deep_view(),
            sender: self.sender.deep_view(),
        }
    }
}

impl JsonDecode for PullRequestEvent {
    open spec fn spec_from_json(j: JsonVal) -> Option<PullRequestEventView> {
        match j {
            JsonVal::Obj(fs) => {
                if spec_field_rec::<PullRequestEventType>(fs, "action"@) is None {
                    None
                } else if spec_field_u32(fs, "number"@) is None {
                    None
                } else if spec_field_rec::<PullRequest>(fs, "pull_request"@) is None {
                    None
                } else if spec_field_rec::<Repo>(fs, "repository"@) is None {
                    None
                } else if spec_field_rec::<User>(fs, "sender"@) is None {
                    None
                } else {
                    Some(
                        PullRequestEventView {
                            action: spec_field_rec::<PullRequestEventType>(fs, "action"@).unwrap(),
                            number: spec_field_u32(fs, "number"@).unwrap(),
                            pull_request: spec_field_rec::<PullRequest>(fs, "pull_request"@).unwrap(),
                            repository: spec_field_rec::<Repo>(fs, "repository"@).unwrap(),
                            sender: spec_field_rec::<User>(fs, "sender"@).unwrap(),
                        },
                    )
                }
            },
            _ => None,
        }
    }

    fn from_json(v: &JsonValue) -> (r: Result<Self, String>) {
        match v {
            JsonValue::Obj(fs) => {
                proof {
                    lemma_view_obj_of(v);
                }
                let action = match field_rec::<PullRequestEventType>(fs, "action") {
                    Ok(x) => x,
                    Err(e) => {
                        return Err(e);
                    },
                };
                let number = match field_u32(fs, "number") {
                    Ok(x) => x,
                    Err(e) => {
                        return Err(e);
                    },
                };
                let pull_request = match field_rec::<PullRequest>(fs, "pull_request") {
                    Ok(x) => x,
                    Err(e) => {
                        return Err(e);
                    },
                };
                let repository = match field_rec::<Repo>(fs, "repository") {
                    Ok(x) => x,
                    Err(e) => {
                        return Err(e);
                    },
                };
                let sender = match field_rec::<User>(fs, "sender") {
                    Ok(x) => x,
                    Err(e) => {
                        return Err(e);
                    },
                };
                Ok(
                    PullRequestEvent {
                        action,
                        number,
                        pull_request,
                        repository,
                        sender,
                    },
                )
            },
            _ => Err(String::from_str("expected an object")),
        }
    }
}

/// A review comment event payload.
#[derive(Debug, PartialEq)]
pub struct PullRequestReviewCommentEvent {
    pub action: PullRequestReviewCommentEventType,
    pub comment: PullRequestComment,
    pub pull_request: PullRequest,
    pub repository: Repo,
    pub sender: User,
}

/// The model of `PullRequestReviewCommentEvent`.
pub struct PullRequestReviewCommentEventView {
    pub action: PullRequestReviewCommentEventType,
    pub comment: PullRequestCommentView,
    pub pull_request: PullRequestView,
    pub repository: RepoView,
    pub sender: UserView,
}

impl DeepView for PullRequestReviewCommentEvent {
    type V = PullRequestReviewCommentEventView;

    open spec fn deep_view(&self) -> PullRequestReviewCommentEventView
    {
        PullRequestReviewCommentEventView {
            action: self.action,
            comment: self.comment.deep_view(),
            pull_request: self.pull_request.deep_view(),
            repository: self.repository.deep_view(),
            sender: self.sender.deep_view(),
        }
    }
}

impl JsonDecode for PullRequestReviewCommentEvent {
    open spec fn spec_from_json(j: JsonVal) -> Option<PullRequestReviewCommentEventView> {
        match j {
            JsonVal::Obj(fs) => {
                if spec_field_rec::<PullRequestReviewCommentEventType>(fs, "action"@) is None {
                    None
                } else if spec_field_rec::<PullRequestComment>(fs, "comment"@) is None {
                    None
                } else if spec_field_rec::<PullRequest>(fs, "pull_request"@) is None {
                    None
                } else if spec_field_rec::<Repo>(fs, "repository"@) is None {
                    None
                } else if spec_field_rec::<User>(fs, "sender"@) is None {
                    None
                } else {
                    Some(
                        PullRequestReviewCommentEventView {
                            action: spec_field_rec::<PullRequestReviewCommentEventType>(fs, "action"@).unwrap(),
                            comment: spec_field_rec::<PullRequestComment>(fs, "comment"@).unwrap(),
                            pull_request: spec_field_rec::<PullRequest>(fs, "pull_request"@).unwrap(),
                            repository: spec_field_rec::<Repo>(fs, "repository"@).unwrap(),
                            sender: spec_field_rec::<User>(fs, "sender"@).unwrap(),
                        },
                    )
                }
            },
            _ => None,
        }
    }

    fn from_json(v: &JsonValue) -> (r: Result<Self, String>) {
        match v {
            JsonValue::Obj(fs) => {
                proof {
                    lemma_view_obj_of(v);
                }
                let action = match field_rec::<PullRequestReviewCommentEventType>(fs, "action") {
                    Ok(x) => x,
                    Err(e) => {
                        return Err(e);
                    },
                };
                let comment = match field_rec::<PullRequestComment>(fs, "comment") {
                    Ok(x) => x,
                    Err(e) => {
                        return Err(e);
                    },
                };
                let pull_request = match field_rec::<PullRequest>(fs, "pull_request") {
                    Ok(x) => x,
                    Err(e) => {
                        return Err(e);
                    },
                };
                let repository = match field_rec::<Repo>(fs, "repository") {
                    Ok(x) => x,
                    Err(e) => {
                        return Err(e);
                    },
                };
                let sender = match field_rec::<User>(fs, "sender") {
                    Ok(x) => x,
                    Err(e) => {
                        return Err(e);
                    },
                };
                Ok(
                    PullRequestReviewCommentEvent {
                        action,
                        comment,
                        pull_request,
                        repository,
                        sender,
                    },
                )
            },
            _ => Err(String::from_str("expected an object")),
        }
    }
}

} // verus!
