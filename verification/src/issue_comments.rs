//! Issue comment records, queries, resource locators and operations.

use vstd::prelude::*;

use crate::codec::{field_rec, field_str, field_u32, spec_decode_body, spec_field_rec,
    spec_field_str, spec_field_u32, spec_obj_get, JsonCodec, JsonDecode, JsonEncode};
use crate::errors::GitErr;
use crate::github_client::{Method, SimpleClient};
use crate::gittm::{field_time, spec_field_time, spec_format_tm, GitTm};
use crate::json::{lemma_view_obj, lemma_view_obj_of, seq_view_fields, wf_json, JsonVal, JsonValue};
use crate::repos::{repo_at, spec_repo_at};
use crate::text::{spec_digits, u32_to_string};
use crate::types::{IssueId, Message, Repository, SortDirection, Url};
use crate::users::{User, UserView};

verus! {

broadcast use vstd::seq::group_seq_axioms, vstd::std_specs::vec::group_vec_axioms;

pub type CommentId = u32;

/// The new body sent when editing an issue comment.
pub type EditComment = CreateComment;

/// The body sent when creating an issue comment.
pub type CreateIssueComment = CreateComment;

/// Whether a deletion took place.
#[derive(Debug, PartialEq, Eq, Structural, Clone, Copy)]
pub enum DeleteCommentStatus {
    Deleted,
    NotDeleted,
}

/// The orders an issue comment listing can be sorted by.
#[derive(Debug, PartialEq, Eq, Structural, Clone, Copy)]
pub enum CommentSortables {
    CreatedAt,
    UpdatedAt,
}

impl DeepView for CommentSortables {
    type V = CommentSortables;

    open spec fn deep_view(&self) -> CommentSortables {
        *self
    }
}

impl JsonEncode for CommentSortables {
    open spec fn spec_to_json(&self) -> Option<JsonVal> {
        match self {
            CommentSortables::CreatedAt => Some(JsonVal::Str("created"@)),
            CommentSortables::UpdatedAt => Some(JsonVal::Str("updated"@)),
        }
    }

    fn to_json(&self) -> (r: Result<JsonValue, String>) {
        match self {
            CommentSortables::CreatedAt => Ok(JsonValue::Str(String::from_str("created"))),
            CommentSortables::UpdatedAt => Ok(JsonValue::Str(String::from_str("updated"))),
        }
    }
}

impl JsonDecode for CommentSortables {
    open spec fn spec_from_json(j: JsonVal) -> Option<CommentSortables> {
        match j {
            JsonVal::Str(s) => {
                if s == "created"@ {
                    Some(CommentSortables::CreatedAt)
                } else if s == "updated"@ {
                    Some(CommentSortables::UpdatedAt)
                } else {
                    None
                }
            },
            _ => None,
        }
    }

    fn from_json(v: &JsonValue) -> (r: Result<Self, String>) {
        match v {
            JsonValue::Str(s) => {
                if *s == String::from_str("created") {
                    Ok(CommentSortables::CreatedAt)
                } else if *s == String::from_str("updated") {
                    Ok(CommentSortables::UpdatedAt)
                } else {
                    Err(String::from_str("no matching item"))
                }
            },
            _ => Err(String::from_str("no matching item")),
        }
    }
}

impl JsonCodec for CommentSortables {
    proof fn lemma_codec_round_trip(&self) {
        reveal_strlit("created");
        reveal_strlit("updated");
        assert(("created"@).len() == 7);
        assert(("updated"@).len() == 7);
        assert(("created"@)[0] == 'c');
        assert(("updated"@)[0] == 'u');
        assert(("created"@) != ("updated"@));
    }
}

/// The filter sent when listing the comments of one issue.
#[derive(Debug, PartialEq, Clone)]
pub struct ListIssueCommentsQuery {
    pub since: GitTm,
}

/// The model of `ListIssueCommentsQuery`.
pub struct ListIssueCommentsQueryView {
    pub since: GitTm,
}

impl DeepView for ListIssueCommentsQuery {
    type V = ListIssueCommentsQueryView;

    open spec fn deep_view(&self) -> ListIssueCommentsQueryView
    {
        ListIssueCommentsQueryView {
            since: self.since,
        }
    }
}

impl JsonDecode for ListIssueCommentsQuery {
    open spec fn spec_from_json(j: JsonVal) -> Option<ListIssueCommentsQueryView> {
        match j {
            JsonVal::Obj(fs) => {
                if spec_field_time(fs, "since"@) is None {
                    None
                } else {
                    Some(
                        ListIssueCommentsQueryView {
                            since: spec_field_time(fs, "since"@).unwrap(),
                        },
                    )
                }
            },
            _ => None,
        }
    }

    fn from_json(v: &JsonValue) -> (r: Result<Self, String>) {
        match v {
            JsonValue::Obj(fs) => {
                proof {
                    lemma_view_obj_of(v);
                }
                let since = match field_time(fs, "since") {
                    Ok(x) => x,
                    Err(e) => {
                        return Err(e);
                    },
                };
                Ok(
                    ListIssueCommentsQuery {
                        since,
                    },
                )
            },
            _ => Err(String::from_str("expected an object")),
        }
    }
}

impl JsonEncode for ListIssueCommentsQuery {
    open spec fn spec_to_json(&self) -> Option<JsonVal> {
        if self.since.spec_valid() {
            Some(JsonVal::Obj(
                seq![
                    ("since"@, JsonVal::Str(spec_format_tm(self.since))),
                ],
            ))
        } else {
            None
        }
    }

    fn to_json(&self) -> (r: Result<JsonValue, String>) {
        let mut fs: Vec<(String, JsonValue)> = Vec::new();
        let since = match self.since.to_json() {
            Ok(j) => j,
            Err(e) => {
                return Err(e);
            },
        };
        fs.push((String::from_str("since"), since));
        proof {
            lemma_view_obj(fs);
            assert(seq_view_fields(fs@) =~= self.spec_to_json().unwrap()->Obj_0);
        }
        Ok(JsonValue::Obj(fs))
    }
}

impl JsonCodec for ListIssueCommentsQuery {
    proof fn lemma_codec_round_trip(&self) {
        reveal_with_fuel(spec_obj_get, 3);
        reveal_strlit("since");
        assert(("since"@).len() == 5);
        self.since.lemma_codec_round_trip();
        if self.spec_to_json() is Some {
            let j = self.spec_to_json().unwrap();
            let fs = j->Obj_0;
            assert(fs.len() == 1);
            assert(wf_json(fs[0].1));
            assert(wf_json(j));
            assert(spec_obj_get(fs, "since"@) == Some(fs[0].1));
            assert(Self::spec_from_json(j) == Some(self.deep_view()));
        }
    }
}

/// The filter sent when listing a repository's issue comments.
#[derive(Debug, PartialEq, Clone)]
pub struct ListRepoCommentsQuery {
    pub sort: CommentSortables,
    pub direction: SortDirection,
    pub since: GitTm,
}

/// The model of `ListRepoCommentsQuery`.
pub struct ListRepoCommentsQueryView {
    pub sort: CommentSortables,
    pub direction: SortDirection,
    pub since: GitTm,
}

impl DeepView for ListRepoCommentsQuery {
    type V = ListRepoCommentsQueryView;

    open spec fn deep_view(&self) -> ListRepoCommentsQueryView
    {
        ListRepoCommentsQueryView {
            sort: self.sort,
            direction: self.direction,
            since: self.since,
        }
    }
}

impl JsonDecode for ListRepoCommentsQuery {
    open spec fn spec_from_json(j: JsonVal) -> Option<ListRepoCommentsQueryView> {
        match j {
            JsonVal::Obj(fs) => {
                if spec_field_rec::<CommentSortables>(fs, "sort"@) is None {
                    None
                } else if spec_field_rec::<SortDirection>(fs, "direction"@) is None {
                    None
                } else if spec_field_time(fs, "since"@) is None {
                    None
                } else {
                    Some(
                        ListRepoCommentsQueryView {
                            sort: spec_field_rec::<CommentSortables>(fs, "sort"@).unwrap(),
                            direction: spec_field_rec::<SortDirection>(fs, "direction"@).unwrap(),
                            since: spec_field_time(fs, "since"@).unwrap(),
                        },
                    )
                }
            },
            _ => None,
        }
    }

    fn from_json(v: &JsonValue) -> (r: Result<Self, String>) {
        match v {
            JsonValue::Obj(fs) => {
                proof {
                    lemma_view_obj_of(v);
                }
                let sort = match field_rec::<CommentSortables>(fs, "sort") {
                    Ok(x) => x,
                    Err(e) => {
                        return Err(e);
                    },
                };
                let direction = match field_rec::<SortDirection>(fs, "direction") {
                    Ok(x) => x,
                    Err(e) => {
                        return Err(e);
                    },
                };
                let since = match field_time(fs, "since") {
                    Ok(x) => x,
                    Err(e) => {
                        return Err(e);
                    },
                };
                Ok(
                    ListRepoCommentsQuery {
                        sort,
                        direction,
                        since,
                    },
                )
            },
            _ => Err(String::from_str("expected an object")),
        }
    }
}

impl JsonEncode for ListRepoCommentsQuery {
    open spec fn spec_to_json(&self) -> Option<JsonVal> {
        if self.since.spec_valid() {
            Some(JsonVal::Obj(
                seq![
                    ("sort"@, self.sort.spec_to_json().unwrap()),
                    ("direction"@, self.direction.spec_to_json().unwrap()),
                    ("since"@, JsonVal::Str(spec_format_tm(self.since))),
                ],
            ))
        } else {
            None
        }
    }

    fn to_json(&self) -> (r: Result<JsonValue, String>) {
        let mut fs: Vec<(String, JsonValue)> = Vec::new();
        let sort = match self.sort.to_json() {
            Ok(j) => j,
            Err(e) => {
                return Err(e);
            },
        };
        fs.push((String::from_str("sort"), sort));
        let direction = match self.direction.to_json() {
            Ok(j) => j,
            Err(e) => {
                return Err(e);
            },
        };
        fs.push((String::from_str("direction"), direction));
        let since = match self.since.to_json() {
            Ok(j) => j,
            Err(e) => {
                return Err(e);
            },
        };
        fs.push((String::from_str("since"), since));
        proof {
            lemma_view_obj(fs);
            assert(seq_view_fields(fs@) =~= self.spec_to_json().unwrap()->Obj_0);
        }
        Ok(JsonValue::Obj(fs))
    }
}

impl JsonCodec for ListRepoCommentsQuery {
    proof fn lemma_codec_round_trip(&self) {
        reveal_with_fuel(spec_obj_get, 5);
        reveal_strlit("sort");
        reveal_strlit("direction");
        reveal_strlit("since");
        assert(("sort"@).len() == 4);
        assert(("direction"@).len() == 9);
        assert(("since"@).len() == 5);
        assert(("sort"@) != ("direction"@));
        assert(("sort"@) != ("since"@));
        assert(("direction"@) != ("since"@));
        self.sort.lemma_codec_round_trip();
        self.direction.lemma_codec_round_trip();
        self.since.lemma_codec_round_trip();
        if self.spec_to_json() is Some {
            let j = self.spec_to_json().unwrap();
            let fs = j->Obj_0;
            assert(fs.len() == 3);
            assert(wf_json(fs[0].1));
            assert(wf_json(fs[1].1));
            assert(wf_json(fs[2].1));
            assert(wf_json(j));
            assert(spec_obj_get(fs, "sort"@) == Some(fs[0].1));
            assert(spec_obj_get(fs, "direction"@) == Some(fs[1].1));
            assert(spec_obj_get(fs, "since"@) == Some(fs[2].1));
            assert(Self::spec_from_json(j) == Some(self.deep_view()));
        }
    }
}

/// The body sent when creating an issue comment.
#[derive(Debug, PartialEq, Clone)]
pub struct CreateComment {
    pub body: Message,
}

/// The model of `CreateComment`.
pub struct CreateCommentView {
    pub body: Seq<char>,
}

impl DeepView for CreateComment {
    type V = CreateCommentView;

    open spec fn deep_view(&self) -> CreateCommentView
    {
        CreateCommentView {
            body: self.body@,
        }
    }
}

impl JsonDecode for CreateComment {
    open spec fn spec_from_json(j: JsonVal) -> Option<CreateCommentView> {
        match j {
            JsonVal::Obj(fs) => {
                if spec_field_str(fs, "body"@) is None {
                    None
                } else {
                    Some(
                        CreateCommentView {
                            body: spec_field_str(fs, "body"@).unwrap(),
                        },
                    )
                }
            },
            _ => None,
        }
    }

    fn from_json(v: &JsonValue) -> (r: Result<Self, String>) {
        match v {
            JsonValue::Obj(fs) => {
                proof {
                    lemma_view_obj_of(v);
                }
                let body = match field_str(fs, "body") {
                    Ok(x) => x,
                    Err(e) => {
                        return Err(e);
                    },
                };
                Ok(
                    CreateComment {
                        body,
                    },
                )
            },
            _ => Err(String::from_str("expected an object")),
        }
    }
}

impl JsonEncode for CreateComment {
    open spec fn spec_to_json(&self) -> Option<JsonVal> {
        Some(JsonVal::Obj(
                seq![
                    ("body"@, JsonVal::Str(self.body@)),
                ],
            ))
    }

    fn to_json(&self) -> (r: Result<JsonValue, String>) {
        let mut fs: Vec<(String, JsonValue)> = Vec::new();
        fs.push((String::from_str("body"), JsonValue::Str(self.body.clone())));
        proof {
            lemma_view_obj(fs);
            assert(seq_view_fields(fs@) =~= self.spec_to_json().unwrap()->Obj_0);
        }
        Ok(JsonValue::Obj(fs))
    }
}

impl JsonCodec for CreateComment {
    proof fn lemma_codec_round_trip(&self) {
        reveal_with_fuel(spec_obj_get, 3);
        reveal_strlit("body");
        assert(("body"@).len() == 4);
        if self.spec_to_json() is Some {
            let j = self.spec_to_json().unwrap();
            let fs = j->Obj_0;
            assert(fs.len() == 1);
            assert(wf_json(fs[0].1));
            assert(wf_json(j));
            assert(spec_obj_get(fs, "body"@) == Some(fs[0].1));
            assert(Self::spec_from_json(j) == Some(self.deep_view()));
        }
    }
}

/// A comment on an issue.
#[derive(Debug, PartialEq, Clone)]
pub struct IssueComment {
    pub id: CommentId,
    pub url: Url,
    pub html_url: Url,
    pub body: Message,
    pub user: User,
    pub created_at: GitTm,
    pub updated_at: GitTm,
}

/// The model of `IssueComment`.
pub struct IssueCommentView {
    pub id: u32,
    pub url: Seq<char>,
    pub html_url: Seq<char>,
    pub body: Seq<char>,
    pub user: UserView,
    pub created_at: GitTm,
    pub updated_at: GitTm,
}

impl DeepView for IssueComment {
    type V = IssueCommentView;

    open spec fn deep_view(&self) -> IssueCommentView
    {
        IssueCommentView {
            id: self.id,
            url: self.url@,
            html_url: self.html_url@,
            body: self.body@,
            user: self.user.deep_view(),
            created_at: self.created_at,
            updated_at: self.updated_at,
        }
    }
}

impl JsonDecode for IssueComment {
    open spec fn spec_from_json(j: JsonVal) -> Option<IssueCommentView> {
        match j {
            JsonVal::Obj(fs) => {
                if spec_field_u32(fs, "id"@) is None {
                    None
                } else if spec_field_str(fs, "url"@) is None {
                    None
                } else if spec_field_str(fs, "html_url"@) is None {
                    None
                } else if spec_field_str(fs, "body"@) is None {
                    None
                } else if spec_field_rec::<User>(fs, "user"@) is None {
                    None
                } else if spec_field_time(fs, "created_at"@) is None {
                    None
                } else if spec_field_time(fs, "updated_at"@) is None {
                    None
                } else {
                    Some(
                        IssueCommentView {
                            id: spec_field_u32(fs, "id"@).unwrap(),
                            url: spec_field_str(fs, "url"@).unwrap(),
                            html_url: spec_field_str(fs, "html_url"@).unwrap(),
                            body: spec_field_str(fs, "body"@).unwrap(),
                            user: spec_field_rec::<User>(fs, "user"@).unwrap(),
                            created_at: spec_field_time(fs, "created_at"@).unwrap(),
                            updated_at: spec_field_time(fs, "updated_at"@).unwrap(),
                        },
                    )
                }
            },
            _ => None,
        }
    }

    fn from_json(v: &JsonValue) -> (r: Result<Self, String>) {
        match v {
            JsonValue::Obj(fs) => {
                proof {
                    lemma_view_obj_of(v);
                }
                let id = match field_u32(fs, "id") {
                    Ok(x) => x,
                    Err(e) => {
                        return Err(e);
                    },
                };
                let url = match field_str(fs, "url") {
                    Ok(x) => x,
                    Err(e) => {
                        return Err(e);
                    },
                };
                let html_url = match field_str(fs, "html_url") {
                    Ok(x) => x,
                    Err(e) => {
                        return Err(e);
                    },
                };
                let body = match field_str(fs, "body") {
                    Ok(x) => x,
                    Err(e) => {
                        return Err(e);
                    },
                };
                let user = match field_rec::<User>(fs, "user") {
                    Ok(x) => x,
                    Err(e) => {
                        return Err(e);
                    },
                };
                let created_at = match field_time(fs, "created_at") {
                    Ok(x) => x,
                    Err(e) => {
                        return Err(e);
                    },
                };
                let updated_at = match field_time(fs, "updated_at") {
                    Ok(x) => x,
                    Err(e) => {
                        return Err(e);
                    },
                };
                Ok(
                    IssueComment {
                        id,
                        url,
                        html_url,
                        body,
                        user,
                        created_at,
                        updated_at,
                    },
                )
            },
            _ => Err(String::from_str("expected an object")),
        }
    }
}

/// The comments of one issue.
pub open spec fn spec_issue_comments(owner: Seq<char>, repo_name: Seq<char>, issue_id: u32) -> Seq<
    char,
> {
    spec_repo_at(owner, repo_name) + "/issues/"@ + spec_digits(issue_id as nat) + "/comments"@
}

/// The issue comments of a whole repository.
pub open spec fn spec_issue_comments_for_repo(owner: Seq<char>, repo_name: Seq<char>) -> Seq<
    char,
> {
    spec_repo_at(owner, repo_name) + "/issues/comments"@
}

/// The comments of one issue.
pub fn issue_comments(repo: &Repository, issue_id: &IssueId) -> (r: Url)
    ensures
        r@ == spec_issue_comments(repo.owner@, repo.repo_name@, *issue_id),
{
    repo_at(repo).concat("/issues/").concat(u32_to_string(*issue_id).as_str()).concat("/comments")
}

/// The issue comments of a whole repository.
pub fn issue_comments_for_repo(repo: &Repository) -> (r: Url)
    ensures
        r@ == spec_issue_comments_for_repo(repo.owner@, repo.repo_name@),
{
    repo_at(repo).concat("/issues/comments")
}

/// One issue comment.
pub fn issue_comment_at(repo: &Repository, comment_id: &CommentId) -> (r: Url)
    ensures
        r@ == spec_issue_comments_for_repo(repo.owner@, repo.repo_name@) + "/"@ + spec_digits(
            *comment_id as nat,
        ),
{
    issue_comments_for_repo(repo).concat("/").concat(u32_to_string(*comment_id).as_str())
}

/// The issue comment operations: thin facades that pick a path and a verb
/// and run the typed request executor.
pub trait IssueCommenter {
    fn list_in_issue(
        &self,
        repo: Repository,
        issue_id: IssueId,
        query: Option<ListIssueCommentsQuery>,
    ) -> (r: Result<Vec<IssueComment>, GitErr>)
        ensures
            (match query {
                Some(q) => q.spec_to_json() is None,
                None => false,
            }) <==> r matches Err(GitErr::EncodeErr(_)),
            r matches Ok(d) ==> exists|b: Seq<char>|
                #[trigger] spec_decode_body::<Vec<IssueComment>>(b) == Some(d.deep_view()),
            !(r matches Err(GitErr::NotImplemented(_))),
    ;

    fn list_in_repo(&self, repo: Repository, query: Option<ListRepoCommentsQuery>) -> (r: Result<
        Vec<IssueComment>,
        GitErr,
    >)
        ensures
            (match query {
                Some(q) => q.spec_to_json() is None,
                None => false,
            }) <==> r matches Err(GitErr::EncodeErr(_)),
            r matches Ok(d) ==> exists|b: Seq<char>|
                #[trigger] spec_decode_body::<Vec<IssueComment>>(b) == Some(d.deep_view()),
            !(r matches Err(GitErr::NotImplemented(_))),
    ;

    fn get_comment(&self, repo: Repository, comment_id: CommentId) -> (r: Result<
        IssueComment,
        GitErr,
    >)
        ensures
            r matches Ok(d) ==> exists|b: Seq<char>|
                #[trigger] spec_decode_body::<IssueComment>(b) == Some(d.deep_view()),
            !(r matches Err(GitErr::EncodeErr(_))),
            !(r matches Err(GitErr::NotImplemented(_))),
    ;

    fn create_comment(&self, repo: Repository, issue_id: IssueId, details: CreateComment) -> (r:
        Result<IssueComment, GitErr>)
        ensures
            r matches Ok(d) ==> exists|b: Seq<char>|
                #[trigger] spec_decode_body::<IssueComment>(b) == Some(d.deep_view()),
            !(r matches Err(GitErr::EncodeErr(_))),
            !(r matches Err(GitErr::NotImplemented(_))),
    ;

    fn edit_comment(&self, repo: Repository, comment_id: CommentId, details: EditComment) -> (r:
        Result<IssueComment, GitErr>)
        ensures
            r matches Ok(d) ==> exists|b: Seq<char>|
                #[trigger] spec_decode_body::<IssueComment>(b) == Some(d.deep_view()),
            !(r matches Err(GitErr::EncodeErr(_))),
            !(r matches Err(GitErr::NotImplemented(_))),
    ;

    /// A deliberate stub: deleting an issue comment is not implemented, and
    /// the call always says so, whatever its input.
    fn delete_comment(&self, repo: Repository, comment_id: CommentId) -> (r: Result<
        DeleteCommentStatus,
        GitErr,
    >)
        ensures
            r matches Err(e) && e matches GitErr::NotImplemented(m) && m@
                == "IssueCommenter#delete_comment"@,
    ;
}

impl<C: SimpleClient> IssueCommenter for C {
    fn list_in_issue(
        &self,
        repo: Repository,
        issue_id: IssueId,
        query: Option<ListIssueCommentsQuery>,
    ) -> (r: Result<Vec<IssueComment>, GitErr>) {
        let url = issue_comments(&repo, &issue_id);
        match query {
            Some(query) => self.request_with_payload::<Vec<IssueComment>, ListIssueCommentsQuery>(
                Method::Get,
                url,
                query,
            ),
            None => self.request_without_payload::<Vec<IssueComment>>(Method::Get, url),
        }
    }

    fn list_in_repo(&self, repo: Repository, query: Option<ListRepoCommentsQuery>) -> (r: Result<
        Vec<IssueComment>,
        GitErr,
    >) {
        let url = issue_comments_for_repo(&repo);
        match query {
            Some(query) => self.request_with_payload::<Vec<IssueComment>, ListRepoCommentsQuery>(
                Method::Get,
                url,
                query,
            ),
            None => self.request_without_payload::<Vec<IssueComment>>(Method::Get, url),
        }
    }

    fn get_comment(&self, repo: Repository, comment_id: CommentId) -> (r: Result<
        IssueComment,
        GitErr,
    >) {
        let url = issue_comment_at(&repo, &comment_id);
        self.request_without_payload::<IssueComment>(Method::Get, url)
    }

    fn create_comment(&self, repo: Repository, issue_id: IssueId, details: CreateComment) -> (r:
        Result<IssueComment, GitErr>) {
        let url = issue_comments(&repo, &issue_id);
        self.request_with_payload::<IssueComment, CreateComment>(Method::Post, url, details)
    }

    fn edit_comment(&self, repo: Repository, comment_id: CommentId, details: EditComment) -> (r:
        Result<IssueComment, GitErr>) {
        let url = issue_comment_at(&repo, &comment_id);
        self.request_with_payload::<IssueComment, EditComment>(Method::Post, url, details)
    }

    fn delete_comment(&self, repo: Repository, comment_id: CommentId) -> (r: Result<
        DeleteCommentStatus,
        GitErr,
    >) {
        Err(GitErr::NotImplemented(String::from_str("IssueCommenter#delete_comment")))
    }
}

} // verus!
