//! Review (commit) comment records, queries, resource locators and
//! operations.

use vstd::prelude::*;

use crate::codec::{field_i32, field_opt_rec, field_rec, field_str, field_u32, spec_decode_body,
    spec_field_i32, spec_field_opt_rec, spec_field_rec, spec_field_str, spec_field_u32,
    spec_obj_get, JsonCodec, JsonDecode, JsonEncode};
use crate::errors::GitErr;
use crate::github_client::{Method, SimpleClient};
use crate::gittm::{field_opt_time, field_time, spec_field_opt_time, spec_field_time,
    spec_format_tm, GitTm};
use crate::json::{lemma_view_obj, lemma_view_obj_of, seq_view_fields, wf_json, JsonVal, JsonValue};
use crate::pull_requests::{pull_request_at, pull_requests, spec_pull_request_at,
    spec_pull_requests, PullRequestId, PullRequestReference};
use crate::text::{spec_digits, u32_to_string};
use crate::types::{Message, Repository, Sha, SortDirection, Url};
use crate::users::{User, UserView};

verus! {

broadcast use vstd::seq::group_seq_axioms, vstd::std_specs::vec::group_vec_axioms;

pub type CommentId = u32;

/// The details sent when commenting on a commit; the same shape creates a
/// review comment.
pub type CreateCommitComment = CreateComment;

/// Whether a deletion took place.
#[derive(Debug, PartialEq, Eq, Structural, Clone, Copy)]
pub enum DeleteCommentStatus {
    Deleted,
    NotDeleted,
}

/// The orders a review comment listing can be sorted by.
#[derive(Debug, PartialEq, Eq, Structural, Clone, Copy)]
pub enum PullRequestCommentSortable {
    Created,
    Updated,
}

impl DeepView for PullRequestCommentSortable {
    type V = PullRequestCommentSortable;

    open spec fn deep_view(&self) -> PullRequestCommentSortable {
        *self
    }
}

impl JsonEncode for PullRequestCommentSortable {
    open spec fn spec_to_json(&self) -> Option<JsonVal> {
        match self {
            PullRequestCommentSortable::Created => Some(JsonVal::Str("created"@)),
            PullRequestCommentSortable::Updated => Some(JsonVal::Str("updated"@)),
        }
    }

    fn to_json(&self) -> (r: Result<JsonValue, String>) {
        match self {
            PullRequestCommentSortable::Created => Ok(JsonValue::Str(String::from_str("created"))),
            PullRequestCommentSortable::Updated => Ok(JsonValue::Str(String::from_str("updated"))),
        }
    }
}

impl JsonDecode for PullRequestCommentSortable {
    open spec fn spec_from_json(j: JsonVal) -> Option<PullRequestCommentSortable> {
        match j {
            JsonVal::Str(s) => {
                if s == "created"@ {
                    Some(PullRequestCommentSortable::Created)
                } else if s == "updated"@ {
                    Some(PullRequestCommentSortable::Updated)
                } else {
                    None
                }
            },
            _ => None,
        }
    }

    fn from_json(v: &JsonValue) -> (r: Result<Self, String>) {
        match v {
            JsonValue::Str(s) => {
                if *s == String::from_str("created") {
                    Ok(PullRequestCommentSortable::Created)
                } else if *s == String::from_str("updated") {
                    Ok(PullRequestCommentSortable::Updated)
                } else {
                    Err(String::from_str("no matching item"))
                }
            },
            _ => Err(String::from_str("no matching item")),
        }
    }
}

impl JsonCodec for PullRequestCommentSortable {
    proof fn lemma_codec_round_trip(&self) {
        reveal_strlit("created");
        reveal_strlit("updated");
        assert(("created"@).len() == 7);
        assert(("updated"@).len() == 7);
        assert(("created"@)[0] == 'c');
        assert(("updated"@)[0] == 'u');
        assert(("created"@) != ("updated"@));
    }
}

/// A review comment on a pull request.
#[derive(Debug, PartialEq, Clone)]
pub struct PullRequestComment {
    pub url: Url,
    pub id: u32,
    pub diff_hunk: String,
    pub path: String,
    pub position: i32,
    pub original_position: i32,
    pub commit_id: Sha,
    pub original_commit_id: Sha,
    pub user: User,
    pub body: Message,
    pub created_at: GitTm,
    pub updated_at: GitTm,
    pub html_url: Url,
    pub pull_request_url: Url,
}

/// The model of `PullRequestComment`.
pub struct PullRequestCommentView {
    pub url: Seq<char>,
    pub id: u32,
    pub diff_hunk: Seq<char>,
    pub path: Seq<char>,
    pub position: i32,
    pub original_position: i32,
    pub commit_id: Seq<char>,
    pub original_commit_id: Seq<char>,
    pub user: UserView,
    pub body: Seq<char>,
    pub created_at: GitTm,
    pub updated_at: GitTm,
    pub html_url: Seq<char>,
    pub pull_request_url: Seq<char>,
}

impl DeepView for PullRequestComment {
    type V = PullRequestCommentView;

    open spec fn deep_view(&self) -> PullRequestCommentView
    {
        PullRequestCommentView {
            url: self.url@,
            id: self.id,
            diff_hunk: self.diff_hunk@,
            path: self.path@,
            position: self.position,
            original_position: self.original_position,
            commit_id: self.commit_id@,
            original_commit_id: self.original_commit_id@,
            user: self.user.deep_view(),
            body: self.body@,
            created_at: self.created_at,
            updated_at: self.updated_at,
            html_url: self.html_url@,
            pull_request_url: self.pull_request_url@,
        }
    }
}

impl JsonDecode for PullRequestComment {
    open spec fn spec_from_json(j: JsonVal) -> Option<PullRequestCommentView> {
        match j {
            JsonVal::Obj(fs) => {
                if spec_field_str(fs, "url"@) is None {
                    None
                } else if spec_field_u32(fs, "id"@) is None {
                    None
                } else if spec_field_str(fs, "diff_hunk"@) is None {
                    None
                } else if spec_field_str(fs, "path"@) is None {
                    None
                } else if spec_field_i32(fs, "position"@) is None {
                    None
                } else if spec_field_i32(fs, "original_position"@) is None {
                    None
                } else if spec_field_str(fs, "commit_id"@) is None {
                    None
                } else if spec_field_str(fs, "original_commit_id"@) is None {
                    None
                } else if spec_field_rec::<User>(fs, "user"@) is None {
                    None
                } else if spec_field_str(fs, "body"@) is None {
                    None
                } else if spec_field_time(fs, "created_at"@) is None {
                    None
                } else if spec_field_time(fs, "updated_at"@) is None {
                    None
                } else if spec_field_str(fs, "html_url"@) is None {
                    None
                } else if spec_field_str(fs, "pull_request_url"@) is None {
                    None
                } else {
                    Some(
                        PullRequestCommentView {
                            url: spec_field_str(fs, "url"@).unwrap(),
                            id: spec_field_u32(fs, "id"@).unwrap(),
                            diff_hunk: spec_field_str(fs, "diff_hunk"@).unwrap(),
                            path: spec_field_str(fs, "path"@).unwrap(),
                            position: spec_field_i32(fs, "position"@).unwrap(),
                            original_position: spec_field_i32(fs, "original_position"@).unwrap(),
                            commit_id: spec_field_str(fs, "commit_id"@).unwrap(),
                            original_commit_id: spec_field_str(fs, "original_commit_id"@).unwrap(),
                            user: spec_field_rec::<User>(fs, "user"@).unwrap(),
                            body: spec_field_str(fs, "body"@).unwrap(),
                            created_at: spec_field_time(fs, "created_at"@).unwrap(),
                            updated_at: spec_field_time(fs, "updated_at"@).unwrap(),
                            html_url: spec_field_str(fs, "html_url"@).unwrap(),
                            pull_request_url: spec_field_str(fs, "pull_request_url"@).unwrap(),
                        },
                    )
                }
            },
            _ => None,
        }
    }

    fn from_json(v: &JsonValue) -> (r: Result<Self, String>) {
        match v {
            JsonValue::Obj(fs) => {
                proof {
                    lemma_view_obj_of(v);
                }
                let url = match field_str(fs, "url") {
                    Ok(x) => x,
                    Err(e) => {
                        return Err(e);
                    },
                };
                let id = match field_u32(fs, "id") {
                    Ok(x) => x,
                    Err(e) => {
                        return Err(e);
                    },
                };
                let diff_hunk = match field_str(fs, "diff_hunk") {
                    Ok(x) => x,
                    Err(e) => {
                        return Err(e);
                    },
                };
                let path = match field_str(fs, "path") {
                    Ok(x) => x,
                    Err(e) => {
                        return Err(e);
                    },
                };
                let position = match field_i32(fs, "position") {
                    Ok(x) => x,
                    Err(e) => {
                        return Err(e);
                    },
                };
                let original_position = match field_i32(fs, "original_position") {
                    Ok(x) => x,
                    Err(e) => {
                        return Err(e);
                    },
                };
                let commit_id = match field_str(fs, "commit_id") {
                    Ok(x) => x,
                    Err(e) => {
                        return Err(e);
                    },
                };
                let original_commit_id = match field_str(fs, "original_commit_id") {
                    Ok(x) => x,
                    Err(e) => {
                        return Err(e);
                    },
                };
                let user = match field_rec::<User>(fs, "user") {
                    Ok(x) => x,
                    Err(e) => {
                        return Err(e);
                    },
                };
                let body = match field_str(fs, "body") {
                    Ok(x) => x,
                    Err(e) => {
                        return Err(e);
                    },
                };
                let created_at = match field_time(fs, "created_at") {
                    Ok(x) => x,
                    Err(e) => {
                        return Err(e);
                    },
                };
                let updated_at = match field_time(fs, "updated_at") {
                    Ok(x) => x,
                    Err(e) => {
                        return Err(e);
                    },
                };
                let html_url = match field_str(fs, "html_url") {
                    Ok(x) => x,
                    Err(e) => {
                        return Err(e);
                    },
                };
                let pull_request_url = match field_str(fs, "pull_request_url") {
                    Ok(x) => x,
                    Err(e) => {
                        return Err(e);
                    },
                };
                Ok(
                    PullRequestComment {
                        url,
                        id,
                        diff_hunk,
                        path,
                        position,
                        original_position,
                        commit_id,
                        original_commit_id,
                        user,
                        body,
                        created_at,
                        updated_at,
                        html_url,
                        pull_request_url,
                    },
                )
            },
            _ => Err(String::from_str("expected an object")),
        }
    }
}

/// The filter sent when listing review comments.
#[derive(Debug, PartialEq, Clone)]
pub struct PullRequestCommentQuery {
    pub sort: Option<PullRequestCommentSortable>,
    pub direction: Option<SortDirection>,
    pub since: Option<GitTm>,
}

/// The model of `PullRequestCommentQuery`.
pub struct PullRequestCommentQueryView {
    pub sort: Option<PullRequestCommentSortable>,
    pub direction: Option<SortDirection>,
    pub since: Option<GitTm>,
}

impl DeepView for PullRequestCommentQuery {
    type V = PullRequestCommentQueryView;

    open spec fn deep_view(&self) -> PullRequestCommentQueryView
    {
        PullRequestCommentQueryView {
            sort: self.sort,
            direction: self.direction,
            since: self.since,
        }
    }
}

impl JsonDecode for PullRequestCommentQuery {
    open spec fn spec_from_json(j: JsonVal) -> Option<PullRequestCommentQueryView> {
        match j {
            JsonVal::Obj(fs) => {
                if spec_field_opt_rec::<PullRequestCommentSortable>(fs, "sort"@) is None {
                    None
                } else if spec_field_opt_rec::<SortDirection>(fs, "direction"@) is None {
                    None
                } else if spec_field_opt_time(fs, "since"@) is None {
                    None
                } else {
                    Some(
                        PullRequestCommentQueryView {
                            sort: spec_field_opt_rec::<PullRequestCommentSortable>(fs, "sort"@).unwrap(),
                            direction: spec_field_opt_rec::<SortDirection>(fs, "direction"@).unwrap(),
                            since: spec_field_opt_time(fs, "since"@).unwrap(),
                        },
                    )
                }
            },
            _ => None,
        }
    }

    fn from_json(v: &JsonValue) -> (r: Result<Self, String>) {
        match v {
            JsonValue::Obj(fs) => {
                proof {
                    lemma_view_obj_of(v);
                }
                let sort = match field_opt_rec::<PullRequestCommentSortable>(fs, "sort") {
                    Ok(x) => x,
                    Err(e) => {
                        return Err(e);
                    },
                };
                let direction = match field_opt_rec::<SortDirection>(fs, "direction") {
                    Ok(x) => x,
                    Err(e) => {
                        return Err(e);
                    },
                };
                let since = match field_opt_time(fs, "since") {
                    Ok(x) => x,
                    Err(e) => {
                        return Err(e);
                    },
                };
                Ok(
                    PullRequestCommentQuery {
                        sort,
                        direction,
                        since,
                    },
                )
            },
            _ => Err(String::from_str("expected an object")),
        }
    }
}

impl JsonEncode for PullRequestCommentQuery {
    open spec fn spec_to_json(&self) -> Option<JsonVal> {
        if (match self.since {
            Some(t) => t.spec_valid(),
            None => true,
        }) {
            Some(JsonVal::Obj(
                seq![
                    ("sort"@, match self.sort {
                            Some(v) => v.spec_to_json().unwrap(),
                            None => JsonVal::Null,
                        }),
                    ("direction"@, match self.direction {
                            Some(v) => v.spec_to_json().unwrap(),
                            None => JsonVal::Null,
                        }),
                    ("since"@, match self.since {
                            Some(t) => JsonVal::Str(spec_format_tm(t)),
                            None => JsonVal::Null,
                        }),
                ],
            ))
        } else {
            None
        }
    }

    fn to_json(&self) -> (r: Result<JsonValue, String>) {
        let mut fs: Vec<(String, JsonValue)> = Vec::new();
        let sort = match &self.sort {
            Some(v) => match v.to_json() {
                Ok(j) => j,
                Err(e) => {
                    return Err(e);
                },
            },
            None => JsonValue::Null,
        };
        fs.push((String::from_str("sort"), sort));
        let direction = match &self.direction {
            Some(v) => match v.to_json() {
                Ok(j) => j,
                Err(e) => {
                    return Err(e);
                },
            },
            None => JsonValue::Null,
        };
        fs.push((String::from_str("direction"), direction));
        let since = match &self.since {
            Some(v) => match v.to_json() {
                Ok(j) => j,
                Err(e) => {
                    return Err(e);
                },
            },
            None => JsonValue::Null,
        };
        fs.push((String::from_str("since"), since));
        proof {
            lemma_view_obj(fs);
            assert(seq_view_fields(fs@) =~= self.spec_to_json().unwrap()->Obj_0);
        }
        Ok(JsonValue::Obj(fs))
    }
}

impl JsonCodec for PullRequestCommentQuery {
    #[verifier::rlimit(100)]
    #[verifier::spinoff_prover]
    proof fn lemma_codec_round_trip(&self) {
        reveal_with_fuel(spec_obj_get, 5);
        reveal_strlit("sort");
        reveal_strlit("direction");
        reveal_strlit("since");
        assert(("sort"@).len() == 4);
        assert(("direction"@).len() == 9);
        assert(("since"@).len() == 5);
        assert(("sort"@) != ("direction"@));
        assert(("sort"@) != ("since"@));
        assert(("direction"@) != ("since"@));
        match self.sort {
            Some(v) => v.lemma_codec_round_trip(),
            None => {},
        }
        match self.direction {
            Some(v) => v.lemma_codec_round_trip(),
            None => {},
        }
        match self.since {
            Some(t) => t.lemma_codec_round_trip(),
            None => {},
        }
        if self.spec_to_json() is Some {
            let j = self.spec_to_json().unwrap();
            let fs = j->Obj_0;
            assert(fs.len() == 3);
            assert(wf_json(fs[0].1));
            assert(wf_json(fs[1].1));
            assert(wf_json(fs[2].1));
            assert(wf_json(j));
            assert(spec_obj_get(fs, "sort"@) == Some(fs[0].1));
            assert(spec_obj_get(fs, "direction"@) == Some(fs[1].1));
            assert(spec_obj_get(fs, "since"@) == Some(fs[2].1));
            assert(Self::spec_from_json(j) == Some(self.deep_view()));
        }
    }
}

/// The details sent when creating a review comment.
#[derive(Debug, PartialEq, Clone)]
pub struct CreateComment {
    pub body: Message,
    pub commit_id: Sha,
    pub path: String,
    pub position: u32,
}

/// The model of `CreateComment`.
pub struct CreateCommentView {
    pub body: Seq<char>,
    pub commit_id: Seq<char>,
    pub path: Seq<char>,
    pub position: u32,
}

impl DeepView for CreateComment {
    type V = CreateCommentView;

    open spec fn deep_view(&self) -> CreateCommentView
    {
        CreateCommentView {
            body: self.body@,
            commit_id: self.commit_id@,
            path: self.path@,
            position: self.position,
        }
    }
}

impl JsonDecode for CreateComment {
    open spec fn spec_from_json(j: JsonVal) -> Option<CreateCommentView> {
        match j {
            JsonVal::Obj(fs) => {
                if spec_field_str(fs, "body"@) is None {
                    None
                } else if spec_field_str(fs, "commit_id"@) is None {
                    None
                } else if spec_field_str(fs, "path"@) is None {
                    None
                } else if spec_field_u32(fs, "position"@) is None {
                    None
                } else {
                    Some(
                        CreateCommentView {
                            body: spec_field_str(fs, "body"@).unwrap(),
                            commit_id: spec_field_str(fs, "commit_id"@).unwrap(),
                            path: spec_field_str(fs, "path"@).unwrap(),
                            position: spec_field_u32(fs, "position"@).unwrap(),
                        },
                    )
                }
            },
            _ => None,
        }
    }

    fn from_json(v: &JsonValue) -> (r: Result<Self, String>) {
        match v {
            JsonValue::Obj(fs) => {
                proof {
                    lemma_view_obj_of(v);
                }
                let body = match field_str(fs, "body") {
                    Ok(x) => x,
                    Err(e) => {
                        return Err(e);
                    },
                };
                let commit_id = match field_str(fs, "commit_id") {
                    Ok(x) => x,
                    Err(e) => {
                        return Err(e);
                    },
                };
                let path = match field_str(fs, "path") {
                    Ok(x) => x,
                    Err(e) => {
                        return Err(e);
                    },
                };
                let position = match field_u32(fs, "position") {
                    Ok(x) => x,
                    Err(e) => {
                        return Err(e);
                    },
                };
                Ok(
                    CreateComment {
                        body,
                        commit_id,
                        path,
                        position,
                    },
                )
            },
            _ => Err(String::from_str("expected an object")),
        }
    }
}

impl JsonEncode for CreateComment {
    open spec fn spec_to_json(&self) -> Option<JsonVal> {
        Some(JsonVal::Obj(
                seq![
                    ("body"@, JsonVal::Str(self.body@)),
                    ("commit_id"@, JsonVal::Str(self.commit_id@)),
                    ("path"@, JsonVal::Str(self.path@)),
                    ("position"@, JsonVal::Int(self.position as int)),
                ],
            ))
    }

    fn to_json(&self) -> (r: Result<JsonValue, String>) {
        let mut fs: Vec<(String, JsonValue)> = Vec::new();
        fs.push((String::from_str("body"), JsonValue::Str(self.body.clone())));
        fs.push((String::from_str("commit_id"), JsonValue::Str(self.commit_id.clone())));
        fs.push((String::from_str("path"), JsonValue::Str(self.path.clone())));
        fs.push((String::from_str("position"), JsonValue::Int(self.position as i64)));
        proof {
            lemma_view_obj(fs);
            assert(seq_view_fields(fs@) =~= self.spec_to_json().unwrap()->Obj_0);
        }
        Ok(JsonValue::Obj(fs))
    }
}

impl JsonCodec for CreateComment {
    proof fn lemma_codec_round_trip(&self) {
        reveal_with_fuel(spec_obj_get, 6);
        reveal_strlit("body");
        reveal_strlit("commit_id");
        reveal_strlit("path");
        reveal_strlit("position");
        assert(("body"@).len() == 4);
        assert(("commit_id"@).len() == 9);
        assert(("path"@).len() == 4);
        assert(("position"@).len() == 8);
        assert(("body"@) != ("commit_id"@));
        assert(("body"@)[0] == 'b');
        assert(("path"@)[0] == 'p');
        assert(("body"@) != ("path"@));
        assert(("body"@) != ("position"@));
        assert(("commit_id"@) != ("path"@));
        assert(("commit_id"@) != ("position"@));
        assert(("path"@) != ("position"@));
        if self.spec_to_json() is Some {
            let j = self.spec_to_json().unwrap();
            let fs = j->Obj_0;
            assert(fs.len() == 4);
            assert(wf_json(fs[0].1));
            assert(wf_json(fs[1].1));
            assert(wf_json(fs[2].1));
            assert(wf_json(fs[3].1));
            assert(wf_json(j));
            assert(spec_obj_get(fs, "body"@) == Some(fs[0].1));
            assert(spec_obj_get(fs, "commit_id"@) == Some(fs[1].1));
            assert(spec_obj_get(fs, "path"@) == Some(fs[2].1));
            assert(spec_obj_get(fs, "position"@) == Some(fs[3].1));
            assert(Self::spec_from_json(j) == Some(self.deep_view()));
        }
    }
}

/// The details sent when replying to a review comment.
#[derive(Debug, PartialEq, Clone)]
pub struct ReplyComment {
    pub body: Message,
    pub in_reply_to: CommentId,
}

/// The model of `ReplyComment`.
pub struct ReplyCommentView {
    pub body: Seq<char>,
    pub in_reply_to: u32,
}

impl DeepView for ReplyComment {
    type V = ReplyCommentView;

    open spec fn deep_view(&self) -> ReplyCommentView
    {
        ReplyCommentView {
            body: self.body@,
            in_reply_to: self.in_reply_to,
        }
    }
}

impl JsonDecode for ReplyComment {
    open spec fn spec_from_json(j: JsonVal) -> Option<ReplyCommentView> {
        match j {
            JsonVal::Obj(fs) => {
                if spec_field_str(fs, "body"@) is None {
                    None
                } else if spec_field_u32(fs, "in_reply_to"@) is None {
                    None
                } else {
                    Some(
                        ReplyCommentView {
                            body: spec_field_str(fs, "body"@).unwrap(),
                            in_reply_to: spec_field_u32(fs, "in_reply_to"@).unwrap(),
                        },
                    )
                }
            },
            _ => None,
        }
    }

    fn from_json(v: &JsonValue) -> (r: Result<Self, String>) {
        match v {
            JsonValue::Obj(fs) => {
                proof {
                    lemma_view_obj_of(v);
                }
                let body = match field_str(fs, "body") {
                    Ok(x) => x,
                    Err(e) => {
                        return Err(e);
                    },
                };
                let in_reply_to = match field_u32(fs, "in_reply_to") {
                    Ok(x) => x,
                    Err(e) => {
                        return Err(e);
                    },
                };
                Ok(
                    ReplyComment {
                        body,
                        in_reply_to,
                    },
                )
            },
            _ => Err(String::from_str("expected an object")),
        }
    }
}

impl JsonEncode for ReplyComment {
    open spec fn spec_to_json(&self) -> Option<JsonVal> {
        Some(JsonVal::Obj(
                seq![
                    ("body"@, JsonVal::Str(self.body@)),
                    ("in_reply_to"@, JsonVal::Int(self.in_reply_to as int)),
                ],
            ))
    }

    fn to_json(&self) -> (r: Result<JsonValue, String>) {
        let mut fs: Vec<(String, JsonValue)> = Vec::new();
        fs.push((String::from_str("body"), JsonValue::Str(self.body.clone())));
        fs.push((String::from_str("in_reply_to"), JsonValue::Int(self.in_reply_to as i64)));
        proof {
            lemma_view_obj(fs);
            assert(seq_view_fields(fs@) =~= self.spec_to_json().unwrap()->Obj_0);
        }
        Ok(JsonValue::Obj(fs))
    }
}

impl JsonCodec for ReplyComment {
    proof fn lemma_codec_round_trip(&self) {
        reveal_with_fuel(spec_obj_get, 4);
        reveal_strlit("body");
        reveal_strlit("in_reply_to");
        assert(("body"@).len() == 4);
        assert(("in_reply_to"@).len() == 11);
        assert(("body"@) != ("in_reply_to"@));
        if self.spec_to_json() is Some {
            let j = self.spec_to_json().unwrap();
            let fs = j->Obj_0;
            assert(fs.len() == 2);
            assert(wf_json(fs[0].1));
            assert(wf_json(fs[1].1));
            assert(wf_json(j));
            assert(spec_obj_get(fs, "body"@) == Some(fs[0].1));
            assert(spec_obj_get(fs, "in_reply_to"@) == Some(fs[1].1));
            assert(Self::spec_from_json(j) == Some(self.deep_view()));
        }
    }
}

/// The new body sent when editing a review comment.
#[derive(Debug, PartialEq, Clone)]
pub struct EditComment {
    pub body: Message,
}

/// The model of `EditComment`.
pub struct EditCommentView {
    pub body: Seq<char>,
}

impl DeepView for EditComment {
    type V = EditCommentView;

    open spec fn deep_view(&self) -> EditCommentView
    {
        EditCommentView {
            body: self.body@,
        }
    }
}

impl JsonDecode for EditComment {
    open spec fn spec_from_json(j: JsonVal) -> Option<EditCommentView> {
        match j {
            JsonVal::Obj(fs) => {
                if spec_field_str(fs, "body"@) is None {
                    None
                } else {
                    Some(
                        EditCommentView {
                            body: spec_field_str(fs, "body"@).unwrap(),
                        },
                    )
                }
            },
            _ => None,
        }
    }

    fn from_json(v: &JsonValue) -> (r: Result<Self, String>) {
        match v {
            JsonValue::Obj(fs) => {
                proof {
                    lemma_view_obj_of(v);
                }
                let body = match field_str(fs, "body") {
                    Ok(x) => x,
                    Err(e) => {
                        return Err(e);
                    },
                };
                Ok(
                    EditComment {
                        body,
                    },
                )
            },
            _ => Err(String::from_str("expected an object")),
        }
    }
}

impl JsonEncode for EditComment {
    open spec fn spec_to_json(&self) -> Option<JsonVal> {
        Some(JsonVal::Obj(
                seq![
                    ("body"@, JsonVal::Str(self.body@)),
                ],
            ))
    }

    fn to_json(&self) -> (r: Result<JsonValue, String>) {
        let mut fs: Vec<(String, JsonValue)> = Vec::new();
        fs.push((String::from_str("body"), JsonValue::Str(self.body.clone())));
        proof {
            lemma_view_obj(fs);
            assert(seq_view_fields(fs@) =~= self.spec_to_json().unwrap()->Obj_0);
        }
        Ok(JsonValue::Obj(fs))
    }
}

impl JsonCodec for EditComment {
    proof fn lemma_codec_round_trip(&self) {
        reveal_with_fuel(spec_obj_get, 3);
        reveal_strlit("body");
        assert(("body"@).len() == 4);
        if self.spec_to_json() is Some {
            let j = self.spec_to_json().unwrap();
            let fs = j->Obj_0;
            assert(fs.len() == 1);
            assert(wf_json(fs[0].1));
            assert(wf_json(j));
            assert(spec_obj_get(fs, "body"@) == Some(fs[0].1));
            assert(Self::spec_from_json(j) == Some(self.deep_view()));
        }
    }
}

/// The review comments of one pull request.
pub fn pull_request_comments(repo: &Repository, pr_id: &PullRequestId) -> (r: Url)
    ensures
        r@ == spec_pull_request_at(repo.owner@, repo.repo_name@, *pr_id) + "/comments"@,
{
    pull_request_at(repo, pr_id).concat("/comments")
}

/// The review comments of a whole repository.
pub fn all_pull_request_comments(repo: &Repository) -> (r: Url)
    ensures
        r@ == spec_pull_requests(repo.owner@, repo.repo_name@) + "/comments"@,
{
    pull_requests(repo).concat("/comments")
}

/// One review comment.
pub fn pull_request_comment_at(repo: &Repository, comment_id: &CommentId) -> (r: Url)
    ensures
        r@ == spec_pull_requests(repo.owner@, repo.repo_name@) + "/comments"@ + "/"@ + spec_digits(
            *comment_id as nat,
        ),
{
    all_pull_request_comments(repo).concat("/").concat(u32_to_string(*comment_id).as_str())
}

/// The review comment operations: thin facades that pick a path and a verb
/// and run the typed request executor.
pub trait CommitCommenter {
    fn list_comments(&self, pull_request: PullRequestReference) -> (r: Result<
        Vec<PullRequestComment>,
        GitErr,
    >)
        ensures
            r matches Ok(d) ==> exists|b: Seq<char>|
                #[trigger] spec_decode_body::<Vec<PullRequestComment>>(b) == Some(d.deep_view()),
            !(r matches Err(GitErr::EncodeErr(_))),
            !(r matches Err(GitErr::NotImplemented(_))),
    ;

    fn list_all_pull_request_comments(&self, repo: Repository, query: PullRequestCommentQuery) -> (r:
        Result<Vec<PullRequestComment>, GitErr>)
        ensures
            query.spec_to_json() is None <==> r matches Err(GitErr::EncodeErr(_)),
            r matches Ok(d) ==> exists|b: Seq<char>|
                #[trigger] spec_decode_body::<Vec<PullRequestComment>>(b) == Some(d.deep_view()),
            !(r matches Err(GitErr::NotImplemented(_))),
    ;

    fn get_single_comment(&self, repo: Repository, comment_id: CommentId) -> (r: Result<
        PullRequestComment,
        GitErr,
    >)
        ensures
            r matches Ok(d) ==> exists|b: Seq<char>|
                #[trigger] spec_decode_body::<PullRequestComment>(b) == Some(d.deep_view()),
            !(r matches Err(GitErr::EncodeErr(_))),
            !(r matches Err(GitErr::NotImplemented(_))),
    ;

    fn create_comment(&self, pull_request: PullRequestReference, comment_details: CreateComment) -> (r:
        Result<PullRequestComment, GitErr>)
        ensures
            r matches Ok(d) ==> exists|b: Seq<char>|
                #[trigger] spec_decode_body::<PullRequestComment>(b) == Some(d.deep_view()),
            !(r matches Err(GitErr::EncodeErr(_))),
            !(r matches Err(GitErr::NotImplemented(_))),
    ;

    fn create_comment_reply(&self, pull_request: PullRequestReference, comment_details: ReplyComment) -> (r:
        Result<PullRequestComment, GitErr>)
        ensures
            r matches Ok(d) ==> exists|b: Seq<char>|
                #[trigger] spec_decode_body::<PullRequestComment>(b) == Some(d.deep_view()),
            !(r matches Err(GitErr::EncodeErr(_))),
            !(r matches Err(GitErr::NotImplemented(_))),
    ;

    fn edit_comment(&self, repo: Repository, comment_id: CommentId, body: EditComment) -> (r:
        Result<PullRequestComment, GitErr>)
        ensures
            r matches Ok(d) ==> exists|b: Seq<char>|
                #[trigger] spec_decode_body::<PullRequestComment>(b) == Some(d.deep_view()),
            !(r matches Err(GitErr::EncodeErr(_))),
            !(r matches Err(GitErr::NotImplemented(_))),
    ;

    /// A deliberate stub: deleting a review comment is not implemented, and
    /// the call always says so, whatever its input.
    fn delete_comment(&self, repo: Repository, comment_id: CommentId) -> (r: Result<
        DeleteCommentStatus,
        GitErr,
    >)
        ensures
            r matches Err(e) && e matches GitErr::NotImplemented(m) && m@
                == "CommitCommenter#delete_comment"@,
    ;
}

impl<C: SimpleClient> CommitCommenter for C {
    fn list_comments(&self, pull_request: PullRequestReference) -> (r: Result<
        Vec<PullRequestComment>,
        GitErr,
    >) {
        let url = pull_request_comments(&pull_request.repo, &pull_request.pull_request_id);
        self.request_without_payload::<Vec<PullRequestComment>>(Method::Get, url)
    }

    fn list_all_pull_request_comments(&self, repo: Repository, query: PullRequestCommentQuery) -> (r:
        Result<Vec<PullRequestComment>, GitErr>) {
        let url = all_pull_request_comments(&repo);
        self.request_with_payload::<Vec<PullRequestComment>, PullRequestCommentQuery>(
            Method::Get,
            url,
            query,
        )
    }

    fn get_single_comment(&self, repo: Repository, comment_id: CommentId) -> (r: Result<
        PullRequestComment,
        GitErr,
    >) {
        let url = pull_request_comment_at(&repo, &comment_id);
        self.request_without_payload::<PullRequestComment>(Method::Get, url)
    }

    fn create_comment(&self, pull_request: PullRequestReference, comment_details: CreateComment) -> (r:
        Result<PullRequestComment, GitErr>) {
        let url = pull_request_comments(&pull_request.repo, &pull_request.pull_request_id);
        self.request_with_payload::<PullRequestComment, CreateComment>(
            Method::Patch,
            url,
            comment_details,
        )
    }

    fn create_comment_reply(&self, pull_request: PullRequestReference, comment_details: ReplyComment) -> (r:
        Result<PullRequestComment, GitErr>) {
        let url = pull_request_comments(&pull_request.repo, &pull_request.pull_request_id);
        self.request_with_payload::<PullRequestComment, ReplyComment>(
            Method::Patch,
            url,
            comment_details,
        )
    }

    fn edit_comment(&self, repo: Repository, comment_id: CommentId, body: EditComment) -> (r:
        Result<PullRequestComment, GitErr>) {
        let url = pull_request_comment_at(&repo, &comment_id);
        self.request_with_payload::<PullRequestComment, EditComment>(Method::Patch, url, body)
    }

    fn delete_comment(&self, repo: Repository, comment_id: CommentId) -> (r: Result<
        DeleteCommentStatus,
        GitErr,
    >) {
        Err(GitErr::NotImplemented(String::from_str("CommitCommenter#delete_comment")))
    }
}

} // verus!
