//! Pull request records, queries, resource locators and operations.

use vstd::prelude::*;

use crate::codec::{field_bool, field_opt_rec, field_opt_str, field_rec, field_str, field_u32,
    field_i32, spec_decode_body, spec_field_bool, spec_field_i32, spec_field_opt_rec,
    spec_field_opt_str, spec_field_rec, spec_field_str, spec_field_u32, spec_obj_get, JsonCodec,
    JsonDecode, JsonEncode};
use crate::commits::{Commit, CommitView, GithubCommit};
use crate::errors::GitErr;
use crate::github_client::{Method, SimpleClient};
use crate::gittm::{field_opt_time, field_time, spec_field_opt_time, spec_field_time,
    spec_format_tm, GitTm};
use crate::json::{lemma_view_obj, lemma_view_obj_of, seq_view_fields, wf_json, JsonVal, JsonValue};
use crate::repos::{opt_str_json, opt_str_value, spec_repo_at, repo_at};
use crate::text::{spec_digits, u32_to_string};
use crate::types::{BranchName, Filename, HeadQuery, IssueId, MergeRequest, MergedResult,
    MergedStatus, Message, Repository, Sha, SortDirection, Url};
use crate::users::{GithubUser, GithubUserView};

verus! {

broadcast use vstd::seq::group_seq_axioms, vstd::std_specs::vec::group_vec_axioms;

pub type PullRequestId = u32;

pub type PullRequestTitle = String;

pub type CommentId = u32;

/// Whether a pull request is open or closed.
#[derive(Debug, PartialEq, Eq, Structural, Clone, Copy)]
pub enum PullRequestState {
    Open,
    Closed,
}

impl DeepView for PullRequestState {
    type V = PullRequestState;

    open spec fn deep_view(&self) -> PullRequestState {
        *self
    }
}

impl JsonEncode for PullRequestState {
    open spec fn spec_to_json(&self) -> Option<JsonVal> {
        match self {
            PullRequestState::Open => Some(JsonVal::Str("open"@)),
            PullRequestState::Closed => Some(JsonVal::Str("closed"@)),
        }
    }

    fn to_json(&self) -> (r: Result<JsonValue, String>) {
        match self {
            PullRequestState::Open => Ok(JsonValue::Str(String::from_str("open"))),
            PullRequestState::Closed => Ok(JsonValue::Str(String::from_str("closed"))),
        }
    }
}

impl JsonDecode for PullRequestState {
    open spec fn spec_from_json(j: JsonVal) -> Option<PullRequestState> {
        match j {
            JsonVal::Str(s) => {
                if s == "open"@ {
                    Some(PullRequestState::Open)
                } else if s == "closed"@ {
                    Some(PullRequestState::Closed)
                } else {
                    None
                }
            },
            _ => None,
        }
    }

    fn from_json(v: &JsonValue) -> (r: Result<Self, String>) {
        match v {
            JsonValue::Str(s) => {
                if *s == String::from_str("open") {
                    Ok(PullRequestState::Open)
                } else if *s == String::from_str("closed") {
                    Ok(PullRequestState::Closed)
                } else {
                    Err(String::from_str("no matching item"))
                }
            },
            _ => Err(String::from_str("no matching item")),
        }
    }
}

impl JsonCodec for PullRequestState {
    proof fn lemma_codec_round_trip(&self) {
        reveal_with_fuel(spec_obj_get, 4);
        reveal_strlit("open");
        reveal_strlit("closed");
        assert(("open"@).len() == 4);
        assert(("closed"@).len() == 6);
        assert(("open"@) != ("closed"@));
    }
}
/// Which pull requests a listing covers.
#[derive(Debug, PartialEq, Eq, Structural, Clone, Copy)]
pub enum PullRequestStateQuery {
    Open,
    Closed,
    All,
}

impl DeepView for PullRequestStateQuery {
    type V = PullRequestStateQuery;

    open spec fn deep_view(&self) -> PullRequestStateQuery {
        *self
    }
}

impl JsonEncode for PullRequestStateQuery {
    open spec fn spec_to_json(&self) -> Option<JsonVal> {
        match self {
            PullRequestStateQuery::Open => Some(JsonVal::Str("open"@)),
            PullRequestStateQuery::Closed => Some(JsonVal::Str("closed"@)),
            PullRequestStateQuery::All => Some(JsonVal::Str("all"@)),
        }
    }

    fn to_json(&self) -> (r: Result<JsonValue, String>) {
        match self {
            PullRequestStateQuery::Open => Ok(JsonValue::Str(String::from_str("open"))),
            PullRequestStateQuery::Closed => Ok(JsonValue::Str(String::from_str("closed"))),
            PullRequestStateQuery::All => Ok(JsonValue::Str(String::from_str("all"))),
        }
    }
}

impl JsonDecode for PullRequestStateQuery {
    open spec fn spec_from_json(j: JsonVal) -> Option<PullRequestStateQuery> {
        match j {
            JsonVal::Str(s) => {
                if s == "open"@ {
                    Some(PullRequestStateQuery::Open)
                } else if s == "closed"@ {
                    Some(PullRequestStateQuery::Closed)
                } else if s == "all"@ {
                    Some(PullRequestStateQuery::All)
                } else {
                    None
                }
            },
            _ => None,
        }
    }

    fn from_json(v: &JsonValue) -> (r: Result<Self, String>) {
        match v {
            JsonValue::Str(s) => {
                if *s == String::from_str("open") {
                    Ok(PullRequestStateQuery::Open)
                } else if *s == String::from_str("closed") {
                    Ok(PullRequestStateQuery::Closed)
                } else if *s == String::from_str("all") {
                    Ok(PullRequestStateQuery::All)
                } else {
                    Err(String::from_str("no matching item"))
                }
            },
            _ => Err(String::from_str("no matching item")),
        }
    }
}

impl JsonCodec for PullRequestStateQuery {
    proof fn lemma_codec_round_trip(&self) {
        reveal_with_fuel(spec_obj_get, 5);
        reveal_strlit("open");
        reveal_strlit("closed");
        reveal_strlit("all");
        assert(("open"@).len() == 4);
        assert(("closed"@).len() == 6);
        assert(("all"@).len() == 3);
        assert(("open"@) != ("closed"@));
        assert(("open"@) != ("all"@));
        assert(("closed"@) != ("all"@));
    }
}
/// The orders a pull request listing can be sorted by.
#[derive(Debug, PartialEq, Eq, Structural, Clone, Copy)]
pub enum PullRequestSortables {
    CreatedAt,
    UpdatedAt,
    CommentCount,
    LongRunning,
}

impl DeepView for PullRequestSortables {
    type V = PullRequestSortables;

    open spec fn deep_view(&self) -> PullRequestSortables {
        *self
    }
}

impl JsonEncode for PullRequestSortables {
    open spec fn spec_to_json(&self) -> Option<JsonVal> {
        match self {
            PullRequestSortables::CreatedAt => Some(JsonVal::Str("created"@)),
            PullRequestSortables::UpdatedAt => Some(JsonVal::Str("updated"@)),
            PullRequestSortables::CommentCount => Some(JsonVal::Str("popularity"@)),
            PullRequestSortables::LongRunning => Some(JsonVal::Str("long-running"@)),
        }
    }

    fn to_json(&self) -> (r: Result<JsonValue, String>) {
        match self {
            PullRequestSortables::CreatedAt => Ok(JsonValue::Str(String::from_str("created"))),
            PullRequestSortables::UpdatedAt => Ok(JsonValue::Str(String::from_str("updated"))),
            PullRequestSortables::CommentCount => Ok(JsonValue::Str(String::from_str("popularity"))),
            PullRequestSortables::LongRunning => Ok(JsonValue::Str(String::from_str("long-running"))),
        }
    }
}

impl JsonDecode for PullRequestSortables {
    open spec fn spec_from_json(j: JsonVal) -> Option<PullRequestSortables> {
        match j {
            JsonVal::Str(s) => {
                if s == "created"@ {
                    Some(PullRequestSortables::CreatedAt)
                } else if s == "updated"@ {
                    Some(PullRequestSortables::UpdatedAt)
                } else if s == "popularity"@ {
                    Some(PullRequestSortables::CommentCount)
                } else if s == "long-running"@ {
                    Some(PullRequestSortables::LongRunning)
                } else {
                    None
                }
            },
            _ => None,
        }
    }

    fn from_json(v: &JsonValue) -> (r: Result<Self, String>) {
        match v {
            JsonValue::Str(s) => {
                if *s == String::from_str("created") {
                    Ok(PullRequestSortables::CreatedAt)
                } else if *s == String::from_str("updated") {
                    Ok(PullRequestSortables::UpdatedAt)
                } else if *s == String::from_str("popularity") {
                    Ok(PullRequestSortables::CommentCount)
                } else if *s == String::from_str("long-running") {
                    Ok(PullRequestSortables::LongRunning)
                } else {
                    Err(String::from_str("no matching item"))
                }
            },
            _ => Err(String::from_str("no matching item")),
        }
    }
}

impl JsonCodec for PullRequestSortables {
    proof fn lemma_codec_round_trip(&self) {
        reveal_with_fuel(spec_obj_get, 6);
        reveal_strlit("created");
        reveal_strlit("updated");
        reveal_strlit("popularity");
        reveal_strlit("long-running");
        assert(("created"@).len() == 7);
        assert(("updated"@).len() == 7);
        assert(("popularity"@).len() == 10);
        assert(("long-running"@).len() == 12);
        assert(("created"@)[0] == 'c');
        assert(("updated"@)[0] == 'u');
        assert(("created"@) != ("updated"@));
        assert(("created"@) != ("popularity"@));
        assert(("created"@) != ("long-running"@));
        assert(("updated"@) != ("popularity"@));
        assert(("updated"@) != ("long-running"@));
        assert(("popularity"@) != ("long-running"@));
    }
}

/// The filter sent when listing pull requests.
#[derive(Debug, PartialEq, Clone)]
pub struct PullRequestQuery {
    pub state: Option<PullRequestStateQuery>,
    pub head: Option<HeadQuery>,
    pub base: Option<BranchName>,
    pub sort: Option<PullRequestSortables>,
    pub direction: Option<SortDirection>,
}

/// The model of `PullRequestQuery`.
pub struct PullRequestQueryView {
    pub state: Option<PullRequestStateQuery>,
    pub head: Option<Seq<char>>,
    pub base: Option<Seq<char>>,
    pub sort: Option<PullRequestSortables>,
    pub direction: Option<SortDirection>,
}

impl DeepView for PullRequestQuery {
    type V = PullRequestQueryView;

    open spec fn deep_view(&self) -> PullRequestQueryView
    {
        PullRequestQueryView {
            state: self.state,
            head: self.head.deep_view(),
            base: self.base.deep_view(),
            sort: self.sort,
            direction: self.direction,
        }
    }
}

impl JsonDecode for PullRequestQuery {
    open spec fn spec_from_json(j: JsonVal) -> Option<PullRequestQueryView> {
        match j {
            JsonVal::Obj(fs) => {
                if spec_field_opt_rec::<PullRequestStateQuery>(fs, "state"@) is None {
                    None
                } else if spec_field_opt_str(fs, "head"@) is None {
                    None
                } else if spec_field_opt_str(fs, "base"@) is None {
                    None
                } else if spec_field_opt_rec::<PullRequestSortables>(fs, "sort"@) is None {
                    None
                } else if spec_field_opt_rec::<SortDirection>(fs, "direction"@) is None {
                    None
                } else {
                    Some(
                        PullRequestQueryView {
                            state: spec_field_opt_rec::<PullRequestStateQuery>(fs, "state"@).unwrap(),
                            head: spec_field_opt_str(fs, "head"@).unwrap(),
                            base: spec_field_opt_str(fs, "base"@).unwrap(),
                            sort: spec_field_opt_rec::<PullRequestSortables>(fs, "sort"@).unwrap(),
                            direction: spec_field_opt_rec::<SortDirection>(fs, "direction"@).unwrap(),
                        },
                    )
                }
            },
            _ => None,
        }
    }

    fn from_json(v: &JsonValue) -> (r: Result<Self, String>) {
        match v {
            JsonValue::Obj(fs) => {
                proof {
                    lemma_view_obj_of(v);
                }
                let state = match field_opt_rec::<PullRequestStateQuery>(fs, "state") {
                    Ok(x) => x,
                    Err(e) => {
                        return Err(e);
                    },
                };
                let head = match field_opt_str(fs, "head") {
                    Ok(x) => x,
                    Err(e) => {
                        return Err(e);
                    },
                };
                let base = match field_opt_str(fs, "base") {
                    Ok(x) => x,
                    Err(e) => {
                        return Err(e);
                    },
                };
                let sort = match field_opt_rec::<PullRequestSortables>(fs, "sort") {
                    Ok(x) => x,
                    Err(e) => {
                        return Err(e);
                    },
                };
                let direction = match field_opt_rec::<SortDirection>(fs, "direction") {
                    Ok(x) => x,
                    Err(e) => {
                        return Err(e);
                    },
                };
                Ok(
                    PullRequestQuery {
                        state,
                        head,
                        base,
                        sort,
                        direction,
                    },
                )
            },
            _ => Err(String::from_str("expected an object")),
        }
    }
}

impl JsonEncode for PullRequestQuery {
    open spec fn spec_to_json(&self) -> Option<JsonVal> {
        Some(JsonVal::Obj(
                seq![
                    ("state"@, match self.state {
                            Some(v) => v.spec_to_json().unwrap(),
                            None => JsonVal::Null,
                        }),
                    ("head"@, opt_str_json(self.head)),
                    ("base"@, opt_str_json(self.base)),
                    ("sort"@, match self.sort {
                            Some(v) => v.spec_to_json().unwrap(),
                            None => JsonVal::Null,
                        }),
                    ("direction"@, match self.direction {
                            Some(v) => v.spec_to_json().unwrap(),
                            None => JsonVal::Null,
                        }),
                ],
            ))
    }

    fn to_json(&self) -> (r: Result<JsonValue, String>) {
        let mut fs: Vec<(String, JsonValue)> = Vec::new();
        let state = match &self.state {
            Some(v) => match v.to_json() {
                Ok(j) => j,
                Err(e) => {
                    return Err(e);
                },
            },
            None => JsonValue::Null,
        };
        fs.push((String::from_str("state"), state));
        fs.push((String::from_str("head"), opt_str_value(&self.head)));
        fs.push((String::from_str("base"), opt_str_value(&self.base)));
        let sort = match &self.sort {
            Some(v) => match v.to_json() {
                Ok(j) => j,
                Err(e) => {
                    return Err(e);
                },
            },
            None => JsonValue::Null,
        };
        fs.push((String::from_str("sort"), sort));
        let direction = match &self.direction {
            Some(v) => match v.to_json() {
                Ok(j) => j,
                Err(e) => {
                    return Err(e);
                },
            },
            None => JsonValue::Null,
        };
        fs.push((String::from_str("direction"), direction));
        proof {
            lemma_view_obj(fs);
            assert(seq_view_fields(fs@) =~= self.spec_to_json().unwrap()->Obj_0);
        }
        Ok(JsonValue::Obj(fs))
    }
}

impl JsonCodec for PullRequestQuery {
    proof fn lemma_codec_round_trip(&self) {
        reveal_with_fuel(spec_obj_get, 7);
        reveal_strlit("state");
        reveal_strlit("head");
        reveal_strlit("base");
        reveal_strlit("sort");
        reveal_strlit("direction");
        assert(("state"@).len() == 5);
        assert(("head"@).len() == 4);
        assert(("base"@).len() == 4);
        assert(("sort"@).len() == 4);
        assert(("direction"@).len() == 9);
        assert(("state"@) != ("head"@));
        assert(("state"@) != ("base"@));
        assert(("state"@) != ("sort"@));
        assert(("state"@) != ("direction"@));
        assert(("head"@)[0] == 'h');
        assert(("base"@)[0] == 'b');
        assert(("head"@) != ("base"@));
        assert(("head"@)[0] == 'h');
        assert(("sort"@)[0] == 's');
        assert(("head"@) != ("sort"@));
        assert(("head"@) != ("direction"@));
        assert(("base"@)[0] == 'b');
        assert(("sort"@)[0] == 's');
        assert(("base"@) != ("sort"@));
        assert(("base"@) != ("direction"@));
        assert(("sort"@) != ("direction"@));
        match self.state {
            Some(v) => v.lemma_codec_round_trip(),
            None => {},
        }
        match self.sort {
            Some(v) => v.lemma_codec_round_trip(),
            None => {},
        }
        match self.direction {
            Some(v) => v.lemma_codec_round_trip(),
            None => {},
        }
        if self.spec_to_json() is Some {
            let j = self.spec_to_json().unwrap();
            let fs = j->Obj_0;
            assert(fs.len() == 5);
            assert(wf_json(fs[0].1));
            assert(wf_json(fs[1].1));
            assert(wf_json(fs[2].1));
            assert(wf_json(fs[3].1));
            assert(wf_json(fs[4].1));
            assert(wf_json(j));
            assert(spec_obj_get(fs, "state"@) == Some(fs[0].1));
            assert(spec_obj_get(fs, "head"@) == Some(fs[1].1));
            assert(spec_obj_get(fs, "base"@) == Some(fs[2].1));
            assert(spec_obj_get(fs, "sort"@) == Some(fs[3].1));
            assert(spec_obj_get(fs, "direction"@) == Some(fs[4].1));
            assert(Self::spec_from_json(j) == Some(self.deep_view()));
        }
    }
}

/// The changes sent when updating a pull request.
#[derive(Debug, PartialEq, Clone)]
pub struct PullRequestUpdate {
    pub title: Option<PullRequestTitle>,
    pub body: Option<Message>,
    pub state: Option<PullRequestState>,
}

/// The model of `PullRequestUpdate`.
pub struct PullRequestUpdateView {
    pub title: Option<Seq<char>>,
    pub body: Option<Seq<char>>,
    pub state: Option<PullRequestState>,
}

impl DeepView for PullRequestUpdate {
    type V = PullRequestUpdateView;

    open spec fn deep_view(&self) -> PullRequestUpdateView
    {
        PullRequestUpdateView {
            title: self.title.deep_view(),
            body: self.body.deep_view(),
            state: self.state,
        }
    }
}

impl JsonDecode for PullRequestUpdate {
    open spec fn spec_from_json(j: JsonVal) -> Option<PullRequestUpdateView> {
        match j {
            JsonVal::Obj(fs) => {
                if spec_field_opt_str(fs, "title"@) is None {
                    None
                } else if spec_field_opt_str(fs, "body"@) is None {
                    None
                } else if spec_field_opt_rec::<PullRequestState>(fs, "state"@) is None {
                    None
                } else {
                    Some(
                        PullRequestUpdateView {
                            title: spec_field_opt_str(fs, "title"@).unwrap(),
                            body: spec_field_opt_str(fs, "body"@).unwrap(),
                            state: spec_field_opt_rec::<PullRequestState>(fs, "state"@).unwrap(),
                        },
                    )
                }
            },
            _ => None,
        }
    }

    fn from_json(v: &JsonValue) -> (r: Result<Self, String>) {
        match v {
            JsonValue::Obj(fs) => {
                proof {
                    lemma_view_obj_of(v);
                }
                let title = match field_opt_str(fs, "title") {
                    Ok(x) => x,
                    Err(e) => {
                        return Err(e);
                    },
                };
                let body = match field_opt_str(fs, "body") {
                    Ok(x) => x,
                    Err(e) => {
                        return Err(e);
                    },
                };
                let state = match field_opt_rec::<PullRequestState>(fs, "state") {
                    Ok(x) => x,
                    Err(e) => {
                        return Err(e);
                    },
                };
                Ok(
                    PullRequestUpdate {
                        title,
                        body,
                        state,
                    },
                )
            },
            _ => Err(String::from_str("expected an object")),
        }
    }
}

impl JsonEncode for PullRequestUpdate {
    open spec fn spec_to_json(&self) -> Option<JsonVal> {
        Some(JsonVal::Obj(
                seq![
                    ("title"@, opt_str_json(self.title)),
                    ("body"@, opt_str_json(self.body)),
                    ("state"@, match self.state {
                            Some(v) => v.spec_to_json().unwrap(),
                            None => JsonVal::Null,
                        }),
                ],
            ))
    }

    fn to_json(&self) -> (r: Result<JsonValue, String>) {
        let mut fs: Vec<(String, JsonValue)> = Vec::new();
        fs.push((String::from_str("title"), opt_str_value(&self.title)));
        fs.push((String::from_str("body"), opt_str_value(&self.body)));
        let state = match &self.state {
            Some(v) => match v.to_json() {
                Ok(j) => j,
                Err(e) => {
                    return Err(e);
                },
            },
            None => JsonValue::Null,
        };
        fs.push((String::from_str("state"), state));
        proof {
            lemma_view_obj(fs);
            assert(seq_view_fields(fs@) =~= self.spec_to_json().unwrap()->Obj_0);
        }
        Ok(JsonValue::Obj(fs))
    }
}

impl JsonCodec for PullRequestUpdate {
    proof fn lemma_codec_round_trip(&self) {
        reveal_with_fuel(spec_obj_get, 5);
        reveal_strlit("title");
        reveal_strlit("body");
        reveal_strlit("state");
        assert(("title"@).len() == 5);
        assert(("body"@).len() == 4);
        assert(("state"@).len() == 5);
        assert(("title"@) != ("body"@));
        assert(("title"@)[0] == 't');
        assert(("state"@)[0] == 's');
        assert(("title"@) != ("state"@));
        assert(("body"@) != ("state"@));
        match self.state {
            Some(v) => v.lemma_codec_round_trip(),
            None => {},
        }
        if self.spec_to_json() is Some {
            let j = self.spec_to_json().unwrap();
            let fs = j->Obj_0;
            assert(fs.len() == 3);
            assert(wf_json(fs[0].1));
            assert(wf_json(fs[1].1));
            assert(wf_json(fs[2].1));
            assert(wf_json(j));
            assert(spec_obj_get(fs, "title"@) == Some(fs[0].1));
            assert(spec_obj_get(fs, "body"@) == Some(fs[1].1));
            assert(spec_obj_get(fs, "state"@) == Some(fs[2].1));
            assert(Self::spec_from_json(j) == Some(self.deep_view()));
        }
    }
}

/// The details sent when opening a pull request.
#[derive(Debug, PartialEq, Clone)]
pub struct CreatePullRequest {
    pub title: PullRequestTitle,
    pub head: HeadQuery,
    pub base: BranchName,
    pub body: Option<Message>,
}

/// The model of `CreatePullRequest`.
pub struct CreatePullRequestView {
    pub title: Seq<char>,
    pub head: Seq<char>,
    pub base: Seq<char>,
    pub body: Option<Seq<char>>,
}

impl DeepView for CreatePullRequest {
    type V = CreatePullRequestView;

    open spec fn deep_view(&self) -> CreatePullRequestView
    {
        CreatePullRequestView {
            title: self.title@,
            head: self.head@,
            base: self.base@,
            body: self.body.deep_view(),
        }
    }
}

impl JsonDecode for CreatePullRequest {
    open spec fn spec_from_json(j: JsonVal) -> Option<CreatePullRequestView> {
        match j {
            JsonVal::Obj(fs) => {
                if spec_field_str(fs, "title"@) is None {
                    None
                } else if spec_field_str(fs, "head"@) is None {
                    None
                } else if spec_field_str(fs, "base"@) is None {
                    None
                } else if spec_field_opt_str(fs, "body"@) is None {
                    None
                } else {
                    Some(
                        CreatePullRequestView {
                            title: spec_field_str(fs, "title"@).unwrap(),
                            head: spec_field_str(fs, "head"@).unwrap(),
                            base: spec_field_str(fs, "base"@).unwrap(),
                            body: spec_field_opt_str(fs, "body"@).unwrap(),
                        },
                    )
                }
            },
            _ => None,
        }
    }

    fn from_json(v: &JsonValue) -> (r: Result<Self, String>) {
        match v {
            JsonValue::Obj(fs) => {
                proof {
                    lemma_view_obj_of(v);
                }
                let title = match field_str(fs, "title") {
                    Ok(x) => x,
                    Err(e) => {
                        return Err(e);
                    },
                };
                let head = match field_str(fs, "head") {
                    Ok(x) => x,
                    Err(e) => {
                        return Err(e);
                    },
                };
                let base = match field_str(fs, "base") {
                    Ok(x) => x,
                    Err(e) => {
                        return Err(e);
                    },
                };
                let body = match field_opt_str(fs, "body") {
                    Ok(x) => x,
                    Err(e) => {
                        return Err(e);
                    },
                };
                Ok(
                    CreatePullRequest {
                        title,
                        head,
                        base,
                        body,
                    },
                )
            },
            _ => Err(String::from_str("expected an object")),
        }
    }
}

impl JsonEncode for CreatePullRequest {
    open spec fn spec_to_json(&self) -> Option<JsonVal> {
        Some(JsonVal::Obj(
                seq![
                    ("title"@, JsonVal::Str(self.title@)),
                    ("head"@, JsonVal::Str(self.head@)),
                    ("base"@, JsonVal::Str(self.base@)),
                    ("body"@, opt_str_json(self.body)),
                ],
            ))
    }

    fn to_json(&self) -> (r: Result<JsonValue, String>) {
        let mut fs: Vec<(String, JsonValue)> = Vec::new();
        fs.push((String::from_str("title"), JsonValue::Str(self.title.clone())));
        fs.push((String::from_str("head"), JsonValue::Str(self.head.clone())));
        fs.push((String::from_str("base"), JsonValue::Str(self.base.clone())));
        fs.push((String::from_str("body"), opt_str_value(&self.body)));
        proof {
            lemma_view_obj(fs);
            assert(seq_view_fields(fs@) =~= self.spec_to_json().unwrap()->Obj_0);
        }
        Ok(JsonValue::Obj(fs))
    }
}

impl JsonCodec for CreatePullRequest {
    proof fn lemma_codec_round_trip(&self) {
        reveal_with_fuel(spec_obj_get, 6);
        reveal_strlit("title");
        reveal_strlit("head");
        reveal_strlit("base");
        reveal_strlit("body");
        assert(("title"@).len() == 5);
        assert(("head"@).len() == 4);
        assert(("base"@).len() == 4);
        assert(("body"@).len() == 4);
        assert(("title"@) != ("head"@));
        assert(("title"@) != ("base"@));
        assert(("title"@) != ("body"@));
        assert(("head"@)[0] == 'h');
        assert(("base"@)[0] == 'b');
        assert(("head"@) != ("base"@));
        assert(("head"@)[0] == 'h');
        assert(("body"@)[0] == 'b');
        assert(("head"@) != ("body"@));
        assert(("base"@)[1] == 'a');
        assert(("body"@)[1] == 'o');
        assert(("base"@) != ("body"@));
        if self.spec_to_json() is Some {
            let j = self.spec_to_json().unwrap();
            let fs = j->Obj_0;
            assert(fs.len() == 4);
            assert(wf_json(fs[0].1));
            assert(wf_json(fs[1].1));
            assert(wf_json(fs[2].1));
            assert(wf_json(fs[3].1));
            assert(wf_json(j));
            assert(spec_obj_get(fs, "title"@) == Some(fs[0].1));
            assert(spec_obj_get(fs, "head"@) == Some(fs[1].1));
            assert(spec_obj_get(fs, "base"@) == Some(fs[2].1));
            assert(spec_obj_get(fs, "body"@) == Some(fs[3].1));
            assert(Self::spec_from_json(j) == Some(self.deep_view()));
        }
    }
}

/// The details sent when turning an issue into a pull request.
#[derive(Debug, PartialEq, Clone)]
pub struct CreatePullRequestFromIssue {
    pub head: HeadQuery,
    pub base: BranchName,
    pub issue: IssueId,
}

/// The model of `CreatePullRequestFromIssue`.
pub struct CreatePullRequestFromIssueView {
    pub head: Seq<char>,
    pub base: Seq<char>,
    pub issue: u32,
}

impl DeepView for CreatePullRequestFromIssue {
    type V = CreatePullRequestFromIssueView;

    open spec fn deep_view(&self) -> CreatePullRequestFromIssueView
    {
        CreatePullRequestFromIssueView {
            head: self.head@,
            base: self.base@,
            issue: self.issue,
        }
    }
}

impl JsonDecode for CreatePullRequestFromIssue {
    open spec fn spec_from_json(j: JsonVal) -> Option<CreatePullRequestFromIssueView> {
        match j {
            JsonVal::Obj(fs) => {
                if spec_field_str(fs, "head"@) is None {
                    None
                } else if spec_field_str(fs, "base"@) is None {
                    None
                } else if spec_field_u32(fs, "issue"@) is None {
                    None
                } else {
                    Some(
                        CreatePullRequestFromIssueView {
                            head: spec_field_str(fs, "head"@).unwrap(),
                            base: spec_field_str(fs, "base"@).unwrap(),
                            issue: spec_field_u32(fs, "issue"@).unwrap(),
                        },
                    )
                }
            },
            _ => None,
        }
    }

    fn from_json(v: &JsonValue) -> (r: Result<Self, String>) {
        match v {
            JsonValue::Obj(fs) => {
                proof {
                    lemma_view_obj_of(v);
                }
                let head = match field_str(fs, "head") {
                    Ok(x) => x,
                    Err(e) => {
                        return Err(e);
                    },
                };
                let base = match field_str(fs, "base") {
                    Ok(x) => x,
                    Err(e) => {
                        return Err(e);
                    },
                };
                let issue = match field_u32(fs, "issue") {
                    Ok(x) => x,
                    Err(e) => {
                        return Err(e);
                    },
                };
                Ok(
                    CreatePullRequestFromIssue {
                        head,
                        base,
                        issue,
                    },
                )
            },
            _ => Err(String::from_str("expected an object")),
        }
    }
}

impl JsonEncode for CreatePullRequestFromIssue {
    open spec fn spec_to_json(&self) -> Option<JsonVal> {
        Some(JsonVal::Obj(
                seq![
                    ("head"@, JsonVal::Str(self.head@)),
                    ("base"@, JsonVal::Str(self.base@)),
                    ("issue"@, JsonVal::Int(self.issue as int)),
                ],
            ))
    }

    fn to_json(&self) -> (r: Result<JsonValue, String>) {
        let mut fs: Vec<(String, JsonValue)> = Vec::new();
        fs.push((String::from_str("head"), JsonValue::Str(self.head.clone())));
        fs.push((String::from_str("base"), JsonValue::Str(self.base.clone())));
        fs.push((String::from_str("issue"), JsonValue::Int(self.issue as i64)));
        proof {
            lemma_view_obj(fs);
            assert(seq_view_fields(fs@) =~= self.spec_to_json().unwrap()->Obj_0);
        }
        Ok(JsonValue::Obj(fs))
    }
}

impl JsonCodec for CreatePullRequestFromIssue {
    proof fn lemma_codec_round_trip(&self) {
        reveal_with_fuel(spec_obj_get, 5);
        reveal_strlit("head");
        reveal_strlit("base");
        reveal_strlit("issue");
        assert(("head"@).len() == 4);
        assert(("base"@).len() == 4);
        assert(("issue"@).len() == 5);
        assert(("head"@)[0] == 'h');
        assert(("base"@)[0] == 'b');
        assert(("head"@) != ("base"@));
        assert(("head"@) != ("issue"@));
        assert(("base"@) != ("issue"@));
        if self.spec_to_json() is Some {
            let j = self.spec_to_json().unwrap();
            let fs = j->Obj_0;
            assert(fs.len() == 3);
            assert(wf_json(fs[0].1));
            assert(wf_json(fs[1].1));
            assert(wf_json(fs[2].1));
            assert(wf_json(j));
            assert(spec_obj_get(fs, "head"@) == Some(fs[0].1));
            assert(spec_obj_get(fs, "base"@) == Some(fs[1].1));
            assert(spec_obj_get(fs, "issue"@) == Some(fs[2].1));
            assert(Self::spec_from_json(j) == Some(self.deep_view()));
        }
    }
}

/// One changed file of a pull request.
#[derive(Debug, PartialEq, Clone)]
pub struct PullRequestFile {
    pub sha: Sha,
    pub filename: Filename,
    pub status: String,
    pub additions: u32,
    pub deletions: u32,
    pub changes: u32,
    pub blob_url: Url,
    pub raw_url: Url,
    pub contents_url: Url,
    pub patch: String,
}

/// The model of `PullRequestFile`.
pub struct PullRequestFileView {
    pub sha: Seq<char>,
    pub filename: Seq<char>,
    pub status: Seq<char>,
    pub additions: u32,
    pub deletions: u32,
    pub changes: u32,
    pub blob_url: Seq<char>,
    pub raw_url: Seq<char>,
    pub contents_url: Seq<char>,
    pub patch: Seq<char>,
}

impl DeepView for PullRequestFile {
    type V = PullRequestFileView;

    open spec fn deep_view(&self) -> PullRequestFileView
    {
        PullRequestFileView {
            sha: self.sha@,
            filename: self.filename@,
            status: self.status@,
            additions: self.additions,
            deletions: self.deletions,
            changes: self.changes,
            blob_url: self.blob_url@,
            raw_url: self.raw_url@,
            contents_url: self.contents_url@,
            patch: self.patch@,
        }
    }
}

impl JsonDecode for PullRequestFile {
    open spec fn spec_from_json(j: JsonVal) -> Option<PullRequestFileView> {
        match j {
            JsonVal::Obj(fs) => {
                if spec_field_str(fs, "sha"@) is None {
                    None
                } else if spec_field_str(fs, "filename"@) is None {
                    None
                } else if spec_field_str(fs, "status"@) is None {
                    None
                } else if spec_field_u32(fs, "additions"@) is None {
                    None
                } else if spec_field_u32(fs, "deletions"@) is None {
                    None
                } else if spec_field_u32(fs, "changes"@) is None {
                    None
                } else if spec_field_str(fs, "blob_url"@) is None {
                    None
                } else if spec_field_str(fs, "raw_url"@) is None {
                    None
                } else if spec_field_str(fs, "contents_url"@) is None {
                    None
                } else if spec_field_str(fs, "patch"@) is None {
                    None
                } else {
                    Some(
                        PullRequestFileView {
                            sha: spec_field_str(fs, "sha"@).unwrap(),
                            filename: spec_field_str(fs, "filename"@).unwrap(),
                            status: spec_field_str(fs, "status"@).unwrap(),
                            additions: spec_field_u32(fs, "additions"@).unwrap(),
                            deletions: spec_field_u32(fs, "deletions"@).unwrap(),
                            changes: spec_field_u32(fs, "changes"@).unwrap(),
                            blob_url: spec_field_str(fs, "blob_url"@).unwrap(),
                            raw_url: spec_field_str(fs, "raw_url"@).unwrap(),
                            contents_url: spec_field_str(fs, "contents_url"@).unwrap(),
                            patch: spec_field_str(fs, "patch"@).unwrap(),
                        },
                    )
                }
            },
            _ => None,
        }
    }

    fn from_json(v: &JsonValue) -> (r: Result<Self, String>) {
        match v {
            JsonValue::Obj(fs) => {
                proof {
                    lemma_view_obj_of(v);
                }
                let sha = match field_str(fs, "sha") {
                    Ok(x) => x,
                    Err(e) => {
                        return Err(e);
                    },
                };
                let filename = match field_str(fs, "filename") {
                    Ok(x) => x,
                    Err(e) => {
                        return Err(e);
                    },
                };
                let status = match field_str(fs, "status") {
                    Ok(x) => x,
                    Err(e) => {
                        return Err(e);
                    },
                };
                let additions = match field_u32(fs, "additions") {
                    Ok(x) => x,
                    Err(e) => {
                        return Err(e);
                    },
                };
                let deletions = match field_u32(fs, "deletions") {
                    Ok(x) => x,
                    Err(e) => {
                        return Err(e);
                    },
                };
                let changes = match field_u32(fs, "changes") {
                    Ok(x) => x,
                    Err(e) => {
                        return Err(e);
                    },
                };
                let blob_url = match field_str(fs, "blob_url") {
                    Ok(x) => x,
                    Err(e) => {
                        return Err(e);
                    },
                };
                let raw_url = match field_str(fs, "raw_url") {
                    Ok(x) => x,
                    Err(e) => {
                        return Err(e);
                    },
                };
                let contents_url = match field_str(fs, "contents_url") {
                    Ok(x) => x,
                    Err(e) => {
                        return Err(e);
                    },
                };
                let patch = match field_str(fs, "patch") {
                    Ok(x) => x,
                    Err(e) => {
                        return Err(e);
                    },
                };
                Ok(
                    PullRequestFile {
                        sha,
                        filename,
                        status,
                        additions,
                        deletions,
                        changes,
                        blob_url,
                        raw_url,
                        contents_url,
                        patch,
                    },
                )
            },
            _ => Err(String::from_str("expected an object")),
        }
    }
}

impl JsonEncode for PullRequestFile {
    open spec fn spec_to_json(&self) -> Option<JsonVal> {
        Some(JsonVal::Obj(
                seq![
                    ("sha"@, JsonVal::Str(self.sha@)),
                    ("filename"@, JsonVal::Str(self.filename@)),
                    ("status"@, JsonVal::Str(self.status@)),
                    ("additions"@, JsonVal::Int(self.additions as int)),
                    ("deletions"@, JsonVal::Int(self.deletions as int)),
                    ("changes"@, JsonVal::Int(self.changes as int)),
                    ("blob_url"@, JsonVal::Str(self.blob_url@)),
                    ("raw_url"@, JsonVal::Str(self.raw_url@)),
                    ("contents_url"@, JsonVal::Str(self.contents_url@)),
                    ("patch"@, JsonVal::Str(self.patch@)),
                ],
            ))
    }

    fn to_json(&self) -> (r: Result<JsonValue, String>) {
        let mut fs: Vec<(String, JsonValue)> = Vec::new();
        fs.push((String::from_str("sha"), JsonValue::Str(self.sha.clone())));
        fs.push((String::from_str("filename"), JsonValue::Str(self.filename.clone())));
        fs.push((String::from_str("status"), JsonValue::Str(self.status.clone())));
        fs.push((String::from_str("additions"), JsonValue::Int(self.additions as i64)));
        fs.push((String::from_str("deletions"), JsonValue::Int(self.deletions as i64)));
        fs.push((String::from_str("changes"), JsonValue::Int(self.changes as i64)));
        fs.push((String::from_str("blob_url"), JsonValue::Str(self.blob_url.clone())));
        fs.push((String::from_str("raw_url"), JsonValue::Str(self.raw_url.clone())));
        fs.push((String::from_str("contents_url"), JsonValue::Str(self.contents_url.clone())));
        fs.push((String::from_str("patch"), JsonValue::Str(self.patch.clone())));
        proof {
            lemma_view_obj(fs);
            assert(seq_view_fields(fs@) =~= self.spec_to_json().unwrap()->Obj_0);
        }
        Ok(JsonValue::Obj(fs))
    }
}

impl JsonCodec for PullRequestFile {
    proof fn lemma_codec_round_trip(&self) {
        reveal_with_fuel(spec_obj_get, 12);
        reveal_strlit("sha");
        reveal_strlit("filename");
        reveal_strlit("status");
        reveal_strlit("additions");
        reveal_strlit("deletions");
        reveal_strlit("changes");
        reveal_strlit("blob_url");
        reveal_strlit("raw_url");
        reveal_strlit("contents_url");
        reveal_strlit("patch");
        assert(("sha"@).len() == 3);
        assert(("filename"@).len() == 8);
        assert(("status"@).len() == 6);
        assert(("additions"@).len() == 9);
        assert(("deletions"@).len() == 9);
        assert(("changes"@).len() == 7);
        assert(("blob_url"@).len() == 8);
        assert(("raw_url"@).len() == 7);
        assert(("contents_url"@).len() == 12);
        assert(("patch"@).len() == 5);
        assert(("sha"@) != ("filename"@));
        assert(("sha"@) != ("status"@));
        assert(("sha"@) != ("additions"@));
        assert(("sha"@) != ("deletions"@));
        assert(("sha"@) != ("changes"@));
        assert(("sha"@) != ("blob_url"@));
        assert(("sha"@) != ("raw_url"@));
        assert(("sha"@) != ("contents_url"@));
        assert(("sha"@) != ("patch"@));
        assert(("filename"@) != ("status"@));
        assert(("filename"@) != ("additions"@));
        assert(("filename"@) != ("deletions"@));
        assert(("filename"@) != ("changes"@));
        assert(("filename"@)[0] == 'f');
        assert(("blob_url"@)[0] == 'b');
        assert(("filename"@) != ("blob_url"@));
        assert(("filename"@) != ("raw_url"@));
        assert(("filename"@) != ("contents_url"@));
        assert(("filename"@) != ("patch"@));
        assert(("status"@) != ("additions"@));
        assert(("status"@) != ("deletions"@));
        assert(("status"@) != ("changes"@));
        assert(("status"@) != ("blob_url"@));
        assert(("status"@) != ("raw_url"@));
        assert(("status"@) != ("contents_url"@));
        assert(("status"@) != ("patch"@));
        assert(("additions"@)[0] == 'a');
        assert(("deletions"@)[0] == 'd');
        assert(("additions"@) != ("deletions"@));
        assert(("additions"@) != ("changes"@));
        assert(("additions"@) != ("blob_url"@));
        assert(("additions"@) != ("raw_url"@));
        assert(("additions"@) != ("contents_url"@));
        assert(("additions"@) != ("patch"@));
        assert(("deletions"@) != ("changes"@));
        assert(("deletions"@) != ("blob_url"@));
        assert(("deletions"@) != ("raw_url"@));
        assert(("deletions"@) != ("contents_url"@));
        assert(("deletions"@) != ("patch"@));
        assert(("changes"@) != ("blob_url"@));
        assert(("changes"@)[0] == 'c');
        assert(("raw_url"@)[0] == 'r');
        assert(("changes"@) != ("raw_url"@));
        assert(("changes"@) != ("contents_url"@));
        assert(("changes"@) != ("patch"@));
        assert(("blob_url"@) != ("raw_url"@));
        assert(("blob_url"@) != ("contents_url"@));
        assert(("blob_url"@) != ("patch"@));
        assert(("raw_url"@) != ("contents_url"@));
        assert(("raw_url"@) != ("patch"@));
        assert(("contents_url"@) != ("patch"@));
        if self.spec_to_json() is Some {
            let j = self.spec_to_json().unwrap();
            let fs = j->Obj_0;
            assert(fs.len() == 10);
            assert(wf_json(fs[0].1));
            assert(wf_json(fs[1].1));
            assert(wf_json(fs[2].1));
            assert(wf_json(fs[3].1));
            assert(wf_json(fs[4].1));
            assert(wf_json(fs[5].1));
            assert(wf_json(fs[6].1));
            assert(wf_json(fs[7].1));
            assert(wf_json(fs[8].1));
            assert(wf_json(fs[9].1));
            assert(wf_json(j));
            assert(spec_obj_get(fs, "sha"@) == Some(fs[0].1));
            assert(spec_obj_get(fs, "filename"@) == Some(fs[1].1));
            assert(spec_obj_get(fs, "status"@) == Some(fs[2].1));
            assert(spec_obj_get(fs, "additions"@) == Some(fs[3].1));
            assert(spec_obj_get(fs, "deletions"@) == Some(fs[4].1));
            assert(spec_obj_get(fs, "changes"@) == Some(fs[5].1));
            assert(spec_obj_get(fs, "blob_url"@) == Some(fs[6].1));
            assert(spec_obj_get(fs, "raw_url"@) == Some(fs[7].1));
            assert(spec_obj_get(fs, "contents_url"@) == Some(fs[8].1));
            assert(spec_obj_get(fs, "patch"@) == Some(fs[9].1));
            assert(Self::spec_from_json(j) == Some(self.deep_view()));
        }
    }
}

/// A pull request record.
#[derive(Debug, PartialEq)]
pub struct PullRequest {
    pub id: PullRequestId,
    pub url: Url,
    pub html_url: Url,
    pub patch_url: Url,
    pub issue_url: Url,
    pub commits_url: Url,
    pub review_comments_url: Url,
    pub review_comment_url: Url,
    pub comments_url: Url,
    pub number: u32,
    pub state: PullRequestState,
    pub title: PullRequestTitle,
    pub body: Message,
    pub created_at: GitTm,
    pub updated_at: GitTm,
    pub closed_at: Option<GitTm>,
    pub merged_at: Option<GitTm>,
    pub user: GithubUser,
    pub head: Commit,
    pub base: Commit,
}

/// The model of `PullRequest`.
pub struct PullRequestView {
    pub id: u32,
    pub url: Seq<char>,
    pub html_url: Seq<char>,
    pub patch_url: Seq<char>,
    pub issue_url: Seq<char>,
    pub commits_url: Seq<char>,
    pub review_comments_url: Seq<char>,
    pub review_comment_url: Seq<char>,
    pub comments_url: Seq<char>,
    pub number: u32,
    pub state: PullRequestState,
    pub title: Seq<char>,
    pub body: Seq<char>,
    pub created_at: GitTm,
    pub updated_at: GitTm,
    pub closed_at: Option<GitTm>,
    pub merged_at: Option<GitTm>,
    pub user: GithubUserView,
    pub head: CommitView,
    pub base: CommitView,
}

impl DeepView for PullRequest {
    type V = PullRequestView;

    open spec fn deep_view(&self) -> PullRequestView
    {
        PullRequestView {
            id: self.id,
            url: self.url@,
            html_url: self.html_url@,
            patch_url: self.patch_url@,
            issue_url: self.issue_url@,
            commits_url: self.commits_url@,
            review_comments_url: self.review_comments_url@,
            review_comment_url: self.review_comment_url@,
            comments_url: self.comments_url@,
            number: self.number,
            state: self.state,
            title: self.title@,
            body: self.body@,
            created_at: self.created_at,
            updated_at: self.updated_at,
            closed_at: self.closed_at,
            merged_at: self.merged_at,
            user: self.user.deep_view(),
            head: self.head.deep_view(),
            base: self.base.deep_view(),
        }
    }
}

impl JsonDecode for PullRequest {
    open spec fn spec_from_json(j: JsonVal) -> Option<PullRequestView> {
        match j {
            JsonVal::Obj(fs) => {
                if spec_field_u32(fs, "id"@) is None {
                    None
                } else if spec_field_str(fs, "url"@) is None {
                    None
                } else if spec_field_str(fs, "html_url"@) is None {
                    None
                } else if spec_field_str(fs, "patch_url"@) is None {
                    None
                } else if spec_field_str(fs, "issue_url"@) is None {
                    None
                } else if spec_field_str(fs, "commits_url"@) is None {
                    None
                } else if spec_field_str(fs, "review_comments_url"@) is None {
                    None
                } else if spec_field_str(fs, "review_comment_url"@) is None {
                    None
                } else if spec_field_str(fs, "comments_url"@) is None {
                    None
                } else if spec_field_u32(fs, "number"@) is None {
                    None
                } else if spec_field_rec::<PullRequestState>(fs, "state"@) is None {
                    None
                } else if spec_field_str(fs, "title"@) is None {
                    None
                } else if spec_field_str(fs, "body"@) is None {
                    None
                } else if spec_field_time(fs, "created_at"@) is None {
                    None
                } else if spec_field_time(fs, "updated_at"@) is None {
                    None
                } else if spec_field_opt_time(fs, "closed_at"@) is None {
                    None
                } else if spec_field_opt_time(fs, "merged_at"@) is None {
                    None
                } else if spec_field_rec::<GithubUser>(fs, "user"@) is None {
                    None
                } else if spec_field_rec::<Commit>(fs, "head"@) is None {
                    None
                } else if spec_field_rec::<Commit>(fs, "base"@) is None {
                    None
                } else {
                    Some(
                        PullRequestView {
                            id: spec_field_u32(fs, "id"@).unwrap(),
                            url: spec_field_str(fs, "url"@).unwrap(),
                            html_url: spec_field_str(fs, "html_url"@).unwrap(),
                            patch_url: spec_field_str(fs, "patch_url"@).unwrap(),
                            issue_url: spec_field_str(fs, "issue_url"@).unwrap(),
                            commits_url: spec_field_str(fs, "commits_url"@).unwrap(),
                            review_comments_url: spec_field_str(fs, "review_comments_url"@).unwrap(),
                            review_comment_url: spec_field_str(fs, "review_comment_url"@).unwrap(),
                            comments_url: spec_field_str(fs, "comments_url"@).unwrap(),
                            number: spec_field_u32(fs, "number"@).unwrap(),
                            state: spec_field_rec::<PullRequestState>(fs, "state"@).unwrap(),
                            title: spec_field_str(fs, "title"@).unwrap(),
                            body: spec_field_str(fs, "body"@).unwrap(),
                            created_at: spec_field_time(fs, "created_at"@).unwrap(),
                            updated_at: spec_field_time(fs, "updated_at"@).unwrap(),
                            closed_at: spec_field_opt_time(fs, "closed_at"@).unwrap(),
                            merged_at: spec_field_opt_time(fs, "merged_at"@).unwrap(),
                            user: spec_field_rec::<GithubUser>(fs, "user"@).unwrap(),
                            head: spec_field_rec::<Commit>(fs, "head"@).unwrap(),
                            base: spec_field_rec::<Commit>(fs, "base"@).unwrap(),
                        },
                    )
                }
            },
            _ => None,
        }
    }

    fn from_json(v: &JsonValue) -> (r: Result<Self, String>) {
        match v {
            JsonValue::Obj(fs) => {
                proof {
                    lemma_view_obj_of(v);
                }
                let id = match field_u32(fs, "id") {
                    Ok(x) => x,
                    Err(e) => {
                        return Err(e);
                    },
                };
                let url = match field_str(fs, "url") {
                    Ok(x) => x,
                    Err(e) => {
                        return Err(e);
                    },
                };
                let html_url = match field_str(fs, "html_url") {
                    Ok(x) => x,
                    Err(e) => {
                        return Err(e);
                    },
                };
                let patch_url = match field_str(fs, "patch_url") {
                    Ok(x) => x,
                    Err(e) => {
                        return Err(e);
                    },
                };
                let issue_url = match field_str(fs, "issue_url") {
                    Ok(x) => x,
                    Err(e) => {
                        return Err(e);
                    },
                };
                let commits_url = match field_str(fs, "commits_url") {
                    Ok(x) => x,
                    Err(e) => {
                        return Err(e);
                    },
                };
                let review_comments_url = match field_str(fs, "review_comments_url") {
                    Ok(x) => x,
                    Err(e) => {
                        return Err(e);
                    },
                };
                let review_comment_url = match field_str(fs, "review_comment_url") {
                    Ok(x) => x,
                    Err(e) => {
                        return Err(e);
                    },
                };
                let comments_url = match field_str(fs, "comments_url") {
                    Ok(x) => x,
                    Err(e) => {
                        return Err(e);
                    },
                };
                let number = match field_u32(fs, "number") {
                    Ok(x) => x,
                    Err(e) => {
                        return Err(e);
                    },
                };
                let state = match field_rec::<PullRequestState>(fs, "state") {
                    Ok(x) => x,
                    Err(e) => {
                        return Err(e);
                    },
                };
                let title = match field_str(fs, "title") {
                    Ok(x) => x,
                    Err(e) => {
                        return Err(e);
                    },
                };
                let body = match field_str(fs, "body") {
                    Ok(x) => x,
                    Err(e) => {
                        return Err(e);
                    },
                };
                let created_at = match field_time(fs, "created_at") {
                    Ok(x) => x,
                    Err(e) => {
                        return Err(e);
                    },
                };
                let updated_at = match field_time(fs, "updated_at") {
                    Ok(x) => x,
                    Err(e) => {
                        return Err(e);
                    },
                };
                let closed_at = match field_opt_time(fs, "closed_at") {
                    Ok(x) => x,
                    Err(e) => {
                        return Err(e);
                    },
                };
                let merged_at = match field_opt_time(fs, "merged_at") {
                    Ok(x) => x,
                    Err(e) => {
                        return Err(e);
                    },
                };
                let user = match field_rec::<GithubUser>(fs, "user") {
                    Ok(x) => x,
                    Err(e) => {
                        return Err(e);
                    },
                };
                let head = match field_rec::<Commit>(fs, "head") {
                    Ok(x) => x,
                    Err(e) => {
                        return Err(e);
                    },
                };
                let base = match field_rec::<Commit>(fs, "base") {
                    Ok(x) => x,
                    Err(e) => {
                        return Err(e);
                    },
                };
                Ok(
                    PullRequest {
                        id,
                        url,
                        html_url,
                        patch_url,
                        issue_url,
                        commits_url,
                        review_comments_url,
                        review_comment_url,
                        comments_url,
                        number,
                        state,
                        title,
                        body,
                        created_at,
                        updated_at,
                        closed_at,
                        merged_at,
                        user,
                        head,
                        base,
                    },
                )
            },
            _ => Err(String::from_str("expected an object")),
        }
    }
}

/// A pull request named by its repository and number.
#[derive(Debug, PartialEq, Clone)]
pub struct PullRequestReference {
    pub repo: Repository,
    pub pull_request_id: PullRequestId,
}

/// The pull request listing of a repository.
pub open spec fn spec_pull_requests(owner: Seq<char>, repo_name: Seq<char>) -> Seq<char> {
    spec_repo_at(owner, repo_name) + "/pulls"@
}

/// One pull request.
pub open spec fn spec_pull_request_at(owner: Seq<char>, repo_name: Seq<char>, pr_id: u32) -> Seq<
    char,
> {
    spec_pull_requests(owner, repo_name) + "/"@ + spec_digits(pr_id as nat)
}

/// The pull request listing of a repository.
pub fn pull_requests(repo: &Repository) -> (r: Url)
    ensures
        r@ == spec_pull_requests(repo.owner@, repo.repo_name@),
{
    repo_at(repo).concat("/pulls")
}

/// One pull request.
pub fn pull_request_at(repo: &Repository, pr_id: &PullRequestId) -> (r: Url)
    ensures
        r@ == spec_pull_request_at(repo.owner@, repo.repo_name@, *pr_id),
{
    pull_requests(repo).concat("/").concat(u32_to_string(*pr_id).as_str())
}

/// The commits of one pull request.
pub fn pull_request_commits(repo: &Repository, pr_id: &PullRequestId) -> (r: Url)
    ensures
        r@ == spec_pull_request_at(repo.owner@, repo.repo_name@, *pr_id) + "/commits"@,
{
    pull_request_at(repo, pr_id).concat("/commits")
}

/// The changed files of one pull request.
pub fn pull_request_files(repo: &Repository, pr_id: &PullRequestId) -> (r: Url)
    ensures
        r@ == spec_pull_request_at(repo.owner@, repo.repo_name@, *pr_id) + "/files"@,
{
    pull_request_at(repo, pr_id).concat("/files")
}

/// The merge endpoint of one pull request.
pub fn pull_request_merge(repo: &Repository, pr_id: &PullRequestId) -> (r: Url)
    ensures
        r@ == spec_pull_request_at(repo.owner@, repo.repo_name@, *pr_id) + "/merge"@,
{
    pull_request_at(repo, pr_id).concat("/merge")
}

/// The review comments of one pull request.
pub fn pull_request_comments(repo: &Repository, pr_id: &PullRequestId) -> (r: Url)
    ensures
        r@ == spec_pull_request_at(repo.owner@, repo.repo_name@, *pr_id) + "/comments"@,
{
    pull_request_at(repo, pr_id).concat("/comments")
}

/// The review comments of a whole repository.
pub fn all_pull_request_comments(repo: &Repository) -> (r: Url)
    ensures
        r@ == spec_pull_requests(repo.owner@, repo.repo_name@) + "/comments"@,
{
    pull_requests(repo).concat("/comments")
}

/// One review comment.
pub fn pull_request_comment_at(repo: &Repository, comment_id: &CommentId) -> (r: Url)
    ensures
        r@ == spec_pull_requests(repo.owner@, repo.repo_name@) + "/comments"@ + "/"@ + spec_digits(
            *comment_id as nat,
        ),
{
    all_pull_request_comments(repo).concat("/").concat(u32_to_string(*comment_id).as_str())
}

/// Path determinism: the resource locator is a pure function of its inputs,
/// so any two URLs built for the same owner, repository and pull request id
/// carry the same text.
pub proof fn lemma_path_deterministic(
    u1: Url,
    u2: Url,
    owner: Seq<char>,
    repo_name: Seq<char>,
    pr_id: u32,
)
    requires
        u1@ == spec_pull_request_at(owner, repo_name, pr_id) + "/comments"@,
        u2@ == spec_pull_request_at(owner, repo_name, pr_id) + "/comments"@,
    ensures
        u1@ == u2@,
{
}

/// The pull request operations: thin facades that pick a path and a verb and
/// run the typed request executor.
pub trait PullRequester {
    fn list(&self, repo: Repository, query: Option<PullRequestQuery>) -> (r: Result<
        Vec<PullRequest>,
        GitErr,
    >)
        ensures
            r matches Ok(d) ==> exists|b: Seq<char>|
                #[trigger] spec_decode_body::<Vec<PullRequest>>(b) == Some(d.deep_view()),
            !(r matches Err(GitErr::EncodeErr(_))),
            !(r matches Err(GitErr::NotImplemented(_))),
    ;

    fn get_pr(&self, repo: Repository, pr_id: PullRequestId) -> (r: Result<PullRequest, GitErr>)
        ensures
            r matches Ok(d) ==> exists|b: Seq<char>|
                #[trigger] spec_decode_body::<PullRequest>(b) == Some(d.deep_view()),
            !(r matches Err(GitErr::EncodeErr(_))),
            !(r matches Err(GitErr::NotImplemented(_))),
    ;

    fn create_raw(&self, repo: Repository, details: CreatePullRequest) -> (r: Result<
        PullRequest,
        GitErr,
    >)
        ensures
            r matches Ok(d) ==> exists|b: Seq<char>|
                #[trigger] spec_decode_body::<PullRequest>(b) == Some(d.deep_view()),
            !(r matches Err(GitErr::EncodeErr(_))),
            !(r matches Err(GitErr::NotImplemented(_))),
    ;

    fn create_from_issue(&self, repo: Repository, details: CreatePullRequestFromIssue) -> (r:
        Result<PullRequest, GitErr>)
        ensures
            r matches Ok(d) ==> exists|b: Seq<char>|
                #[trigger] spec_decode_body::<PullRequest>(b) == Some(d.deep_view()),
            !(r matches Err(GitErr::EncodeErr(_))),
            !(r matches Err(GitErr::NotImplemented(_))),
    ;

    fn update_pull_request(&self, pull_request: PullRequestReference, update: PullRequestUpdate) -> (r:
        Result<PullRequest, GitErr>)
        ensures
            r matches Ok(d) ==> exists|b: Seq<char>|
                #[trigger] spec_decode_body::<PullRequest>(b) == Some(d.deep_view()),
            !(r matches Err(GitErr::EncodeErr(_))),
            !(r matches Err(GitErr::NotImplemented(_))),
    ;

    fn list_commits(&self, pull_request: PullRequestReference) -> (r: Result<
        Vec<GithubCommit>,
        GitErr,
    >)
        ensures
            r matches Ok(d) ==> exists|b: Seq<char>|
                #[trigger] spec_decode_body::<Vec<GithubCommit>>(b) == Some(d.deep_view()),
            !(r matches Err(GitErr::EncodeErr(_))),
            !(r matches Err(GitErr::NotImplemented(_))),
    ;

    fn list_files(&self, pull_request: PullRequestReference) -> (r: Result<
        Vec<PullRequestFile>,
        GitErr,
    >)
        ensures
            r matches Ok(d) ==> exists|b: Seq<char>|
                #[trigger] spec_decode_body::<Vec<PullRequestFile>>(b) == Some(d.deep_view()),
            !(r matches Err(GitErr::EncodeErr(_))),
            !(r matches Err(GitErr::NotImplemented(_))),
    ;

    /// A deliberate stub: asking whether a pull request is merged is not
    /// implemented, and the call always says so, whatever its input.
    fn get_merged(&self, pull_request: PullRequestReference) -> (r: Result<MergedStatus, GitErr>)
        ensures
            r matches Err(e) && e matches GitErr::NotImplemented(m) && m@
                == "PullRequester#get_merged"@,
    ;

    /// A deliberate stub: merging is not implemented, and the call always
    /// says so, whatever its input.
    fn merge(&self, pull_request: PullRequestReference, merge_request: Option<MergeRequest>) -> (r:
        Result<MergedResult, GitErr>)
        ensures
            r matches Err(e) && e matches GitErr::NotImplemented(m) && m@ == "PullRequester#merge"@,
    ;
}

impl<C: SimpleClient> PullRequester for C {
    fn list(&self, repo: Repository, query: Option<PullRequestQuery>) -> (r: Result<
        Vec<PullRequest>,
        GitErr,
    >) {
        let url = pull_requests(&repo);
        match query {
            Some(query) => self.request_with_payload::<Vec<PullRequest>, PullRequestQuery>(
                Method::Get,
                url,
                query,
            ),
            None => self.request_without_payload::<Vec<PullRequest>>(Method::Get, url),
        }
    }

    fn get_pr(&self, repo: Repository, pr_id: PullRequestId) -> (r: Result<PullRequest, GitErr>) {
        let url = pull_request_at(&repo, &pr_id);
        self.request_without_payload::<PullRequest>(Method::Get, url)
    }

    fn create_raw(&self, repo: Repository, details: CreatePullRequest) -> (r: Result<
        PullRequest,
        GitErr,
    >) {
        let url = pull_requests(&repo);
        self.request_with_payload::<PullRequest, CreatePullRequest>(Method::Post, url, details)
    }

    fn create_from_issue(&self, repo: Repository, details: CreatePullRequestFromIssue) -> (r:
        Result<PullRequest, GitErr>) {
        let url = pull_requests(&repo);
        self.request_with_payload::<PullRequest, CreatePullRequestFromIssue>(
            Method::Post,
            url,
            details,
        )
    }

    fn update_pull_request(&self, pull_request: PullRequestReference, update: PullRequestUpdate) -> (r:
        Result<PullRequest, GitErr>) {
        let url = pull_request_at(&pull_request.repo, &pull_request.pull_request_id);
        self.request_with_payload::<PullRequest, PullRequestUpdate>(Method::Patch, url, update)
    }

    fn list_commits(&self, pull_request: PullRequestReference) -> (r: Result<
        Vec<GithubCommit>,
        GitErr,
    >) {
        let url = pull_request_commits(&pull_request.repo, &pull_request.pull_request_id);
        self.request_without_payload::<Vec<GithubCommit>>(Method::Get, url)
    }

    fn list_files(&self, pull_request: PullRequestReference) -> (r: Result<
        Vec<PullRequestFile>,
        GitErr,
    >) {
        let url = pull_request_files(&pull_request.repo, &pull_request.pull_request_id);
        self.request_without_payload::<Vec<PullRequestFile>>(Method::Get, url)
    }

    fn get_merged(&self, pull_request: PullRequestReference) -> (r: Result<MergedStatus, GitErr>) {
        Err(GitErr::NotImplemented(String::from_str("PullRequester#get_merged")))
    }

    fn merge(&self, pull_request: PullRequestReference, merge_request: Option<MergeRequest>) -> (r:
        Result<MergedResult, GitErr>) {
        Err(GitErr::NotImplemented(String::from_str("PullRequester#merge")))
    }
}

} // verus!
