//! Names for the plain values that run through the client, and the common
//! records shared by the resource modules.

use vstd::prelude::*;

use crate::codec::{field_bool, field_rec, field_str, field_u32, spec_field_bool, spec_field_rec,
    spec_field_str, spec_field_u32, JsonCodec, JsonDecode, JsonEncode};
use crate::commits::{CommitTreeNode, CommitTreeNodeView, GithubCommit, GithubCommitView};
use crate::json::{lemma_view_obj, lemma_view_obj_of, seq_view_fields, JsonVal, JsonValue};
use crate::users::{GithubUser, GithubUserView};

verus! {

broadcast use vstd::seq::group_seq_axioms, vstd::std_specs::vec::group_vec_axioms;

pub type Body = String;

pub type HeadQuery = String;

pub type BranchName = String;

pub type IssueId = u32;

pub type Message = String;

pub type Sha = String;

pub type Url = String;

pub type Filename = String;

pub type OrganizationName = String;

pub type UserName = String;

pub type RepoName = String;

/// The direction a listing is sorted in.
#[derive(Debug, PartialEq, Eq, Structural, Clone, Copy)]
pub enum SortDirection {
    Ascending,
    Descending,
}

impl DeepView for SortDirection {
    type V = SortDirection;

    open spec fn deep_view(&self) -> SortDirection {
        *self
    }
}

impl JsonEncode for SortDirection {
    open spec fn spec_to_json(&self) -> Option<JsonVal> {
        match self {
            SortDirection::Ascending => Some(JsonVal::Str("asc"@)),
            SortDirection::Descending => Some(JsonVal::Str("desc"@)),
        }
    }

    fn to_json(&self) -> (r: Result<JsonValue, String>) {
        match self {
            SortDirection::Ascending => Ok(JsonValue::Str(String::from_str("asc"))),
            SortDirection::Descending => Ok(JsonValue::Str(String::from_str("desc"))),
        }
    }
}

impl JsonDecode for SortDirection {
    open spec fn spec_from_json(j: JsonVal) -> Option<SortDirection> {
        match j {
            JsonVal::Str(s) => if s == "asc"@ {
                Some(SortDirection::Ascending)
            } else if s == "desc"@ {
                Some(SortDirection::Descending)
            } else {
                None
            },
            _ => None,
        }
    }

    fn from_json(v: &JsonValue) -> (r: Result<Self, String>) {
        match v {
            JsonValue::Str(s) => {
                if *s == String::from_str("asc") {
                    Ok(SortDirection::Ascending)
                } else if *s == String::from_str("desc") {
                    Ok(SortDirection::Descending)
                } else {
                    Err(String::from_str("no matching item"))
                }
            },
            _ => Err(String::from_str("no matching item")),
        }
    }
}

impl JsonCodec for SortDirection {
    proof fn lemma_codec_round_trip(&self) {
        reveal_strlit("asc");
        reveal_strlit("desc");
        assert(("asc"@).len() == 3);
        assert(("desc"@).len() == 4);
    }
}

/// A repository named by its owner and its short name.
#[derive(Debug, PartialEq, Clone)]
pub struct Repository {
    pub owner: UserName,
    pub repo_name: RepoName,
}

/// The issue header carried inside event payloads.
#[derive(Debug, PartialEq, Clone)]
pub struct Issue {
    pub url: Url,
    pub labels_url: Url,
    pub comments_url: Url,
    pub events_url: Url,
    pub html_url: Url,
    pub id: IssueId,
    pub number: u32,
    pub title: Message,
    pub user: GithubUser,
}

/// The model of `Issue`.
pub struct IssueView {
    pub url: Seq<char>,
    pub labels_url: Seq<char>,
    pub comments_url: Seq<char>,
    pub events_url: Seq<char>,
    pub html_url: Seq<char>,
    pub id: u32,
    pub number: u32,
    pub title: Seq<char>,
    pub user: GithubUserView,
}

impl DeepView for Issue {
    type V = IssueView;

    open spec fn deep_view(&self) -> IssueView {
        IssueView {
            url: self.url@,
            labels_url: self.labels_url@,
            comments_url: self.comments_url@,
            events_url: self.events_url@,
            html_url: self.html_url@,
            id: self.id,
            number: self.number,
            title: self.title@,
            user: self.user.deep_view(),
        }
    }
}

impl JsonDecode for Issue {
    open spec fn spec_from_json(j: JsonVal) -> Option<IssueView> {
        match j {
            JsonVal::Obj(fs) => {
                if spec_field_str(fs, "url"@) is None {
                    None
                } else if spec_field_str(fs, "labels_url"@) is None {
                    None
                } else if spec_field_str(fs, "comments_url"@) is None {
                    None
                } else if spec_field_str(fs, "events_url"@) is None {
                    None
                } else if spec_field_str(fs, "html_url"@) is None {
                    None
                } else if spec_field_u32(fs, "id"@) is None {
                    None
                } else if spec_field_u32(fs, "number"@) is None {
                    None
                } else if spec_field_str(fs, "title"@) is None {
                    None
                } else if spec_field_rec::<GithubUser>(fs, "user"@) is None {
                    None
                } else {
                    Some(
                        IssueView {
                            url: spec_field_str(fs, "url"@).unwrap(),
                            labels_url: spec_field_str(fs, "labels_url"@).unwrap(),
                            comments_url: spec_field_str(fs, "comments_url"@).unwrap(),
                            events_url: spec_field_str(fs, "events_url"@).unwrap(),
                            html_url: spec_field_str(fs, "html_url"@).unwrap(),
                            id: spec_field_u32(fs, "id"@).unwrap(),
                            number: spec_field_u32(fs, "number"@).unwrap(),
                            title: spec_field_str(fs, "title"@).unwrap(),
                            user: spec_field_rec::<GithubUser>(fs, "user"@).unwrap(),
                        },
                    )
                }
            },
            _ => None,
        }
    }

    fn from_json(v: &JsonValue) -> (r: Result<Self, String>) {
        match v {
            JsonValue::Obj(fs) => {
                proof {
                    lemma_view_obj_of(v);
                }
                let url = match field_str(fs, "url") {
                    Ok(x) => x,
                    Err(e) => {
                        return Err(e);
                    },
                };
                let labels_url = match field_str(fs, "labels_url") {
                    Ok(x) => x,
                    Err(e) => {
                        return Err(e);
                    },
                };
                let comments_url = match field_str(fs, "comments_url") {
                    Ok(x) => x,
                    Err(e) => {
                        return Err(e);
                    },
                };
                let events_url = match field_str(fs, "events_url") {
                    Ok(x) => x,
                    Err(e) => {
                        return Err(e);
                    },
                };
                let html_url = match field_str(fs, "html_url") {
                    Ok(x) => x,
                    Err(e) => {
                        return Err(e);
                    },
                };
                let id = match field_u32(fs, "id") {
                    Ok(x) => x,
                    Err(e) => {
                        return Err(e);
                    },
                };
                let number = match field_u32(fs, "number") {
                    Ok(x) => x,
                    Err(e) => {
                        return Err(e);
                    },
                };
                let title = match field_str(fs, "title") {
                    Ok(x) => x,
                    Err(e) => {
                        return Err(e);
                    },
                };
                let user = match field_rec::<GithubUser>(fs, "user") {
                    Ok(x) => x,
                    Err(e) => {
                        return Err(e);
                    },
                };
                Ok(Issue { url, labels_url, comments_url, events_url, html_url, id, number, title, user })
            },
            _ => Err(String::from_str("expected an object")),
        }
    }
}

/// The optional details of a merge request.
#[derive(Debug, PartialEq, Clone)]
pub struct MergeRequest {
    pub commit_message: Option<Message>,
    pub sha: Option<Sha>,
}

/// Why a merge could not be performed.
#[derive(Debug, PartialEq, Eq, Structural, Clone, Copy)]
pub enum MergeFailure {
    NotPossible,
    ShaDidNotMatch,
}

/// The outcome of a merge call.
#[derive(Debug, PartialEq, Clone)]
pub enum MergedResult {
    Success { sha: Sha, message: Message },
    Failure { failure_type: MergeFailure, message: Message, documentation_url: Url },
}

/// Whether a pull request has been merged.
#[derive(Debug, PartialEq, Eq, Structural, Clone, Copy)]
pub enum MergedStatus {
    Merged,
    NotMerged,
}

/// Whether a deletion took place.
#[derive(Debug, PartialEq, Eq, Structural, Clone, Copy)]
pub enum DeletedStatus {
    Deleted,
    NotDeleted,
}

/// The query sent when listing contributors.
#[derive(Debug, PartialEq, Clone)]
pub struct ContributorsQuery {
    pub anon: bool,
}

/// The model of `ContributorsQuery`.
pub struct ContributorsQueryView {
    pub anon: bool,
}

impl DeepView for ContributorsQuery {
    type V = ContributorsQueryView;

    open spec fn deep_view(&self) -> ContributorsQueryView {
        ContributorsQueryView { anon: self.anon }
    }
}

impl JsonEncode for ContributorsQuery {
    open spec fn spec_to_json(&self) -> Option<JsonVal> {
        Some(JsonVal::Obj(seq![("anon"@, JsonVal::Bool(self.anon))]))
    }

    fn to_json(&self) -> (r: Result<JsonValue, String>) {
        let mut fs: Vec<(String, JsonValue)> = Vec::new();
        fs.push((String::from_str("anon"), JsonValue::Bool(self.anon)));
        proof {
            lemma_view_obj(fs);
            assert(seq_view_fields(fs@) =~= seq![("anon"@, JsonVal::Bool(self.anon))]);
        }
        Ok(JsonValue::Obj(fs))
    }
}

/// The languages of a repository, each with its measured weight.
#[derive(Debug, PartialEq, Clone)]
pub struct LanguagePile(pub Vec<(String, u32)>);

/// The model of `LanguagePile`.
pub struct LanguagePileView(pub Seq<(Seq<char>, u32)>);

impl DeepView for LanguagePile {
    type V = LanguagePileView;

    open spec fn deep_view(&self) -> LanguagePileView {
        LanguagePileView(
            Seq::new(
                self.0@.len(),
                |i: int|
                    (
                        if 0 <= i < self.0@.len() {
                            self.0@[i].0@
                        } else {
                            Seq::empty()
                        },
                        if 0 <= i < self.0@.len() {
                            self.0@[i].1
                        } else {
                            0u32
                        },
                    ),
            ),
        )
    }
}

/// Whether a language name already stands among the weights.
pub open spec fn langs_has_key(ls: Seq<(Seq<char>, u32)>, k: Seq<char>) -> bool {
    exists|i: int| 0 <= i < ls.len() && #[trigger] ls[i].0 == k
}

/// The weights read off an object's members, in order; fails on any member
/// that is not an unsigned 32-bit count and on any repeated language name —
/// the names are unique, as a listing keyed by language has them.
pub open spec fn spec_langs(fs: Seq<(Seq<char>, JsonVal)>) -> Option<Seq<(Seq<char>, u32)>>
    decreases fs.len(),
{
    if fs.len() == 0 {
        Some(Seq::empty())
    } else {
        match (spec_langs(fs.drop_last()), fs.last().1) {
            (Some(init), JsonVal::Int(i)) => if !(0 <= i <= u32::MAX) {
                None
            } else if langs_has_key(init, fs.last().0) {
                None
            } else {
                Some(init.push((fs.last().0, i as u32)))
            },
            _ => None,
        }
    }
}

/// Whether the name is already among the collected weights.
fn has_lang_key(out: &Vec<(String, u32)>, key: &String) -> (r: bool)
    ensures
        r == langs_has_key(LanguagePile(*out).deep_view().0, key@),
{
    let ghost ls = LanguagePile(*out).deep_view().0;
    let n = out.len();
    let mut i: usize = 0;
    while i < n
        invariant
            i <= n,
            n == out@.len(),
            ls == LanguagePile(*out).deep_view().0,
            ls.len() == n,
            forall|k: int| 0 <= k < i ==> #[trigger] ls[k].0 != key@,
        decreases n - i,
    {
        proof {
            assert(ls[i as int].0 == out@[i as int].0@);
        }
        if out[i].0 == *key {
            return true;
        }
        i = i + 1;
    }
    false
}

/// If a prefix of the members already fails, the whole object fails.
proof fn lemma_langs_prefix(fs: Seq<(Seq<char>, JsonVal)>, k: int)
    requires
        0 <= k <= fs.len(),
        spec_langs(fs.take(k)) is None,
    ensures
        spec_langs(fs) is None,
    decreases fs.len() - k,
{
    if k == fs.len() {
        assert(fs.take(k) =~= fs);
    } else {
        assert(fs.take(k + 1).drop_last() =~= fs.take(k));
        lemma_langs_prefix(fs, k + 1);
    }
}

impl JsonDecode for LanguagePile {
    open spec fn spec_from_json(j: JsonVal) -> Option<LanguagePileView> {
        match j {
            JsonVal::Obj(fs) => match spec_langs(fs) {
                Some(ls) => Some(LanguagePileView(ls)),
                None => None,
            },
            _ => None,
        }
    }

    fn from_json(v: &JsonValue) -> (r: Result<Self, String>) {
        match v {
            JsonValue::Obj(fs) => {
                let ghost vfs = v@->Obj_0;
                proof {
                    lemma_view_obj_of(v);
                    assert(vfs == seq_view_fields(fs@));
                }
                let n = fs.len();
                let mut out: Vec<(String, u32)> = Vec::new();
                let mut i: usize = 0;
                proof {
                    assert(vfs.take(0) =~= Seq::<(Seq<char>, JsonVal)>::empty());
                    assert(spec_langs(vfs.take(0)) == Some(LanguagePile(out).deep_view().0));
                }
                while i < n
                    invariant
                        n == fs@.len(),
                        i <= n,
                        v@ is Obj && v@->Obj_0 == vfs,
                        vfs == seq_view_fields(fs@),
                        spec_langs(vfs.take(i as int)) == Some(LanguagePile(out).deep_view().0),
                    decreases n - i,
                {
                    proof {
                        assert(vfs.take(i as int + 1).drop_last() =~= vfs.take(i as int));
                        assert(vfs.take(i as int + 1).last() == (fs@[i as int].0@, fs@[
                            i as int].1@));
                    }
                    match &fs[i].1 {
                        JsonValue::Int(c) => {
                            if !(0 <= *c && *c <= 4294967295i64) {
                                proof {
                                    lemma_langs_prefix(vfs, i as int + 1);
                                }
                                return Err(String::from_str("language weight out of range"));
                            } else if has_lang_key(&out, &fs[i].0) {
                                proof {
                                    lemma_langs_prefix(vfs, i as int + 1);
                                }
                                return Err(String::from_str("duplicated language name"));
                            } else {
                                let ghost oldv = LanguagePile(out).deep_view().0;
                                out.push((fs[i].0.clone(), *c as u32));
                                proof {
                                    assert(LanguagePile(out).deep_view().0 =~= oldv.push(
                                        (fs@[i as int].0@, *c as u32),
                                    ));
                                }
                                i = i + 1;
                            }
                        },
                        _ => {
                            proof {
                                lemma_langs_prefix(vfs, i as int + 1);
                            }
                            return Err(String::from_str("expected a language weight"));
                        },
                    }
                }
                proof {
                    assert(vfs.take(n as int) =~= vfs);
                }
                Ok(LanguagePile(out))
            },
            _ => Err(String::from_str("expected an object")),
        }
    }
}

/// A team with access to a repository.
#[derive(Debug, PartialEq, Clone)]
pub struct Team {
    pub id: u32,
    pub url: Url,
    pub name: String,
    pub slug: String,
    pub description: String,
    pub privacy: String,
    pub permission: String,
    pub members_url: Url,
    pub repositories_url: Url,
}

/// The model of `Team`.
pub struct TeamView {
    pub id: u32,
    pub url: Seq<char>,
    pub name: Seq<char>,
    pub slug: Seq<char>,
    pub description: Seq<char>,
    pub privacy: Seq<char>,
    pub permission: Seq<char>,
    pub members_url: Seq<char>,
    pub repositories_url: Seq<char>,
}

impl DeepView for Team {
    type V = TeamView;

    open spec fn deep_view(&self) -> TeamView {
        TeamView {
            id: self.id,
            url: self.url@,
            name: self.name@,
            slug: self.slug@,
            description: self.description@,
            privacy: self.privacy@,
            permission: self.permission@,
            members_url: self.members_url@,
            repositories_url: self.repositories_url@,
        }
    }
}

impl JsonDecode for Team {
    open spec fn spec_from_json(j: JsonVal) -> Option<TeamView> {
        match j {
            JsonVal::Obj(fs) => {
                if spec_field_u32(fs, "id"@) is None {
                    None
                } else if spec_field_str(fs, "url"@) is None {
                    None
                } else if spec_field_str(fs, "name"@) is None {
                    None
                } else if spec_field_str(fs, "slug"@) is None {
                    None
                } else if spec_field_str(fs, "description"@) is None {
                    None
                } else if spec_field_str(fs, "privacy"@) is None {
                    None
                } else if spec_field_str(fs, "permission"@) is None {
                    None
                } else if spec_field_str(fs, "members_url"@) is None {
                    None
                } else if spec_field_str(fs, "repositories_url"@) is None {
                    None
                } else {
                    Some(
                        TeamView {
                            id: spec_field_u32(fs, "id"@).unwrap(),
                            url: spec_field_str(fs, "url"@).unwrap(),
                            name: spec_field_str(fs, "name"@).unwrap(),
                            slug: spec_field_str(fs, "slug"@).unwrap(),
                            description: spec_field_str(fs, "description"@).unwrap(),
                            privacy: spec_field_str(fs, "privacy"@).unwrap(),
                            permission: spec_field_str(fs, "permission"@).unwrap(),
                            members_url: spec_field_str(fs, "members_url"@).unwrap(),
                            repositories_url: spec_field_str(fs, "repositories_url"@).unwrap(),
                        },
                    )
                }
            },
            _ => None,
        }
    }

    fn from_json(v: &JsonValue) -> (r: Result<Self, String>) {
        match v {
            JsonValue::Obj(fs) => {
                proof {
                    lemma_view_obj_of(v);
                }
                let id = match field_u32(fs, "id") {
                    Ok(x) => x,
                    Err(e) => {
                        return Err(e);
                    },
                };
                let url = match field_str(fs, "url") {
                    Ok(x) => x,
                    Err(e) => {
                        return Err(e);
                    },
                };
                let name = match field_str(fs, "name") {
                    Ok(x) => x,
                    Err(e) => {
                        return Err(e);
                    },
                };
                let slug = match field_str(fs, "slug") {
                    Ok(x) => x,
                    Err(e) => {
                        return Err(e);
                    },
                };
                let description = match field_str(fs, "description") {
                    Ok(x) => x,
                    Err(e) => {
                        return Err(e);
                    },
                };
                let privacy = match field_str(fs, "privacy") {
                    Ok(x) => x,
                    Err(e) => {
                        return Err(e);
                    },
                };
                let permission = match field_str(fs, "permission") {
                    Ok(x) => x,
                    Err(e) => {
                        return Err(e);
                    },
                };
                let members_url = match field_str(fs, "members_url") {
                    Ok(x) => x,
                    Err(e) => {
                        return Err(e);
                    },
                };
                let repositories_url = match field_str(fs, "repositories_url") {
                    Ok(x) => x,
                    Err(e) => {
                        return Err(e);
                    },
                };
                Ok(
                    Team {
                        id,
                        url,
                        name,
                        slug,
                        description,
                        privacy,
                        permission,
                        members_url,
                        repositories_url,
                    },
                )
            },
            _ => Err(String::from_str("expected an object")),
        }
    }
}

/// A tag of a repository.
#[derive(Debug, PartialEq, Clone)]
pub struct Tag {
    pub name: String,
    pub commit: CommitTreeNode,
    pub zipball_url: Url,
    pub tarball_url: Url,
}

/// The model of `Tag`.
pub struct TagView {
    pub name: Seq<char>,
    pub commit: CommitTreeNodeView,
    pub zipball_url: Seq<char>,
    pub tarball_url: Seq<char>,
}

impl DeepView for Tag {
    type V = TagView;

    open spec fn deep_view(&self) -> TagView {
        TagView {
            name: self.name@,
            commit: self.commit.deep_view(),
            zipball_url: self.zipball_url@,
            tarball_url: self.tarball_url@,
        }
    }
}

impl JsonDecode for Tag {
    open spec fn spec_from_json(j: JsonVal) -> Option<TagView> {
        match j {
            JsonVal::Obj(fs) => {
                if spec_field_str(fs, "name"@) is None {
                    None
                } else if spec_field_rec::<CommitTreeNode>(fs, "commit"@) is None {
                    None
                } else if spec_field_str(fs, "zipball_url"@) is None {
                    None
                } else if spec_field_str(fs, "tarball_url"@) is None {
                    None
                } else {
                    Some(
                        TagView {
                            name: spec_field_str(fs, "name"@).unwrap(),
                            commit: spec_field_rec::<CommitTreeNode>(fs, "commit"@).unwrap(),
                            zipball_url: spec_field_str(fs, "zipball_url"@).unwrap(),
                            tarball_url: spec_field_str(fs, "tarball_url"@).unwrap(),
                        },
                    )
                }
            },
            _ => None,
        }
    }

    fn from_json(v: &JsonValue) -> (r: Result<Self, String>) {
        match v {
            JsonValue::Obj(fs) => {
                proof {
                    lemma_view_obj_of(v);
                }
                let name = match field_str(fs, "name") {
                    Ok(x) => x,
                    Err(e) => {
                        return Err(e);
                    },
                };
                let commit = match field_rec::<CommitTreeNode>(fs, "commit") {
                    Ok(x) => x,
                    Err(e) => {
                        return Err(e);
                    },
                };
                let zipball_url = match field_str(fs, "zipball_url") {
                    Ok(x) => x,
                    Err(e) => {
                        return Err(e);
                    },
                };
                let tarball_url = match field_str(fs, "tarball_url") {
                    Ok(x) => x,
                    Err(e) => {
                        return Err(e);
                    },
                };
                Ok(Tag { name, commit, zipball_url, tarball_url })
            },
            _ => Err(String::from_str("expected an object")),
        }
    }
}

/// A branch header: its name and head commit reference.
#[derive(Debug, PartialEq, Clone)]
pub struct Branch {
    pub name: BranchName,
    pub commit: CommitTreeNode,
}

/// The model of `Branch`.
pub struct BranchView {
    pub name: Seq<char>,
    pub commit: CommitTreeNodeView,
}

impl DeepView for Branch {
    type V = BranchView;

    open spec fn deep_view(&self) -> BranchView {
        BranchView { name: self.name@, commit: self.commit.deep_view() }
    }
}

impl JsonDecode for Branch {
    open spec fn spec_from_json(j: JsonVal) -> Option<BranchView> {
        match j {
            JsonVal::Obj(fs) => {
                if spec_field_str(fs, "name"@) is None {
                    None
                } else if spec_field_rec::<CommitTreeNode>(fs, "commit"@) is None {
                    None
                } else {
                    Some(
                        BranchView {
                            name: spec_field_str(fs, "name"@).unwrap(),
                            commit: spec_field_rec::<CommitTreeNode>(fs, "commit"@).unwrap(),
                        },
                    )
                }
            },
            _ => None,
        }
    }

    fn from_json(v: &JsonValue) -> (r: Result<Self, String>) {
        match v {
            JsonValue::Obj(fs) => {
                proof {
                    lemma_view_obj_of(v);
                }
                let name = match field_str(fs, "name") {
                    Ok(x) => x,
                    Err(e) => {
                        return Err(e);
                    },
                };
                let commit = match field_rec::<CommitTreeNode>(fs, "commit") {
                    Ok(x) => x,
                    Err(e) => {
                        return Err(e);
                    },
                };
                Ok(Branch { name, commit })
            },
            _ => Err(String::from_str("expected an object")),
        }
    }
}

/// A branch with its full head commit.
#[derive(Debug, PartialEq, Clone)]
pub struct FullBranch {
    pub name: BranchName,
    pub commit: GithubCommit,
}

/// The model of `FullBranch`.
pub struct FullBranchView {
    pub name: Seq<char>,
    pub commit: GithubCommitView,
}

impl DeepView for FullBranch {
    type V = FullBranchView;

    open spec fn deep_view(&self) -> FullBranchView {
        FullBranchView { name: self.name@, commit: self.commit.deep_view() }
    }
}

impl JsonDecode for FullBranch {
    open spec fn spec_from_json(j: JsonVal) -> Option<FullBranchView> {
        match j {
            JsonVal::Obj(fs) => {
                if spec_field_str(fs, "name"@) is None {
                    None
                } else if spec_field_rec::<GithubCommit>(fs, "commit"@) is None {
                    None
                } else {
                    Some(
                        FullBranchView {
                            name: spec_field_str(fs, "name"@).unwrap(),
                            commit: spec_field_rec::<GithubCommit>(fs, "commit"@).unwrap(),
                        },
                    )
                }
            },
            _ => None,
        }
    }

    fn from_json(v: &JsonValue) -> (r: Result<Self, String>) {
        match v {
            JsonValue::Obj(fs) => {
                proof {
                    lemma_view_obj_of(v);
                }
                let name = match field_str(fs, "name") {
                    Ok(x) => x,
                    Err(e) => {
                        return Err(e);
                    },
                };
                let commit = match field_rec::<GithubCommit>(fs, "commit") {
                    Ok(x) => x,
                    Err(e) => {
                        return Err(e);
                    },
                };
                Ok(FullBranch { name, commit })
            },
            _ => Err(String::from_str("expected an object")),
        }
    }
}

/// An organization record.
#[derive(Debug, PartialEq, Clone)]
pub struct Organization {
    pub login: UserName,
    pub id: u32,
    pub avatar_url: Url,
    pub gravatar_id: String,
    pub url: Url,
    pub html_url: Url,
    pub followers_url: Url,
    pub following_url: Url,
    pub gists_url: Url,
    pub subscriptions_url: Url,
    pub organizations_url: Url,
    pub repos_url: Url,
    pub events_url: Url,
    pub received_events_url: Url,
    pub site_admin: bool,
}

/// The model of `Organization`.
pub struct OrganizationView {
    pub login: Seq<char>,
    pub id: u32,
    pub avatar_url: Seq<char>,
    pub gravatar_id: Seq<char>,
    pub url: Seq<char>,
    pub html_url: Seq<char>,
    pub followers_url: Seq<char>,
    pub following_url: Seq<char>,
    pub gists_url: Seq<char>,
    pub subscriptions_url: Seq<char>,
    pub organizations_url: Seq<char>,
    pub repos_url: Seq<char>,
    pub events_url: Seq<char>,
    pub received_events_url: Seq<char>,
    pub site_admin: bool,
}

impl DeepView for Organization {
    type V = OrganizationView;

    open spec fn deep_view(&self) -> OrganizationView {
        OrganizationView {
            login: self.login@,
            id: self.id,
            avatar_url: self.avatar_url@,
            gravatar_id: self.gravatar_id@,
            url: self.url@,
            html_url: self.html_url@,
            followers_url: self.followers_url@,
            following_url: self.following_url@,
            gists_url: self.gists_url@,
            subscriptions_url: self.subscriptions_url@,
            organizations_url: self.organizations_url@,
            repos_url: self.repos_url@,
            events_url: self.events_url@,
            received_events_url: self.received_events_url@,
            site_admin: self.site_admin,
        }
    }
}

impl JsonDecode for Organization {
    open spec fn spec_from_json(j: JsonVal) -> Option<OrganizationView> {
        match j {
            JsonVal::Obj(fs) => {
                if spec_field_str(fs, "login"@) is None {
                    None
                } else if spec_field_u32(fs, "id"@) is None {
                    None
                } else if spec_field_str(fs, "avatar_url"@) is None {
                    None
                } else if spec_field_str(fs, "gravatar_id"@) is None {
                    None
                } else if spec_field_str(fs, "url"@) is None {
                    None
                } else if spec_field_str(fs, "html_url"@) is None {
                    None
                } else if spec_field_str(fs, "followers_url"@) is None {
                    None
                } else if spec_field_str(fs, "following_url"@) is None {
                    None
                } else if spec_field_str(fs, "gists_url"@) is None {
                    None
                } else if spec_field_str(fs, "subscriptions_url"@) is None {
                    None
                } else if spec_field_str(fs, "organizations_url"@) is None {
                    None
                } else if spec_field_str(fs, "repos_url"@) is None {
                    None
                } else if spec_field_str(fs, "events_url"@) is None {
                    None
                } else if spec_field_str(fs, "received_events_url"@) is None {
                    None
                } else if spec_field_bool(fs, "site_admin"@) is None {
                    None
                } else {
                    Some(
                        OrganizationView {
                            login: spec_field_str(fs, "login"@).unwrap(),
                            id: spec_field_u32(fs, "id"@).unwrap(),
                            avatar_url: spec_field_str(fs, "avatar_url"@).unwrap(),
                            gravatar_id: spec_field_str(fs, "gravatar_id"@).unwrap(),
                            url: spec_field_str(fs, "url"@).unwrap(),
                            html_url: spec_field_str(fs, "html_url"@).unwrap(),
                            followers_url: spec_field_str(fs, "followers_url"@).unwrap(),
                            following_url: spec_field_str(fs, "following_url"@).unwrap(),
                            gists_url: spec_field_str(fs, "gists_url"@).unwrap(),
                            subscriptions_url: spec_field_str(fs, "subscriptions_url"@).unwrap(),
                            organizations_url: spec_field_str(fs, "organizations_url"@).unwrap(),
                            repos_url: spec_field_str(fs, "repos_url"@).unwrap(),
                            events_url: spec_field_str(fs, "events_url"@).unwrap(),
                            received_events_url: spec_field_str(
                                fs,
                                "received_events_url"@,
                            ).unwrap(),
                            site_admin: spec_field_bool(fs, "site_admin"@).unwrap(),
                        },
                    )
                }
            },
            _ => None,
        }
    }

    fn from_json(v: &JsonValue) -> (r: Result<Self, String>) {
        match v {
            JsonValue::Obj(fs) => {
                proof {
                    lemma_view_obj_of(v);
                }
                let login = match field_str(fs, "login") {
                    Ok(x) => x,
                    Err(e) => {
                        return Err(e);
                    },
                };
                let id = match field_u32(fs, "id") {
                    Ok(x) => x,
                    Err(e) => {
                        return Err(e);
                    },
                };
                let avatar_url = match field_str(fs, "avatar_url") {
                    Ok(x) => x,
                    Err(e) => {
                        return Err(e);
                    },
                };
                let gravatar_id = match field_str(fs, "gravatar_id") {
                    Ok(x) => x,
                    Err(e) => {
                        return Err(e);
                    },
                };
                let url = match field_str(fs, "url") {
                    Ok(x) => x,
                    Err(e) => {
                        return Err(e);
                    },
                };
                let html_url = match field_str(fs, "html_url") {
                    Ok(x) => x,
                    Err(e) => {
                        return Err(e);
                    },
                };
                let followers_url = match field_str(fs, "followers_url") {
                    Ok(x) => x,
                    Err(e) => {
                        return Err(e);
                    },
                };
                let following_url = match field_str(fs, "following_url") {
                    Ok(x) => x,
                    Err(e) => {
                        return Err(e);
                    },
                };
                let gists_url = match field_str(fs, "gists_url") {
                    Ok(x) => x,
                    Err(e) => {
                        return Err(e);
                    },
                };
                let subscriptions_url = match field_str(fs, "subscriptions_url") {
                    Ok(x) => x,
                    Err(e) => {
                        return Err(e);
                    },
                };
                let organizations_url = match field_str(fs, "organizations_url") {
                    Ok(x) => x,
                    Err(e) => {
                        return Err(e);
                    },
                };
                let repos_url = match field_str(fs, "repos_url") {
                    Ok(x) => x,
                    Err(e) => {
                        return Err(e);
                    },
                };
                let events_url = match field_str(fs, "events_url") {
                    Ok(x) => x,
                    Err(e) => {
                        return Err(e);
                    },
                };
                let received_events_url = match field_str(fs, "received_events_url") {
                    Ok(x) => x,
                    Err(e) => {
                        return Err(e);
                    },
                };
                let site_admin = match field_bool(fs, "site_admin") {
                    Ok(x) => x,
                    Err(e) => {
                        return Err(e);
                    },
                };
                Ok(
                    Organization {
                        login,
                        id,
                        avatar_url,
                        gravatar_id,
                        url,
                        html_url,
                        followers_url,
                        following_url,
                        gists_url,
                        subscriptions_url,
                        organizations_url,
                        repos_url,
                        events_url,
                        received_events_url,
                        site_admin,
                    },
                )
            },
            _ => Err(String::from_str("expected an object")),
        }
    }
}

} // verus!
