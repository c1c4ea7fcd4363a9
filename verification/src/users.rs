//! The user records the service returns.

use vstd::prelude::*;

use crate::codec::{spec_field_opt_str, spec_field_str, spec_field_u32, spec_field_bool,
    field_opt_str, field_str, field_u32, field_bool, JsonDecode};
use crate::json::{lemma_view_obj_of, seq_view_fields, JsonVal, JsonValue};
use crate::types::{Url, UserName};

verus! {

broadcast use vstd::seq::group_seq_axioms, vstd::std_specs::vec::group_vec_axioms;

/// An account as the service describes it in its responses.
#[derive(Debug, PartialEq, Clone)]
pub struct User {
    pub login: UserName,
    pub id: u32,
    pub avatar_url: Url,
    pub gravatar_id: String,
    pub html_url: Url,
    pub followers_url: Url,
    pub following_url: Url,
    pub gists_url: Url,
    pub starred_url: Url,
    pub subscriptions_url: Url,
    pub organizations_url: Url,
    pub repos_url: Url,
    pub events_url: Url,
    pub received_events_url: Url,
    pub site_admin: bool,
}

/// The model of `User`.
pub struct UserView {
    pub login: Seq<char>,
    pub id: u32,
    pub avatar_url: Seq<char>,
    pub gravatar_id: Seq<char>,
    pub html_url: Seq<char>,
    pub followers_url: Seq<char>,
    pub following_url: Seq<char>,
    pub gists_url: Seq<char>,
    pub starred_url: Seq<char>,
    pub subscriptions_url: Seq<char>,
    pub organizations_url: Seq<char>,
    pub repos_url: Seq<char>,
    pub events_url: Seq<char>,
    pub received_events_url: Seq<char>,
    pub site_admin: bool,
}

impl DeepView for User {
    type V = UserView;

    open spec fn deep_view(&self) -> UserView {
        UserView {
            login: self.login@,
            id: self.id,
            avatar_url: self.avatar_url@,
            gravatar_id: self.gravatar_id@,
            html_url: self.html_url@,
            followers_url: self.followers_url@,
            following_url: self.following_url@,
            gists_url: self.gists_url@,
            starred_url: self.starred_url@,
            subscriptions_url: self.subscriptions_url@,
            organizations_url: self.organizations_url@,
            repos_url: self.repos_url@,
            events_url: self.events_url@,
            received_events_url: self.received_events_url@,
            site_admin: self.site_admin,
        }
    }
}

impl JsonDecode for User {
    open spec fn spec_from_json(j: JsonVal) -> Option<UserView> {
        match j {
            JsonVal::Obj(fs) => {
                if spec_field_str(fs, "login"@) is None {
                    None
                } else if spec_field_u32(fs, "id"@) is None {
                    None
                } else if spec_field_str(fs, "avatar_url"@) is None {
                    None
                } else if spec_field_str(fs, "gravatar_id"@) is None {
                    None
                } else if spec_field_str(fs, "html_url"@) is None {
                    None
                } else if spec_field_str(fs, "followers_url"@) is None {
                    None
                } else if spec_field_str(fs, "following_url"@) is None {
                    None
                } else if spec_field_str(fs, "gists_url"@) is None {
                    None
                } else if spec_field_str(fs, "starred_url"@) is None {
                    None
                } else if spec_field_str(fs, "subscriptions_url"@) is None {
                    None
                } else if spec_field_str(fs, "organizations_url"@) is None {
                    None
                } else if spec_field_str(fs, "repos_url"@) is None {
                    None
                } else if spec_field_str(fs, "events_url"@) is None {
                    None
                } else if spec_field_str(fs, "received_events_url"@) is None {
                    None
                } else if spec_field_bool(fs, "site_admin"@) is None {
                    None
                } else {
                    Some(
                        UserView {
                            login: spec_field_str(fs, "login"@).unwrap(),
                            id: spec_field_u32(fs, "id"@).unwrap(),
                            avatar_url: spec_field_str(fs, "avatar_url"@).unwrap(),
                            gravatar_id: spec_field_str(fs, "gravatar_id"@).unwrap(),
                            html_url: spec_field_str(fs, "html_url"@).unwrap(),
                            followers_url: spec_field_str(fs, "followers_url"@).unwrap(),
                            following_url: spec_field_str(fs, "following_url"@).unwrap(),
                            gists_url: spec_field_str(fs, "gists_url"@).unwrap(),
                            starred_url: spec_field_str(fs, "starred_url"@).unwrap(),
                            subscriptions_url: spec_field_str(fs, "subscriptions_url"@).unwrap(),
                            organizations_url: spec_field_str(fs, "organizations_url"@).unwrap(),
                            repos_url: spec_field_str(fs, "repos_url"@).unwrap(),
                            events_url: spec_field_str(fs, "events_url"@).unwrap(),
                            received_events_url: spec_field_str(
                                fs,
                                "received_events_url"@,
                            ).unwrap(),
                            site_admin: spec_field_bool(fs, "site_admin"@).unwrap(),
                        },
                    )
                }
            },
            _ => None,
        }
    }

    fn from_json(v: &JsonValue) -> (r: Result<Self, String>) {
        match v {
            JsonValue::Obj(fs) => {
                proof {
                    lemma_view_obj_of(v);
                }
                let login = match field_str(fs, "login") {
                    Ok(x) => x,
                    Err(e) => {
                        return Err(e);
                    },
                };
                let id = match field_u32(fs, "id") {
                    Ok(x) => x,
                    Err(e) => {
                        return Err(e);
                    },
                };
                let avatar_url = match field_str(fs, "avatar_url") {
                    Ok(x) => x,
                    Err(e) => {
                        return Err(e);
                    },
                };
                let gravatar_id = match field_str(fs, "gravatar_id") {
                    Ok(x) => x,
                    Err(e) => {
                        return Err(e);
                    },
                };
                let html_url = match field_str(fs, "html_url") {
                    Ok(x) => x,
                    Err(e) => {
                        return Err(e);
                    },
                };
                let followers_url = match field_str(fs, "followers_url") {
                    Ok(x) => x,
                    Err(e) => {
                        return Err(e);
                    },
                };
                let following_url = match field_str(fs, "following_url") {
                    Ok(x) => x,
                    Err(e) => {
                        return Err(e);
                    },
                };
                let gists_url = match field_str(fs, "gists_url") {
                    Ok(x) => x,
                    Err(e) => {
                        return Err(e);
                    },
                };
                let starred_url = match field_str(fs, "starred_url") {
                    Ok(x) => x,
                    Err(e) => {
                        return Err(e);
                    },
                };
                let subscriptions_url = match field_str(fs, "subscriptions_url") {
                    Ok(x) => x,
                    Err(e) => {
                        return Err(e);
                    },
                };
                let organizations_url = match field_str(fs, "organizations_url") {
                    Ok(x) => x,
                    Err(e) => {
                        return Err(e);
                    },
                };
                let repos_url = match field_str(fs, "repos_url") {
                    Ok(x) => x,
                    Err(e) => {
                        return Err(e);
                    },
                };
                let events_url = match field_str(fs, "events_url") {
                    Ok(x) => x,
                    Err(e) => {
                        return Err(e);
                    },
                };
                let received_events_url = match field_str(fs, "received_events_url") {
                    Ok(x) => x,
                    Err(e) => {
                        return Err(e);
                    },
                };
                let site_admin = match field_bool(fs, "site_admin") {
                    Ok(x) => x,
                    Err(e) => {
                        return Err(e);
                    },
                };
                Ok(
                    User {
                        login,
                        id,
                        avatar_url,
                        gravatar_id,
                        html_url,
                        followers_url,
                        following_url,
                        gists_url,
                        starred_url,
                        subscriptions_url,
                        organizations_url,
                        repos_url,
                        events_url,
                        received_events_url,
                        site_admin,
                    },
                )
            },
            _ => Err(String::from_str("expected an object")),
        }
    }
}

/// The richer account record older responses carry; its fields match
/// `User`'s.
#[derive(Debug, PartialEq, Clone)]
pub struct GithubUser {
    pub login: UserName,
    pub id: u32,
    pub avatar_url: Url,
    pub gravatar_id: String,
    pub html_url: Url,
    pub followers_url: Url,
    pub following_url: Url,
    pub gists_url: Url,
    pub starred_url: Url,
    pub subscriptions_url: Url,
    pub organizations_url: Url,
    pub repos_url: Url,
    pub events_url: Url,
    pub received_events_url: Url,
    pub site_admin: bool,
}

/// The model of `GithubUser`.
pub struct GithubUserView {
    pub login: Seq<char>,
    pub id: u32,
    pub avatar_url: Seq<char>,
    pub gravatar_id: Seq<char>,
    pub html_url: Seq<char>,
    pub followers_url: Seq<char>,
    pub following_url: Seq<char>,
    pub gists_url: Seq<char>,
    pub starred_url: Seq<char>,
    pub subscriptions_url: Seq<char>,
    pub organizations_url: Seq<char>,
    pub repos_url: Seq<char>,
    pub events_url: Seq<char>,
    pub received_events_url: Seq<char>,
    pub site_admin: bool,
}

impl DeepView for GithubUser {
    type V = GithubUserView;

    open spec fn deep_view(&self) -> GithubUserView {
        GithubUserView {
            login: self.login@,
            id: self.id,
            avatar_url: self.avatar_url@,
            gravatar_id: self.gravatar_id@,
            html_url: self.html_url@,
            followers_url: self.followers_url@,
            following_url: self.following_url@,
            gists_url: self.gists_url@,
            starred_url: self.starred_url@,
            subscriptions_url: self.subscriptions_url@,
            organizations_url: self.organizations_url@,
            repos_url: self.repos_url@,
            events_url: self.events_url@,
            received_events_url: self.received_events_url@,
            site_admin: self.site_admin,
        }
    }
}

impl JsonDecode for GithubUser {
    open spec fn spec_from_json(j: JsonVal) -> Option<GithubUserView> {
        match User::spec_from_json(j) {
            Some(u) => Some(
                GithubUserView {
                    login: u.login,
                    id: u.id,
                    avatar_url: u.avatar_url,
                    gravatar_id: u.gravatar_id,
                    html_url: u.html_url,
                    followers_url: u.followers_url,
                    following_url: u.following_url,
                    gists_url: u.gists_url,
                    starred_url: u.starred_url,
                    subscriptions_url: u.subscriptions_url,
                    organizations_url: u.organizations_url,
                    repos_url: u.repos_url,
                    events_url: u.events_url,
                    received_events_url: u.received_events_url,
                    site_admin: u.site_admin,
                },
            ),
            None => None,
        }
    }

    fn from_json(v: &JsonValue) -> (r: Result<Self, String>) {
        match User::from_json(v) {
            Ok(u) => Ok(
                GithubUser {
                    login: u.login,
                    id: u.id,
                    avatar_url: u.avatar_url,
                    gravatar_id: u.gravatar_id,
                    html_url: u.html_url,
                    followers_url: u.followers_url,
                    following_url: u.following_url,
                    gists_url: u.gists_url,
                    starred_url: u.starred_url,
                    subscriptions_url: u.subscriptions_url,
                    organizations_url: u.organizations_url,
                    repos_url: u.repos_url,
                    events_url: u.events_url,
                    received_events_url: u.received_events_url,
                    site_admin: u.site_admin,
                },
            ),
            Err(e) => Err(e),
        }
    }
}

/// The light identity some records carry for a committer or pusher.
#[derive(Debug, PartialEq, Clone)]
pub struct GitUser {
    pub name: String,
    pub email: String,
    pub username: Option<UserName>,
}

/// The model of `GitUser`.
pub struct GitUserView {
    pub name: Seq<char>,
    pub email: Seq<char>,
    pub username: Option<Seq<char>>,
}

impl DeepView for GitUser {
    type V = GitUserView;

    open spec fn deep_view(&self) -> GitUserView {
        GitUserView {
            name: self.name@,
            email: self.email@,
            username: self.username.deep_view(),
        }
    }
}

impl JsonDecode for GitUser {
    open spec fn spec_from_json(j: JsonVal) -> Option<GitUserView> {
        match j {
            JsonVal::Obj(fs) => {
                if spec_field_str(fs, "name"@) is None {
                    None
                } else if spec_field_str(fs, "email"@) is None {
                    None
                } else if spec_field_opt_str(fs, "username"@) is None {
                    None
                } else {
                    Some(
                        GitUserView {
                            name: spec_field_str(fs, "name"@).unwrap(),
                            email: spec_field_str(fs, "email"@).unwrap(),
                            username: spec_field_opt_str(fs, "username"@).unwrap(),
                        },
                    )
                }
            },
            _ => None,
        }
    }

    fn from_json(v: &JsonValue) -> (r: Result<Self, String>) {
        match v {
            JsonValue::Obj(fs) => {
                proof {
                    lemma_view_obj_of(v);
                }
                let name = match field_str(fs, "name") {
                    Ok(x) => x,
                    Err(e) => {
                        return Err(e);
                    },
                };
                let email = match field_str(fs, "email") {
                    Ok(x) => x,
                    Err(e) => {
                        return Err(e);
                    },
                };
                let username = match field_opt_str(fs, "username") {
                    Ok(x) => x,
                    Err(e) => {
                        return Err(e);
                    },
                };
                Ok(GitUser { name, email, username })
            },
            _ => Err(String::from_str("expected an object")),
        }
    }
}

} // verus!
