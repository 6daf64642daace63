use vstd::prelude::*;

use crate::json::{json_view, json_views, member, parse_json, parsed_json, Json};
use crate::model::{view_repos, Error, Repo, RepoView, User, UserView};

verus! {

/// The text of member `key`, when it is there and is a string.
pub open spec fn text_member(m: Map<Seq<char>, Json>, key: Seq<char>) -> Option<Seq<char>> {
    if m.contains_key(key) {
        match m[key] {
            Json::Str(s) => Some(s),
            _ => None,
        }
    } else {
        None
    }
}

/// An optional text member: absent or `null` gives `Some(None)`, a string
/// `Some(Some(text))`, and anything else `None`.
pub open spec fn optional_text_member(m: Map<Seq<char>, Json>, key: Seq<char>) -> Option<
    Option<Seq<char>>,
> {
    if m.contains_key(key) {
        match m[key] {
            Json::Null => Some(None),
            Json::Str(s) => Some(Some(s)),
            _ => None,
        }
    } else {
        Some(None)
    }
}

/// The value of member `key`, when it is a non-negative integer that fits in 16 bits.
pub open spec fn count_member(m: Map<Seq<char>, Json>, key: Seq<char>) -> Option<u16> {
    if m.contains_key(key) {
        match m[key] {
            Json::Unsigned(n) => if n <= u16::MAX {
                Some(n as u16)
            } else {
                None
            },
            _ => None,
        }
    } else {
        None
    }
}

/// One element of a repository listing: an object with a string `name`, a
/// 16-bit `stargazers_count` and an optional string `description`. Other
/// members are ignored.
pub open spec fn repo_of(j: Json) -> Option<RepoView> {
    match j {
        Json::Object(m) => match (
            text_member(m, "name"@),
            optional_text_member(m, "description"@),
            count_member(m, "stargazers_count"@),
        ) {
            (Some(name), Some(description), Some(stars)) => Some(
                RepoView { name, description, stars },
            ),
            _ => None,
        },
        _ => None,
    }
}

/// A repository listing: an array whose every element is a repository.
pub open spec fn repos_of(j: Json) -> Option<Seq<RepoView>> {
    match j {
        Json::Array(items) => if forall|i: int| 0 <= i < items.len() ==> #[trigger] repo_of(items[i]) is Some {
            Some(items.map_values(|x: Json| repo_of(x)->Some_0))
        } else {
            None
        },
        _ => None,
    }
}

/// A user profile: an object with string members `login` and `avatar_url`.
pub open spec fn user_of(j: Json) -> Option<UserView> {
    match j {
        Json::Object(m) => match (text_member(m, "login"@), text_member(m, "avatar_url"@)) {
            (Some(login), Some(avatar_url)) => Some(UserView { login, avatar_url }),
            _ => None,
        },
        _ => None,
    }
}

/// What decoding a repository-listing body gives.
pub open spec fn decoded_repos(text: Seq<char>) -> Result<Seq<RepoView>, Error> {
    match parsed_json(text) {
        Some(j) => match repos_of(j) {
            Some(s) => Ok(s),
            None => Err(Error::InvalidResponse),
        },
        None => Err(Error::InvalidResponse),
    }
}

/// What decoding a profile body gives.
pub open spec fn decoded_user(text: Seq<char>) -> Result<UserView, Error> {
    match parsed_json(text) {
        Some(j) => match user_of(j) {
            Some(u) => Ok(u),
            None => Err(Error::InvalidResponse),
        },
        None => Err(Error::InvalidResponse),
    }
}

fn text_field(v: &serde_json::Value, key: &str) -> (r: Option<String>)
    requires
        json_view(*v) is Object,
    ensures
        match text_member(json_view(*v)->Object_0, key@) {
            Some(s) => r is Some && r->Some_0@ == s,
            None => r is None,
        },
{
    match member(v, key) {
        Some(x) => match x.as_str() {
            Some(s) => Some(String::from_str(s)),
            None => None,
        },
        None => None,
    }
}

fn optional_text_field(v: &serde_json::Value, key: &str) -> (r: Option<Option<String>>)
    requires
        json_view(*v) is Object,
    ensures
        match optional_text_member(json_view(*v)->Object_0, key@) {
            Some(Some(s)) => r is Some && r->Some_0 is Some && r->Some_0->Some_0@ == s,
            Some(None) => r == Some(None::<String>),
            None => r is None,
        },
{
    match member(v, key) {
        Some(x) => {
            if x.is_null() {
                Some(None)
            } else {
                match x.as_str() {
                    Some(s) => Some(Some(String::from_str(s))),
                    None => None,
                }
            }
        },
        None => Some(None),
    }
}

fn count_field(v: &serde_json::Value, key: &str) -> (r: Option<u16>)
    requires
        json_view(*v) is Object,
    ensures
        r == count_member(json_view(*v)->Object_0, key@),
{
    match member(v, key) {
        Some(x) => match x.as_u64() {
            Some(n) => if n <= u16::MAX as u64 {
                Some(n as u16)
            } else {
                None
            },
            None => None,
        },
        None => None,
    }
}

/// Reads one element of a repository listing.
pub fn repo_from_json(v: &serde_json::Value) -> (r: Option<Repo>)
    ensures
        match repo_of(json_view(*v)) {
            Some(rv) => r is Some && r->Some_0@ == rv,
            None => r is None,
        },
{
    if !v.is_object() {
        return None;
    }
    let name = match text_field(v, "name") {
        Some(n) => n,
        None => return None,
    };
    let description = match optional_text_field(v, "description") {
        Some(d) => d,
        None => return None,
    };
    let stars = match count_field(v, "stargazers_count") {
        Some(n) => n,
        None => return None,
    };
    Some(Repo { name, description, stargazers_count: stars })
}

/// Reads a repository listing from a parsed body.
pub fn repositories_from_json(v: &serde_json::Value) -> (r: Result<Vec<Repo>, Error>)
    ensures
        match repos_of(json_view(*v)) {
            Some(s) => r is Ok && view_repos(r->Ok_0@) == s,
            None => r == Err::<Vec<Repo>, Error>(Error::InvalidResponse),
        },
{
    let items = match v.as_array() {
        Some(items) => items,
        None => return Err(Error::InvalidResponse),
    };
    let ghost js = json_views(items@);
    let mut out: Vec<Repo> = Vec::new();
    let mut i: usize = 0;
    while i < items.len()
        invariant
            i <= items@.len(),
            js == json_views(items@),
            json_view(*v) == Json::Array(js),
            forall|k: int| 0 <= k < i ==> #[trigger] repo_of(js[k]) is Some,
            view_repos(out@) =~= js.subrange(0, i as int).map_values(|x: Json| repo_of(x)->Some_0),
        decreases items@.len() - i,
    {
        assert(js[i as int] == json_view(items@[i as int]));
        match repo_from_json(&items[i]) {
            Some(repo) => {
                let ghost prev = out@;
                out.push(repo);
                proof {
                    assert(view_repos(out@) =~= view_repos(prev).push(repo@));
                    assert(js.subrange(0, i + 1) =~= js.subrange(0, i as int).push(js[i as int]));
                }
                i = i + 1;
            },
            None => {
                return Err(Error::InvalidResponse);
            },
        }
    }
    assert(js.subrange(0, i as int) =~= js);
    Ok(out)
}

/// Reads a user profile from a parsed body.
pub fn user_from_json(v: &serde_json::Value) -> (r: Result<User, Error>)
    ensures
        match user_of(json_view(*v)) {
            Some(u) => r is Ok && r->Ok_0@ == u,
            None => r == Err::<User, Error>(Error::InvalidResponse),
        },
{
    if !v.is_object() {
        return Err(Error::InvalidResponse);
    }
    let login = match text_field(v, "login") {
        Some(s) => s,
        None => return Err(Error::InvalidResponse),
    };
    let avatar_url = match text_field(v, "avatar_url") {
        Some(s) => s,
        None => return Err(Error::InvalidResponse),
    };
    Ok(User { login, avatar_url })
}

/// Decodes the body of a repository listing. Malformed JSON and a document
/// of another shape are both `InvalidResponse`.
pub fn decode_repositories(text: &str) -> (r: Result<Vec<Repo>, Error>)
    ensures
        match decoded_repos(text@) {
            Ok(s) => r is Ok && view_repos(r->Ok_0@) == s,
            Err(e) => r == Err::<Vec<Repo>, Error>(e),
        },
{
    match parse_json(text) {
        Some(v) => repositories_from_json(&v),
        None => Err(Error::InvalidResponse),
    }
}

/// Decodes the body of a user profile. Malformed JSON and a document of
/// another shape are both `InvalidResponse`.
pub fn decode_user(text: &str) -> (r: Result<User, Error>)
    ensures
        match decoded_user(text@) {
            Ok(u) => r is Ok && r->Ok_0@ == u,
            Err(e) => r == Err::<User, Error>(e),
        },
{
    match parse_json(text) {
        Some(v) => user_from_json(&v),
        None => Err(Error::InvalidResponse),
    }
}

/// A listing body with an element that has no `name` fails to decode, as
/// an invalid response.
pub proof fn lemma_missing_name_rejected(text: Seq<char>, items: Seq<Json>, i: int)
    requires
        parsed_json(text) == Some(Json::Array(items)),
        0 <= i < items.len(),
        items[i] is Object ==> !items[i]->Object_0.contains_key("name"@),
    ensures
        decoded_repos(text) == Err::<Seq<RepoView>, Error>(Error::InvalidResponse),
{
    assert(repo_of(items[i]) is None);
}

/// A listing element without a `description` decodes, to an absent
/// description rather than to any text.
pub proof fn lemma_absent_description_kept(m: Map<Seq<char>, Json>)
    requires
        text_member(m, "name"@) is Some,
        count_member(m, "stargazers_count"@) is Some,
        !m.contains_key("description"@),
    ensures
        repo_of(Json::Object(m)) is Some,
        repo_of(Json::Object(m))->Some_0.description is None,
{
}

/// A listing decodes exactly when each element does, and then element by element.
pub proof fn lemma_listing_elementwise(items: Seq<Json>)
    ensures
        repos_of(Json::Array(items)) is Some <==> forall|i: int|
            0 <= i < items.len() ==> #[trigger] repo_of(items[i]) is Some,
        repos_of(Json::Array(items)) is Some ==> {
            let s = repos_of(Json::Array(items))->Some_0;
            &&& s.len() == items.len()
            &&& forall|i: int| 0 <= i < items.len() ==> Some(#[trigger] s[i]) == repo_of(items[i])
        },
{
}

} // verus!
