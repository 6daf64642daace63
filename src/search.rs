use vstd::prelude::*;

use crate::decode::{decode_repositories, decode_user, decoded_repos, decoded_user};
use crate::model::{optional_text, view_repos, Error, RateLimit, Repo, SearchResult, User};
use crate::rate_limit::{rate_limit_from_headers, rate_limit_of};
use crate::sort::{sort_by_stars, stable_star_order};

verus! {

/// The user searched for when the query is empty.
pub const DEFAULT_USERNAME: &'static str = "dot32iscool";

/// Where the API's user resources start.
pub const USERS_ENDPOINT: &'static str = "https://api.github.com/users/";

/// The path after the user name that lists repositories, one page of at most a hundred.
pub const REPOS_PATH: &'static str = "/repos?per_page=100";

/// The value of the `User-Agent` header that API requests carry.
pub const USER_AGENT: &'static str = "repo_list";

/// The user that a query names: the query itself, or the default user when it is empty.
pub open spec fn normalized(query: Seq<char>) -> Seq<char> {
    if query.len() == 0 {
        DEFAULT_USERNAME@
    } else {
        query
    }
}

pub open spec fn repos_url(user: Seq<char>) -> Seq<char> {
    USERS_ENDPOINT@ + user + REPOS_PATH@
}

pub open spec fn profile_url(user: Seq<char>) -> Seq<char> {
    USERS_ENDPOINT@ + user
}

/// An HTTP GET to perform.
#[derive(Debug, Clone)]
pub struct Get {
    pub url: String,
    /// The `User-Agent` header to send, if any.
    pub user_agent: Option<String>,
}

/// A GET of the API at `url`, identified by the `User-Agent` header.
pub open spec fn is_api_get(g: Get, url: Seq<char>) -> bool {
    &&& g.url@ == url
    &&& g.user_agent is Some
    &&& g.user_agent->Some_0@ == USER_AGENT@
}

/// A GET of `url` with no extra header.
pub open spec fn is_plain_get(g: Get, url: Seq<char>) -> bool {
    g.url@ == url && g.user_agent is None
}

/// A request that could not be sent, or whose body could not be read.
#[derive(Debug, Clone, Copy, PartialEq, Eq, Structural)]
pub struct TransportError;

/// What the profile request returned: the three rate-limit header values as
/// text (`None` when absent or not text), the Unix time it arrived at, and
/// its body.
#[derive(Debug)]
pub struct ProfileReply {
    pub remaining: Option<String>,
    pub limit: Option<String>,
    pub reset: Option<String>,
    pub now: u64,
    pub body: Result<String, TransportError>,
}

/// The rate limit that a profile reply carries, if it can be read.
pub open spec fn reply_rate_limit(p: ProfileReply) -> Option<RateLimit> {
    rate_limit_of(optional_text(p.remaining), optional_text(p.limit), optional_text(p.reset), p.now)
}

/// Where a search stands: which reply it waits for, and what it has gathered.
pub enum Stage {
    Repos,
    Profile { repos: Vec<Repo> },
    Avatar { repos: Vec<Repo>, user: User, rate_limit: RateLimit },
    Done,
}

/// What the caller does next.
pub enum Action {
    /// Perform the request and hand its reply to the search.
    Get(Get),
    /// The search is over.
    Finish(Result<SearchResult, Error>),
}

/// One search attempt: a listing request, a profile request, and an avatar
/// request, in that order, each one only after the one before succeeded.
pub struct Search {
    pub username: String,
    pub stage: Stage,
}

fn api_get(url: String) -> (g: Get)
    ensures
        is_api_get(g, url@),
{
    Get { url, user_agent: Some(String::from_str(USER_AGENT)) }
}

impl Search {
    /// Begins a search for `query`, or for the default user when it is empty,
    /// and gives the listing request to perform.
    pub fn start(query: &str) -> (r: (Search, Get))
        ensures
            r.0.username@ == normalized(query@),
            r.0.stage is Repos,
            is_api_get(r.1, repos_url(normalized(query@))),
    {
        let username = if query.unicode_len() == 0 {
            String::from_str(DEFAULT_USERNAME)
        } else {
            String::from_str(query)
        };
        let mut url = String::from_str(USERS_ENDPOINT);
        url.append(username.as_str());
        url.append(REPOS_PATH);
        (Search { username, stage: Stage::Repos }, api_get(url))
    }

    /// Takes the reply to the listing request. A readable listing is ordered
    /// by stars and the profile request follows.
    pub fn on_repos(&mut self, reply: Result<String, TransportError>) -> (r: Action)
        requires
            old(self).stage is Repos,
        ensures
            final(self).username == old(self).username,
            match reply {
                Err(_) => final(self).stage is Done && r == Action::Finish(
                    Err(Error::NetworkError),
                ),
                Ok(text) => match decoded_repos(text@) {
                    Err(e) => final(self).stage is Done && r == Action::Finish(Err(e)),
                    Ok(listed) => {
                        &&& final(self).stage is Profile
                        &&& stable_star_order(
                            view_repos(final(self).stage->Profile_repos@),
                            listed,
                        )
                        &&& r is Get
                        &&& is_api_get(r->Get_0, profile_url(old(self).username@))
                    },
                },
            },
    {
        let text = match reply {
            Ok(text) => text,
            Err(_) => {
                self.stage = Stage::Done;
                return Action::Finish(Err(Error::NetworkError));
            },
        };
        let mut repos = match decode_repositories(text.as_str()) {
            Ok(repos) => repos,
            Err(e) => {
                self.stage = Stage::Done;
                return Action::Finish(Err(e));
            },
        };
        sort_by_stars(&mut repos);
        self.stage = Stage::Profile { repos };
        let mut url = String::from_str(USERS_ENDPOINT);
        url.append(self.username.as_str());
        Action::Get(api_get(url))
    }

    /// Takes the reply to the profile request. With a readable rate limit and
    /// profile, the avatar request follows.
    pub fn on_profile(&mut self, reply: Result<ProfileReply, TransportError>) -> (r: Action)
        requires
            old(self).stage is Profile,
        ensures
            final(self).username == old(self).username,
            match reply {
                Err(_) => final(self).stage is Done && r == Action::Finish(
                    Err(Error::NetworkError),
                ),
                Ok(p) => match reply_rate_limit(p) {
                    None => final(self).stage is Done && r == Action::Finish(
                        Err(Error::RateLimitUnavailable),
                    ),
                    Some(rl) => match p.body {
                        Err(_) => final(self).stage is Done && r == Action::Finish(
                            Err(Error::NetworkError),
                        ),
                        Ok(text) => match decoded_user(text@) {
                            Err(e) => final(self).stage is Done && r == Action::Finish(Err(e)),
                            Ok(u) => {
                                &&& final(self).stage is Avatar
                                &&& final(self).stage->Avatar_repos == old(
                                    self,
                                ).stage->Profile_repos
                                &&& final(self).stage->Avatar_user@ == u
                                &&& final(self).stage->Avatar_rate_limit == rl
                                &&& r is Get
                                &&& is_plain_get(r->Get_0, u.avatar_url)
                            },
                        },
                    },
                },
            },
    {
        let p = match reply {
            Ok(p) => p,
            Err(_) => {
                self.stage = Stage::Done;
                return Action::Finish(Err(Error::NetworkError));
            },
        };
        let rate_limit = match rate_limit_from_headers(
            opt_str(&p.remaining),
            opt_str(&p.limit),
            opt_str(&p.reset),
            p.now,
        ) {
            Ok(rl) => rl,
            Err(e) => {
                self.stage = Stage::Done;
                return Action::Finish(Err(e));
            },
        };
        let text = match p.body {
            Ok(text) => text,
            Err(_) => {
                self.stage = Stage::Done;
                return Action::Finish(Err(Error::NetworkError));
            },
        };
        let user = match decode_user(text.as_str()) {
            Ok(user) => user,
            Err(e) => {
                self.stage = Stage::Done;
                return Action::Finish(Err(e));
            },
        };
        let mut stage = Stage::Done;
        std::mem::swap(&mut self.stage, &mut stage);
        let repos = match stage {
            Stage::Profile { repos } => repos,
            _ => Vec::new(),
        };
        let url = user.avatar_url.clone();
        self.stage = Stage::Avatar { repos, user, rate_limit };
        Action::Get(Get { url, user_agent: None })
    }

    /// Takes the reply to the avatar request; the search is then over.
    pub fn on_avatar(&mut self, reply: Result<Vec<u8>, TransportError>) -> (r: Action)
        requires
            old(self).stage is Avatar,
        ensures
            final(self).username == old(self).username,
            final(self).stage is Done,
            match reply {
                Err(_) => r == Action::Finish(Err(Error::NetworkError)),
                Ok(bytes) => r == Action::Finish(
                    Ok(
                        SearchResult {
                            repositories: old(self).stage->Avatar_repos,
                            user: old(self).stage->Avatar_user,
                            avatar: bytes,
                            rate_limit: old(self).stage->Avatar_rate_limit,
                        },
                    ),
                ),
            },
    {
        let mut stage = Stage::Done;
        std::mem::swap(&mut self.stage, &mut stage);
        match reply {
            Err(_) => Action::Finish(Err(Error::NetworkError)),
            Ok(avatar) => match stage {
                Stage::Avatar { repos, user, rate_limit } => Action::Finish(
                    Ok(SearchResult { repositories: repos, user, avatar, rate_limit }),
                ),
                _ => Action::Finish(Err(Error::NetworkError)),
            },
        }
    }
}

fn opt_str(h: &Option<String>) -> (r: Option<&str>)
    ensures
        match *h {
            Some(s) => r is Some && r->Some_0@ == s@,
            None => r is None,
        },
{
    match h {
        Some(s) => Some(s.as_str()),
        None => None,
    }
}

/// An empty query searches for the default user: its requests are those of
/// a search for that user by name.
pub proof fn lemma_empty_query_searches_default_user()
    ensures
        normalized(Seq::<char>::empty()) == DEFAULT_USERNAME@,
        repos_url(normalized(Seq::<char>::empty())) == repos_url(DEFAULT_USERNAME@),
        profile_url(normalized(Seq::<char>::empty())) == profile_url(DEFAULT_USERNAME@),
{
}

} // verus!
