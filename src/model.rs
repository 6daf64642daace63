use vstd::prelude::*;

verus! {

/// Why a search attempt failed.
#[derive(Debug, Clone, Copy, PartialEq, Eq, Structural)]
pub enum Error {
    /// A request could not be sent or its body could not be read.
    NetworkError,
    /// A body was not JSON of the expected shape.
    InvalidResponse,
    /// The rate-limit headers of the profile response were missing or not numbers.
    RateLimitUnavailable,
}

/// One repository of a user, as the repository listing describes it.
#[derive(Debug, Clone)]
pub struct Repo {
    pub name: String,
    /// `None` when the listing gives no description.
    pub description: Option<String>,
    pub stargazers_count: u16,
}

/// A repository as a mathematical value.
pub struct RepoView {
    pub name: Seq<char>,
    pub description: Option<Seq<char>>,
    pub stars: u16,
}

pub open spec fn optional_text(s: Option<String>) -> Option<Seq<char>> {
    match s {
        Some(t) => Some(t@),
        None => None,
    }
}

impl View for Repo {
    type V = RepoView;

    open spec fn view(&self) -> RepoView {
        RepoView {
            name: self.name@,
            description: optional_text(self.description),
            stars: self.stargazers_count,
        }
    }
}

/// What is shown for a repository that has no description.
pub const NO_DESCRIPTION: &'static str = "No description";

impl Repo {
    /// The description to show: the repository's own, or a placeholder.
    pub fn description_text(&self) -> (r: String)
        ensures
            r@ == match self@.description {
                Some(d) => d,
                None => NO_DESCRIPTION@,
            },
    {
        match &self.description {
            Some(d) => d.clone(),
            None => String::from_str(NO_DESCRIPTION),
        }
    }
}

pub open spec fn view_repos(s: Seq<Repo>) -> Seq<RepoView> {
    s.map_values(|r: Repo| r@)
}

/// The user whose repositories are listed.
#[derive(Debug, Clone)]
pub struct User {
    pub login: String,
    pub avatar_url: String,
}

/// A user as a mathematical value.
pub struct UserView {
    pub login: Seq<char>,
    pub avatar_url: Seq<char>,
}

impl View for User {
    type V = UserView;

    open spec fn view(&self) -> UserView {
        UserView { login: self.login@, avatar_url: self.avatar_url@ }
    }
}

/// The API quota as reported alongside the profile response.
#[derive(Debug, Clone, Copy, PartialEq, Eq, Structural)]
pub struct RateLimit {
    pub limit: u16,
    pub remaining: u16,
    /// Seconds until the quota is restored; never negative.
    pub reset: u64,
}

} // verus!

verus! {

/// Everything a successful search shows.
#[derive(Debug, Clone)]
pub struct SearchResult {
    /// Ordered by stars, most first; equal counts keep the listing's order.
    pub repositories: Vec<Repo>,
    pub user: User,
    /// The avatar image as fetched, undecoded.
    pub avatar: Vec<u8>,
    pub rate_limit: RateLimit,
}

} // verus!
