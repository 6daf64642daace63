use vstd::prelude::*;

use crate::model::{Error, RateLimit, SearchResult};

verus! {

/// Where profile pages live.
pub const PROFILE_PAGES: &'static str = "https://github.com/";

/// What the window shows below the search field.
pub enum List {
    EnterUsername,
    Loading { query: String },
    Loaded { result: SearchResult },
    Errored { error: Error },
}

/// What the application is told.
pub enum Message {
    /// A search finished; `generation` is the one it was started with.
    Loaded { generation: u64, result: Result<SearchResult, Error> },
    Search(String),
    InputChanged(String),
    OpenLink(String),
}

/// What the application asks its runtime to do.
pub enum Command {
    Nothing,
    /// Run a search for `query` and report it back with `generation`.
    Search { generation: u64, query: String },
    /// Open `url` in the browser.
    OpenLink(String),
}

/// The application: the search field, what is shown, the last known rate
/// limit, and the generation of the latest search started.
pub struct RepoList {
    pub input_value: String,
    pub list: List,
    pub rate_limit: Option<RateLimit>,
    pub generation: u64,
}

/// What a finished search shows.
pub open spec fn resolved(result: Result<SearchResult, Error>) -> List {
    match result {
        Ok(r) => List::Loaded { result: r },
        Err(e) => List::Errored { error: e },
    }
}

/// A message may be taken in `s` unless it starts a search when the
/// generation counter is exhausted.
pub open spec fn accepts(s: RepoList, m: Message) -> bool {
    m is Search ==> s.generation < u64::MAX
}

/// The state after `m`, and the command it gives. A search always starts,
/// under a new generation; a finished search is shown only when it is the
/// latest one started and nothing has been shown for it yet.
pub open spec fn transition(s: RepoList, m: Message) -> (RepoList, Command) {
    match m {
        Message::Loaded { generation, result } => if generation == s.generation
            && s.list is Loading {
            let rl = match result {
                Ok(r) => Some(r.rate_limit),
                Err(_) => s.rate_limit,
            };
            let input = match result {
                Ok(r) => r.user.login,
                Err(_) => s.input_value,
            };
            (
                RepoList {
                    input_value: input,
                    list: resolved(result),
                    rate_limit: rl,
                    generation: s.generation,
                },
                Command::Nothing,
            )
        } else {
            (s, Command::Nothing)
        },
        Message::Search(query) => {
            let g = (s.generation + 1) as u64;
            (
                RepoList { list: List::Loading { query }, generation: g, ..s },
                Command::Search { generation: g, query },
            )
        },
        Message::InputChanged(input) => (RepoList { input_value: input, ..s }, Command::Nothing),
        Message::OpenLink(url) => (s, Command::OpenLink(url)),
    }
}

impl RepoList {
    /// The application at startup: waiting for a user name.
    pub fn new() -> (r: RepoList)
        ensures
            r.input_value@ == Seq::<char>::empty(),
            r.list is EnterUsername,
            r.rate_limit is None,
            r.generation == 0,
    {
        RepoList {
            input_value: String::new(),
            list: List::EnterUsername,
            rate_limit: None,
            generation: 0,
        }
    }

    /// The window title.
    pub fn title(&self) -> (r: String)
        ensures
            r@ == "Repo List"@,
    {
        String::from_str("Repo List")
    }

    /// Takes one message, replacing the state as a whole.
    pub fn update(&mut self, message: Message) -> (r: Command)
        requires
            accepts(*old(self), message),
        ensures
            (*final(self), r) == transition(*old(self), message),
    {
        match message {
            Message::Loaded { generation, result } => {
                if generation == self.generation && matches!(self.list, List::Loading { .. }) {
                    match result {
                        Ok(r) => {
                            self.input_value = r.user.login.clone();
                            self.rate_limit = Some(r.rate_limit);
                            self.list = List::Loaded { result: r };
                        },
                        Err(e) => {
                            self.list = List::Errored { error: e };
                        },
                    }
                }
                Command::Nothing
            },
            Message::Search(query) => {
                self.generation = self.generation + 1;
                let q = query.clone();
                self.list = List::Loading { query };
                Command::Search { generation: self.generation, query: q }
            },
            Message::InputChanged(input) => {
                self.input_value = input;
                Command::Nothing
            },
            Message::OpenLink(url) => Command::OpenLink(url),
        }
    }
}

/// The address of a user's profile page.
pub fn profile_link(login: &str) -> (r: String)
    ensures
        r@ == PROFILE_PAGES@ + login@,
{
    let mut url = String::from_str(PROFILE_PAGES);
    url.append(login);
    url
}

/// Two searches started one after the other: whichever finishes first, the
/// state ends up showing the second one's outcome, exactly as if the first
/// had never answered.
pub proof fn lemma_latest_search_wins(
    s: RepoList,
    first: String,
    second: String,
    first_result: Result<SearchResult, Error>,
    second_result: Result<SearchResult, Error>,
)
    requires
        s.generation + 2 <= u64::MAX,
    ensures
        ({
            let (s1, c1) = transition(s, Message::Search(first));
            let (s2, c2) = transition(s1, Message::Search(second));
            let g1 = c1->Search_generation;
            let g2 = c2->Search_generation;
            let stale = Message::Loaded { generation: g1, result: first_result };
            let fresh = Message::Loaded { generation: g2, result: second_result };
            let in_order = transition(transition(s2, stale).0, fresh).0;
            let reversed = transition(transition(s2, fresh).0, stale).0;
            &&& c1 is Search && c2 is Search
            &&& g1 != g2
            &&& in_order == reversed
            &&& in_order == transition(s2, fresh).0
            &&& in_order.list == resolved(second_result)
        }),
{
}

/// A finished search whose generation is not the latest one started
/// changes nothing.
pub proof fn lemma_stale_result_ignored(s: RepoList, generation: u64, result: Result<SearchResult, Error>)
    requires
        generation != s.generation,
    ensures
        transition(s, Message::Loaded { generation, result }) == (s, Command::Nothing),
{
}

} // verus!
