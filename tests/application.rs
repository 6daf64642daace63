use repo_list::app_state::{profile_link, Command, List, Message, RepoList};
use repo_list::model::{Error, RateLimit, Repo, SearchResult, User};

fn result_for(login: &str) -> SearchResult {
    SearchResult {
        repositories: vec![Repo { name: format!("{}-repo", login), description: None, stargazers_count: 1 }],
        user: User { login: login.to_string(), avatar_url: format!("https://avatars.example/{}", login) },
        avatar: vec![0],
        rate_limit: RateLimit { limit: 60, remaining: 58, reset: 30 },
    }
}

fn start(app: &mut RepoList, query: &str) -> u64 {
    match app.update(Message::Search(query.to_string())) {
        Command::Search { generation, query: q } => {
            assert_eq!(q, query);
            generation
        }
        _ => panic!("a search must start"),
    }
}

fn shown_login(app: &RepoList) -> Option<String> {
    match &app.list {
        List::Loaded { result } => Some(result.user.login.clone()),
        _ => None,
    }
}

#[test]
fn starts_waiting_for_input() {
    let app = RepoList::new();
    assert!(matches!(app.list, List::EnterUsername));
    assert_eq!(app.input_value, "");
    assert!(app.rate_limit.is_none());
    assert_eq!(app.title(), "Repo List");
}

#[test]
fn search_then_result() {
    let mut app = RepoList::new();
    let g = start(&mut app, "alice");
    assert!(matches!(app.list, List::Loading { .. }));
    assert!(matches!(app.update(Message::Loaded { generation: g, result: Ok(result_for("Alice")) }), Command::Nothing));
    assert_eq!(shown_login(&app), Some("Alice".to_string()));
    assert_eq!(app.input_value, "Alice");
    assert_eq!(app.rate_limit, Some(RateLimit { limit: 60, remaining: 58, reset: 30 }));
}

#[test]
fn later_search_wins_when_answered_last() {
    let mut app = RepoList::new();
    let g1 = start(&mut app, "alice");
    let g2 = start(&mut app, "bob");
    assert_ne!(g1, g2);
    app.update(Message::Loaded { generation: g1, result: Ok(result_for("alice")) });
    app.update(Message::Loaded { generation: g2, result: Ok(result_for("bob")) });
    assert_eq!(shown_login(&app), Some("bob".to_string()));
}

#[test]
fn later_search_wins_when_answered_first() {
    let mut app = RepoList::new();
    let g1 = start(&mut app, "alice");
    let g2 = start(&mut app, "bob");
    app.update(Message::Loaded { generation: g2, result: Ok(result_for("bob")) });
    app.update(Message::Loaded { generation: g1, result: Ok(result_for("alice")) });
    assert_eq!(shown_login(&app), Some("bob".to_string()));
    assert_eq!(app.input_value, "bob");
}

#[test]
fn failed_search_shows_error() {
    let mut app = RepoList::new();
    let g = start(&mut app, "nobody");
    app.update(Message::Loaded { generation: g, result: Err(Error::InvalidResponse) });
    assert!(matches!(app.list, List::Errored { error: Error::InvalidResponse }));
    let g2 = start(&mut app, "again");
    assert!(g2 > g);
    assert!(matches!(app.list, List::Loading { .. }));
}

#[test]
fn input_and_links() {
    let mut app = RepoList::new();
    assert!(matches!(app.update(Message::InputChanged("ca".to_string())), Command::Nothing));
    assert_eq!(app.input_value, "ca");
    match app.update(Message::OpenLink("https://github.com/ca".to_string())) {
        Command::OpenLink(url) => assert_eq!(url, "https://github.com/ca"),
        _ => panic!("a link must be opened"),
    }
    assert_eq!(profile_link("octocat"), "https://github.com/octocat");
}
