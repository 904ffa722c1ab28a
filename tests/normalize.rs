use bsgapp::{
    repo_name, short_message, Commit, Event, FetchError, LatestCommits, Payload, Repo,
};

fn commit(message: &str) -> Commit {
    Commit {
        message: message.to_string(),
        url: "https://api.github.com/repos/acme/widget/commits/abc".to_string(),
    }
}

fn event(event_type: &str, url: &str, commits: Option<Vec<Commit>>) -> Event {
    Event {
        id: "1".to_string(),
        event_type: event_type.to_string(),
        repo: Repo {
            id: 7,
            name: "acme/widget".to_string(),
            url: url.to_string(),
        },
        payload: Payload { commits },
    }
}

const WIDGET: &str = "https://api.github.com/repos/acme/widget";

#[test]
fn push_event_scenario() {
    let events = vec![event(
        "PushEvent",
        WIDGET,
        Some(vec![commit("fix bug\ndetails here")]),
    )];
    let feed = LatestCommits::from(events).unwrap();
    assert_eq!(feed.commits.len(), 1);
    let c = &feed.commits[0];
    assert_eq!(c.repo_name, "acme/widget");
    assert_eq!(c.repo_url, "https://github.com/acme/widget");
    assert_eq!(c.message_short, "fix bug");
    assert_eq!(c.message, "fix bug\ndetails here");
}

#[test]
fn watch_event_only_gives_empty_feed() {
    let events = vec![event("WatchEvent", WIDGET, None)];
    let feed = LatestCommits::from(events).unwrap();
    assert!(feed.commits.is_empty());
}

#[test]
fn absent_commits_contribute_nothing() {
    let events = vec![
        event("PushEvent", WIDGET, None),
        event("PushEvent", WIDGET, Some(vec![commit("one")])),
    ];
    let feed = LatestCommits::from(events).unwrap();
    assert_eq!(feed.commits.len(), 1);
    assert_eq!(feed.commits[0].message, "one");
}

#[test]
fn sixty_character_line_is_cut_to_fifty() {
    let line = "a".repeat(60);
    let events = vec![event("PushEvent", WIDGET, Some(vec![commit(&line)]))];
    let feed = LatestCommits::from(events).unwrap();
    let short = &feed.commits[0].message_short;
    assert_eq!(short.chars().count(), 50);
    assert!(short.ends_with("..."));
    assert_eq!(&short[..47], &line[..47]);
}

#[test]
fn length_is_sum_of_push_commit_counts() {
    let events = vec![
        event("PushEvent", WIDGET, Some(vec![commit("a"), commit("b")])),
        event("WatchEvent", WIDGET, Some(vec![commit("ignored")])),
        event("PushEvent", "https://api.github.com/repos/me/other", None),
        event("PushEvent", "https://api.github.com/repos/me/other", Some(vec![commit("c")])),
        event("PushEvent", WIDGET, Some(vec![])),
    ];
    let feed = LatestCommits::from(events).unwrap();
    assert_eq!(feed.commits.len(), 3);
    let messages: Vec<&str> = feed.commits.iter().map(|c| c.message.as_str()).collect();
    assert_eq!(messages, vec!["a", "b", "c"]);
    assert_eq!(feed.commits[2].repo_name, "me/other");
    assert_eq!(feed.commits[2].repo_url, "https://github.com/me/other");
}

#[test]
fn non_push_event_with_commits_gives_nothing() {
    let events = vec![
        event("CreateEvent", WIDGET, Some(vec![commit("x"), commit("y")])),
        event("IssuesEvent", "no marker here", Some(vec![commit("z")])),
    ];
    let feed = LatestCommits::from(events).unwrap();
    assert!(feed.commits.is_empty());
}

#[test]
fn same_input_twice_gives_same_output() {
    let make = || {
        vec![
            event("PushEvent", WIDGET, Some(vec![commit("first\nbody"), commit("second")])),
            event("ForkEvent", WIDGET, None),
        ]
    };
    let a = LatestCommits::from(make()).unwrap();
    let b = LatestCommits::from(make()).unwrap();
    assert_eq!(a.commits.len(), b.commits.len());
    for (x, y) in a.commits.iter().zip(b.commits.iter()) {
        assert_eq!(x.message, y.message);
        assert_eq!(x.message_short, y.message_short);
        assert_eq!(x.repo_name, y.repo_name);
        assert_eq!(x.repo_url, y.repo_url);
    }
}

#[test]
fn missing_marker_is_a_data_shape_violation() {
    let events = vec![event(
        "PushEvent",
        "https://api.github.com/acme/widget",
        Some(vec![commit("m")]),
    )];
    assert_eq!(
        LatestCommits::from(events).unwrap_err(),
        FetchError::DataShapeViolation
    );
}

#[test]
fn missing_marker_without_commits_is_fine() {
    let events = vec![event("PushEvent", "https://api.github.com/acme/widget", Some(vec![]))];
    assert!(LatestCommits::from(events).unwrap().commits.is_empty());
}

#[test]
fn empty_feed_gives_empty_list() {
    assert!(LatestCommits::from(vec![]).unwrap().commits.is_empty());
}

#[test]
fn short_message_keeps_short_first_line() {
    assert_eq!(short_message("hello\nworld"), "hello");
    assert_eq!(short_message("no newline"), "no newline");
    assert_eq!(short_message(""), "");
    assert_eq!(short_message("\nsecond"), "");
}

#[test]
fn short_message_at_exactly_fifty() {
    let line = "b".repeat(50);
    assert_eq!(short_message(&line), line);
    let longer = "c".repeat(51);
    assert_eq!(short_message(&longer), format!("{}...", "c".repeat(47)));
}

#[test]
fn short_message_counts_characters() {
    let line = "é".repeat(55);
    let short = short_message(&line);
    assert_eq!(short.chars().count(), 50);
    assert_eq!(short, format!("{}...", "é".repeat(47)));
}

#[test]
fn repo_name_takes_segment_after_marker() {
    assert_eq!(repo_name(WIDGET).unwrap(), "acme/widget");
    assert_eq!(repo_name("repos/").unwrap(), "");
    assert_eq!(repo_name("x/repos/a/repos/b").unwrap(), "a/repos/b");
    assert_eq!(repo_name("https://api.github.com/repos/repos/x").unwrap(), "repos/x");
    assert_eq!(repo_name("nothing").unwrap_err(), FetchError::DataShapeViolation);
}

#[test]
fn owner_named_repos_keeps_full_name() {
    let events = vec![event(
        "PushEvent",
        "https://api.github.com/repos/repos/x",
        Some(vec![commit("m")]),
    )];
    let feed = LatestCommits::from(events).unwrap();
    assert_eq!(feed.commits[0].repo_name, "repos/x");
    assert_eq!(feed.commits[0].repo_url, "https://github.com/repos/x");
}
