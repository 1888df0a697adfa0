use check_for_license::store::ProcessedSet;
use check_for_license::watcher::{
    license_check_outcome, reply_outcome, repo_check_outcome, response_text, Action, BotError,
    Event, Post, Watcher, EMPTY_SUBREDDIT_DELAY,
};

fn post(name: &str, domain: &str, url: &str) -> Post {
    Post { name: name.to_owned(), domain: domain.to_owned(), url: url.to_owned() }
}

fn expect_fetch(action: Action) -> Option<String> {
    match action {
        Action::FetchPage { after } => after,
        _ => panic!("expected a page fetch"),
    }
}

fn expect_persist(action: Action) -> String {
    match action {
        Action::Persist { data } => data,
        _ => panic!("expected a flush of the processed set"),
    }
}

#[test]
fn fixed_reply_text() {
    assert_eq!(
        response_text(),
        "The linked GitHub repository does not contain a license.\n\nPlease read over this \
         article for more information: https://help.github.com/en/github/\
         creating-cloning-and-archiving-repositories/licensing-a-repository"
    );
}

#[test]
fn empty_page_delay() {
    assert_eq!(EMPTY_SUBREDDIT_DELAY, 15);
}

#[test]
fn status_outcomes() {
    assert_eq!(repo_check_outcome(200), Ok(()));
    assert_eq!(repo_check_outcome(299), Ok(()));
    assert_eq!(repo_check_outcome(404), Err(BotError::RepositoryInvalid { status: 404 }));
    assert_eq!(repo_check_outcome(300), Err(BotError::RepositoryInvalid { status: 300 }));
    assert!(!license_check_outcome(200));
    assert!(license_check_outcome(404));
    assert_eq!(reply_outcome(201), Ok(()));
    assert_eq!(reply_outcome(500), Err(BotError::ReplyFailed { status: 500 }));
}

#[test]
fn initial_fetch_has_no_cursor() {
    let bot = Watcher::new(None);
    assert_eq!(expect_fetch(bot.fetch_action()), None);
}

#[test]
fn empty_page_delays_once_and_keeps_cursor() {
    let mut bot = Watcher::new(None);
    let act = bot.step(Event::PageFetched { posts: vec![], after: Some("t3_zz".to_owned()) });
    assert!(matches!(act, Action::Delay));
    let act = bot.step(Event::DelayDone);
    let data = expect_persist(act);
    assert_eq!(ProcessedSet::restore(&data).len(), 0);
    let act = bot.step(Event::PersistDone);
    assert_eq!(expect_fetch(act), None);
}

#[test]
fn fetch_failure_keeps_cursor_and_flushes() {
    let mut bot = Watcher::new(None);
    let act = bot.step(Event::FetchFailed);
    expect_persist(act);
    let act = bot.step(Event::PersistDone);
    assert_eq!(expect_fetch(act), None);
}

#[test]
fn self_post_is_recorded_but_never_checked() {
    let mut bot = Watcher::new(None);
    let page = vec![post("t3_self", "self.test", "https://github.com/A/B")];
    let act = bot.step(Event::PageFetched { posts: page, after: None });
    assert!(matches!(act, Action::Delay));
    assert!(bot.is_processed(&String::from("t3_self")));
}

#[test]
fn processed_post_is_skipped_without_any_call() {
    let mut bot = Watcher::new(Some("[\"t3_seen\"]"));
    assert!(bot.is_processed(&String::from("t3_seen")));
    let page = vec![post("t3_seen", "github.com", "https://github.com/A/B")];
    let act = bot.step(Event::PageFetched { posts: page, after: None });
    assert!(matches!(act, Action::Delay));
    assert_eq!(bot.processed_len(), 1);
}

#[test]
fn unrecognisable_link_is_recorded_and_skipped() {
    let mut bot = Watcher::new(None);
    let page = vec![post("t3_img", "imgur.com", "https://imgur.com/a/b")];
    let act = bot.step(Event::PageFetched { posts: page, after: None });
    assert!(matches!(act, Action::Delay));
    assert!(bot.is_processed(&String::from("t3_img")));
}

#[test]
fn missing_license_leads_to_one_reply() {
    let mut bot = Watcher::new(None);
    let page = vec![post("t3_x", "github.com", "https://github.com/A/B")];
    let act = bot.step(Event::PageFetched { posts: page, after: None });
    match act {
        Action::CheckRepo { owner, name } => {
            assert_eq!(owner, "A");
            assert_eq!(name, "B");
        },
        _ => panic!("expected a repository check"),
    }
    assert!(bot.is_processed(&String::from("t3_x")));
    let act = bot.step(Event::RepoStatus { status: 200 });
    match act {
        Action::CheckLicense { owner, name } => {
            assert_eq!(owner, "A");
            assert_eq!(name, "B");
        },
        _ => panic!("expected a license check"),
    }
    let act = bot.step(Event::LicenseStatus { status: 404 });
    match act {
        Action::Reply { fullname } => assert_eq!(fullname, "t3_x"),
        _ => panic!("expected a reply"),
    }
    let act = bot.step(Event::ReplyStatus { status: 200 });
    assert!(matches!(act, Action::Delay));
    let act = bot.step(Event::DelayDone);
    let data = expect_persist(act);
    assert!(ProcessedSet::restore(&data).contains(&String::from("t3_x")));
}

#[test]
fn present_license_means_no_reply() {
    let mut bot = Watcher::new(None);
    let page = vec![post("t3_y", "github.com", "https://github.com/A/B")];
    let act = bot.step(Event::PageFetched { posts: page, after: None });
    assert!(matches!(act, Action::CheckRepo { .. }));
    let act = bot.step(Event::RepoStatus { status: 200 });
    assert!(matches!(act, Action::CheckLicense { .. }));
    let act = bot.step(Event::LicenseStatus { status: 200 });
    assert!(matches!(act, Action::Delay));
    assert!(bot.is_processed(&String::from("t3_y")));
}

#[test]
fn invalid_repository_abandons_only_the_post() {
    let mut bot = Watcher::new(None);
    let page = vec![
        post("t3_bad", "github.com", "https://github.com/Gone/Repo"),
        post("t3_next", "github.com", "https://github.com/Live/Repo"),
    ];
    let act = bot.step(Event::PageFetched { posts: page, after: None });
    assert!(matches!(act, Action::CheckRepo { .. }));
    let act = bot.step(Event::RepoStatus { status: 404 });
    match act {
        Action::CheckRepo { owner, name } => {
            assert_eq!(owner, "Live");
            assert_eq!(name, "Repo");
        },
        _ => panic!("expected the walk to move to the next post"),
    }
    assert!(bot.is_processed(&String::from("t3_bad")));
    assert!(bot.is_processed(&String::from("t3_next")));
}

#[test]
fn trailing_token_advances_cursor() {
    let mut bot = Watcher::new(None);
    let page = vec![post("t3_self", "self.test", "url")];
    let act = bot.step(Event::PageFetched { posts: page, after: Some("t3_self".to_owned()) });
    expect_persist(act);
    let act = bot.step(Event::PersistDone);
    assert_eq!(expect_fetch(act), Some("t3_self".to_owned()));
}

#[test]
fn restart_never_reprocesses_persisted_identifiers() {
    let mut bot = Watcher::new(None);
    let page = vec![post("t3_x", "github.com", "https://github.com/A/B")];
    bot.step(Event::PageFetched { posts: page, after: None });
    bot.step(Event::RepoStatus { status: 200 });
    bot.step(Event::LicenseStatus { status: 404 });
    bot.step(Event::ReplyStatus { status: 200 });
    let data = expect_persist(bot.step(Event::DelayDone));

    let mut again = Watcher::new(Some(&data));
    assert!(again.is_processed(&String::from("t3_x")));
    let page = vec![post("t3_x", "github.com", "https://github.com/A/B")];
    let act = again.step(Event::PageFetched { posts: page, after: None });
    assert!(matches!(act, Action::Delay));
    assert_eq!(again.processed_len(), 1);
}

#[test]
fn expected_events_follow_the_phase() {
    let mut bot = Watcher::new(None);
    assert!(bot.accepts_event(&Event::PageFetched { posts: vec![], after: None }));
    assert!(bot.accepts_event(&Event::FetchFailed));
    assert!(!bot.accepts_event(&Event::RepoStatus { status: 200 }));
    bot.step(Event::PageFetched { posts: vec![], after: None });
    assert!(!bot.accepts_event(&Event::FetchFailed));
    assert!(bot.accepts_event(&Event::DelayDone));
}
