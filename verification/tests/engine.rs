use livescores::Action;
use livescores::CrawlQueue;
use livescores::Fetched;
use livescores::GamesPage;
use livescores::LeagueGroupPage;
use livescores::MainPage;
use livescores::PageData;
use livescores::PageParser;
use livescores::Scraper;
use livescores::ScraperTask;
use livescores::ScraperTaskResult;
use livescores::ScripingFunction;
use livescores::TaskError;
use livescores::Timestamp;
use scraper::Html;

const NOW: Timestamp = Timestamp { secs: 10, nanos: 0 };

fn task(href: &str, name: &str) -> ScraperTask {
    ScraperTask { url: "https://x.y".to_string(), href: href.to_string(), name: name.to_string() }
}

fn full_registry() -> Scraper {
    let mut scraper = Scraper::new();
    scraper.add_scriping_function(PageParser::Main(MainPage::default()));
    scraper.add_scriping_function(PageParser::LeagueGroup(LeagueGroupPage::default()));
    scraper.add_scriping_function(PageParser::Games(GamesPage::default()));
    scraper
}

#[test]
fn transport_failure_is_reported_in_its_own_words() {
    let scraper = full_registry();
    assert_eq!(
        scraper.scripe(&task("/", "main"), Fetched::Failed("connection reset".to_string()), NOW),
        Err(TaskError::Other("connection reset".to_string()))
    );
}

#[test]
fn other_statuses_are_rejected() {
    let scraper = full_registry();
    assert!(Scraper::accepts(200));
    for status in [0u16, 199, 201, 204, 301, 404, 500, 65535] {
        assert!(!Scraper::accepts(status));
        assert_eq!(
            scraper.scripe(&task("/", "main"), Fetched::Rejected(status), NOW),
            Err(TaskError::Other("Something went wrong".to_string()))
        );
    }
}

#[test]
fn unknown_page_type_has_no_parser() {
    let scraper = full_registry();
    assert_eq!(
        scraper.scripe(&task("/", "standings"), Fetched::Document("<html></html>".to_string()), NOW),
        Err(TaskError::NoParsingFunction("standings".to_string()))
    );
    let empty = Scraper::new();
    assert_eq!(
        empty.scripe(&task("/", "main"), Fetched::Document("<html></html>".to_string()), NOW),
        Err(TaskError::NoParsingFunction("main".to_string()))
    );
}

#[test]
fn documents_go_to_the_parser_of_their_type() {
    let raw = r#"<a class="ue" href="/england/">England</a><a class="ue" href="/">Home</a>
        <div class="se"><ul><li><ul><li><a href="/pl/">Premier League</a></li></ul></li></ul></div>
        <div class="xf"><span class="cb">July 12, 2022</span></div>"#;
    let scraper = full_registry();
    let main = scraper
        .scripe(&task("/", "main"), Fetched::Document(raw.to_string()), NOW)
        .unwrap();
    assert_eq!(main.data, PageData::Empty);
    assert_eq!(main.new_urls, vec![task("/england/", "league_group")]);
    let group = scraper
        .scripe(&task("/england/", "league_group"), Fetched::Document(raw.to_string()), NOW)
        .unwrap();
    assert_eq!(group.new_urls, vec![task("/pl/", "games")]);
    let games = scraper
        .scripe(&task("/pl/", "games"), Fetched::Document(raw.to_string()), NOW)
        .unwrap();
    assert_eq!(games.data, PageData::Games(GamesPage { games: vec![] }));
    assert_eq!(games.last_update, NOW);
}

#[test]
fn registering_twice_keeps_one_parser() {
    let mut scraper = Scraper::new();
    scraper.add_scriping_function(PageParser::Games(GamesPage::default()));
    scraper.add_scriping_function(PageParser::Games(GamesPage::default()));
    scraper.add_scriping_function(PageParser::Main(MainPage::default()));
    scraper.add_scriping_function(PageParser::Games(GamesPage::default()));
    assert!(scraper
        .scripe(&task("/", "games"), Fetched::Document(String::new()), NOW)
        .is_ok());
    assert!(scraper
        .scripe(&task("/", "main"), Fetched::Document(String::new()), NOW)
        .is_ok());
    assert_eq!(
        scraper.scripe(&task("/", "league_group"), Fetched::Document(String::new()), NOW),
        Err(TaskError::NoParsingFunction("league_group".to_string()))
    );
}

#[test]
fn page_parser_names() {
    assert_eq!(PageParser::Main(MainPage::default()).name(), "main");
    assert_eq!(PageParser::LeagueGroup(LeagueGroupPage::default()).name(), "league_group");
    assert_eq!(PageParser::Games(GamesPage::default()).name(), "games");
}

fn result_with(new_urls: Vec<ScraperTask>, success: bool) -> ScraperTaskResult {
    ScraperTaskResult {
        url: "https://x.y".to_string(),
        data: PageData::Empty,
        success,
        last_update: NOW,
        new_urls,
    }
}

#[test]
fn queue_is_a_stack() {
    let mut queue = CrawlQueue::new();
    assert_eq!(queue.len(), 0);
    assert_eq!(queue.pop(), None);
    queue.push(task("/1", "main"));
    queue.push(task("/2", "main"));
    assert_eq!(queue.len(), 2);
    assert_eq!(queue.pop(), Some(task("/2", "main")));
    assert_eq!(queue.pop(), Some(task("/1", "main")));
    assert_eq!(queue.pop(), None);
    assert_eq!(queue.len(), 0);
}

#[test]
fn found_tasks_are_done_before_waiting_ones() {
    let mut queue = CrawlQueue::new();
    queue.push(task("/waiting-1", "games"));
    queue.push(task("/waiting-2", "games"));
    let current = MainPage::new_task("https://x.y", "");
    let action = queue.settle(
        &current,
        Ok(result_with(vec![task("/a", "league_group"), task("/b", "league_group")], true)),
    );
    assert_eq!(
        action,
        Action::Report { data: PageData::Empty, last_update: NOW, success: true }
    );
    assert_eq!(queue.len(), 4);
    assert_eq!(queue.pop(), Some(task("/b", "league_group")));
    assert_eq!(queue.pop(), Some(task("/a", "league_group")));
    assert_eq!(queue.pop(), Some(task("/waiting-2", "games")));
    assert_eq!(queue.pop(), Some(task("/waiting-1", "games")));
    assert_eq!(queue.pop(), None);
}

#[test]
fn unsuccessful_results_add_no_tasks() {
    let mut queue = CrawlQueue::new();
    queue.push(task("/waiting", "games"));
    let action = queue.settle(
        &task("/", "main"),
        Ok(result_with(vec![task("/a", "league_group")], false)),
    );
    assert_eq!(
        action,
        Action::Report { data: PageData::Empty, last_update: NOW, success: false }
    );
    assert_eq!(queue.len(), 1);
}

#[test]
fn failures_are_never_queued_again() {
    let document = Html::parse_document("<p>kept</p>");
    let mut queue = CrawlQueue::new();
    queue.push(task("/waiting", "games"));
    let current = task("/", "league_group");
    assert_eq!(
        queue.settle(&current, Err(TaskError::Parsing(document.clone()))),
        Action::KeepDocument { filename: "league_group.html".to_string(), document }
    );
    assert_eq!(
        queue.settle(&current, Err(TaskError::Fragment("rule".to_string(), "<a>".to_string()))),
        Action::ReportFragment { rule: "rule".to_string(), markup: "<a>".to_string() }
    );
    assert_eq!(
        queue.settle(&current, Err(TaskError::NoParsingFunction("league_group".to_string()))),
        Action::ReportMissingParser { page_type: "league_group".to_string() }
    );
    assert_eq!(
        queue.settle(&current, Err(TaskError::Other("Something went wrong".to_string()))),
        Action::ReportFailure { message: "Something went wrong".to_string() }
    );
    assert_eq!(queue.len(), 1);
    assert_eq!(queue.pop(), Some(task("/waiting", "games")));
}

#[test]
fn crawl_walks_depth_first() {
    let scraper = full_registry();
    let pages = [
        ("https://x.y", r#"<a class="ue" href="/g1">G1</a><a class="ue" href="/g2">G2</a>"#),
        ("https://x.y/g1", r#"<div class="se"><ul><li><ul><li><a href="/l1">L1</a></li><li><a href="/l2">L2</a></li></ul></li></ul></div>"#),
        ("https://x.y/g2", r#"<div class="se"><ul><li><ul><li><a href="/l3">L3</a></li></ul></li></ul></div>"#),
        ("https://x.y/l1", ""),
        ("https://x.y/l2", ""),
        ("https://x.y/l3", ""),
    ];
    let mut queue = CrawlQueue::new();
    queue.push(MainPage::new_task("https://x.y", ""));
    let mut visited = Vec::new();
    while let Some(current) = queue.pop() {
        let address = current.address();
        let fetched = match pages.iter().find(|(at, _)| *at == address) {
            Some((_, raw)) => Fetched::Document(raw.to_string()),
            None => Fetched::Rejected(404),
        };
        visited.push(address);
        let outcome = scraper.scripe(&current, fetched, NOW);
        queue.settle(&current, outcome);
    }
    assert_eq!(
        visited,
        vec![
            "https://x.y",
            "https://x.y/g2",
            "https://x.y/l3",
            "https://x.y/g1",
            "https://x.y/l2",
            "https://x.y/l1",
        ]
    );
}
