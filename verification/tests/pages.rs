use livescores::markup::SELECTOR_FAILURE;
use livescores::Anchor;
use livescores::Date;
use livescores::FixtureGroup;
use livescores::FixtureRow;
use livescores::GameCells;
use livescores::GamesPage;
use livescores::LeagueGroupPage;
use livescores::MainPage;
use livescores::MatchStatus;
use livescores::PageData;
use livescores::ScraperTask;
use livescores::ScripingFunction;
use livescores::TaskError;
use livescores::TimeOfDay;
use livescores::Timestamp;
use scraper::Html;

const NOW: Timestamp = Timestamp { secs: 1_674_864_000, nanos: 7 };

const PAGE: &str = r#"<!DOCTYPE html>
<html><head><title>Scores</title></head><body>
<nav>
  <a class="ue" href="/">Home</a>
  <a class="ue" href="/football/live/">Live</a>
  <a class="ue" href="/football/favourites/">Favourites</a>
  <a class="ue" href="/football/england/">England</a>
  <a class="ue other" href="/football/world-cup/">World <b>Cup</b></a>
  <a class="xx" href="/football/hidden/">Hidden</a>
  <a class="ue" href="/football/home/">home</a>
</nav>
<div class="se"><ul>
  <li>Women
    <ul>
      <li><a href="/football/womens-world-cup-qualification/inter-confederation-qualification-play-off/">Inter-Confederation Qualification: Play-off</a></li>
      <li><a href="/football/womens-world-cup-qualification/uefa-qualification-group-h/">UEFA Qualification: Group H</a></li>
      <li><span>no link here</span></li>
      <li><a href="">Empty target</a></li>
    </ul>
  </li>
</ul></div>
<div class="xb">
  <div class="bb"><span class="cb">September 6, 2022</span></div>
  <div class="bb">
    <a class="qd"><span class="eb">Women's World Cup Qualification</span></a>
    <a class="qd"><span class="fb">UEFA Qualification: Group H</span></a>
    <a class="qd" href="/g/1"><span class="Pg">FT</span><span class="eh">Bulgaria Women</span><span class="hh">0</span><span class="ih">8</span><span class="eh">Germany Women</span></a>
    <a class="qd" href="/g/2"><span class="Pg">AET</span><span class="eh">Serbia Women</span><span class="hh">2</span><span class="ih">1</span><span class="eh">Turkey Women</span></a>
  </div>
  <div class="bb"><span class="cb">February 19</span></div>
  <div class="bb">
    <a class="qd"><span class="eb">Friendlies</span></a>
    <a class="qd" href="/g/3"><span class="Pg">18:30</span><span class="eh">Lyon</span><span class="eh">Paris</span></a>
  </div>
</div>
</body></html>"#;

fn seed(name: &str) -> ScraperTask {
    ScraperTask {
        url: "https://livescores.com".to_string(),
        href: "/".to_string(),
        name: name.to_string(),
    }
}

fn anchor(href: Option<&str>, text: &str) -> Anchor {
    Anchor { href: href.map(str::to_string), text: text.to_string() }
}

fn task(href: &str, name: &str) -> ScraperTask {
    ScraperTask {
        url: "https://livescores.com".to_string(),
        href: href.to_string(),
        name: name.to_string(),
    }
}

#[test]
fn parser_names() {
    assert_eq!(MainPage::my_name(), "main");
    assert_eq!(LeagueGroupPage::my_name(), "league_group");
    assert_eq!(GamesPage::my_name(), "games");
    assert_eq!(MainPage::default().name(), "main");
    assert_eq!(LeagueGroupPage::default().name(), "league_group");
    assert_eq!(GamesPage::default().name(), "games");
    assert!(LeagueGroupPage::default().leagues.is_empty());
    assert!(GamesPage::default().games.is_empty());
}

#[test]
fn new_tasks_carry_their_parser() {
    assert_eq!(
        MainPage::new_task("https://www.livescores.com", ""),
        ScraperTask {
            url: "https://www.livescores.com".to_string(),
            href: "".to_string(),
            name: "main".to_string(),
        }
    );
    assert_eq!(LeagueGroupPage::new_task("u", "h"), task_of("u", "h", "league_group"));
    assert_eq!(GamesPage::new_task("u", "h"), task_of("u", "h", "games"));
    assert_eq!(GamesPage::new_task("https://a.b", "/c").address(), "https://a.b/c");
    assert_eq!(GamesPage::new_task("https://a.b/", "/c").address(), "https://a.b//c");
}

fn task_of(url: &str, href: &str, name: &str) -> ScraperTask {
    ScraperTask { url: url.to_string(), href: href.to_string(), name: name.to_string() }
}

#[test]
fn should_follow_excludes_navigation_chrome() {
    assert!(!MainPage::should_follow(&"Home".to_string()));
    assert!(!MainPage::should_follow(&"Live".to_string()));
    assert!(!MainPage::should_follow(&"Favourites".to_string()));
    assert!(MainPage::should_follow(&"home".to_string()));
    assert!(MainPage::should_follow(&"Home ".to_string()));
    assert!(MainPage::should_follow(&"Favorites".to_string()));
    assert!(MainPage::should_follow(&"England".to_string()));
    assert!(MainPage::should_follow(&"".to_string()));
}

#[test]
fn main_page_follows_league_groups_only() {
    let document = Html::parse_document(PAGE);
    let result = MainPage::default()
        .parse(&seed("main"), &document, NOW)
        .unwrap();
    assert_eq!(result.url, "https://livescores.com");
    assert_eq!(result.data, PageData::Empty);
    assert!(result.success);
    assert_eq!(result.last_update, NOW);
    assert_eq!(
        result.new_urls,
        vec![
            task("/football/england/", "league_group"),
            task("/football/world-cup/", "league_group"),
            task("/football/home/", "league_group"),
        ]
    );
}

#[test]
fn main_page_from_anchors() {
    let document = Html::parse_document("<html></html>");
    let anchors = vec![
        anchor(Some("/a"), "Home"),
        anchor(Some("/b"), "Spain"),
        anchor(Some("/c"), "Live"),
        anchor(Some("/d"), "Favourites"),
        anchor(Some("/e"), "Spain"),
    ];
    let result = MainPage::parse_anchors(&seed("main"), &document, &anchors, NOW).unwrap();
    assert_eq!(
        result.new_urls,
        vec![task("/b", "league_group"), task("/e", "league_group")]
    );
    let result = MainPage::parse_anchors(&seed("main"), &document, &vec![], NOW).unwrap();
    assert_eq!(result.new_urls, vec![]);
    assert_eq!(result.data, PageData::Empty);
}

#[test]
fn main_page_link_without_target_keeps_document() {
    let raw = r#"<a class="ue" href="/x">England</a><a class="ue">Home</a><a class="ue" href="/y">Italy</a>"#;
    let document = Html::parse_document(raw);
    let error = MainPage::default()
        .parse(&seed("main"), &document, NOW)
        .unwrap_err();
    assert_eq!(error, TaskError::Parsing(document.clone()));
    let anchors = vec![anchor(Some("/x"), "England"), anchor(None, "Home")];
    let error = MainPage::parse_anchors(&seed("main"), &document, &anchors, NOW).unwrap_err();
    match error {
        TaskError::Parsing(kept) => {
            assert_eq!(kept, document);
            assert!(kept.root_element().html().contains("Italy"));
        }
        other => panic!("unexpected {:?}", other),
    }
}

#[test]
fn league_group_page_lists_leagues_in_order() {
    let document = Html::parse_document(PAGE);
    let league_group: LeagueGroupPage = Default::default();
    let task = LeagueGroupPage::new_task("https://livescores.com", "/");
    let p = league_group
        .parse(&task, &document, NOW)
        .expect("Parsing error :(");
    let data = match p.data {
        PageData::Leagues(data) => data,
        other => panic!("unexpected {:?}", other),
    };
    assert_eq!(data.leagues.len(), 3);
    assert_eq!(
        data.leagues[0].name,
        "Inter-Confederation Qualification: Play-off"
    );
    assert_eq!(data.leagues[2].name, "Empty target");
    assert_eq!(p.new_urls.len(), 3);
    assert_eq!(p.new_urls[0].name, "games");
    assert_eq!(p.new_urls[0].url, "https://livescores.com");
    assert_eq!(
        p.new_urls[0].href,
        "/football/womens-world-cup-qualification/inter-confederation-qualification-play-off/"
    );
    assert_eq!(p.new_urls[2].href, "");
    assert_eq!(p.url, "https://livescores.com");
    assert!(p.success);
    assert_eq!(p.last_update, NOW);
}

#[test]
fn league_group_leagues_align_with_tasks() {
    let document = Html::parse_document("<html></html>");
    let anchors = vec![
        anchor(Some("/one"), "Home"),
        anchor(Some("/two"), "Second"),
        anchor(Some("/three"), ""),
    ];
    let result =
        LeagueGroupPage::parse_anchors(&seed("league_group"), &document, &anchors, NOW).unwrap();
    let leagues = match result.data {
        PageData::Leagues(page) => page.leagues,
        other => panic!("unexpected {:?}", other),
    };
    assert_eq!(leagues.len(), anchors.len());
    assert_eq!(result.new_urls.len(), anchors.len());
    for i in 0..anchors.len() {
        assert_eq!(leagues[i].name, anchors[i].text);
        assert_eq!(Some(result.new_urls[i].href.clone()), anchors[i].href);
        assert_eq!(result.new_urls[i].name, "games");
        assert_eq!(result.new_urls[i].url, "https://livescores.com");
    }
}

#[test]
fn league_group_link_without_target_keeps_document() {
    let raw = r#"<div class="se"><ul><li><ul><li><a href="/a">A</a></li><li><a>B</a></li></ul></li></ul></div>"#;
    let document = Html::parse_document(raw);
    let error = LeagueGroupPage::default()
        .parse(&seed("league_group"), &document, NOW)
        .unwrap_err();
    assert_eq!(error, TaskError::Parsing(document.clone()));
}

#[test]
fn games_page_reads_rows_under_their_headers() {
    let document = Html::parse_document(PAGE);
    let games_page: GamesPage = Default::default();
    let task = GamesPage::new_task("https://livescores.com", "/");
    let p = games_page
        .parse(&task, &document, NOW)
        .expect("Parsing error :(");
    assert_eq!(p.new_urls, vec![]);
    assert_eq!(p.url, "https://livescores.com");
    assert!(p.success);
    assert_eq!(p.last_update, NOW);
    let data = match p.data {
        PageData::Games(data) => data,
        other => panic!("unexpected {:?}", other),
    };
    assert_eq!(data.games.len(), 3);
    assert_eq!(data.games[0].status, MatchStatus::Finished(0, 8));
    assert_eq!(data.games[0].host.name, "Bulgaria Women".to_owned());
    assert_eq!(data.games[0].guest.name, "Germany Women".to_owned());
    assert_eq!(data.games[0].league, "Women's World Cup Qualification".to_owned());
    assert_eq!(
        data.games[0].stage,
        Some("UEFA Qualification: Group H".to_string())
    );
    assert_eq!(data.games[0].start_date, Date::from_ymd_opt(2022, 9, 6).unwrap());
    assert_eq!(data.games[1].status, MatchStatus::Finished(2, 1));
    assert_eq!(data.games[1].stage, Some("UEFA Qualification: Group H".to_string()));
    assert_eq!(data.games[2].league, "Friendlies");
    assert_eq!(data.games[2].stage, None);
    assert_eq!(data.games[2].start_date, Date::from_ymd_opt(2023, 2, 19).unwrap());
    assert_eq!(
        data.games[2].status,
        MatchStatus::Scheduled(TimeOfDay::from_hm_opt(18, 30).unwrap())
    );
    assert_eq!(data.games[2].host.name, "Lyon");
    assert_eq!(data.games[2].guest.name, "Paris");
}

#[test]
fn games_page_without_containers_is_empty() {
    let document = Html::parse_document("<html><body><a class=\"qd\">stray</a></body></html>");
    let p = GamesPage::default()
        .parse(&seed("games"), &document, NOW)
        .unwrap();
    assert_eq!(p.data, PageData::Games(GamesPage { games: vec![] }));
    assert_eq!(p.new_urls, vec![]);
}

#[test]
fn one_broken_row_fails_the_whole_page() {
    let raw = r#"<div class="xf"><span class="cb">July 12, 2022</span>
        <a class="qd"><span class="Pg">FT</span><span class="eh">A</span><span class="hh">1</span><span class="ih">0</span><span class="eh">B</span></a>
        <a class="qd"><span class="Pg">FT</span><span class="eh">C</span><span class="hh">-1</span><span class="ih">0</span><span class="eh">D</span></a>
        <a class="qd"><span class="Pg">FT</span><span class="eh">E</span><span class="hh">1</span><span class="ih">0</span><span class="eh">F</span></a>
    </div>"#;
    let document = Html::parse_document(raw);
    let error = GamesPage::default()
        .parse(&seed("games"), &document, NOW)
        .unwrap_err();
    match error {
        TaskError::Fragment(rule, markup) => {
            assert_eq!(rule, "Parse game score");
            assert!(markup.contains(">C<"));
            assert!(!markup.starts_with("<a"));
        }
        other => panic!("unexpected {:?}", other),
    }
    let raw = r#"<div class="xf"><span class="cb">July 12, 2022</span>
        <a class="qd"><span class="Pg">12:00</span><span class="eh">A</span></a>
    </div>"#;
    let document = Html::parse_document(raw);
    let error = GamesPage::default()
        .parse(&seed("games"), &document, NOW)
        .unwrap_err();
    match error {
        TaskError::Fragment(rule, _) => assert_eq!(rule, "Parse game away team"),
        other => panic!("unexpected {:?}", other),
    }
}

#[test]
fn game_before_any_date_fails_the_page() {
    let raw = r#"<div class="xf">
        <a class="qd" id="first"><span class="Pg">FT</span><span class="eh">A</span><span class="hh">1</span><span class="ih">0</span><span class="eh">B</span></a>
    </div>"#;
    let document = Html::parse_document(raw);
    let error = GamesPage::default()
        .parse(&seed("games"), &document, NOW)
        .unwrap_err();
    match error {
        TaskError::Fragment(rule, markup) => {
            assert_eq!(rule, "game element");
            assert!(markup.starts_with("<a"));
            assert!(markup.contains("first"));
        }
        other => panic!("unexpected {:?}", other),
    }
}

#[test]
fn date_headers_of_a_container_precede_its_rows() {
    let raw = r#"<div class="xf">
        <a class="qd"><span class="Pg">FT</span><span class="eh">A</span><span class="hh">1</span><span class="ih">0</span><span class="eh">B</span></a>
        <span class="cb">July 12, 2022</span>
        <span class="cb">July 13, 2022</span>
    </div>"#;
    let document = Html::parse_document(raw);
    let p = GamesPage::default()
        .parse(&seed("games"), &document, NOW)
        .unwrap();
    match p.data {
        PageData::Games(page) => {
            assert_eq!(page.games.len(), 1);
            assert_eq!(page.games[0].start_date, Date::from_ymd_opt(2022, 7, 13).unwrap());
            assert_eq!(page.games[0].league, "");
        }
        other => panic!("unexpected {:?}", other),
    }
}

fn game_row(status: &str, home: &str, away: &str, teams: &[&str]) -> FixtureRow {
    FixtureRow {
        league_header: None,
        stage_header: None,
        cells: GameCells {
            status: Some(status.to_string()),
            home_score: Some(home.to_string()),
            away_score: Some(away.to_string()),
            teams: teams.iter().map(|t| t.to_string()).collect(),
            html: format!("<a>{}</a>", teams.join("-")),
            inner_html: teams.join("-"),
        },
    }
}

fn header_row(league: Option<&str>, stage: Option<&str>) -> FixtureRow {
    FixtureRow {
        league_header: league.map(str::to_string),
        stage_header: stage.map(str::to_string),
        cells: GameCells {
            status: None,
            home_score: None,
            away_score: None,
            teams: vec![],
            html: String::new(),
            inner_html: String::new(),
        },
    }
}

#[test]
fn games_page_from_groups() {
    let groups = vec![
        FixtureGroup { dates: vec!["October 11, 2022".to_string()], rows: vec![] },
        FixtureGroup {
            dates: vec![],
            rows: vec![
                header_row(Some("L1"), None),
                header_row(None, Some("S1")),
                game_row("FT", "3", "0", &["A", "B"]),
                header_row(Some("L2"), Some("dropped")),
                game_row("AAW", "0", "3", &["C", "D"]),
            ],
        },
        FixtureGroup {
            dates: vec!["December 10, 2020".to_string()],
            rows: vec![game_row("FT", "1", "1", &["E", "F"])],
        },
    ];
    let result = GamesPage::parse_groups(&seed("games"), &groups, NOW).unwrap();
    assert_eq!(result.url, "https://livescores.com");
    assert_eq!(result.new_urls, vec![]);
    assert!(result.success);
    assert_eq!(result.last_update, NOW);
    let games = match result.data {
        PageData::Games(page) => page.games,
        other => panic!("unexpected {:?}", other),
    };
    assert_eq!(games.len(), 3);
    assert_eq!(games[0].league, "L1");
    assert_eq!(games[0].stage, Some("S1".to_string()));
    assert_eq!(games[0].status, MatchStatus::Finished(3, 0));
    assert_eq!(games[0].start_date, Date::from_ymd_opt(2022, 10, 11).unwrap());
    assert_eq!(games[1].league, "L2");
    assert_eq!(games[1].stage, None);
    assert_eq!(games[1].status, MatchStatus::Finished(0, 3));
    assert_eq!(games[2].league, "L2");
    assert_eq!(games[2].start_date, Date::from_ymd_opt(2020, 12, 10).unwrap());
}

#[test]
fn first_failure_of_the_page_is_reported() {
    let groups = vec![FixtureGroup {
        dates: vec!["October 11, 2022".to_string()],
        rows: vec![
            game_row("FT", "3", "0", &["A", "B"]),
            game_row("FT", "3", "0", &["C"]),
            game_row("FT", "x", "0", &["E", "F"]),
        ],
    }];
    assert_eq!(
        GamesPage::parse_groups(&seed("games"), &groups, NOW),
        Err(TaskError::Fragment("Parse game away team".to_string(), "C".to_string()))
    );
}

#[test]
fn selector_failure_message() {
    assert_eq!(SELECTOR_FAILURE, "Invalid selector");
}
