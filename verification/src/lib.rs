//! Page parsers and crawl engine for a hierarchical sports-results site.
//!
//! The crate turns three kinds of pages (site index, league groups, fixture
//! lists) into typed records and follow-up tasks, and drives the task stack
//! that walks them.

pub mod clock;
pub mod date;
pub mod engine;
pub mod fixtures;
pub mod games;
pub mod league_group;
pub mod main_page;
pub mod markup;
pub mod queue;
pub mod records;
pub mod task;
pub mod text;

pub use crate::clock::TimeOfDay;
pub use crate::clock::Timestamp;
pub use crate::date::parse_date;
pub use crate::date::Date;
pub use crate::engine::Fetched;
pub use crate::engine::PageParser;
pub use crate::engine::Scraper;
pub use crate::fixtures::FixtureGroup;
pub use crate::fixtures::FixtureRow;
pub use crate::fixtures::GameCells;
pub use crate::games::GamesPage;
pub use crate::games::ScanState;
pub use crate::league_group::LeagueGroupPage;
pub use crate::main_page::MainPage;
pub use crate::markup::Anchor;
pub use crate::queue::Action;
pub use crate::queue::CrawlQueue;
pub use crate::records::Game;
pub use crate::records::League;
pub use crate::records::MatchStatus;
pub use crate::records::Team;
pub use crate::task::PageData;
pub use crate::task::ScraperTask;
pub use crate::task::ScraperTaskResult;
pub use crate::task::ScripingFunction;
pub use crate::task::TaskError;
