//! The settings, and what holds where none are given. Spans are nanoseconds.

use vstd::prelude::*;

use crate::crawler::SECOND;
use crate::state::{join_path, path_of};

verus! {

#[derive(Debug, Clone, PartialEq, Eq)]
pub struct Settings {
    pub general: General,
    pub rate: Rate,
    pub check: Check,
    pub rescrape: Rescrape,
    pub pacing: Pacing,
}

#[derive(Debug, Clone, PartialEq, Eq)]
pub struct General {
    pub db_path: String,
    pub checklist_path: String,
    pub log_path: String,
}

#[derive(Debug, Clone, Copy, PartialEq, Eq)]
pub struct Rate {
    pub min_interval: u64,
    pub max_per_minute: usize,
}

#[derive(Debug, Clone, PartialEq, Eq)]
pub struct Check {
    pub check_after_each_stock: bool,
    pub missing_count_threshold: usize,
    pub trade_date: String,
}

#[derive(Debug, Clone, PartialEq, Eq)]
pub struct Rescrape {
    pub max_tries: i64,
    pub backoff_minutes: Vec<u64>,
    pub skip_on_non_trading_day: bool,
    pub force: bool,
}

#[derive(Debug, Clone, Copy, PartialEq, Eq)]
pub struct Pacing {
    pub interval_jitter_extra: u64,
    pub micro_break_every: usize,
    pub micro_break_min: u64,
    pub micro_break_max: u64,
}

/// The list of stocks to look into, where no path is given.
pub fn default_checklist(workspace: &str) -> (r: String)
    ensures
        r@ == workspace@ + "/needed_check_list.json"@,
{
    let mut s = workspace.to_string();
    s.append("/needed_check_list.json");
    s
}

/// The log, where no path is given.
pub fn default_log(workspace: &str) -> (r: String)
    ensures
        r@ == workspace@ + "/rust_crawl.log"@,
{
    let mut s = workspace.to_string();
    s.append("/rust_crawl.log");
    s
}

/// The waits between rounds, where none are given.
pub fn default_backoff() -> (r: Vec<u64>)
    ensures
        r@ == seq![5u64, 15u64, 30u64],
{
    vec![5, 15, 30]
}

impl General {
    pub open spec fn is_default(self, workspace: Seq<char>) -> bool {
        &&& self.db_path@.len() == 0
        &&& self.checklist_path@ == workspace + "/needed_check_list.json"@
        &&& self.log_path@ == workspace + "/rust_crawl.log"@
    }

    /// No database is named; list and log stand in the working directory.
    pub fn default_in(workspace: &str) -> (r: General)
        ensures
            r.is_default(workspace@),
    {
        General {
            db_path: String::new(),
            checklist_path: default_checklist(workspace),
            log_path: default_log(workspace),
        }
    }
}

impl Rate {
    pub open spec fn is_default(self) -> bool {
        self.min_interval == 1_000_000_000 && self.max_per_minute == 40
    }
}

impl Default for Rate {
    fn default() -> (r: Self)
        ensures
            r.is_default(),
    {
        Rate { min_interval: 1_000_000_000, max_per_minute: 40 }
    }
}

impl Check {
    pub open spec fn is_default(self) -> bool {
        &&& self.check_after_each_stock
        &&& self.missing_count_threshold == 1
        &&& self.trade_date@ == "latest"@
    }
}

impl Default for Check {
    fn default() -> (r: Self)
        ensures
            r.is_default(),
    {
        Check {
            check_after_each_stock: true,
            missing_count_threshold: 1,
            trade_date: "latest".to_string(),
        }
    }
}

impl Rescrape {
    pub open spec fn is_default(self) -> bool {
        &&& self.max_tries == 3
        &&& self.backoff_minutes@ == seq![5u64, 15u64, 30u64]
        &&& self.skip_on_non_trading_day
        &&& !self.force
    }
}

impl Default for Rescrape {
    fn default() -> (r: Self)
        ensures
            r.is_default(),
    {
        Rescrape {
            max_tries: 3,
            backoff_minutes: default_backoff(),
            skip_on_non_trading_day: true,
            force: false,
        }
    }
}

impl Pacing {
    pub open spec fn is_default(self) -> bool {
        &&& self.interval_jitter_extra == 800_000_000
        &&& self.micro_break_every == 50
        &&& self.micro_break_min == 5_000_000_000
        &&& self.micro_break_max == 25_000_000_000
    }
}

impl Default for Pacing {
    fn default() -> (r: Self)
        ensures
            r.is_default(),
    {
        Pacing {
            interval_jitter_extra: 800_000_000,
            micro_break_every: 50,
            micro_break_min: 5_000_000_000,
            micro_break_max: 25_000_000_000,
        }
    }
}

impl Settings {
    /// The settings where no file gives any.
    pub fn default_in(workspace: &str) -> (r: Settings)
        ensures
            r.general.is_default(workspace@),
            r.rate.is_default(),
            r.check.is_default(),
            r.rescrape.is_default(),
            r.pacing.is_default(),
    {
        Settings {
            general: General::default_in(workspace),
            rate: Rate::default(),
            check: Check::default(),
            rescrape: Rescrape::default(),
            pacing: Pacing::default(),
        }
    }
}

/// The database to work on: the one that the settings name, else the one in the working
/// directory.
pub fn database_path(db_path: &str, workspace: &str) -> (r: String)
    ensures
        r@ == if db_path@.len() > 0 {
            db_path@
        } else {
            workspace@ + "/market_data.db"@
        },
{
    if !db_path.is_empty() {
        db_path.to_string()
    } else {
        let mut s = workspace.to_string();
        s.append("/market_data.db");
        s
    }
}

/// Where the settings are looked for, in this order: the working directory, then the directory
/// of the process.
pub fn settings_files(workspace: &str) -> (r: Vec<String>)
    ensures
        crate::text::views(r@) == seq![path_of(workspace@, "settings.toml"@), "settings.toml"@],
{
    let v = vec![join_path(workspace, "settings.toml"), "settings.toml".to_string()];
    assert(crate::text::views(v@) =~= seq![
        path_of(workspace@, "settings.toml"@),
        "settings.toml"@,
    ]);
    v
}

/// What holds where no file gives any settings: a second between requests and forty of them a
/// minute; each stock is checked, against the latest day, and one lack is enough; three tries,
/// after five, fifteen and thirty minutes, on trading days alone; up to eight tenths of a second
/// more between requests, and after each fifty stocks a break of five to twenty-five seconds.
pub proof fn settings_without_a_file(s: Settings, workspace: Seq<char>)
    requires
        s.general.is_default(workspace),
        s.rate.is_default(),
        s.check.is_default(),
        s.rescrape.is_default(),
        s.pacing.is_default(),
    ensures
        s.general.db_path@.len() == 0,
        s.general.checklist_path@ == workspace + "/needed_check_list.json"@,
        s.general.log_path@ == workspace + "/rust_crawl.log"@,
        s.rate.min_interval == SECOND,
        s.rate.max_per_minute == 40,
        s.check.check_after_each_stock,
        s.check.missing_count_threshold == 1,
        s.check.trade_date@ == "latest"@,
        s.rescrape.max_tries == 3,
        s.rescrape.backoff_minutes@.len() == 3,
        s.rescrape.backoff_minutes@[0] == 5,
        s.rescrape.backoff_minutes@[1] == 15,
        s.rescrape.backoff_minutes@[2] == 30,
        s.rescrape.skip_on_non_trading_day,
        !s.rescrape.force,
        s.pacing.interval_jitter_extra * 10 == 8 * SECOND,
        s.pacing.micro_break_every == 50,
        s.pacing.micro_break_min == 5 * SECOND,
        s.pacing.micro_break_max == 25 * SECOND,
{
}

} // verus!
