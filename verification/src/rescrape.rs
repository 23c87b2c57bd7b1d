//! Checking which data are missing, and asking for them again.

use vstd::prelude::*;

use crate::checklist::{
    codes_of, due_items, is_waiting, lack_text, lacks, last_try_of, place, tries_of, with_item,
    CheckItem, CheckList,
};
use crate::crawler::{adds_problem, baidu_problem, logs_more, note_baidu, CrawlConfig, SECOND};
use crate::db::Completeness;
use crate::json::text_view;
use crate::models::StockRef;
use crate::number::{held, held_by_bits};
use crate::settings::Rescrape;
use crate::state::{problem_line, AppState, CrawlStatus, ErrorNotice};
use crate::text::{
    decimal, decimal_int, joined, same, views, write_i64, write_u128, write_u64, write_usize,
};

verus! {

// ---------------------------------------------------------------- the check

/// The day to check: the one named, else the one with the most data, else the last trading day.
pub fn check_date(named: &str, most_data: Option<String>, otherwise: &str) -> (r: String)
    ensures
        r@ == if named@ != "latest"@ {
            named@
        } else {
            match most_data {
                Some(d) => d@,
                None => otherwise@,
            }
        },
{
    if !same(named, "latest") {
        return named.to_string();
    }
    match most_data {
        Some(d) => d,
        None => otherwise.to_string(),
    }
}

/// The notice where the database to check does not open.
pub fn check_open_notice(error: &str) -> (r: ErrorNotice)
    ensures
        r@.kind == "落库失败"@,
        r@.code.len() == 0,
        r@.name == "完整性检查"@,
        r@.detail == "打开数据库失败: "@ + error@,
        r@.hint == "检查数据库路径是否存在、是否被其它程序占用。"@,
        r@.links.len() == 0,
{
    let mut detail = "打开数据库失败: ".to_string();
    detail.append(error);
    ErrorNotice {
        kind: "落库失败".to_string(),
        code: String::new(),
        name: "完整性检查".to_string(),
        detail,
        hint: "检查数据库路径是否存在、是否被其它程序占用。".to_string(),
        links: Vec::new(),
    }
}

/// The notice where the list is not written.
pub fn list_write_notice(error: &str) -> (r: ErrorNotice)
    ensures
        r@.kind == "落库失败"@,
        r@.code.len() == 0,
        r@.name == "待核查清单"@,
        r@.detail == "写清单失败: "@ + error@,
        r@.hint == "检查 needed_check_list.json 路径是否可写。"@,
        r@.links.len() == 0,
{
    let mut detail = "写清单失败: ".to_string();
    detail.append(error);
    ErrorNotice {
        kind: "落库失败".to_string(),
        code: String::new(),
        name: "待核查清单".to_string(),
        detail,
        hint: "检查 needed_check_list.json 路径是否可写。".to_string(),
        links: Vec::new(),
    }
}

/// The first line of the check.
pub fn check_starts(trade_date: &str, db_path: &str, threshold: usize, codes: usize) -> (r: String)
    ensures
        r@ == "[check] 交易日="@ + trade_date@ + " 数据库="@ + db_path@ + " 阈值(缺≥"@ + decimal(
            threshold as nat,
        ) + "项) 代码数="@ + decimal(codes as nat),
{
    let mut s = "[check] 交易日=".to_string();
    s.append(trade_date);
    s.append(" 数据库=");
    s.append(db_path);
    s.append(" 阈值(缺≥");
    s.append(&write_usize(threshold));
    s.append("项) 代码数=");
    s.append(&write_usize(codes));
    s
}

/// The line for a stock that lacks data.
fn check_finding(code: &str, name: &str, detail: &str) -> (r: String)
    ensures
        r@ == "[check] ⚠ "@ + code@ + " ("@ + name@ + ") "@ + detail@,
{
    let mut s = "[check] ⚠ ".to_string();
    s.append(code);
    s.append(" (");
    s.append(name);
    s.append(") ");
    s.append(detail);
    s
}

/// The last line of the check.
pub fn check_ends(codes: usize, abnormal: usize, path: &str) -> (r: String)
    ensures
        r@ == "[check] 结束: 扫描 "@ + decimal(codes as nat) + " 支, 异常 "@ + decimal(
            abnormal as nat,
        ) + " 支 -> "@ + path@,
{
    let mut s = "[check] 结束: 扫描 ".to_string();
    s.append(&write_usize(codes));
    s.append(" 支, 异常 ");
    s.append(&write_usize(abnormal));
    s.append(" 支 -> ");
    s.append(path);
    s
}

/// The status line at the end of the check.
pub fn check_message(abnormal: usize) -> (r: String)
    ensures
        r@ == "完整性检查完成: 异常 "@ + decimal(abnormal as nat) + " 支"@,
{
    let mut s = "完整性检查完成: 异常 ".to_string();
    s.append(&write_usize(abnormal));
    s.append(" 支");
    s
}

/// The check could not read the database.
pub fn on_check_failed(state: &mut AppState, error: &str)
    ensures
        final(state).stands_at(*old(state), CrawlStatus::Error, "检查失败: "@ + error@),
{
    let mut message = "检查失败: ".to_string();
    message.append(error);
    state.enter(CrawlStatus::Error, message);
}

/// The check begins.
pub fn on_check_begun(state: &mut AppState)
    ensures
        final(state).stands_at(*old(state), CrawlStatus::Running, "完整性检查中…"@),
{
    state.enter(CrawlStatus::Running, "完整性检查中…".to_string());
}

/// The check is over.
pub fn on_check_over(state: &mut AppState, abnormal: usize)
    ensures
        final(state).stands_at(
            *old(state),
            CrawlStatus::Done,
            "完整性检查完成: 异常 "@ + decimal(abnormal as nat) + " 支"@,
        ),
{
    state.enter(CrawlStatus::Done, check_message(abnormal));
}

// ---------------------------------------------------------------- another round

/// Whether missing data are asked for again at all.
#[derive(Debug, Clone, Copy, PartialEq, Eq)]
pub enum Gate {
    /// There is nothing to ask for.
    EmptyList,
    /// The exchanges are closed, and such days are left out.
    Closed,
    Open,
}

/// Whether stocks are asked for again: not where the list is empty, nor, where closed days are
/// skipped, on one of these.
pub open spec fn way_of(items: int, skip_on_non_trading_day: bool, trading: bool) -> Gate {
    if items == 0 {
        Gate::EmptyList
    } else if skip_on_non_trading_day && !trading {
        Gate::Closed
    } else {
        Gate::Open
    }
}

/// Whether missing data are asked for again.
pub fn rescrape_gate(items: usize, skip_on_non_trading_day: bool, trading: bool) -> (r: Gate)
    ensures
        r == way_of(items as int, skip_on_non_trading_day, trading),
{
    if items == 0 {
        Gate::EmptyList
    } else if skip_on_non_trading_day && !trading {
        Gate::Closed
    } else {
        Gate::Open
    }
}

/// The line and the status line where nothing is asked for again.
pub open spec fn gate_texts(gate: Gate, trade_date: Seq<char>) -> Option<(Seq<char>, Seq<char>)> {
    match gate {
        Gate::Open => None,
        Gate::EmptyList => Some(("[rescrape] 清单为空，无需回填"@, "回填: 清单为空"@)),
        Gate::Closed => Some(
            (
                "[rescrape] "@ + trade_date
                    + " 非交易日，跳过回填（skip_on_non_trading_day=true）"@,
                "回填: 非交易日跳过"@,
            ),
        ),
    }
}

/// What the log and the status line say where nothing is asked for again.
pub fn gate_message(gate: Gate, trade_date: &str) -> (r: Option<(String, String)>)
    ensures
        match gate_texts(gate, trade_date@) {
            None => r is None,
            Some(texts) => r matches Some(m) && m.0@ == texts.0 && m.1@ == texts.1,
        },
{
    match gate {
        Gate::Open => None,
        Gate::EmptyList => Some(
            ("[rescrape] 清单为空，无需回填".to_string(), "回填: 清单为空".to_string()),
        ),
        Gate::Closed => {
            let mut s = "[rescrape] ".to_string();
            s.append(trade_date);
            s.append(" 非交易日，跳过回填（skip_on_non_trading_day=true）");
            Some((s, "回填: 非交易日跳过".to_string()))
        },
    }
}

/// The rounds begin, or nothing is asked for again and the log gets a line that says why.
pub fn on_rescrape_asked(state: &mut AppState, gate: Gate, trade_date: &str) -> (r: Option<String>)
    ensures
        match gate_texts(gate, trade_date@) {
            None => {
                &&& r is None
                &&& final(state).stands_at(*old(state), CrawlStatus::Running, RESCRAPING@)
            },
            Some(texts) => {
                &&& r matches Some(line)
                &&& line@ == texts.0
                &&& final(state).stands_at(*old(state), CrawlStatus::Idle, texts.1)
            },
        },
{
    match gate_message(gate, trade_date) {
        None => {
            state.enter(CrawlStatus::Running, RESCRAPING.to_string());
            None
        },
        Some((line, message)) => {
            state.enter(CrawlStatus::Idle, message);
            Some(line)
        },
    }
}

/// Numbers with commas between.
pub open spec fn number_list(list: Seq<u64>) -> Seq<char>
    decreases list.len(),
{
    if list.len() == 0 {
        Seq::empty()
    } else if list.len() == 1 {
        decimal(list[0] as nat)
    } else {
        number_list(list.drop_last()) + ", "@ + decimal(list.last() as nat)
    }
}

fn write_numbers(list: &Vec<u64>) -> (r: String)
    ensures
        r@ == number_list(list@),
{
    let mut s = String::new();
    let mut i: usize = 0;
    assert(s@ =~= number_list(list@.take(0)));
    while i < list.len()
        invariant
            i <= list@.len(),
            s@ == number_list(list@.take(i as int)),
        decreases list@.len() - i,
    {
        let ghost before = s@;
        if i > 0 {
            s.append(", ");
        }
        s.append(&write_u64(list[i]));
        proof {
            let next = list@.take(i + 1);
            assert(next.drop_last() =~= list@.take(i as int));
            assert(next.last() == list@[i as int]);
            if i > 0 {
                assert(s@ =~= before + ", "@ + decimal(list@[i as int] as nat));
            } else {
                assert(s@ =~= decimal(list@[0] as nat));
            }
        }
        i += 1;
    }
    assert(list@.take(i as int) =~= list@);
    s
}

/// The first line of the rounds.
pub fn rescrape_starts(trade_date: &str, rules: &Rescrape) -> (r: String)
    ensures
        r@ == "[rescrape] 交易日="@ + trade_date@ + " 最大重试="@ + decimal_int(
            rules.max_tries as int,
        ) + " 退避=["@ + number_list(rules.backoff_minutes@) + "]"@,
{
    let mut s = "[rescrape] 交易日=".to_string();
    s.append(trade_date);
    s.append(" 最大重试=");
    s.append(&write_i64(rules.max_tries));
    s.append(" 退避=[");
    s.append(&write_numbers(&rules.backoff_minutes));
    s.append("]");
    s
}

/// How many rounds there are at most: a limit below zero counts down from the largest number, so
/// that with one the rounds end only for want of stocks that are due.
pub open spec fn rounds(max_tries: int) -> int {
    if max_tries < 0 {
        u64::MAX + 1 + max_tries
    } else {
        max_tries
    }
}

fn max_rounds(max_tries: i64) -> (r: u64)
    ensures
        r == rounds(max_tries as int),
{
    if max_tries < 0 {
        let below: i64 = -(max_tries + 1);
        u64::MAX - below as u64
    } else {
        max_tries as u64
    }
}

/// The line before a round: none where no stock is due, and the rounds end.
fn round_line(round: u64, max: u64, due: usize) -> (r: Option<String>)
    ensures
        r is Some <==> due > 0,
        r matches Some(s) ==> s@ == round_text(round as int, max as int, due as int),
{
    if due == 0 {
        return None;
    }
    let mut s = "[rescrape] 第 ".to_string();
    s.append(&write_u64(round));
    s.append("/");
    s.append(&write_u64(max));
    s.append(" 次回填，待处理 ");
    s.append(&write_usize(due));
    s.append(" 支");
    Some(s)
}

/// The minutes to wait after a round: as listed, else fifteen.
pub open spec fn wait_after(list: Seq<u64>, round: int) -> int {
    if 1 <= round <= list.len() {
        list[round - 1] as int
    } else {
        15
    }
}

/// The minutes to wait before the next round: none where no stock is left to ask for, or the
/// rounds are used up.
fn next_round(round: u64, max: u64, still: bool, backoff_minutes: &Vec<u64>) -> (r: Option<u64>)
    requires
        round >= 1,
    ensures
        r is Some <==> still && round < max,
        r matches Some(minutes) ==> minutes == wait_after(backoff_minutes@, round as int),
{
    if !still || round >= max {
        return None;
    }
    let n: u64 = backoff_minutes.len() as u64;
    if round <= n {
        Some(backoff_minutes[(round - 1) as usize])
    } else {
        Some(15)
    }
}

/// The line before that wait.
fn wait_line(minutes: u64) -> (r: String)
    ensures
        r@ == wait_text(minutes as int),
{
    let mut s = "[rescrape] 等待 ".to_string();
    s.append(&write_u128(held_by_bits(minutes)));
    s.append(" 分钟后再试");
    s
}

/// A run for one stock, which takes it whatever the database has of it.
pub fn single_config(db_path: &str, trade_date: &str, code: &str, name: &str) -> (r: CrawlConfig)
    ensures
        r.db_path@ == db_path@,
        r.trade_date@ == trade_date@,
        r.codes@.len() == 1,
        r.codes@[0].code@ == code@,
        r.codes@[0].name@ == name@,
        r.min_interval == SECOND,
        r.max_per_minute == 40,
        r.jitter == 600_000_000,
        r.max_retries == 3,
        r.timeout == 30,
        r.limit == Some(1usize),
        !r.resume,
        r.fresh_days == 2,
        r.empty_limit == 0,
        r.empty_cooldown_days == 0,
        r.rate_wait_cap == Some((15 * SECOND) as u64),
{
    CrawlConfig {
        db_path: db_path.to_string(),
        trade_date: trade_date.to_string(),
        codes: vec![StockRef { code: code.to_string(), name: name.to_string() }],
        min_interval: SECOND,
        max_per_minute: 40,
        jitter: 600_000_000,
        max_retries: 3,
        timeout: 30,
        limit: Some(1),
        resume: false,
        fresh_days: 2,
        empty_limit: 0,
        empty_cooldown_days: 0,
        rate_wait_cap: Some(15 * SECOND),
    }
}

/// The status after the run for one stock: a stop stays, and the rounds go on otherwise.
pub fn status_after_stock(status: CrawlStatus) -> (r: CrawlStatus)
    ensures
        r == if status == CrawlStatus::Stopped {
            CrawlStatus::Stopped
        } else {
            CrawlStatus::Running
        },
{
    if status == CrawlStatus::Stopped {
        CrawlStatus::Stopped
    } else {
        CrawlStatus::Running
    }
}

/// What the status line says between the stocks of a round.
pub const RESCRAPING: &'static str = "回填重抓中…";

/// A stock of a round is through: the rounds go on, unless they were stopped.
pub fn on_stock_retried(state: &mut AppState)
    ensures
        if old(state).status == CrawlStatus::Stopped {
            *final(state) == *old(state)
        } else {
            final(state).stands_at(*old(state), CrawlStatus::Running, RESCRAPING@)
        },
{
    let status = status_after_stock(state.status);
    if status != CrawlStatus::Stopped {
        state.enter(status, RESCRAPING.to_string());
    }
}

/// The last line of the rounds.
pub fn rescrape_ends(remain: usize) -> (r: String)
    ensures
        r@ == "[rescrape] 结束: 仍有 "@ + decimal(remain as nat) + " 支异常未补齐"@,
{
    let mut s = "[rescrape] 结束: 仍有 ".to_string();
    s.append(&write_usize(remain));
    s.append(" 支异常未补齐");
    s
}

/// The status line at the end of the rounds.
pub fn rescrape_message(remain: usize) -> (r: String)
    ensures
        r@ == "回填结束: 仍异常 "@ + decimal(remain as nat) + " 支"@,
{
    let mut s = "回填结束: 仍异常 ".to_string();
    s.append(&write_usize(remain));
    s.append(" 支");
    s
}

/// The rounds are over.
pub fn on_rescrape_over(state: &mut AppState, remain: usize)
    ensures
        final(state).stands_at(
            *old(state),
            CrawlStatus::Done,
            "回填结束: 仍异常 "@ + decimal(remain as nat) + " 支"@,
        ),
{
    state.enter(CrawlStatus::Done, rescrape_message(remain));
}

/// Where the rounds stand.
#[derive(Debug, Clone, Copy, PartialEq, Eq, Structural)]
pub enum Phase {
    RoundStart,
    Stocks,
    RoundEnd,
    Over,
}

/// The rounds: the round they are in, the stocks that are due in it, and how many of these were
/// asked for.
#[derive(Debug, Clone, PartialEq, Eq)]
pub struct RescrapeRun {
    pub round: u64,
    pub max: u64,
    pub due: Vec<String>,
    pub at: usize,
    pub phase: Phase,
}

/// What to do next.
#[derive(Debug, Clone, PartialEq, Eq)]
pub enum RescrapeStep {
    /// Nothing but to go on.
    Again,
    /// Ask for a stock.
    Crawl { code: String, name: String },
    /// Wait that many minutes.
    Wait(u64),
    /// Nothing more.
    Over,
}

/// What the log says where the user stops the rounds.
pub const STOPPED: &'static str = "[rescrape] 用户中止";

/// What the log says where the user stops the wait between two rounds.
pub const STOPPED_WAITING: &'static str = "[rescrape] 用户中止(退避中)";

pub open spec fn round_text(round: int, max: int, due: int) -> Seq<char> {
    "[rescrape] 第 "@ + decimal(round as nat) + "/"@ + decimal(max as nat) + " 次回填，待处理 "@
        + decimal(due as nat) + " 支"@
}

pub open spec fn wait_text(minutes: int) -> Seq<char> {
    "[rescrape] 等待 "@ + decimal(held(minutes) as nat) + " 分钟后再试"@
}

/// Stocks are left that are worth another round.
pub open spec fn any_waiting(items: Seq<CheckItem>, threshold: int) -> bool {
    exists|i: int| 0 <= i < items.len() && is_waiting(#[trigger] items[i], threshold)
}

pub open spec fn phase_rank(phase: Phase) -> int {
    match phase {
        Phase::RoundStart => 3,
        Phase::Stocks => 2,
        Phase::RoundEnd => 1,
        Phase::Over => 0,
    }
}

/// The rounds are nearer to their end: a later round, or a later phase of the same, or one stock
/// fewer in it.
pub open spec fn is_nearer(after: RescrapeRun, before: RescrapeRun) -> bool {
    ||| after.round > before.round
    ||| after.round == before.round && phase_rank(after.phase) < phase_rank(before.phase)
    ||| after.round == before.round && after.phase == before.phase && after.at > before.at
}

/// What a step makes of the rounds.
pub open spec fn stepped(
    before: RescrapeRun,
    after: RescrapeRun,
    list: CheckList,
    rules: Rescrape,
    threshold: int,
    stopped: bool,
    r: (RescrapeStep, Option<String>),
) -> bool {
    &&& after.max == before.max
    &&& match before.phase {
        Phase::RoundStart => {
            let due = codes_of(
                due_items(list.items@, rules.max_tries as int, threshold),
            );
            let ends = before.round > before.max || stopped || due.len() == 0;
            &&& after.round == before.round
            &&& ends ==> {
                &&& after.phase == Phase::Over
                &&& r.0 == RescrapeStep::Over
                &&& text_view(r.1) == if before.round <= before.max && stopped {
                    Some(STOPPED@)
                } else {
                    None
                }
            }
            &&& !ends ==> {
                &&& after.phase == Phase::Stocks
                &&& views(after.due@) == due
                &&& after.at == 0
                &&& r.0 == RescrapeStep::Again
                &&& text_view(r.1) == Some(
                    round_text(
                        before.round as int,
                        before.max as int,
                        due.len() as int,
                    ),
                )
            }
        },
        Phase::Stocks => {
            &&& after.round == before.round
            &&& after.due == before.due
            &&& if before.at >= before.due@.len() {
                &&& after.phase == Phase::RoundEnd
                &&& after.at == before.at
                &&& r.0 == RescrapeStep::Again
                &&& r.1 is None
            } else if stopped {
                &&& after.phase == Phase::RoundEnd
                &&& after.at == before.at
                &&& r.0 == RescrapeStep::Again
                &&& text_view(r.1) == Some(STOPPED@)
            } else {
                let stock = before.due@[before.at as int]@;
                &&& after.phase == Phase::Stocks
                &&& after.at == before.at + 1
                &&& r.0 matches RescrapeStep::Crawl { code, name }
                &&& code@ == stock
                &&& name@ == match place(list.items@, stock) {
                    Some(i) => list.items@[i].name@,
                    None => Seq::empty(),
                }
                &&& r.1 is None
            }
        },
        Phase::RoundEnd => if any_waiting(list.items@, threshold)
            && before.round < before.max {
            let minutes = wait_after(
                rules.backoff_minutes@,
                before.round as int,
            );
            &&& after.round == before.round + 1
            &&& after.phase == Phase::RoundStart
            &&& r.0 == RescrapeStep::Wait(minutes as u64)
            &&& text_view(r.1) == Some(wait_text(minutes))
        } else {
            &&& after.round == before.round
            &&& after.phase == Phase::Over
            &&& r.0 == RescrapeStep::Over
            &&& r.1 is None
        },
        Phase::Over => {
            &&& after == before
            &&& r.0 == RescrapeStep::Over
            &&& r.1 is None
        },
    }
}

impl RescrapeRun {
    /// No more rounds than allowed, and no more stocks than are due.
    pub open spec fn wf(self) -> bool {
        &&& 1 <= self.round
        &&& self.phase == Phase::Stocks || self.phase == Phase::RoundEnd ==> self.round <= self.max
        &&& self.round > 1 ==> self.round <= self.max
        &&& self.at <= self.due@.len()
    }

    pub fn new(max_tries: i64) -> (r: RescrapeRun)
        ensures
            r.wf(),
            r.round == 1,
            r.max == rounds(max_tries as int),
            r.phase == Phase::RoundStart,
    {
        RescrapeRun {
            round: 1,
            max: max_rounds(max_tries),
            due: Vec::new(),
            at: 0,
            phase: Phase::RoundStart,
        }
    }

    /// Takes a step. A round begins where stocks are due; they are asked for one by one; behind
    /// the last the next round begins after a wait, where one is allowed and worth it. A stop
    /// ends the round at once, and the rounds before the next.
    pub fn step(
        &mut self,
        list: &CheckList,
        rules: &Rescrape,
        threshold: usize,
        stopped: bool,
    ) -> (r: (RescrapeStep, Option<String>))
        requires
            old(self).wf(),
        ensures
            final(self).wf(),
            stepped(*old(self), *final(self), *list, *rules, threshold as int, stopped, r),
            old(self).phase != Phase::Over ==> is_nearer(*final(self), *old(self)),
    {
        match self.phase {
            Phase::RoundStart => {
                if self.round > self.max {
                    self.phase = Phase::Over;
                    return (RescrapeStep::Over, None);
                }
                if stopped {
                    self.phase = Phase::Over;
                    return (RescrapeStep::Over, Some(STOPPED.to_string()));
                }
                let due = list.due_codes(rules.max_tries, threshold);
                assert(due@.len() == views(due@).len());
                match round_line(self.round, self.max, due.len()) {
                    Some(line) => {
                        self.due = due;
                        self.at = 0;
                        self.phase = Phase::Stocks;
                        (RescrapeStep::Again, Some(line))
                    },
                    None => {
                        self.phase = Phase::Over;
                        (RescrapeStep::Over, None)
                    },
                }
            },
            Phase::Stocks => {
                if self.at >= self.due.len() {
                    self.phase = Phase::RoundEnd;
                    return (RescrapeStep::Again, None);
                }
                if stopped {
                    self.phase = Phase::RoundEnd;
                    return (RescrapeStep::Again, Some(STOPPED.to_string()));
                }
                let code = self.due[self.at].clone();
                let name = list.name_of(&code);
                self.at = self.at + 1;
                (RescrapeStep::Crawl { code, name }, None)
            },
            Phase::RoundEnd => {
                let still = list.still_pending(threshold);
                match next_round(self.round, self.max, still, &rules.backoff_minutes) {
                    Some(minutes) => {
                        self.round = self.round + 1;
                        self.phase = Phase::RoundStart;
                        (RescrapeStep::Wait(minutes), Some(wait_line(minutes)))
                    },
                    None => {
                        self.phase = Phase::Over;
                        (RescrapeStep::Over, None)
                    },
                }
            },
            Phase::Over => (RescrapeStep::Over, None),
        }
    }
}

/// Takes in what the database has of a stock that is checked. One that lacks as much as the
/// threshold or more is counted, goes onto the list to look into, and is noted as a problem;
/// gives the line for the log.
pub fn check_stock(
    state: &mut AppState,
    list: &mut CheckList,
    abnormal: &mut usize,
    stock: &StockRef,
    found: Completeness,
    threshold: usize,
    max_tries: i64,
    stamp: &str,
) -> (r: Option<String>)
    requires
        old(state).wf(),
        *old(abnormal) < usize::MAX,
    ensures
        final(state).wf(),
        final(list).trade_date == old(list).trade_date,
        final(list).updated_at == old(list).updated_at,
        found.missing().len() < threshold ==> {
            &&& r is None
            &&& *final(state) == *old(state)
            &&& final(list).items == old(list).items
            &&& *final(abnormal) == *old(abnormal)
        },
        found.missing().len() >= threshold ==> {
            let detail = lack_text(found.missing());
            let p = baidu_problem(*stock, "数据不完整"@, detail);
            &&& *final(abnormal) == *old(abnormal) + 1
            &&& exists|item: CheckItem|
                {
                    &&& #[trigger] with_item(old(list).items@, item) == final(list).items@
                    &&& lacks(
                        item,
                        stock.code@,
                        stock.name@,
                        found.missing(),
                        tries_of(old(list).items@, stock.code@),
                        last_try_of(old(list).items@, stock.code@),
                        max_tries as int,
                    )
                }
            &&& *final(state) == (AppState {
                logs: final(state).logs,
                problems: final(state).problems,
                ..*old(state)
            })
            &&& adds_problem(final(state).problems@, old(state).problems@, p)
            &&& text_view(r) == Some(
                "[check] ⚠ "@ + stock.code@ + " ("@ + stock.name@ + ") "@ + detail,
            )
            &&& views(final(state).logs@) == logs_more(
                old(state).logs@,
                stamp@,
                seq![r->0@, problem_line(p)],
            )
        },
{
    match list.review(&stock.code, &stock.name, found, threshold, max_tries) {
        Some(detail) => {
            *abnormal = *abnormal + 1;
            let line = check_finding(&stock.code, &stock.name, &detail);
            state.push_log(stamp, &line);
            note_baidu(state, stamp, stock, "数据不完整", &detail);
            assert(views(state.logs@) =~= logs_more(
                old(state).logs@,
                stamp@,
                seq![line@, problem_line(baidu_problem(*stock, "数据不完整"@, detail@))],
            ));
            Some(line)
        },
        None => None,
    }
}

/// There are as many rounds as tries are allowed, and after each round the wait is as long as the
/// list says for it, a quarter of an hour where the list is too short.
pub proof fn rounds_wait_as_listed(list: Seq<u64>, max_tries: int, round: int)
    ensures
        max_tries >= 0 ==> rounds(max_tries) == max_tries,
        forall|k: int| 0 <= k < list.len() ==> wait_after(list, k + 1) == #[trigger] list[k],
        round > list.len() ==> wait_after(list, round) == 15,
{
}

/// Numbers are written in decimal digits with a comma and a space between.
pub proof fn numbers_are_listed(list: Seq<u64>)
    ensures
        number_list(list) == joined(list.map_values(|n: u64| decimal(n as nat)), ", "@),
    decreases list.len(),
{
    let texts = list.map_values(|n: u64| decimal(n as nat));
    if list.len() > 0 {
        numbers_are_listed(list.drop_last());
        assert(texts.drop_last() =~= list.drop_last().map_values(|n: u64| decimal(n as nat)));
    }
}

/// A round asks for the stocks that were due when it began, each once and in their order, and for
/// no other; a stop ends it, and no stock is asked for behind it.
pub proof fn a_round_asks_for_what_is_due(
    before: RescrapeRun,
    after: RescrapeRun,
    list: CheckList,
    rules: Rescrape,
    threshold: int,
    stopped: bool,
    r: (RescrapeStep, Option<String>),
)
    requires
        before.wf(),
        stepped(before, after, list, rules, threshold, stopped, r),
    ensures
        before.phase == Phase::RoundStart && after.phase == Phase::Stocks ==> !stopped
            && before.round <= before.max && after.at == 0 && views(after.due@) == codes_of(
            due_items(list.items@, rules.max_tries as int, threshold),
        ) && after.due@.len() > 0,
        r.0 matches RescrapeStep::Crawl { code, name } ==> {
            &&& !stopped
            &&& before.phase == Phase::Stocks && after.phase == Phase::Stocks
            &&& before.at < before.due@.len()
            &&& code@ == before.due@[before.at as int]@
            &&& after.at == before.at + 1 && after.due == before.due
        },
        before.phase == Phase::Stocks && !stopped && before.at < before.due@.len() ==> r.0 is Crawl,
        before.phase == Phase::Stocks && (stopped || before.at == before.due@.len()) ==> after.phase
            == Phase::RoundEnd && r.0 !is Crawl,
        stopped ==> r.0 !is Crawl,
        before.phase == Phase::Over ==> after == before,
{
    if before.phase == Phase::RoundStart && after.phase == Phase::Stocks {
        assert(views(after.due@).len() == after.due@.len());
    }
}

/// Behind a round a wait and the next round follow where a stock still waits and a round is left,
/// and nothing otherwise; the rounds are over after as many as are allowed.
pub proof fn rounds_follow_while_stocks_wait(
    before: RescrapeRun,
    after: RescrapeRun,
    list: CheckList,
    rules: Rescrape,
    threshold: int,
    stopped: bool,
    r: (RescrapeStep, Option<String>),
)
    requires
        before.wf(),
        before.phase == Phase::RoundEnd || before.phase == Phase::RoundStart,
        stepped(before, after, list, rules, threshold, stopped, r),
    ensures
        before.phase == Phase::RoundEnd ==> (after.round == before.round + 1 <==> before.round
            < before.max && exists|i: int|
            0 <= i < list.items@.len() && is_waiting(#[trigger] list.items@[i], threshold)),
        after.round == before.round + 1 ==> after.phase == Phase::RoundStart && r.0 is Wait,
        after.round == before.round || after.round == before.round + 1,
        before.phase == Phase::RoundEnd && after.round == before.round ==> after.phase
            == Phase::Over && r.0 is Over,
        before.phase == Phase::RoundStart && (before.round > before.max || stopped) ==> after.phase
            == Phase::Over && r.0 is Over,
        r.0 matches RescrapeStep::Wait(minutes) ==> minutes == wait_after(
            rules.backoff_minutes@,
            before.round as int,
        ) as u64,
{
}

/// Nothing is asked for again where the list is empty or the exchanges are closed, and the log and
/// the status line say which; an open way says nothing.
pub proof fn a_closed_way_is_told(trade_date: Seq<char>)
    ensures
        gate_texts(Gate::Open, trade_date) is None,
        gate_texts(Gate::EmptyList, trade_date) == Some(
            ("[rescrape] 清单为空，无需回填"@, "回填: 清单为空"@),
        ),
        gate_texts(Gate::Closed, trade_date) == Some(
            (
                "[rescrape] "@ + trade_date + " 非交易日，跳过回填（skip_on_non_trading_day=true）"@,
                "回填: 非交易日跳过"@,
            ),
        ),
{
}

/// Stocks are asked for again exactly where there are some, and the exchanges are open or closed
/// days do not count.
pub proof fn the_way_is_open_for_listed_stocks(items: int, skip: bool, trading: bool)
    requires
        items >= 0,
    ensures
        way_of(items, skip, trading) == Gate::Open <==> items > 0 && (trading || !skip),
        way_of(items, skip, trading) == Gate::EmptyList <==> items == 0,
{
}

} // verus!
