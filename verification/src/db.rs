//! What goes into the database and what is read off it.

use vstd::prelude::*;

use crate::calendar::{
    cst_stamp, day_at, day_text, day_text_of, in_calendar, is_plain, on_clock, stamp_text,
    today_cst, CST_OFFSET,
};
use crate::json::text_view;
use crate::models::{FundFlow, RealSum, StockRef, StockResult, SupportResistance, Vote};
use crate::number::{real_view, Real};
use crate::text::{at_most, contains, holds, is_at_most, position, same, stands_at, views};

verus! {

// ---------------------------------------------------------------- tables

/// The tables of the Baidu data and of the attempts. A row of scores is found by the day of its
/// analysis and its stock, so that an analysis that comes twice stands once; `crawl_date` is
/// the day of the visit, `trade_date` the batch, and `status` tells an analysis (`ok`) from a
/// shell (`empty`).
pub const SCHEMA: &'static str = "
CREATE TABLE IF NOT EXISTS stocks (
    code TEXT PRIMARY KEY, name TEXT, market TEXT
);
CREATE TABLE IF NOT EXISTS scores (
    trade_date TEXT, code TEXT, name TEXT,
    synthesis TEXT, technology TEXT, capital TEXT, market TEXT, finance TEXT,
    is_new TEXT, update_time TEXT,
    crawl_date TEXT, status TEXT,
    PRIMARY KEY (update_time, code)
);
CREATE TABLE IF NOT EXISTS support_resistance (
    trade_date TEXT, code TEXT, cycle TEXT, support_level TEXT, resistance_level TEXT,
    level_desc TEXT, rating_text TEXT, rating_level TEXT, rating_status TEXT,
    bullish_events TEXT, bearish_events TEXT, rank_str TEXT, industry_name TEXT,
    update_time TEXT, crawl_date TEXT, status TEXT,
    PRIMARY KEY (update_time, code, cycle)
);
CREATE TABLE IF NOT EXISTS fund_flow (
    trade_date TEXT, code TEXT, super_net REAL, large_net REAL, medium_net REAL,
    little_net REAL, super_rate TEXT, large_rate TEXT, medium_rate TEXT,
    little_rate TEXT, main_net REAL, update_time TEXT, crawl_date TEXT, status TEXT,
    PRIMARY KEY (update_time, code)
);
CREATE TABLE IF NOT EXISTS vote (
    trade_date TEXT, code TEXT, vote_up TEXT, vote_down TEXT, total_num TEXT,
    vote_up_rate TEXT, vote_down_rate TEXT, week_up TEXT, week_down TEXT, week_rate TEXT,
    update_time TEXT, crawl_date TEXT, status TEXT,
    PRIMARY KEY (update_time, code)
);
-- 逐股累计抓取统计（按 code 独立建表，不受 update_time 变动影响）：
--   crawl_count  累计被尝试抓取的次数（成功/空壳/失败都 +1；续跑跳过不计入）
--   last_success 最近一次尝试是否成功拿到真实分析（1=成功 0=空壳或失败）
--   last_status  'ok' / 'empty' / 'fail'
--   last_attempt 最近一次尝试的日历日（crawl_date）
--   updated_at   最近一次更新的 CST 时间戳
CREATE TABLE IF NOT EXISTS crawl_stats (
    code TEXT NOT NULL,
    crawl_count INTEGER NOT NULL DEFAULT 0,
    last_success INTEGER NOT NULL DEFAULT 0,
    last_status TEXT,
    last_attempt TEXT,
    updated_at TEXT,
    source TEXT NOT NULL DEFAULT 'baidu',
    empty_streak INTEGER NOT NULL DEFAULT 0,
    PRIMARY KEY (code, source)
);
";

/// The tables of the Eastmoney data.
pub const EM_SCHEMA: &'static str = "
CREATE TABLE IF NOT EXISTS em_comment (
    code TEXT NOT NULL, name TEXT, trade_date TEXT NOT NULL,
    emc_total_score REAL, emc_rank INTEGER, emc_rank_up INTEGER,
    emc_focus REAL, emc_org_participate REAL, emc_ratio REAL,
    emc_prime_cost REAL, emc_prime_cost_20d REAL, emc_prime_cost_60d REAL,
    emc_prime_inflow REAL, emc_superdeal_in REAL, emc_superdeal_out REAL,
    emc_bigdeal_in REAL, emc_bigdeal_out REAL,
    emc_buy_superdeal_ratio REAL, emc_buy_bigdeal_ratio REAL,
    crawl_date TEXT,
    PRIMARY KEY (trade_date, code)
);
CREATE TABLE IF NOT EXISTS em_valuation (
    code TEXT NOT NULL, name TEXT, trade_date TEXT NOT NULL,
    emv_pe_ttm REAL, emv_pe_lar REAL, emv_pb_mrq REAL,
    emv_pcf_ocf_lar REAL, emv_pcf_ocf_ttm REAL, emv_ps_ttm REAL, emv_peg REAL,
    emv_total_market_cap REAL, emv_float_market_cap REAL, emv_board TEXT,
    crawl_date TEXT,
    PRIMARY KEY (trade_date, code)
);
CREATE TABLE IF NOT EXISTS em_diag_text (
    code TEXT NOT NULL, name TEXT, trade_date TEXT NOT NULL,
    emt_comment_txt TEXT, emt_words_explain TEXT, crawl_date TEXT,
    PRIMARY KEY (trade_date, code)
);
CREATE TABLE IF NOT EXISTS em_diag_prob (
    code TEXT NOT NULL, name TEXT, trade_date TEXT NOT NULL,
    emt_rise_1_prob REAL, emt_rise_5_prob REAL,
    emt_avg_1_inc REAL, emt_avg_5_inc REAL,
    emt_all_count_1 INTEGER, emt_all_count_5 INTEGER,
    emt_rank_ratio REAL, crawl_date TEXT,
    PRIMARY KEY (trade_date, code)
);
CREATE TABLE IF NOT EXISTS em_participation (
    code TEXT NOT NULL, name TEXT, trade_date TEXT NOT NULL,
    emp_wish REAL, emp_wish_5d REAL, emp_wish_change REAL, emp_wish_5d_change REAL,
    crawl_date TEXT,
    PRIMARY KEY (trade_date, code)
);
CREATE TABLE IF NOT EXISTS em_popularity (
    code TEXT NOT NULL, name TEXT, trade_date TEXT NOT NULL,
    emp_market_rank INTEGER, emp_market_num INTEGER, emp_industry_rank INTEGER,
    emp_change_rate REAL, emp_market_stock_num INTEGER,
    emp_focus_rank INTEGER, emp_focus_total INTEGER, emp_focus_index REAL,
    crawl_date TEXT,
    PRIMARY KEY (trade_date, code)
);
";

/// The columns of a rebuilt table of attempts.
pub const STATS_COLUMNS: &'static str = "(
    code TEXT NOT NULL,
    crawl_count INTEGER NOT NULL DEFAULT 0,
    last_success INTEGER NOT NULL DEFAULT 0,
    last_status TEXT,
    last_attempt TEXT,
    updated_at TEXT,
    source TEXT NOT NULL DEFAULT 'baidu',
    empty_streak INTEGER NOT NULL DEFAULT 0,
    ";

/// The key of a rebuilt table of attempts.
pub const STATS_KEY: &'static str = "PRIMARY KEY (code, source)
)";

/// Moves the attempts over, and gives the rebuilt table the name of the old one.
pub const STATS_MOVE: &'static str = ";
INSERT OR IGNORE INTO crawl_stats_v3
    (code, crawl_count, last_success, last_status, last_attempt, updated_at, source, empty_streak)
SELECT code, crawl_count, last_success, last_status, last_attempt, updated_at,
       COALESCE(source,'baidu'), COALESCE(empty_streak,0)
FROM crawl_stats;
DROP TABLE crawl_stats;
ALTER TABLE crawl_stats_v3 RENAME TO crawl_stats;";

/// The script that rebuilds the table of attempts.
pub open spec fn rebuild_text() -> Seq<char> {
    "CREATE TABLE IF NOT EXISTS crawl_stats_v3 "@ + STATS_COLUMNS@ + STATS_KEY@ + STATS_MOVE@
}

/// Rebuilds the table of attempts with stock and source as its key.
pub fn stats_rebuild() -> (r: String)
    ensures
        r@ == rebuild_text(),
{
    let mut s = "CREATE TABLE IF NOT EXISTS crawl_stats_v3 ".to_string();
    s.append(STATS_COLUMNS);
    s.append(STATS_KEY);
    s.append(STATS_MOVE);
    s
}

/// The alterations that give a table a column, where it has none of that name.
pub open spec fn added_column(
    cols: Seq<Seq<char>>,
    column: Seq<char>,
    alteration: Seq<char>,
) -> Seq<Seq<char>> {
    if cols.contains(column) {
        Seq::empty()
    } else {
        seq![alteration]
    }
}

/// The statements that give an old table of Baidu data the columns it lacks.
pub open spec fn extra_columns(table: Seq<char>, cols: Seq<Seq<char>>) -> Seq<Seq<char>> {
    added_column(
        cols,
        "crawl_date"@,
        "ALTER TABLE "@ + table + " ADD COLUMN crawl_date TEXT"@,
    ) + added_column(cols, "status"@, "ALTER TABLE "@ + table + " ADD COLUMN status TEXT"@)
}

fn has_column(cols: &Vec<String>, column: &str) -> (r: bool)
    ensures
        r == views(cols@).contains(column@),
{
    let found = position(cols, column);
    proof {
        match found {
            Some(i) => {
                assert(views(cols@)[i as int] == column@);
            },
            None => {
                assert forall|j: int| 0 <= j < cols@.len() implies views(cols@)[j] != column@ by {
                    assert(views(cols@)[j] == cols@[j]@);
                }
            },
        }
    }
    found.is_some()
}

/// The statements that give an old table of Baidu data the columns it lacks.
pub fn ensure_extra_columns(table: &str, cols: &Vec<String>) -> (r: Vec<String>)
    ensures
        views(r@) == extra_columns(table@, views(cols@)),
{
    let mut out: Vec<String> = Vec::new();
    if !has_column(cols, "crawl_date") {
        let mut s = "ALTER TABLE ".to_string();
        s.append(table);
        s.append(" ADD COLUMN crawl_date TEXT");
        out.push(s);
    }
    if !has_column(cols, "status") {
        let mut s = "ALTER TABLE ".to_string();
        s.append(table);
        s.append(" ADD COLUMN status TEXT");
        out.push(s);
    }
    assert(views(out@) =~= extra_columns(table@, views(cols@)));
    out
}

/// The statements that give an old table of attempts the columns it lacks: none where there is
/// no such table.
pub open spec fn stats_columns(cols: Seq<Seq<char>>) -> Seq<Seq<char>> {
    if cols.len() == 0 {
        Seq::empty()
    } else {
        (if cols.contains("source"@) {
            Seq::empty()
        } else {
            seq![
                "ALTER TABLE crawl_stats ADD COLUMN source TEXT DEFAULT 'baidu'"@,
                "UPDATE crawl_stats SET source='baidu' WHERE source IS NULL"@,
            ]
        }) + added_column(
            cols,
            "empty_streak"@,
            "ALTER TABLE crawl_stats ADD COLUMN empty_streak INTEGER NOT NULL DEFAULT 0"@,
        )
    }
}

/// The statements that give an old table of attempts the columns it lacks.
pub fn ensure_crawl_stats_columns(cols: &Vec<String>) -> (r: Vec<String>)
    ensures
        views(r@) == stats_columns(views(cols@)),
{
    let mut out: Vec<String> = Vec::new();
    if cols.len() > 0 {
        if !has_column(cols, "source") {
            out.push("ALTER TABLE crawl_stats ADD COLUMN source TEXT DEFAULT 'baidu'".to_string());
            out.push("UPDATE crawl_stats SET source='baidu' WHERE source IS NULL".to_string());
        }
        if !has_column(cols, "empty_streak") {
            out.push(
                "ALTER TABLE crawl_stats ADD COLUMN empty_streak INTEGER NOT NULL DEFAULT 0".to_string(),
            );
        }
    }
    assert(views(out@) =~= stats_columns(views(cols@)));
    out
}

/// A table of attempts, by the statement that made it, has to be rebuilt where its key is not
/// stock and source together.
pub open spec fn wants_rebuild(sql: Seq<char>) -> bool {
    &&& holds(sql, "crawl_stats"@)
    &&& {
        ||| holds(sql, "code TEXT PRIMARY KEY"@)
        ||| !holds(sql, "PRIMARY KEY (code, source)"@) && !holds(
            sql,
            "PRIMARY KEY(code, source)"@,
        )
    }
}

/// Whether a table of attempts has to be rebuilt.
pub fn needs_rebuild(sql: &str) -> (r: bool)
    ensures
        r == wants_rebuild(sql@),
{
    (contains(sql, "code TEXT PRIMARY KEY") || (!contains(sql, "PRIMARY KEY (code, source)")
        && !contains(sql, "PRIMARY KEY(code, source)"))) && contains(sql, "crawl_stats")
}

/// A text without a character, up to a place.
spec fn lacks(s: Seq<char>, c: char, n: nat) -> bool
    decreases n,
{
    n == 0 || s[n - 1] != c && lacks(s, c, (n - 1) as nat)
}

proof fn what_is_lacked_stands_nowhere(s: Seq<char>, c: char, n: nat, i: int)
    requires
        lacks(s, c, n),
        0 <= i < n,
    ensures
        s[i] != c,
    decreases n,
{
    if i < n - 1 {
        what_is_lacked_stands_nowhere(s, c, (n - 1) as nat, i);
    }
}

/// A rebuilt table names a key once, behind its columns.
proof fn the_key_is_named_once(i: int)
    ensures
        0 <= i < STATS_COLUMNS@.len() ==> STATS_COLUMNS@[i] != 'P',
        1 <= i < STATS_KEY@.len() ==> STATS_KEY@[i] != 'P',
        STATS_COLUMNS@.len() > 2 && STATS_COLUMNS@[STATS_COLUMNS@.len() - 2] == ' ',
{
    reveal_strlit(
        "(
    code TEXT NOT NULL,
    crawl_count INTEGER NOT NULL DEFAULT 0,
    last_success INTEGER NOT NULL DEFAULT 0,
    last_status TEXT,
    last_attempt TEXT,
    updated_at TEXT,
    source TEXT NOT NULL DEFAULT 'baidu',
    empty_streak INTEGER NOT NULL DEFAULT 0,
    ",
    );
    reveal_strlit("PRIMARY KEY (code, source)\n)");
    reveal_with_fuel(lacks, 32);
    let s = STATS_COLUMNS@;
    assert(lacks(s, 'P', 30));
    assert(lacks(s, 'P', 60));
    assert(lacks(s, 'P', 90));
    assert(lacks(s, 'P', 120));
    assert(lacks(s, 'P', 150));
    assert(lacks(s, 'P', 180));
    assert(lacks(s, 'P', 210));
    assert(lacks(s, 'P', 240));
    assert(lacks(s, 'P', 270));
    assert(lacks(s, 'P', 272));
    if 0 <= i < s.len() {
        what_is_lacked_stands_nowhere(s, 'P', s.len(), i);
    }
    let rest = STATS_KEY@.skip(1);
    assert(lacks(rest, 'P', 27));
    if 1 <= i < STATS_KEY@.len() {
        what_is_lacked_stands_nowhere(rest, 'P', 27, i - 1);
    }
}

/// An old table of attempts, keyed by the stock alone, is rebuilt, whatever else its statement
/// holds and whatever columns it has got since. A rebuilt table stands under its columns and its
/// key behind `CREATE TABLE` and its name, and is left as it is: a second opening changes
/// nothing.
pub proof fn a_table_is_rebuilt_once(before: Seq<char>, after: Seq<char>, head: Seq<char>)
    requires
        holds(before, "crawl_stats"@),
        !head.contains('P'),
    ensures
        wants_rebuild(before + "code TEXT PRIMARY KEY"@ + after),
        !wants_rebuild(head + STATS_COLUMNS@ + STATS_KEY@),
{
    let old_sql = before + "code TEXT PRIMARY KEY"@ + after;
    let at = choose|at: int| #[trigger] stands_at(before, "crawl_stats"@, at);
    assert(old_sql.subrange(at, at + "crawl_stats"@.len()) =~= "crawl_stats"@) by {
        assert(before.subrange(at, at + "crawl_stats"@.len()) == "crawl_stats"@);
        assert forall|i: int| 0 <= i < "crawl_stats"@.len() implies old_sql.subrange(
            at,
            at + "crawl_stats"@.len(),
        )[i] == "crawl_stats"@[i] by {
            assert(before.subrange(at, at + "crawl_stats"@.len())[i] == "crawl_stats"@[i]);
        }
    }
    assert(stands_at(old_sql, "crawl_stats"@, at));
    let from = before.len() as int;
    assert(old_sql.subrange(from, from + "code TEXT PRIMARY KEY"@.len())
        =~= "code TEXT PRIMARY KEY"@);
    assert(stands_at(old_sql, "code TEXT PRIMARY KEY"@, from));

    let sql = head + STATS_COLUMNS@ + STATS_KEY@;
    let key = (head.len() + STATS_COLUMNS@.len()) as int;
    reveal_strlit("PRIMARY KEY (code, source)\n)");
    reveal_strlit("PRIMARY KEY (code, source)");
    assert(sql.subrange(key, key + "PRIMARY KEY (code, source)"@.len())
        =~= "PRIMARY KEY (code, source)"@);
    assert(stands_at(sql, "PRIMARY KEY (code, source)"@, key));
    assert forall|at: int| !#[trigger] stands_at(sql, "code TEXT PRIMARY KEY"@, at) by {
        reveal_strlit("code TEXT PRIMARY KEY");
        if stands_at(sql, "code TEXT PRIMARY KEY"@, at) {
            let word = sql.subrange(at, at + 21);
            assert(word[10] == 'P' && word[8] == 'T');
            assert(sql[at + 10] == 'P' && sql[at + 8] == 'T');
            the_key_is_named_once(at + 10 - head.len());
            the_key_is_named_once(at + 10 - key);
            if at + 10 < head.len() {
                assert(head[at + 10] == 'P');
            }
        }
    }
}

/// The statement under which SQLite keeps the rebuilt table once it has its name.
pub open spec fn renamed_text() -> Seq<char> {
    "CREATE TABLE \"crawl_stats\" "@ + STATS_COLUMNS@ + STATS_KEY@
}

/// A rebuilt table that has its name is not rebuilt.
pub proof fn a_renamed_table_stays()
    ensures
        !wants_rebuild(renamed_text()),
{
    let head = "CREATE TABLE \"crawl_stats\" "@;
    reveal_strlit("CREATE TABLE \"crawl_stats\" ");
    assert(lacks(head, 'P', head.len())) by {
        reveal_with_fuel(lacks, 30);
    }
    if head.contains('P') {
        let i = choose|i: int| 0 <= i < head.len() && head[i] == 'P';
        what_is_lacked_stands_nowhere(head, 'P', head.len(), i);
    }
    assert(stands_at("crawl_stats"@, "crawl_stats"@, 0)) by {
        assert("crawl_stats"@.subrange(0, "crawl_stats"@.len() as int) =~= "crawl_stats"@);
    }
    a_table_is_rebuilt_once("crawl_stats"@, Seq::empty(), head);
}

/// A name joins the columns of a table, unless it is there.
pub open spec fn with_column(cols: Seq<Seq<char>>, column: Seq<char>) -> Seq<Seq<char>> {
    if cols.contains(column) {
        cols
    } else {
        cols.push(column)
    }
}

proof fn a_column_stays(cols: Seq<Seq<char>>, column: Seq<char>, other: Seq<char>)
    ensures
        with_column(cols, column).contains(column),
        cols.contains(other) ==> with_column(cols, column).contains(other),
{
    if !cols.contains(column) {
        let more = cols.push(column);
        assert(more[cols.len() as int] == column);
        if cols.contains(other) {
            let i = choose|i: int| 0 <= i < cols.len() && cols[i] == other;
            assert(more[i] == other);
        }
    }
}

/// A table that has got its columns asks for none: a second opening adds nothing.
pub proof fn columns_are_added_once(table: Seq<char>, cols: Seq<Seq<char>>)
    ensures
        extra_columns(table, with_column(with_column(cols, "crawl_date"@), "status"@)).len() == 0,
        stats_columns(with_column(with_column(cols, "source"@), "empty_streak"@)).len() == 0,
{
    a_column_stays(cols, "crawl_date"@, "crawl_date"@);
    a_column_stays(with_column(cols, "crawl_date"@), "status"@, "crawl_date"@);
    a_column_stays(cols, "source"@, "source"@);
    a_column_stays(with_column(cols, "source"@), "empty_streak"@, "source"@);
}

// ---------------------------------------------------------------- cells and statements

/// A value bound to a parameter of a statement.
#[derive(Debug, Clone, PartialEq, Eq)]
pub enum Cell {
    Null,
    Int(i64),
    Real(Real),
    /// The sum of two numbers.
    Sum(Real, Real),
    /// A number cut to a whole one, towards zero and to the range of an `i64`.
    Whole(Real),
    Text(String),
}

/// A cell by its contents.
pub enum CellView {
    Null,
    Int(int),
    Real(Seq<char>),
    Sum(Seq<char>, Seq<char>),
    Whole(Seq<char>),
    Text(Seq<char>),
}

impl View for Cell {
    type V = CellView;

    open spec fn view(&self) -> CellView {
        match *self {
            Cell::Null => CellView::Null,
            Cell::Int(i) => CellView::Int(i as int),
            Cell::Real(r) => CellView::Real(r@),
            Cell::Sum(a, b) => CellView::Sum(a@, b@),
            Cell::Whole(r) => CellView::Whole(r@),
            Cell::Text(s) => CellView::Text(s@),
        }
    }
}

/// A statement and the values of its parameters.
#[derive(Debug, Clone, PartialEq, Eq)]
pub struct Statement {
    pub sql: String,
    pub params: Vec<Cell>,
}

/// A statement by its text and its values.
pub struct StatementView {
    pub sql: Seq<char>,
    pub params: Seq<CellView>,
}

pub open spec fn cell_views(cells: Seq<Cell>) -> Seq<CellView> {
    cells.map_values(|c: Cell| c@)
}

impl View for Statement {
    type V = StatementView;

    open spec fn view(&self) -> StatementView {
        StatementView { sql: self.sql@, params: cell_views(self.params@) }
    }
}

pub open spec fn statement_views(list: Seq<Statement>) -> Seq<StatementView> {
    list.map_values(|s: Statement| s@)
}

/// A text, or null.
pub open spec fn text_cell(s: Option<Seq<char>>) -> CellView {
    match s {
        Some(t) => CellView::Text(t),
        None => CellView::Null,
    }
}

/// A number, or null.
pub open spec fn real_cell(r: Option<Seq<char>>) -> CellView {
    match r {
        Some(t) => CellView::Real(t),
        None => CellView::Null,
    }
}

/// A sum, or null.
pub open spec fn sum_cell(sum: Option<RealSum>) -> CellView {
    match sum {
        Some(RealSum::One(a)) => CellView::Real(a@),
        Some(RealSum::Two(a, b)) => CellView::Sum(a@, b@),
        None => CellView::Null,
    }
}

pub fn cell_of_str(s: &str) -> (r: Cell)
    ensures
        r@ == CellView::Text(s@),
{
    Cell::Text(s.to_string())
}

pub fn cell_of_text(s: &Option<String>) -> (r: Cell)
    ensures
        r@ == text_cell(text_view(*s)),
{
    match s {
        Some(t) => Cell::Text(t.clone()),
        None => Cell::Null,
    }
}

pub fn cell_of_real(x: &Option<Real>) -> (r: Cell)
    ensures
        r@ == real_cell(real_view(*x)),
{
    match x {
        Some(t) => Cell::Real(t.copy()),
        None => Cell::Null,
    }
}

fn cell_of_sum(x: &Option<RealSum>) -> (r: Cell)
    ensures
        r@ == sum_cell(*x),
{
    match x {
        Some(RealSum::One(a)) => Cell::Real(a.copy()),
        Some(RealSum::Two(a, b)) => Cell::Sum(a.copy(), b.copy()),
        None => Cell::Null,
    }
}

// ---------------------------------------------------------------- a visit

/// A visit that brought an analysis, with the day of that analysis.
pub open spec fn has_analysis(res: StockResult) -> bool {
    res.scores.update_time is Some
}

/// `ok` for an analysis, `empty` for a shell.
pub open spec fn status_of(res: StockResult) -> Seq<char> {
    if has_analysis(res) {
        "ok"@
    } else {
        "empty"@
    }
}

/// How the count of shells in a row goes on: one more, none, or as it was.
pub open spec fn streak_expr(status: Seq<char>) -> Seq<char> {
    if status == "empty"@ {
        "COALESCE(empty_streak, 0) + 1"@
    } else if status == "ok"@ {
        "0"@
    } else {
        "COALESCE(empty_streak, 0)"@
    }
}

/// Where the count of shells in a row begins.
pub open spec fn first_streak(status: Seq<char>) -> int {
    if status == "empty"@ {
        1
    } else {
        0
    }
}

/// The statement that counts an attempt: a first row, or an update of the row there is.
pub open spec fn stats_text(status: Seq<char>) -> Seq<char> {
    "INSERT INTO crawl_stats (code, crawl_count, last_success, last_status, last_attempt, updated_at, source, empty_streak) VALUES (?1, 1, ?2, ?3, ?4, ?5, ?6, ?7) ON CONFLICT(code, source) DO UPDATE SET crawl_count = crawl_count + 1, last_success = excluded.last_success, last_status = excluded.last_status, last_attempt = excluded.last_attempt, updated_at = excluded.updated_at, empty_streak = "@
        + streak_expr(status)
}

/// Counts an attempt at a stock from a source: its first row, or one more on the row there is.
pub open spec fn stats_row(
    code: Seq<char>,
    success: bool,
    status: Seq<char>,
    source: Seq<char>,
    crawl_date: Seq<char>,
    updated_at: Seq<char>,
) -> StatementView {
    StatementView {
        sql: stats_text(status),
        params: seq![
            CellView::Text(code),
            CellView::Int(
                if success {
                    1
                } else {
                    0
                },
            ),
            CellView::Text(status),
            CellView::Text(crawl_date),
            CellView::Text(updated_at),
            CellView::Text(source),
            CellView::Int(first_streak(status)),
        ],
    }
}

fn stats_statement(
    code: &str,
    success: bool,
    status: &str,
    source: &str,
    crawl_date: &str,
    updated_at: &str,
) -> (r: Statement)
    ensures
        r@ == stats_row(code@, success, status@, source@, crawl_date@, updated_at@),
{
    let mut sql =
        "INSERT INTO crawl_stats (code, crawl_count, last_success, last_status, last_attempt, updated_at, source, empty_streak) VALUES (?1, 1, ?2, ?3, ?4, ?5, ?6, ?7) ON CONFLICT(code, source) DO UPDATE SET crawl_count = crawl_count + 1, last_success = excluded.last_success, last_status = excluded.last_status, last_attempt = excluded.last_attempt, updated_at = excluded.updated_at, empty_streak = ".to_string();
    let empty = same(status, "empty");
    if empty {
        sql.append("COALESCE(empty_streak, 0) + 1");
    } else if same(status, "ok") {
        sql.append("0");
    } else {
        sql.append("COALESCE(empty_streak, 0)");
    }
    let params = vec![
        cell_of_str(code),
        Cell::Int(if success { 1 } else { 0 }),
        cell_of_str(status),
        cell_of_str(crawl_date),
        cell_of_str(updated_at),
        cell_of_str(source),
        Cell::Int(if empty { 1 } else { 0 }),
    ];
    assert(cell_views(params@) =~= stats_row(
        code@,
        success,
        status@,
        source@,
        crawl_date@,
        updated_at@,
    ).params);
    Statement { sql, params }
}

/// Counts an attempt at a stock from a source, made at an instant.
pub fn bump_crawl_stats_source(
    code: &str,
    success: bool,
    status: &str,
    source: &str,
    secs: i64,
) -> (r: Statement)
    requires
        on_clock(secs as int),
    ensures
        r@ == stats_row(
            code@,
            success,
            status@,
            source@,
            day_text_of(day_at(secs as int, CST_OFFSET as int)),
            stamp_text(secs as int, CST_OFFSET as int, " "@),
        ),
{
    stats_statement(code, success, status, source, &today_cst(secs), &cst_stamp(secs))
}

/// Counts an attempt at a stock from Baidu, made at an instant.
pub fn bump_crawl_stats(code: &str, success: bool, status: &str, secs: i64) -> (r: Statement)
    requires
        on_clock(secs as int),
    ensures
        r@ == stats_row(
            code@,
            success,
            status@,
            "baidu"@,
            day_text_of(day_at(secs as int, CST_OFFSET as int)),
            stamp_text(secs as int, CST_OFFSET as int, " "@),
        ),
{
    bump_crawl_stats_source(code, success, status, "baidu", secs)
}

/// The name that a visit brought, else the one it set out with.
pub open spec fn stored_name(stock: StockRef, res: StockResult) -> Seq<char> {
    match res.name {
        Some(n) => n@,
        None => stock.name@,
    }
}

/// The day of the analysis; a shell stands under its batch.
pub open spec fn key_day(trade_date: Seq<char>, res: StockResult) -> Seq<char> {
    match res.scores.update_time {
        Some(t) => t@,
        None => trade_date,
    }
}

pub open spec fn stock_row(stock: StockRef, res: StockResult) -> StatementView {
    StatementView {
        sql: "INSERT OR REPLACE INTO stocks VALUES (?,?,?)"@,
        params: seq![
            CellView::Text(stock.code@),
            CellView::Text(stored_name(stock, res)),
            CellView::Text("ab"@),
        ],
    }
}

pub open spec fn scores_row(
    trade_date: Seq<char>,
    stock: StockRef,
    res: StockResult,
    crawl_date: Seq<char>,
) -> StatementView {
    StatementView {
        sql: "INSERT OR REPLACE INTO scores VALUES (?,?,?,?,?,?,?,?,?,?,?,?)"@,
        params: seq![
            CellView::Text(trade_date),
            CellView::Text(stock.code@),
            CellView::Text(stored_name(stock, res)),
            text_cell(text_view(res.scores.synthesis_rating)),
            real_cell(real_view(res.scores.technology)),
            real_cell(real_view(res.scores.capital)),
            real_cell(real_view(res.scores.market)),
            real_cell(real_view(res.scores.finance)),
            text_cell(text_view(res.scores.is_new)),
            CellView::Text(key_day(trade_date, res)),
            CellView::Text(crawl_date),
            CellView::Text(status_of(res)),
        ],
    }
}

pub open spec fn support_row(
    trade_date: Seq<char>,
    code: Seq<char>,
    s: SupportResistance,
    update_time: Option<Seq<char>>,
    crawl_date: Seq<char>,
    status: Seq<char>,
) -> StatementView {
    StatementView {
        sql: "INSERT OR REPLACE INTO support_resistance VALUES (?,?,?,?,?,?,?,?,?,?,?,?,?,?,?,?)"@,
        params: seq![
            CellView::Text(trade_date),
            CellView::Text(code),
            CellView::Text(s.cycle@),
            text_cell(text_view(s.support_level)),
            text_cell(text_view(s.resistance_level)),
            text_cell(text_view(s.level_desc)),
            text_cell(text_view(s.rating_text)),
            text_cell(text_view(s.rating_level)),
            text_cell(text_view(s.rating_status)),
            text_cell(text_view(s.bullish_events)),
            text_cell(text_view(s.bearish_events)),
            text_cell(text_view(s.rank_str)),
            text_cell(text_view(s.industry_name)),
            text_cell(update_time),
            CellView::Text(crawl_date),
            CellView::Text(status),
        ],
    }
}

/// One row for each cycle.
pub open spec fn support_rows(
    trade_date: Seq<char>,
    code: Seq<char>,
    list: Seq<SupportResistance>,
    update_time: Option<Seq<char>>,
    crawl_date: Seq<char>,
    status: Seq<char>,
) -> Seq<StatementView> {
    Seq::new(
        list.len(),
        |i: int| support_row(trade_date, code, list[i], update_time, crawl_date, status),
    )
}

pub open spec fn flow_row(
    trade_date: Seq<char>,
    code: Seq<char>,
    f: FundFlow,
    update_time: Option<Seq<char>>,
    crawl_date: Seq<char>,
    status: Seq<char>,
) -> StatementView {
    StatementView {
        sql: "INSERT OR REPLACE INTO fund_flow VALUES (?,?,?,?,?,?,?,?,?,?,?,?,?,?)"@,
        params: seq![
            CellView::Text(trade_date),
            CellView::Text(code),
            real_cell(real_view(f.super_net)),
            real_cell(real_view(f.large_net)),
            real_cell(real_view(f.medium_net)),
            real_cell(real_view(f.little_net)),
            text_cell(text_view(f.super_rate)),
            text_cell(text_view(f.large_rate)),
            text_cell(text_view(f.medium_rate)),
            text_cell(text_view(f.little_rate)),
            sum_cell(f.main_net),
            text_cell(update_time),
            CellView::Text(crawl_date),
            CellView::Text(status),
        ],
    }
}

pub open spec fn vote_row(
    trade_date: Seq<char>,
    code: Seq<char>,
    v: Vote,
    update_time: Option<Seq<char>>,
    crawl_date: Seq<char>,
    status: Seq<char>,
) -> StatementView {
    StatementView {
        sql: "INSERT OR REPLACE INTO vote VALUES (?,?,?,?,?,?,?,?,?,?,?,?,?)"@,
        params: seq![
            CellView::Text(trade_date),
            CellView::Text(code),
            text_cell(text_view(v.vote_up)),
            text_cell(text_view(v.vote_down)),
            text_cell(text_view(v.total_num)),
            text_cell(text_view(v.vote_up_rate)),
            text_cell(text_view(v.vote_down_rate)),
            text_cell(text_view(v.week_up)),
            text_cell(text_view(v.week_down)),
            text_cell(text_view(v.week_rate)),
            text_cell(update_time),
            CellView::Text(crawl_date),
            CellView::Text(status),
        ],
    }
}

/// What a visit writes beside stock, scores and attempt: nothing for a shell.
pub open spec fn detail_rows(
    trade_date: Seq<char>,
    stock: StockRef,
    res: StockResult,
    crawl_date: Seq<char>,
) -> Seq<StatementView> {
    if !has_analysis(res) {
        Seq::empty()
    } else {
        let day = text_view(res.scores.update_time);
        support_rows(trade_date, stock.code@, res.support@, day, crawl_date, status_of(res)) + (
        match res.fund_flow {
            Some(f) => seq![
                flow_row(trade_date, stock.code@, f, day, crawl_date, status_of(res)),
            ],
            None => Seq::empty(),
        }) + (match res.vote {
            Some(v) => seq![vote_row(trade_date, stock.code@, v, day, crawl_date, status_of(res))],
            None => Seq::empty(),
        })
    }
}

/// All that a visit writes, as one transaction.
pub open spec fn snapshot_rows(
    trade_date: Seq<char>,
    stock: StockRef,
    res: StockResult,
    crawl_date: Seq<char>,
    updated_at: Seq<char>,
) -> Seq<StatementView> {
    seq![
        stock_row(stock, res),
        scores_row(trade_date, stock, res, crawl_date),
        stats_row(
            stock.code@,
            has_analysis(res),
            status_of(res),
            "baidu"@,
            crawl_date,
            updated_at,
        ),
    ] + detail_rows(trade_date, stock, res, crawl_date)
}

fn stock_statement(stock: &StockRef, name: &str) -> (r: Statement)
    ensures
        r@.sql == "INSERT OR REPLACE INTO stocks VALUES (?,?,?)"@,
        r@.params == seq![
            CellView::Text(stock.code@),
            CellView::Text(name@),
            CellView::Text("ab"@),
        ],
{
    let params = vec![cell_of_str(&stock.code), cell_of_str(name), cell_of_str("ab")];
    let s = Statement { sql: "INSERT OR REPLACE INTO stocks VALUES (?,?,?)".to_string(), params };
    assert(s@.params =~= seq![
        CellView::Text(stock.code@),
        CellView::Text(name@),
        CellView::Text("ab"@),
    ]);
    s
}

fn scores_statement(
    trade_date: &str,
    stock: &StockRef,
    res: &StockResult,
    name: &str,
    crawl_date: &str,
    status: &str,
) -> (r: Statement)
    requires
        name@ == stored_name(*stock, *res),
        status@ == status_of(*res),
    ensures
        r@ == scores_row(trade_date@, *stock, *res, crawl_date@),
{
    let key = match &res.scores.update_time {
        Some(t) => cell_of_str(t),
        None => cell_of_str(trade_date),
    };
    let params = vec![
        cell_of_str(trade_date),
        cell_of_str(&stock.code),
        cell_of_str(name),
        cell_of_text(&res.scores.synthesis_rating),
        cell_of_real(&res.scores.technology),
        cell_of_real(&res.scores.capital),
        cell_of_real(&res.scores.market),
        cell_of_real(&res.scores.finance),
        cell_of_text(&res.scores.is_new),
        key,
        cell_of_str(crawl_date),
        cell_of_str(status),
    ];
    assert(cell_views(params@) =~= scores_row(trade_date@, *stock, *res, crawl_date@).params);
    Statement {
        sql: "INSERT OR REPLACE INTO scores VALUES (?,?,?,?,?,?,?,?,?,?,?,?)".to_string(),
        params,
    }
}

fn support_statement(
    trade_date: &str,
    code: &str,
    s: &SupportResistance,
    update_time: &Option<String>,
    crawl_date: &str,
    status: &str,
) -> (r: Statement)
    ensures
        r@ == support_row(
            trade_date@,
            code@,
            *s,
            text_view(*update_time),
            crawl_date@,
            status@,
        ),
{
    let params = vec![
        cell_of_str(trade_date),
        cell_of_str(code),
        cell_of_str(&s.cycle),
        cell_of_text(&s.support_level),
        cell_of_text(&s.resistance_level),
        cell_of_text(&s.level_desc),
        cell_of_text(&s.rating_text),
        cell_of_text(&s.rating_level),
        cell_of_text(&s.rating_status),
        cell_of_text(&s.bullish_events),
        cell_of_text(&s.bearish_events),
        cell_of_text(&s.rank_str),
        cell_of_text(&s.industry_name),
        cell_of_text(update_time),
        cell_of_str(crawl_date),
        cell_of_str(status),
    ];
    assert(cell_views(params@) =~= support_row(
        trade_date@,
        code@,
        *s,
        text_view(*update_time),
        crawl_date@,
        status@,
    ).params);
    Statement {
        sql: "INSERT OR REPLACE INTO support_resistance VALUES (?,?,?,?,?,?,?,?,?,?,?,?,?,?,?,?)".to_string(),
        params,
    }
}

fn flow_statement(
    trade_date: &str,
    code: &str,
    f: &FundFlow,
    update_time: &Option<String>,
    crawl_date: &str,
    status: &str,
) -> (r: Statement)
    ensures
        r@ == flow_row(trade_date@, code@, *f, text_view(*update_time), crawl_date@, status@),
{
    let params = vec![
        cell_of_str(trade_date),
        cell_of_str(code),
        cell_of_real(&f.super_net),
        cell_of_real(&f.large_net),
        cell_of_real(&f.medium_net),
        cell_of_real(&f.little_net),
        cell_of_text(&f.super_rate),
        cell_of_text(&f.large_rate),
        cell_of_text(&f.medium_rate),
        cell_of_text(&f.little_rate),
        cell_of_sum(&f.main_net),
        cell_of_text(update_time),
        cell_of_str(crawl_date),
        cell_of_str(status),
    ];
    assert(cell_views(params@) =~= flow_row(
        trade_date@,
        code@,
        *f,
        text_view(*update_time),
        crawl_date@,
        status@,
    ).params);
    Statement {
        sql: "INSERT OR REPLACE INTO fund_flow VALUES (?,?,?,?,?,?,?,?,?,?,?,?,?,?)".to_string(),
        params,
    }
}

fn vote_statement(
    trade_date: &str,
    code: &str,
    v: &Vote,
    update_time: &Option<String>,
    crawl_date: &str,
    status: &str,
) -> (r: Statement)
    ensures
        r@ == vote_row(trade_date@, code@, *v, text_view(*update_time), crawl_date@, status@),
{
    let params = vec![
        cell_of_str(trade_date),
        cell_of_str(code),
        cell_of_text(&v.vote_up),
        cell_of_text(&v.vote_down),
        cell_of_text(&v.total_num),
        cell_of_text(&v.vote_up_rate),
        cell_of_text(&v.vote_down_rate),
        cell_of_text(&v.week_up),
        cell_of_text(&v.week_down),
        cell_of_text(&v.week_rate),
        cell_of_text(update_time),
        cell_of_str(crawl_date),
        cell_of_str(status),
    ];
    assert(cell_views(params@) =~= vote_row(
        trade_date@,
        code@,
        *v,
        text_view(*update_time),
        crawl_date@,
        status@,
    ).params);
    Statement {
        sql: "INSERT OR REPLACE INTO vote VALUES (?,?,?,?,?,?,?,?,?,?,?,?,?)".to_string(),
        params,
    }
}

fn detail_statements(
    trade_date: &str,
    stock: &StockRef,
    res: &StockResult,
    crawl_date: &str,
    status: &str,
) -> (r: Vec<Statement>)
    requires
        status@ == status_of(*res),
    ensures
        statement_views(r@) == detail_rows(trade_date@, *stock, *res, crawl_date@),
{
    let mut out: Vec<Statement> = Vec::new();
    if res.scores.update_time.is_none() {
        assert(statement_views(out@) =~= detail_rows(trade_date@, *stock, *res, crawl_date@));
        return out;
    }
    let ghost day = text_view(res.scores.update_time);
    let mut i: usize = 0;
    while i < res.support.len()
        invariant
            i <= res.support@.len(),
            day == text_view(res.scores.update_time),
            status@ == status_of(*res),
            statement_views(out@) == support_rows(
                trade_date@,
                stock.code@,
                res.support@.take(i as int),
                day,
                crawl_date@,
                status@,
            ),
        decreases res.support@.len() - i,
    {
        let row = support_statement(
            trade_date,
            &stock.code,
            &res.support[i],
            &res.scores.update_time,
            crawl_date,
            status,
        );
        let ghost before = statement_views(out@);
        let ghost added = row@;
        out.push(row);
        assert(statement_views(out@) =~= before.push(added));
        i += 1;
        assert(before.push(added) =~= support_rows(
            trade_date@,
            stock.code@,
            res.support@.take(i as int),
            day,
            crawl_date@,
            status@,
        ));
    }
    assert(res.support@.take(i as int) =~= res.support@);
    match &res.fund_flow {
        Some(f) => {
            out.push(
                flow_statement(
                    trade_date,
                    &stock.code,
                    f,
                    &res.scores.update_time,
                    crawl_date,
                    status,
                ),
            );
        },
        None => {},
    }
    match &res.vote {
        Some(v) => {
            out.push(
                vote_statement(
                    trade_date,
                    &stock.code,
                    v,
                    &res.scores.update_time,
                    crawl_date,
                    status,
                ),
            );
        },
        None => {},
    }
    assert(statement_views(out@) =~= detail_rows(trade_date@, *stock, *res, crawl_date@));
    out
}

/// All that a visit at an instant writes, as one transaction: stock, scores and attempt in any
/// case, levels, fund flow and votes only beside an analysis.
pub fn save_snapshot(trade_date: &str, stock: &StockRef, res: &StockResult, secs: i64) -> (r: Vec<
    Statement,
>)
    requires
        on_clock(secs as int),
    ensures
        statement_views(r@) == snapshot_rows(
            trade_date@,
            *stock,
            *res,
            day_text_of(day_at(secs as int, CST_OFFSET as int)),
            stamp_text(secs as int, CST_OFFSET as int, " "@),
        ),
{
    let crawl_date = today_cst(secs);
    let updated_at = cst_stamp(secs);
    let name = match &res.name {
        Some(n) => n.clone(),
        None => stock.name.clone(),
    };
    let found = res.scores.update_time.is_some();
    let status = if found {
        "ok"
    } else {
        "empty"
    };
    let mut out: Vec<Statement> = Vec::new();
    out.push(stock_statement(stock, &name));
    out.push(scores_statement(trade_date, stock, res, &name, &crawl_date, status));
    out.push(stats_statement(&stock.code, found, status, "baidu", &crawl_date, &updated_at));
    let ghost head = statement_views(out@);
    assert(out@[0]@ == stock_row(*stock, *res));
    let mut rest = detail_statements(trade_date, stock, res, &crawl_date, status);
    let ghost tail = statement_views(rest@);
    out.append(&mut rest);
    assert(statement_views(out@) =~= head + tail);
    assert(head =~= seq![
        stock_row(*stock, *res),
        scores_row(trade_date@, *stock, *res, crawl_date@),
        stats_row(
            stock.code@,
            has_analysis(*res),
            status_of(*res),
            "baidu"@,
            crawl_date@,
            updated_at@,
        ),
    ]);
    out
}

/// A shell writes three rows and nothing of levels, fund flow or votes, whatever else the visit
/// brought; so a later visit finds nothing half written.
pub proof fn shell_writes_no_details(
    trade_date: Seq<char>,
    stock: StockRef,
    res: StockResult,
    crawl_date: Seq<char>,
    updated_at: Seq<char>,
)
    requires
        !has_analysis(res),
    ensures
        snapshot_rows(trade_date, stock, res, crawl_date, updated_at).len() == 3,
        key_day(trade_date, res) == trade_date,
        status_of(res) == "empty"@,
{
}

// ---------------------------------------------------------------- what to skip

/// The last attempt at a stock, as the table of attempts has it: its status, the first ten
/// characters of its date, and the shells in a row.
#[derive(Debug, Clone, PartialEq, Eq)]
pub struct Attempt {
    pub last_status: Option<String>,
    pub last_day: Option<String>,
    pub empty_streak: i64,
}

pub open spec fn positive_part(n: int) -> int {
    if n < 0 {
        0
    } else {
        n
    }
}

/// The last attempt stands on or after a day.
pub open spec fn not_before(attempt: Attempt, day: int) -> bool {
    match attempt.last_day {
        Some(d) => at_most(day_text_of(day), d@),
        None => false,
    }
}

/// An analysis that is at most so many days old.
pub open spec fn is_fresh(attempt: Attempt, today: int, fresh_days: int) -> bool {
    &&& text_view(attempt.last_status) == Some("ok"@)
    &&& not_before(attempt, today - positive_part(fresh_days))
}

/// Enough shells in a row that the stock is left alone, where there is a limit and a time for
/// that.
pub open spec fn is_exhausted(attempt: Attempt, empty_limit: int, cooldown_days: int) -> bool {
    &&& empty_limit > 0
    &&& cooldown_days > 0
    &&& text_view(attempt.last_status) == Some("empty"@)
    &&& attempt.empty_streak >= empty_limit
}

/// A stock that is left alone, and for at most so many days.
pub open spec fn is_cooling(
    attempt: Attempt,
    today: int,
    empty_limit: int,
    cooldown_days: int,
) -> bool {
    &&& is_exhausted(attempt, empty_limit, cooldown_days)
    &&& not_before(attempt, today - cooldown_days)
}

fn has_status(attempt: &Attempt, status: &str) -> (r: bool)
    ensures
        r <==> text_view(attempt.last_status) == Some(status@),
{
    match &attempt.last_status {
        Some(s) => same(s, status),
        None => false,
    }
}

/// Whether to skip a stock today, and why: `ok` for a fresh analysis, `empty_cooldown` after too
/// many shells. An analysis of a day with a year of four digits is fresh exactly for
/// `fresh_days` days after it, and so is the cooling.
pub fn should_skip(
    today: i32,
    attempt: &Option<Attempt>,
    fresh_days: i64,
    empty_limit: i64,
    empty_cooldown_days: i64,
) -> (r: Option<&'static str>)
    requires
        in_calendar(today as int),
        in_calendar(today - positive_part(fresh_days as int)),
        attempt matches Some(a) ==> is_exhausted(*a, empty_limit as int, empty_cooldown_days as int)
            ==> in_calendar(today - empty_cooldown_days),
    ensures
        match attempt {
            None => r is None,
            Some(a) => if is_fresh(*a, today as int, fresh_days as int) {
                r matches Some(why) && why@ == "ok"@
            } else if is_cooling(
                *a,
                today as int,
                empty_limit as int,
                empty_cooldown_days as int,
            ) {
                r matches Some(why) && why@ == "empty_cooldown"@
            } else {
                r is None
            },
        },
        attempt matches Some(a) ==> {
            &&& text_view(a.last_status) == Some("ok"@) && is_plain(
                today - positive_part(fresh_days as int),
            ) ==> forall|k: int|
                is_plain(k) && text_view(a.last_day) == Some(#[trigger] day_text_of(k)) ==> (
                r is Some <==> today - k <= positive_part(fresh_days as int))
            &&& is_exhausted(*a, empty_limit as int, empty_cooldown_days as int) && is_plain(
                today - empty_cooldown_days,
            ) ==> forall|k: int|
                is_plain(k) && text_view(a.last_day) == Some(#[trigger] day_text_of(k)) ==> (
                r is Some <==> today - k <= empty_cooldown_days)
        },
{
    let kept: i64 = if fresh_days < 0 {
        0
    } else {
        fresh_days
    };
    let a = match attempt {
        None => {
            return None;
        },
        Some(a) => a,
    };
    proof {
        reveal_strlit("ok");
        reveal_strlit("empty");
        assert("ok"@.len() != "empty"@.len());
    }
    if has_status(a, "ok") {
        let cutoff = day_text((today as i64 - kept) as i32);
        match &a.last_day {
            Some(d) => if is_at_most(&cutoff, d) {
                return Some("ok");
            },
            None => {},
        }
    }
    if empty_limit > 0 && empty_cooldown_days > 0 && has_status(a, "empty") && a.empty_streak
        >= empty_limit {
        let cutoff = day_text((today as i64 - empty_cooldown_days) as i32);
        match &a.last_day {
            Some(d) => if is_at_most(&cutoff, d) {
                return Some("empty_cooldown");
            },
            None => {},
        }
    }
    None
}

/// Whether there is a fresh analysis of a stock.
pub fn exists_fresh(today: i32, attempt: &Option<Attempt>, fresh_days: i64) -> (r: bool)
    requires
        in_calendar(today as int),
        in_calendar(today - positive_part(fresh_days as int)),
    ensures
        r == match attempt {
            None => false,
            Some(a) => is_fresh(*a, today as int, fresh_days as int),
        },
{
    should_skip(today, attempt, fresh_days, 0, 0).is_some()
}

/// The shells in a row of a stock after an attempt, as the row that counts it has it. `before` is
/// what the table had, and none where it had no row of the stock.
pub open spec fn streak_after(before: Option<int>, status: Seq<char>) -> int {
    match before {
        None => first_streak(status),
        Some(n) => if status == "empty"@ {
            n + 1
        } else if status == "ok"@ {
            0
        } else {
            n
        },
    }
}

/// The same after several attempts.
pub open spec fn streak_over(before: Option<int>, statuses: Seq<Seq<char>>) -> Option<int>
    decreases statuses.len(),
{
    if statuses.len() == 0 {
        before
    } else {
        Some(streak_after(streak_over(before, statuses.drop_last()), statuses.last()))
    }
}

/// What the table has of a stock once an attempt on a day was counted.
pub open spec fn is_record(
    a: Attempt,
    before: Option<int>,
    status: Seq<char>,
    day: Seq<char>,
) -> bool {
    &&& text_view(a.last_status) == Some(status)
    &&& text_view(a.last_day) == Some(day)
    &&& a.empty_streak == streak_after(before, status)
}

/// A run that is taken up again leaves out what it has: a visit that brought an analysis is on
/// record as `ok` with its day, and the stock is then fresh as long as the first day that counts
/// as fresh is not behind that day. The analysis ends a row of shells.
pub proof fn what_came_is_left_out(
    trade_date: Seq<char>,
    stock: StockRef,
    res: StockResult,
    day: Seq<char>,
    updated_at: Seq<char>,
    before: Option<int>,
    a: Attempt,
    today: int,
    fresh_days: int,
)
    requires
        has_analysis(res),
        is_record(a, before, status_of(res), day),
        at_most(day_text_of(today - positive_part(fresh_days)), day),
    ensures
        snapshot_rows(trade_date, stock, res, day, updated_at)[2] == stats_row(
            stock.code@,
            true,
            "ok"@,
            "baidu"@,
            day,
            updated_at,
        ),
        is_fresh(a, today, fresh_days),
        a.empty_streak == 0,
{
    reveal_strlit("ok");
    reveal_strlit("empty");
    assert("ok"@.len() != "empty"@.len());
}

/// What failed is asked for again: an attempt on record as neither `ok` nor `empty` keeps no
/// stock out of a run, and leaves the shells in a row as they were.
pub proof fn what_failed_is_asked_for_again(
    before: Option<int>,
    status: Seq<char>,
    day: Seq<char>,
    a: Attempt,
    today: int,
    fresh_days: int,
    empty_limit: int,
    cooldown_days: int,
)
    requires
        status != "ok"@,
        status != "empty"@,
        is_record(a, before, status, day),
    ensures
        !is_fresh(a, today, fresh_days),
        !is_cooling(a, today, empty_limit, cooldown_days),
        before matches Some(n) ==> a.empty_streak == n,
{
}

/// Shells add up: after so many of them in a row the stock is left alone for a while, where that
/// many are too many.
pub proof fn shells_add_up(
    before: Option<int>,
    statuses: Seq<Seq<char>>,
    day: Seq<char>,
    a: Attempt,
    empty_limit: int,
    cooldown_days: int,
)
    requires
        before matches Some(n) ==> n >= 0,
        statuses.len() > 0,
        forall|i: int| 0 <= i < statuses.len() ==> #[trigger] statuses[i] == "empty"@,
        is_record(a, streak_over(before, statuses.drop_last()), statuses.last(), day),
        0 < empty_limit <= statuses.len(),
        cooldown_days > 0,
    ensures
        is_exhausted(a, empty_limit, cooldown_days),
{
    shells_are_counted(before, statuses);
}

proof fn shells_are_counted(before: Option<int>, statuses: Seq<Seq<char>>)
    requires
        before matches Some(n) ==> n >= 0,
        forall|i: int| 0 <= i < statuses.len() ==> #[trigger] statuses[i] == "empty"@,
    ensures
        streak_over(before, statuses) matches Some(n) ==> n >= statuses.len(),
        statuses.len() > 0 ==> streak_over(before, statuses) is Some,
    decreases statuses.len(),
{
    if statuses.len() > 0 {
        let head = statuses.drop_last();
        assert forall|i: int| 0 <= i < head.len() implies #[trigger] head[i] == "empty"@ by {
            assert(head[i] == statuses[i]);
        }
        shells_are_counted(before, head);
        assert(statuses.last() == "empty"@);
    }
}

// ---------------------------------------------------------------- queries

/// Asks for the statement that made the table of attempts.
pub const STATS_SQL: &'static str =
    "SELECT sql FROM sqlite_master WHERE type='table' AND name='crawl_stats'";

/// Asks for the last attempt at a stock from a source.
pub const ATTEMPT_SQL: &'static str =
    "SELECT last_status, substr(last_attempt,1,10), COALESCE(empty_streak,0) FROM crawl_stats WHERE code=? AND COALESCE(source,'baidu')=? LIMIT 1";

/// Asks for the batch with the most stocks.
pub const MOST_DATA_SQL: &'static str =
    "SELECT trade_date FROM scores GROUP BY trade_date ORDER BY COUNT(*) DESC LIMIT 1";

/// Asks for the number of stocks in a batch.
pub const BATCH_SIZE_SQL: &'static str = "SELECT COUNT(*) FROM scores WHERE trade_date=?";

/// Asks for the stocks that the database knows.
pub const STOCKS_SQL: &'static str = "SELECT code, COALESCE(name, '') FROM stocks ORDER BY code";

// ---------------------------------------------------------------- what is there

/// Asks for a row of a table by batch and stock.
pub fn row_exists_sql(table: &str) -> (r: String)
    ensures
        r@ == "SELECT 1 FROM "@ + table@ + " WHERE trade_date=? AND code=? LIMIT 1"@,
{
    let mut s = "SELECT 1 FROM ".to_string();
    s.append(table);
    s.append(" WHERE trade_date=? AND code=? LIMIT 1");
    s
}

/// Which of the four kinds of data there are of a stock on a day.
#[derive(Debug, Clone, Copy, Default, PartialEq, Eq)]
pub struct Completeness {
    pub scores: bool,
    pub support: bool,
    pub fund_flow: bool,
    pub vote: bool,
}

/// A name where there is nothing.
pub open spec fn unless(there: bool, name: Seq<char>) -> Seq<Seq<char>> {
    if there {
        Seq::empty()
    } else {
        seq![name]
    }
}

impl Completeness {
    /// The tables that lack the stock, in their order.
    pub open spec fn missing(self) -> Seq<Seq<char>> {
        unless(self.scores, "scores"@) + unless(self.support, "support_resistance"@) + unless(
            self.fund_flow,
            "fund_flow"@,
        ) + unless(self.vote, "vote"@)
    }

    /// Nothing lacks exactly where all four kinds are there.
    pub proof fn complete_means_nothing_missing(self)
        ensures
            self.missing().len() == 0 <==> self.scores && self.support && self.fund_flow
                && self.vote,
    {
    }

    /// The tables that lack the stock.
    pub fn missing_vec(&self) -> (r: Vec<String>)
        ensures
            views(r@) == self.missing(),
    {
        let mut v: Vec<String> = Vec::new();
        if !self.scores {
            v.push("scores".to_string());
        }
        if !self.support {
            v.push("support_resistance".to_string());
        }
        if !self.fund_flow {
            v.push("fund_flow".to_string());
        }
        if !self.vote {
            v.push("vote".to_string());
        }
        assert(views(v@) =~= self.missing());
        v
    }
}

/// Each table that lacks a stock is named once, and no other is.
pub proof fn lacking_tables_are_named(c: Completeness)
    ensures
        c.missing().contains("scores"@) <==> !c.scores,
        c.missing().contains("support_resistance"@) <==> !c.support,
        c.missing().contains("fund_flow"@) <==> !c.fund_flow,
        c.missing().contains("vote"@) <==> !c.vote,
        c.missing().len() == (if c.scores {
            0int
        } else {
            1int
        }) + (if c.support {
            0int
        } else {
            1int
        }) + (if c.fund_flow {
            0int
        } else {
            1int
        }) + (if c.vote {
            0int
        } else {
            1int
        }),
{
    reveal_strlit("scores");
    reveal_strlit("support_resistance");
    reveal_strlit("fund_flow");
    reveal_strlit("vote");
    let list = c.missing();
    let a: int = if c.scores {
        0
    } else {
        1
    };
    let b: int = a + if c.support {
        0int
    } else {
        1int
    };
    let d: int = b + if c.fund_flow {
        0int
    } else {
        1int
    };
    assert forall|i: int| 0 <= i < list.len() implies {
        ||| (#[trigger] list[i]).len() == 6 && !c.scores
        ||| list[i].len() == 18 && !c.support
        ||| list[i].len() == 9 && !c.fund_flow
        ||| list[i].len() == 4 && !c.vote
    } by {}
    if !c.scores {
        assert(list[0] == "scores"@);
    }
    if !c.support {
        assert(list[a] == "support_resistance"@);
    }
    if !c.fund_flow {
        assert(list[b] == "fund_flow"@);
    }
    if !c.vote {
        assert(list[d] == "vote"@);
    }
}

/// A stock is left alone once as many shells in a row came as the limit says, and not before;
/// without a limit or without days to leave it alone never. A negative number of days counts as
/// none.
pub proof fn enough_shells_leave_a_stock_alone(a: Attempt, limit: int, days: int, n: int)
    requires
        text_view(a.last_status) == Some("empty"@),
    ensures
        limit > 0 && days > 0 ==> (is_exhausted(a, limit, days) <==> limit <= a.empty_streak),
        limit <= 0 || days <= 0 ==> !is_exhausted(a, limit, days),
        n >= 0 ==> positive_part(n) == n,
        n <= 0 ==> positive_part(n) == 0,
{
}

/// A visit that brought an analysis stands under the day of that analysis, a shell under the day of
/// its batch. The name is the one that came, else the one that was there.
pub proof fn an_analysis_stands_under_its_day(trade_date: Seq<char>, stock: StockRef,
    res: StockResult)
    ensures
        res.scores.update_time matches Some(t) ==> key_day(trade_date, res) == t@ && status_of(res)
            == "ok"@,
        res.scores.update_time is None ==> key_day(trade_date, res) == trade_date && status_of(res)
            == "empty"@,
        res.name matches Some(n) ==> stored_name(stock, res) == n@,
        res.name is None ==> stored_name(stock, res) == stock.name@,
{
}

} // verus!
