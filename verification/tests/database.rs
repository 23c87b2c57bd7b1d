use chrono::Datelike;
use market_pulse::calendar::{
    cst_day, cst_stamp, default_trade_date, is_trading_day, last_trading_day, today_cst, utc_stamp,
};
use market_pulse::db::{
    bump_crawl_stats, bump_crawl_stats_source, ensure_crawl_stats_columns, ensure_extra_columns,
    exists_fresh, needs_rebuild, row_exists_sql, save_snapshot, should_skip, stats_rebuild, Attempt,
    Cell, Completeness, ATTEMPT_SQL, BATCH_SIZE_SQL, EM_SCHEMA, MOST_DATA_SQL, SCHEMA,
    STATS_COLUMNS, STATS_KEY, STATS_SQL, STOCKS_SQL,
};
use market_pulse::models::{FundFlow, RealSum, StockRef, StockResult, SupportResistance, Vote};
use market_pulse::number::Real;

fn words(list: &[&str]) -> Vec<String> {
    list.iter().map(|s| s.to_string()).collect()
}

fn decimal(text: &str) -> Real {
    Real { text: text.to_string() }
}

fn stock() -> StockRef {
    StockRef { code: "000001".to_string(), name: "平安".to_string() }
}

// 2026-09-01 00:30:05 in China.
const INSTANT: i64 = 1_788_193_805;

#[test]
fn days_agree_with_chrono() {
    for day in (1..3_652_059).step_by(9_973).chain([1, 3_652_059]) {
        let date = chrono::NaiveDate::from_num_days_from_ce_opt(day).unwrap();
        let text = date.format("%Y-%m-%d").to_string();
        assert_eq!(text.len(), 10);
        let weekend = date.weekday() == chrono::Weekday::Sat || date.weekday() == chrono::Weekday::Sun;
        assert_eq!(is_trading_day(&text), !weekend, "{}", text);
    }
}

#[test]
fn clocks_agree_with_chrono() {
    for secs in [-62_134_999_999i64, -1, 0, 57_599, 57_600, INSTANT, 253_401_999_999] {
        let utc = chrono::DateTime::from_timestamp(secs, 0).unwrap();
        let cst = utc + chrono::Duration::hours(8);
        assert_eq!(today_cst(secs), cst.format("%Y-%m-%d").to_string());
        assert_eq!(cst_stamp(secs), cst.format("%Y-%m-%d %H:%M:%S").to_string());
        assert_eq!(utc_stamp(secs), utc.format("%Y-%m-%dT%H:%M:%S").to_string());
    }
    assert_eq!(cst_stamp(INSTANT), "2026-09-01 00:30:05");
}

#[test]
fn weekends_and_holidays_are_closed() {
    assert!(is_trading_day("2026-09-02"));
    assert!(!is_trading_day("2026-09-05"));
    assert!(!is_trading_day("2026-10-01"));
    assert!(!is_trading_day("2026-13-01"));
    assert!(!is_trading_day("latest"));
    assert!(is_trading_day("2026-1-1"));
}

#[test]
fn the_last_trading_day_is_found() {
    // 2026-10-07 is the last of a week of holidays.
    let noon = 1_791_345_600;
    assert_eq!(today_cst(noon), "2026-10-07");
    assert_eq!(last_trading_day(cst_day(noon)), "2026-09-30");
    assert_eq!(default_trade_date(None, noon), "2026-09-30");
    assert_eq!(default_trade_date(Some("2026-01-05".to_string()), noon), "2026-01-05");
}

#[test]
fn a_visit_is_written_as_rows() {
    let mut res = StockResult::default();
    res.scores.update_time = Some("2026-08-31".to_string());
    res.scores.technology = Some(decimal("7.5"));
    res.scores.synthesis_rating = Some("8.1".to_string());
    res.support.push(SupportResistance { cycle: "long".to_string(), ..Default::default() });
    res.support.push(SupportResistance { cycle: "short".to_string(), ..Default::default() });
    res.fund_flow = Some(FundFlow {
        main_net: Some(RealSum::Two(decimal("1"), decimal("2"))),
        ..Default::default()
    });
    res.vote = Some(Vote { vote_up: Some("3".to_string()), ..Default::default() });
    let rows = save_snapshot("2026-09-01", &stock(), &res, INSTANT);
    assert_eq!(rows.len(), 7);
    assert_eq!(rows[0].sql, "INSERT OR REPLACE INTO stocks VALUES (?,?,?)");
    assert_eq!(
        rows[0].params,
        vec![
            Cell::Text("000001".to_string()),
            Cell::Text("平安".to_string()),
            Cell::Text("ab".to_string())
        ]
    );
    assert_eq!(rows[1].params.len(), 12);
    assert_eq!(rows[1].params[4], Cell::Real(decimal("7.5")));
    assert_eq!(rows[1].params[5], Cell::Null);
    assert_eq!(rows[1].params[9], Cell::Text("2026-08-31".to_string()));
    assert_eq!(rows[1].params[10], Cell::Text("2026-09-01".to_string()));
    assert_eq!(rows[1].params[11], Cell::Text("ok".to_string()));
    assert!(rows[2].sql.ends_with("empty_streak = 0"));
    assert_eq!(rows[4].params[2], Cell::Text("short".to_string()));
    assert_eq!(rows[5].params[10], Cell::Sum(decimal("1"), decimal("2")));
    assert_eq!(rows[6].params[2], Cell::Text("3".to_string()));
}

#[test]
fn a_shell_is_written_without_details() {
    let mut res = StockResult::default();
    res.name = Some("新名".to_string());
    res.vote = Some(Vote::default());
    let rows = save_snapshot("2026-09-01", &stock(), &res, INSTANT);
    assert_eq!(rows.len(), 3);
    assert_eq!(rows[0].params[1], Cell::Text("新名".to_string()));
    assert_eq!(rows[1].params[9], Cell::Text("2026-09-01".to_string()));
    assert_eq!(rows[1].params[11], Cell::Text("empty".to_string()));
    assert!(rows[2].sql.ends_with("empty_streak = COALESCE(empty_streak, 0) + 1"));
    assert_eq!(rows[2].params[1], Cell::Int(0));
    assert_eq!(rows[2].params[6], Cell::Int(1));
}

#[test]
fn attempts_are_counted_by_source() {
    let row = bump_crawl_stats_source("1", true, "ok", "em", INSTANT);
    assert_eq!(
        row.params,
        vec![
            Cell::Text("1".to_string()),
            Cell::Int(1),
            Cell::Text("ok".to_string()),
            Cell::Text("2026-09-01".to_string()),
            Cell::Text("2026-09-01 00:30:05".to_string()),
            Cell::Text("em".to_string()),
            Cell::Int(0)
        ]
    );
    let failed = bump_crawl_stats("1", false, "fail", INSTANT);
    assert!(failed.sql.ends_with("empty_streak = COALESCE(empty_streak, 0)"));
    assert_eq!(failed.params[5], Cell::Text("baidu".to_string()));
}

fn attempt(status: &str, day: &str, streak: i64) -> Option<Attempt> {
    Some(Attempt {
        last_status: Some(status.to_string()),
        last_day: Some(day.to_string()),
        empty_streak: streak,
    })
}

#[test]
fn fresh_stocks_are_skipped() {
    let today = cst_day(INSTANT);
    assert_eq!(should_skip(today, &None, 2, 3, 7), None);
    assert_eq!(should_skip(today, &attempt("ok", "2026-08-30", 0), 2, 3, 7), Some("ok"));
    assert_eq!(should_skip(today, &attempt("ok", "2026-08-29", 0), 2, 3, 7), None);
    assert_eq!(should_skip(today, &attempt("ok", "2026-09-01", 0), -5, 3, 7), Some("ok"));
    assert_eq!(should_skip(today, &attempt("ok", "2026-08-31", 0), 0, 3, 7), None);
    assert_eq!(should_skip(today, &attempt("ok", "0001-01-01", 0), 1_000_000, 3, 7), Some("ok"));
    assert!(exists_fresh(today, &attempt("ok", "2026-09-01", 0), 2));
    assert!(!exists_fresh(today, &attempt("fail", "2026-09-01", 0), 2));
}

#[test]
fn shells_cool_down() {
    let today = cst_day(INSTANT);
    assert_eq!(should_skip(today, &attempt("empty", "2026-08-25", 3), 2, 3, 7), Some("empty_cooldown"));
    assert_eq!(should_skip(today, &attempt("empty", "2026-08-24", 3), 2, 3, 7), None);
    assert_eq!(should_skip(today, &attempt("empty", "2026-09-01", 2), 2, 3, 7), None);
    assert_eq!(should_skip(today, &attempt("empty", "2026-09-01", 9), 2, 0, 7), None);
    assert_eq!(should_skip(today, &attempt("empty", "2026-09-01", 9), 2, 3, 0), None);
    let no_day = Some(Attempt { last_status: Some("ok".to_string()), last_day: None, empty_streak: 0 });
    assert_eq!(should_skip(today, &no_day, 2, 3, 7), None);
}

#[test]
fn old_tables_get_their_columns() {
    assert_eq!(
        ensure_extra_columns("vote", &words(&["code", "status"])),
        words(&["ALTER TABLE vote ADD COLUMN crawl_date TEXT"])
    );
    assert!(ensure_extra_columns("vote", &words(&["crawl_date", "status"])).is_empty());
    assert!(ensure_crawl_stats_columns(&Vec::new()).is_empty());
    assert_eq!(ensure_crawl_stats_columns(&words(&["code"])).len(), 3);
    assert_eq!(
        ensure_crawl_stats_columns(&words(&["code", "source"])),
        words(&["ALTER TABLE crawl_stats ADD COLUMN empty_streak INTEGER NOT NULL DEFAULT 0"])
    );
    assert!(needs_rebuild("CREATE TABLE crawl_stats (code TEXT PRIMARY KEY)"));
    assert!(needs_rebuild("CREATE TABLE crawl_stats (code TEXT)"));
    assert!(!needs_rebuild("CREATE TABLE crawl_stats (code TEXT, PRIMARY KEY (code, source))"));
    assert!(!needs_rebuild(""));
}

#[test]
fn rows_fit_the_tables() {
    let conn = rusqlite::Connection::open_in_memory().unwrap();
    conn.execute_batch(SCHEMA).unwrap();
    conn.execute_batch(EM_SCHEMA).unwrap();
    let mut res = StockResult::default();
    res.scores.update_time = Some("2026-08-31".to_string());
    res.support.push(SupportResistance { cycle: "long".to_string(), ..Default::default() });
    res.fund_flow = Some(FundFlow::default());
    res.vote = Some(Vote::default());
    for _ in 0..2 {
        for row in save_snapshot("2026-09-01", &stock(), &res, INSTANT) {
            write(&conn, &row);
        }
    }
    let counts: (i64, i64) = conn
        .query_row(
            "SELECT (SELECT COUNT(*) FROM scores), crawl_count FROM crawl_stats WHERE code='000001'",
            [],
            |r| Ok((r.get(0)?, r.get(1)?)),
        )
        .unwrap();
    assert_eq!(counts, (1, 2));
    for table in ["scores", "support_resistance", "fund_flow", "vote"] {
        let found: rusqlite::Result<i64> =
            conn.query_row(&row_exists_sql(table), ["2026-09-01", "000001"], |r| r.get(0));
        assert_eq!(found.unwrap(), 1);
    }
}

#[test]
fn missing_tables_are_named() {
    assert_eq!(
        Completeness::default().missing_vec(),
        words(&["scores", "support_resistance", "fund_flow", "vote"])
    );
    let full = Completeness { scores: true, support: true, fund_flow: true, vote: true };
    assert!(full.missing_vec().is_empty());
    let some = Completeness { fund_flow: false, ..full };
    assert_eq!(some.missing_vec(), words(&["fund_flow"]));
}

fn write(conn: &rusqlite::Connection, row: &market_pulse::db::Statement) {
    let params: Vec<rusqlite::types::Value> = row
        .params
        .iter()
        .map(|c| match c {
            Cell::Text(s) => rusqlite::types::Value::Text(s.clone()),
            Cell::Int(i) => rusqlite::types::Value::Integer(*i),
            _ => rusqlite::types::Value::Null,
        })
        .collect();
    conn.execute(&row.sql, rusqlite::params_from_iter(params)).unwrap();
}

fn last_attempt(conn: &rusqlite::Connection) -> Option<Attempt> {
    conn.query_row(
        "SELECT last_status, substr(last_attempt,1,10), COALESCE(empty_streak,0) FROM crawl_stats \
         WHERE code='000001' AND source='baidu'",
        [],
        |r| {
            Ok(Attempt { last_status: r.get(0)?, last_day: r.get(1)?, empty_streak: r.get(2)? })
        },
    )
    .ok()
}

#[test]
fn a_run_taken_up_again_leaves_out_what_it_has() {
    let conn = rusqlite::Connection::open_in_memory().unwrap();
    conn.execute_batch(SCHEMA).unwrap();
    let today = cst_day(INSTANT);
    assert_eq!(should_skip(today, &last_attempt(&conn), 2, 3, 7), None);
    let shell = StockResult::default();
    for _ in 0..3 {
        assert_eq!(should_skip(today, &last_attempt(&conn), 2, 3, 7), None);
        for row in save_snapshot("2026-09-01", &stock(), &shell, INSTANT) {
            write(&conn, &row);
        }
    }
    assert_eq!(last_attempt(&conn).unwrap().empty_streak, 3);
    assert_eq!(should_skip(today + 7, &last_attempt(&conn), 2, 3, 7), Some("empty_cooldown"));
    assert_eq!(should_skip(today + 8, &last_attempt(&conn), 2, 3, 7), None);
    write(&conn, &bump_crawl_stats("000001", false, "fail", INSTANT));
    assert_eq!(last_attempt(&conn).unwrap().empty_streak, 3);
    assert_eq!(should_skip(today, &last_attempt(&conn), 2, 3, 7), None);
    let mut res = StockResult::default();
    res.scores.update_time = Some("2026-08-31".to_string());
    for row in save_snapshot("2026-09-01", &stock(), &res, INSTANT) {
        write(&conn, &row);
    }
    assert_eq!(last_attempt(&conn).unwrap().empty_streak, 0);
    assert_eq!(should_skip(today + 2, &last_attempt(&conn), 2, 3, 7), Some("ok"));
    assert_eq!(should_skip(today + 3, &last_attempt(&conn), 2, 3, 7), None);
}

#[test]
fn every_day_has_a_last_trading_day() {
    for year in [1, 1999, 2000, 2025, 2026, 2027, 9999] {
        let first = chrono::NaiveDate::from_ymd_opt(year, 2, 1).unwrap().num_days_from_ce();
        for from in first..first + 330 {
            let found = last_trading_day(from);
            assert!(is_trading_day(&found), "{}", found);
            let day = chrono::NaiveDate::parse_from_str(&found, "%Y-%m-%d").unwrap();
            assert!(day.num_days_from_ce() <= from);
            for between in day.num_days_from_ce() + 1..=from {
                let date = chrono::NaiveDate::from_num_days_from_ce_opt(between).unwrap();
                assert!(!is_trading_day(&date.format("%Y-%m-%d").to_string()));
            }
        }
    }
    assert_eq!(last_trading_day(739_617), "2025-12-31");
    assert_eq!(last_trading_day(739_617 + 53), "2026-02-13");
}

fn holds_all(conn: &rusqlite::Connection, trade_date: &str) -> Completeness {
    let there = |table: &str| {
        conn.query_row(&row_exists_sql(table), [trade_date, "000001"], |_| Ok(())).is_ok()
    };
    Completeness {
        scores: there("scores"),
        support: there("support_resistance"),
        fund_flow: there("fund_flow"),
        vote: there("vote"),
    }
}

fn count(conn: &rusqlite::Connection, table: &str) -> i64 {
    conn.query_row(&format!("SELECT COUNT(*) FROM {}", table), [], |r| r.get(0)).unwrap()
}

#[test]
fn an_analysis_that_comes_twice_stands_once() {
    let conn = rusqlite::Connection::open_in_memory().unwrap();
    conn.execute_batch(SCHEMA).unwrap();
    let level = |cycle: &str, level: &str| SupportResistance {
        cycle: cycle.to_string(),
        support_level: Some(level.to_string()),
        ..Default::default()
    };
    let mut first = StockResult::default();
    first.scores.update_time = Some("2026-08-31".to_string());
    first.scores.synthesis_rating = Some("7".to_string());
    first.support = vec![level("long", "1"), level("short", "2")];
    first.vote = Some(Vote { vote_up: Some("3".to_string()), ..Default::default() });
    let mut second = StockResult::default();
    second.scores.update_time = Some("2026-08-31".to_string());
    second.scores.synthesis_rating = Some("8".to_string());
    second.support = vec![level("long", "9")];
    second.fund_flow = Some(FundFlow { super_rate: Some("5".to_string()), ..Default::default() });
    for row in save_snapshot("2026-09-01", &stock(), &first, INSTANT) {
        write(&conn, &row);
    }
    for row in save_snapshot("2026-09-02", &stock(), &second, INSTANT + 86_400) {
        write(&conn, &row);
    }
    assert_eq!(
        ["scores", "support_resistance", "fund_flow", "vote"].map(|t| count(&conn, t)),
        [1, 2, 1, 1]
    );
    let text = |sql: &str| conn.query_row(sql, [], |r| r.get::<_, String>(0)).unwrap();
    assert_eq!(text("SELECT synthesis FROM scores"), "8");
    assert_eq!(text("SELECT trade_date FROM scores"), "2026-09-02");
    assert_eq!(text("SELECT support_level FROM support_resistance WHERE cycle='long'"), "9");
    assert_eq!(text("SELECT support_level FROM support_resistance WHERE cycle='short'"), "2");
    assert_eq!(text("SELECT super_rate FROM fund_flow"), "5");
    assert_eq!(text("SELECT vote_up FROM vote"), "3");
}

#[test]
fn the_check_finds_what_was_written() {
    let conn = rusqlite::Connection::open_in_memory().unwrap();
    conn.execute_batch(SCHEMA).unwrap();
    assert_eq!(holds_all(&conn, "2026-09-01"), Completeness::default());
    let mut res = StockResult::default();
    res.vote = Some(Vote::default());
    for row in save_snapshot("2026-09-01", &stock(), &res, INSTANT) {
        write(&conn, &row);
    }
    let shell = Completeness { scores: true, ..Default::default() };
    assert_eq!(holds_all(&conn, "2026-09-01"), shell);
    res.scores.update_time = Some("2026-08-31".to_string());
    res.support.push(SupportResistance { cycle: "long".to_string(), ..Default::default() });
    for row in save_snapshot("2026-09-01", &stock(), &res, INSTANT) {
        write(&conn, &row);
    }
    let most = Completeness { scores: true, support: true, fund_flow: false, vote: true };
    assert_eq!(holds_all(&conn, "2026-09-01"), most);
    assert_eq!(holds_all(&conn, "2026-09-02"), Completeness::default());
}

fn columns(conn: &rusqlite::Connection) -> Vec<String> {
    let mut query = conn.prepare("PRAGMA table_info(crawl_stats)").unwrap();
    let found = query.query_map([], |r| r.get::<_, String>(1)).unwrap();
    found.map(|c| c.unwrap()).collect()
}

fn made_by(conn: &rusqlite::Connection) -> String {
    conn.query_row(STATS_SQL, [], |r| r.get(0)).unwrap()
}

#[test]
fn an_old_table_is_rebuilt_with_its_rows() {
    let conn = rusqlite::Connection::open_in_memory().unwrap();
    conn.execute_batch(
        "CREATE TABLE crawl_stats (code TEXT PRIMARY KEY, crawl_count INTEGER NOT NULL DEFAULT 0, \
         last_success INTEGER NOT NULL DEFAULT 0, last_status TEXT, last_attempt TEXT, \
         updated_at TEXT); \
         INSERT INTO crawl_stats VALUES ('000001', 4, 1, 'ok', '2026-08-31', 'u'); \
         INSERT INTO crawl_stats VALUES ('600000', 2, 0, 'fail', '2026-08-30', 'v');",
    )
    .unwrap();
    for sql in ensure_crawl_stats_columns(&columns(&conn)) {
        conn.execute(&sql, []).unwrap();
    }
    assert!(made_by(&conn).ends_with(
        "updated_at TEXT, source TEXT DEFAULT 'baidu', empty_streak INTEGER NOT NULL DEFAULT 0)"
    ));
    assert!(needs_rebuild(&made_by(&conn)));
    conn.execute_batch(&stats_rebuild()).unwrap();
    assert!(ensure_crawl_stats_columns(&columns(&conn)).is_empty());
    assert!(!needs_rebuild(&made_by(&conn)));
    assert_eq!(count(&conn, "crawl_stats"), 2);
    let kept: (i64, String, String, i64) = conn
        .query_row(
            "SELECT crawl_count, last_status, source, empty_streak FROM crawl_stats \
             WHERE code='000001'",
            [],
            |r| Ok((r.get(0)?, r.get(1)?, r.get(2)?, r.get(3)?)),
        )
        .unwrap();
    assert_eq!(kept, (4, "ok".to_string(), "baidu".to_string(), 0));
    assert_eq!(attempts_of(&conn, "600000", "baidu"), (2, "fail".to_string(), 0));
    assert_eq!(
        made_by(&conn),
        format!("CREATE TABLE \"crawl_stats\" {}{}", STATS_COLUMNS, STATS_KEY)
    );
    assert_eq!(
        columns(&conn),
        words(&[
            "code", "crawl_count", "last_success", "last_status", "last_attempt", "updated_at",
            "source", "empty_streak",
        ])
    );
    write(&conn, &bump_crawl_stats("000001", true, "ok", INSTANT));
    write(&conn, &bump_crawl_stats_source("000001", true, "ok", "em", INSTANT));
    assert_eq!(count(&conn, "crawl_stats"), 3);
    let fresh = rusqlite::Connection::open_in_memory().unwrap();
    fresh.execute_batch(SCHEMA).unwrap();
    assert!(ensure_crawl_stats_columns(&columns(&fresh)).is_empty());
    assert!(!needs_rebuild(&made_by(&fresh)));
}

fn attempts_of(conn: &rusqlite::Connection, code: &str, source: &str) -> (i64, String, i64) {
    conn.query_row(
        "SELECT crawl_count, last_status, empty_streak FROM crawl_stats WHERE code=? AND source=?",
        [code, source],
        |r| Ok((r.get(0)?, r.get(1)?, r.get(2)?)),
    )
    .unwrap()
}

#[test]
fn sources_count_apart() {
    let conn = rusqlite::Connection::open_in_memory().unwrap();
    conn.execute_batch(SCHEMA).unwrap();
    let shell = StockResult::default();
    write(&conn, &bump_crawl_stats("600000", false, "fail", INSTANT));
    for _ in 0..2 {
        for row in save_snapshot("2026-09-01", &stock(), &shell, INSTANT) {
            write(&conn, &row);
        }
    }
    write(&conn, &bump_crawl_stats_source("000001", true, "ok", "em", INSTANT));
    assert_eq!(attempts_of(&conn, "000001", "baidu"), (2, "empty".to_string(), 2));
    assert_eq!(attempts_of(&conn, "000001", "em"), (1, "ok".to_string(), 0));
    assert_eq!(attempts_of(&conn, "600000", "baidu"), (1, "fail".to_string(), 0));
    write(&conn, &bump_crawl_stats("000001", false, "fail", INSTANT));
    assert_eq!(attempts_of(&conn, "000001", "baidu"), (3, "fail".to_string(), 2));
    assert_eq!(attempts_of(&conn, "000001", "em"), (1, "ok".to_string(), 0));
    let a: (String, String, i64) = conn
        .query_row(ATTEMPT_SQL, ["000001", "baidu"], |r| Ok((r.get(0)?, r.get(1)?, r.get(2)?)))
        .unwrap();
    assert_eq!(a, ("fail".to_string(), "2026-09-01".to_string(), 2));
}

#[test]
fn the_batch_with_the_most_stocks_is_found() {
    let conn = rusqlite::Connection::open_in_memory().unwrap();
    conn.execute_batch(SCHEMA).unwrap();
    assert!(conn.query_row(MOST_DATA_SQL, [], |r| r.get::<_, String>(0)).is_err());
    let shell = StockResult::default();
    for (day, code) in [("2026-09-01", "1"), ("2026-08-31", "1"), ("2026-08-31", "2")] {
        let who = StockRef { code: code.to_string(), name: format!("n{}", code) };
        for row in save_snapshot(day, &who, &shell, INSTANT) {
            write(&conn, &row);
        }
    }
    let most: String = conn.query_row(MOST_DATA_SQL, [], |r| r.get(0)).unwrap();
    assert_eq!(most, "2026-08-31");
    let n: i64 = conn.query_row(BATCH_SIZE_SQL, [&most], |r| r.get(0)).unwrap();
    assert_eq!(n, 2);
    let mut query = conn.prepare(STOCKS_SQL).unwrap();
    let names: Vec<(String, String)> =
        query.query_map([], |r| Ok((r.get(0)?, r.get(1)?))).unwrap().map(|r| r.unwrap()).collect();
    let pair = |code: &str, name: &str| (code.to_string(), name.to_string());
    assert_eq!(names, vec![pair("1", "n1"), pair("2", "n2")]);
}
