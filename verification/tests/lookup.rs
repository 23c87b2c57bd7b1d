use market_pulse::db::{EM_SCHEMA, SCHEMA};
use market_pulse::lookup::{
    cell, ctrl_degree, dash, lookup_code, lookup_stock, normalize_code, LookupRows, Shown, CRAWL_STATS_QUERY, EM_COMMENT_QUERY, EM_DIAG_PROB_QUERY,
    EM_DIAG_TEXT_QUERY, EM_PARTICIPATION_QUERY, EM_POPULARITY_QUERY, EM_VALUATION_QUERY,
    FUND_FLOW_QUERY, SCORES_QUERY, STOCK_NAME_QUERY, SUPPORT_QUERY, TABLE_QUERY, VOTE_QUERY,
};
use rusqlite::types::ValueRef;
use rusqlite::Connection;

fn row(cells: &[&str]) -> Vec<String> {
    cells.iter().map(|c| c.to_string()).collect()
}

fn no_rows() -> LookupRows {
    LookupRows {
        name: None,
        scores: None,
        support: Vec::new(),
        fund_flow: None,
        vote: None,
        em_comment: None,
        em_valuation: None,
        em_diag_prob: None,
        em_participation: None,
        em_popularity: None,
        em_diag_text: None,
        crawl_stats: Vec::new(),
    }
}

fn value<'a>(snap: &'a market_pulse::lookup::StockSnapshot, title: &str, label: &str) -> &'a str {
    let section = snap.sections.iter().find(|s| s.title == title).unwrap();
    &section.rows.iter().find(|f| f.label == label).unwrap().value
}

#[test]
fn normalize_codes() {
    assert_eq!(normalize_code("1"), "000001");
    assert_eq!(normalize_code("000001.SZ"), "000001");
    assert_eq!(normalize_code("sz000001"), "000001");
    assert_eq!(normalize_code("SH600000"), "600000");
    assert_eq!(normalize_code("  "), "");
}

#[test]
fn long_codes_keep_their_last_digits() {
    assert_eq!(normalize_code("12345678"), "345678");
    assert_eq!(normalize_code("１２"), "");
    assert_eq!(normalize_code(&normalize_code("bj 43")), "000043");
}

fn cells(row: &rusqlite::Row) -> rusqlite::Result<Vec<String>> {
    let n = row.as_ref().column_count();
    Ok((0..n)
        .map(|i| {
            cell(&match row.get_ref(i).unwrap() {
                ValueRef::Null => Shown::Null,
                ValueRef::Integer(n) => Shown::Integer(n),
                ValueRef::Real(x) => Shown::Real(format!("{x}")),
                ValueRef::Text(t) => Shown::Text(String::from_utf8_lossy(t).to_string()),
                ValueRef::Blob(_) => Shown::Blob,
            })
        })
        .collect())
}

fn read(conn: &Connection, sql: &str, code: &str) -> Vec<Vec<String>> {
    let mut stmt = conn.prepare(sql).unwrap();
    let rows = stmt.query_map([code], cells).unwrap();
    rows.map(|r| r.unwrap()).collect()
}

fn rows_of(conn: &Connection, code: &str) -> LookupRows {
    let first = |sql: &str| read(conn, sql, code).into_iter().next();
    LookupRows {
        name: conn.query_row(STOCK_NAME_QUERY, [code], |r| r.get(0)).ok(),
        scores: first(SCORES_QUERY),
        support: read(conn, SUPPORT_QUERY, code),
        fund_flow: first(FUND_FLOW_QUERY),
        vote: first(VOTE_QUERY),
        em_comment: first(EM_COMMENT_QUERY),
        em_valuation: first(EM_VALUATION_QUERY),
        em_diag_prob: first(EM_DIAG_PROB_QUERY),
        em_participation: first(EM_PARTICIPATION_QUERY),
        em_popularity: first(EM_POPULARITY_QUERY),
        em_diag_text: first(EM_DIAG_TEXT_QUERY),
        crawl_stats: read(conn, CRAWL_STATS_QUERY, code),
    }
}

fn database() -> Connection {
    let conn = Connection::open_in_memory().unwrap();
    conn.execute_batch(SCHEMA).unwrap();
    conn.execute_batch(EM_SCHEMA).unwrap();
    conn
}

#[test]
fn lookup_reads_latest_score_row() {
    let conn = database();
    conn.execute(
        "INSERT INTO stocks(code,name,market) VALUES('000001','平安银行','SZ')",
        [],
    )
    .unwrap();
    conn.execute(
        "INSERT INTO scores(trade_date,code,name,synthesis,technology,capital,market,finance,\
         is_new,update_time,crawl_date,status) \
         VALUES('2026-09-01','000001','平安银行','8.1','7','6','5','4','0',\
         '2026-09-01','2026-09-01','ok')",
        [],
    )
    .unwrap();
    let code = lookup_code("1").unwrap();
    let snap = lookup_stock(&code, &rows_of(&conn, &code));
    assert_eq!(snap.code, "000001");
    assert_eq!(snap.name, "平安银行");
    assert!(snap.found);
    assert!(snap.sections.iter().any(|s| s.title.contains("综合评分")));
    let text = snap.as_text();
    assert!(text.contains("综合评级"));
    assert!(text.contains("8.1"));
}

#[test]
fn every_table_can_be_looked_up() {
    let conn = database();
    for table in [
        "scores", "support_resistance", "fund_flow", "vote", "em_comment", "em_valuation",
        "em_diag_prob", "em_participation", "em_popularity", "em_diag_text", "crawl_stats",
    ] {
        let there: i64 = conn.query_row(TABLE_QUERY, [table], |r| r.get(0)).unwrap();
        assert_eq!(there, 1);
        let mut columns = vec!["code"];
        if table != "crawl_stats" {
            columns.push("trade_date");
        }
        let marks = vec!["'000001'"; columns.len()].join(",");
        conn.execute(&format!("INSERT INTO {table}({}) VALUES({marks})", columns.join(",")), [])
            .unwrap();
    }
    let snap = lookup_stock("000001", &rows_of(&conn, "000001"));
    assert_eq!(snap.sections.len(), 11);
    assert_eq!(snap.name, "");
}

#[test]
fn lookup_without_a_code_is_refused() {
    assert_eq!(lookup_code(" sz "), Err("请输入股票代码（如 000001）".to_string()));
}

#[test]
fn lookup_without_rows_finds_nothing() {
    let snap = lookup_stock("000002", &no_rows());
    assert!(!snap.found);
    assert!(snap.sections.is_empty());
    assert_eq!(
        snap.as_text(),
        "000002 \n库里没有 000002。先抓取百度/东财，或确认代码是否为 6 位 A 股。\n"
    );
}

#[test]
fn text_lists_every_line() {
    let mut rows = no_rows();
    rows.em_diag_text = Some(row(&["2026-09-01", "好", "—", "2026-09-02"]));
    let snap = lookup_stock("600000", &rows);
    assert!(snap.sections[0].wide);
    assert_eq!(
        snap.as_text(),
        "600000 \n以下为库内该股各表最新一行（不是实时行情）\n\n东方财富 · 定性诊断\n  \
         数据日  2026-09-01\n  趋势量能/支撑压力  好\n  消息面/资金面  —\n  抓取日  2026-09-02\n"
    );
}

#[test]
fn first_row_of_each_cycle_is_shown() {
    let level = |cycle: &str, support: &str| {
        row(&[
            cycle, support, "r", "d", "t", "l", "s", "b", "e", "k", "i", "u", "x",
        ])
    };
    let mut rows = no_rows();
    rows.support = vec![
        level("long", "10"),
        level("short", "9"),
        level("long", "8"),
        level("week", "7"),
    ];
    let snap = lookup_stock("600000", &rows);
    let titles: Vec<&str> = snap.sections.iter().map(|s| s.title.as_str()).collect();
    assert_eq!(
        titles,
        [
            "百度财经 · 支撑/阻力（长期）",
            "百度财经 · 支撑/阻力（短期）",
            "百度财经 · 支撑/阻力（week）"
        ]
    );
    assert_eq!(value(&snap, "百度财经 · 支撑/阻力（长期）", "支撑位"), "10");
    assert_eq!(value(&snap, "百度财经 · 支撑/阻力（长期）", "说明"), "d");
    assert_eq!(value(&snap, "百度财经 · 支撑/阻力（长期）", "行业"), "i");
}

#[test]
fn sections_come_in_order_with_derived_cells() {
    let mut rows = no_rows();
    let mut comment: Vec<String> = (0..19).map(|i| format!("c{}", i)).collect();
    comment[6] = "0.35".to_string();
    rows.em_comment = Some(comment);
    rows.em_valuation = Some((0..13).map(|i| format!("v{}", i)).collect());
    rows.em_diag_prob = Some(row(&["d", "55", "—", "1", "2", "3", "4", "70", "x"]));
    rows.em_participation = Some((0..6).map(|i| format!("p{}", i)).collect());
    rows.em_popularity = Some((0..10).map(|i| format!("k{}", i)).collect());
    rows.fund_flow = Some((0..11).map(|i| format!("f{}", i)).collect());
    rows.vote = Some((0..10).map(|i| format!("w{}", i)).collect());
    let snap = lookup_stock("600000", &rows);
    let titles: Vec<&str> = snap.sections.iter().map(|s| s.title.as_str()).collect();
    assert_eq!(
        titles,
        [
            "百度财经 · 资金流向（亿）",
            "百度财经 · 看涨/看跌投票",
            "东方财富 · 千股千评",
            "东方财富 · 基本面估值",
            "东方财富 · 诊断概率",
            "东方财富 · 参与意愿",
            "东方财富 · 市场排名",
        ]
    );
    assert_eq!(snap.name, "c0");
    assert_eq!(value(&snap, "东方财富 · 千股千评", "控盘程度"), "中度控盘");
    assert_eq!(value(&snap, "东方财富 · 千股千评", "抓取日"), "c18");
    assert_eq!(value(&snap, "东方财富 · 诊断概率", "次日上涨概率"), "55 %");
    assert_eq!(value(&snap, "东方财富 · 诊断概率", "5日上涨概率"), "—");
    assert_eq!(value(&snap, "东方财富 · 诊断概率", "打败比例"), "70 %");
    assert_eq!(value(&snap, "东方财富 · 市场排名", "综合市场排名"), "k1 / k2");
    assert_eq!(value(&snap, "东方财富 · 市场排名", "关注排名"), "k6 / k7");
    assert_eq!(value(&snap, "百度财经 · 资金流向（亿）", "主力净流入"), "f4");
    assert_eq!(value(&snap, "百度财经 · 看涨/看跌投票", "本周看涨率"), "w7");
}

#[test]
fn attempts_are_shown_by_source() {
    let mut rows = no_rows();
    rows.crawl_stats = vec![
        row(&["baidu", "3", "1", "ok", "2026-09-01", "t", "0"]),
        row(&["em", "2", "0", "fail", "2026-09-02", "t", "1"]),
        row(&["x", "2", "0", "fail", "2026-09-02", "t", "1"]),
    ];
    let snap = lookup_stock("600000", &rows);
    assert!(snap.found);
    assert_eq!(value(&snap, "抓取统计", "百度 最近"), "成功 / ok");
    assert_eq!(value(&snap, "抓取统计", "东财 最近"), "未成功 / fail");
    assert_eq!(value(&snap, "抓取统计", "x 空壳连击"), "1");
    assert_eq!(snap.sections[0].rows.len(), 15);
}

#[test]
fn a_dash_is_no_name() {
    let mut rows = no_rows();
    rows.name = Some("—".to_string());
    assert_eq!(lookup_stock("1", &rows).name, "");
    rows.name = None;
    rows.scores = Some(row(&["a", "b", "—", "c", "d", "e", "f", "g", "h", "i", "j", "k"]));
    rows.em_valuation = Some((0..13).map(|i| format!("v{}", i)).collect());
    assert_eq!(lookup_stock("1", &rows).name, "v0");
}

#[test]
fn cells_show_their_values() {
    assert_eq!(cell(&Shown::Null), "—");
    assert_eq!(cell(&Shown::Blob), "—");
    assert_eq!(cell(&Shown::Integer(-42)), "-42");
    assert_eq!(cell(&Shown::Integer(i64::MIN)), "-9223372036854775808");
    assert_eq!(cell(&Shown::Real("1.5".to_string())), "1.5");
    assert_eq!(cell(&Shown::Text("  x ".to_string())), "x");
    assert_eq!(cell(&Shown::Text("\u{3000}\n".to_string())), "—");
    assert_eq!(dash(""), "—");
}

#[test]
fn control_is_graded_as_doubles_compare() {
    let graded = |op: &str| match op.parse::<f64>() {
        Err(_) => "—",
        Ok(n) if n < 0.3 => "低度控盘",
        Ok(n) if n < 0.7 => "中度控盘",
        Ok(_) => "高度控盘",
    };
    let mut shares: Vec<String> = [
        "—", "", "低", "0", "-0", "0.0", "00", ".", ".3", "0.3", "+0.3", "-5", "-inf", "inf", "NaN",
        "-nan", "infinity", "3e-1", "30e-2", "0.03e1", "0.0003E+3", "3e", "e1", "0.3.", "1", "0.7",
        "0.70", "7e-1", "0.699", "0.2999", "0.30001", "1e99999999999999999999999", "1e-99999999999999999999999",
        "0e99999999999999999999999", "-1e99999999999999999999999", "0.29999999999999995",
        "0.29999999999999996", "0.299999999999999961142194138119521085172891616821289",
        "0.2999999999999999611421941381195210851728916168212890625",
        "0.29999999999999996114219413811952108517289161682128906250000",
        "0.29999999999999996114219413811952108517289161682128906250001",
        "0.6999999999999999", "0.69999999999999990007992778373591136187314987182617187",
        "0.699999999999999900079927783735911361873149871826171875",
        "0.6999999999999999000799277837359113618731498718261718750",
        "0.69999999999999990007992778373591136187314987182617187499",
        "6999999999999999000799277837359113618731498718261718750e-55",
        "29999999999999996114219413811952108517289161682128906250001e-59",
        "0.000000000000000000000000000000000000003e38", "3000000000000000000000000000000e-31",
    ]
    .iter()
    .map(|s| s.to_string())
    .collect();
    for n in 0..2000 {
        shares.push(format!("{}", n as f64 * 0.0005));
        shares.push(format!("{:.4}", n as f64 * 0.0007));
    }
    for op in shares {
        let expected = if op == "—" { "—" } else { graded(&op) };
        assert_eq!(ctrl_degree(&op), expected, "{}", op);
    }
}
