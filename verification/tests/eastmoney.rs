use market_pulse::db::{Cell, EM_SCHEMA};
use market_pulse::em_crawler::{
    batch_line, data_day, em_empty_hint, em_gave_up, em_headers, em_tries, em_url,
    empty_list_notice, fast_limiter, fetch_one, final_message, identify, index_latest,
    insert_comment, insert_diag_prob, insert_diag_text, insert_participation, insert_popularity,
    insert_valuation, leftover_tries, next_pass, next_report, on_batch_written, on_em_body,
    on_em_no_reply, on_em_status, on_leftover_begun, on_no_client, on_passes_over,
    own_report_params, page_url, paging_ends, rank_ratio_url, report_label, report_name,
    result_data, row_date, run_total, secucode, valuation_url, ymd, BatchRun, Leftover,
    LeftoverPass, Pager, PassTally, Report, Tables,
};
use market_pulse::http::{FetchStep, Wait};
use market_pulse::json::{parse_json, Json};
use market_pulse::number::Real;
use market_pulse::reports::{ReportRun, Stage};
use market_pulse::state::{AppState, CrawlStatus, UserAck};

fn doc(text: &str) -> Json {
    parse_json(text).unwrap()
}

fn text(s: &str) -> Cell {
    Cell::Text(s.to_string())
}

fn decimal(s: &str) -> Cell {
    Cell::Real(Real { text: s.to_string() })
}

fn who() -> Leftover {
    Leftover { code: "600000".to_string(), name: "浦发".to_string(), td: "2026-09-01".to_string() }
}

fn report(rows: &str) -> market_pulse::em_crawler::Latest {
    index_latest(result_data(doc(&format!("{{\"result\":{{\"data\":[{}]}}}}", rows))))
}

fn tables() -> Tables {
    Tables {
        chances: report("{\"SECURITY_CODE\":\"600000\",\"RISE_1_PROBABILITY\":55}"),
        diagnosis: report("{\"SECURITY_CODE\":\"600000\",\"COMMENT_TXT\":\"c\"}"),
        news: report(""),
        ranks: report(""),
        participation: report("{\"SECURITY_CODE\":\"600000\",\"PARTICIPATION_WISH\":\"1.5\"}"),
        focus: report("{\"SECURITY_CODE\":\"600000\",\"MARKET_FOCUS\":2}"),
    }
}

#[test]
fn exchanges_follow_the_first_digit() {
    assert_eq!(secucode("600000"), "600000.SH");
    assert_eq!(secucode("830001"), "830001.BJ");
    assert_eq!(secucode("430001"), "430001.BJ");
    assert_eq!(secucode("000001"), "000001.SZ");
    assert_eq!(secucode(""), ".SZ");
}

#[test]
fn report_addresses_are_encoded() {
    assert_eq!(
        em_url("R", &vec![("filter".to_string(), "(A=\"1\")".to_string())]),
        "https://datacenter-web.eastmoney.com/api/data/v1/get?reportName=R&columns=ALL&client=PC&source=WEB&filter=%28A%3D%221%22%29"
    );
    assert_eq!(
        page_url("R", &Vec::new(), 3),
        "https://datacenter-web.eastmoney.com/api/data/v1/get?reportName=R&columns=ALL&client=PC&source=WEB&pageSize=500&pageNumber=3"
    );
    assert!(valuation_url("1").contains("filter=%28SECURITY_CODE%3D%221%22%29&pageSize=1&pageNumber=1&sortColumns=TRADE_DATE&sortTypes=-1"));
    assert!(rank_ratio_url("600000").contains("reportName=RPT_CUSTOM_STOCK_PK&"));
    assert!(rank_ratio_url("600000").contains("600000.SH"));
    assert_eq!(em_headers().len(), 3);
    assert_eq!(fast_limiter(7).max_per_minute, 800);
}

#[test]
fn em_replies_decide_on_a_retry() {
    assert_eq!(on_em_status(1, 403), FetchStep::Fail("HTTP 403".to_string()));
    assert_eq!(on_em_status(1, 204), FetchStep::ReadBody);
    assert_eq!(
        on_em_status(2, 404),
        FetchStep::Retry { error: "HTTP 404".to_string(), wait: Wait::Backoff(1) }
    );
    assert_eq!(on_em_body("[1]"), FetchStep::Done(doc("[1]")));
    match on_em_body("") {
        FetchStep::Retry { error, wait } => {
            assert!(error.starts_with("EOF"));
            assert_eq!(wait, Wait::Nothing);
        }
        other => panic!("{:?}", other),
    }
    assert_eq!(
        on_em_no_reply(1, "x", "（直连）"),
        FetchStep::Retry { error: "网络错误: x（直连）".to_string(), wait: Wait::Backoff(0) }
    );
    assert_eq!(em_tries(0), 1);
    assert_eq!(em_tries(5), 5);
    assert_eq!(leftover_tries(1), 3);
    assert_eq!(em_gave_up("e"), "抓取失败: e");
}

#[test]
fn rows_have_their_days() {
    assert_eq!(ymd("2026-09-01 00:00:00"), "2026-09-01");
    assert_eq!(row_date(&doc("{\"TRADE_DATE\":\"2026-09-01 00:00:00\",\"DIAGNOSE_DATE\":\"x\"}")), "2026-09-01");
    assert_eq!(row_date(&doc("{\"DIAGNOSE_DATE\":\"2026-08-31\"}")), "2026-08-31");
    assert_eq!(row_date(&doc("{\"TRADE_DATE\":null,\"DIAGNOSE_DATE\":\"2026-08-31\"}")), "");
    assert_eq!(result_data(doc("{\"result\":null}")).len(), 0);
    assert_eq!(fetch_one(Ok(doc("{\"result\":{\"data\":[1,2]}}"))), Some(doc("1")));
    assert_eq!(fetch_one(Ok(doc("{}"))), None);
    assert_eq!(fetch_one(Err("e".to_string())), None);
}

fn page(n: usize) -> Json {
    doc(&format!("{{\"result\":{{\"data\":[{}]}}}}", vec!["{}"; n].join(",")))
}

#[test]
fn pages_are_collected() {
    let mut p = Pager::new();
    let first = p.take_page("表", Ok(page(500)));
    assert!(first.more);
    assert_eq!(first.log.as_deref(), Some("表 第 1 页 +500，累计 500"));
    let failed = p.take_page("表", Err("e".to_string()));
    assert!(failed.more);
    assert_eq!(failed.log.as_deref(), Some("表 第 2 页失败，自动再试: e"));
    let again = p.take_page("表", Ok(page(500)));
    assert!(again.more);
    assert_eq!(again.log, None);
    assert_eq!(p.page, 3);
    let last = p.take_page("表", Ok(page(7)));
    assert!(!last.more);
    assert_eq!(p.rows.len(), 1007);
    assert_eq!(paging_ends("表", p.rows.len()), "表 完成，共 1007 条");
}

#[test]
fn a_page_that_fails_twice_ends_the_report() {
    let mut p = Pager::new();
    assert!(p.take_page("表", Err("a".to_string())).more);
    let end = p.take_page("表", Err("b".to_string()));
    assert!(!end.more);
    assert_eq!(end.log.as_deref(), Some("表 第 1 页仍失败，停止该表: b"));
    let mut q = Pager::new();
    let none = q.take_page("表", Ok(page(0)));
    assert!(!none.more);
    assert_eq!(none.log, None);
}

#[test]
fn the_latest_row_stands_for_a_stock() {
    let latest = report(
        "{\"SECURITY_CODE\":\"1\",\"TRADE_DATE\":\"2026-09-01\",\"n\":1},\
         {\"SECURITY_CODE\":\"1\",\"TRADE_DATE\":\"2026-09-02\",\"n\":2},\
         {\"SECURITY_CODE\":\"2\",\"n\":3},\
         {\"SECURITY_CODE\":\"1\",\"TRADE_DATE\":\"2026-09-02\",\"n\":4},\
         {\"SECURITY_CODE\":\"1\",\"TRADE_DATE\":\"2026-08-02\",\"n\":5},\
         {\"SECURITY_CODE\":\"\",\"n\":6},{\"n\":7}",
    );
    assert_eq!(latest.get("1").unwrap().get("n"), Some(&doc("4")));
    assert_eq!(latest.get("2").unwrap().get("n"), Some(&doc("3")));
    assert_eq!(latest.get("3"), None);
    assert_eq!(latest.get(""), None);
}

#[test]
fn comments_become_rows() {
    let item = doc(
        "{\"SECURITY_CODE\":\"600000\",\"SECURITY_NAME_ABBR\":\"浦发\",\"TRADE_DATE\":\"2026-09-01 00\",\
         \"TOTALSCORE\":70.5,\"RANK\":\"12\",\"RANK_UP\":3.7,\"FOCUS\":\"-\"}",
    );
    let row = insert_comment(&item, "2026-09-02").unwrap();
    assert_eq!(row.params.len(), 20);
    assert_eq!(row.params[0], text("600000"));
    assert_eq!(row.params[2], text("2026-09-01"));
    assert_eq!(row.params[3], decimal("70.5"));
    assert_eq!(row.params[4], Cell::Int(12));
    assert_eq!(row.params[5], Cell::Whole(Real { text: "3.7".to_string() }));
    assert_eq!(row.params[6], Cell::Null);
    assert_eq!(row.params[19], text("2026-09-02"));
    assert_eq!(insert_comment(&doc("{}"), "d"), None);
}

#[test]
fn diagnoses_become_rows() {
    assert_eq!(insert_diag_text(&who(), "d", Some(&doc("{}")), None), None);
    let comment = doc("{\"COMMENT_TXT\":\"好\",\"SECURITY_NAME_ABBR\":\"甲\",\"TRADE_DATE\":\"2026-08-31\"}");
    let words = doc("{\"WORDS_EXPLAIN\":\"中\",\"SECURITY_NAME_ABBR\":\"乙\"}");
    let row = insert_diag_text(&who(), "d", Some(&comment), Some(&words)).unwrap();
    assert_eq!(
        row.params,
        vec![text("600000"), text("乙"), text("2026-08-31"), text("好"), text("中"), text("d")]
    );
    assert_eq!(insert_diag_prob(&who(), "d", None, None), None);
    let pk = doc("{\"STOCK_RANK_RATIO\":88}");
    let row = insert_diag_prob(&who(), "d", None, Some(&pk)).unwrap();
    assert_eq!(row.params[1], text("浦发"));
    assert_eq!(row.params[3], Cell::Null);
    assert_eq!(row.params[9], decimal("88"));
}

#[test]
fn other_reports_become_rows() {
    let row = insert_participation(&who(), "d", &doc("{\"PARTICIPATION_WISH\":1}"));
    assert_eq!(row.params.len(), 8);
    assert_eq!(row.params[3], decimal("1"));
    assert_eq!(insert_popularity(&who(), "d", None, None), None);
    let focus = doc("{\"TOTAL_MARKET\":5000,\"SECURITY_NAME_ABBR\":\"不用\"}");
    let row = insert_popularity(&who(), "d", None, Some(&focus)).unwrap();
    assert_eq!(row.params[1], text("浦发"));
    assert_eq!(row.params[9], Cell::Int(5000));
    let row = insert_valuation(&who(), "d", &doc("{\"PE_TTM\":5,\"BOARD_NAME\":\"银行\"}"));
    assert_eq!(row.params.len(), 14);
    assert_eq!(row.params[12], text("银行"));
}

#[test]
fn every_row_fits_its_table() {
    let conn = rusqlite::Connection::open_in_memory().unwrap();
    conn.execute_batch(EM_SCHEMA).unwrap();
    let item = doc("{\"SECURITY_CODE\":\"600000\"}");
    let any = doc("{\"COMMENT_TXT\":\"c\"}");
    let rows = vec![
        insert_comment(&item, "d").unwrap(),
        insert_diag_text(&who(), "d", Some(&any), None).unwrap(),
        insert_diag_prob(&who(), "d", Some(&any), None).unwrap(),
        insert_participation(&who(), "d", &any),
        insert_popularity(&who(), "d", Some(&any), None).unwrap(),
        insert_valuation(&who(), "d", &any),
    ];
    for row in rows {
        let params: Vec<String> = row.params.iter().map(|c| format!("{:?}", c)).collect();
        assert_eq!(conn.execute(&row.sql, rusqlite::params_from_iter(params)).unwrap(), 1);
    }
}

#[test]
fn the_reports_of_a_stock_are_written() {
    let item = doc("{\"SECURITY_CODE\":\"600000\",\"TRADE_DATE\":\"2026-09-01\"}");
    assert_eq!(identify(&doc("{}"), "x"), None);
    let id = identify(&item, "x").unwrap();
    assert_eq!(id.td, "2026-09-01");
    assert_eq!(identify(&doc("{\"SECURITY_CODE\":\"1\"}"), "x").unwrap().td, "x");
    let mut run = BatchRun::new();
    let rows = run.take_item(&item, id.clone(), &tables(), "d", false).unwrap();
    let names: Vec<&str> = rows.iter().map(|r| r.sql.split(' ').nth(4).unwrap()).collect();
    assert_eq!(
        names,
        ["em_comment", "em_diag_text", "em_diag_prob", "em_participation", "em_popularity"]
    );
    assert_eq!(run.take_item(&item, id, &tables(), "d", true), None);
    assert_eq!((run.done, run.skipped, run.leftover.len()), (1, 1, 1));
}

#[test]
fn stocks_that_fail_are_kept() {
    let mut state = AppState::new(Vec::new());
    let mut pass = LeftoverPass::new();
    assert_eq!(pass.take(&mut state, who(), &None, &None, None, "d", 0, "t"), None);
    assert_eq!(pass.left, vec![who()]);
    assert_eq!(state.problems[0].page_url, "https://data.eastmoney.com/stockcomment/stock/600000.html");
    let val = Some(doc("{\"PE_TTM\":5}"));
    let rows = pass.take(&mut state, who(), &val, &None, Some(&doc("{}")), "d", 0, "t").unwrap();
    assert_eq!(rows.len(), 3);
    let rows = pass.take(&mut state, who(), &val, &None, None, "d", 0, "t").unwrap();
    assert_eq!(rows.len(), 2);
    assert_eq!((pass.done, pass.failed), (2, 1));
    assert_eq!((state.done, state.failed), (2, 1));
}

#[test]
fn failed_stocks_get_one_more_pass() {
    assert_eq!(next_pass(0, false, 5), Some(None));
    assert_eq!(
        next_pass(1, false, 5),
        Some(Some("估值/打败% 失败 5 只，自动补抓第 1 轮".to_string()))
    );
    assert_eq!(next_pass(2, false, 5), None);
    assert_eq!(next_pass(0, true, 5), None);
    assert_eq!(next_pass(1, false, 0), None);
    let mut tally = PassTally { val_done: 0, val_fail: 0 };
    tally.take_pass(3, 2);
    tally.take_pass(1, 1);
    assert_eq!(final_message(9, 4, &tally), "东财完成: 批量9 跳过4 估值成功4 仍失败1");
}

#[test]
fn reports_come_in_order() {
    let mut order = vec![Report::Comments];
    while let Some(next) = next_report(order[order.len() - 1]) {
        order.push(next);
    }
    assert_eq!(order.len(), 7);
    assert_eq!(report_name(order[6]), "RPT_STOCK_MARKETFOCUS");
    assert_eq!(report_label(order[1]), "上涨概率");
    assert_eq!(
        own_report_params(Report::Focus, "2026-09-01"),
        vec![("filter".to_string(), "(TRADE_DATE='2026-09-01 00:00:00')".to_string())]
    );
    assert_eq!(own_report_params(Report::Comments, "x").len(), 2);
    assert!(own_report_params(Report::News, "x").is_empty());
}

#[test]
fn the_run_follows_its_list() {
    assert_eq!(run_total(10, None), 10);
    assert_eq!(run_total(10, Some(3)), 3);
    assert_eq!(run_total(10, Some(30)), 10);
    assert_eq!(data_day(&Vec::new(), "b"), "b");
    assert_eq!(data_day(&vec![doc("{\"TRADE_DATE\":\"2026-09-01 0\"}")], "b"), "2026-09-01");
    assert_eq!(batch_line(499, 1000, "3"), None);
    assert_eq!(batch_line(500, 1000, "3").as_deref(), Some("批量落库 500/1000 用时 3s"));
    let notice = empty_list_notice();
    assert_eq!(notice.kind, "未拿到数据");
    assert!(notice.detail.starts_with("本次爬取未拿到数据"));
    assert!(notice.detail.ends_with("pageSize=500&pageNumber=1"));
    assert_eq!(notice.links.len(), 2);
    assert!(em_empty_hint("u").ends_with("本次请求接口: u"));
}

fn rows(items: &str) -> Result<Json, String> {
    Ok(doc(&format!("{{\"result\":{{\"data\":[{}]}}}}", items)))
}

#[test]
fn the_reports_come_one_after_the_other() {
    let mut state = AppState::new(Vec::new());
    let mut run = ReportRun::new("2026-09-03".to_string(), Some(1), &mut state, "t");
    assert!(run.url().unwrap().ends_with(
        "reportName=RPT_DMSK_TS_STOCKNEW&columns=ALL&client=PC&source=WEB&sortColumns=SECURITY_CODE&sortTypes=1&pageSize=500&pageNumber=1"
    ));
    let item = "{\"SECURITY_CODE\":\"600000\",\"TRADE_DATE\":\"2026-09-01 00:00:00\"}";
    run.take_page(Err("e".to_string()), &mut state, "t");
    assert!(run.pager.again);
    run.take_page(rows(&format!("{item},{item}")), &mut state, "t");
    assert_eq!((run.comments.len(), run.total, run.day.as_str()), (2, 1, "2026-09-01"));
    assert_eq!((state.total, state.status), (1, CrawlStatus::Running));
    assert_eq!(
        state.logs,
        vec![
            "[t] 东财批量 千股千评 …",
            "[t] 千股千评 第 1 页失败，自动再试: e",
            "[t] 千股千评 完成，共 2 条",
            "[t] 全市场 1 支。批量拉概率/文字/排名/参与意愿；估值与打败% 仍逐股（8 路）",
            "[t] 东财数据日 2026-09-01，按该日过滤历史表",
            "[t] 东财批量 上涨概率 …",
        ]
    );
    for _ in 0..4 {
        assert!(!run.url().unwrap().contains("filter"));
        run.take_page(rows(item), &mut state, "t");
    }
    assert_eq!(run.stage, Stage::Paging(Report::Participation));
    assert!(run.url().unwrap().contains("filter=%28TRADE_DATE%3D%272026-09-01%2000%3A00%3A00%27%29"));
    run.take_page(rows(""), &mut state, "t");
    run.take_page(rows(item), &mut state, "t");
    assert_eq!(run.stage, Stage::Ready);
    assert_eq!(run.url(), None);
    assert!(run.tables.chances.get("600000").is_some());
    assert!(run.tables.participation.get("600000").is_none());
    assert!(run.tables.focus.get("600000").is_some());
}

#[test]
fn the_user_is_asked_about_an_empty_list() {
    let mut state = AppState::new(Vec::new());
    let mut run = ReportRun::new("2026-09-03".to_string(), None, &mut state, "t");
    run.take_page(rows(""), &mut state, "t");
    assert_eq!(run.stage, Stage::Asking);
    assert_eq!(run.url(), None);
    run.answer(UserAck::Retry, &mut state, "t");
    assert_eq!(run.stage, Stage::Paging(Report::Comments));
    run.take_page(rows(""), &mut state, "t");
    run.answer(UserAck::Continue, &mut state, "t");
    assert_eq!((run.stage, run.day.as_str()), (Stage::Paging(Report::Chances), "2026-09-03"));
    let mut other = ReportRun::new("d".to_string(), None, &mut state, "t");
    other.take_page(rows(""), &mut state, "t");
    other.answer(UserAck::Stop, &mut state, "t");
    assert_eq!((other.stage, state.status), (Stage::Stopped, CrawlStatus::Stopped));
}

#[test]
fn the_list_and_its_passes_are_shown() {
    let mut state = AppState::new(Vec::new());
    on_no_client(&mut state, "无网络");
    assert_eq!((state.status, state.status_msg.as_str()), (CrawlStatus::Error, "无网络"));
    let run = BatchRun { done: 2, skipped: 3, leftover: vec![who(), who()] };
    on_batch_written(&mut state, &run);
    assert_eq!((state.done, state.skipped, state.total), (2, 3, 5));
    assert_eq!(state.status_msg, "东财逐股估值 2 只、8 路");
    assert_eq!(state.status, CrawlStatus::Error);
    on_leftover_begun(&mut state, &who());
    assert_eq!((state.current_code.as_str(), state.current_name.as_str()), ("600000", "浦发"));
    assert_eq!(state.current_endpoint, "东财估值/打败%");
    let tally = PassTally { val_done: 1, val_fail: 1 };
    on_passes_over(&mut state, 2, 3, &tally, false);
    assert_eq!((state.done, state.skipped, state.failed), (2, 3, 1));
    assert_eq!(state.status, CrawlStatus::Done);
    assert_eq!(state.status_msg, "东财完成: 批量2 跳过3 估值成功1 仍失败1");
    on_passes_over(&mut state, 2, 3, &tally, true);
    assert_eq!(state.status, CrawlStatus::Stopped);
}

#[test]
fn rows_without_a_code_are_not_counted() {
    let rows = ["{\"SECURITY_CODE\":\"1\"}", "{}", "{\"SECURITY_CODE\":\"2\"}", "{\"SECURITY_CODE\":\"3\"}"];
    let mut run = BatchRun::new();
    for row in rows {
        let item = doc(row);
        if let Some(who) = identify(&item, "d") {
            let skip = who.code == "2";
            run.take_item(&item, who, &tables(), "d", skip);
        }
    }
    assert_eq!((run.done, run.skipped), (2, 1));
    let left: Vec<&str> = run.leftover.iter().map(|w| w.code.as_str()).collect();
    assert_eq!(left, ["1", "3"]);
}

#[test]
fn two_passes_come_to_all_stocks() {
    let mut state = AppState::new(Vec::new());
    let stock = |code: &str| Leftover { code: code.to_string(), ..who() };
    let val = Some(doc("{\"PE_TTM\":5}"));
    let mut tally = PassTally { val_done: 0, val_fail: 0 };
    let mut first = LeftoverPass::new();
    for code in ["1", "2", "3", "4"] {
        let came = if code == "3" { &val } else { &None };
        first.take(&mut state, stock(code), came, &None, None, "d", 0, "t");
    }
    let left: Vec<&str> = first.left.iter().map(|w| w.code.as_str()).collect();
    assert_eq!(left, ["1", "2", "4"]);
    assert_eq!(first.done + first.failed, 4);
    tally.take_pass(first.done, first.failed);
    let mut second = LeftoverPass::new();
    for who in first.left {
        let came = if who.code == "1" { &val } else { &None };
        second.take(&mut state, who, &None, came, None, "d", 0, "t");
    }
    tally.take_pass(second.done, second.failed);
    assert_eq!((tally.val_done, tally.val_fail), (2, 2));
}
