use market_pulse::checklist::{CheckItem, CheckList, CheckStatus};
use market_pulse::crawler::{
    ask_notice, db_open_notice, end_line, finished, free_limiter, is_403, on_crawl_ended,
    on_crawl_started, on_failed_start, on_refreshed, on_request, on_review_failed, on_reviewed,
    on_save_failed, on_visit_came, on_visit_failed, on_visit_saved, pick_targets, refresh_line,
    refresh_pause, refresh_succeeded, start_line, status_after_failed_start, worker_exit,
    AfterRefusal, Exit, Pace, Slot, Tally, TodoList, COOLDOWN_SEC, MAX_COOLDOWNS, SECOND,
    SOURCE_HINT,
};
use market_pulse::db::Completeness;
use market_pulse::http::{gave_up, Endpoint};
use market_pulse::models::StockRef;
use market_pulse::rescrape::{
    check_date, check_stock, gate_message, on_check_begun, on_check_failed, on_check_over,
    on_rescrape_asked, on_rescrape_over, on_stock_retried, rescrape_gate, rescrape_starts,
    single_config, status_after_stock, Gate, Phase, RescrapeRun, RescrapeStep,
};
use market_pulse::settings::Rescrape;
use market_pulse::state::{AppState, CrawlStatus, UserAck};
use market_pulse::verify::network_hint;

fn stock(code: &str) -> StockRef {
    StockRef { code: code.to_string(), name: "名".to_string() }
}

fn item(code: &str, missing: usize, tries: i64, status: CheckStatus) -> CheckItem {
    CheckItem {
        code: code.to_string(),
        name: format!("n{}", code),
        missing: vec!["x".to_string(); missing],
        missing_count: missing,
        tries,
        last_try: None,
        status,
    }
}

fn list(items: Vec<CheckItem>) -> CheckList {
    CheckList { trade_date: "d".to_string(), updated_at: "u".to_string(), items }
}

const FULL: Completeness =
    Completeness { scores: true, support: true, fund_flow: true, vote: true };

#[test]
fn slots_follow_the_level() {
    let mut p = Pace::new(100);
    for _ in 0..16 {
        assert_eq!(p.acquire_slot(100, true, 5), Slot::Granted(0));
    }
    assert_eq!(p.acquire_slot(100, true, 5), Slot::Wait(20_000_000));
    p.release_slot();
    assert_eq!(p.acquire_slot(100, false, 5), Slot::Granted(0));
    p.max_inflight = 1;
    p.inflight = 0;
    assert_eq!(p.acquire_slot(100, false, 5), Slot::Granted(5));
    p.release_slot();
    p.release_slot();
    assert_eq!(p.inflight, 0);
}

#[test]
fn refusals_slow_the_crawl_down() {
    let mut p = Pace::new(0);
    let first = p.handle_403(SECOND, true);
    assert_eq!((first.from, first.to, first.pause), (16, 4, 8));
    assert_eq!(first.next, AfterRefusal::GoOn);
    assert_eq!(p.acquire_slot(2 * SECOND, false, 0), Slot::Wait(200_000_000));
    assert_eq!(p.acquire_slot(9 * SECOND, false, 0), Slot::Granted(0));
    assert_eq!(p.acquire_slot(31 * SECOND - 7, true, 0), Slot::Wait(7));
    let second = p.handle_403(40 * SECOND, false);
    assert_eq!((second.from, second.to, second.pause), (4, 1, 20));
    assert_eq!(second.next, AfterRefusal::Refresh { long_cool: false });
    assert_eq!(p.handle_403(41 * SECOND, false).next, AfterRefusal::GoOn);
    p.refreshed(false, false);
    assert_eq!((p.consec_403, p.refreshing, p.max_inflight), (3, false, 1));
    p.refreshed(true, false);
    assert_eq!(p.consec_403, 0);
}

#[test]
fn refusals_end_in_a_long_pause_and_a_stop() {
    let mut p = Pace::new(0);
    assert_eq!(p.handle_403(0, true).next, AfterRefusal::GoOn);
    let mut nth = 1;
    let mut long_pauses = Vec::new();
    loop {
        nth += 1;
        match p.handle_403(0, true).next {
            AfterRefusal::GoOn => {}
            AfterRefusal::GiveUp => break,
            AfterRefusal::Refresh { long_cool } => {
                assert!(p.refreshing);
                if long_cool {
                    long_pauses.push(nth);
                }
                p.refreshed(false, long_cool);
            }
        }
    }
    assert_eq!(long_pauses, (1..=MAX_COOLDOWNS).map(|k| 8 * k).collect::<Vec<_>>());
    assert_eq!(nth, 8 * MAX_COOLDOWNS + 2);
    assert_eq!(p.cooldown_rounds, MAX_COOLDOWNS);
    assert!(!p.refreshing);
    assert_eq!(refresh_pause(false, true), 600);
    assert_eq!(refresh_pause(false, false), 20);
    assert_eq!(refresh_pause(true, true), 5);
    assert_eq!(refresh_line(false, true).as_deref(), Some("[B] 刷新失败，冷却 600s"));
    assert_eq!(refresh_line(false, false), None);
    assert!(refresh_succeeded("OK\n3"));
}

#[test]
fn successes_speed_the_crawl_up() {
    let mut p = Pace::new(0);
    p.max_inflight = 1;
    let mut levels = Vec::new();
    for _ in 0..72 {
        if let Some(n) = p.note_success() {
            levels.push(n);
        }
    }
    assert_eq!(levels, [4, 8, 16]);
    for _ in 0..50 {
        assert_eq!(p.note_success(), None);
    }
}

#[test]
fn refusals_are_told_by_their_words() {
    for msg in ["HTTP 403", "Forbidden", "命中反爬验证页(CHALLENGE)", "安全验证"] {
        assert!(is_403(msg));
    }
    assert!(is_403(&gave_up(3, "命中反爬验证页(CHALLENGE)")));
    assert!(!is_403("HTTP 500"));
}

#[test]
fn a_failed_stock_is_noted() {
    let mut state = AppState::new(Vec::new());
    let mut pace = Pace::new(0);
    let mut tally = Tally { done: 2, failed: 0 };
    pace.consec_403 = 3;
    let none = on_visit_failed(
        &mut state, &mut pace, &mut tally, &stock("1"), "HTTP 500", false, 0, "t",
    );
    assert_eq!(none, None);
    assert_eq!(pace.consec_403, 0);
    assert_eq!(state.logs[0], "[t] [直连] 股票 1 抓取失败: HTTP 500");
    assert_eq!(state.logs.len(), 2);
    let slow = on_visit_failed(
        &mut state, &mut pace, &mut tally, &stock("2"), "HTTP 403", true, 0, "t",
    );
    assert_eq!(slow.unwrap().to, 4);
    assert_eq!(state.status, CrawlStatus::Cooling);
    assert_eq!(state.status_msg, "4路（403降速）");
    assert_eq!(state.logs[4], "[t] 遇 403，并发从 16 路降到 4 路，暂停 8s");
    assert_eq!((state.done, state.failed, state.consecutive_403), (2, 2, 1));
    assert_eq!(state.problems.len(), 2);
    on_refreshed(&mut state, &mut pace, true, false, false);
    assert_eq!(state.status, CrawlStatus::Running);
    assert_eq!(state.status_msg, "1路（403后）");
}

#[test]
fn too_many_refusals_are_an_error() {
    let mut state = AppState::new(Vec::new());
    let mut pace = Pace::new(0);
    let mut tally = Tally { done: 0, failed: 0 };
    pace.max_inflight = 1;
    pace.consec_403 = 1;
    pace.cooldown_rounds = MAX_COOLDOWNS;
    let slow = on_visit_failed(
        &mut state, &mut pace, &mut tally, &stock("2"), "HTTP 403", true, 0, "t",
    );
    assert_eq!(slow.unwrap().next, AfterRefusal::GiveUp);
    assert_eq!(state.status, CrawlStatus::Error);
    assert_eq!(state.status_msg, "连续冷却 12 次仍遭 403，判定为持久封禁");
    assert_eq!(state.logs.len(), 2);
}

#[test]
fn a_saved_stock_is_counted() {
    let mut state = AppState::new(Vec::new());
    let mut pace = Pace::new(0);
    let mut tally = Tally { done: 0, failed: 1 };
    pace.max_inflight = 4;
    pace.consec_ok = 23;
    state.status = CrawlStatus::Cooling;
    on_visit_saved(&mut state, &mut pace, &mut tally, "t");
    assert_eq!(state.status, CrawlStatus::Running);
    assert_eq!(state.status_msg, "8路并发");
    assert_eq!(state.logs, vec!["[t] 连续成功，恢复到 8 路并发"]);
    on_visit_saved(&mut state, &mut pace, &mut tally, "t");
    assert_eq!((state.done, state.failed), (2, 1));
    on_visit_came(&mut state, &stock("1"), true, "t");
    assert!(state.problems.is_empty());
    on_visit_came(&mut state, &stock("1"), false, "t");
    assert_eq!(state.problems[0].kind, "未拿到数据");
    on_save_failed(&mut state, &pace, &mut tally, &stock("1"), "disk", "t");
    assert_eq!(state.problems[1].detail, "保存失败: disk");
    assert_eq!(state.failed, 2);
}

#[test]
fn a_stock_that_lacks_data_is_listed() {
    let mut state = AppState::new(Vec::new());
    let mut l = list(vec![item("1", 2, 3, CheckStatus::Pending)]);
    on_reviewed(&mut state, &mut l, &stock("1"), FULL, 1, 3, "t");
    assert!(state.logs.is_empty());
    let lacks = Completeness { vote: false, support: false, ..FULL };
    on_reviewed(&mut state, &mut l, &stock("1"), lacks, 1, 3, "t");
    assert_eq!(l.items.len(), 1);
    assert_eq!(l.items[0].status, CheckStatus::Exhausted);
    assert_eq!(l.items[0].tries, 3);
    assert_eq!(
        state.logs[0],
        "[t] ⚠ [完整性] 1 (名) 完整性缺 2 项: [\"support_resistance\", \"vote\"]"
    );
    on_reviewed(&mut state, &mut l, &stock("2"), lacks, 3, 3, "t");
    assert_eq!(l.items.len(), 1);
    on_review_failed(&mut state, &stock("2"), "locked", "t");
    assert_eq!(state.problems[1].detail, "完整性检查失败: locked");
}

#[test]
fn lists_keep_one_item_for_each_stock() {
    let mut l = list(vec![item("1", 1, 0, CheckStatus::Pending)]);
    l.upsert(item("2", 2, 0, CheckStatus::Pending));
    l.upsert(item("1", 3, 1, CheckStatus::Pending));
    let codes: Vec<&str> = l.items.iter().map(|i| i.code.as_str()).collect();
    assert_eq!(codes, ["1", "2"]);
    assert_eq!(l.items[0].missing_count, 3);
    assert_eq!(l.trade_date, "d");
}

#[test]
fn due_stocks_are_tried_again() {
    let mut l = list(vec![
        item("1", 1, 0, CheckStatus::Pending),
        item("2", 1, 3, CheckStatus::Pending),
        item("3", 0, 0, CheckStatus::Pending),
        item("4", 2, 2, CheckStatus::Pending),
        item("5", 2, 0, CheckStatus::Resolved),
    ]);
    assert_eq!(l.due_codes(3, 1), vec!["1", "4"]);
    assert_eq!(l.due_codes(-1, 0), Vec::<String>::new());
    assert_eq!(l.abnormal_count(1), 4);
    assert_eq!(l.remaining_count(1), 3);
    assert!(l.still_pending(2));
    assert!(!l.still_pending(3));
    assert_eq!(l.record_retry("1", FULL, "t", 3).as_deref(), Some("[rescrape] ✓ 1 已补齐"));
    assert_eq!(l.items[0].status, CheckStatus::Resolved);
    assert_eq!(l.items[0].last_try.as_deref(), Some("t"));
    let lacks = Completeness { scores: false, ..FULL };
    assert_eq!(
        l.record_retry("4", lacks, "t", 3).as_deref(),
        Some("[rescrape] ✗ 4 仍缺 1 项: [\"scores\"] (tries=3)")
    );
    assert_eq!(l.items[3].status, CheckStatus::Exhausted);
    assert_eq!(l.record_retry("9", lacks, "t", 3), None);
    assert_eq!(l.name_of("4"), "n4");
    assert_eq!(l.name_of("9"), "");
}

#[test]
fn rounds_go_on_until_nothing_is_due() {
    let rules = Rescrape::default();
    let mut l = list(vec![
        item("1", 1, 0, CheckStatus::Pending),
        item("2", 1, 0, CheckStatus::Pending),
    ]);
    let mut run = RescrapeRun::new(rules.max_tries);
    let mut waits = Vec::new();
    let mut asked = Vec::new();
    let mut logs = Vec::new();
    let lacks = Completeness { scores: false, ..FULL };
    for _ in 0..100 {
        let (step, log) = run.step(&l, &rules, 1, false);
        logs.extend(log);
        match step {
            RescrapeStep::Again => {}
            RescrapeStep::Crawl { code, name } => {
                assert_eq!(name, format!("n{}", code));
                let found = if code == "2" { FULL } else { lacks };
                l.record_retry(&code, found, "t", rules.max_tries);
                asked.push(code);
            }
            RescrapeStep::Wait(minutes) => waits.push(minutes),
            RescrapeStep::Over => break,
        }
    }
    assert_eq!(asked, ["1", "2", "1", "1"]);
    assert_eq!(waits, [5, 15]);
    assert_eq!(logs[0], "[rescrape] 第 1/3 次回填，待处理 2 支");
    assert_eq!(logs[1], "[rescrape] 等待 5 分钟后再试");
    assert_eq!(l.items[0].status, CheckStatus::Exhausted);
    assert_eq!(l.remaining_count(1), 1);
}

#[test]
fn a_stop_ends_the_rounds() {
    let rules = Rescrape { backoff_minutes: Vec::new(), ..Rescrape::default() };
    let l = list(vec![item("1", 1, 0, CheckStatus::Pending)]);
    let mut run = RescrapeRun::new(3);
    run.step(&l, &rules, 1, false);
    let (step, log) = run.step(&l, &rules, 1, true);
    assert_eq!(step, RescrapeStep::Again);
    assert_eq!(log.as_deref(), Some("[rescrape] 用户中止"));
    assert_eq!(run.step(&l, &rules, 1, true).0, RescrapeStep::Wait(15));
    let (step, log) = run.step(&l, &rules, 1, true);
    assert_eq!(step, RescrapeStep::Over);
    assert_eq!(log.as_deref(), Some("[rescrape] 用户中止"));
    assert_eq!(run.phase, Phase::Over);
    assert_eq!(RescrapeRun::new(0).step(&l, &rules, 1, false), (RescrapeStep::Over, None));
    assert_eq!(RescrapeRun::new(-4).max, u64::MAX - 3);
    assert_eq!(RescrapeRun::new(-4).step(&l, &Rescrape { max_tries: -4, ..Rescrape::default() }, 1, false).0, RescrapeStep::Over);
    assert_eq!(RescrapeRun::new(i64::MIN).max, 1 << 63);
}

#[test]
fn a_long_wait_is_shown_as_it_is_held() {
    for minutes in [1u64, 30, 9_007_199_254_740_993, u64::MAX] {
        let rules = Rescrape { backoff_minutes: vec![minutes], ..Rescrape::default() };
        let l = list(vec![item("1", 1, 0, CheckStatus::Pending)]);
        let mut run = RescrapeRun::new(3);
        run.phase = Phase::RoundEnd;
        let (step, log) = run.step(&l, &rules, 1, false);
        assert_eq!(step, RescrapeStep::Wait(minutes));
        assert_eq!(log.unwrap(), format!("[rescrape] 等待 {:.0} 分钟后再试", minutes as f64));
    }
}

#[test]
fn closed_days_are_left_out() {
    assert_eq!(rescrape_gate(0, true, true), Gate::EmptyList);
    assert_eq!(rescrape_gate(2, true, false), Gate::Closed);
    assert_eq!(rescrape_gate(2, false, false), Gate::Open);
    assert_eq!(gate_message(Gate::Open, "d"), None);
    assert_eq!(gate_message(Gate::EmptyList, "d").unwrap().1, "回填: 清单为空");
    assert_eq!(
        gate_message(Gate::Closed, "d").unwrap().0,
        "[rescrape] d 非交易日，跳过回填（skip_on_non_trading_day=true）"
    );
    assert_eq!(
        rescrape_starts("d", &Rescrape::default()),
        "[rescrape] 交易日=d 最大重试=3 退避=[5, 15, 30]"
    );
    assert_eq!(status_after_stock(CrawlStatus::Stopped), CrawlStatus::Stopped);
    assert_eq!(status_after_stock(CrawlStatus::Done), CrawlStatus::Running);
    let one = single_config("db", "d", "1", "n");
    assert_eq!(one.codes, vec![StockRef { code: "1".to_string(), name: "n".to_string() }]);
    assert!(!one.resume);
}

#[test]
fn a_check_notes_what_is_missing() {
    let mut state = AppState::new(Vec::new());
    let mut l = list(Vec::new());
    let mut abnormal = 0;
    let lacks = Completeness { scores: false, ..FULL };
    assert_eq!(check_stock(&mut state, &mut l, &mut abnormal, &stock("1"), FULL, 1, 3, "t"), None);
    assert_eq!(
        check_stock(&mut state, &mut l, &mut abnormal, &stock("2"), lacks, 1, 3, "t").as_deref(),
        Some("[check] ⚠ 2 (名) 完整性缺 1 项: [\"scores\"]")
    );
    assert_eq!(abnormal, 1);
    assert_eq!(l.items[0].code, "2");
    assert_eq!(state.problems.len(), 1);
    assert_eq!(check_date("2026-01-05", Some("m".to_string()), "o"), "2026-01-05");
    assert_eq!(check_date("latest", Some("m".to_string()), "o"), "m");
    assert_eq!(check_date("latest", None, "o"), "o");
}

#[test]
fn stocks_are_picked_and_skipped() {
    let codes = vec![stock("1"), stock("2"), stock("3")];
    assert_eq!(pick_targets(&codes, Some(2)), vec![stock("1"), stock("2")]);
    assert_eq!(pick_targets(&codes, None).len(), 3);
    assert_eq!(pick_targets(&codes, Some(9)).len(), 3);
    let mut todo = TodoList::new();
    assert_eq!(todo.consider(stock("1"), None), None);
    assert_eq!(todo.consider(stock("2"), Some("ok")), None);
    assert_eq!(
        todo.consider(stock("3"), Some("empty_cooldown")).as_deref(),
        Some("3 空壳冷却跳过")
    );
    assert_eq!((todo.todo.len(), todo.skipped), (1, 2));
    assert_eq!(start_line(5, 2, "直连"), "开始并发抓取：16路，待抓 5 已跳过 2。直连");
}

#[test]
fn workers_share_the_ways_out() {
    assert_eq!(worker_exit(0, true, true), Exit { proxy_client: true, use_proxy: true });
    assert_eq!(worker_exit(1, true, true), Exit { proxy_client: false, use_proxy: false });
    assert_eq!(worker_exit(2, true, false), Exit { proxy_client: false, use_proxy: true });
    assert_eq!(worker_exit(1, false, true), Exit { proxy_client: true, use_proxy: true });
    assert_eq!(worker_exit(1, false, false), Exit { proxy_client: false, use_proxy: false });
    assert_eq!(free_limiter(3).rate_wait_cap, Some(0));
}

#[test]
fn notices_tell_what_to_look_at() {
    let net = ask_notice("1", "n", "网络错误: x", &["baidu"]);
    assert_eq!(net.hint, network_hint());
    assert_eq!(net.links.len(), 3);
    let other = ask_notice("1", "n", "HTTP 500", &["em"]);
    assert_eq!(other.kind, "HTTP错误");
    assert_eq!(other.hint, SOURCE_HINT);
    assert_eq!(db_open_notice("e").detail, "打开数据库失败: e");
    assert_eq!(status_after_failed_start(UserAck::Stop), CrawlStatus::Stopped);
    assert_eq!(status_after_failed_start(UserAck::Retry), CrawlStatus::Error);
}

#[test]
fn a_run_ends_with_its_counts() {
    assert_eq!(finished(CrawlStatus::Error, 1, 2, 3), None);
    assert_eq!(finished(CrawlStatus::Stopped, 1, 2, 3), None);
    assert_eq!(
        finished(CrawlStatus::Running, 1, 2, 3),
        Some((CrawlStatus::Done, "完成: 新增 1 跳过 2 失败 3".to_string()))
    );
    assert_eq!(end_line(1, 2, 3), "===== 全市场抓取结束 新增 1 跳过 2 失败 3 =====");
}

#[test]
fn a_crawl_shows_how_it_goes() {
    let mut state = AppState::new(Vec::new());
    state.failed = 7;
    on_crawl_started(&mut state, 5, 2, "直连");
    assert_eq!((state.total, state.skipped, state.failed), (5, 2, 7));
    assert_eq!(state.status, CrawlStatus::Running);
    assert_eq!(state.status_msg, "16路并发 直连");
    state.show_stock("600000", "浦发");
    assert_eq!((state.current_code.as_str(), state.current_name.as_str()), ("600000", "浦发"));
    on_request(&mut state, Some(Endpoint::ShortLevels));
    assert_eq!(state.current_endpoint, "支撑阻力(short)");
    on_request(&mut state, None);
    assert_eq!(state.current_endpoint, "完成");
    on_crawl_ended(&mut state, 2, 2, 1);
    assert_eq!(state.status, CrawlStatus::Done);
    assert_eq!(state.status_msg, "完成: 新增 2 跳过 2 失败 1");
    on_failed_start(&mut state, UserAck::Continue, "打不开");
    assert_eq!((state.status, state.status_msg.as_str()), (CrawlStatus::Error, "打不开"));
    on_failed_start(&mut state, UserAck::Stop, "不行");
    assert_eq!((state.status, state.status_msg.as_str()), (CrawlStatus::Stopped, "不行"));
    on_crawl_ended(&mut state, 2, 2, 1);
    assert_eq!((state.status, state.status_msg.as_str()), (CrawlStatus::Stopped, "不行"));
}

#[test]
fn the_counts_add_up_to_the_targets() {
    let mut state = AppState::new(Vec::new());
    let mut pace = Pace::new(0);
    let mut tally = Tally { done: 0, failed: 0 };
    let mut todo = TodoList::new();
    let targets = ["1", "2", "3", "4", "5"];
    for (i, code) in targets.iter().enumerate() {
        todo.consider(stock(code), if i % 2 == 1 { Some("ok") } else { None });
    }
    let left: Vec<&str> = todo.todo.iter().map(|s| s.code.as_str()).collect();
    assert_eq!(left, ["1", "3", "5"]);
    on_visit_saved(&mut state, &mut pace, &mut tally, "t");
    on_save_failed(&mut state, &pace, &mut tally, &todo.todo[1], "e", "t");
    on_visit_failed(&mut state, &mut pace, &mut tally, &todo.todo[2], "HTTP 500", true, 0, "t");
    assert_eq!((todo.skipped, tally.done, tally.failed), (2, 1, 2));
    assert_eq!(todo.skipped + tally.done + tally.failed, targets.len());
    assert_eq!((state.done, state.failed), (1, 2));
}

#[test]
fn a_crawl_runs_again_after_the_long_pause() {
    let mut state = AppState::new(Vec::new());
    let mut pace = Pace::new(0);
    let mut tally = Tally { done: 0, failed: 0 };
    let refused = "HTTP 403";
    for i in 1..=8u64 {
        let s = on_visit_failed(&mut state, &mut pace, &mut tally, &stock("1"), refused, false, i, "t")
            .unwrap();
        assert_eq!(state.status, CrawlStatus::Cooling);
        if let AfterRefusal::Refresh { long_cool } = s.next {
            assert_eq!(long_cool, i == 8);
            assert_eq!(refresh_pause(false, long_cool) == COOLDOWN_SEC, i == 8);
            on_refreshed(&mut state, &mut pace, false, long_cool, false);
            assert_eq!(state.status, CrawlStatus::Running);
            assert_eq!(state.consecutive_403, (i % 8) as usize);
        }
    }
    assert_eq!(COOLDOWN_SEC, 600);
    assert_eq!((pace.consec_403, pace.cooldown_rounds, pace.refreshing), (0, 1, false));
    state.consecutive_403 = 2;
    pace.consec_403 = 2;
    on_refreshed(&mut state, &mut pace, true, false, true);
    assert_eq!((pace.consec_403, state.consecutive_403), (0, 0));
}

#[test]
fn a_check_shows_how_it_goes() {
    let mut state = AppState::new(Vec::new());
    on_check_failed(&mut state, "locked");
    assert_eq!((state.status, state.status_msg.as_str()), (CrawlStatus::Error, "检查失败: locked"));
    on_check_begun(&mut state);
    assert_eq!((state.status, state.status_msg.as_str()), (CrawlStatus::Running, "完整性检查中…"));
    on_check_over(&mut state, 3);
    assert_eq!(state.status, CrawlStatus::Done);
    assert_eq!(state.status_msg, "完整性检查完成: 异常 3 支");
    let mut found = list(Vec::new());
    found.date("2026-09-01".to_string(), "now".to_string());
    assert_eq!((found.trade_date.as_str(), found.updated_at.as_str()), ("2026-09-01", "now"));
}

#[test]
fn the_rounds_show_how_they_go() {
    let mut state = AppState::new(Vec::new());
    assert_eq!(
        on_rescrape_asked(&mut state, Gate::EmptyList, "d"),
        Some("[rescrape] 清单为空，无需回填".to_string())
    );
    assert_eq!((state.status, state.status_msg.as_str()), (CrawlStatus::Idle, "回填: 清单为空"));
    assert_eq!(
        on_rescrape_asked(&mut state, Gate::Closed, "d"),
        Some("[rescrape] d 非交易日，跳过回填（skip_on_non_trading_day=true）".to_string())
    );
    assert_eq!(state.status_msg, "回填: 非交易日跳过");
    assert_eq!(on_rescrape_asked(&mut state, Gate::Open, "d"), None);
    assert_eq!((state.status, state.status_msg.as_str()), (CrawlStatus::Running, "回填重抓中…"));
    state.enter(CrawlStatus::Done, "x".to_string());
    on_stock_retried(&mut state);
    assert_eq!((state.status, state.status_msg.as_str()), (CrawlStatus::Running, "回填重抓中…"));
    state.enter(CrawlStatus::Stopped, "x".to_string());
    on_stock_retried(&mut state);
    assert_eq!((state.status, state.status_msg.as_str()), (CrawlStatus::Stopped, "x"));
    on_rescrape_over(&mut state, 4);
    assert_eq!(state.status, CrawlStatus::Done);
    assert_eq!(state.status_msg, "回填结束: 仍异常 4 支");
}
