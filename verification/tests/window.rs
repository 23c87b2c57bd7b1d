use market_pulse::launch::{
    chosen_sources, count_or, crawl_config, em_config, flag_value, has_flag, headless_obstacle,
    is_over, kill_report, load_codes, may_start, progress_line, read_count, read_pids,
    start_obstacle, still_running_notice, whole_or, zombie_report, RunInputs, Sources,
};
use market_pulse::lookup::StockSnapshot;
use market_pulse::models::StockRef;
use market_pulse::panel::{
    fill_snap_name, LookupPage, LookupPanel, RankBoard, RankRequest, RankRow,
};
use market_pulse::progress::{
    is_awaiting, is_busy, net_mode_name, no_client_notice, probe_name, problem_links_text,
    processed, remaining, resume_hint, shown_lines, start_label, status_text, Probe, ProbeReport,
    Reached,
};
use market_pulse::settings::{database_path, default_backoff, settings_files, Settings};
use market_pulse::state::{
    join_path, session_log_dir, session_log_path, AppState, CrawlStatus, ErrorNotice, UserAck,
};
use market_pulse::telegram::{
    caption, cfg_path, fits_limit, help_text, judge_document, judge_reply, mb_text, send_url,
    target, TelegramCfg,
};
use market_pulse::verify::{
    baidu_ai_page_url, baidu_analysis_api_url, baidu_stock_page_url, classify_kind,
    em_list_page_url, em_stock_page_url, network_hint, page_links_for_stock, source_verify_links,
};

fn words(list: &[&str]) -> Vec<String> {
    list.iter().map(|s| s.to_string()).collect()
}

fn notice(kind: &str) -> ErrorNotice {
    ErrorNotice {
        kind: kind.to_string(),
        code: "1".to_string(),
        name: "n".to_string(),
        detail: "d".to_string(),
        hint: String::new(),
        links: Vec::new(),
    }
}

fn snap(code: &str, name: &str) -> StockSnapshot {
    StockSnapshot {
        code: code.to_string(),
        name: name.to_string(),
        found: true,
        hint: String::new(),
        sections: Vec::new(),
    }
}

#[test]
fn a_failure_waits_for_an_answer() {
    let mut s = AppState::new(words(&["old"]));
    s.status = CrawlStatus::Running;
    assert_eq!(s.request_ack("t", notice("k")), None);
    assert_eq!(s.status, CrawlStatus::NeedConfirm);
    assert_eq!(s.logs[1], "[t] ⚠ 需确认: [k] 1 n — d");
    assert_eq!(s.request_ack("t", notice("other")), None);
    s.submit_ack(UserAck::Retry, true);
    assert_eq!(s.status, CrawlStatus::Running);
    assert_eq!(s.status_msg, "");
    assert_eq!(s.mute_error_kinds, vec!["other"]);
    assert_eq!(s.request_ack("t", notice("other")), Some(UserAck::Continue));
    assert_eq!(s.logs[3], "[t] [同类已确认不再问] other 1 n d");
    assert_eq!(s.status, CrawlStatus::Running);
}

#[test]
fn a_stop_is_kept() {
    let mut s = AppState::new(Vec::new());
    s.request_ack("t", notice("k"));
    s.submit_ack(UserAck::Stop, false);
    assert_eq!(s.status, CrawlStatus::Stopped);
    s.submit_ack(UserAck::Continue, true);
    assert_eq!(s.status, CrawlStatus::Stopped);
    assert!(s.mute_error_kinds.is_empty());
    let mut rest = AppState::new(Vec::new());
    rest.request_ack("t", notice("k"));
    rest.submit_ack(UserAck::Continue, true);
    rest.status = CrawlStatus::Idle;
    assert_eq!(rest.request_ack("t", notice("k")), Some(UserAck::Continue));
    let mut twice = AppState::new(Vec::new());
    twice.status = CrawlStatus::NeedConfirm;
    twice.resume_status = CrawlStatus::NeedConfirm;
    twice.submit_ack(UserAck::Continue, false);
    assert_eq!(twice.status, CrawlStatus::Idle);
}

#[test]
fn problems_carry_a_page() {
    let mut s = AppState::new(Vec::new());
    s.note_problem("t", "k", "1", "n", "d", &["em", "BAIDU"]);
    assert_eq!(s.problems[0].page_url, baidu_ai_page_url("1"));
    assert_eq!(s.problems[0].page_label, "百度财经 · AI分析页");
    s.note_problem("t", "k", "1", "n", "d", &["x"]);
    assert_eq!(s.problems[1].page_url, "");
    assert_eq!(s.logs[1], "[t] ⚠ [k] 1 n — d");
    assert_eq!(
        problem_links_text(&s.problems),
        "# 失败或不完整 — 网页链接（不是接口）\n\n[k] 1 n — d\nhttps://finance.baidu.com/ai-tech-analysi/stock/ab-1\n\n[k] 1 n — d\n\n\n"
    );
}

#[test]
fn logs_stand_under_the_workspace() {
    assert_eq!(session_log_dir("C:/x"), "C:/x/logs");
    assert_eq!(session_log_path("C:/x/", "2026-09-01"), "C:/x/logs/session-2026-09-01.log");
    assert_eq!(join_path("", "a"), "a");
    assert_eq!(cfg_path("w"), "w/telegram.json");
}

#[test]
fn links_lead_to_the_sources() {
    assert_eq!(baidu_stock_page_url("1"), "https://finance.baidu.com/stock/ab-1");
    assert_eq!(
        baidu_analysis_api_url("1"),
        "https://finance.pae.baidu.com/vapi/v1/analysis?code=1&market=ab&financeType=stock"
    );
    assert_eq!(em_stock_page_url("1"), "https://data.eastmoney.com/stockcomment/stock/1.html");
    assert_eq!(em_list_page_url(), "https://data.eastmoney.com/stockcomment/");
    let all = source_verify_links("1", &["Em", "Baidu"]);
    let labels: Vec<&str> = all.iter().map(|l| l.label.as_str()).collect();
    assert_eq!(labels, ["AI分析页", "个股页", "五维评分接口", "千股千评个股页", "千股千评列表页"]);
    let pages = page_links_for_stock("1", &["Em", "Baidu"]);
    let kept: Vec<_> = all.into_iter().filter(|l| l.kind == "page").collect();
    assert_eq!(pages, kept);
    assert!(source_verify_links("1", &[]).is_empty());
}

#[test]
fn failures_have_a_kind() {
    for (detail, kind) in [
        ("网络错误: x", "网络错误"),
        ("DNS lookup", "网络错误"),
        ("operation Timed Out", "网络错误"),
        ("bad Certificate", "网络错误"),
        ("HTTP 403", "反爬拦截"),
        ("命中反爬验证页(CHALLENGE)", "反爬拦截"),
        ("本次未拿到数据", "未拿到数据"),
        ("完整性缺 1 项", "数据不完整"),
        ("缺两项", "数据不完整"),
        ("缺", "其它错误"),
        ("JSON x", "解析失败"),
        ("HTTP 500", "HTTP错误"),
        ("保存失败", "落库失败"),
        ("打开数据库失败", "落库失败"),
        ("", "其它错误"),
    ] {
        assert_eq!(classify_kind(detail), kind, "{}", detail);
    }
    assert!(network_hint().starts_with("浏览器能开、爬虫不能"));
    assert!(network_hint().contains("\n1) 刚关 VPN"));
}

#[test]
fn settings_have_their_defaults() {
    let s = Settings::default_in("W");
    assert_eq!(s.general.checklist_path, "W/needed_check_list.json");
    assert_eq!(s.general.log_path, "W/rust_crawl.log");
    assert_eq!(s.rate.max_per_minute, 40);
    assert_eq!(s.check.trade_date, "latest");
    assert_eq!(s.rescrape.backoff_minutes, default_backoff());
    assert_eq!(s.pacing.micro_break_every, 50);
    assert_eq!(database_path("", "W"), "W/market_data.db");
    assert_eq!(database_path("x.db", "W"), "x.db");
    assert_eq!(settings_files("W"), words(&["W/settings.toml", "settings.toml"]));
}

#[test]
fn sizes_are_shown_with_one_decimal() {
    for size in [
        0u64, 1, 52_428, 52_429, 104_858, 262_144, 786_432, 1_048_576, 1_310_720, 51_380_224,
        51_380_225, 123_456_789, 0x1f_ffff_ffff_ffff, 0x20_0000_0000_0001, 0x20_0000_0000_0003,
        0x7fff_ffff_fffe_1234, 0xffff_ffff_ffff_f3ff, 0xffff_ffff_ffff_f400, u64::MAX,
    ] {
        assert_eq!(mb_text(size), format!("{:.1}", size as f64 / (1024.0 * 1024.0)), "{}", size);
    }
    assert_eq!(fits_limit(51_380_224), Ok(()));
    assert_eq!(
        fits_limit(60_000_000),
        Err("压缩后仍超过 Telegram 50MB 限制（57.2 MB）。请用 U 盘或微信文件传输助手拷贝原库。".to_string())
    );
}

#[test]
fn telegram_replies_are_judged() {
    assert_eq!(judge_reply(200, "200 OK", "{\"ok\":true}"), Ok(()));
    assert_eq!(judge_reply(200, "200 OK", "{\"ok\":1}"), Err("Telegram 拒绝: {\"ok\":1}".to_string()));
    assert_eq!(judge_reply(200, "200 OK", "x"), Err("Telegram 拒绝: x".to_string()));
    assert_eq!(
        judge_reply(401, "401 Unauthorized", "no"),
        Err("Telegram HTTP 401 Unauthorized: no".to_string())
    );
    let long = "长".repeat(400);
    assert_eq!(
        judge_document(Err("e".to_string()), &long).unwrap_err().chars().count(),
        "Telegram 拒绝: ".chars().count() + 300
    );
    let cfg = TelegramCfg { bot_token: " t ".to_string(), chat_id: "\n5".to_string() };
    let t = target(&cfg).unwrap();
    assert_eq!((t.bot_token.as_str(), t.chat_id.as_str()), ("t", "5"));
    assert!(target(&TelegramCfg::default()).is_err());
    assert_eq!(send_url("t"), "https://api.telegram.org/bott/sendDocument");
    assert_eq!(caption("2026-09-01 10:00", 1_048_576), "MarketPulse 数据库 2026-09-01 10:00\n1.0 MB gzip");
    assert!(help_text().contains("BotFather"));
}

#[test]
fn stocks_are_read_from_a_document() {
    let codes = load_codes(
        "{\"stocks\":[{\"code\":\"1\",\"name\":\"a\"},{\"name\":\"b\"},{\"code\":2},{\"code\":\"3\",\"name\":4}]}",
    );
    assert_eq!(
        codes,
        vec![
            StockRef { code: "1".to_string(), name: "a".to_string() },
            StockRef { code: "3".to_string(), name: String::new() }
        ]
    );
    assert!(load_codes("[]").is_empty());
    assert!(load_codes("{").is_empty());
}

#[test]
fn flags_have_values() {
    let args = words(&["x", "--db", "a", "--force", "--db", "b", "--limit"]);
    assert_eq!(flag_value(&args, "--db").as_deref(), Some("a"));
    assert_eq!(flag_value(&args, "--limit"), None);
    assert_eq!(flag_value(&args, "--none"), None);
    assert_eq!(flag_value(&Vec::new(), "--db"), None);
    assert!(has_flag(&args, "--force"));
    assert!(!has_flag(&args, "--none"));
    assert_eq!(read_count("12"), Some(12));
    assert_eq!(read_count("-1"), None);
    assert_eq!(count_or("x", 40), 40);
    assert_eq!(whole_or("-2", 3), -2);
    assert_eq!(whole_or("", 3), 3);
}

fn inputs() -> RunInputs {
    RunInputs {
        trade_date: "d".to_string(),
        db_path: "p".to_string(),
        min_interval: 7,
        rate_wait_cap: None,
        max_per_minute: "x".to_string(),
        empty_limit: "5".to_string(),
        empty_cooldown: "".to_string(),
        resume: false,
    }
}

#[test]
fn inputs_make_a_run() {
    let c = crawl_config(&inputs(), Vec::new());
    assert_eq!((c.max_per_minute, c.empty_limit, c.empty_cooldown_days), (40, 5, 7));
    assert_eq!((c.min_interval, c.jitter, c.fresh_days, c.resume), (7, 600_000_000, 2, false));
    let em = em_config(c);
    assert_eq!((em.min_interval, em.max_per_minute, em.jitter), (50_000_000, 800, 0));
    assert_eq!(em.empty_limit, 5);
    assert_eq!(chosen_sources(0), Sources { baidu: true, em: false });
    assert_eq!(chosen_sources(1), Sources { baidu: false, em: true });
    assert_eq!(chosen_sources(2), Sources { baidu: true, em: true });
}

#[test]
fn obstacles_keep_a_run_from_starting() {
    assert_eq!(start_obstacle("d", true, false, 5), None);
    assert_eq!(
        start_obstacle("d", false, false, 5).unwrap().detail,
        "d 非交易日，已阻止（勾选「强制」可忽略）"
    );
    assert_eq!(start_obstacle("d", false, true, 0).unwrap().detail, "代码清单为空");
    assert!(still_running_notice("m").detail.starts_with("m 但 Python 仍在运行"));
    assert!(may_start(true, false, CrawlStatus::Idle));
    assert!(!may_start(false, false, CrawlStatus::Idle));
    assert!(!may_start(true, true, CrawlStatus::Idle));
    assert!(!may_start(true, false, CrawlStatus::NeedConfirm));
}

#[test]
fn progress_is_logged_where_it_moves() {
    assert_eq!(progress_line(3, 3, 9, 1, 1, 1, "c", "e", CrawlStatus::Running), None);
    assert_eq!(
        progress_line(3, 2, 9, 1, 1, 1, "c", "e", CrawlStatus::Running).as_deref(),
        Some("[进度] 3/9 新增1 跳过1 失败1 当前=c e 状态=Running")
    );
    assert!(is_over(CrawlStatus::Done, 9, 9));
    assert!(!is_over(CrawlStatus::Done, 8, 9));
    assert!(!is_over(CrawlStatus::Running, 9, 9));
}

#[test]
fn processes_are_reported() {
    assert_eq!(read_pids(" 12, x,34\r\n,4294967296"), vec![12, 34]);
    assert!(read_pids("").is_empty());
    assert_eq!(zombie_report(&Vec::new(), &Vec::new()), "未检测到僵尸进程");
    assert_eq!(zombie_report(&vec![1, 2], &Vec::new()), "已清除僵尸: 1, 2");
    assert_eq!(
        zombie_report(&vec![1], &vec![3]),
        "已清除僵尸: 1; 无法清除(Windows 限制): 3"
    );
    assert_eq!(zombie_report(&Vec::new(), &vec![3]), "无法清除(Windows 限制): 3");
    assert_eq!(kill_report(" \n"), "未发现 Python 爬虫进程");
    assert_eq!(kill_report("12\n"), "已停止 Python 爬虫: 12");
}

#[test]
fn the_way_back_leads_to_the_stock_looked_up() {
    let mut p = LookupPanel::new();
    assert_eq!(p.origin_label(), "原先个股");
    p.queried(Ok(snap("1", "a")));
    assert_eq!(p.origin_label(), "1 a");
    assert!(!p.needs_lookup_back());
    p.jumped_to(Ok(snap("2", "b")));
    p.jumped_to(Ok(snap("3", "c")));
    p.jumped_to(Err("e".to_string()));
    assert_eq!(p.current().unwrap().code, "3");
    assert_eq!(p.lookup_err, "e");
    assert!(p.needs_lookup_back());
    p.back_to_origin();
    assert_eq!(p.current().unwrap().code, "1");
    assert_eq!(p.lookup_code, "1");
    assert!(!p.needs_lookup_back());
    p.queried(Err("none".to_string()));
    assert!(p.current().is_none());
    assert_eq!(p.lookup_err, "none");
}

fn board(id: &str, ascending: bool) -> RankBoard {
    RankBoard {
        spec_id: id.to_string(),
        label: "技术".to_string(),
        ascending,
        rows: vec![RankRow {
            rank: 4,
            code: "1".to_string(),
            name: "a".to_string(),
            value_text: "7".to_string(),
        }],
    }
}

#[test]
fn a_ranking_turns_round() {
    let mut p = LookupPanel::new();
    assert_eq!(p.open_rank(Some("s".to_string())), RankRequest::Nothing);
    assert_eq!(p.rank_err, "请先查询一只股票，再点排名");
    p.queried(Ok(snap("1", "")));
    assert_eq!(p.open_rank(None), RankRequest::Nothing);
    assert_eq!(p.rank_err, "当前个股没有可排序的数值字段");
    assert_eq!(
        p.open_rank(Some("s".to_string())),
        RankRequest::Rank { spec_id: "s".to_string(), ascending: true }
    );
    p.ranked(Ok(board("s", true)));
    assert_eq!(p.page, LookupPage::Rank);
    assert!(p.needs_lookup_back());
    assert_eq!(p.sort_mark_text("s"), "正");
    assert_eq!(p.sort_mark_text("x"), "排");
    assert_eq!(
        p.run_rank("s", true),
        RankRequest::Rank { spec_id: "s".to_string(), ascending: false }
    );
    assert_eq!(
        p.run_rank("x", true),
        RankRequest::Rank { spec_id: "x".to_string(), ascending: true }
    );
    p.page = LookupPage::Detail;
    assert_eq!(p.run_rank("s", false), RankRequest::Nothing);
    assert_eq!(p.page, LookupPage::Rank);
    p.ranked(Err("e".to_string()));
    assert_eq!(p.rank_err, "e");
    let b = board("s", false);
    assert_eq!(b.origin_rank("1"), Some(4));
    assert_eq!(b.origin_line("1", "1 a").as_deref(), Some("1 a 当前第 4 / 1"));
    assert_eq!(b.origin_line("2", "2").as_deref(), Some("2 这一项没有可比较数值，不在列表里"));
    assert_eq!(b.origin_line("", "x"), None);
    assert!(b.summary("1").starts_with("倒序（从大到小） · 已抓取 1 支"));
}

#[test]
fn names_come_from_the_list() {
    let codes = vec![StockRef { code: "1".to_string(), name: "a".to_string() }];
    let mut s = snap("1", "");
    fill_snap_name(&mut s, &codes);
    assert_eq!(s.name, "a");
    let mut t = snap("1", "b");
    fill_snap_name(&mut t, &codes);
    assert_eq!(t.name, "b");
    let mut u = snap("2", "");
    fill_snap_name(&mut u, &codes);
    assert_eq!(u.name, "");
}

#[test]
fn the_window_says_what_happens() {
    assert_eq!(processed(1, 2, 3), 6);
    assert_eq!(remaining(5, 7), 0);
    assert_eq!(remaining(7, 5), 2);
    assert!(is_busy(CrawlStatus::Cooling));
    assert!(!is_busy(CrawlStatus::Done));
    assert!(is_awaiting(false, CrawlStatus::NeedConfirm));
    assert_eq!(start_label(true, true), "请先确认弹窗");
    assert_eq!(start_label(false, true), "抓取进行中…");
    assert_eq!(start_label(false, false), "开始抓取");
    assert_eq!(status_text(CrawlStatus::Stopped), "已停止");
    assert_eq!(resume_hint(0, true, 9), "该交易日暂无数据，将全量抓取");
    assert_eq!(resume_hint(3, true, 9), "将接着爬剩余 9 支");
    assert_eq!(resume_hint(3, false, 9), "将从头全量覆盖");
    assert_eq!(net_mode_name(2), "走系统代理");
    let logs: Vec<String> = (0..4003).map(|i| i.to_string()).collect();
    let shown = shown_lines(&logs);
    assert_eq!((shown.len(), shown[0].as_str()), (4000, "3"));
    assert_eq!(shown_lines(&words(&["a"])), words(&["a"]));
}

#[test]
fn the_probe_tells_what_is_out_of_reach() {
    let mut r = ProbeReport::new();
    r.take(Probe::BaiduHome, &Reached::Status(403), "");
    assert_eq!(r.clone().notice(), None);
    r.take(Probe::BaiduAnalysis, &Reached::Status(502), "");
    r.take(Probe::EmComments, &Reached::Nothing("refused".to_string()), "（直连）");
    let n = r.notice().unwrap();
    assert_eq!(
        n.detail,
        format!(
            "百度分析接口 HTTP 502\n{}\n\n东财千股千评 网络错误: refused（直连）",
            baidu_analysis_api_url("000001")
        )
    );
    assert_eq!(n.links.len(), 5);
    assert_eq!(probe_name(Probe::BaiduHome), "百度财经首页");
    assert_eq!(no_client_notice("e").links.len(), 5);
}

#[test]
fn obstacles_keep_a_run_without_a_window_from_starting() {
    let line = |force, trading, codes| headless_obstacle("2026-10-01", force, trading, codes);
    let closed = "[headless] 2026-10-01 非交易日，已跳过（--force 可强制）".to_string();
    assert_eq!(line(false, false, 0), Some(closed.clone()));
    assert_eq!(line(false, false, 9), Some(closed));
    assert_eq!(line(true, false, 0), Some("[headless] 代码清单为空，退出".to_string()));
    assert_eq!(line(false, true, 0), Some("[headless] 代码清单为空，退出".to_string()));
    assert_eq!(line(true, false, 9), None);
    assert_eq!(line(false, true, 9), None);
}

#[test]
fn a_new_run_forgets_what_was_muted() {
    let mut state = AppState::new(Vec::new());
    state.mute_error_kinds.push("k".to_string());
    state.note_problem("t", "kind", "1", "n", "d", &["em"]);
    state.done = 3;
    assert_eq!(state.problems.len(), 1);
    state.forget_problems();
    assert!(state.problems.is_empty() && state.mute_error_kinds.is_empty());
    assert_eq!((state.done, state.logs.len()), (3, 1));
}
