use market_pulse::http::{
    build_analysis_url, build_fundflow_url, build_headers, build_kline_url, build_page_referer,
    build_tab_referer, build_vote_url, endpoint_label, endpoint_referer, endpoint_url, gave_up,
    load_cookies_from_json, on_body, on_document, on_no_reply, on_status, parse_analysis,
    parse_fundflow, parse_kline, parse_vote, random_ua, result_of, set_live_cookie_header,
    ua_profile, Endpoint, FetchStep, Fetched, RateLimiter, Tries, Visit, Wait,
};
use market_pulse::json::{parse_json, Json};
use market_pulse::models::RealSum;

fn doc(text: &str) -> Json {
    parse_json(text).unwrap()
}

#[test]
fn addresses_name_the_stock() {
    assert_eq!(
        build_analysis_url("000001"),
        "https://finance.pae.baidu.com/vapi/v1/analysis?code=000001&market=ab&financeType=stock"
    );
    assert_eq!(
        build_kline_url("000001", "long"),
        "https://finance.pae.baidu.com/sapi/v1/get_analyse?code=000001&market=ab&financeType=stock&cycle=long"
    );
    assert_eq!(
        build_fundflow_url("000001"),
        "https://finance.pae.baidu.com/vapi/v1/fundflow?finance_type=stock&code=000001&market=ab&fund_flow_type="
    );
    assert_eq!(
        build_vote_url("000001"),
        "https://finance.pae.baidu.com/vapi/v1/stockvoterecords?code=000001&market=ab&finance_type=stock"
    );
    assert_eq!(
        build_page_referer("000001"),
        "https://finance.baidu.com/ai-tech-analysi/stock/ab-000001"
    );
}

#[test]
fn tabs_are_percent_encoded() {
    assert_eq!(
        build_tab_referer("000001", "资金"),
        "https://finance.baidu.com/stock/ab-000001?mainTab=%E8%B5%84%E9%87%91"
    );
    assert_eq!(
        build_tab_referer("1", "a b&c-_.~/Z9"),
        "https://finance.baidu.com/stock/ab-1?mainTab=a%20b%26c-_.~%2FZ9"
    );
}

#[test]
fn requests_of_a_stock_have_their_addresses() {
    assert_eq!(endpoint_url(Endpoint::Analysis, "1"), build_analysis_url("1"));
    assert_eq!(endpoint_url(Endpoint::ShortLevels, "1"), build_kline_url("1", "short"));
    assert_eq!(endpoint_url(Endpoint::FundFlow, "1"), build_fundflow_url("1"));
    assert_eq!(endpoint_url(Endpoint::Vote, "1"), build_vote_url("1"));
    assert_eq!(endpoint_referer(Endpoint::LongLevels, "1"), build_page_referer("1"));
    assert_eq!(endpoint_referer(Endpoint::FundFlow, "1"), build_tab_referer("1", "资金"));
    assert_eq!(endpoint_referer(Endpoint::Vote, "1"), build_tab_referer("1", "股评"));
    assert_eq!(endpoint_label(Endpoint::LongLevels), "支撑阻力(long)");
    assert_eq!(endpoint_label(Endpoint::Analysis), "评分");
}

#[test]
fn browsers_send_their_hints() {
    let chrome = build_headers("r", &ua_profile(4), "");
    assert_eq!(chrome.len(), 14);
    assert!(chrome[0].1.contains("Chrome/120"));
    assert!(chrome.iter().any(|h| h.0 == "sec-ch-ua-platform" && h.1 == "\"Windows\""));
    let safari = build_headers("r", &ua_profile(3), "a=b");
    assert_eq!(safari.len(), 12);
    assert_eq!(safari[11], ("cookie".to_string(), "a=b".to_string()));
    assert_eq!(safari[3], ("referer".to_string(), "r".to_string()));
}

#[test]
fn a_drawn_browser_is_one_of_four() {
    let mut seen = [false; 4];
    for _ in 0..400 {
        let p = random_ua();
        let k = (0..4).position(|k| ua_profile(k) == p).unwrap();
        seen[k] = true;
    }
    assert!(seen.iter().filter(|s| **s).count() > 1);
}

#[test]
fn cookies_come_from_a_document() {
    assert_eq!(
        load_cookies_from_json("{\"BAIDUID\":\"x:FG=1\",\"n\":3,\"T\":\"y\"}"),
        Some("BAIDUID=x:FG=1; T=y".to_string())
    );
    assert_eq!(load_cookies_from_json("{\"n\":3}"), None);
    assert_eq!(load_cookies_from_json("[\"a\"]"), None);
    assert_eq!(load_cookies_from_json("{"), None);
    let mut slot = "old".to_string();
    set_live_cookie_header(&mut slot, "new");
    assert_eq!(slot, "new");
}

#[test]
fn requests_are_held_apart() {
    let mut l = RateLimiter::new(1_000, 50, 2, 7, 0, 3, 10, 30);
    assert_eq!(l.interval_sleep(1_000, 5), 55);
    assert_eq!(l.interval_sleep(1_040, 0), 10);
    assert_eq!(l.interval_sleep(1_100, 0), 0);
    assert_eq!(l.window_sleep(1_100), None);
    assert_eq!(l.note_request(1_100).jitter, 7);
    assert_eq!(l.window_sleep(1_200), None);
    l.note_request(1_200);
    assert_eq!(l.window_sleep(1_300), Some(15_000_000_000));
    l.reopen(15_000_001_300);
    let after = l.note_request(15_000_001_300);
    assert_eq!(after.micro_break, Some((10, 20)));
    assert_eq!(l.count, 1);
    assert_eq!(l.req_count, 3);
}

#[test]
fn a_window_runs_out() {
    let mut l = RateLimiter::new_ex(0, 0, 1, 0, 0, 0, 0, 0, None, 0);
    assert_eq!(l.rate_window, 60_000_000_000);
    l.note_request(0);
    assert_eq!(l.window_sleep(10), Some(59_999_999_990));
    assert_eq!(l.window_sleep(60_000_000_000), None);
    assert_eq!(l.count, 0);
    let mut none = RateLimiter::new_ex(5, 0, 0, 0, 0, 0, 0, 0, Some(0), 100);
    assert_eq!(none.window_sleep(5), Some(0));
    assert_eq!(none.note_request(5).micro_break, None);
}

#[test]
fn statuses_decide_on_a_retry() {
    assert_eq!(on_status(1, 200, "200 OK", &None), FetchStep::ReadBody);
    assert_eq!(on_status(1, 403, "403 Forbidden", &None), FetchStep::Fail("HTTP 403".to_string()));
    match on_status(3, 503, "503 Service Unavailable", &None) {
        FetchStep::Retry { error, wait } => {
            assert_eq!(error, "HTTP 503 Service Unavailable");
            assert_eq!(wait, Wait::Backoff(2));
        }
        other => panic!("{:?}", other),
    }
    for (header, seconds) in [
        (None, "2"),
        (Some("7.5".to_string()), "7.5"),
        (Some("soon".to_string()), "2"),
    ] {
        match on_status(1, 429, "429", &header) {
            FetchStep::Retry { error, wait: Wait::Asked(s) } => {
                assert_eq!(error, "HTTP 429 限流");
                assert_eq!(s.text, seconds);
            }
            other => panic!("{:?}", other),
        }
    }
}

#[test]
fn bodies_decide_on_a_retry() {
    match on_body(1, Ok("<html>安全验证</html>".to_string())) {
        FetchStep::Retry { error, wait } => {
            assert_eq!(error, "命中反爬验证页(CHALLENGE)");
            assert_eq!(wait, Wait::Challenge);
        }
        other => panic!("{:?}", other),
    }
    match on_body(2, Ok("<html>".to_string())) {
        FetchStep::Retry { error, wait } => {
            assert!(error.starts_with("JSON 解析失败: expected value"));
            assert_eq!(wait, Wait::Backoff(1));
        }
        other => panic!("{:?}", other),
    }
    match on_body(2, Err("closed".to_string())) {
        FetchStep::Retry { error, .. } => assert_eq!(error, "读取响应失败: closed"),
        other => panic!("{:?}", other),
    }
    assert_eq!(
        on_body(1, Ok("{\"ResultCode\":\"0\",\"Result\":1}".to_string())),
        FetchStep::Done(doc("{\"ResultCode\":\"0\",\"Result\":1}"))
    );
    assert_eq!(
        on_body(1, Ok("{\"ResultCode\":0}".to_string())),
        FetchStep::Done(doc("{\"ResultCode\":0}"))
    );
    assert_eq!(
        on_document(1, Ok(doc("{\"ResultCode\":10001}"))),
        FetchStep::Fail("API 业务错误 ResultCode=10001".to_string())
    );
    assert_eq!(
        on_document(1, Ok(doc("{\"ResultCode\":null}"))),
        FetchStep::Fail("API 业务错误 ResultCode=".to_string())
    );
    match on_no_reply(1, "refused") {
        FetchStep::Retry { error, wait } => {
            assert_eq!(error, "网络错误: refused");
            assert_eq!(wait, Wait::Backoff(0));
        }
        other => panic!("{:?}", other),
    }
}

#[test]
fn tries_are_counted() {
    let mut t = Tries::new(2);
    assert_eq!(t.begin(), Some(1));
    assert_eq!(t.settle(on_no_reply(1, "a")), Fetched::Again(Wait::Backoff(0)));
    assert_eq!(t.begin(), Some(2));
    assert_eq!(t.settle(on_no_reply(2, "b")), Fetched::Again(Wait::Backoff(1)));
    assert_eq!(t.begin(), None);
    assert_eq!(gave_up(t.max_retries, &t.last_err), "抓取失败，已重试 2 次: 网络错误: b");
    assert_eq!(Tries::new(0).begin(), None);
}

#[test]
fn an_analysis_is_read() {
    let v = doc(
        "{\"synthesisScore\":{\"stockName\":\"平安银行\",\"rating\":8.1,\"updateTime\":\"2026-09-01\"},\
         \"technologyScore\":{\"score\":\"+70%\",\"increase\":{\"items\":[{\"text\":\"z\"}]}},\
         \"capitalScore\":{\"score\":6.5},\"marketScore\":{\"score\":null},\"isNew\":0}",
    );
    let r = parse_analysis(&v, "x");
    assert_eq!(r.name.as_deref(), Some("平安银行"));
    assert_eq!(r.scores.synthesis_rating.as_deref(), Some("8.1"));
    assert_eq!(r.scores.technology.unwrap().text, "70");
    assert_eq!(r.scores.capital.unwrap().text, "6.5");
    assert_eq!(r.scores.market, None);
    assert_eq!(r.scores.finance, None);
    assert_eq!(r.scores.is_new.as_deref(), Some("0"));
    assert_eq!(r.scores.update_time.as_deref(), Some("2026-09-01"));
    let bare = doc("{\"technologyScore\":{\"increase\":{\"items\":[{\"text\":\"z\"}]}}}");
    assert_eq!(parse_analysis(&bare, "x").name.as_deref(), Some("x"));
    assert_eq!(parse_analysis(&bare, "").name.as_deref(), Some("z"));
    assert_eq!(parse_analysis(&Json::Null, "").name, None);
}

#[test]
fn levels_are_read() {
    let v = doc(
        "{\"levelInfo\":{\"supportLevel\":10.5,\"desc\":\"d\"},\"rating\":{\"text\":\"买\",\"bullish\":2},\
         \"rank\":{\"name\":\"行业\",\"rankvalue\":\"3/50\",\"industryName\":\"银行\"}}",
    );
    let sr = parse_kline(&v, "long").unwrap();
    assert_eq!(sr.cycle, "long");
    assert_eq!(sr.support_level.as_deref(), Some("10.5"));
    assert_eq!(sr.resistance_level, None);
    assert_eq!(sr.bullish_events.as_deref(), Some("2"));
    assert_eq!(sr.rank_str.as_deref(), Some("行业 3/50"));
    assert_eq!(sr.industry_name.as_deref(), Some("银行"));
    assert_eq!(parse_kline(&doc("{\"levelInfo\":{\"desc\":\"d\"},\"rank\":{}}"), "long"), None);
    let empty_rank = doc("{\"rating\":{\"text\":\"t\"},\"rank\":{}}");
    assert_eq!(parse_kline(&empty_rank, "short").unwrap().rank_str, None);
}

#[test]
fn fund_flow_is_read() {
    let v = doc(
        "{\"fundFlowSpread\":{\"result\":{\"superGrp\":{\"netTurnover\":\"+1.5\",\"turnoverInRate\":\"2%\"},\
         \"largeGrp\":{\"netTurnover\":-2},\"littleGrp\":[]}}}",
    );
    let f = parse_fundflow(&v).unwrap();
    assert_eq!(f.super_net.as_ref().unwrap().text, "1.5");
    assert_eq!(f.super_rate.as_deref(), Some("2%"));
    assert_eq!(f.little_net, None);
    match f.main_net.unwrap() {
        RealSum::Two(a, b) => assert_eq!((a.text.as_str(), b.text.as_str()), ("1.5", "-2")),
        other => panic!("{:?}", other),
    }
    let one = doc("{\"fundFlowSpread\":{\"result\":{\"largeGrp\":{\"netTurnover\":3}}}}");
    match parse_fundflow(&one).unwrap().main_net.unwrap() {
        RealSum::One(a) => assert_eq!(a.text, "3"),
        other => panic!("{:?}", other),
    }
    assert_eq!(parse_fundflow(&doc("{\"fundFlowSpread\":{}}")), None);
}

#[test]
fn votes_are_read() {
    let v = doc(
        "{\"voteUp\":10,\"totalNum\":\"30\",\"voteRecords\":{\"voteRes\":[{\"title\":\"本周\",\"voteUp\":1,\"voteDown\":9},\
         {\"title\":\"本周\",\"voteUp\":2},{\"title\":\"本月\",\"voteUp\":3}]}}",
    );
    let r = parse_vote(&v).unwrap();
    assert_eq!(r.vote_up.as_deref(), Some("10"));
    assert_eq!(r.total_num.as_deref(), Some("30"));
    assert_eq!(r.week_up.as_deref(), Some("2"));
    assert_eq!(r.week_down, None);
    assert_eq!(parse_vote(&doc("{\"voteUp\":10}")), None);
    assert_eq!(parse_vote(&doc("{\"voteRecords\":[]}")).unwrap().week_up, None);
}

#[test]
fn a_payload_may_be_missing() {
    assert_eq!(*result_of(&doc("{}")), Json::Null);
    assert_eq!(*result_of(&doc("{\"Result\":true}")), Json::Bool(true));
}

#[test]
fn a_visit_takes_five_replies() {
    let mut v = Visit::new();
    assert_eq!(v.next, Some(Endpoint::Analysis));
    let analysis = "{\"Result\":{\"synthesisScore\":{\"stockName\":\"n\",\"updateTime\":\"t\"}}}";
    assert_eq!(v.take_reply("x", Ok(doc(analysis))), Ok(None));
    assert_eq!(v.next, Some(Endpoint::LongLevels));
    assert_eq!(
        v.take_reply("x", Err("HTTP 500".to_string())),
        Ok(Some("  支撑阻力(long) 失败: HTTP 500".to_string()))
    );
    assert_eq!(
        v.take_reply("x", Ok(doc("{\"Result\":{\"levelInfo\":{\"supportLevel\":1}}}"))),
        Ok(None)
    );
    assert_eq!(v.next, Some(Endpoint::FundFlow));
    let flow = "{\"Result\":{\"Result\":{\"content\":{\"fundFlowSpread\":{\"result\":{}}}}}}";
    assert_eq!(v.take_reply("x", Ok(doc(flow))), Ok(None));
    assert_eq!(v.take_reply("x", Ok(doc("{\"Result\":{\"voteRecords\":{}}}"))), Ok(None));
    assert_eq!(v.next, None);
    assert_eq!(v.result.name.as_deref(), Some("n"));
    assert_eq!(v.result.support.len(), 1);
    assert_eq!(v.result.support[0].cycle, "short");
    assert!(v.result.fund_flow.is_some());
    assert!(v.result.vote.is_some());
}

#[test]
fn a_refusal_ends_a_visit() {
    for refused in 1..5 {
        let mut v = Visit::new();
        let analysis = "{\"Result\":{\"synthesisScore\":{}}}";
        assert_eq!(v.take_reply("x", Ok(doc(analysis))), Ok(None));
        for _ in 1..refused {
            assert!(v.take_reply("x", Err("网络错误: e".to_string())).is_ok());
        }
        let next = v.next;
        assert_eq!(v.take_reply("x", Err("HTTP 403".to_string())), Err("HTTP 403".to_string()));
        assert_eq!(v.next, next);
    }
}

#[test]
fn a_visit_fails_without_an_analysis() {
    let mut v = Visit::new();
    assert_eq!(v.take_reply("x", Err("HTTP 403".to_string())), Err("HTTP 403".to_string()));
    assert_eq!(
        v.take_reply("x", Ok(doc("{\"Result\":null}"))),
        Err("分析接口返回空 Result".to_string())
    );
}
