//! What happens before a run: the stocks, the words on the command line, the inputs of the
//! window, and what keeps a run from starting.

use vstd::prelude::*;

use crate::crawler::{CrawlConfig, SECOND};
use crate::json::{
    a_lookup_finds_the_entry, as_array, as_text, field, has_entry, parse_json, parsed, text_in,
    text_view, Json,
};
use crate::models::StockRef;
use crate::state::{CrawlStatus, ErrorNotice};
use crate::text::{
    decimal, decimal_int, holds, joined, parse_i64, parse_unsigned, position, read_i64,
    read_unsigned, stands_at, views, whole_numbers_read_back, write_u64, write_usize,
};

verus! {

// ---------------------------------------------------------------- the stocks

/// The stock that an entry of the list names: none where it has no code. A missing name is
/// empty.
pub open spec fn stock_in(entry: Json) -> Option<(Seq<char>, Seq<char>)> {
    match as_text(field(entry, "code"@)) {
        Some(code) => Some(
            (
                code,
                match as_text(field(entry, "name"@)) {
                    Some(name) => name,
                    None => Seq::empty(),
                },
            ),
        ),
        None => None,
    }
}

/// The stocks that the entries name, in order.
pub open spec fn stocks_in(entries: Seq<Json>) -> Seq<(Seq<char>, Seq<char>)>
    decreases entries.len(),
{
    if entries.len() == 0 {
        Seq::empty()
    } else {
        let before = stocks_in(entries.drop_last());
        match stock_in(entries.last()) {
            Some(s) => before.push(s),
            None => before,
        }
    }
}

/// The stocks of the list.
pub open spec fn listed_stocks(document: Json) -> Seq<(Seq<char>, Seq<char>)> {
    match as_array(field(document, "stocks"@)) {
        Some(entries) => stocks_in(entries),
        None => Seq::empty(),
    }
}

pub open spec fn stock_views(list: Seq<StockRef>) -> Seq<(Seq<char>, Seq<char>)> {
    list.map_values(|s: StockRef| (s.code@, s.name@))
}

fn read_stocks(entries: &Vec<Json>) -> (r: Vec<StockRef>)
    ensures
        stock_views(r@) == stocks_in(entries@),
{
    let mut out: Vec<StockRef> = Vec::new();
    let mut i: usize = 0;
    assert(stock_views(out@) =~= stocks_in(entries@.take(0)));
    while i < entries.len()
        invariant
            i <= entries@.len(),
            stock_views(out@) == stocks_in(entries@.take(i as int)),
        decreases entries@.len() - i,
    {
        let ghost before = stock_views(out@);
        assert(entries@.take(i + 1).drop_last() =~= entries@.take(i as int));
        assert(entries@.take(i + 1).last() == entries@[i as int]);
        match text_in(entries[i].get("code")) {
            Some(code) => {
                let name = match text_in(entries[i].get("name")) {
                    Some(n) => n,
                    None => String::new(),
                };
                let ghost pair = (code@, name@);
                out.push(StockRef { code, name });
                assert(stock_views(out@) =~= before.push(pair));
            },
            None => {},
        }
        i += 1;
    }
    assert(entries@.take(i as int) =~= entries@);
    out
}

/// The stocks that a document lists.
pub fn stocks_of(document: &Json) -> (r: Vec<StockRef>)
    ensures
        stock_views(r@) == listed_stocks(*document),
{
    match document.get("stocks") {
        Some(Json::Array(entries)) => read_stocks(entries),
        _ => {
            let none: Vec<StockRef> = Vec::new();
            assert(stock_views(none@) =~= Seq::empty());
            none
        },
    }
}

/// The stocks that a text lists: none where it is no document.
pub fn load_codes(text: &str) -> (r: Vec<StockRef>)
    ensures
        stock_views(r@) == match parsed(text@) {
            Ok(v) => listed_stocks(v),
            Err(_) => Seq::empty(),
        },
{
    match parse_json(text) {
        Ok(v) => stocks_of(&v),
        Err(_) => {
            let none: Vec<StockRef> = Vec::new();
            assert(stock_views(none@) =~= Seq::empty());
            none
        },
    }
}

// ---------------------------------------------------------------- the command line

/// The word behind a flag: none where the flag is not there, or is the last word. The first of
/// several counts.
pub fn flag_value(args: &Vec<String>, flag: &str) -> (r: Option<String>)
    ensures
        match r {
            Some(v) => exists|i: int|
                {
                    &&& 0 <= i < args@.len() - 1
                    &&& (#[trigger] args@[i])@ == flag@
                    &&& forall|j: int| 0 <= j < i ==> (#[trigger] args@[j])@ != flag@
                    &&& v@ == args@[i + 1]@
                },
            None => forall|i: int|
                0 <= i < args@.len() - 1 && (#[trigger] args@[i])@ == flag@ ==> exists|j: int|
                    0 <= j < i && (#[trigger] args@[j])@ == flag@,
        },
{
    match position(args, flag) {
        Some(i) => if i < args.len() - 1 {
            Some(args[i + 1].clone())
        } else {
            None
        },
        None => None,
    }
}

/// Whether a flag is there.
pub fn has_flag(args: &Vec<String>, flag: &str) -> (r: bool)
    ensures
        r == exists|i: int| 0 <= i < args@.len() && (#[trigger] args@[i])@ == flag@,
{
    match position(args, flag) {
        Some(i) => {
            assert(args@[i as int]@ == flag@);
            true
        },
        None => false,
    }
}

/// A count that a text spells, where an address can hold it.
pub fn read_count(text: &str) -> (r: Option<usize>)
    ensures
        match r {
            Some(n) => read_unsigned(text@, usize::MAX as nat) == Some(n as nat),
            None => read_unsigned(text@, usize::MAX as nat) is None,
        },
{
    match parse_unsigned(text, usize::MAX as u64) {
        Some(n) => Some(n as usize),
        None => None,
    }
}

/// A count that a text spells, else another.
pub fn count_or(text: &str, otherwise: usize) -> (r: usize)
    ensures
        r == match read_unsigned(text@, usize::MAX as nat) {
            Some(n) => n as int,
            None => otherwise as int,
        },
{
    match read_count(text) {
        Some(n) => n,
        None => otherwise,
    }
}

/// A whole number that a text spells, else another.
pub fn whole_or(text: &str, otherwise: i64) -> (r: i64)
    ensures
        r == match read_i64(text@) {
            Some(n) => n,
            None => otherwise,
        },
{
    match parse_i64(text) {
        Some(n) => n,
        None => otherwise,
    }
}

// ---------------------------------------------------------------- starting a run

/// What the window asks a run to do.
#[derive(Debug, Clone, PartialEq, Eq)]
pub struct RunInputs {
    pub trade_date: String,
    pub db_path: String,
    /// The interval between two requests and the longest pause, in nanoseconds.
    pub min_interval: u64,
    pub rate_wait_cap: Option<u64>,
    pub max_per_minute: String,
    pub empty_limit: String,
    pub empty_cooldown: String,
    pub resume: bool,
}

/// A run as the window asks for it: what its inputs do not spell is forty requests a minute,
/// three shells and seven days.
pub open spec fn asked_by_window(r: CrawlConfig, inputs: RunInputs, codes: Vec<StockRef>) -> bool {
    &&& r.db_path@ == inputs.db_path@
    &&& r.trade_date@ == inputs.trade_date@
    &&& r.codes == codes
    &&& r.min_interval == inputs.min_interval
    &&& r.max_per_minute == match read_unsigned(inputs.max_per_minute@, usize::MAX as nat) {
        Some(n) => n as int,
        None => 40,
    }
    &&& r.jitter == 600_000_000
    &&& r.max_retries == 3
    &&& r.timeout == 30
    &&& r.limit is None
    &&& r.resume == inputs.resume
    &&& r.fresh_days == 2
    &&& r.empty_limit == match read_i64(inputs.empty_limit@) {
        Some(n) => n,
        None => 3,
    }
    &&& r.empty_cooldown_days == match read_i64(inputs.empty_cooldown@) {
        Some(n) => n,
        None => 7,
    }
    &&& r.rate_wait_cap == inputs.rate_wait_cap
}

/// A run as the window asks for it: what its inputs do not spell is forty requests a minute,
/// three shells and seven days.
pub fn crawl_config(inputs: &RunInputs, codes: Vec<StockRef>) -> (r: CrawlConfig)
    ensures
        asked_by_window(r, *inputs, codes),
{
    CrawlConfig {
        db_path: inputs.db_path.clone(),
        trade_date: inputs.trade_date.clone(),
        codes,
        min_interval: inputs.min_interval,
        max_per_minute: count_or(&inputs.max_per_minute, 40),
        jitter: 600_000_000,
        max_retries: 3,
        timeout: 30,
        limit: None,
        resume: inputs.resume,
        fresh_days: 2,
        empty_limit: whole_or(&inputs.empty_limit, 3),
        empty_cooldown_days: whole_or(&inputs.empty_cooldown, 7),
        rate_wait_cap: inputs.rate_wait_cap,
    }
}

/// A run as the command line asks for it.
pub fn headless_config(
    db_path: String,
    trade_date: String,
    codes: Vec<StockRef>,
    limit: Option<usize>,
    min_interval: u64,
    max_per_minute: usize,
) -> (r: CrawlConfig)
    ensures
        r == (CrawlConfig {
            db_path,
            trade_date,
            codes,
            min_interval,
            max_per_minute,
            jitter: 600_000_000,
            max_retries: 3,
            timeout: 30,
            limit,
            resume: true,
            fresh_days: 2,
            empty_limit: 3,
            empty_cooldown_days: 7,
            rate_wait_cap: Some((15 * SECOND) as u64),
        }),
{
    CrawlConfig {
        db_path,
        trade_date,
        codes,
        min_interval,
        max_per_minute,
        jitter: 600_000_000,
        max_retries: 3,
        timeout: 30,
        limit,
        resume: true,
        fresh_days: 2,
        empty_limit: 3,
        empty_cooldown_days: 7,
        rate_wait_cap: Some(15 * SECOND),
    }
}

/// The same run with the pace for Eastmoney.
pub open spec fn paced_for_em(config: CrawlConfig) -> CrawlConfig {
    CrawlConfig { min_interval: 50_000_000, max_per_minute: 800, jitter: 0, ..config }
}

/// The same run with the pace for Eastmoney.
pub fn em_config(config: CrawlConfig) -> (r: CrawlConfig)
    ensures
        r == paced_for_em(config),
{
    let mut c = config;
    c.min_interval = 50_000_000;
    c.max_per_minute = 800;
    c.jitter = 0;
    c
}

/// The sources of a run.
#[derive(Debug, Clone, Copy, PartialEq, Eq)]
pub struct Sources {
    pub baidu: bool,
    pub em: bool,
}

/// The sources that a choice of the window stands for: Baidu, Eastmoney, or one after the other.
pub open spec fn sources_of(mode: int) -> Sources {
    if mode == 1 {
        Sources { baidu: false, em: true }
    } else if mode == 2 {
        Sources { baidu: true, em: true }
    } else {
        Sources { baidu: true, em: false }
    }
}

/// The sources that a choice of the window stands for: Baidu, Eastmoney, or one after the other.
pub fn chosen_sources(mode: usize) -> (r: Sources)
    ensures
        r == sources_of(mode as int),
{
    if mode == 1 {
        Sources { baidu: false, em: true }
    } else if mode == 2 {
        Sources { baidu: true, em: true }
    } else {
        Sources { baidu: true, em: false }
    }
}

/// Whether a run may begin: the one before is over, and no failure waits for an answer.
pub fn may_start(finished: bool, pending: bool, status: CrawlStatus) -> (r: bool)
    ensures
        r == (finished && !pending && status != CrawlStatus::NeedConfirm),
{
    finished && !pending && status != CrawlStatus::NeedConfirm
}

fn plain_notice(name: &str, detail: String, hint: &str) -> (r: ErrorNotice)
    ensures
        r@.kind == "其它错误"@,
        r@.code.len() == 0,
        r@.name == name@,
        r@.detail == detail@,
        r@.hint == hint@,
        r@.links.len() == 0,
{
    ErrorNotice {
        kind: "其它错误".to_string(),
        code: String::new(),
        name: name.to_string(),
        detail,
        hint: hint.to_string(),
        links: Vec::new(),
    }
}

/// What keeps a run from starting: a day on which the exchanges are closed, unless it is forced,
/// or a list without stocks.
pub fn start_obstacle(trade_date: &str, force: bool, trading: bool, codes: usize) -> (r: Option<
    ErrorNotice,
>)
    ensures
        !force && !trading ==> {
            &&& r matches Some(n)
            &&& n@.kind == "其它错误"@
            &&& n@.code.len() == 0
            &&& n@.name == trade_date@
            &&& n@.detail == trade_date@ + " 非交易日，已阻止（勾选「强制」可忽略）"@
            &&& n@.hint == "休市日源站通常也没有当日数据。勾选「强制」后再点开始。"@
            &&& n@.links.len() == 0
        },
        (force || trading) && codes == 0 ==> {
            &&& r matches Some(n)
            &&& n@.kind == "其它错误"@
            &&& n@.code.len() == 0
            &&& n@.name == "代码清单"@
            &&& n@.detail == "代码清单为空"@
            &&& n@.hint == "内置 a_stocks.json 未能加载，请重新下载完整安装包。"@
            &&& n@.links.len() == 0
        },
        (force || trading) && codes > 0 ==> r is None,
{
    if !force && !trading {
        let mut detail = trade_date.to_string();
        detail.append(" 非交易日，已阻止（勾选「强制」可忽略）");
        return Some(
            plain_notice(
                trade_date,
                detail,
                "休市日源站通常也没有当日数据。勾选「强制」后再点开始。",
            ),
        );
    }
    if codes == 0 {
        return Some(
            plain_notice(
                "代码清单",
                "代码清单为空".to_string(),
                "内置 a_stocks.json 未能加载，请重新下载完整安装包。",
            ),
        );
    }
    None
}

/// What keeps a run without a window from starting, as a line for its log: a closed day, unless
/// it is forced, or a list without stocks.
pub fn headless_obstacle(trade_date: &str, force: bool, trading: bool, codes: usize) -> (r: Option<
    String,
>)
    ensures
        text_view(r) == if !force && !trading {
            Some("[headless] "@ + trade_date@ + " 非交易日，已跳过（--force 可强制）"@)
        } else if codes == 0 {
            Some("[headless] 代码清单为空，退出"@)
        } else {
            None
        },
{
    match start_obstacle(trade_date, force, trading, codes) {
        None => None,
        Some(_) => if codes == 0 && (force || trading) {
            Some("[headless] 代码清单为空，退出".to_string())
        } else {
            let mut s = "[headless] ".to_string();
            s.append(trade_date);
            s.append(" 非交易日，已跳过（--force 可强制）");
            Some(s)
        },
    }
}

/// The notice where another crawler that uses the database could not be ended.
pub fn still_running_notice(outcome: &str) -> (r: ErrorNotice)
    ensures
        r@.kind == "其它错误"@,
        r@.code.len() == 0,
        r@.name == "Python爬虫"@,
        r@.detail == outcome@ + " 但 Python 仍在运行，已阻止启动（禁止并存）"@,
        r@.hint == "请先关掉 Python 版爬虫窗口，再点开始。"@,
        r@.links.len() == 0,
{
    let mut detail = outcome.to_string();
    detail.append(" 但 Python 仍在运行，已阻止启动（禁止并存）");
    plain_notice(
        "Python爬虫",
        detail,
        "请先关掉 Python 版爬虫窗口，再点开始。",
    )
}

/// What the log of a run without a window says of its progress: nothing where nothing moved.
pub fn progress_line(
    processed: usize,
    last: usize,
    total: usize,
    done: usize,
    skipped: usize,
    failed: usize,
    code: &str,
    endpoint: &str,
    status: CrawlStatus,
) -> (r: Option<String>)
    ensures
        text_view(r) == if processed == last {
            None
        } else {
            Some(
                "[进度] "@ + decimal(processed as nat) + "/"@ + decimal(total as nat) + " 新增"@
                    + decimal(done as nat) + " 跳过"@ + decimal(skipped as nat) + " 失败"@
                    + decimal(failed as nat) + " 当前="@ + code@ + " "@ + endpoint@ + " 状态="@
                    + status_word(status),
            )
        },
{
    if processed == last {
        return None;
    }
    let mut s = "[进度] ".to_string();
    s.append(&write_usize(processed));
    s.append("/");
    s.append(&write_usize(total));
    s.append(" 新增");
    s.append(&write_usize(done));
    s.append(" 跳过");
    s.append(&write_usize(skipped));
    s.append(" 失败");
    s.append(&write_usize(failed));
    s.append(" 当前=");
    s.append(code);
    s.append(" ");
    s.append(endpoint);
    s.append(" 状态=");
    s.append(status_name(status));
    Some(s)
}

pub open spec fn status_word(status: CrawlStatus) -> Seq<char> {
    match status {
        CrawlStatus::Idle => "Idle"@,
        CrawlStatus::Running => "Running"@,
        CrawlStatus::Cooling => "Cooling"@,
        CrawlStatus::NeedConfirm => "NeedConfirm"@,
        CrawlStatus::Done => "Done"@,
        CrawlStatus::Stopped => "Stopped"@,
        CrawlStatus::Error => "Error"@,
    }
}

fn status_name(status: CrawlStatus) -> (r: &'static str)
    ensures
        r@ == status_word(status),
{
    match status {
        CrawlStatus::Idle => "Idle",
        CrawlStatus::Running => "Running",
        CrawlStatus::Cooling => "Cooling",
        CrawlStatus::NeedConfirm => "NeedConfirm",
        CrawlStatus::Done => "Done",
        CrawlStatus::Stopped => "Stopped",
        CrawlStatus::Error => "Error",
    }
}

/// Whether a run without a window is over: it has ended, and nothing is left of it.
pub fn is_over(status: CrawlStatus, processed: usize, total: usize) -> (r: bool)
    ensures
        r == ((status == CrawlStatus::Done || status == CrawlStatus::Error || status
            == CrawlStatus::Stopped) && processed >= total),
{
    (status == CrawlStatus::Done || status == CrawlStatus::Error || status == CrawlStatus::Stopped)
        && processed >= total
}

// ---------------------------------------------------------------- other processes

/// The numbers of processes in a text with commas between; what spells none is left out.
pub open spec fn pids_in(pieces: Seq<Seq<char>>) -> Seq<u32>
    decreases pieces.len(),
{
    if pieces.len() == 0 {
        Seq::empty()
    } else {
        let before = pids_in(pieces.drop_last());
        match read_unsigned(crate::text::trimmed(pieces.last()), u32::MAX as nat) {
            Some(n) => before.push(n as u32),
            None => before,
        }
    }
}

/// The numbers of processes in a text with commas between.
pub fn read_pids(text: &str) -> (r: Vec<u32>)
    ensures
        r@ == pids_in(crate::text::parts(text@, ',')),
{
    let pieces = crate::text::split(text, ',');
    let mut out: Vec<u32> = Vec::new();
    let mut i: usize = 0;
    let ghost all = views(pieces@);
    assert(out@ =~= pids_in(all.take(0)));
    while i < pieces.len()
        invariant
            i <= pieces@.len(),
            all == views(pieces@),
            out@ == pids_in(all.take(i as int)),
        decreases pieces@.len() - i,
    {
        assert(all.take(i + 1).drop_last() =~= all.take(i as int));
        assert(all.take(i + 1).last() == pieces@[i as int]@);
        let piece = crate::text::trim(&pieces[i]);
        match parse_unsigned(&piece, u32::MAX as u64) {
            Some(n) => {
                out.push(n as u32);
            },
            None => {},
        }
        i += 1;
    }
    assert(all.take(i as int) =~= all);
    out
}

/// Numbers of processes with commas between.
pub open spec fn pid_list(list: Seq<u32>) -> Seq<char>
    decreases list.len(),
{
    if list.len() == 0 {
        Seq::empty()
    } else if list.len() == 1 {
        decimal(list[0] as nat)
    } else {
        pid_list(list.drop_last()) + ", "@ + decimal(list.last() as nat)
    }
}

fn write_pids(list: &Vec<u32>) -> (r: String)
    ensures
        r@ == pid_list(list@),
{
    let mut s = String::new();
    let mut i: usize = 0;
    assert(s@ =~= pid_list(list@.take(0)));
    while i < list.len()
        invariant
            i <= list@.len(),
            s@ == pid_list(list@.take(i as int)),
        decreases list@.len() - i,
    {
        let ghost before = s@;
        if i > 0 {
            s.append(", ");
        }
        s.append(&write_u64(list[i] as u64));
        proof {
            let next = list@.take(i + 1);
            assert(next.drop_last() =~= list@.take(i as int));
            assert(next.last() == list@[i as int]);
            if i > 0 {
                assert(s@ =~= before + ", "@ + decimal(list@[i as int] as nat));
            } else {
                assert(s@ =~= decimal(list@[0] as nat));
            }
        }
        i += 1;
    }
    assert(list@.take(i as int) =~= list@);
    s
}

/// What became of the processes that an earlier run left behind.
pub open spec fn leftover_report(killed: Seq<u32>, failed: Seq<u32>) -> Seq<char> {
    let gone = "已清除僵尸: "@ + pid_list(killed);
    let stuck = "无法清除(Windows 限制): "@ + pid_list(failed);
    if killed.len() == 0 && failed.len() == 0 {
        "未检测到僵尸进程"@
    } else if failed.len() == 0 {
        gone
    } else if killed.len() == 0 {
        stuck
    } else {
        gone + "; "@ + stuck
    }
}

/// What became of the processes that an earlier run left behind.
pub fn zombie_report(killed: &Vec<u32>, failed: &Vec<u32>) -> (r: String)
    ensures
        r@ == leftover_report(killed@, failed@),
{
    if killed.len() == 0 && failed.len() == 0 {
        return "未检测到僵尸进程".to_string();
    }
    let mut s = String::new();
    if killed.len() > 0 {
        s.append("已清除僵尸: ");
        s.append(&write_pids(killed));
        assert(s@ =~= "已清除僵尸: "@ + pid_list(killed@));
        if failed.len() > 0 {
            s.append("; ");
        }
    }
    if failed.len() > 0 {
        let mut stuck = "无法清除(Windows 限制): ".to_string();
        stuck.append(&write_pids(failed));
        s.append(&stuck);
    }
    assert(s@ =~= leftover_report(killed@, failed@));
    s
}

/// What became of the other crawler, by what the command that ends it wrote.
pub fn kill_report(stdout: &str) -> (r: String)
    ensures
        r@ == if crate::text::trimmed(stdout@).len() == 0 {
            "未发现 Python 爬虫进程"@
        } else {
            "已停止 Python 爬虫: "@ + crate::text::trimmed(stdout@)
        },
{
    let out = crate::text::trim(stdout);
    if out.as_str().is_empty() {
        "未发现 Python 爬虫进程".to_string()
    } else {
        let mut s = "已停止 Python 爬虫: ".to_string();
        s.append(&out);
        s
    }
}

// ---------------------------------------------------------------- laws

/// A list names the stocks of its entries in order: each entry with a code gives one, with the name
/// that it has or none, and an entry without a code gives none.
pub proof fn entries_name_stocks(entries: Seq<Json>, item: Json)
    ensures
        forall|code: String|
            #![trigger has_entry(item, "code"@, Json::Text(code))]
            has_entry(item, "code"@, Json::Text(code)) ==> {
                let more = stocks_in(entries.push(item));
                &&& more.len() == stocks_in(entries).len() + 1
                &&& more.drop_last() == stocks_in(entries)
                &&& more.last().0 == code@
                &&& forall|name: String| #[trigger]
                    has_entry(item, "name"@, Json::Text(name)) ==> more.last().1 == name@
                &&& (forall|name: String| !#[trigger] has_entry(item, "name"@, Json::Text(name)))
                    ==> more.last().1.len() == 0
            },
        (forall|code: String| !#[trigger] has_entry(item, "code"@, Json::Text(code)))
            ==> stocks_in(entries.push(item)) == stocks_in(entries),
{
    let all = entries.push(item);
    assert(all.drop_last() =~= entries);
    assert forall|code: String| #[trigger] has_entry(item, "code"@, Json::Text(code)) implies field(
        item,
        "code"@,
    ) == Some(Json::Text(code)) by {
        a_lookup_finds_the_entry(item, "code"@, Json::Text(code));
    }
    assert forall|name: String| #[trigger] has_entry(item, "name"@, Json::Text(name)) implies field(
        item,
        "name"@,
    ) == Some(Json::Text(name)) by {
        a_lookup_finds_the_entry(item, "name"@, Json::Text(name));
    }
    match field(item, "code"@) {
        Some(Json::Text(code)) => {
            a_lookup_finds_the_entry(item, "code"@, Json::Text(code));
        },
        _ => {},
    }
    match field(item, "name"@) {
        Some(Json::Text(name)) => {
            a_lookup_finds_the_entry(item, "name"@, Json::Text(name));
        },
        _ => {},
    }
    if stock_in(item) is Some {
        assert(stocks_in(all).drop_last() =~= stocks_in(entries));
    }
}

/// The list of a document stands under its stocks; a document without that list names none.
pub proof fn a_document_lists_its_stocks(doc: Json)
    ensures
        forall|list: Vec<Json>| #[trigger]
            has_entry(doc, "stocks"@, Json::Array(list)) ==> listed_stocks(doc) == stocks_in(list@),
        (forall|list: Vec<Json>| !#[trigger] has_entry(doc, "stocks"@, Json::Array(list)))
            ==> listed_stocks(doc).len() == 0,
{
    assert forall|list: Vec<Json>| #[trigger]
        has_entry(doc, "stocks"@, Json::Array(list)) implies listed_stocks(doc) == stocks_in(
        list@,
    ) by {
        a_lookup_finds_the_entry(doc, "stocks"@, Json::Array(list));
    }
    match field(doc, "stocks"@) {
        Some(Json::Array(list)) => {
            a_lookup_finds_the_entry(doc, "stocks"@, Json::Array(list));
        },
        _ => {},
    }
}

/// Numbers of processes are written in decimal digits with a comma and a space between.
pub proof fn processes_are_listed(list: Seq<u32>)
    ensures
        pid_list(list) == joined(list.map_values(|n: u32| decimal(n as nat)), ", "@),
    decreases list.len(),
{
    let texts = list.map_values(|n: u32| decimal(n as nat));
    if list.len() > 0 {
        processes_are_listed(list.drop_last());
        assert(texts.drop_last() =~= list.drop_last().map_values(|n: u32| decimal(n as nat)));
    }
}

/// The report names every process that was ended and every one that was not, and says so where
/// there was none.
pub proof fn processes_are_reported(killed: Seq<u32>, failed: Seq<u32>)
    ensures
        killed.len() == 0 && failed.len() == 0 ==> leftover_report(killed, failed)
            == "未检测到僵尸进程"@,
        killed.len() > 0 ==> stands_at(
            leftover_report(killed, failed),
            "已清除僵尸: "@ + pid_list(killed),
            0,
        ),
        failed.len() > 0 ==> holds(
            leftover_report(killed, failed),
            "无法清除(Windows 限制): "@ + pid_list(failed),
        ),
{
    let report = leftover_report(killed, failed);
    let gone = "已清除僵尸: "@ + pid_list(killed);
    let stuck = "无法清除(Windows 限制): "@ + pid_list(failed);
    if killed.len() > 0 {
        assert(report.subrange(0, gone.len() as int) =~= gone);
    }
    if failed.len() > 0 {
        let at = report.len() - stuck.len();
        assert(report.subrange(at, at + stuck.len()) =~= stuck);
        assert(stands_at(report, stuck, at));
    }
}

/// Each piece that spells a number of a process gives it, whatever white space stands around it, in
/// the order of the pieces; any other piece gives none.
pub proof fn pieces_give_processes(pieces: Seq<Seq<char>>, piece: Seq<char>)
    ensures
        read_unsigned(crate::text::trimmed(piece), u32::MAX as nat) matches Some(n) ==> pids_in(
            pieces.push(piece),
        ) == pids_in(pieces).push(n as u32),
        read_unsigned(crate::text::trimmed(piece), u32::MAX as nat) is None ==> pids_in(
            pieces.push(piece),
        ) == pids_in(pieces),
{
    assert(pieces.push(piece).drop_last() =~= pieces);
}

/// The choices of the window: Baidu alone, Eastmoney alone, or both; there is always a source.
pub proof fn each_choice_has_a_source(mode: int)
    ensures
        sources_of(0).baidu && !sources_of(0).em,
        !sources_of(1).baidu && sources_of(1).em,
        sources_of(2).baidu && sources_of(2).em,
        sources_of(mode).baidu || sources_of(mode).em,
{
}

/// The inputs of the window reach the run each in its place: a number that is spelled counts,
/// another text leaves the limit as it is by default.
pub proof fn inputs_reach_the_run(
    r: CrawlConfig,
    inputs: RunInputs,
    codes: Vec<StockRef>,
    n: nat,
    i: i64,
    j: i64,
)
    requires
        asked_by_window(r, inputs, codes),
        n <= usize::MAX,
    ensures
        inputs.max_per_minute@ == decimal(n) ==> r.max_per_minute == n,
        inputs.empty_limit@ == decimal_int(i as int) ==> r.empty_limit == i,
        inputs.empty_cooldown@ == decimal_int(j as int) ==> r.empty_cooldown_days == j,
        inputs.max_per_minute@.len() == 0 ==> r.max_per_minute == 40,
        inputs.empty_limit@.len() == 0 ==> r.empty_limit == 3,
        inputs.empty_cooldown@.len() == 0 ==> r.empty_cooldown_days == 7,
        r.db_path@ == inputs.db_path@ && r.trade_date@ == inputs.trade_date@ && r.codes == codes,
        r.min_interval == inputs.min_interval && r.rate_wait_cap == inputs.rate_wait_cap && r.resume
            == inputs.resume,
        r.max_retries == 3 && r.timeout == 30 && r.fresh_days == 2 && r.limit is None,
        r.jitter * 10 == 6 * SECOND,
{
    whole_numbers_read_back(n, i as int, usize::MAX as nat);
    whole_numbers_read_back(n, j as int, usize::MAX as nat);
}

/// A run at Eastmoney goes at twenty requests a second and eight hundred a minute, and is else the
/// same.
pub proof fn eastmoney_has_its_pace(config: CrawlConfig)
    ensures
        paced_for_em(config).min_interval * 20 == SECOND,
        paced_for_em(config).max_per_minute == 800,
        paced_for_em(config).jitter == 0,
        paced_for_em(config) == (CrawlConfig {
            min_interval: paced_for_em(config).min_interval,
            max_per_minute: paced_for_em(config).max_per_minute,
            jitter: paced_for_em(config).jitter,
            ..config
        }),
{
}

} // verus!
