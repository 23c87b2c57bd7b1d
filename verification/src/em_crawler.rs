//! The Eastmoney crawl: reports that come in pages for the whole market, and what is asked for
//! stock by stock.

use vstd::hash_map::StringHashMap;
use vstd::prelude::*;

use crate::attempts::{
    an_attempt_counts_for_its_source_alone, counted, counted_all, others_count_nothing, replaces,
    Attempts,
};
use crate::calendar::{day_at, day_text_of, on_clock, stamp_text, CST_OFFSET};
use crate::crawler::adds_problem;
use crate::db::{
    bump_crawl_stats_source, cell_of_str, cell_of_text, real_cell, statement_views, stats_row,
    text_cell, Cell, CellView, Statement, StatementView,
};
use crate::http::{
    backoff_after, or_empty, percent_encode, percent_encoded, FetchStep, RateLimiter, Wait,
};
use crate::json::{
    as_array, as_real, as_text, field, field_in, get_in, parse_json, parsed, real_in, take_field,
    target, text_in, text_view, Json,
};
use crate::number::Real;
use crate::state::{problem, problem_line, stamped, AppState, CrawlStatus, ErrorNotice, ProblemView};
use crate::text::{
    at_most, begins_with, decimal, first_chars, is_at_most, join, joined, order_is_total,
    order_is_transitive, pair_views, parse_i64, push_pair, read_i64, take_chars, views, write_u64,
    write_usize,
};
use crate::verify::{
    all_links, classify_kind, kind_of, network_hint, one_source_is_named, page_links, source_names,
    source_verify_links, NETWORK_HINT,
};

verus! {

pub const EM_BASE: &'static str = "https://datacenter-web.eastmoney.com/api/data/v1/get";

pub const EM_UA: &'static str = "Mozilla/5.0 (Windows NT 10.0; Win64; x64) AppleWebKit/537.36";

pub const EM_REF: &'static str = "https://data.eastmoney.com/stockcomment/";

/// The rows of a full page.
pub const PAGE_SIZE: usize = 500;

/// How many stocks are asked for at a time.
pub const LEFTOVER_WORKERS: usize = 8;

/// How often the stocks that failed are tried again.
pub const PASS_RETRY: usize = 1;

// ---------------------------------------------------------------- requests

/// The headers of a request to Eastmoney.
pub fn em_headers() -> (r: Vec<(String, String)>)
    ensures
        pair_views(r@) == seq![
            ("user-agent"@, EM_UA@),
            ("referer"@, EM_REF@),
            ("accept"@, "application/json, text/plain, */*"@),
        ],
{
    let mut h: Vec<(String, String)> = Vec::new();
    push_pair(&mut h, "user-agent", EM_UA);
    push_pair(&mut h, "referer", EM_REF);
    push_pair(&mut h, "accept", "application/json, text/plain, */*");
    assert(pair_views(h@) =~= seq![
        ("user-agent"@, EM_UA@),
        ("referer"@, EM_REF@),
        ("accept"@, "application/json, text/plain, */*"@),
    ]);
    h
}

/// A code with its exchange.
pub open spec fn with_exchange(code: Seq<char>) -> Seq<char> {
    code + if code.len() > 0 && code[0] == '6' {
        ".SH"@
    } else if code.len() > 0 && (code[0] == '8' || code[0] == '4') {
        ".BJ"@
    } else {
        ".SZ"@
    }
}

/// A code with its exchange: Shanghai, Beijing or Shenzhen by its first digit.
pub fn secucode(code: &str) -> (r: String)
    ensures
        r@ == with_exchange(code@),
{
    let mut s = code.to_string();
    if begins_with(code, '6') {
        s.append(".SH");
    } else if begins_with(code, '8') || begins_with(code, '4') {
        s.append(".BJ");
    } else {
        s.append(".SZ");
    }
    s
}

/// A parameter of an address.
pub open spec fn query_part(p: (Seq<char>, Seq<char>)) -> Seq<char> {
    p.0 + "="@ + percent_encoded(vstd::utf8::encode_utf8(p.1))
}

pub open spec fn query_parts(list: Seq<(Seq<char>, Seq<char>)>) -> Seq<Seq<char>> {
    list.map_values(|p: (Seq<char>, Seq<char>)| query_part(p))
}

/// The parameters of a request for a report: four of every request, and its own.
pub open spec fn report_params(
    report: Seq<char>,
    extra: Seq<(Seq<char>, Seq<char>)>,
) -> Seq<(Seq<char>, Seq<char>)> {
    seq![
        ("reportName"@, report),
        ("columns"@, "ALL"@),
        ("client"@, "PC"@),
        ("source"@, "WEB"@),
    ] + extra
}

/// The address of a request for a report.
pub open spec fn report_url(report: Seq<char>, extra: Seq<(Seq<char>, Seq<char>)>) -> Seq<char> {
    EM_BASE@ + "?"@ + joined(query_parts(report_params(report, extra)), "&"@)
}

fn push_part(parts: &mut Vec<String>, name: &str, value: &str)
    ensures
        views(final(parts)@) == views(old(parts)@).push(query_part((name@, value@))),
{
    let mut s = name.to_string();
    s.append("=");
    let encoded = percent_encode(value);
    s.append(&encoded);
    parts.push(s);
    assert(views(parts@) =~= views(old(parts)@).push(query_part((name@, value@))));
}

/// The address of a request for a report.
pub fn em_url(report: &str, extra: &Vec<(String, String)>) -> (r: String)
    ensures
        r@ == report_url(report@, pair_views(extra@)),
{
    let mut parts: Vec<String> = Vec::new();
    push_part(&mut parts, "reportName", report);
    push_part(&mut parts, "columns", "ALL");
    push_part(&mut parts, "client", "PC");
    push_part(&mut parts, "source", "WEB");
    let ghost all = pair_views(extra@);
    let mut i: usize = 0;
    assert(views(parts@) =~= query_parts(report_params(report@, all.take(0))));
    while i < extra.len()
        invariant
            i <= extra@.len(),
            all == pair_views(extra@),
            views(parts@) == query_parts(report_params(report@, all.take(i as int))),
        decreases extra@.len() - i,
    {
        let ghost before = report_params(report@, all.take(i as int));
        push_part(&mut parts, &extra[i].0, &extra[i].1);
        assert(report_params(report@, all.take(i + 1)) =~= before.push(all[i as int]));
        assert(query_parts(before.push(all[i as int])) =~= query_parts(before).push(
            query_part(all[i as int]),
        ));
        i += 1;
    }
    assert(all.take(i as int) =~= all);
    let mut s = EM_BASE.to_string();
    s.append("?");
    s.append(&join(&parts, "&"));
    s
}

/// The parameters of a page, behind those of the report.
pub open spec fn page_params(
    extra: Seq<(Seq<char>, Seq<char>)>,
    page: int,
) -> Seq<(Seq<char>, Seq<char>)> {
    extra.push(("pageSize"@, decimal(PAGE_SIZE as nat))).push(("pageNumber"@, decimal(page as nat)))
}

/// The address of a page of a report.
pub fn page_url(report: &str, extra: &Vec<(String, String)>, page: usize) -> (r: String)
    ensures
        r@ == report_url(report@, page_params(pair_views(extra@), page as int)),
{
    let mut params: Vec<(String, String)> = Vec::new();
    let ghost all = pair_views(extra@);
    let mut i: usize = 0;
    assert(pair_views(params@) =~= all.take(0));
    while i < extra.len()
        invariant
            i <= extra@.len(),
            all == pair_views(extra@),
            pair_views(params@) == all.take(i as int),
        decreases extra@.len() - i,
    {
        push_pair(&mut params, &extra[i].0, &extra[i].1);
        assert(all.take(i + 1) =~= all.take(i as int).push(all[i as int]));
        i += 1;
    }
    assert(all.take(i as int) =~= all);
    push_pair(&mut params, "pageSize", &write_usize(PAGE_SIZE));
    push_pair(&mut params, "pageNumber", &write_usize(page));
    em_url(report, &params)
}

/// The parameters that ask for the latest row that meets a filter.
pub open spec fn latest_params(filter: Seq<char>) -> Seq<(Seq<char>, Seq<char>)> {
    seq![
        ("filter"@, filter),
        ("pageSize"@, "1"@),
        ("pageNumber"@, "1"@),
        ("sortColumns"@, "TRADE_DATE"@),
        ("sortTypes"@, "-1"@),
    ]
}

/// The address of the latest row of a report that meets a filter.
pub fn latest_url(report: &str, filter: &str) -> (r: String)
    ensures
        r@ == report_url(report@, latest_params(filter@)),
{
    let mut params: Vec<(String, String)> = Vec::new();
    push_pair(&mut params, "filter", filter);
    push_pair(&mut params, "pageSize", "1");
    push_pair(&mut params, "pageNumber", "1");
    push_pair(&mut params, "sortColumns", "TRADE_DATE");
    push_pair(&mut params, "sortTypes", "-1");
    assert(pair_views(params@) =~= seq![
        ("filter"@, filter@),
        ("pageSize"@, "1"@),
        ("pageNumber"@, "1"@),
        ("sortColumns"@, "TRADE_DATE"@),
        ("sortTypes"@, "-1"@),
    ]);
    em_url(report, &params)
}

/// The address of the latest valuation of a stock.
pub open spec fn valuation_address(code: Seq<char>) -> Seq<char> {
    report_url("RPT_VALUEANALYSIS_DET"@, latest_params("(SECURITY_CODE=\""@ + code + "\")"@))
}

/// The address of the latest valuation of a stock.
pub fn valuation_url(code: &str) -> (r: String)
    ensures
        r@ == valuation_address(code@),
{
    let mut filter = "(SECURITY_CODE=\"".to_string();
    filter.append(code);
    filter.append("\")");
    latest_url("RPT_VALUEANALYSIS_DET", &filter)
}

/// The address of the share of stocks that a stock beats.
pub open spec fn share_address(code: Seq<char>) -> Seq<char> {
    report_url(
        "RPT_CUSTOM_STOCK_PK"@,
        latest_params("(SECUCODE=\""@ + with_exchange(code) + "\")"@),
    )
}

/// The address of the share of stocks that a stock beats.
pub fn rank_ratio_url(code: &str) -> (r: String)
    ensures
        r@ == share_address(code@),
{
    let mut filter = "(SECUCODE=\"".to_string();
    let full = secucode(code);
    filter.append(&full);
    filter.append("\")");
    latest_url("RPT_CUSTOM_STOCK_PK", &filter)
}

// ---------------------------------------------------------------- replies

/// What the status of a reply asks for: an end where the visitor is turned away, the body where
/// it says success, and a retry otherwise.
pub open spec fn em_status_asks(r: FetchStep, attempt: u32, status: int) -> bool {
    if status == 403 {
        r matches FetchStep::Fail(error) && error@ == "HTTP 403"@
    } else if 200 <= status <= 299 {
        r == FetchStep::ReadBody
    } else {
        &&& r matches FetchStep::Retry { error, wait }
        &&& error@ == "HTTP "@ + decimal(status as nat)
        &&& wait == backoff_after(attempt)
    }
}

/// What the status of a reply asks for.
pub fn on_em_status(attempt: u32, status: u16) -> (r: FetchStep)
    requires
        attempt >= 1,
    ensures
        em_status_asks(r, attempt, status as int),
{
    if status == 403 {
        return FetchStep::Fail("HTTP 403".to_string());
    }
    if status >= 200 && status <= 299 {
        return FetchStep::ReadBody;
    }
    let mut error = "HTTP ".to_string();
    error.append(&write_u64(status as u64));
    FetchStep::Retry { error, wait: Wait::Backoff(attempt - 1) }
}

/// What a document asks for: a retry at once where the text was none.
pub fn on_em_document(document: Result<Json, String>) -> (r: FetchStep)
    ensures
        match document {
            Ok(v) => r == FetchStep::Done(v),
            Err(e) => r == (FetchStep::Retry { error: e, wait: Wait::Nothing }),
        },
{
    match document {
        Ok(v) => FetchStep::Done(v),
        Err(error) => FetchStep::Retry { error, wait: Wait::Nothing },
    }
}

/// What the body of a reply asks for: its document, or a retry at once where it holds none.
pub fn on_em_body(body: &str) -> (r: FetchStep)
    ensures
        match parsed(body@) {
            Ok(v) => r == FetchStep::Done(v),
            Err(e) => r matches FetchStep::Retry { error, wait } && error@ == e && wait
                == Wait::Nothing,
        },
{
    on_em_document(parse_json(body))
}

/// What a request that brought no reply asks for. `hint` tells how the connection was made.
pub fn on_em_no_reply(attempt: u32, message: &str, hint: &str) -> (r: FetchStep)
    requires
        attempt >= 1,
    ensures
        r matches FetchStep::Retry { error, wait } && error@ == "网络错误: "@ + message@ + hint@
            && wait == backoff_after(attempt),
{
    let mut error = "网络错误: ".to_string();
    error.append(message);
    error.append(hint);
    FetchStep::Retry { error, wait: Wait::Backoff(attempt - 1) }
}

/// How many tries a request has: at least one.
pub fn em_tries(max_retries: u32) -> (r: u32)
    ensures
        r == if max_retries == 0 {
            1
        } else {
            max_retries as int
        },
{
    if max_retries == 0 {
        1
    } else {
        max_retries
    }
}

/// The error after the last try.
pub fn em_gave_up(last_err: &str) -> (r: String)
    ensures
        r@ == "抓取失败: "@ + last_err@,
{
    let mut s = "抓取失败: ".to_string();
    s.append(last_err);
    s
}

// ---------------------------------------------------------------- rows

/// The rows of a reply.
pub open spec fn rows_of(v: Json) -> Seq<Json> {
    match as_array(field_in(field(v, "result"@), "data"@)) {
        Some(rows) => rows,
        None => Seq::empty(),
    }
}

/// The rows of a reply.
pub fn result_data(v: Json) -> (r: Vec<Json>)
    ensures
        r@ == rows_of(v),
{
    let data = match take_field(v, "result") {
        Some(result) => take_field(result, "data"),
        None => None,
    };
    match data {
        Some(Json::Array(rows)) => rows,
        _ => Vec::new(),
    }
}

/// The first row of a reply.
pub open spec fn first_row_of(v: Json) -> Option<Json> {
    if rows_of(v).len() == 0 {
        None
    } else {
        Some(rows_of(v)[0])
    }
}

/// The row that a request for the latest one brought, where it brought any.
pub fn fetch_one(reply: Result<Json, String>) -> (r: Option<Json>)
    ensures
        r == match reply {
            Ok(v) => first_row_of(v),
            Err(_) => None,
        },
{
    match reply {
        Ok(v) => {
            let mut rows = result_data(v);
            if rows.len() == 0 {
                None
            } else {
                Some(rows.remove(0))
            }
        },
        Err(_) => None,
    }
}

/// The code of a row: empty where it has none.
pub open spec fn row_code(v: Json) -> Seq<char> {
    or_empty(as_text(field(v, "SECURITY_CODE"@)))
}

/// The day of a row: the day of trading, else that of the diagnosis, to ten characters.
pub open spec fn row_day(v: Json) -> Seq<char> {
    let day = match field(v, "TRADE_DATE"@) {
        Some(d) => Some(d),
        None => field(v, "DIAGNOSE_DATE"@),
    };
    first_chars(or_empty(as_text(day)), 10)
}

fn text_or_empty(v: Option<&Json>) -> (r: String)
    ensures
        r@ == or_empty(as_text(target(v))),
{
    match text_in(v) {
        Some(s) => s,
        None => String::new(),
    }
}

/// The first ten characters of a text.
pub fn ymd(s: &str) -> (r: String)
    ensures
        r@ == first_chars(s@, 10),
{
    take_chars(s, 10)
}

/// The code of a row.
pub fn code_of(v: &Json) -> (r: String)
    ensures
        r@ == row_code(*v),
{
    text_or_empty(v.get("SECURITY_CODE"))
}

/// The day of a row.
pub fn row_date(v: &Json) -> (r: String)
    ensures
        r@ == row_day(*v),
{
    let day = match v.get("TRADE_DATE") {
        Some(d) => Some(d),
        None => v.get("DIAGNOSE_DATE"),
    };
    let text = text_or_empty(day);
    ymd(&text)
}

// ---------------------------------------------------------------- pages

/// The pages of a report that came so far, the page to ask for next, and whether this is the
/// second try at it.
#[derive(Debug)]
pub struct Pager {
    pub rows: Vec<Json>,
    pub page: usize,
    pub again: bool,
}

/// Whether there is a page to ask for, and a line for the log.
#[derive(Debug)]
pub struct PageStep {
    pub more: bool,
    pub log: Option<String>,
}

/// The rows of a report with those of a reply.
pub open spec fn rows_with(p: Pager, reply: Result<Json, String>) -> Seq<Json> {
    match reply {
        Ok(v) => p.rows@ + rows_of(v),
        Err(_) => p.rows@,
    }
}

/// A reply ends the report: a page without rows, one that is not full, and one that failed twice.
pub open spec fn ends_report(p: Pager, reply: Result<Json, String>) -> bool {
    match reply {
        Ok(v) => rows_of(v).len() < PAGE_SIZE,
        Err(_) => p.again,
    }
}

/// The page to ask for after a reply.
pub open spec fn page_after(p: Pager, reply: Result<Json, String>) -> int {
    if reply is Ok && !ends_report(p, reply) {
        p.page + 1
    } else {
        p.page as int
    }
}

/// What the log says of a reply.
pub open spec fn page_text(p: Pager, label: Seq<char>, reply: Result<Json, String>) -> Option<
    Seq<char>,
> {
    let page = label + " 第 "@ + decimal(p.page as nat);
    match reply {
        Ok(v) => if rows_of(v).len() == 0 || p.again {
            None
        } else {
            Some(
                page + " 页 +"@ + decimal(rows_of(v).len()) + "，累计 "@ + decimal(
                    p.rows@.len() + rows_of(v).len(),
                ),
            )
        },
        Err(e) => Some(
            page + (if p.again {
                " 页仍失败，停止该表: "@
            } else {
                " 页失败，自动再试: "@
            }) + e@,
        ),
    }
}

impl Pager {
    /// Every page before the next one was full.
    pub open spec fn wf(self) -> bool {
        &&& self.page >= 1
        &&& (self.page - 1) * PAGE_SIZE <= self.rows@.len()
    }

    pub fn new() -> (r: Pager)
        ensures
            r.wf(),
            r.rows@.len() == 0,
            r.page == 1,
            !r.again,
    {
        Pager { rows: Vec::new(), page: 1, again: false }
    }

    /// Takes in the reply for the page. A page without rows, and one that is not full, is the
    /// last. A page that failed is asked for once more, and ends the report where it fails again.
    pub fn take_page(&mut self, label: &str, reply: Result<Json, String>) -> (r: PageStep)
        requires
            old(self).wf(),
        ensures
            final(self).wf(),
            final(self).rows@ == rows_with(*old(self), reply),
            final(self).page == page_after(*old(self), reply),
            !ends_report(*old(self), reply) ==> (final(self).again <==> reply is Err),
            r.more <==> !ends_report(*old(self), reply),
            text_view(r.log) == page_text(*old(self), label@, reply),
    {
        let mut line = label.to_string();
        line.append(" 第 ");
        line.append(&write_usize(self.page));
        match reply {
            Ok(v) => {
                let mut data = result_data(v);
                let n: usize = data.len();
                if n == 0 {
                    assert(self.rows@ + data@ =~= self.rows@);
                    return PageStep { more: false, log: None };
                }
                self.rows.append(&mut data);
                let total: usize = self.rows.len();
                let log = if self.again {
                    None
                } else {
                    line.append(" 页 +");
                    line.append(&write_usize(n));
                    line.append("，累计 ");
                    line.append(&write_usize(total));
                    Some(line)
                };
                if n < PAGE_SIZE {
                    PageStep { more: false, log }
                } else {
                    self.page = self.page + 1;
                    self.again = false;
                    PageStep { more: true, log }
                }
            },
            Err(e) => {
                if self.again {
                    line.append(" 页仍失败，停止该表: ");
                    line.append(&e);
                    PageStep { more: false, log: Some(line) }
                } else {
                    line.append(" 页失败，自动再试: ");
                    line.append(&e);
                    self.again = true;
                    PageStep { more: true, log: Some(line) }
                }
            },
        }
    }
}

pub open spec fn starts_text(label: Seq<char>) -> Seq<char> {
    "东财批量 "@ + label + " …"@
}

pub open spec fn ends_text(label: Seq<char>, rows: nat) -> Seq<char> {
    label + " 完成，共 "@ + decimal(rows) + " 条"@
}

/// The line before the first page of a report.
pub fn paging_starts(label: &str) -> (r: String)
    ensures
        r@ == starts_text(label@),
{
    let mut s = "东财批量 ".to_string();
    s.append(label);
    s.append(" …");
    s
}

/// The line after the last page of a report.
pub fn paging_ends(label: &str, rows: usize) -> (r: String)
    ensures
        r@ == ends_text(label@, rows as nat),
{
    let mut s = label.to_string();
    s.append(" 完成，共 ");
    s.append(&write_usize(rows));
    s.append(" 条");
    s
}

// ---------------------------------------------------------------- the latest row of each stock

/// A row of a later day than another.
pub open spec fn is_later(a: Json, b: Json) -> bool {
    !at_most(row_day(a), row_day(b))
}

/// Which of the first `n` rows stands for a stock: one of its rows of the latest day, and of
/// these the last. A row without a code stands for nothing.
pub open spec fn kept(rows: Seq<Json>, n: int, code: Seq<char>) -> Option<int>
    decreases n,
{
    if n <= 0 || code.len() == 0 {
        None
    } else {
        let before = kept(rows, n - 1, code);
        if row_code(rows[n - 1]) == code {
            match before {
                Some(i) if is_later(rows[i], rows[n - 1]) => before,
                _ => Some(n - 1),
            }
        } else {
            before
        }
    }
}

/// The row that stands for a stock.
pub open spec fn latest(rows: Seq<Json>, code: Seq<char>) -> Option<Json> {
    match kept(rows, rows.len() as int, code) {
        Some(i) => Some(rows[i]),
        None => None,
    }
}

/// A report with the row that stands for each stock.
pub struct Latest {
    rows: Vec<Json>,
    index: StringHashMap<usize>,
}

/// The index gives the row that stands for each stock among the first `n`.
spec fn indexes(index: Map<Seq<char>, usize>, rows: Seq<Json>, n: int) -> bool {
    forall|code: Seq<char>|
        #![trigger index.contains_key(code)]
        #![trigger kept(rows, n, code)]
        match kept(rows, n, code) {
            Some(i) => index.contains_key(code) && index[code] == i && i < n,
            None => !index.contains_key(code),
        }
}

fn place_row(index: &mut StringHashMap<usize>, rows: &Vec<Json>, n: usize)
    requires
        n < rows@.len(),
        indexes(old(index)@, rows@, n as int),
    ensures
        indexes(final(index)@, rows@, n + 1),
{
    let code = code_of(&rows[n]);
    let ghost c = code@;
    let ghost old_index = index@;
    assert forall|other: Seq<char>| other != c || c.len() == 0 implies #[trigger] kept(
        rows@,
        n + 1,
        other,
    ) == kept(rows@, n as int, other) by {}
    if code.as_str().is_empty() {
        return;
    }
    let stays = match index.get(&code) {
        Some(at) => {
            assert(kept(rows@, n as int, c) == Some(*at as int));
            let old_day = row_date(&rows[*at]);
            let day = row_date(&rows[n]);
            !is_at_most(&old_day, &day)
        },
        None => false,
    };
    if !stays {
        index.insert(code, n);
        assert(kept(rows@, n + 1, c) == Some(n as int));
        assert forall|other: Seq<char>| other != c implies #[trigger] index@.contains_key(other)
            == old_index.contains_key(other) && index@[other] == old_index[other] by {}
    } else {
        assert(kept(rows@, n + 1, c) == kept(rows@, n as int, c));
    }
}

impl Latest {
    /// The rows of the report, all of them.
    pub closed spec fn report(self) -> Seq<Json> {
        self.rows@
    }

    /// The index fits the report.
    pub closed spec fn wf(self) -> bool {
        indexes(self.index@, self.rows@, self.rows@.len() as int)
    }

    /// The row that stands for a stock.
    pub fn get(&self, code: &str) -> (r: Option<&Json>)
        requires
            self.wf(),
        ensures
            target(r) == latest(self.report(), code@),
    {
        match self.index.get(code) {
            Some(at) => Some(&self.rows[*at]),
            None => None,
        }
    }
}

/// Finds the row that stands for each stock of a report.
pub fn index_latest(rows: Vec<Json>) -> (r: Latest)
    ensures
        r.wf(),
        r.report() == rows@,
{
    let mut index: StringHashMap<usize> = StringHashMap::new();
    let mut n: usize = 0;
    assert(indexes(index@, rows@, 0));
    while n < rows.len()
        invariant
            n <= rows@.len(),
            indexes(index@, rows@, n as int),
        decreases rows@.len() - n,
    {
        place_row(&mut index, &rows, n);
        n += 1;
    }
    Latest { rows, index }
}

/// The row that stands for a stock is one of its rows; no row of the stock is of a later day,
/// and none behind it is of the same day. A stock without a row has none that stands for it.
pub proof fn kept_row_is_the_latest(rows: Seq<Json>, n: int, code: Seq<char>)
    requires
        0 <= n <= rows.len(),
        code.len() > 0,
    ensures
        match kept(rows, n, code) {
            Some(i) => {
                &&& 0 <= i < n
                &&& row_code(rows[i]) == code
                &&& forall|j: int|
                    0 <= j < n && row_code(#[trigger] rows[j]) == code ==> at_most(
                        row_day(rows[j]),
                        row_day(rows[i]),
                    )
                &&& forall|j: int|
                    i < j < n && row_code(#[trigger] rows[j]) == code ==> !at_most(
                        row_day(rows[i]),
                        row_day(rows[j]),
                    )
            },
            None => forall|j: int| 0 <= j < n ==> row_code(#[trigger] rows[j]) != code,
        },
    decreases n,
{
    if n > 0 {
        kept_row_is_the_latest(rows, n - 1, code);
        let row = rows[n - 1];
        if row_code(row) == code {
            match kept(rows, n - 1, code) {
                Some(i) => {
                    order_is_total(row_day(rows[i]), row_day(row));
                    if !is_later(rows[i], row) {
                        assert forall|j: int|
                            0 <= j < n && row_code(#[trigger] rows[j]) == code implies at_most(
                            row_day(rows[j]),
                            row_day(row),
                        ) by {
                            if j < n - 1 {
                                order_is_transitive(
                                    row_day(rows[j]),
                                    row_day(rows[i]),
                                    row_day(row),
                                );
                            } else {
                                order_is_total(row_day(row), row_day(row));
                            }
                        }
                    }
                },
                None => {
                    order_is_total(row_day(row), row_day(row));
                },
            }
        }
    }
}

// ---------------------------------------------------------------- rows of the database

/// A number of a row, or null.
pub open spec fn real_of(v: Option<Json>, key: Seq<char>) -> CellView {
    real_cell(as_real(field_in(v, key)))
}

/// A whole number: one that is written as such, a number cut to a whole one, or a text that
/// spells a whole number; null for anything else.
pub open spec fn whole(v: Option<Json>) -> CellView {
    match v {
        Some(Json::Number(n)) => match n.int {
            Some(i) => CellView::Int(i as int),
            None => CellView::Whole(n.text@),
        },
        Some(Json::Text(s)) => match read_i64(s@) {
            Some(i) => CellView::Int(i as int),
            None => CellView::Null,
        },
        _ => CellView::Null,
    }
}

/// A whole number of a row, or null.
pub open spec fn whole_of(v: Option<Json>, key: Seq<char>) -> CellView {
    whole(field_in(v, key))
}

fn real_field(v: Option<&Json>, key: &str) -> (r: Cell)
    ensures
        r@ == real_of(target(v), key@),
{
    match real_in(get_in(v, key)) {
        Some(x) => Cell::Real(x),
        None => Cell::Null,
    }
}

fn whole_field(v: Option<&Json>, key: &str) -> (r: Cell)
    ensures
        r@ == whole_of(target(v), key@),
{
    match get_in(v, key) {
        Some(Json::Number(n)) => match n.int {
            Some(i) => Cell::Int(i),
            None => Cell::Whole(Real { text: n.text.clone() }),
        },
        Some(Json::Text(s)) => match parse_i64(s) {
            Some(i) => Cell::Int(i),
            None => Cell::Null,
        },
        _ => Cell::Null,
    }
}

/// The name in a row, else another.
pub open spec fn name_in(v: Option<Json>, otherwise: Seq<char>) -> Seq<char> {
    match as_text(field_in(v, "SECURITY_NAME_ABBR"@)) {
        Some(n) => n,
        None => otherwise,
    }
}

/// The day of a row, else another.
pub open spec fn day_in(v: Option<Json>, otherwise: Seq<char>) -> Seq<char> {
    match v {
        Some(row) if row_day(row).len() > 0 => row_day(row),
        _ => otherwise,
    }
}

fn name_or(v: Option<&Json>, otherwise: &str) -> (r: String)
    ensures
        r@ == name_in(target(v), otherwise@),
{
    match text_in(get_in(v, "SECURITY_NAME_ABBR")) {
        Some(n) => n,
        None => otherwise.to_string(),
    }
}

fn day_or(v: Option<&Json>, otherwise: &str) -> (r: String)
    ensures
        r@ == day_in(target(v), otherwise@),
{
    match v {
        Some(row) => {
            let d = row_date(row);
            if d.as_str().is_empty() {
                otherwise.to_string()
            } else {
                d
            }
        },
        None => otherwise.to_string(),
    }
}

/// The stock that a row is about: its code, its name, and the day it counts for.
#[derive(Debug, Clone, PartialEq, Eq)]
pub struct Leftover {
    pub code: String,
    pub name: String,
    pub td: String,
}

/// The row of the comment on a stock: none where it has no code.
pub open spec fn comment_row(item: Json, crawl_date: Seq<char>) -> StatementView {
    StatementView {
        sql: "INSERT OR REPLACE INTO em_comment VALUES (?,?,?,?,?,?,?,?,?,?,?,?,?,?,?,?,?,?,?,?)"@,
        params: seq![
            CellView::Text(row_code(item)),
            CellView::Text(name_in(Some(item), ""@)),
            CellView::Text(row_day(item)),
            real_of(Some(item), "TOTALSCORE"@),
            whole_of(Some(item), "RANK"@),
            whole_of(Some(item), "RANK_UP"@),
            real_of(Some(item), "FOCUS"@),
            real_of(Some(item), "ORG_PARTICIPATE"@),
            real_of(Some(item), "RATIO"@),
            real_of(Some(item), "PRIME_COST"@),
            real_of(Some(item), "PRIME_COST_20DAYS"@),
            real_of(Some(item), "PRIME_COST_60DAYS"@),
            real_of(Some(item), "PRIME_INFLOW"@),
            real_of(Some(item), "SUPERDEAL_INFLOW"@),
            real_of(Some(item), "SUPERDEAL_OUTFLOW"@),
            real_of(Some(item), "BIGDEAL_INFLOW"@),
            real_of(Some(item), "BIGDEAL_OUTFLOW"@),
            real_of(Some(item), "BUY_SUPERDEAL_RATIO"@),
            real_of(Some(item), "BUY_BIGDEAL_RATIO"@),
            CellView::Text(crawl_date),
        ],
    }
}

/// The row of the comment on a stock: none where it has no code.
pub fn insert_comment(item: &Json, crawl_date: &str) -> (r: Option<Statement>)
    ensures
        r is Some <==> row_code(*item).len() > 0,
        r matches Some(s) ==> s@ == comment_row(*item, crawl_date@),
{
    let code = code_of(item);
    if code.as_str().is_empty() {
        return None;
    }
    let params = vec![
        Cell::Text(code),
        cell_of_str(&name_or(Some(item), "")),
        cell_of_str(&row_date(item)),
        real_field(Some(item), "TOTALSCORE"),
        whole_field(Some(item), "RANK"),
        whole_field(Some(item), "RANK_UP"),
        real_field(Some(item), "FOCUS"),
        real_field(Some(item), "ORG_PARTICIPATE"),
        real_field(Some(item), "RATIO"),
        real_field(Some(item), "PRIME_COST"),
        real_field(Some(item), "PRIME_COST_20DAYS"),
        real_field(Some(item), "PRIME_COST_60DAYS"),
        real_field(Some(item), "PRIME_INFLOW"),
        real_field(Some(item), "SUPERDEAL_INFLOW"),
        real_field(Some(item), "SUPERDEAL_OUTFLOW"),
        real_field(Some(item), "BIGDEAL_INFLOW"),
        real_field(Some(item), "BIGDEAL_OUTFLOW"),
        real_field(Some(item), "BUY_SUPERDEAL_RATIO"),
        real_field(Some(item), "BUY_BIGDEAL_RATIO"),
        cell_of_str(crawl_date),
    ];
    let s = Statement {
        sql: "INSERT OR REPLACE INTO em_comment VALUES (?,?,?,?,?,?,?,?,?,?,?,?,?,?,?,?,?,?,?,?)".to_string(),
        params,
    };
    assert(s@.params =~= comment_row(*item, crawl_date@).params);
    Some(s)
}

/// The row of the diagnosis in words: none where neither report has any.
pub open spec fn diag_text_row(who: Leftover, crawl_date: Seq<char>, comment: Option<Json>,
    words: Option<Json>) -> StatementView {
    StatementView {
        sql: "INSERT OR REPLACE INTO em_diag_text VALUES (?,?,?,?,?,?)"@,
        params: seq![
            CellView::Text(who.code@),
            CellView::Text(name_in(words, name_in(comment, who.name@))),
            CellView::Text(day_in(comment, who.td@)),
            text_cell(as_text(field_in(comment, "COMMENT_TXT"@))),
            text_cell(as_text(field_in(words, "WORDS_EXPLAIN"@))),
            CellView::Text(crawl_date),
        ],
    }
}

/// The row of the diagnosis in words: none where neither report has any.
pub fn insert_diag_text(who: &Leftover, crawl_date: &str, comment: Option<&Json>,
    words: Option<&Json>) -> (r: Option<Statement>)
    ensures
        r is Some <==> as_text(field_in(target(comment), "COMMENT_TXT"@)) is Some
            || as_text(field_in(target(words), "WORDS_EXPLAIN"@)) is Some,
        r matches Some(s) ==> s@ == diag_text_row(*who, crawl_date@, target(comment),
            target(words)),
{
    let txt = text_in(get_in(comment, "COMMENT_TXT"));
    let expl = text_in(get_in(words, "WORDS_EXPLAIN"));
    if txt.is_none() && expl.is_none() {
        return None;
    }
    let params = vec![
        cell_of_str(&who.code),
        cell_of_str(&name_or(words, &name_or(comment, &who.name))),
        cell_of_str(&day_or(comment, &who.td)),
        cell_of_text(&txt),
        cell_of_text(&expl),
        cell_of_str(crawl_date),
    ];
    let s = Statement {
        sql: "INSERT OR REPLACE INTO em_diag_text VALUES (?,?,?,?,?,?)".to_string(),
        params,
    };
    assert(s@.params =~= diag_text_row(*who, crawl_date@, target(comment), target(words)).params);
    Some(s)
}

/// The row of the chances: none where neither report has the stock.
pub open spec fn diag_prob_row(who: Leftover, crawl_date: Seq<char>, chg: Option<Json>,
    pk: Option<Json>) -> StatementView {
    StatementView {
        sql: "INSERT OR REPLACE INTO em_diag_prob VALUES (?,?,?,?,?,?,?,?,?,?,?)"@,
        params: seq![
            CellView::Text(who.code@),
            CellView::Text(name_in(chg, who.name@)),
            CellView::Text(day_in(chg, who.td@)),
            real_of(chg, "RISE_1_PROBABILITY"@),
            real_of(chg, "RISE_5_PROBABILITY"@),
            real_of(chg, "AVERAGE_1_INCREASE"@),
            real_of(chg, "AVERAGE_5_INCREASE"@),
            whole_of(chg, "ALL_COUNT_1"@),
            whole_of(chg, "ALL_COUNT_5"@),
            real_of(pk, "STOCK_RANK_RATIO"@),
            CellView::Text(crawl_date),
        ],
    }
}

/// The row of the chances: none where neither report has the stock.
pub fn insert_diag_prob(who: &Leftover, crawl_date: &str, chg: Option<&Json>,
    pk: Option<&Json>) -> (r: Option<Statement>)
    ensures
        r is Some <==> chg is Some || pk is Some,
        r matches Some(s) ==> s@ == diag_prob_row(*who, crawl_date@, target(chg), target(pk)),
{
    if !(chg.is_some() || pk.is_some()) {
        return None;
    }
    let params = vec![
        cell_of_str(&who.code),
        cell_of_str(&name_or(chg, &who.name)),
        cell_of_str(&day_or(chg, &who.td)),
        real_field(chg, "RISE_1_PROBABILITY"),
        real_field(chg, "RISE_5_PROBABILITY"),
        real_field(chg, "AVERAGE_1_INCREASE"),
        real_field(chg, "AVERAGE_5_INCREASE"),
        whole_field(chg, "ALL_COUNT_1"),
        whole_field(chg, "ALL_COUNT_5"),
        real_field(pk, "STOCK_RANK_RATIO"),
        cell_of_str(crawl_date),
    ];
    let s = Statement {
        sql: "INSERT OR REPLACE INTO em_diag_prob VALUES (?,?,?,?,?,?,?,?,?,?,?)".to_string(),
        params,
    };
    assert(s@.params =~= diag_prob_row(*who, crawl_date@, target(chg), target(pk)).params);
    Some(s)
}

/// The row of the wish to take part.
pub open spec fn participation_row(who: Leftover, crawl_date: Seq<char>,
    row: Json) -> StatementView {
    StatementView {
        sql: "INSERT OR REPLACE INTO em_participation VALUES (?,?,?,?,?,?,?,?)"@,
        params: seq![
            CellView::Text(who.code@),
            CellView::Text(name_in(Some(row), who.name@)),
            CellView::Text(day_in(Some(row), who.td@)),
            real_of(Some(row), "PARTICIPATION_WISH"@),
            real_of(Some(row), "PARTICIPATION_WISH_5DAYS"@),
            real_of(Some(row), "PARTICIPATION_WISH_CHANGE"@),
            real_of(Some(row), "PARTICIPATION_WISH_5DAYSCHANGE"@),
            CellView::Text(crawl_date),
        ],
    }
}

/// The row of the wish to take part.
pub fn insert_participation(who: &Leftover, crawl_date: &str, row: &Json) -> (r: Statement)
    ensures
        r@ == participation_row(*who, crawl_date@, *row),
{
    let params = vec![
        cell_of_str(&who.code),
        cell_of_str(&name_or(Some(row), &who.name)),
        cell_of_str(&day_or(Some(row), &who.td)),
        real_field(Some(row), "PARTICIPATION_WISH"),
        real_field(Some(row), "PARTICIPATION_WISH_5DAYS"),
        real_field(Some(row), "PARTICIPATION_WISH_CHANGE"),
        real_field(Some(row), "PARTICIPATION_WISH_5DAYSCHANGE"),
        cell_of_str(crawl_date),
    ];
    let s = Statement {
        sql: "INSERT OR REPLACE INTO em_participation VALUES (?,?,?,?,?,?,?,?)".to_string(),
        params,
    };
    assert(s@.params =~= participation_row(*who, crawl_date@, *row).params);
    s
}

/// The row of the ranks: none where neither report has the stock.
pub open spec fn popularity_row(who: Leftover, crawl_date: Seq<char>, rank: Option<Json>,
    focus: Option<Json>) -> StatementView {
    StatementView {
        sql: "INSERT OR REPLACE INTO em_popularity VALUES (?,?,?,?,?,?,?,?,?,?,?,?)"@,
        params: seq![
            CellView::Text(who.code@),
            CellView::Text(name_in(rank, who.name@)),
            CellView::Text(day_in(rank, who.td@)),
            whole_of(rank, "MARKET_RANK"@),
            whole_of(rank, "EVALUATE_MARKET_NUM"@),
            whole_of(rank, "INDUSTRY_RANK"@),
            real_of(rank, "CHANGE_RATE"@),
            whole_of(rank, "MARKET_STOCK_NUM"@),
            whole_of(focus, "MARKET_FOCUS_RANK"@),
            whole_of(focus, "TOTAL_MARKET"@),
            real_of(focus, "MARKET_FOCUS"@),
            CellView::Text(crawl_date),
        ],
    }
}

/// The row of the ranks: none where neither report has the stock.
pub fn insert_popularity(who: &Leftover, crawl_date: &str, rank: Option<&Json>,
    focus: Option<&Json>) -> (r: Option<Statement>)
    ensures
        r is Some <==> rank is Some || focus is Some,
        r matches Some(s) ==> s@ == popularity_row(*who, crawl_date@, target(rank), target(focus)),
{
    if !(rank.is_some() || focus.is_some()) {
        return None;
    }
    let params = vec![
        cell_of_str(&who.code),
        cell_of_str(&name_or(rank, &who.name)),
        cell_of_str(&day_or(rank, &who.td)),
        whole_field(rank, "MARKET_RANK"),
        whole_field(rank, "EVALUATE_MARKET_NUM"),
        whole_field(rank, "INDUSTRY_RANK"),
        real_field(rank, "CHANGE_RATE"),
        whole_field(rank, "MARKET_STOCK_NUM"),
        whole_field(focus, "MARKET_FOCUS_RANK"),
        whole_field(focus, "TOTAL_MARKET"),
        real_field(focus, "MARKET_FOCUS"),
        cell_of_str(crawl_date),
    ];
    let s = Statement {
        sql: "INSERT OR REPLACE INTO em_popularity VALUES (?,?,?,?,?,?,?,?,?,?,?,?)".to_string(),
        params,
    };
    assert(s@.params =~= popularity_row(*who, crawl_date@, target(rank), target(focus)).params);
    Some(s)
}

/// The row of the valuation.
pub open spec fn valuation_row(who: Leftover, crawl_date: Seq<char>, row: Json) -> StatementView {
    StatementView {
        sql: "INSERT OR REPLACE INTO em_valuation VALUES (?,?,?,?,?,?,?,?,?,?,?,?,?,?)"@,
        params: seq![
            CellView::Text(who.code@),
            CellView::Text(name_in(Some(row), who.name@)),
            CellView::Text(day_in(Some(row), who.td@)),
            real_of(Some(row), "PE_TTM"@),
            real_of(Some(row), "PE_LAR"@),
            real_of(Some(row), "PB_MRQ"@),
            real_of(Some(row), "PCF_OCF_LAR"@),
            real_of(Some(row), "PCF_OCF_TTM"@),
            real_of(Some(row), "PS_TTM"@),
            real_of(Some(row), "PEG_CAR"@),
            real_of(Some(row), "TOTAL_MARKET_CAP"@),
            real_of(Some(row), "NOTLIMITED_MARKETCAP_A"@),
            text_cell(as_text(field(row, "BOARD_NAME"@))),
            CellView::Text(crawl_date),
        ],
    }
}

/// The row of the valuation.
pub fn insert_valuation(who: &Leftover, crawl_date: &str, row: &Json) -> (r: Statement)
    ensures
        r@ == valuation_row(*who, crawl_date@, *row),
{
    let params = vec![
        cell_of_str(&who.code),
        cell_of_str(&name_or(Some(row), &who.name)),
        cell_of_str(&day_or(Some(row), &who.td)),
        real_field(Some(row), "PE_TTM"),
        real_field(Some(row), "PE_LAR"),
        real_field(Some(row), "PB_MRQ"),
        real_field(Some(row), "PCF_OCF_LAR"),
        real_field(Some(row), "PCF_OCF_TTM"),
        real_field(Some(row), "PS_TTM"),
        real_field(Some(row), "PEG_CAR"),
        real_field(Some(row), "TOTAL_MARKET_CAP"),
        real_field(Some(row), "NOTLIMITED_MARKETCAP_A"),
        cell_of_text(&text_in(row.get("BOARD_NAME"))),
        cell_of_str(crawl_date),
    ];
    let s = Statement {
        sql: "INSERT OR REPLACE INTO em_valuation VALUES (?,?,?,?,?,?,?,?,?,?,?,?,?,?)".to_string(),
        params,
    };
    assert(s@.params =~= valuation_row(*who, crawl_date@, *row).params);
    s
}

// ---------------------------------------------------------------- the run

/// The reports that come in pages.
#[derive(Debug, Clone, Copy, PartialEq, Eq)]
pub enum Report {
    Comments,
    Chances,
    Diagnosis,
    News,
    Ranks,
    Participation,
    Focus,
}

pub open spec fn report_id(t: Report) -> Seq<char> {
    match t {
        Report::Comments => "RPT_DMSK_TS_STOCKNEW"@,
        Report::Chances => "RPT_STOCK_CHANGERATE"@,
        Report::Diagnosis => "RPT_STOCK_TRENDVOLUME_COMMENT"@,
        Report::News => "RPT_STOCK_WORDS_PK"@,
        Report::Ranks => "RPT_STOCK_PK_RANK"@,
        Report::Participation => "RPT_STOCK_PARTICIPATION"@,
        Report::Focus => "RPT_STOCK_MARKETFOCUS"@,
    }
}

/// The name under which Eastmoney has a report.
pub fn report_name(t: Report) -> (r: &'static str)
    ensures
        r@ == report_id(t),
{
    match t {
        Report::Comments => "RPT_DMSK_TS_STOCKNEW",
        Report::Chances => "RPT_STOCK_CHANGERATE",
        Report::Diagnosis => "RPT_STOCK_TRENDVOLUME_COMMENT",
        Report::News => "RPT_STOCK_WORDS_PK",
        Report::Ranks => "RPT_STOCK_PK_RANK",
        Report::Participation => "RPT_STOCK_PARTICIPATION",
        Report::Focus => "RPT_STOCK_MARKETFOCUS",
    }
}

pub open spec fn label_of(t: Report) -> Seq<char> {
    match t {
        Report::Comments => "千股千评"@,
        Report::Chances => "上涨概率"@,
        Report::Diagnosis => "诊断文字"@,
        Report::News => "消息面"@,
        Report::Ranks => "市场排名"@,
        Report::Participation => "参与意愿"@,
        Report::Focus => "关注指数"@,
    }
}

/// How a report is shown in the log.
pub fn report_label(t: Report) -> (r: &'static str)
    ensures
        r@ == label_of(t),
{
    match t {
        Report::Comments => "千股千评",
        Report::Chances => "上涨概率",
        Report::Diagnosis => "诊断文字",
        Report::News => "消息面",
        Report::Ranks => "市场排名",
        Report::Participation => "参与意愿",
        Report::Focus => "关注指数",
    }
}

pub open spec fn report_after(t: Report) -> Option<Report> {
    match t {
        Report::Comments => Some(Report::Chances),
        Report::Chances => Some(Report::Diagnosis),
        Report::Diagnosis => Some(Report::News),
        Report::News => Some(Report::Ranks),
        Report::Ranks => Some(Report::Participation),
        Report::Participation => Some(Report::Focus),
        Report::Focus => None,
    }
}

/// The report that is asked for after another.
pub fn next_report(t: Report) -> (r: Option<Report>)
    ensures
        r == report_after(t),
{
    match t {
        Report::Comments => Some(Report::Chances),
        Report::Chances => Some(Report::Diagnosis),
        Report::Diagnosis => Some(Report::News),
        Report::News => Some(Report::Ranks),
        Report::Ranks => Some(Report::Participation),
        Report::Participation => Some(Report::Focus),
        Report::Focus => None,
    }
}

/// The filter for the rows of a day.
pub open spec fn day_filter(day: Seq<char>) -> Seq<char> {
    "(TRADE_DATE='"@ + day + " 00:00:00')"@
}

/// What a report is asked with: the comments in the order of the codes, the two reports that
/// keep their history for the day of the data only.
pub open spec fn own_params(t: Report, day: Seq<char>) -> Seq<(Seq<char>, Seq<char>)> {
    match t {
        Report::Comments => seq![("sortColumns"@, "SECURITY_CODE"@), ("sortTypes"@, "1"@)],
        Report::Participation | Report::Focus => seq![("filter"@, day_filter(day))],
        _ => Seq::empty(),
    }
}

/// What a report is asked with.
pub fn own_report_params(t: Report, day: &str) -> (r: Vec<(String, String)>)
    ensures
        pair_views(r@) == own_params(t, day@),
{
    let mut list: Vec<(String, String)> = Vec::new();
    match t {
        Report::Comments => {
            push_pair(&mut list, "sortColumns", "SECURITY_CODE");
            push_pair(&mut list, "sortTypes", "1");
        },
        Report::Participation | Report::Focus => {
            let mut filter = "(TRADE_DATE='".to_string();
            filter.append(day);
            filter.append(" 00:00:00')");
            push_pair(&mut list, "filter", &filter);
        },
        _ => {},
    }
    assert(pair_views(list@) =~= own_params(t, day@));
    list
}

/// The limiter of the requests to Eastmoney.
pub fn fast_limiter(now: u64) -> (r: RateLimiter)
    ensures
        r.fits(now),
        r == (RateLimiter {
            min_interval: 50_000_000,
            max_per_minute: 800,
            jitter: 0,
            rate_wait_cap: Some(2_000_000_000),
            rate_window: 60_000_000_000,
            interval_jitter_extra: 0,
            micro_break_every: 0,
            micro_break_min: 0,
            micro_break_max: 0,
            last: now,
            window_start: now,
            count: 0,
            req_count: 0,
        }),
{
    RateLimiter::new_ex(
        now,
        50_000_000,
        800,
        0,
        0,
        0,
        0,
        0,
        Some(2_000_000_000),
        60_000_000_000,
    )
}

pub open spec fn taken(rows: int, limit: Option<usize>) -> int {
    match limit {
        Some(n) if n < rows => n as int,
        _ => rows,
    }
}

/// How many stocks the run takes: all, or as many as allowed.
pub fn run_total(rows: usize, limit: Option<usize>) -> (r: usize)
    ensures
        r == taken(rows as int, limit),
{
    match limit {
        Some(n) => if n < rows {
            n
        } else {
            rows
        },
        None => rows,
    }
}

/// The day of the data: that of the first comment, else the batch.
pub open spec fn day_of_data(rows: Seq<Json>, trade_date: Seq<char>) -> Seq<char> {
    day_in(
        if rows.len() == 0 {
            None
        } else {
            Some(rows[0])
        },
        trade_date,
    )
}

/// The day of the data.
pub fn data_day(rows: &Vec<Json>, trade_date: &str) -> (r: String)
    ensures
        r@ == day_of_data(rows@, trade_date@),
{
    if rows.len() == 0 {
        trade_date.to_string()
    } else {
        day_or(Some(&rows[0]), trade_date)
    }
}

/// The stock that a comment is about: none where it has no code.
pub fn identify(item: &Json, trade_date: &str) -> (r: Option<Leftover>)
    ensures
        r is Some <==> row_code(*item).len() > 0,
        r matches Some(who) ==> {
            &&& who.code@ == row_code(*item)
            &&& who.name@ == name_in(Some(*item), ""@)
            &&& who.td@ == day_in(Some(*item), trade_date@)
        },
{
    let code = code_of(item);
    if code.as_str().is_empty() {
        return None;
    }
    Some(Leftover { code, name: name_or(Some(item), ""), td: day_or(Some(item), trade_date) })
}

/// The six reports beside the comments, each with the row that stands for each stock.
pub struct Tables {
    pub chances: Latest,
    pub diagnosis: Latest,
    pub news: Latest,
    pub ranks: Latest,
    pub participation: Latest,
    pub focus: Latest,
}

impl Tables {
    pub open spec fn wf(self) -> bool {
        &&& self.chances.wf()
        &&& self.diagnosis.wf()
        &&& self.news.wf()
        &&& self.ranks.wf()
        &&& self.participation.wf()
        &&& self.focus.wf()
    }
}

pub open spec fn if_there(there: bool, row: StatementView) -> Seq<StatementView> {
    if there {
        seq![row]
    } else {
        Seq::empty()
    }
}

pub open spec fn participation_rows(
    who: Leftover,
    crawl_date: Seq<char>,
    row: Option<Json>,
) -> Seq<StatementView> {
    match row {
        Some(p) => seq![participation_row(who, crawl_date, p)],
        None => Seq::empty(),
    }
}

/// What the reports say of a stock, as rows of the database.
pub open spec fn batch_rows(
    item: Json,
    who: Leftover,
    tables: Tables,
    crawl_date: Seq<char>,
) -> Seq<StatementView> {
    let diagnosis = latest(tables.diagnosis.report(), who.code@);
    let news = latest(tables.news.report(), who.code@);
    let chances = latest(tables.chances.report(), who.code@);
    let ranks = latest(tables.ranks.report(), who.code@);
    let focus = latest(tables.focus.report(), who.code@);
    if_there(row_code(item).len() > 0, comment_row(item, crawl_date)) + if_there(
        as_text(field_in(diagnosis, "COMMENT_TXT"@)) is Some || as_text(
            field_in(news, "WORDS_EXPLAIN"@),
        ) is Some,
        diag_text_row(who, crawl_date, diagnosis, news),
    ) + if_there(chances is Some, diag_prob_row(who, crawl_date, chances, None))
        + participation_rows(who, crawl_date, latest(tables.participation.report(), who.code@))
        + if_there(
        ranks is Some || focus is Some,
        popularity_row(who, crawl_date, ranks, focus),
    )
}

fn push_if(out: &mut Vec<Statement>, row: Option<Statement>)
    ensures
        statement_views(final(out)@) == statement_views(old(out)@) + match row {
            Some(s) => seq![s@],
            None => Seq::empty(),
        },
{
    match row {
        Some(s) => {
            let ghost v = s@;
            out.push(s);
            assert(statement_views(out@) =~= statement_views(old(out)@) + seq![v]);
        },
        None => {
            assert(statement_views(out@) =~= statement_views(old(out)@) + Seq::empty());
        },
    }
}

/// What the reports say of a stock, as rows of the database.
fn batch_statements(item: &Json, who: &Leftover, tables: &Tables, crawl_date: &str) -> (r: Vec<
    Statement,
>)
    requires
        tables.wf(),
    ensures
        statement_views(r@) == batch_rows(*item, *who, *tables, crawl_date@),
{
    let mut out: Vec<Statement> = Vec::new();
    assert(statement_views(out@) =~= Seq::empty());
    let comment = insert_comment(item, crawl_date);
    push_if(&mut out, comment);
    assert(statement_views(out@) =~= if_there(
        row_code(*item).len() > 0,
        comment_row(*item, crawl_date@),
    ));
    let text = insert_diag_text(
        who,
        crawl_date,
        tables.diagnosis.get(&who.code),
        tables.news.get(&who.code),
    );
    push_if(&mut out, text);
    let chances = insert_diag_prob(who, crawl_date, tables.chances.get(&who.code), None);
    push_if(&mut out, chances);
    let wish = match tables.participation.get(&who.code) {
        Some(p) => Some(insert_participation(who, crawl_date, p)),
        None => None,
    };
    push_if(&mut out, wish);
    let ranks = insert_popularity(
        who,
        crawl_date,
        tables.ranks.get(&who.code),
        tables.focus.get(&who.code),
    );
    push_if(&mut out, ranks);
    out
}

/// The part of the run that writes the reports: how many stocks were written, how many were
/// skipped, and the stocks that are then asked for one by one.
#[derive(Debug)]
pub struct BatchRun {
    pub done: usize,
    pub skipped: usize,
    pub leftover: Vec<Leftover>,
}

/// How many stocks of the list were written and how many left out, and those to ask for.
pub struct BatchView {
    pub done: nat,
    pub skipped: nat,
    pub leftover: Seq<Leftover>,
}

impl View for BatchRun {
    type V = BatchView;

    open spec fn view(&self) -> BatchView {
        BatchView {
            done: self.done as nat,
            skipped: self.skipped as nat,
            leftover: self.leftover@,
        }
    }
}

/// A stock of the list is left out, or written and kept to be asked for.
pub open spec fn taken_in(run: BatchView, who: Leftover, skip: bool) -> BatchView {
    if skip {
        BatchView { skipped: run.skipped + 1, ..run }
    } else {
        BatchView { done: run.done + 1, leftover: run.leftover.push(who), ..run }
    }
}

impl BatchRun {
    /// Each stock that was written is asked for.
    pub open spec fn wf(self) -> bool {
        self.done == self.leftover@.len()
    }

    pub fn new() -> (r: BatchRun)
        ensures
            r.wf(),
            r@ == (BatchView { done: 0, skipped: 0, leftover: Seq::empty() }),
    {
        BatchRun { done: 0, skipped: 0, leftover: Vec::new() }
    }

    /// Takes in a stock of the list, and gives what to write: nothing where it is skipped. A
    /// stock that is written is asked for by itself later.
    pub fn take_item(
        &mut self,
        item: &Json,
        who: Leftover,
        tables: &Tables,
        crawl_date: &str,
        skip: bool,
    ) -> (r: Option<Vec<Statement>>)
        requires
            old(self).wf(),
            tables.wf(),
            old(self).skipped < usize::MAX,
            old(self).done < usize::MAX,
        ensures
            final(self).wf(),
            final(self)@ == taken_in(old(self)@, who, skip),
            skip ==> r is None,
            !skip ==> {
                &&& r matches Some(list)
                &&& statement_views(list@) == batch_rows(*item, who, *tables, crawl_date@)
            },
    {
        if skip {
            self.skipped = self.skipped + 1;
            return None;
        }
        let list = batch_statements(item, &who, tables, crawl_date);
        self.leftover.push(who);
        self.done = self.done + 1;
        Some(list)
    }
}

/// The run after rows of the list, each with the stock it tells of and whether that is left out.
/// A row without a code tells of none.
pub open spec fn taken_in_all(run: BatchView, rows: Seq<(Json, Leftover, bool)>) -> BatchView
    decreases rows.len(),
{
    if rows.len() == 0 {
        run
    } else {
        let before = taken_in_all(run, rows.drop_last());
        let last = rows.last();
        if row_code(last.0).len() > 0 {
            taken_in(before, last.1, last.2)
        } else {
            before
        }
    }
}

proof fn rows_are_counted(run: BatchView, rows: Seq<(Json, Leftover, bool)>)
    ensures
        taken_in_all(run, rows).done + taken_in_all(run, rows).skipped == run.done + run.skipped
            + rows.filter(|t: (Json, Leftover, bool)| row_code(t.0).len() > 0).len(),
        taken_in_all(run, rows).leftover == run.leftover + rows.filter(
            |t: (Json, Leftover, bool)| row_code(t.0).len() > 0 && !t.2,
        ).map_values(|t: (Json, Leftover, bool)| t.1),
    decreases rows.len(),
{
    reveal(Seq::filter);
    if rows.len() > 0 {
        rows_are_counted(run, rows.drop_last());
    }
    assert(taken_in_all(run, rows).leftover =~= run.leftover + rows.filter(
        |t: (Json, Leftover, bool)| row_code(t.0).len() > 0 && !t.2,
    ).map_values(|t: (Json, Leftover, bool)| t.1));
}

/// Of the rows of the list, those with a code are written or left out, each once, and the stocks
/// of those written are asked for, in the order of the list.
pub proof fn every_row_with_a_code_counts(rows: Seq<(Json, Leftover, bool)>)
    ensures
        ({
            let run = taken_in_all(
                BatchView { done: 0, skipped: 0, leftover: Seq::empty() },
                rows,
            );
            &&& run.done + run.skipped == rows.filter(
                |t: (Json, Leftover, bool)| row_code(t.0).len() > 0,
            ).len()
            &&& run.leftover == rows.filter(
                |t: (Json, Leftover, bool)| row_code(t.0).len() > 0 && !t.2,
            ).map_values(|t: (Json, Leftover, bool)| t.1)
        }),
{
    let none = BatchView { done: 0, skipped: 0, leftover: Seq::empty() };
    rows_are_counted(none, rows);
    assert(taken_in_all(none, rows).leftover =~= rows.filter(
        |t: (Json, Leftover, bool)| row_code(t.0).len() > 0 && !t.2,
    ).map_values(|t: (Json, Leftover, bool)| t.1));
}

/// What a stock that was asked for by itself writes: valuation, chances and the attempt; nothing
/// where neither the valuation nor the share came.
pub open spec fn leftover_rows(
    who: Leftover,
    val: Option<Json>,
    pk: Option<Json>,
    chances: Option<Json>,
    crawl_date: Seq<char>,
    secs: int,
) -> Seq<StatementView> {
    (match val {
        Some(v) => seq![valuation_row(who, crawl_date, v)],
        None => Seq::empty(),
    }) + if_there(
        chances is Some || pk is Some,
        diag_prob_row(who, crawl_date, chances, pk),
    ) + seq![
        stats_row(
            who.code@,
            true,
            "ok"@,
            "em"@,
            day_text_of(day_at(secs, CST_OFFSET as int)),
            stamp_text(secs, CST_OFFSET as int, " "@),
        ),
    ]
}

proof fn em_rows_replace(
    item: Json,
    who: Leftover,
    crawl_date: Seq<char>,
    a: Option<Json>,
    b: Option<Json>,
    row: Json,
)
    ensures
        replaces(comment_row(item, crawl_date)),
        replaces(diag_text_row(who, crawl_date, a, b)),
        replaces(diag_prob_row(who, crawl_date, a, b)),
        replaces(participation_row(who, crawl_date, row)),
        replaces(popularity_row(who, crawl_date, a, b)),
        replaces(valuation_row(who, crawl_date, row)),
{
    reveal_strlit(
        "INSERT OR REPLACE INTO em_comment VALUES (?,?,?,?,?,?,?,?,?,?,?,?,?,?,?,?,?,?,?,?)",
    );
    reveal_strlit("INSERT OR REPLACE INTO em_diag_text VALUES (?,?,?,?,?,?)");
    reveal_strlit("INSERT OR REPLACE INTO em_diag_prob VALUES (?,?,?,?,?,?,?,?,?,?,?)");
    reveal_strlit("INSERT OR REPLACE INTO em_participation VALUES (?,?,?,?,?,?,?,?)");
    reveal_strlit("INSERT OR REPLACE INTO em_popularity VALUES (?,?,?,?,?,?,?,?,?,?,?,?)");
    reveal_strlit("INSERT OR REPLACE INTO em_valuation VALUES (?,?,?,?,?,?,?,?,?,?,?,?,?,?)");
}

/// The rows of the reports count as no attempt. A stock that was asked for by itself and came
/// counts as one at it from Eastmoney, and what is on record of other stocks, or of the stock from
/// Baidu, stays as it was.
pub proof fn eastmoney_counts_for_itself(
    rows: Attempts,
    item: Json,
    tables: Tables,
    who: Leftover,
    val: Option<Json>,
    pk: Option<Json>,
    chances: Option<Json>,
    crawl_date: Seq<char>,
    secs: int,
)
    ensures
        counted_all(rows, batch_rows(item, who, tables, crawl_date)) == rows,
        ({
            let key = (who.code@, "em"@);
            let after = counted_all(rows, leftover_rows(who, val, pk, chances, crawl_date, secs));
            &&& after == counted(
                rows,
                stats_row(
                    who.code@,
                    true,
                    "ok"@,
                    "em"@,
                    day_text_of(day_at(secs, CST_OFFSET as int)),
                    stamp_text(secs, CST_OFFSET as int, " "@),
                ),
            )
            &&& after.dom().contains(key)
            &&& forall|other: (Seq<char>, Seq<char>)|
                other != key ==> (#[trigger] after.dom().contains(other) <==> rows.dom().contains(
                    other,
                )) && after[other] == rows[other]
        }),
{
    let batch = batch_rows(item, who, tables, crawl_date);
    assert forall|i: int| 0 <= i < batch.len() implies replaces(#[trigger] batch[i]) by {
        em_rows_replace(
            item,
            who,
            crawl_date,
            latest(tables.diagnosis.report(), who.code@),
            latest(tables.news.report(), who.code@),
            item,
        );
        em_rows_replace(
            item,
            who,
            crawl_date,
            latest(tables.chances.report(), who.code@),
            None,
            match latest(tables.participation.report(), who.code@) {
                Some(p) => p,
                None => item,
            },
        );
        em_rows_replace(
            item,
            who,
            crawl_date,
            latest(tables.ranks.report(), who.code@),
            latest(tables.focus.report(), who.code@),
            item,
        );
    }
    others_count_nothing(rows, batch);
    let day = day_text_of(day_at(secs, CST_OFFSET as int));
    let at = stamp_text(secs, CST_OFFSET as int, " "@);
    let stats = stats_row(who.code@, true, "ok"@, "em"@, day, at);
    let list = leftover_rows(who, val, pk, chances, crawl_date, secs);
    let head = list.drop_last();
    assert(list.last() == stats);
    assert forall|i: int| 0 <= i < head.len() implies replaces(#[trigger] head[i]) by {
        em_rows_replace(
            item,
            who,
            crawl_date,
            chances,
            pk,
            match val {
                Some(v) => v,
                None => item,
            },
        );
    }
    others_count_nothing(rows, head);
    an_attempt_counts_for_its_source_alone(rows, who.code@, true, "ok"@, "em"@, day, at);
}

/// What a stock that was asked for by itself writes: none where it failed, so that it is tried
/// again.
fn leftover_statements(
    who: &Leftover,
    val: &Option<Json>,
    pk: &Option<Json>,
    chances: Option<&Json>,
    crawl_date: &str,
    secs: i64,
) -> (r: Option<Vec<Statement>>)
    requires
        on_clock(secs as int),
    ensures
        r is Some <==> *val is Some || *pk is Some,
        r matches Some(list) ==> statement_views(list@) == leftover_rows(
            *who,
            *val,
            *pk,
            target(chances),
            crawl_date@,
            secs as int,
        ),
{
    if val.is_none() && pk.is_none() {
        return None;
    }
    let mut out: Vec<Statement> = Vec::new();
    assert(statement_views(out@) =~= Seq::empty());
    let valuation = match val {
        Some(v) => Some(insert_valuation(who, crawl_date, v)),
        None => None,
    };
    push_if(&mut out, valuation);
    let ghost first = statement_views(out@);
    assert(first =~= match *val {
        Some(v) => seq![valuation_row(*who, crawl_date@, v)],
        None => Seq::empty(),
    });
    let share = match pk {
        Some(p) => Some(p),
        None => None,
    };
    let row = insert_diag_prob(who, crawl_date, chances, share);
    push_if(&mut out, row);
    let attempt = bump_crawl_stats_source(&who.code, true, "ok", "em", secs);
    push_if(&mut out, Some(attempt));
    Some(out)
}

/// The detail of the problem of a stock for which nothing came.
pub const NOTHING_CAME: &'static str = "估值与打败%均未拿到（网络或接口失败，将自动补抓）";

/// A problem with a stock at Eastmoney.
pub open spec fn em_problem(who: Leftover, kind: Seq<char>, detail: Seq<char>) -> ProblemView {
    problem(kind, who.code@, who.name@, detail, page_links(who.code@, false, true))
}

/// One pass over the stocks that are asked for by themselves: how many came, how many failed,
/// and those that failed.
#[derive(Debug, Clone, PartialEq, Eq)]
pub struct LeftoverPass {
    pub done: usize,
    pub failed: usize,
    pub left: Vec<Leftover>,
}

/// How many stocks came and how many failed, and those that failed.
pub struct PassView {
    pub done: nat,
    pub failed: nat,
    pub left: Seq<Leftover>,
}

impl View for LeftoverPass {
    type V = PassView;

    open spec fn view(&self) -> PassView {
        PassView { done: self.done as nat, failed: self.failed as nat, left: self.left@ }
    }
}

/// A stock that was asked for came, or is kept for the next pass.
pub open spec fn asked(pass: PassView, who: Leftover, came: bool) -> PassView {
    if came {
        PassView { done: pass.done + 1, ..pass }
    } else {
        PassView { failed: pass.failed + 1, left: pass.left.push(who), ..pass }
    }
}

impl LeftoverPass {
    /// Each stock that failed is kept for the next pass.
    pub open spec fn wf(self) -> bool {
        self.failed == self.left@.len()
    }

    pub fn new() -> (r: LeftoverPass)
        ensures
            r.wf(),
            r@ == (PassView { done: 0, failed: 0, left: Seq::empty() }),
    {
        LeftoverPass { done: 0, failed: 0, left: Vec::new() }
    }

    /// Takes in what came of a stock, and gives what to write. A stock of which nothing came is
    /// noted as a problem and kept for the next pass.
    pub fn take(
        &mut self,
        state: &mut AppState,
        who: Leftover,
        val: &Option<Json>,
        pk: &Option<Json>,
        chances: Option<&Json>,
        crawl_date: &str,
        secs: i64,
        stamp: &str,
    ) -> (r: Option<Vec<Statement>>)
        requires
            old(self).wf(),
            old(state).wf(),
            on_clock(secs as int),
            old(self).done < usize::MAX,
            old(self).failed < usize::MAX,
        ensures
            final(self).wf(),
            final(state).wf(),
            final(self)@ == asked(old(self)@, who, *val is Some || *pk is Some),
            *val is None && *pk is None ==> {
                let p = em_problem(who, "抓取失败"@, NOTHING_CAME@);
                &&& r is None
                &&& *final(state) == (AppState {
                    logs: final(state).logs,
                    problems: final(state).problems,
                    ..*old(state)
                })
                &&& adds_problem(final(state).problems@, old(state).problems@, p)
                &&& views(final(state).logs@) == views(old(state).logs@).push(
                    stamped(stamp@, problem_line(p)),
                )
            },
            *val is Some || *pk is Some ==> {
                &&& r matches Some(list)
                &&& statement_views(list@) == leftover_rows(
                    who,
                    *val,
                    *pk,
                    target(chances),
                    crawl_date@,
                    secs as int,
                )
                &&& *final(state) == (AppState {
                    done: final(self).done,
                    failed: final(self).failed,
                    ..*old(state)
                })
            },
    {
        match leftover_statements(&who, val, pk, chances, crawl_date, secs) {
            Some(list) => {
                self.done = self.done + 1;
                state.done = self.done;
                state.failed = self.failed;
                Some(list)
            },
            None => {
                let sources: [&str; 1] = ["em"];
                proof {
                    source_names();
                    one_source_is_named(sources@, "em"@, "baidu"@);
                }
                state.note_problem(
                    stamp,
                    "抓取失败",
                    &who.code,
                    &who.name,
                    NOTHING_CAME,
                    &sources,
                );
                self.failed = self.failed + 1;
                self.left.push(who);
                None
            },
        }
    }
}

/// The pass after stocks, of each of which something came or nothing.
pub open spec fn asked_all(pass: PassView, stocks: Seq<(Leftover, bool)>) -> PassView
    decreases stocks.len(),
{
    if stocks.len() == 0 {
        pass
    } else {
        asked(asked_all(pass, stocks.drop_last()), stocks.last().0, stocks.last().1)
    }
}

proof fn stocks_are_counted(pass: PassView, stocks: Seq<(Leftover, bool)>)
    ensures
        asked_all(pass, stocks).done + asked_all(pass, stocks).failed == pass.done + pass.failed
            + stocks.len(),
        asked_all(pass, stocks).left == pass.left + stocks.filter(
            |t: (Leftover, bool)| !t.1,
        ).map_values(|t: (Leftover, bool)| t.0),
        asked_all(pass, stocks).failed - pass.failed == asked_all(pass, stocks).left.len()
            - pass.left.len(),
    decreases stocks.len(),
{
    reveal(Seq::filter);
    if stocks.len() > 0 {
        stocks_are_counted(pass, stocks.drop_last());
    }
    assert(asked_all(pass, stocks).left =~= pass.left + stocks.filter(
        |t: (Leftover, bool)| !t.1,
    ).map_values(|t: (Leftover, bool)| t.0));
}

/// In a pass each stock came or failed, once, and those left for the next pass are exactly those
/// of which nothing came.
pub proof fn a_pass_leaves_what_did_not_come(stocks: Seq<(Leftover, bool)>)
    ensures
        ({
            let pass = asked_all(PassView { done: 0, failed: 0, left: Seq::empty() }, stocks);
            &&& pass.done + pass.failed == stocks.len()
            &&& pass.failed == pass.left.len()
            &&& pass.left == stocks.filter(|t: (Leftover, bool)| !t.1).map_values(
                |t: (Leftover, bool)| t.0,
            )
        }),
{
    let none = PassView { done: 0, failed: 0, left: Seq::empty() };
    stocks_are_counted(none, stocks);
    assert(asked_all(none, stocks).left =~= stocks.filter(
        |t: (Leftover, bool)| !t.1,
    ).map_values(|t: (Leftover, bool)| t.0));
}

/// Stocks that did not come are asked for in a pass, from pass zero on: while some are left, the
/// user has not stopped the run, and a pass is allowed.
pub open spec fn is_passed(pass: int, stopped: bool, left: int) -> bool {
    pass <= PASS_RETRY && !stopped && left > 0
}

/// Whether to go over the stocks that are left, and the line for the log before it.
pub fn next_pass(pass: usize, stopped: bool, left: usize) -> (r: Option<Option<String>>)
    ensures
        r is Some <==> is_passed(pass as int, stopped, left as int),
        r matches Some(log) ==> text_view(log) == if pass == 0 {
            None
        } else {
            Some(
                "估值/打败% 失败 "@ + decimal(left as nat) + " 只，自动补抓第 "@ + decimal(pass as nat)
                    + " 轮"@,
            )
        },
{
    if pass > PASS_RETRY || stopped || left == 0 {
        return None;
    }
    if pass == 0 {
        return Some(None);
    }
    let mut s = "估值/打败% 失败 ".to_string();
    s.append(&write_usize(left));
    s.append(" 只，自动补抓第 ");
    s.append(&write_usize(pass));
    s.append(" 轮");
    Some(Some(s))
}

/// How many tries a stock has when it is asked for by itself: at least three.
pub fn leftover_tries(max_retries: u32) -> (r: u32)
    ensures
        r == if max_retries < 3 {
            3
        } else {
            max_retries as int
        },
{
    if max_retries < 3 {
        3
    } else {
        max_retries
    }
}

/// What came adds up over the passes; what failed is what the last of them left.
pub open spec fn after_pass(came: nat, done: nat, failed: nat) -> (nat, nat) {
    (came + done, failed)
}

/// The outcome of the passes: stocks that came, over all passes, and those that failed in the
/// last.
#[derive(Debug, Clone, Copy, PartialEq, Eq)]
pub struct PassTally {
    pub val_done: usize,
    pub val_fail: usize,
}

impl PassTally {
    pub fn take_pass(&mut self, done: usize, failed: usize)
        requires
            old(self).val_done + done <= usize::MAX,
        ensures
            (final(self).val_done as nat, final(self).val_fail as nat) == after_pass(
                old(self).val_done as nat,
                done as nat,
                failed as nat,
            ),
    {
        self.val_done = self.val_done + done;
        self.val_fail = failed;
    }
}

/// After a pass over stocks and another over those that it left, what came in either and what
/// still fails add up to the stocks.
pub proof fn two_passes_add_up(first: Seq<(Leftover, bool)>, second: Seq<(Leftover, bool)>)
    requires
        second.map_values(|t: (Leftover, bool)| t.0) == asked_all(
            PassView { done: 0, failed: 0, left: Seq::empty() },
            first,
        ).left,
    ensures
        ({
            let none = PassView { done: 0, failed: 0, left: Seq::empty() };
            let one = asked_all(none, first);
            let two = asked_all(none, second);
            let tally = after_pass(after_pass(0, one.done, one.failed).0, two.done, two.failed);
            tally.0 + tally.1 == first.len()
        }),
{
    a_pass_leaves_what_did_not_come(first);
    a_pass_leaves_what_did_not_come(second);
    assert(second.map_values(|t: (Leftover, bool)| t.0).len() == second.len());
}

// ---------------------------------------------------------------- what the run says

/// What to tell where nothing came: it is not settled that there is nothing.
pub fn em_empty_hint(url: &str) -> (r: String)
    ensures
        r@ == empty_hint(url@),
{
    let mut s = "本次爬取未拿到数据（待人工确认，不是确认无数据）。请打开源站核对：\n  东方财富 · 千股千评列表页: ".to_string();
    s.append(EM_REF);
    s.append("\n  东方财富 · 本次请求接口: ");
    s.append(url);
    s
}

pub open spec fn empty_hint(url: Seq<char>) -> Seq<char> {
    "本次爬取未拿到数据（待人工确认，不是确认无数据）。请打开源站核对：\n  东方财富 · 千股千评列表页: "@
        + EM_REF@ + "\n  东方财富 · 本次请求接口: "@ + url
}

/// The address that is shown where no comments came.
pub open spec fn list_address() -> Seq<char> {
    report_url("RPT_DMSK_TS_STOCKNEW"@, page_params(Seq::empty(), 1))
}

/// The notice where no comments came.
pub fn empty_list_notice() -> (r: ErrorNotice)
    ensures
        r@.kind == kind_of(empty_hint(list_address())),
        r@.code.len() == 0,
        r@.name == "东财批量列表"@,
        r@.detail == empty_hint(list_address()),
        r@.hint == NETWORK_HINT@,
        r@.links == all_links("000001"@, false, true),
{
    let none: Vec<(String, String)> = Vec::new();
    assert(pair_views(none@) =~= Seq::empty());
    let url = page_url("RPT_DMSK_TS_STOCKNEW", &none, 1);
    let detail = em_empty_hint(&url);
    let sources: [&str; 1] = ["em"];
    proof {
        source_names();
        one_source_is_named(sources@, "em"@, "baidu"@);
    }
    let links = source_verify_links("000001", &sources);
    ErrorNotice {
        kind: classify_kind(&detail),
        code: String::new(),
        name: "东财批量列表".to_string(),
        detail,
        hint: network_hint().to_string(),
        links,
    }
}

pub open spec fn market_text(total: nat) -> Seq<char> {
    "全市场 "@ + decimal(total) + " 支。批量拉概率/文字/排名/参与意愿；估值与打败% 仍逐股（"@
        + decimal(LEFTOVER_WORKERS as nat) + " 路）"@
}

pub open spec fn day_line(day: Seq<char>) -> Seq<char> {
    "东财数据日 "@ + day + "，按该日过滤历史表"@
}

/// The line before the reports.
pub fn market_line(total: usize) -> (r: String)
    ensures
        r@ == market_text(total as nat),
{
    let mut s = "全市场 ".to_string();
    s.append(&write_usize(total));
    s.append(" 支。批量拉概率/文字/排名/参与意愿；估值与打败% 仍逐股（");
    s.append(&write_usize(LEFTOVER_WORKERS));
    s.append(" 路）");
    s
}

/// The line with the day of the data.
pub fn data_day_line(day: &str) -> (r: String)
    ensures
        r@ == day_line(day@),
{
    let mut s = "东财数据日 ".to_string();
    s.append(day);
    s.append("，按该日过滤历史表");
    s
}

/// The line after every five hundred stocks of the list, by the count so far; none at any other.
pub fn batch_line(count: usize, total: usize, elapsed: &str) -> (r: Option<String>)
    ensures
        text_view(r) == if count % 500 == 0 {
            Some(
                "批量落库 "@ + decimal(count as nat) + "/"@ + decimal(total as nat) + " 用时 "@
                    + elapsed@ + "s"@,
            )
        } else {
            None
        },
{
    if count % 500 != 0 {
        return None;
    }
    let mut s = "批量落库 ".to_string();
    s.append(&write_usize(count));
    s.append("/");
    s.append(&write_usize(total));
    s.append(" 用时 ");
    s.append(elapsed);
    s.append("s");
    Some(s)
}

/// What the status line says while stocks are asked for one by one.
pub fn leftover_status(left: usize) -> (r: String)
    ensures
        r@ == leftover_text(left as nat),
{
    let mut s = "东财逐股估值 ".to_string();
    s.append(&write_usize(left));
    s.append(" 只、");
    s.append(&write_usize(LEFTOVER_WORKERS));
    s.append(" 路");
    s
}

/// The line between the reports and the stocks.
pub fn batch_done_line(left: usize) -> (r: String)
    ensures
        r@ == "批量落库完成：评论/文字/概率/排名已写入。开始 "@ + decimal(LEFTOVER_WORKERS as nat)
            + " 路补估值与打败%，待抓 "@ + decimal(left as nat),
{
    let mut s = "批量落库完成：评论/文字/概率/排名已写入。开始 ".to_string();
    s.append(&write_usize(LEFTOVER_WORKERS));
    s.append(" 路补估值与打败%，待抓 ");
    s.append(&write_usize(left));
    s
}

/// The status at the end.
pub fn final_status(stopped: bool) -> (r: CrawlStatus)
    ensures
        r == if stopped {
            CrawlStatus::Stopped
        } else {
            CrawlStatus::Done
        },
{
    if stopped {
        CrawlStatus::Stopped
    } else {
        CrawlStatus::Done
    }
}

/// What the status line says at the end.
pub fn final_message(done: usize, skipped: usize, tally: &PassTally) -> (r: String)
    ensures
        r@ == final_text(done as nat, skipped as nat, *tally),
{
    let mut s = "东财完成: 批量".to_string();
    s.append(&write_usize(done));
    s.append(" 跳过");
    s.append(&write_usize(skipped));
    s.append(" 估值成功");
    s.append(&write_usize(tally.val_done));
    s.append(" 仍失败");
    s.append(&write_usize(tally.val_fail));
    s
}

/// The last line of the run.
pub fn final_line(
    done: usize,
    skipped: usize,
    tally: &PassTally,
    elapsed: &str,
    log_path: &str,
) -> (r: String)
    ensures
        r@ == "东财结束 批量"@ + decimal(done as nat) + " 跳过"@ + decimal(skipped as nat)
            + " 估值成功"@ + decimal(tally.val_done as nat) + " 仍失败"@ + decimal(
            tally.val_fail as nat,
        ) + " 用时 "@ + elapsed@ + "s。失败的下次点「继续」会重爬。完整日志: "@ + log_path@,
{
    let mut s = "东财结束 批量".to_string();
    s.append(&write_usize(done));
    s.append(" 跳过");
    s.append(&write_usize(skipped));
    s.append(" 估值成功");
    s.append(&write_usize(tally.val_done));
    s.append(" 仍失败");
    s.append(&write_usize(tally.val_fail));
    s.append(" 用时 ");
    s.append(elapsed);
    s.append("s。失败的下次点「继续」会重爬。完整日志: ");
    s.append(log_path);
    s
}

// ---------------------------------------------------------------- what the run shows

pub open spec fn leftover_text(left: nat) -> Seq<char> {
    "东财逐股估值 "@ + decimal(left) + " 只、"@ + decimal(LEFTOVER_WORKERS as nat) + " 路"@
}

pub open spec fn final_text(done: nat, skipped: nat, tally: PassTally) -> Seq<char> {
    "东财完成: 批量"@ + decimal(done) + " 跳过"@ + decimal(skipped) + " 估值成功"@ + decimal(
        tally.val_done as nat,
    ) + " 仍失败"@ + decimal(tally.val_fail as nat)
}

/// No request can be made at all.
pub fn on_no_client(state: &mut AppState, error: &str)
    ensures
        final(state).stands_at(*old(state), CrawlStatus::Error, error@),
{
    state.enter(CrawlStatus::Error, error.to_string());
}

/// The reports are written: what is left is asked for stock by stock.
pub fn on_batch_written(state: &mut AppState, run: &BatchRun)
    requires
        run.leftover@.len() + run.skipped <= usize::MAX,
    ensures
        *final(state) == (AppState {
            done: run.done,
            skipped: run.skipped,
            total: (run.leftover@.len() + run.skipped) as usize,
            status_msg: final(state).status_msg,
            ..*old(state)
        }),
        final(state).status_msg@ == leftover_text(run.leftover@.len()),
{
    state.done = run.done;
    state.skipped = run.skipped;
    state.total = run.leftover.len() + run.skipped;
    state.status_msg = leftover_status(run.leftover.len());
}

/// A stock is asked for.
pub fn on_leftover_begun(state: &mut AppState, who: &Leftover)
    ensures
        *final(state) == (AppState {
            current_code: final(state).current_code,
            current_name: final(state).current_name,
            current_endpoint: final(state).current_endpoint,
            ..*old(state)
        }),
        final(state).current_code@ == who.code@,
        final(state).current_name@ == who.name@,
        final(state).current_endpoint@ == "东财估值/打败%"@,
{
    state.show_stock(&who.code, &who.name);
    state.show_endpoint("东财估值/打败%".to_string());
}

/// All passes are over.
pub fn on_passes_over(
    state: &mut AppState,
    done: usize,
    skipped: usize,
    tally: &PassTally,
    stopped: bool,
)
    ensures
        *final(state) == (AppState {
            done,
            skipped,
            failed: tally.val_fail,
            status: if stopped {
                CrawlStatus::Stopped
            } else {
                CrawlStatus::Done
            },
            status_msg: final(state).status_msg,
            ..*old(state)
        }),
        final(state).status_msg@ == final_text(done as nat, skipped as nat, *tally),
{
    state.done = done;
    state.skipped = skipped;
    state.failed = tally.val_fail;
    state.enter(final_status(stopped), final_message(done, skipped, tally));
}

/// The stocks are asked for once, and those that did not come once more; none after a stop, and
/// none where all came.
pub proof fn there_are_two_passes(pass: int, stopped: bool, left: int)
    requires
        pass >= 0,
        left >= 0,
    ensures
        is_passed(0, false, left) <==> left > 0,
        is_passed(1, false, left) <==> left > 0,
        pass >= 2 ==> !is_passed(pass, stopped, left),
        stopped || left == 0 ==> !is_passed(pass, stopped, left),
{
}

} // verus!
