//! What the window says of a run, and what the probe at the start finds.

use vstd::prelude::*;

use crate::state::{CrawlStatus, ErrorNotice, ProblemItem, ProblemView};
use crate::text::{decimal, join, joined, views, write_u64, write_usize};
use crate::verify::{
    all_links, baidu_analysis_api_url, em_list_page_url, link_views, names, network_hint,
    one_source_is_named, source_names, source_verify_links, LinkView, NETWORK_HINT, VerifyLink,
};

verus! {

// ---------------------------------------------------------------- counts and words

/// How many stocks are through.
pub fn processed(done: usize, skipped: usize, failed: usize) -> (r: usize)
    requires
        done + skipped + failed <= usize::MAX,
    ensures
        r == done + skipped + failed,
{
    done + skipped + failed
}

/// How many stocks are left: none where the database has more than the list.
pub fn remaining(total_codes: usize, existing: usize) -> (r: usize)
    ensures
        r == if total_codes > existing {
            total_codes - existing
        } else {
            0
        },
{
    if total_codes > existing {
        total_codes - existing
    } else {
        0
    }
}

/// Whether a run is under way, or waits for an answer.
pub fn is_busy(status: CrawlStatus) -> (r: bool)
    ensures
        r == (status == CrawlStatus::Running || status == CrawlStatus::Cooling || status
            == CrawlStatus::NeedConfirm),
{
    status == CrawlStatus::Running || status == CrawlStatus::Cooling || status
        == CrawlStatus::NeedConfirm
}

/// Whether a failure waits for an answer.
pub fn is_awaiting(pending: bool, status: CrawlStatus) -> (r: bool)
    ensures
        r == (pending || status == CrawlStatus::NeedConfirm),
{
    pending || status == CrawlStatus::NeedConfirm
}

/// What stands on the button that starts a run.
pub fn start_label(awaiting: bool, busy: bool) -> (r: &'static str)
    ensures
        r@ == if awaiting {
            "请先确认弹窗"@
        } else if busy {
            "抓取进行中…"@
        } else {
            "开始抓取"@
        },
{
    if awaiting {
        "请先确认弹窗"
    } else if busy {
        "抓取进行中…"
    } else {
        "开始抓取"
    }
}

/// How a status is shown.
pub fn status_text(status: CrawlStatus) -> (r: &'static str)
    ensures
        r@ == match status {
            CrawlStatus::Idle => "空闲"@,
            CrawlStatus::Running => "运行中"@,
            CrawlStatus::Cooling => "冷却中"@,
            CrawlStatus::NeedConfirm => "待确认"@,
            CrawlStatus::Done => "已完成"@,
            CrawlStatus::Stopped => "已停止"@,
            CrawlStatus::Error => "错误"@,
        },
{
    match status {
        CrawlStatus::Idle => "空闲",
        CrawlStatus::Running => "运行中",
        CrawlStatus::Cooling => "冷却中",
        CrawlStatus::NeedConfirm => "待确认",
        CrawlStatus::Done => "已完成",
        CrawlStatus::Stopped => "已停止",
        CrawlStatus::Error => "错误",
    }
}

/// What a run is going to do.
pub fn resume_hint(existing: usize, resume: bool, remain: usize) -> (r: String)
    ensures
        r@ == if existing == 0 {
            "该交易日暂无数据，将全量抓取"@
        } else if resume {
            "将接着爬剩余 "@ + decimal(remain as nat) + " 支"@
        } else {
            "将从头全量覆盖"@
        },
{
    if existing == 0 {
        return "该交易日暂无数据，将全量抓取".to_string();
    }
    if resume {
        let mut s = "将接着爬剩余 ".to_string();
        s.append(&write_usize(remain));
        s.append(" 支");
        s
    } else {
        "将从头全量覆盖".to_string()
    }
}

/// How many lines of the log are shown at most.
pub const SHOWN_LINES: usize = 4000;

/// The lines of the log that are shown: the last ones.
pub fn shown_lines(logs: &Vec<String>) -> (r: Vec<String>)
    ensures
        r@ == if logs@.len() > SHOWN_LINES {
            logs@.subrange(logs@.len() - SHOWN_LINES, logs@.len() as int)
        } else {
            logs@
        },
{
    let n: usize = logs.len();
    let from: usize = if n > SHOWN_LINES {
        n - SHOWN_LINES
    } else {
        0
    };
    let mut out: Vec<String> = Vec::new();
    let mut i: usize = from;
    assert(out@ =~= logs@.subrange(from as int, from as int));
    while i < n
        invariant
            from <= i <= n,
            n == logs@.len(),
            out@ == logs@.subrange(from as int, i as int),
        decreases n - i,
    {
        out.push(logs[i].clone());
        i += 1;
        assert(out@ =~= logs@.subrange(from as int, i as int));
    }
    assert(from == 0 ==> logs@.subrange(0, n as int) =~= logs@);
    out
}

/// How a way of connecting is called.
pub fn net_mode_name(mode: usize) -> (r: &'static str)
    ensures
        r@ == if mode == 1 {
            "强制直连"@
        } else if mode == 2 {
            "走系统代理"@
        } else {
            "自动(代理死了就直连)"@
        },
{
    if mode == 1 {
        "强制直连"
    } else if mode == 2 {
        "走系统代理"
    } else {
        "自动(代理死了就直连)"
    }
}

// ---------------------------------------------------------------- problems

/// A problem in the exported list.
pub open spec fn problem_text(p: ProblemView) -> Seq<char> {
    "["@ + p.kind + "] "@ + p.code + " "@ + p.name + " — "@ + p.detail + "\n"@ + p.page_url
        + "\n\n"@
}

pub open spec fn problems_text(list: Seq<ProblemView>) -> Seq<char>
    decreases list.len(),
{
    if list.len() == 0 {
        Seq::empty()
    } else {
        problems_text(list.drop_last()) + problem_text(list.last())
    }
}

pub open spec fn problem_views(list: Seq<ProblemItem>) -> Seq<ProblemView> {
    list.map_values(|p: ProblemItem| p@)
}

/// The list of problems with their pages, as a text to keep.
pub fn problem_links_text(problems: &Vec<ProblemItem>) -> (r: String)
    ensures
        r@ == "# 失败或不完整 — 网页链接（不是接口）\n\n"@ + problems_text(problem_views(problems@)),
{
    let mut s = "# 失败或不完整 — 网页链接（不是接口）\n\n".to_string();
    let ghost head = s@;
    let ghost all = problem_views(problems@);
    let mut i: usize = 0;
    assert(s@ =~= head + problems_text(all.take(0)));
    while i < problems.len()
        invariant
            i <= problems@.len(),
            all == problem_views(problems@),
            s@ == head + problems_text(all.take(i as int)),
        decreases problems@.len() - i,
    {
        let ghost before = s@;
        s.append("[");
        s.append(&problems[i].kind);
        s.append("] ");
        s.append(&problems[i].code);
        s.append(" ");
        s.append(&problems[i].name);
        s.append(" — ");
        s.append(&problems[i].detail);
        s.append("\n");
        s.append(&problems[i].page_url);
        s.append("\n\n");
        assert(all.take(i + 1).drop_last() =~= all.take(i as int));
        assert(all.take(i + 1).last() == problems@[i as int]@);
        assert(s@ =~= before + problem_text(all[i as int]));
        assert(s@ =~= head + (problems_text(all.take(i as int)) + problem_text(all[i as int])));
        i += 1;
    }
    assert(all.take(i as int) =~= all);
    s
}

// ---------------------------------------------------------------- the probe at the start

/// What the probe asks for.
#[derive(Debug, Clone, Copy, PartialEq, Eq)]
pub enum Probe {
    BaiduHome,
    BaiduAnalysis,
    EmComments,
}

pub open spec fn probe_label(p: Probe) -> Seq<char> {
    match p {
        Probe::BaiduHome => "百度财经首页"@,
        Probe::BaiduAnalysis => "百度分析接口"@,
        Probe::EmComments => "东财千股千评"@,
    }
}

pub open spec fn probe_address(p: Probe) -> Seq<char> {
    match p {
        Probe::BaiduHome => "https://finance.baidu.com/"@,
        Probe::BaiduAnalysis => crate::verify::analysis_request("000001"@),
        Probe::EmComments => "https://data.eastmoney.com/stockcomment/"@,
    }
}

/// The links to check a probe by.
pub open spec fn probe_links(p: Probe) -> Seq<LinkView> {
    match p {
        Probe::EmComments => all_links("000001"@, false, true),
        _ => all_links("000001"@, true, false),
    }
}

/// What is asked for, in words.
pub fn probe_name(p: Probe) -> (r: &'static str)
    ensures
        r@ == probe_label(p),
{
    match p {
        Probe::BaiduHome => "百度财经首页",
        Probe::BaiduAnalysis => "百度分析接口",
        Probe::EmComments => "东财千股千评",
    }
}

/// The address that is asked for.
pub fn probe_url(p: Probe) -> (r: String)
    ensures
        r@ == probe_address(p),
{
    match p {
        Probe::BaiduHome => "https://finance.baidu.com/".to_string(),
        Probe::BaiduAnalysis => baidu_analysis_api_url("000001"),
        Probe::EmComments => em_list_page_url(),
    }
}

fn links_of_probe(p: Probe) -> (r: Vec<VerifyLink>)
    ensures
        link_views(r@) == probe_links(p),
{
    proof {
        source_names();
    }
    match p {
        Probe::EmComments => {
            let sources: [&str; 1] = ["em"];
            proof {
                one_source_is_named(sources@, "em"@, "baidu"@);
            }
            source_verify_links("000001", &sources)
        },
        _ => {
            let sources: [&str; 1] = ["baidu"];
            proof {
                one_source_is_named(sources@, "baidu"@, "em"@);
            }
            source_verify_links("000001", &sources)
        },
    }
}

/// What came of a probe: the status of the reply, or the message where there was none.
#[derive(Debug, Clone, PartialEq, Eq)]
pub enum Reached {
    Status(u16),
    Nothing(String),
}

/// A probe failed where there was no reply, or the server failed. A reply that turns the visitor
/// away shows that the server was reached.
pub open spec fn probe_failed(outcome: Reached) -> bool {
    match outcome {
        Reached::Status(status) => status >= 500 || status == 0,
        Reached::Nothing(_) => true,
    }
}

/// What is said of a probe that failed. `hint` tells how the connection was made.
pub open spec fn failure_text(p: Probe, outcome: Reached, hint: Seq<char>) -> Seq<char> {
    match outcome {
        Reached::Status(status) => probe_label(p) + " HTTP "@ + decimal(status as nat) + "\n"@
            + probe_address(p),
        Reached::Nothing(message) => probe_label(p) + " 网络错误: "@ + message@ + hint,
    }
}

/// The failures of the probe so far, and the links to check them by.
#[derive(Debug, Clone, PartialEq, Eq)]
pub struct ProbeReport {
    pub fails: Vec<String>,
    pub links: Vec<VerifyLink>,
}

impl ProbeReport {
    pub fn new() -> (r: ProbeReport)
        ensures
            r.fails@.len() == 0,
            r.links@.len() == 0,
    {
        ProbeReport { fails: Vec::new(), links: Vec::new() }
    }

    /// Takes in what came of a probe.
    pub fn take(&mut self, p: Probe, outcome: &Reached, hint: &str)
        ensures
            probe_failed(*outcome) ==> {
                &&& views(final(self).fails@) == views(old(self).fails@).push(
                    failure_text(p, *outcome, hint@),
                )
                &&& link_views(final(self).links@) == link_views(old(self).links@) + probe_links(p)
            },
            !probe_failed(*outcome) ==> *final(self) == *old(self),
    {
        let text = match outcome {
            Reached::Status(status) => {
                if !(*status >= 500 || *status == 0) {
                    return;
                }
                let mut s = probe_name(p).to_string();
                s.append(" HTTP ");
                s.append(&write_u64(*status as u64));
                s.append("\n");
                s.append(&probe_url(p));
                s
            },
            Reached::Nothing(message) => {
                let mut s = probe_name(p).to_string();
                s.append(" 网络错误: ");
                s.append(message);
                s.append(hint);
                s
            },
        };
        let ghost added = text@;
        self.fails.push(text);
        assert(views(self.fails@) =~= views(old(self).fails@).push(added));
        let mut links = links_of_probe(p);
        let ghost more = link_views(links@);
        self.links.append(&mut links);
        assert(link_views(self.links@) =~= link_views(old(self).links@) + more);
    }

    /// The notice where a probe failed.
    pub fn notice(self) -> (r: Option<ErrorNotice>)
        ensures
            self.fails@.len() == 0 ==> r is None,
            self.fails@.len() > 0 ==> {
                &&& r matches Some(n)
                &&& n@.kind == "网络错误"@
                &&& n@.code.len() == 0
                &&& n@.name == "启动探测"@
                &&& n@.detail == joined(views(self.fails@), "\n\n"@)
                &&& n@.hint == NETWORK_HINT@
                &&& n@.links == link_views(self.links@)
            },
    {
        if self.fails.len() == 0 {
            return None;
        }
        Some(
            ErrorNotice {
                kind: "网络错误".to_string(),
                code: String::new(),
                name: "启动探测".to_string(),
                detail: join(&self.fails, "\n\n"),
                hint: network_hint().to_string(),
                links: self.links,
            },
        )
    }
}

/// The notice where no request can be made at all.
pub fn no_client_notice(error: &str) -> (r: ErrorNotice)
    ensures
        r@.kind == "网络错误"@,
        r@.code.len() == 0,
        r@.name == "启动探测"@,
        r@.detail == "HTTP 客户端创建失败: "@ + error@,
        r@.hint == NETWORK_HINT@,
        r@.links == all_links("000001"@, true, true),
{
    let mut detail = "HTTP 客户端创建失败: ".to_string();
    detail.append(error);
    let sources: [&str; 2] = ["baidu", "em"];
    proof {
        source_names();
        assert(crate::text::lower(sources@[0]@) == "baidu"@);
        assert(crate::text::lower(sources@[1]@) == "em"@);
        assert(names(sources@, "baidu"@) && names(sources@, "em"@));
    }
    ErrorNotice {
        kind: "网络错误".to_string(),
        code: String::new(),
        name: "启动探测".to_string(),
        detail,
        hint: network_hint().to_string(),
        links: source_verify_links("000001", &sources),
    }
}

/// A server that was reached, even one that turns the visitor away, is no failure of the network;
/// one that fails itself, or does not answer, is.
pub proof fn a_refusal_shows_the_server(status: u16, message: String)
    ensures
        1 <= status < 500 ==> !probe_failed(Reached::Status(status)),
        status >= 500 ==> probe_failed(Reached::Status(status)),
        probe_failed(Reached::Status(0)),
        probe_failed(Reached::Nothing(message)),
{
}

/// What a probe asks for lies at the source that it is called after, and so do its links; a failure
/// tells the probe, and the status and the address, or the message.
pub proof fn a_probe_asks_its_source(status: u16, message: String, hint: Seq<char>, p: Probe)
    ensures
        probe_label(Probe::BaiduHome) == "百度财经首页"@ && probe_address(Probe::BaiduHome)
            == "https://finance.baidu.com/"@,
        probe_label(Probe::BaiduAnalysis) == "百度分析接口"@ && probe_address(Probe::BaiduAnalysis)
            == crate::http::request_address(crate::http::Endpoint::Analysis, "000001"@),
        probe_label(Probe::EmComments) == "东财千股千评"@ && probe_address(Probe::EmComments)
            == "https://data.eastmoney.com/stockcomment/"@,
        probe_links(Probe::BaiduHome) == probe_links(Probe::BaiduAnalysis),
        forall|i: int|
            0 <= i < probe_links(Probe::BaiduHome).len() ==> (#[trigger] probe_links(
                Probe::BaiduHome,
            )[i]).source == "百度财经"@,
        forall|i: int|
            0 <= i < probe_links(Probe::EmComments).len() ==> (#[trigger] probe_links(
                Probe::EmComments,
            )[i]).source == "东方财富"@,
        failure_text(p, Reached::Status(status), hint) == probe_label(p) + " HTTP "@ + decimal(
            status as nat,
        ) + "\n"@ + probe_address(p),
        failure_text(p, Reached::Nothing(message), hint) == probe_label(p) + " 网络错误: "@ + message@
            + hint,
{
    crate::verify::links_lead_to_the_stock("000001"@);
}

} // verus!
