//! Links by which a reader checks a source. Data that did not come is not data that the source
//! does not have, so every failure is shown with the pages to look at.

use vstd::prelude::*;

use crate::http::{request_address, request_origin, Endpoint};
use crate::text::{contains, holds, lower, same, stands_at, to_lower};

verus! {

/// A link to a source: a `page` to look at, or a `request` as it was made.
#[derive(Debug, Clone, PartialEq, Eq)]
pub struct VerifyLink {
    pub source: String,
    pub kind: String,
    pub label: String,
    pub url: String,
}

/// A link by its texts.
pub struct LinkView {
    pub source: Seq<char>,
    pub kind: Seq<char>,
    pub label: Seq<char>,
    pub url: Seq<char>,
}

impl View for VerifyLink {
    type V = LinkView;

    open spec fn view(&self) -> LinkView {
        LinkView {
            source: self.source@,
            kind: self.kind@,
            label: self.label@,
            url: self.url@,
        }
    }
}

pub open spec fn link_views(list: Seq<VerifyLink>) -> Seq<LinkView> {
    list.map_values(|l: VerifyLink| l@)
}

pub open spec fn ai_page(code: Seq<char>) -> Seq<char> {
    "https://finance.baidu.com/ai-tech-analysi/stock/ab-"@ + code
}

pub open spec fn stock_page(code: Seq<char>) -> Seq<char> {
    "https://finance.baidu.com/stock/ab-"@ + code
}

pub open spec fn analysis_request(code: Seq<char>) -> Seq<char> {
    "https://finance.pae.baidu.com/vapi/v1/analysis?code="@ + code
        + "&market=ab&financeType=stock"@
}

pub open spec fn comment_page(code: Seq<char>) -> Seq<char> {
    "https://data.eastmoney.com/stockcomment/stock/"@ + code + ".html"@
}

/// The Baidu page with the analysis of a stock.
pub fn baidu_ai_page_url(code: &str) -> (r: String)
    ensures
        r@ == ai_page(code@),
{
    let mut s = "https://finance.baidu.com/ai-tech-analysi/stock/ab-".to_string();
    s.append(code);
    s
}

/// The Baidu page of a stock.
pub fn baidu_stock_page_url(code: &str) -> (r: String)
    ensures
        r@ == stock_page(code@),
{
    let mut s = "https://finance.baidu.com/stock/ab-".to_string();
    s.append(code);
    s
}

/// The request for the scores of a stock.
pub fn baidu_analysis_api_url(code: &str) -> (r: String)
    ensures
        r@ == analysis_request(code@),
{
    let mut s = "https://finance.pae.baidu.com/vapi/v1/analysis?code=".to_string();
    s.append(code);
    s.append("&market=ab&financeType=stock");
    s
}

/// The Eastmoney page with the comments on a stock.
pub fn em_stock_page_url(code: &str) -> (r: String)
    ensures
        r@ == comment_page(code@),
{
    let mut s = "https://data.eastmoney.com/stockcomment/stock/".to_string();
    s.append(code);
    s.append(".html");
    s
}

/// The Eastmoney page with the comments on all stocks.
pub fn em_list_page_url() -> (r: String)
    ensures
        r@ == "https://data.eastmoney.com/stockcomment/"@,
{
    "https://data.eastmoney.com/stockcomment/".to_string()
}

/// A source is among those named, whatever their case.
pub open spec fn names(sources: Seq<&str>, source: Seq<char>) -> bool {
    exists|i: int| 0 <= i < sources.len() && lower(#[trigger] sources[i]@) == source
}

/// A list of one source names that source and no other.
pub proof fn one_source_is_named(sources: Seq<&str>, source: Seq<char>, other: Seq<char>)
    requires
        sources.len() == 1,
        sources[0]@ == source,
        lower(source) == source,
        source != other,
    ensures
        names(sources, source),
        !names(sources, other),
{
    assert(lower(sources[0]@) == source);
}

/// The two names are in lower case, and are not the same.
pub proof fn source_names()
    ensures
        lower("baidu"@) == "baidu"@,
        lower("em"@) == "em"@,
        "baidu"@ != "em"@,
{
    reveal_strlit("em");
    reveal_strlit("baidu");
    assert("em"@.len() != "baidu"@.len());
    assert(lower("em"@) =~= "em"@);
    assert(lower("baidu"@) =~= "baidu"@);
}

fn name_source(sources: &[&str], source: &str) -> (r: bool)
    ensures
        r == names(sources@, source@),
{
    let mut i: usize = 0;
    while i < sources.len()
        invariant
            i <= sources@.len(),
            forall|j: int| 0 <= j < i ==> lower(#[trigger] sources@[j]@) != source@,
        decreases sources@.len() - i,
    {
        if same(&to_lower(sources[i]), source) {
            return true;
        }
        i += 1;
    }
    false
}

pub open spec fn link(
    source: Seq<char>,
    kind: Seq<char>,
    label: Seq<char>,
    url: Seq<char>,
) -> LinkView {
    LinkView { source, kind, label, url }
}

pub open spec fn baidu_pages(code: Seq<char>) -> Seq<LinkView> {
    seq![
        link("百度财经"@, "page"@, "AI分析页"@, ai_page(code)),
        link("百度财经"@, "page"@, "个股页"@, stock_page(code)),
    ]
}

pub open spec fn baidu_requests(code: Seq<char>) -> Seq<LinkView> {
    seq![link("百度财经"@, "request"@, "五维评分接口"@, analysis_request(code))]
}

pub open spec fn em_pages(code: Seq<char>) -> Seq<LinkView> {
    seq![
        link("东方财富"@, "page"@, "千股千评个股页"@, comment_page(code)),
        link(
            "东方财富"@,
            "page"@,
            "千股千评列表页"@,
            "https://data.eastmoney.com/stockcomment/"@,
        ),
    ]
}

pub open spec fn if_named<A>(there: bool, list: Seq<A>) -> Seq<A> {
    if there {
        list
    } else {
        Seq::empty()
    }
}

/// The links of the named sources, Baidu before Eastmoney.
pub open spec fn all_links(code: Seq<char>, baidu: bool, em: bool) -> Seq<LinkView> {
    if_named(baidu, baidu_pages(code) + baidu_requests(code)) + if_named(em, em_pages(code))
}

/// The pages of the named sources, Baidu before Eastmoney.
pub open spec fn page_links(code: Seq<char>, baidu: bool, em: bool) -> Seq<LinkView> {
    if_named(baidu, baidu_pages(code)) + if_named(em, em_pages(code))
}

fn make_link(source: &str, kind: &str, label: &str, url: String) -> (r: VerifyLink)
    ensures
        r@ == link(source@, kind@, label@, url@),
{
    VerifyLink {
        source: source.to_string(),
        kind: kind.to_string(),
        label: label.to_string(),
        url,
    }
}

fn push_baidu_pages(out: &mut Vec<VerifyLink>, code: &str)
    ensures
        link_views(final(out)@) == link_views(old(out)@) + baidu_pages(code@),
{
    out.push(make_link("百度财经", "page", "AI分析页", baidu_ai_page_url(code)));
    out.push(make_link("百度财经", "page", "个股页", baidu_stock_page_url(code)));
    assert(link_views(out@) =~= link_views(old(out)@) + baidu_pages(code@));
}

fn push_em_pages(out: &mut Vec<VerifyLink>, code: &str)
    ensures
        link_views(final(out)@) == link_views(old(out)@) + em_pages(code@),
{
    out.push(make_link("东方财富", "page", "千股千评个股页", em_stock_page_url(code)));
    out.push(make_link("东方财富", "page", "千股千评列表页", em_list_page_url()));
    assert(link_views(out@) =~= link_views(old(out)@) + em_pages(code@));
}

/// The links of the named sources for a stock. The names `baidu` and `em` count in any case of
/// their letters; lower case is taken of ASCII letters, and no other letter becomes one of
/// theirs alone.
pub fn source_verify_links(code: &str, sources: &[&str]) -> (r: Vec<VerifyLink>)
    ensures
        link_views(r@) == all_links(code@, names(sources@, "baidu"@), names(sources@, "em"@)),
{
    let mut out: Vec<VerifyLink> = Vec::new();
    assert(link_views(out@) =~= Seq::empty());
    let baidu = name_source(sources, "baidu");
    let em = name_source(sources, "em");
    if baidu {
        push_baidu_pages(&mut out, code);
        let ghost before = link_views(out@);
        let request = make_link(
            "百度财经",
            "request",
            "五维评分接口",
            baidu_analysis_api_url(code),
        );
        out.push(request);
        assert(link_views(out@) =~= before + baidu_requests(code@));
    }
    if em {
        push_em_pages(&mut out, code);
    }
    assert(link_views(out@) =~= all_links(code@, baidu, em));
    out
}

/// The pages of the named sources for a stock.
pub fn page_links_for_stock(code: &str, sources: &[&str]) -> (r: Vec<VerifyLink>)
    ensures
        link_views(r@) == page_links(code@, names(sources@, "baidu"@), names(sources@, "em"@)),
{
    let mut out: Vec<VerifyLink> = Vec::new();
    assert(link_views(out@) =~= Seq::empty());
    let baidu = name_source(sources, "baidu");
    let em = name_source(sources, "em");
    if baidu {
        push_baidu_pages(&mut out, code);
    }
    if em {
        push_em_pages(&mut out, code);
    }
    assert(link_views(out@) =~= page_links(code@, baidu, em));
    out
}

/// The links of a stock that are pages are its page links, in the same order.
pub proof fn page_links_are_the_pages(code: Seq<char>, baidu: bool, em: bool)
    ensures
        page_links(code, baidu, em) == all_links(code, baidu, em).filter(
            |l: LinkView| l.kind == "page"@,
        ),
{
    reveal_strlit("page");
    reveal_strlit("request");
    let is_page = |l: LinkView| l.kind == "page"@;
    assert("page"@.len() != "request"@.len());
    let all = all_links(code, baidu, em);
    reveal_with_fuel(Seq::filter, 6);
    if baidu && em {
        assert(all.drop_last() =~= (baidu_pages(code) + baidu_requests(code)).push(
            em_pages(code)[0],
        ));
        assert(all.drop_last().drop_last() =~= baidu_pages(code) + baidu_requests(code));
        assert(all.drop_last().drop_last().drop_last() =~= baidu_pages(code));
        assert(all.drop_last().drop_last().drop_last().drop_last() =~= seq![baidu_pages(code)[0]]);
        assert(all.drop_last().drop_last().drop_last().drop_last().drop_last() =~= Seq::empty());
    } else if baidu {
        assert(all =~= baidu_pages(code) + baidu_requests(code));
        assert(all.drop_last() =~= baidu_pages(code));
        assert(all.drop_last().drop_last() =~= seq![baidu_pages(code)[0]]);
        assert(all.drop_last().drop_last().drop_last() =~= Seq::empty());
    } else if em {
        assert(all =~= em_pages(code));
        assert(all.drop_last() =~= seq![em_pages(code)[0]]);
        assert(all.drop_last().drop_last() =~= Seq::empty());
    }
    assert(page_links(code, baidu, em) =~= all.filter(is_page));
}

// ---------------------------------------------------------------- kinds of failures

pub open spec fn tells_network(d: Seq<char>) -> bool {
    ||| holds(d, "网络错误"@)
    ||| holds(lower(d), "dns"@)
    ||| holds(lower(d), "timed out"@)
    ||| holds(lower(d), "timeout"@)
    ||| holds(lower(d), "connect"@)
    ||| holds(lower(d), "connection"@)
    ||| holds(lower(d), "proxy"@)
    ||| holds(lower(d), "tls"@)
    ||| holds(lower(d), "ssl"@)
    ||| holds(lower(d), "certificate"@)
    ||| holds(lower(d), "证书"@)
}

pub open spec fn tells_block(d: Seq<char>) -> bool {
    ||| holds(d, "403"@)
    ||| holds(lower(d), "challenge"@)
    ||| holds(lower(d), "forbidden"@)
    ||| holds(d, "验证页"@)
}

/// The kind of a failure: the first in this order whose words are in its detail.
pub open spec fn kind_of(d: Seq<char>) -> Seq<char> {
    if tells_network(d) {
        "网络错误"@
    } else if tells_block(d) {
        "反爬拦截"@
    } else if holds(d, "未拿到"@) || holds(d, "空壳"@) {
        "未拿到数据"@
    } else if holds(d, "完整性"@) || (holds(d, "缺"@) && holds(d, "项"@)) {
        "数据不完整"@
    } else if holds(d, "JSON"@) || holds(d, "解析"@) {
        "解析失败"@
    } else if holds(d, "HTTP"@) {
        "HTTP错误"@
    } else if holds(d, "保存"@) || holds(d, "落库"@) || holds(d, "数据库"@) {
        "落库失败"@
    } else {
        "其它错误"@
    }
}

/// The kind of a failure. English words count in any case of their letters; lower case is taken
/// of ASCII letters, and no other letter becomes one of theirs alone.
pub fn classify_kind(detail: &str) -> (r: String)
    ensures
        r@ == kind_of(detail@),
{
    let d = to_lower(detail);
    if contains(detail, "网络错误") || contains(&d, "dns") || contains(&d, "timed out")
        || contains(&d, "timeout") || contains(&d, "connect") || contains(&d, "connection")
        || contains(&d, "proxy") || contains(&d, "tls") || contains(&d, "ssl") || contains(
        &d,
        "certificate",
    ) || contains(&d, "证书") {
        return "网络错误".to_string();
    }
    if contains(detail, "403") || contains(&d, "challenge") || contains(&d, "forbidden")
        || contains(detail, "验证页") {
        return "反爬拦截".to_string();
    }
    if contains(detail, "未拿到") || contains(detail, "空壳") {
        return "未拿到数据".to_string();
    }
    if contains(detail, "完整性") || contains(detail, "缺") && contains(detail, "项") {
        return "数据不完整".to_string();
    }
    if contains(detail, "JSON") || contains(detail, "解析") {
        return "解析失败".to_string();
    }
    if contains(detail, "HTTP") {
        return "HTTP错误".to_string();
    }
    if contains(detail, "保存") || contains(detail, "落库") || contains(detail, "数据库") {
        return "落库失败".to_string();
    }
    "其它错误".to_string()
}

/// What to look at where everything fails with network errors.
pub const NETWORK_HINT: &'static str =
    "浏览器能开、爬虫不能，按这个顺序核对：\n1) 刚关 VPN/Clash：系统代理或 HTTPS_PROXY 还指着 127.0.0.1 死端口。本版自动探测，不通就改直连；也可点「强制直连」\n2) Windows 防火墙第一次拦截了本 exe（设置里放行专用/公用网络）\n3) 浏览器开了「安全 DNS」，本机 DNS 还是 VPN 的 → 浏览器能开、程序解析失败。可 ipconfig /flushdns，或换网卡 DNS\n4) Cookie 缺失通常是 HTTP 403，不是「网络错误」；可把 baidu_cookies.json 放到 exe 旁\n点下方源站链接：若浏览器也打不开，是这台电脑的网络本身到不了数据源。";

/// What to look at where everything fails with network errors.
pub fn network_hint() -> (r: &'static str)
    ensures
        r@ == NETWORK_HINT@,
{
    NETWORK_HINT
}

/// A failure is of the kind that its words tell: a network that fails before a visitor that is
/// turned away, before data that did not come, data that is not whole, a document that cannot be
/// read, a status, and a database that fails.
pub proof fn words_tell_the_kind(d: Seq<char>)
    ensures
        holds(d, "网络错误"@) || holds(lower(d), "dns"@) || holds(lower(d), "timed out"@) || holds(
            lower(d),
            "timeout"@,
        ) || holds(lower(d), "connect"@) || holds(lower(d), "connection"@) || holds(
            lower(d),
            "proxy"@,
        ) || holds(lower(d), "tls"@) || holds(lower(d), "ssl"@) || holds(lower(d), "certificate"@)
            || holds(lower(d), "证书"@) ==> kind_of(d) == "网络错误"@,
        !tells_network(d) && (holds(d, "403"@) || holds(lower(d), "challenge"@) || holds(
            lower(d),
            "forbidden"@,
        ) || holds(d, "验证页"@)) ==> kind_of(d) == "反爬拦截"@,
        !tells_network(d) && !tells_block(d) && (holds(d, "未拿到"@) || holds(d, "空壳"@))
            ==> kind_of(d) == "未拿到数据"@,
        kind_of(d) == "数据不完整"@ ==> holds(d, "完整性"@) || (holds(d, "缺"@) && holds(d, "项"@)),
        kind_of(d) == "解析失败"@ ==> holds(d, "JSON"@) || holds(d, "解析"@),
        kind_of(d) == "HTTP错误"@ ==> holds(d, "HTTP"@) && !holds(d, "403"@),
        kind_of(d) == "落库失败"@ ==> holds(d, "保存"@) || holds(d, "落库"@) || holds(d, "数据库"@),
        kind_of(d) == "其它错误"@ ==> !tells_network(d) && !tells_block(d) && !holds(d, "未拿到"@)
            && !holds(d, "空壳"@) && !holds(d, "完整性"@) && !(holds(d, "缺"@) && holds(d, "项"@))
            && !holds(d, "JSON"@) && !holds(d, "解析"@) && !holds(d, "HTTP"@) && !holds(d, "保存"@)
            && !holds(d, "落库"@) && !holds(d, "数据库"@),
        tells_network(d) ==> kind_of(d) == "网络错误"@,
        tells_network(d) ==> holds(d, "网络错误"@) || holds(lower(d), "dns"@) || holds(
            lower(d),
            "timed out"@,
        ) || holds(lower(d), "timeout"@) || holds(lower(d), "connect"@) || holds(
            lower(d),
            "connection"@,
        ) || holds(lower(d), "proxy"@) || holds(lower(d), "tls"@) || holds(lower(d), "ssl"@)
            || holds(lower(d), "certificate"@) || holds(lower(d), "证书"@),
        tells_block(d) ==> holds(d, "403"@) || holds(lower(d), "challenge"@) || holds(
            lower(d),
            "forbidden"@,
        ) || holds(d, "验证页"@),
{
    kinds_differ();
}

proof fn kinds_differ()
    ensures
        "网络错误"@[0] == '网',
        "反爬拦截"@[0] == '反',
        "未拿到数据"@[0] == '未',
        "数据不完整"@[0] == '数',
        "解析失败"@[0] == '解',
        "HTTP错误"@[0] == 'H',
        "落库失败"@[0] == '落',
        "其它错误"@[0] == '其',
{
    reveal_strlit("网络错误");
    reveal_strlit("反爬拦截");
    reveal_strlit("未拿到数据");
    reveal_strlit("数据不完整");
    reveal_strlit("解析失败");
    reveal_strlit("HTTP错误");
    reveal_strlit("落库失败");
    reveal_strlit("其它错误");
}

/// The links lead where the requests go and come from: the request for the analysis as it is made,
/// the page from which it comes, and the page of the stock of which the other requests open a tab.
pub proof fn links_lead_to_the_stock(code: Seq<char>)
    ensures
        analysis_request(code) == request_address(Endpoint::Analysis, code),
        ai_page(code) == request_origin(Endpoint::Analysis, code),
        stands_at(request_origin(Endpoint::FundFlow, code), stock_page(code), 0),
        stands_at(request_origin(Endpoint::Vote, code), stock_page(code), 0),
        comment_page(code) == "https://data.eastmoney.com/stockcomment/"@ + "stock/"@ + code
            + ".html"@,
        baidu_pages(code).len() == 2 && baidu_requests(code).len() == 1 && em_pages(code).len()
            == 2,
        baidu_pages(code)[0].url == ai_page(code),
        baidu_pages(code)[1].url == stock_page(code),
        baidu_requests(code)[0].url == analysis_request(code),
        em_pages(code)[0].url == comment_page(code),
        stands_at(comment_page(code), em_pages(code)[1].url, 0),
        forall|i: int|
            0 <= i < 2 ==> (#[trigger] baidu_pages(code)[i]).source == "百度财经"@ && baidu_pages(
                code,
            )[i].kind == "page"@,
        forall|i: int|
            0 <= i < 2 ==> (#[trigger] em_pages(code)[i]).source == "东方财富"@ && em_pages(
                code,
            )[i].kind == "page"@,
        baidu_requests(code)[0].source == "百度财经"@ && baidu_requests(code)[0].kind
            == "request"@,
{
    reveal_strlit("https://finance.baidu.com");
    reveal_strlit("/ai-tech-analysi/stock/ab-");
    reveal_strlit("/stock/ab-");
    reveal_strlit("https://finance.baidu.com/ai-tech-analysi/stock/ab-");
    reveal_strlit("https://finance.baidu.com/stock/ab-");
    reveal_strlit("https://finance.pae.baidu.com");
    reveal_strlit("/vapi/v1/analysis?code=");
    reveal_strlit("https://finance.pae.baidu.com/vapi/v1/analysis?code=");
    reveal_strlit("https://data.eastmoney.com/stockcomment/");
    reveal_strlit("stock/");
    reveal_strlit("https://data.eastmoney.com/stockcomment/stock/");
    assert(analysis_request(code) =~= request_address(Endpoint::Analysis, code));
    assert(ai_page(code) =~= request_origin(Endpoint::Analysis, code));
    let n = stock_page(code).len() as int;
    assert(request_origin(Endpoint::FundFlow, code).subrange(0, n) =~= stock_page(code));
    assert(request_origin(Endpoint::Vote, code).subrange(0, n) =~= stock_page(code));
    assert(comment_page(code) =~= "https://data.eastmoney.com/stockcomment/"@ + "stock/"@ + code
        + ".html"@);
    let m = em_pages(code)[1].url.len() as int;
    assert(comment_page(code).subrange(0, m) =~= em_pages(code)[1].url);
}

} // verus!
