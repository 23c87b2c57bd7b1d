//! What the database has of one stock, as it is shown.

use vstd::prelude::*;

use crate::number::{is_below, is_real_text, writes_below, writes_real};
use crate::text::{
    all_digits, char_is_digit, chars_of, decimal_int, digits_value, holds, is_digit, same,
    stands_at, text_of, trim, trimmed, views, write_i64,
};

verus! {

// ---------------------------------------------------------------- queries

/// Asks whether there is a table.
pub const TABLE_QUERY: &'static str = "SELECT 1 FROM sqlite_master WHERE type='table' AND name=?1";

/// The name of a stock.
pub const STOCK_NAME_QUERY: &'static str = "SELECT name FROM stocks WHERE code=?1";

/// The latest scores.
pub const SCORES_QUERY: &'static str =
    "SELECT trade_date, code, name, synthesis, technology, capital, market, finance, is_new, update_time, crawl_date, status FROM scores WHERE code=?1 ORDER BY COALESCE(update_time, trade_date) DESC LIMIT 1";

/// Support and resistance, the latest first.
pub const SUPPORT_QUERY: &'static str =
    "SELECT cycle, support_level, resistance_level, level_desc, rating_text, rating_level, rating_status, bullish_events, bearish_events, rank_str, industry_name, update_time, trade_date FROM support_resistance WHERE code=?1 ORDER BY COALESCE(update_time, trade_date) DESC";

/// The latest fund flow.
pub const FUND_FLOW_QUERY: &'static str =
    "SELECT super_net, large_net, medium_net, little_net, main_net, super_rate, large_rate, medium_rate, little_rate, trade_date, update_time FROM fund_flow WHERE code=?1 ORDER BY COALESCE(update_time, trade_date) DESC LIMIT 1";

/// The latest votes.
pub const VOTE_QUERY: &'static str =
    "SELECT vote_up, vote_down, total_num, vote_up_rate, vote_down_rate, week_up, week_down, week_rate, trade_date, update_time FROM vote WHERE code=?1 ORDER BY COALESCE(update_time, trade_date) DESC LIMIT 1";

/// The latest comment.
pub const EM_COMMENT_QUERY: &'static str =
    "SELECT name, trade_date, emc_total_score, emc_rank, emc_rank_up, emc_focus, emc_org_participate, emc_ratio, emc_prime_cost, emc_prime_cost_20d, emc_prime_cost_60d, emc_prime_inflow, emc_superdeal_in, emc_superdeal_out, emc_bigdeal_in, emc_bigdeal_out, emc_buy_superdeal_ratio, emc_buy_bigdeal_ratio, crawl_date FROM em_comment WHERE code=?1 ORDER BY trade_date DESC LIMIT 1";

/// The latest valuation.
pub const EM_VALUATION_QUERY: &'static str =
    "SELECT name, trade_date, emv_pe_ttm, emv_pe_lar, emv_pb_mrq, emv_pcf_ocf_lar, emv_pcf_ocf_ttm, emv_ps_ttm, emv_peg, emv_total_market_cap, emv_float_market_cap, emv_board, crawl_date FROM em_valuation WHERE code=?1 ORDER BY trade_date DESC LIMIT 1";

/// The latest chances.
pub const EM_DIAG_PROB_QUERY: &'static str =
    "SELECT trade_date, emt_rise_1_prob, emt_rise_5_prob, emt_avg_1_inc, emt_avg_5_inc, emt_all_count_1, emt_all_count_5, emt_rank_ratio, crawl_date FROM em_diag_prob WHERE code=?1 ORDER BY trade_date DESC LIMIT 1";

/// The latest wish to take part.
pub const EM_PARTICIPATION_QUERY: &'static str =
    "SELECT trade_date, emp_wish, emp_wish_5d, emp_wish_change, emp_wish_5d_change, crawl_date FROM em_participation WHERE code=?1 ORDER BY trade_date DESC LIMIT 1";

/// The latest ranks.
pub const EM_POPULARITY_QUERY: &'static str =
    "SELECT trade_date, emp_market_rank, emp_market_num, emp_industry_rank, emp_change_rate, emp_market_stock_num, emp_focus_rank, emp_focus_total, emp_focus_index, crawl_date FROM em_popularity WHERE code=?1 ORDER BY trade_date DESC LIMIT 1";

/// The latest diagnosis in words.
pub const EM_DIAG_TEXT_QUERY: &'static str =
    "SELECT trade_date, emt_comment_txt, emt_words_explain, crawl_date FROM em_diag_text WHERE code=?1 ORDER BY trade_date DESC LIMIT 1";

/// The attempts, by source.
pub const CRAWL_STATS_QUERY: &'static str =
    "SELECT source, crawl_count, last_success, last_status, last_attempt, updated_at, empty_streak FROM crawl_stats WHERE code=?1 ORDER BY source";

// ---------------------------------------------------------------- codes

/// The digits of a text.
pub open spec fn digits_of(s: Seq<char>) -> Seq<char> {
    s.filter(|c: char| is_digit(c))
}

/// Six digits: the last six, or zeros in front.
pub open spec fn six_digits(d: Seq<char>) -> Seq<char> {
    if d.len() >= 6 {
        d.subrange(d.len() - 6, d.len() as int)
    } else {
        Seq::new((6 - d.len()) as nat, |i: int| '0') + d
    }
}

/// The code that a text names: six digits, or nothing where it has no digit.
pub open spec fn code_in(raw: Seq<char>) -> Seq<char> {
    if digits_of(raw).len() == 0 {
        Seq::empty()
    } else {
        six_digits(digits_of(raw))
    }
}

fn collect_digits(raw: &str) -> (r: Vec<char>)
    ensures
        r@ == digits_of(raw@),
{
    let chars = chars_of(raw);
    let mut out: Vec<char> = Vec::new();
    let mut i: usize = 0;
    assert(digits_of(raw@.take(0)) =~= Seq::empty());
    while i < chars.len()
        invariant
            chars@ == raw@,
            i <= chars@.len(),
            out@ == digits_of(raw@.take(i as int)),
        decreases chars@.len() - i,
    {
        assert(raw@.take(i + 1) =~= raw@.take(i as int).push(raw@[i as int]));
        proof {
            reveal(Seq::filter);
            assert(raw@.take(i + 1).drop_last() =~= raw@.take(i as int));
        }
        if char_is_digit(chars[i]) {
            out.push(chars[i]);
        }
        i += 1;
    }
    assert(raw@.take(i as int) =~= raw@);
    out
}

/// The code that a text names: `000001`, `1`, `sz000001` and `000001.SZ` are the same.
pub fn normalize_code(raw: &str) -> (r: String)
    ensures
        r@ == code_in(raw@),
{
    let digits = collect_digits(raw);
    let n: usize = digits.len();
    if n == 0 {
        return String::new();
    }
    if n >= 6 {
        return text_of(&digits, n - 6, n);
    }
    let mut s = String::new();
    let mut i: usize = 0;
    while i < 6 - n
        invariant
            n < 6,
            i <= 6 - n,
            s@ == Seq::new(i as nat, |j: int| '0'),
        decreases 6 - n - i,
    {
        s.push('0');
        i += 1;
        assert(s@ =~= Seq::new(i as nat, |j: int| '0'));
    }
    let rest = text_of(&digits, 0, n);
    s.append(&rest);
    assert(s@ =~= six_digits(digits@));
    s
}

proof fn digits_are_digits(s: Seq<char>)
    ensures
        forall|i: int| 0 <= i < digits_of(s).len() ==> is_digit(#[trigger] digits_of(s)[i]),
    decreases s.len(),
{
    reveal(Seq::filter);
    if s.len() > 0 {
        digits_are_digits(s.drop_last());
    }
}

proof fn all_digits_stay(s: Seq<char>)
    requires
        forall|i: int| 0 <= i < s.len() ==> is_digit(#[trigger] s[i]),
    ensures
        digits_of(s) == s,
    decreases s.len(),
{
    reveal(Seq::filter);
    if s.len() > 0 {
        all_digits_stay(s.drop_last());
        assert(s =~= s.drop_last().push(s.last()));
    } else {
        assert(digits_of(s) =~= s);
    }
}

/// A code is empty or six digits long, and names itself.
pub proof fn a_code_names_itself(raw: Seq<char>)
    ensures
        code_in(raw).len() == 0 || code_in(raw).len() == 6,
        forall|i: int| 0 <= i < code_in(raw).len() ==> is_digit(#[trigger] code_in(raw)[i]),
        code_in(code_in(raw)) == code_in(raw),
{
    digits_are_digits(raw);
    let c = code_in(raw);
    assert forall|i: int| 0 <= i < c.len() implies is_digit(#[trigger] c[i]) by {
        let d = digits_of(raw);
        if d.len() >= 6 {
            assert(c[i] == d[i + d.len() - 6]);
        } else if i >= 6 - d.len() {
            assert(c[i] == d[i - (6 - d.len())]);
        }
    }
    all_digits_stay(c);
    if c.len() == 6 {
        assert(six_digits(c) =~= c);
    } else {
        assert(c =~= Seq::empty());
    }
}

/// Texts with the same digits name the same code, whatever stands around these.
pub proof fn digits_alone_name_a_code(a: Seq<char>, b: Seq<char>)
    requires
        digits_of(a) == digits_of(b),
    ensures
        code_in(a) == code_in(b),
{
}

/// The code to look up, or what to tell the user where there is none.
pub fn lookup_code(raw: &str) -> (r: Result<String, String>)
    ensures
        code_in(raw@).len() == 0 ==> (r matches Err(e) && e@ == "请输入股票代码（如 000001）"@),
        code_in(raw@).len() > 0 ==> (r matches Ok(c) && c@ == code_in(raw@)),
{
    let code = normalize_code(raw);
    if code.as_str().is_empty() {
        Err("请输入股票代码（如 000001）".to_string())
    } else {
        Ok(code)
    }
}

// ---------------------------------------------------------------- cells

/// What stands for nothing.
pub const DASH: &'static str = "—";

/// A value of a row: a real number comes as the text in which it is shown.
#[derive(Debug, Clone, PartialEq, Eq)]
pub enum Shown {
    Null,
    Integer(i64),
    Real(String),
    Text(String),
    Blob,
}

/// A text without the white space around it; a dash where nothing is left.
pub open spec fn dashed(s: Seq<char>) -> Seq<char> {
    if trimmed(s).len() == 0 {
        DASH@
    } else {
        trimmed(s)
    }
}

/// A text without the white space around it; a dash where nothing is left.
pub fn dash(s: &str) -> (r: String)
    ensures
        r@ == dashed(s@),
{
    let t = trim(s);
    if t.as_str().is_empty() {
        DASH.to_string()
    } else {
        t
    }
}

/// How a value is shown.
pub open spec fn shown(v: Shown) -> Seq<char> {
    match v {
        Shown::Null => DASH@,
        Shown::Integer(i) => decimal_int(i as int),
        Shown::Real(s) => s@,
        Shown::Text(s) => dashed(s@),
        Shown::Blob => DASH@,
    }
}

/// How a value is shown.
pub fn cell(v: &Shown) -> (r: String)
    ensures
        r@ == shown(*v),
{
    match v {
        Shown::Null => DASH.to_string(),
        Shown::Integer(i) => write_i64(*i),
        Shown::Real(s) => s.clone(),
        Shown::Text(s) => dash(s),
        Shown::Blob => DASH.to_string(),
    }
}

/// The digits of the greatest fraction that double precision reads as less than 0.3.
pub const LOW_SHARE: &'static str = "2999999999999999611421941381195210851728916168212890625";

/// The digits of the least fraction that double precision reads as 0.7.
pub const HIGH_SHARE: &'static str = "699999999999999900079927783735911361873149871826171875";

/// How firmly institutions hold a stock, by their share as it is shown: a dash where that is no
/// number. The share is compared in double precision: below 0.3 it is low, below 0.7 medium.
pub open spec fn control(op: Seq<char>) -> Seq<char> {
    if op == DASH@ || !is_real_text(op) {
        DASH@
    } else if writes_below(op, LOW_SHARE@, true) {
        "低度控盘"@
    } else if writes_below(op, HIGH_SHARE@, false) {
        "中度控盘"@
    } else {
        "高度控盘"@
    }
}

/// How firmly institutions hold a stock, by their share as it is shown.
pub fn ctrl_degree(op: &str) -> (r: String)
    ensures
        r@ == control(op@),
{
    if same(op, DASH) || !writes_real(op) {
        DASH.to_string()
    } else if is_below(op, LOW_SHARE, true) {
        "低度控盘".to_string()
    } else if is_below(op, HIGH_SHARE, false) {
        "中度控盘".to_string()
    } else {
        "高度控盘".to_string()
    }
}

/// A cell with a percent sign, but for a dash.
pub open spec fn percent(s: Seq<char>) -> Seq<char> {
    if s == DASH@ {
        s
    } else {
        s + " %"@
    }
}

fn with_pct(s: &str) -> (r: String)
    ensures
        r@ == percent(s@),
{
    let mut t = s.to_string();
    if !same(s, DASH) {
        t.append(" %");
    }
    t
}

fn of_total(part: &str, total: &str) -> (r: String)
    ensures
        r@ == part@ + " / "@ + total@,
{
    let mut s = part.to_string();
    s.append(" / ");
    s.append(total);
    s
}

// ---------------------------------------------------------------- sections

/// A line of a section.
#[derive(Debug, Clone, PartialEq, Eq)]
pub struct Field {
    pub label: String,
    pub value: String,
}

/// A group of lines under a title. The lines of a wide one take the whole width.
#[derive(Debug, Clone, PartialEq, Eq)]
pub struct Section {
    pub title: String,
    pub wide: bool,
    pub rows: Vec<Field>,
}

/// A section by its texts: labels and values.
pub struct SectionView {
    pub title: Seq<char>,
    pub wide: bool,
    pub rows: Seq<(Seq<char>, Seq<char>)>,
}

pub open spec fn field_views(rows: Seq<Field>) -> Seq<(Seq<char>, Seq<char>)> {
    rows.map_values(|f: Field| (f.label@, f.value@))
}

impl View for Section {
    type V = SectionView;

    open spec fn view(&self) -> SectionView {
        SectionView { title: self.title@, wide: self.wide, rows: field_views(self.rows@) }
    }
}

pub open spec fn section_views(list: Seq<Section>) -> Seq<SectionView> {
    list.map_values(|s: Section| s@)
}

/// All that is shown of a stock.
#[derive(Debug, Clone, PartialEq, Eq)]
pub struct StockSnapshot {
    pub code: String,
    pub name: String,
    pub found: bool,
    pub hint: String,
    pub sections: Vec<Section>,
}

pub open spec fn line_text(row: (Seq<char>, Seq<char>)) -> Seq<char> {
    "  "@ + row.0 + "  "@ + row.1 + "\n"@
}

pub open spec fn lines_text(rows: Seq<(Seq<char>, Seq<char>)>) -> Seq<char>
    decreases rows.len(),
{
    if rows.len() == 0 {
        Seq::empty()
    } else {
        lines_text(rows.drop_last()) + line_text(rows.last())
    }
}

pub open spec fn section_text(s: SectionView) -> Seq<char> {
    "\n"@ + s.title + "\n"@ + lines_text(s.rows)
}

pub open spec fn sections_text(list: Seq<SectionView>) -> Seq<char>
    decreases list.len(),
{
    if list.len() == 0 {
        Seq::empty()
    } else {
        sections_text(list.drop_last()) + section_text(list.last())
    }
}

fn write_lines(rows: &Vec<Field>) -> (r: String)
    ensures
        r@ == lines_text(field_views(rows@)),
{
    let mut s = String::new();
    let mut i: usize = 0;
    let ghost all = field_views(rows@);
    while i < rows.len()
        invariant
            i <= rows@.len(),
            all == field_views(rows@),
            s@ == lines_text(all.take(i as int)),
        decreases rows@.len() - i,
    {
        let ghost before = s@;
        s.append("  ");
        s.append(&rows[i].label);
        s.append("  ");
        s.append(&rows[i].value);
        s.append("\n");
        assert(all.take(i + 1).drop_last() =~= all.take(i as int));
        assert(all.take(i + 1).last() == (rows@[i as int].label@, rows@[i as int].value@));
        assert(s@ =~= before + line_text(all[i as int]));
        i += 1;
    }
    assert(all.take(i as int) =~= all);
    s
}

impl StockSnapshot {
    /// The snapshot as a text to copy.
    pub fn as_text(&self) -> (r: String)
        ensures
            r@ == self.code@ + " "@ + self.name@ + "\n"@ + self.hint@ + "\n"@ + sections_text(
                section_views(self.sections@),
            ),
    {
        let mut s = self.code.clone();
        s.append(" ");
        s.append(&self.name);
        s.append("\n");
        s.append(&self.hint);
        s.append("\n");
        let ghost head = s@;
        let ghost all = section_views(self.sections@);
        let mut i: usize = 0;
        assert(s@ =~= head + sections_text(all.take(0)));
        while i < self.sections.len()
            invariant
                i <= self.sections@.len(),
                all == section_views(self.sections@),
                s@ == head + sections_text(all.take(i as int)),
            decreases self.sections@.len() - i,
        {
            let ghost before = s@;
            let lines = write_lines(&self.sections[i].rows);
            s.append("\n");
            s.append(&self.sections[i].title);
            s.append("\n");
            s.append(&lines);
            assert(all.take(i + 1).drop_last() =~= all.take(i as int));
            assert(all.take(i + 1).last() == self.sections@[i as int]@);
            assert(s@ =~= before + section_text(all[i as int]));
            assert(s@ =~= head + (sections_text(all.take(i as int)) + section_text(
                all[i as int],
            )));
            i += 1;
        }
        assert(all.take(i as int) =~= all);
        s
    }
}

fn kv(rows: &mut Vec<Field>, label: &str, value: &str)
    ensures
        field_views(final(rows)@) == field_views(old(rows)@).push((label@, value@)),
{
    rows.push(Field { label: label.to_string(), value: value.to_string() });
    assert(field_views(rows@) =~= field_views(old(rows)@).push((label@, value@)));
}

/// The section of the scores.
pub open spec fn scores_section(r: Seq<Seq<char>>) -> SectionView {
    SectionView {
        title: "百度财经 · 综合评分"@,
        wide: false,
        rows: seq![
            ("批次日"@, r[0]),
            ("分析日"@, r[9]),
            ("抓取日"@, r[10]),
            ("状态"@, r[11]),
            ("综合评级"@, r[3]),
            ("技术"@, r[4]),
            ("资金"@, r[5]),
            ("市场"@, r[6]),
            ("财务"@, r[7]),
            ("是否次新"@, r[8]),
        ],
    }
}

fn make_scores(r: &Vec<String>) -> (s: Section)
    requires
        r@.len() == 12,
    ensures
        s@ == scores_section(views(r@)),
{
    let mut rows: Vec<Field> = Vec::new();
    kv(&mut rows, "批次日", &r[0]);
    kv(&mut rows, "分析日", &r[9]);
    kv(&mut rows, "抓取日", &r[10]);
    kv(&mut rows, "状态", &r[11]);
    kv(&mut rows, "综合评级", &r[3]);
    kv(&mut rows, "技术", &r[4]);
    kv(&mut rows, "资金", &r[5]);
    kv(&mut rows, "市场", &r[6]);
    kv(&mut rows, "财务", &r[7]);
    kv(&mut rows, "是否次新", &r[8]);
    assert(field_views(rows@) =~= scores_section(views(r@)).rows);
    Section { title: "百度财经 · 综合评分".to_string(), wide: false, rows }
}

/// The section of the fund flow.
pub open spec fn flow_section(r: Seq<Seq<char>>) -> SectionView {
    SectionView {
        title: "百度财经 · 资金流向（亿）"@,
        wide: false,
        rows: seq![
            ("超大单净额"@, r[0]),
            ("大单净额"@, r[1]),
            ("中单净额"@, r[2]),
            ("小单净额"@, r[3]),
            ("主力净流入"@, r[4]),
            ("超大占比"@, r[5]),
            ("大单占比"@, r[6]),
            ("中单占比"@, r[7]),
            ("小单占比"@, r[8]),
            ("批次日"@, r[9]),
            ("分析日"@, r[10]),
        ],
    }
}

fn make_flow(r: &Vec<String>) -> (s: Section)
    requires
        r@.len() == 11,
    ensures
        s@ == flow_section(views(r@)),
{
    let mut rows: Vec<Field> = Vec::new();
    kv(&mut rows, "超大单净额", &r[0]);
    kv(&mut rows, "大单净额", &r[1]);
    kv(&mut rows, "中单净额", &r[2]);
    kv(&mut rows, "小单净额", &r[3]);
    kv(&mut rows, "主力净流入", &r[4]);
    kv(&mut rows, "超大占比", &r[5]);
    kv(&mut rows, "大单占比", &r[6]);
    kv(&mut rows, "中单占比", &r[7]);
    kv(&mut rows, "小单占比", &r[8]);
    kv(&mut rows, "批次日", &r[9]);
    kv(&mut rows, "分析日", &r[10]);
    assert(field_views(rows@) =~= flow_section(views(r@)).rows);
    Section { title: "百度财经 · 资金流向（亿）".to_string(), wide: false, rows }
}

/// The section of the votes.
pub open spec fn vote_section(r: Seq<Seq<char>>) -> SectionView {
    SectionView {
        title: "百度财经 · 看涨/看跌投票"@,
        wide: false,
        rows: seq![
            ("看涨"@, r[0]),
            ("看跌"@, r[1]),
            ("总票数"@, r[2]),
            ("看涨率"@, r[3]),
            ("看跌率"@, r[4]),
            ("本周看涨"@, r[5]),
            ("本周看跌"@, r[6]),
            ("本周看涨率"@, r[7]),
            ("批次日"@, r[8]),
            ("分析日"@, r[9]),
        ],
    }
}

fn make_vote(r: &Vec<String>) -> (s: Section)
    requires
        r@.len() == 10,
    ensures
        s@ == vote_section(views(r@)),
{
    let mut rows: Vec<Field> = Vec::new();
    kv(&mut rows, "看涨", &r[0]);
    kv(&mut rows, "看跌", &r[1]);
    kv(&mut rows, "总票数", &r[2]);
    kv(&mut rows, "看涨率", &r[3]);
    kv(&mut rows, "看跌率", &r[4]);
    kv(&mut rows, "本周看涨", &r[5]);
    kv(&mut rows, "本周看跌", &r[6]);
    kv(&mut rows, "本周看涨率", &r[7]);
    kv(&mut rows, "批次日", &r[8]);
    kv(&mut rows, "分析日", &r[9]);
    assert(field_views(rows@) =~= vote_section(views(r@)).rows);
    Section { title: "百度财经 · 看涨/看跌投票".to_string(), wide: false, rows }
}

/// The section of the comment.
pub open spec fn comment_section(r: Seq<Seq<char>>) -> SectionView {
    SectionView {
        title: "东方财富 · 千股千评"@,
        wide: false,
        rows: seq![
            ("数据日"@, r[1]),
            ("抓取日"@, r[18]),
            ("综合得分"@, r[2]),
            ("全市场排名"@, r[3]),
            ("排名变动"@, r[4]),
            ("关注指数"@, r[5]),
            ("机构参与度"@, r[6]),
            ("控盘程度"@, control(r[6])),
            ("机构参与比例"@, r[7]),
            ("主力成本(实时)"@, r[8]),
            ("主力成本(20日)"@, r[9]),
            ("主力成本(60日)"@, r[10]),
            ("主力净流入"@, r[11]),
            ("超大单流入"@, r[12]),
            ("超大单流出"@, r[13]),
            ("大单流入"@, r[14]),
            ("大单流出"@, r[15]),
            ("买入超大单占比"@, r[16]),
            ("买入大单占比"@, r[17]),
        ],
    }
}

fn make_comment(r: &Vec<String>) -> (s: Section)
    requires
        r@.len() == 19,
    ensures
        s@ == comment_section(views(r@)),
{
    let mut rows: Vec<Field> = Vec::new();
    kv(&mut rows, "数据日", &r[1]);
    kv(&mut rows, "抓取日", &r[18]);
    kv(&mut rows, "综合得分", &r[2]);
    kv(&mut rows, "全市场排名", &r[3]);
    kv(&mut rows, "排名变动", &r[4]);
    kv(&mut rows, "关注指数", &r[5]);
    kv(&mut rows, "机构参与度", &r[6]);
    kv(&mut rows, "控盘程度", &ctrl_degree(&r[6]));
    kv(&mut rows, "机构参与比例", &r[7]);
    kv(&mut rows, "主力成本(实时)", &r[8]);
    kv(&mut rows, "主力成本(20日)", &r[9]);
    kv(&mut rows, "主力成本(60日)", &r[10]);
    kv(&mut rows, "主力净流入", &r[11]);
    kv(&mut rows, "超大单流入", &r[12]);
    kv(&mut rows, "超大单流出", &r[13]);
    kv(&mut rows, "大单流入", &r[14]);
    kv(&mut rows, "大单流出", &r[15]);
    kv(&mut rows, "买入超大单占比", &r[16]);
    kv(&mut rows, "买入大单占比", &r[17]);
    assert(field_views(rows@) =~= comment_section(views(r@)).rows);
    Section { title: "东方财富 · 千股千评".to_string(), wide: false, rows }
}

/// The section of the valuation.
pub open spec fn valuation_section(r: Seq<Seq<char>>) -> SectionView {
    SectionView {
        title: "东方财富 · 基本面估值"@,
        wide: false,
        rows: seq![
            ("数据日"@, r[1]),
            ("抓取日"@, r[12]),
            ("PE(TTM)"@, r[2]),
            ("PE(LAR)"@, r[3]),
            ("PB(MRQ)"@, r[4]),
            ("PCF_OCF(LAR)"@, r[5]),
            ("PCF_OCF(TTM)"@, r[6]),
            ("PS(TTM)"@, r[7]),
            ("PEG"@, r[8]),
            ("总市值"@, r[9]),
            ("流通市值"@, r[10]),
            ("板块"@, r[11]),
        ],
    }
}

fn make_valuation(r: &Vec<String>) -> (s: Section)
    requires
        r@.len() == 13,
    ensures
        s@ == valuation_section(views(r@)),
{
    let mut rows: Vec<Field> = Vec::new();
    kv(&mut rows, "数据日", &r[1]);
    kv(&mut rows, "抓取日", &r[12]);
    kv(&mut rows, "PE(TTM)", &r[2]);
    kv(&mut rows, "PE(LAR)", &r[3]);
    kv(&mut rows, "PB(MRQ)", &r[4]);
    kv(&mut rows, "PCF_OCF(LAR)", &r[5]);
    kv(&mut rows, "PCF_OCF(TTM)", &r[6]);
    kv(&mut rows, "PS(TTM)", &r[7]);
    kv(&mut rows, "PEG", &r[8]);
    kv(&mut rows, "总市值", &r[9]);
    kv(&mut rows, "流通市值", &r[10]);
    kv(&mut rows, "板块", &r[11]);
    assert(field_views(rows@) =~= valuation_section(views(r@)).rows);
    Section { title: "东方财富 · 基本面估值".to_string(), wide: false, rows }
}

/// The section of the chances.
pub open spec fn chances_section(r: Seq<Seq<char>>) -> SectionView {
    SectionView {
        title: "东方财富 · 诊断概率"@,
        wide: false,
        rows: seq![
            ("数据日"@, r[0]),
            ("次日上涨概率"@, percent(r[1])),
            ("5日上涨概率"@, percent(r[2])),
            ("次日平均涨跌"@, r[3]),
            ("5日平均涨跌"@, r[4]),
            ("打败比例"@, percent(r[7])),
            ("样本数(次日)"@, r[5]),
            ("样本数(5日)"@, r[6]),
            ("抓取日"@, r[8]),
        ],
    }
}

fn make_chances(r: &Vec<String>) -> (s: Section)
    requires
        r@.len() == 9,
    ensures
        s@ == chances_section(views(r@)),
{
    let mut rows: Vec<Field> = Vec::new();
    kv(&mut rows, "数据日", &r[0]);
    kv(&mut rows, "次日上涨概率", &with_pct(&r[1]));
    kv(&mut rows, "5日上涨概率", &with_pct(&r[2]));
    kv(&mut rows, "次日平均涨跌", &r[3]);
    kv(&mut rows, "5日平均涨跌", &r[4]);
    kv(&mut rows, "打败比例", &with_pct(&r[7]));
    kv(&mut rows, "样本数(次日)", &r[5]);
    kv(&mut rows, "样本数(5日)", &r[6]);
    kv(&mut rows, "抓取日", &r[8]);
    assert(field_views(rows@) =~= chances_section(views(r@)).rows);
    Section { title: "东方财富 · 诊断概率".to_string(), wide: false, rows }
}

/// The section of the wish to take part.
pub open spec fn participation_section(r: Seq<Seq<char>>) -> SectionView {
    SectionView {
        title: "东方财富 · 参与意愿"@,
        wide: false,
        rows: seq![
            ("数据日"@, r[0]),
            ("当日参与意愿值"@, r[1]),
            ("五日平均参与意愿值"@, r[2]),
            ("当日参与意愿变化%"@, r[3]),
            ("五日参与意愿变化%"@, r[4]),
            ("抓取日"@, r[5]),
        ],
    }
}

fn make_participation(r: &Vec<String>) -> (s: Section)
    requires
        r@.len() == 6,
    ensures
        s@ == participation_section(views(r@)),
{
    let mut rows: Vec<Field> = Vec::new();
    kv(&mut rows, "数据日", &r[0]);
    kv(&mut rows, "当日参与意愿值", &r[1]);
    kv(&mut rows, "五日平均参与意愿值", &r[2]);
    kv(&mut rows, "当日参与意愿变化%", &r[3]);
    kv(&mut rows, "五日参与意愿变化%", &r[4]);
    kv(&mut rows, "抓取日", &r[5]);
    assert(field_views(rows@) =~= participation_section(views(r@)).rows);
    Section { title: "东方财富 · 参与意愿".to_string(), wide: false, rows }
}

/// The section of the ranks.
pub open spec fn popularity_section(r: Seq<Seq<char>>) -> SectionView {
    SectionView {
        title: "东方财富 · 市场排名"@,
        wide: false,
        rows: seq![
            ("数据日"@, r[0]),
            ("综合市场排名"@, r[1] + " / "@ + r[2]),
            ("行业排名"@, r[3]),
            ("综合得分变化率%"@, r[4]),
            ("全市场股票数"@, r[5]),
            ("关注排名"@, r[6] + " / "@ + r[7]),
            ("关注指数"@, r[8]),
            ("抓取日"@, r[9]),
        ],
    }
}

fn make_popularity(r: &Vec<String>) -> (s: Section)
    requires
        r@.len() == 10,
    ensures
        s@ == popularity_section(views(r@)),
{
    let mut rows: Vec<Field> = Vec::new();
    kv(&mut rows, "数据日", &r[0]);
    kv(&mut rows, "综合市场排名", &of_total(&r[1], &r[2]));
    kv(&mut rows, "行业排名", &r[3]);
    kv(&mut rows, "综合得分变化率%", &r[4]);
    kv(&mut rows, "全市场股票数", &r[5]);
    kv(&mut rows, "关注排名", &of_total(&r[6], &r[7]));
    kv(&mut rows, "关注指数", &r[8]);
    kv(&mut rows, "抓取日", &r[9]);
    assert(field_views(rows@) =~= popularity_section(views(r@)).rows);
    Section { title: "东方财富 · 市场排名".to_string(), wide: false, rows }
}

/// The section of the diagnosis in words.
pub open spec fn diagnosis_section(r: Seq<Seq<char>>) -> SectionView {
    SectionView {
        title: "东方财富 · 定性诊断"@,
        wide: true,
        rows: seq![
            ("数据日"@, r[0]),
            ("趋势量能/支撑压力"@, r[1]),
            ("消息面/资金面"@, r[2]),
            ("抓取日"@, r[3]),
        ],
    }
}

fn make_diagnosis(r: &Vec<String>) -> (s: Section)
    requires
        r@.len() == 4,
    ensures
        s@ == diagnosis_section(views(r@)),
{
    let mut rows: Vec<Field> = Vec::new();
    kv(&mut rows, "数据日", &r[0]);
    kv(&mut rows, "趋势量能/支撑压力", &r[1]);
    kv(&mut rows, "消息面/资金面", &r[2]);
    kv(&mut rows, "抓取日", &r[3]);
    assert(field_views(rows@) =~= diagnosis_section(views(r@)).rows);
    Section { title: "东方财富 · 定性诊断".to_string(), wide: true, rows }
}

/// How a cycle is shown.
pub open spec fn cycle_name(cycle: Seq<char>) -> Seq<char> {
    if cycle == "long"@ {
        "长期"@
    } else if cycle == "short"@ {
        "短期"@
    } else {
        cycle
    }
}

/// The section of support and resistance for a cycle.
pub open spec fn support_section(r: Seq<Seq<char>>) -> SectionView {
    SectionView {
        title: "百度财经 · 支撑/阻力（"@ + cycle_name(r[0]) + "）"@,
        wide: false,
        rows: seq![
            ("支撑位"@, r[1]),
            ("阻力位"@, r[2]),
            ("智能评级"@, r[4]),
            ("评级等级"@, r[5]),
            ("评级状态"@, r[6]),
            ("行业"@, r[10]),
            ("排名"@, r[9]),
            ("说明"@, r[3]),
            ("看多事件"@, r[7]),
            ("看空事件"@, r[8]),
            ("分析日"@, r[11]),
        ],
    }
}

fn make_support(r: &Vec<String>) -> (s: Section)
    requires
        r@.len() == 13,
    ensures
        s@ == support_section(views(r@)),
{
    let mut rows: Vec<Field> = Vec::new();
    kv(&mut rows, "支撑位", &r[1]);
    kv(&mut rows, "阻力位", &r[2]);
    kv(&mut rows, "智能评级", &r[4]);
    kv(&mut rows, "评级等级", &r[5]);
    kv(&mut rows, "评级状态", &r[6]);
    kv(&mut rows, "行业", &r[10]);
    kv(&mut rows, "排名", &r[9]);
    kv(&mut rows, "说明", &r[3]);
    kv(&mut rows, "看多事件", &r[7]);
    kv(&mut rows, "看空事件", &r[8]);
    kv(&mut rows, "分析日", &r[11]);
    assert(field_views(rows@) =~= support_section(views(r@)).rows);
    let mut title = "百度财经 · 支撑/阻力（".to_string();
    if same(&r[0], "long") {
        title.append("长期");
    } else if same(&r[0], "short") {
        title.append("短期");
    } else {
        title.append(&r[0]);
    }
    title.append("）");
    Section { title, wide: false, rows }
}

// ---------------------------------------------------------------- the snapshot

/// The rows that the queries of this module give for a stock, each cell as it is shown. A table
/// that is not there, or has nothing of the stock, gives no row.
#[derive(Debug, Clone, PartialEq, Eq)]
pub struct LookupRows {
    pub name: Option<String>,
    pub scores: Option<Vec<String>>,
    pub support: Vec<Vec<String>>,
    pub fund_flow: Option<Vec<String>>,
    pub vote: Option<Vec<String>>,
    pub em_comment: Option<Vec<String>>,
    pub em_valuation: Option<Vec<String>>,
    pub em_diag_prob: Option<Vec<String>>,
    pub em_participation: Option<Vec<String>>,
    pub em_popularity: Option<Vec<String>>,
    pub em_diag_text: Option<Vec<String>>,
    pub crawl_stats: Vec<Vec<String>>,
}

pub open spec fn has_columns(row: Option<Vec<String>>, n: nat) -> bool {
    match row {
        Some(r) => r@.len() == n,
        None => true,
    }
}

pub open spec fn all_columns(rows: Seq<Vec<String>>, n: nat) -> bool {
    forall|i: int| 0 <= i < rows.len() ==> (#[trigger] rows[i])@.len() == n
}

impl LookupRows {
    /// Each row has the columns of its query.
    pub open spec fn wf(self) -> bool {
        &&& has_columns(self.scores, 12)
        &&& all_columns(self.support@, 13)
        &&& has_columns(self.fund_flow, 11)
        &&& has_columns(self.vote, 10)
        &&& has_columns(self.em_comment, 19)
        &&& has_columns(self.em_valuation, 13)
        &&& has_columns(self.em_diag_prob, 9)
        &&& has_columns(self.em_participation, 6)
        &&& has_columns(self.em_popularity, 10)
        &&& has_columns(self.em_diag_text, 4)
        &&& all_columns(self.crawl_stats@, 7)
    }
}

/// Rows by the texts of their cells.
pub open spec fn row_views(rows: Seq<Vec<String>>) -> Seq<Seq<Seq<char>>> {
    rows.map_values(|r: Vec<String>| views(r@))
}

/// The first row of each cycle, in order.
pub open spec fn first_rows(rows: Seq<Seq<Seq<char>>>) -> Seq<Seq<Seq<char>>>
    decreases rows.len(),
{
    if rows.len() == 0 {
        Seq::empty()
    } else {
        let before = first_rows(rows.drop_last());
        if exists|j: int| 0 <= j < rows.len() - 1 && (#[trigger] rows[j])[0] == rows.last()[0] {
            before
        } else {
            before.push(rows.last())
        }
    }
}

/// The section of each cycle.
pub open spec fn support_sections(rows: Seq<Seq<Seq<char>>>) -> Seq<SectionView> {
    first_rows(rows).map_values(|r: Seq<Seq<char>>| support_section(r))
}

/// How a source is shown.
pub open spec fn source_name(source: Seq<char>) -> Seq<char> {
    if source == "baidu"@ {
        "百度"@
    } else if source == "em"@ {
        "东财"@
    } else {
        source
    }
}

/// The five lines of the attempts at a source.
pub open spec fn attempt_lines(r: Seq<Seq<char>>) -> Seq<(Seq<char>, Seq<char>)> {
    let src = source_name(r[0]);
    let outcome = if r[2] == "1"@ {
        "成功"@
    } else {
        "未成功"@
    };
    seq![
        (src + " 次数"@, r[1]),
        (src + " 最近"@, outcome + " / "@ + r[3]),
        (src + " 尝试日"@, r[4]),
        (src + " 更新"@, r[5]),
        (src + " 空壳连击"@, r[6]),
    ]
}

pub open spec fn attempts_lines(rows: Seq<Seq<Seq<char>>>) -> Seq<(Seq<char>, Seq<char>)>
    decreases rows.len(),
{
    if rows.len() == 0 {
        Seq::empty()
    } else {
        attempts_lines(rows.drop_last()) + attempt_lines(rows.last())
    }
}

/// The section of the attempts, where there are any.
pub open spec fn stats_sections(rows: Seq<Seq<Seq<char>>>) -> Seq<SectionView> {
    if rows.len() == 0 {
        Seq::empty()
    } else {
        seq![SectionView { title: "抓取统计"@, wide: false, rows: attempts_lines(rows) }]
    }
}

/// The section of each table that has a row of the stock.
pub open spec fn scores_sections(row: Option<Vec<String>>) -> Seq<SectionView> {
    match row {
        Some(r) => seq![scores_section(views(r@))],
        None => Seq::empty(),
    }
}

pub open spec fn flow_sections(row: Option<Vec<String>>) -> Seq<SectionView> {
    match row {
        Some(r) => seq![flow_section(views(r@))],
        None => Seq::empty(),
    }
}

pub open spec fn vote_sections(row: Option<Vec<String>>) -> Seq<SectionView> {
    match row {
        Some(r) => seq![vote_section(views(r@))],
        None => Seq::empty(),
    }
}

pub open spec fn comment_sections(row: Option<Vec<String>>) -> Seq<SectionView> {
    match row {
        Some(r) => seq![comment_section(views(r@))],
        None => Seq::empty(),
    }
}

pub open spec fn valuation_sections(row: Option<Vec<String>>) -> Seq<SectionView> {
    match row {
        Some(r) => seq![valuation_section(views(r@))],
        None => Seq::empty(),
    }
}

pub open spec fn chances_sections(row: Option<Vec<String>>) -> Seq<SectionView> {
    match row {
        Some(r) => seq![chances_section(views(r@))],
        None => Seq::empty(),
    }
}

pub open spec fn participation_sections(row: Option<Vec<String>>) -> Seq<SectionView> {
    match row {
        Some(r) => seq![participation_section(views(r@))],
        None => Seq::empty(),
    }
}

pub open spec fn popularity_sections(row: Option<Vec<String>>) -> Seq<SectionView> {
    match row {
        Some(r) => seq![popularity_section(views(r@))],
        None => Seq::empty(),
    }
}

pub open spec fn diagnosis_sections(row: Option<Vec<String>>) -> Seq<SectionView> {
    match row {
        Some(r) => seq![diagnosis_section(views(r@))],
        None => Seq::empty(),
    }
}

/// All sections, in the order in which they are shown.
pub open spec fn all_sections(rows: LookupRows) -> Seq<SectionView> {
    scores_sections(rows.scores) + support_sections(row_views(rows.support@)) + flow_sections(
        rows.fund_flow,
    ) + vote_sections(rows.vote) + comment_sections(rows.em_comment)
        + valuation_sections(rows.em_valuation) + chances_sections(rows.em_diag_prob)
        + participation_sections(rows.em_participation) + popularity_sections(rows.em_popularity)
        + diagnosis_sections(rows.em_diag_text) + stats_sections(row_views(rows.crawl_stats@))
}

/// A name, unless it is a dash or there is one already.
pub open spec fn named(name: Seq<char>, row: Option<Vec<String>>, column: int) -> Seq<char> {
    match row {
        Some(r) if name.len() == 0 && r@[column]@ != DASH@ => r@[column]@,
        _ => name,
    }
}

/// The name of the stock: from the list of stocks, else from the scores, the comment or the
/// valuation, in this order. A dash is no name.
pub open spec fn found_name(rows: LookupRows) -> Seq<char> {
    let listed = match rows.name {
        Some(n) => n@,
        None => Seq::empty(),
    };
    let name = named(
        named(named(listed, rows.scores, 2), rows.em_comment, 0),
        rows.em_valuation,
        0,
    );
    if name == DASH@ {
        Seq::empty()
    } else {
        name
    }
}

/// There is something to show.
pub open spec fn any_row(rows: LookupRows) -> bool {
    ||| rows.scores is Some
    ||| rows.support@.len() > 0
    ||| rows.fund_flow is Some
    ||| rows.vote is Some
    ||| rows.em_comment is Some
    ||| rows.em_valuation is Some
    ||| rows.em_diag_prob is Some
    ||| rows.em_participation is Some
    ||| rows.em_popularity is Some
    ||| rows.em_diag_text is Some
    ||| rows.crawl_stats@.len() > 0
}

fn fill_name(name: String, row: &Option<Vec<String>>, column: usize) -> (r: String)
    requires
        row matches Some(v) ==> column < v@.len(),
    ensures
        r@ == named(name@, *row, column as int),
{
    match row {
        Some(v) => if name.as_str().is_empty() && !same(&v[column], DASH) {
            v[column].clone()
        } else {
            name
        },
        None => name,
    }
}

fn find_name(rows: &LookupRows) -> (r: String)
    requires
        rows.wf(),
    ensures
        r@ == found_name(*rows),
{
    let listed = match &rows.name {
        Some(n) => n.clone(),
        None => String::new(),
    };
    let name = fill_name(
        fill_name(fill_name(listed, &rows.scores, 2), &rows.em_comment, 0),
        &rows.em_valuation,
        0,
    );
    if same(&name, DASH) {
        String::new()
    } else {
        name
    }
}

fn shown_before(rows: &Vec<Vec<String>>, i: usize) -> (r: bool)
    requires
        i < rows@.len(),
        all_columns(rows@, 13),
    ensures
        r == exists|j: int|
            0 <= j < i && (#[trigger] row_views(rows@)[j])[0] == row_views(rows@)[i as int][0],
{
    let mut j: usize = 0;
    while j < i
        invariant
            j <= i < rows@.len(),
            all_columns(rows@, 13),
            forall|k: int|
                0 <= k < j ==> (#[trigger] row_views(rows@)[k])[0] != row_views(
                    rows@,
                )[i as int][0],
        decreases i - j,
    {
        assert(row_views(rows@)[j as int][0] == rows@[j as int]@[0]@);
        assert(row_views(rows@)[i as int][0] == rows@[i as int]@[0]@);
        if same(&rows[j][0], &rows[i][0]) {
            return true;
        }
        j += 1;
    }
    false
}

fn push_support(out: &mut Vec<Section>, rows: &Vec<Vec<String>>)
    requires
        all_columns(rows@, 13),
    ensures
        section_views(final(out)@) == section_views(old(out)@) + support_sections(
            row_views(rows@),
        ),
{
    let ghost start = section_views(out@);
    let ghost all = row_views(rows@);
    let mut i: usize = 0;
    assert(section_views(out@) =~= start + support_sections(all.take(0)));
    while i < rows.len()
        invariant
            i <= rows@.len(),
            all == row_views(rows@),
            all_columns(rows@, 13),
            section_views(out@) == start + support_sections(all.take(i as int)),
        decreases rows@.len() - i,
    {
        let ghost before = section_views(out@);
        let ghost prefix = all.take(i + 1);
        assert(prefix.drop_last() =~= all.take(i as int));
        assert(prefix.last() == views(rows@[i as int]@));
        let seen = shown_before(rows, i);
        proof {
            if seen {
                let j = choose|j: int| 0 <= j < i && (#[trigger] all[j])[0] == all[i as int][0];
                assert(prefix[j] == all[j]);
            } else {
                assert forall|j: int| 0 <= j < prefix.len() - 1 implies (#[trigger] prefix[j])[0]
                    != prefix.last()[0] by {
                    assert(prefix[j] == all[j]);
                }
            }
        }
        if !seen {
            let section = make_support(&rows[i]);
            let ghost added = section@;
            out.push(section);
            assert(section_views(out@) =~= before.push(added));
            assert(support_sections(prefix) =~= support_sections(all.take(i as int)).push(added));
            assert(before.push(added) =~= start + support_sections(prefix));
        }
        i += 1;
    }
    assert(all.take(i as int) =~= all);
}

fn push_attempt(rows: &mut Vec<Field>, r: &Vec<String>)
    requires
        r@.len() == 7,
    ensures
        field_views(final(rows)@) == field_views(old(rows)@) + attempt_lines(views(r@)),
{
    let src = if same(&r[0], "baidu") {
        "百度".to_string()
    } else if same(&r[0], "em") {
        "东财".to_string()
    } else {
        r[0].clone()
    };
    let outcome = if same(&r[2], "1") {
        "成功"
    } else {
        "未成功"
    };
    let mut label = src.clone();
    label.append(" 次数");
    kv(rows, &label, &r[1]);
    let mut label = src.clone();
    label.append(" 最近");
    kv(rows, &label, &of_total(outcome, &r[3]));
    let mut label = src.clone();
    label.append(" 尝试日");
    kv(rows, &label, &r[4]);
    let mut label = src.clone();
    label.append(" 更新");
    kv(rows, &label, &r[5]);
    let mut label = src;
    label.append(" 空壳连击");
    kv(rows, &label, &r[6]);
    assert(field_views(rows@) =~= field_views(old(rows)@) + attempt_lines(views(r@)));
}

fn push_stats(out: &mut Vec<Section>, stats: &Vec<Vec<String>>)
    requires
        all_columns(stats@, 7),
    ensures
        section_views(final(out)@) == section_views(old(out)@) + stats_sections(row_views(stats@)),
{
    let ghost start = section_views(out@);
    let ghost all = row_views(stats@);
    if stats.len() == 0 {
        assert(section_views(out@) =~= start + stats_sections(all));
        return;
    }
    let mut rows: Vec<Field> = Vec::new();
    let mut i: usize = 0;
    assert(field_views(rows@) =~= attempts_lines(all.take(0)));
    while i < stats.len()
        invariant
            i <= stats@.len(),
            all == row_views(stats@),
            all_columns(stats@, 7),
            field_views(rows@) == attempts_lines(all.take(i as int)),
        decreases stats@.len() - i,
    {
        assert(all.take(i + 1).drop_last() =~= all.take(i as int));
        assert(all.take(i + 1).last() == views(stats@[i as int]@));
        push_attempt(&mut rows, &stats[i]);
        i += 1;
    }
    assert(all.take(i as int) =~= all);
    let section = Section { title: "抓取统计".to_string(), wide: false, rows };
    let ghost added = section@;
    out.push(section);
    assert(section_views(out@) =~= start.push(added));
    assert(start.push(added) =~= start + stats_sections(all));
}

fn push_scores(out: &mut Vec<Section>, row: &Option<Vec<String>>)
    requires
        has_columns(*row, 12),
    ensures
        section_views(final(out)@) == section_views(old(out)@) + scores_sections(*row),
{
    if let Some(r) = row {
        out.push(make_scores(r));
    }
    assert(section_views(out@) =~= section_views(old(out)@) + scores_sections(*row));
}

fn push_flow(out: &mut Vec<Section>, row: &Option<Vec<String>>)
    requires
        has_columns(*row, 11),
    ensures
        section_views(final(out)@) == section_views(old(out)@) + flow_sections(*row),
{
    if let Some(r) = row {
        out.push(make_flow(r));
    }
    assert(section_views(out@) =~= section_views(old(out)@) + flow_sections(*row));
}

fn push_vote(out: &mut Vec<Section>, row: &Option<Vec<String>>)
    requires
        has_columns(*row, 10),
    ensures
        section_views(final(out)@) == section_views(old(out)@) + vote_sections(*row),
{
    if let Some(r) = row {
        out.push(make_vote(r));
    }
    assert(section_views(out@) =~= section_views(old(out)@) + vote_sections(*row));
}

fn push_comment(out: &mut Vec<Section>, row: &Option<Vec<String>>)
    requires
        has_columns(*row, 19),
    ensures
        section_views(final(out)@) == section_views(old(out)@) + comment_sections(*row),
{
    if let Some(r) = row {
        out.push(make_comment(r));
    }
    assert(section_views(out@) =~= section_views(old(out)@) + comment_sections(*row));
}

fn push_valuation(out: &mut Vec<Section>, row: &Option<Vec<String>>)
    requires
        has_columns(*row, 13),
    ensures
        section_views(final(out)@) == section_views(old(out)@) + valuation_sections(*row),
{
    if let Some(r) = row {
        out.push(make_valuation(r));
    }
    assert(section_views(out@) =~= section_views(old(out)@) + valuation_sections(*row));
}

fn push_chances(out: &mut Vec<Section>, row: &Option<Vec<String>>)
    requires
        has_columns(*row, 9),
    ensures
        section_views(final(out)@) == section_views(old(out)@) + chances_sections(*row),
{
    if let Some(r) = row {
        out.push(make_chances(r));
    }
    assert(section_views(out@) =~= section_views(old(out)@) + chances_sections(*row));
}

fn push_participation(out: &mut Vec<Section>, row: &Option<Vec<String>>)
    requires
        has_columns(*row, 6),
    ensures
        section_views(final(out)@) == section_views(old(out)@) + participation_sections(*row),
{
    if let Some(r) = row {
        out.push(make_participation(r));
    }
    assert(section_views(out@) =~= section_views(old(out)@) + participation_sections(*row));
}

fn push_popularity(out: &mut Vec<Section>, row: &Option<Vec<String>>)
    requires
        has_columns(*row, 10),
    ensures
        section_views(final(out)@) == section_views(old(out)@) + popularity_sections(*row),
{
    if let Some(r) = row {
        out.push(make_popularity(r));
    }
    assert(section_views(out@) =~= section_views(old(out)@) + popularity_sections(*row));
}

fn push_diagnosis(out: &mut Vec<Section>, row: &Option<Vec<String>>)
    requires
        has_columns(*row, 4),
    ensures
        section_views(final(out)@) == section_views(old(out)@) + diagnosis_sections(*row),
{
    if let Some(r) = row {
        out.push(make_diagnosis(r));
    }
    assert(section_views(out@) =~= section_views(old(out)@) + diagnosis_sections(*row));
}

fn make_sections(rows: &LookupRows) -> (r: Vec<Section>)
    requires
        rows.wf(),
    ensures
        section_views(r@) == all_sections(*rows),
{
    let mut out: Vec<Section> = Vec::new();
    assert(section_views(out@) =~= Seq::empty());
    push_scores(&mut out, &rows.scores);
    assert(section_views(out@) =~= scores_sections(rows.scores));
    push_support(&mut out, &rows.support);
    push_flow(&mut out, &rows.fund_flow);
    push_vote(&mut out, &rows.vote);
    push_comment(&mut out, &rows.em_comment);
    push_valuation(&mut out, &rows.em_valuation);
    push_chances(&mut out, &rows.em_diag_prob);
    push_participation(&mut out, &rows.em_participation);
    push_popularity(&mut out, &rows.em_popularity);
    push_diagnosis(&mut out, &rows.em_diag_text);
    push_stats(&mut out, &rows.crawl_stats);
    out
}

/// What is shown of a stock, out of the rows that the database has of it.
pub fn lookup_stock(code: &str, rows: &LookupRows) -> (r: StockSnapshot)
    requires
        rows.wf(),
    ensures
        r.code@ == code@,
        r.name@ == found_name(*rows),
        r.found == any_row(*rows),
        r.hint@ == if any_row(*rows) {
            "以下为库内该股各表最新一行（不是实时行情）"@
        } else {
            "库里没有 "@ + code@ + "。先抓取百度/东财，或确认代码是否为 6 位 A 股。"@
        },
        section_views(r.sections@) == all_sections(*rows),
{
    let found = rows.scores.is_some() || rows.support.len() > 0 || rows.fund_flow.is_some()
        || rows.vote.is_some() || rows.em_comment.is_some() || rows.em_valuation.is_some()
        || rows.em_diag_prob.is_some() || rows.em_participation.is_some()
        || rows.em_popularity.is_some() || rows.em_diag_text.is_some() || rows.crawl_stats.len()
        > 0;
    let hint = if found {
        "以下为库内该股各表最新一行（不是实时行情）".to_string()
    } else {
        let mut s = "库里没有 ".to_string();
        s.append(code);
        s.append("。先抓取百度/东财，或确认代码是否为 6 位 A 股。");
        s
    };
    StockSnapshot {
        code: code.to_string(),
        name: find_name(rows),
        found,
        hint,
        sections: make_sections(rows),
    }
}

proof fn some_row_is_first(rows: Seq<Seq<Seq<char>>>)
    ensures
        rows.len() > 0 <==> first_rows(rows).len() > 0,
    decreases rows.len(),
{
    if rows.len() > 0 {
        some_row_is_first(rows.drop_last());
    }
}

/// A stock is found exactly where there is a section to show.
pub proof fn found_means_shown(rows: LookupRows)
    ensures
        any_row(rows) <==> all_sections(rows).len() > 0,
{
    some_row_is_first(row_views(rows.support@));
}

/// A row is the first of its cycle.
pub open spec fn is_first(rows: Seq<Seq<Seq<char>>>, i: int) -> bool {
    forall|j: int| 0 <= j < i ==> (#[trigger] rows[j])[0] != rows[i][0]
}

/// Of support and resistance the first row of each cycle is shown, and no other row: no cycle
/// is shown twice, and none is left out.
pub proof fn each_cycle_is_shown_once(rows: Seq<Seq<Seq<char>>>)
    ensures
        forall|i: int|
            0 <= i < rows.len() && is_first(rows, i) ==> first_rows(rows).contains(
                #[trigger] rows[i],
            ),
        forall|k: int|
            0 <= k < first_rows(rows).len() ==> rows.contains(#[trigger] first_rows(rows)[k]),
        forall|k: int, l: int|
            0 <= k < l < first_rows(rows).len() ==> (#[trigger] first_rows(rows)[k])[0] != (
            #[trigger] first_rows(rows)[l])[0],
    decreases rows.len(),
{
    if rows.len() > 0 {
        let head = rows.drop_last();
        let last = rows.len() - 1;
        each_cycle_is_shown_once(head);
        let before = first_rows(head);
        let all = first_rows(rows);
        assert(all == before || all == before.push(rows.last()));
        assert forall|i: int| 0 <= i < rows.len() && is_first(rows, i) implies all.contains(
            #[trigger] rows[i],
        ) by {
            if i < last {
                assert(head[i] == rows[i]);
                assert forall|j: int| 0 <= j < i implies (#[trigger] head[j])[0]
                    != head[i][0] by {
                    assert(head[j] == rows[j]);
                }
                let k = choose|k: int| 0 <= k < before.len() && before[k] == head[i];
                assert(all[k] == before[k]);
            } else {
                assert(all[before.len() as int] == rows[last]);
            }
        }
        assert forall|k: int| 0 <= k < all.len() implies rows.contains(#[trigger] all[k]) by {
            if k < before.len() {
                assert(all[k] == before[k]);
                let i = choose|i: int| 0 <= i < head.len() && head[i] == before[k];
                assert(rows[i] == head[i]);
            } else {
                assert(rows[last] == all[k]);
            }
        }
        assert forall|k: int, l: int| 0 <= k < l < all.len() implies (#[trigger] all[k])[0] != (
        #[trigger] all[l])[0] by {
            assert(all[k] == before[k]);
            if l < before.len() {
                assert(all[l] == before[l]);
            } else {
                assert(head.contains(before[k]));
                let i = choose|i: int| 0 <= i < head.len() && head[i] == before[k];
                assert(rows[i] == head[i]);
            }
        }
    }
}

/// Digits name a code of six: themselves, the last six of more, or fewer with zeros in front, which
/// leave their value.
pub proof fn digits_name_a_code_of_six(d: Seq<char>)
    requires
        all_digits(d),
        d.len() > 0,
    ensures
        code_in(d).len() == 6,
        d.len() == 6 ==> code_in(d) == d,
        d.len() > 6 ==> code_in(d) == d.skip(d.len() - 6),
        d.len() < 6 ==> digits_value(code_in(d)) == digits_value(d) && code_in(d).skip(
            6 - d.len(),
        ) == d,
{
    all_digits_stay(d);
    if d.len() >= 6 {
        assert(d.subrange(d.len() - 6, d.len() as int) =~= d.skip(d.len() - 6));
        assert(d.len() == 6 ==> code_in(d) =~= d);
    } else {
        let k = (6 - d.len()) as nat;
        zeros_in_front_add_nothing(k, d);
        assert(code_in(d).skip(k as int) =~= d);
    }
}

proof fn zeros_in_front_add_nothing(k: nat, d: Seq<char>)
    ensures
        digits_value(Seq::new(k, |i: int| '0') + d) == digits_value(d),
    decreases k + d.len(),
{
    let zeros = Seq::new(k, |i: int| '0');
    if d.len() > 0 {
        zeros_in_front_add_nothing(k, d.drop_last());
        assert((zeros + d).drop_last() =~= zeros + d.drop_last());
        assert((zeros + d).last() == d.last());
    } else if k > 0 {
        zeros_in_front_add_nothing((k - 1) as nat, d);
        assert((zeros + d).drop_last() =~= Seq::new((k - 1) as nat, |i: int| '0') + d);
        assert((zeros + d).last() == '0');
    }
}

/// What is no digit does not count in a code, wherever it stands.
pub proof fn other_characters_do_not_count(a: Seq<char>, c: char, b: Seq<char>)
    requires
        !is_digit(c),
    ensures
        code_in(a + seq![c] + b) == code_in(a + b),
{
    let keep = |c: char| is_digit(c);
    Seq::filter_distributes_over_add(a + seq![c], b, keep);
    Seq::filter_distributes_over_add(a, seq![c], keep);
    Seq::filter_distributes_over_add(a, b, keep);
    assert(seq![c].filter(keep) =~= Seq::empty()) by {
        reveal_with_fuel(Seq::filter, 2);
        assert(seq![c].drop_last() =~= Seq::empty());
    }
    assert(a.filter(keep) + Seq::<char>::empty() =~= a.filter(keep));
    assert(digits_of(a + seq![c] + b) =~= (a + seq![c] + b).filter(keep));
    assert(digits_of(a + b) =~= (a + b).filter(keep));
}

/// The text of a snapshot holds every line of every section, label and value, behind the title.
pub proof fn every_line_is_written(list: Seq<SectionView>, i: int, j: int)
    requires
        0 <= i < list.len(),
        0 <= j < list[i].rows.len(),
    ensures
        holds(
            sections_text(list),
            "  "@ + list[i].rows[j].0 + "  "@ + list[i].rows[j].1 + "\n"@,
        ),
        holds(sections_text(list), "\n"@ + list[i].title + "\n"@),
    decreases list.len(),
{
    let rest = sections_text(list.drop_last());
    let last = section_text(list.last());
    if i < list.len() - 1 {
        every_line_is_written(list.drop_last(), i, j);
        words_stay(rest, line_text(list[i].rows[j]), Seq::empty(), last);
        words_stay(rest, "\n"@ + list[i].title + "\n"@, Seq::empty(), last);
        assert(Seq::<char>::empty() + rest + last =~= rest + last);
    } else {
        a_line_is_written(list[i].rows, j);
        let head = "\n"@ + list[i].title + "\n"@;
        let lines = lines_text(list[i].rows);
        words_stay(lines, line_text(list[i].rows[j]), rest + head, Seq::empty());
        assert(rest + head + lines + Seq::empty() =~= rest + last);
        assert(head.subrange(0, head.len() as int) =~= head);
        assert(stands_at(head, head, 0));
        words_stay(head, head, rest, lines);
        assert(rest + head + lines =~= rest + last);
    }
}

proof fn a_line_is_written(rows: Seq<(Seq<char>, Seq<char>)>, j: int)
    requires
        0 <= j < rows.len(),
    ensures
        holds(lines_text(rows), line_text(rows[j])),
    decreases rows.len(),
{
    let rest = lines_text(rows.drop_last());
    let last = line_text(rows.last());
    if j < rows.len() - 1 {
        a_line_is_written(rows.drop_last(), j);
        words_stay(rest, line_text(rows[j]), Seq::empty(), last);
        assert(Seq::<char>::empty() + rest + last =~= rest + last);
    } else {
        assert(last.subrange(0, last.len() as int) =~= last);
        assert(stands_at(last, last, 0));
        words_stay(last, last, rest, Seq::empty());
        assert(rest + last + Seq::empty() =~= rest + last);
    }
}

proof fn words_stay(s: Seq<char>, word: Seq<char>, before: Seq<char>, after: Seq<char>)
    requires
        holds(s, word),
    ensures
        holds(before + s + after, word),
{
    let at = choose|at: int| #[trigger] stands_at(s, word, at);
    let all = before + s + after;
    let k = before.len() + at;
    assert(all.subrange(k, k + word.len()) =~= s.subrange(at, at + word.len()));
    assert(stands_at(all, word, k));
}

} // verus!
