//! What is shown of a stock: under each label the cell of the column that the label is for.

use vstd::prelude::*;

use crate::columns::{
    comment_asked, diag_prob_asked, diag_text_asked, flow_asked, participation_asked,
    popularity_asked, scores_asked, stats_asked, support_asked, under, valuation_asked, vote_asked,
    Columns,
};
use crate::lookup::{
    all_sections, attempt_lines, attempts_lines, chances_section, chances_sections, comment_section,
    comment_sections, control, diagnosis_section, each_cycle_is_shown_once, first_rows,
    flow_section, flow_sections, found_name, is_first, participation_section,
    participation_sections, popularity_section, popularity_sections, row_views, scores_section,
    scores_sections, stats_sections, support_section, support_sections, valuation_section,
    valuation_sections, vote_section, vote_sections, DASH, LookupRows, SectionView,
};
use crate::text::views;

verus! {

/// Under a label stands the cell of a column.
pub open spec fn shows(
    s: SectionView,
    cols: Columns,
    r: Seq<Seq<char>>,
    label: Seq<char>,
    column: Seq<char>,
) -> bool {
    exists|i: int, k: int|
        {
            &&& 0 <= i < s.rows.len()
            &&& 0 <= k < cols.len()
            &&& (#[trigger] s.rows[i]).0 == label
            &&& (#[trigger] cols[k]).0 == column
            &&& s.rows[i].1 == r[k]
        }
}

/// Under a label stands the cell of a column with a percent sign, but a dash alone.
pub open spec fn shows_share(
    s: SectionView,
    cols: Columns,
    r: Seq<Seq<char>>,
    label: Seq<char>,
    column: Seq<char>,
) -> bool {
    exists|i: int, k: int|
        {
            &&& 0 <= i < s.rows.len()
            &&& 0 <= k < cols.len()
            &&& (#[trigger] s.rows[i]).0 == label
            &&& (#[trigger] cols[k]).0 == column
            &&& s.rows[i].1 == if r[k] == DASH@ {
                DASH@
            } else {
                r[k] + " %"@
            }
        }
}

/// Under a label stands how firmly the share in a column holds a stock.
pub open spec fn shows_control(
    s: SectionView,
    cols: Columns,
    r: Seq<Seq<char>>,
    label: Seq<char>,
    column: Seq<char>,
) -> bool {
    exists|i: int, k: int|
        {
            &&& 0 <= i < s.rows.len()
            &&& 0 <= k < cols.len()
            &&& (#[trigger] s.rows[i]).0 == label
            &&& (#[trigger] cols[k]).0 == column
            &&& s.rows[i].1 == control(r[k])
        }
}

/// Under a label stands the cell of a column out of that of another.
pub open spec fn shows_rank(
    s: SectionView,
    cols: Columns,
    r: Seq<Seq<char>>,
    label: Seq<char>,
    column: Seq<char>,
    total: Seq<char>,
) -> bool {
    exists|i: int, k: int, l: int|
        {
            &&& 0 <= i < s.rows.len()
            &&& 0 <= k < cols.len()
            &&& 0 <= l < cols.len()
            &&& (#[trigger] s.rows[i]).0 == label
            &&& (#[trigger] cols[k]).0 == column
            &&& (#[trigger] cols[l]).0 == total
            &&& s.rows[i].1 == r[k] + " / "@ + r[l]
        }
}

/// The section of the scores: these lines and no other.
pub open spec fn shows_scores(s: SectionView, r: Seq<Seq<char>>) -> bool {
    &&& s.wide == false
    &&& s.rows.len() == 10
    &&& s.title == "百度财经 · 综合评分"@
    &&& shows(s, scores_asked(), r, "批次日"@, "trade_date"@)
    &&& shows(s, scores_asked(), r, "分析日"@, "update_time"@)
    &&& shows(s, scores_asked(), r, "抓取日"@, "crawl_date"@)
    &&& shows(s, scores_asked(), r, "状态"@, "status"@)
    &&& shows(s, scores_asked(), r, "综合评级"@, "synthesis"@)
    &&& shows(s, scores_asked(), r, "技术"@, "technology"@)
    &&& shows(s, scores_asked(), r, "资金"@, "capital"@)
    &&& shows(s, scores_asked(), r, "市场"@, "market"@)
    &&& shows(s, scores_asked(), r, "财务"@, "finance"@)
    &&& shows(s, scores_asked(), r, "是否次新"@, "is_new"@)
}

/// The section of the levels: these lines and no other.
pub open spec fn shows_levels(s: SectionView, r: Seq<Seq<char>>) -> bool {
    &&& s.wide == false
    &&& s.rows.len() == 11
    &&& under(support_asked(), r, "cycle"@, "long"@) ==> s.title == "百度财经 · 支撑/阻力（"@ + "长期"@
        + "）"@
    &&& under(support_asked(), r, "cycle"@, "short"@) ==> s.title == "百度财经 · 支撑/阻力（"@ + "短期"@
        + "）"@
    &&& shows(s, support_asked(), r, "支撑位"@, "support_level"@)
    &&& shows(s, support_asked(), r, "阻力位"@, "resistance_level"@)
    &&& shows(s, support_asked(), r, "智能评级"@, "rating_text"@)
    &&& shows(s, support_asked(), r, "评级等级"@, "rating_level"@)
    &&& shows(s, support_asked(), r, "评级状态"@, "rating_status"@)
    &&& shows(s, support_asked(), r, "行业"@, "industry_name"@)
    &&& shows(s, support_asked(), r, "排名"@, "rank_str"@)
    &&& shows(s, support_asked(), r, "说明"@, "level_desc"@)
    &&& shows(s, support_asked(), r, "看多事件"@, "bullish_events"@)
    &&& shows(s, support_asked(), r, "看空事件"@, "bearish_events"@)
    &&& shows(s, support_asked(), r, "分析日"@, "update_time"@)
}

/// The section of the flow: these lines and no other.
pub open spec fn shows_flow(s: SectionView, r: Seq<Seq<char>>) -> bool {
    &&& s.wide == false
    &&& s.rows.len() == 11
    &&& s.title == "百度财经 · 资金流向（亿）"@
    &&& shows(s, flow_asked(), r, "超大单净额"@, "super_net"@)
    &&& shows(s, flow_asked(), r, "大单净额"@, "large_net"@)
    &&& shows(s, flow_asked(), r, "中单净额"@, "medium_net"@)
    &&& shows(s, flow_asked(), r, "小单净额"@, "little_net"@)
    &&& shows(s, flow_asked(), r, "主力净流入"@, "main_net"@)
    &&& shows(s, flow_asked(), r, "超大占比"@, "super_rate"@)
    &&& shows(s, flow_asked(), r, "大单占比"@, "large_rate"@)
    &&& shows(s, flow_asked(), r, "中单占比"@, "medium_rate"@)
    &&& shows(s, flow_asked(), r, "小单占比"@, "little_rate"@)
    &&& shows(s, flow_asked(), r, "批次日"@, "trade_date"@)
    &&& shows(s, flow_asked(), r, "分析日"@, "update_time"@)
}

/// The section of the votes: these lines and no other.
pub open spec fn shows_votes(s: SectionView, r: Seq<Seq<char>>) -> bool {
    &&& s.wide == false
    &&& s.rows.len() == 10
    &&& s.title == "百度财经 · 看涨/看跌投票"@
    &&& shows(s, vote_asked(), r, "看涨"@, "vote_up"@)
    &&& shows(s, vote_asked(), r, "看跌"@, "vote_down"@)
    &&& shows(s, vote_asked(), r, "总票数"@, "total_num"@)
    &&& shows(s, vote_asked(), r, "看涨率"@, "vote_up_rate"@)
    &&& shows(s, vote_asked(), r, "看跌率"@, "vote_down_rate"@)
    &&& shows(s, vote_asked(), r, "本周看涨"@, "week_up"@)
    &&& shows(s, vote_asked(), r, "本周看跌"@, "week_down"@)
    &&& shows(s, vote_asked(), r, "本周看涨率"@, "week_rate"@)
    &&& shows(s, vote_asked(), r, "批次日"@, "trade_date"@)
    &&& shows(s, vote_asked(), r, "分析日"@, "update_time"@)
}

/// The section of the comment: these lines and no other.
pub open spec fn shows_comment(s: SectionView, r: Seq<Seq<char>>) -> bool {
    &&& s.wide == false
    &&& s.rows.len() == 19
    &&& s.title == "东方财富 · 千股千评"@
    &&& shows(s, comment_asked(), r, "数据日"@, "trade_date"@)
    &&& shows(s, comment_asked(), r, "抓取日"@, "crawl_date"@)
    &&& shows(s, comment_asked(), r, "综合得分"@, "emc_total_score"@)
    &&& shows(s, comment_asked(), r, "全市场排名"@, "emc_rank"@)
    &&& shows(s, comment_asked(), r, "排名变动"@, "emc_rank_up"@)
    &&& shows(s, comment_asked(), r, "关注指数"@, "emc_focus"@)
    &&& shows(s, comment_asked(), r, "机构参与度"@, "emc_org_participate"@)
    &&& shows_control(s, comment_asked(), r, "控盘程度"@, "emc_org_participate"@)
    &&& shows(s, comment_asked(), r, "机构参与比例"@, "emc_ratio"@)
    &&& shows(s, comment_asked(), r, "主力成本(实时)"@, "emc_prime_cost"@)
    &&& shows(s, comment_asked(), r, "主力成本(20日)"@, "emc_prime_cost_20d"@)
    &&& shows(s, comment_asked(), r, "主力成本(60日)"@, "emc_prime_cost_60d"@)
    &&& shows(s, comment_asked(), r, "主力净流入"@, "emc_prime_inflow"@)
    &&& shows(s, comment_asked(), r, "超大单流入"@, "emc_superdeal_in"@)
    &&& shows(s, comment_asked(), r, "超大单流出"@, "emc_superdeal_out"@)
    &&& shows(s, comment_asked(), r, "大单流入"@, "emc_bigdeal_in"@)
    &&& shows(s, comment_asked(), r, "大单流出"@, "emc_bigdeal_out"@)
    &&& shows(s, comment_asked(), r, "买入超大单占比"@, "emc_buy_superdeal_ratio"@)
    &&& shows(s, comment_asked(), r, "买入大单占比"@, "emc_buy_bigdeal_ratio"@)
}

/// The section of the valuation: these lines and no other.
pub open spec fn shows_valuation(s: SectionView, r: Seq<Seq<char>>) -> bool {
    &&& s.wide == false
    &&& s.rows.len() == 12
    &&& s.title == "东方财富 · 基本面估值"@
    &&& shows(s, valuation_asked(), r, "数据日"@, "trade_date"@)
    &&& shows(s, valuation_asked(), r, "抓取日"@, "crawl_date"@)
    &&& shows(s, valuation_asked(), r, "PE(TTM)"@, "emv_pe_ttm"@)
    &&& shows(s, valuation_asked(), r, "PE(LAR)"@, "emv_pe_lar"@)
    &&& shows(s, valuation_asked(), r, "PB(MRQ)"@, "emv_pb_mrq"@)
    &&& shows(s, valuation_asked(), r, "PCF_OCF(LAR)"@, "emv_pcf_ocf_lar"@)
    &&& shows(s, valuation_asked(), r, "PCF_OCF(TTM)"@, "emv_pcf_ocf_ttm"@)
    &&& shows(s, valuation_asked(), r, "PS(TTM)"@, "emv_ps_ttm"@)
    &&& shows(s, valuation_asked(), r, "PEG"@, "emv_peg"@)
    &&& shows(s, valuation_asked(), r, "总市值"@, "emv_total_market_cap"@)
    &&& shows(s, valuation_asked(), r, "流通市值"@, "emv_float_market_cap"@)
    &&& shows(s, valuation_asked(), r, "板块"@, "emv_board"@)
}

/// The section of the chances: these lines and no other.
pub open spec fn shows_chances(s: SectionView, r: Seq<Seq<char>>) -> bool {
    &&& s.wide == false
    &&& s.rows.len() == 9
    &&& s.title == "东方财富 · 诊断概率"@
    &&& shows(s, diag_prob_asked(), r, "数据日"@, "trade_date"@)
    &&& shows_share(s, diag_prob_asked(), r, "次日上涨概率"@, "emt_rise_1_prob"@)
    &&& shows_share(s, diag_prob_asked(), r, "5日上涨概率"@, "emt_rise_5_prob"@)
    &&& shows(s, diag_prob_asked(), r, "次日平均涨跌"@, "emt_avg_1_inc"@)
    &&& shows(s, diag_prob_asked(), r, "5日平均涨跌"@, "emt_avg_5_inc"@)
    &&& shows_share(s, diag_prob_asked(), r, "打败比例"@, "emt_rank_ratio"@)
    &&& shows(s, diag_prob_asked(), r, "样本数(次日)"@, "emt_all_count_1"@)
    &&& shows(s, diag_prob_asked(), r, "样本数(5日)"@, "emt_all_count_5"@)
    &&& shows(s, diag_prob_asked(), r, "抓取日"@, "crawl_date"@)
}

/// The section of the wish: these lines and no other.
pub open spec fn shows_wish(s: SectionView, r: Seq<Seq<char>>) -> bool {
    &&& s.wide == false
    &&& s.rows.len() == 6
    &&& s.title == "东方财富 · 参与意愿"@
    &&& shows(s, participation_asked(), r, "数据日"@, "trade_date"@)
    &&& shows(s, participation_asked(), r, "当日参与意愿值"@, "emp_wish"@)
    &&& shows(s, participation_asked(), r, "五日平均参与意愿值"@, "emp_wish_5d"@)
    &&& shows(s, participation_asked(), r, "当日参与意愿变化%"@, "emp_wish_change"@)
    &&& shows(s, participation_asked(), r, "五日参与意愿变化%"@, "emp_wish_5d_change"@)
    &&& shows(s, participation_asked(), r, "抓取日"@, "crawl_date"@)
}

/// The section of the ranks: these lines and no other.
pub open spec fn shows_ranks(s: SectionView, r: Seq<Seq<char>>) -> bool {
    &&& s.wide == false
    &&& s.rows.len() == 8
    &&& s.title == "东方财富 · 市场排名"@
    &&& shows(s, popularity_asked(), r, "数据日"@, "trade_date"@)
    &&& shows_rank(s, popularity_asked(), r, "综合市场排名"@, "emp_market_rank"@, "emp_market_num"@)
    &&& shows(s, popularity_asked(), r, "行业排名"@, "emp_industry_rank"@)
    &&& shows(s, popularity_asked(), r, "综合得分变化率%"@, "emp_change_rate"@)
    &&& shows(s, popularity_asked(), r, "全市场股票数"@, "emp_market_stock_num"@)
    &&& shows_rank(s, popularity_asked(), r, "关注排名"@, "emp_focus_rank"@, "emp_focus_total"@)
    &&& shows(s, popularity_asked(), r, "关注指数"@, "emp_focus_index"@)
    &&& shows(s, popularity_asked(), r, "抓取日"@, "crawl_date"@)
}

/// The section of the words: these lines and no other.
pub open spec fn shows_words(s: SectionView, r: Seq<Seq<char>>) -> bool {
    &&& s.wide == true
    &&& s.rows.len() == 4
    &&& s.title == "东方财富 · 定性诊断"@
    &&& shows(s, diag_text_asked(), r, "数据日"@, "trade_date"@)
    &&& shows(s, diag_text_asked(), r, "趋势量能/支撑压力"@, "emt_comment_txt"@)
    &&& shows(s, diag_text_asked(), r, "消息面/资金面"@, "emt_words_explain"@)
    &&& shows(s, diag_text_asked(), r, "抓取日"@, "crawl_date"@)
}

proof fn scores_fit(r: Seq<Seq<char>>)
    requires
        r.len() == 12,
    ensures
        shows_scores(scores_section(r), r),
{
    let s = scores_section(r);
    let cols = scores_asked();
    assert(s.rows[0].0 == "批次日"@ && cols[0].0 == "trade_date"@);
    assert(s.rows[1].0 == "分析日"@ && cols[9].0 == "update_time"@);
    assert(s.rows[2].0 == "抓取日"@ && cols[10].0 == "crawl_date"@);
    assert(s.rows[3].0 == "状态"@ && cols[11].0 == "status"@);
    assert(s.rows[4].0 == "综合评级"@ && cols[3].0 == "synthesis"@);
    assert(s.rows[5].0 == "技术"@ && cols[4].0 == "technology"@);
    assert(s.rows[6].0 == "资金"@ && cols[5].0 == "capital"@);
    assert(s.rows[7].0 == "市场"@ && cols[6].0 == "market"@);
    assert(s.rows[8].0 == "财务"@ && cols[7].0 == "finance"@);
    assert(s.rows[9].0 == "是否次新"@ && cols[8].0 == "is_new"@);
}

proof fn levels_fit(r: Seq<Seq<char>>)
    requires
        r.len() == 13,
    ensures
        shows_levels(support_section(r), r),
{
    let s = support_section(r);
    let cols = support_asked();
    assert(s.rows[0].0 == "支撑位"@ && cols[1].0 == "support_level"@);
    assert(s.rows[1].0 == "阻力位"@ && cols[2].0 == "resistance_level"@);
    assert(s.rows[2].0 == "智能评级"@ && cols[4].0 == "rating_text"@);
    assert(s.rows[3].0 == "评级等级"@ && cols[5].0 == "rating_level"@);
    assert(s.rows[4].0 == "评级状态"@ && cols[6].0 == "rating_status"@);
    assert(s.rows[5].0 == "行业"@ && cols[10].0 == "industry_name"@);
    assert(s.rows[6].0 == "排名"@ && cols[9].0 == "rank_str"@);
    assert(s.rows[7].0 == "说明"@ && cols[3].0 == "level_desc"@);
    assert(s.rows[8].0 == "看多事件"@ && cols[7].0 == "bullish_events"@);
    assert(s.rows[9].0 == "看空事件"@ && cols[8].0 == "bearish_events"@);
    assert(s.rows[10].0 == "分析日"@ && cols[11].0 == "update_time"@);
    only_one_cycle(r);
}

proof fn flow_fit(r: Seq<Seq<char>>)
    requires
        r.len() == 11,
    ensures
        shows_flow(flow_section(r), r),
{
    let s = flow_section(r);
    let cols = flow_asked();
    assert(s.rows[0].0 == "超大单净额"@ && cols[0].0 == "super_net"@);
    assert(s.rows[1].0 == "大单净额"@ && cols[1].0 == "large_net"@);
    assert(s.rows[2].0 == "中单净额"@ && cols[2].0 == "medium_net"@);
    assert(s.rows[3].0 == "小单净额"@ && cols[3].0 == "little_net"@);
    assert(s.rows[4].0 == "主力净流入"@ && cols[4].0 == "main_net"@);
    assert(s.rows[5].0 == "超大占比"@ && cols[5].0 == "super_rate"@);
    assert(s.rows[6].0 == "大单占比"@ && cols[6].0 == "large_rate"@);
    assert(s.rows[7].0 == "中单占比"@ && cols[7].0 == "medium_rate"@);
    assert(s.rows[8].0 == "小单占比"@ && cols[8].0 == "little_rate"@);
    assert(s.rows[9].0 == "批次日"@ && cols[9].0 == "trade_date"@);
    assert(s.rows[10].0 == "分析日"@ && cols[10].0 == "update_time"@);
}

proof fn votes_fit(r: Seq<Seq<char>>)
    requires
        r.len() == 10,
    ensures
        shows_votes(vote_section(r), r),
{
    let s = vote_section(r);
    let cols = vote_asked();
    assert(s.rows[0].0 == "看涨"@ && cols[0].0 == "vote_up"@);
    assert(s.rows[1].0 == "看跌"@ && cols[1].0 == "vote_down"@);
    assert(s.rows[2].0 == "总票数"@ && cols[2].0 == "total_num"@);
    assert(s.rows[3].0 == "看涨率"@ && cols[3].0 == "vote_up_rate"@);
    assert(s.rows[4].0 == "看跌率"@ && cols[4].0 == "vote_down_rate"@);
    assert(s.rows[5].0 == "本周看涨"@ && cols[5].0 == "week_up"@);
    assert(s.rows[6].0 == "本周看跌"@ && cols[6].0 == "week_down"@);
    assert(s.rows[7].0 == "本周看涨率"@ && cols[7].0 == "week_rate"@);
    assert(s.rows[8].0 == "批次日"@ && cols[8].0 == "trade_date"@);
    assert(s.rows[9].0 == "分析日"@ && cols[9].0 == "update_time"@);
}

proof fn comment_fit(r: Seq<Seq<char>>)
    requires
        r.len() == 19,
    ensures
        shows_comment(comment_section(r), r),
{
    let s = comment_section(r);
    let cols = comment_asked();
    assert(s.rows[0].0 == "数据日"@ && cols[1].0 == "trade_date"@);
    assert(s.rows[1].0 == "抓取日"@ && cols[18].0 == "crawl_date"@);
    assert(s.rows[2].0 == "综合得分"@ && cols[2].0 == "emc_total_score"@);
    assert(s.rows[3].0 == "全市场排名"@ && cols[3].0 == "emc_rank"@);
    assert(s.rows[4].0 == "排名变动"@ && cols[4].0 == "emc_rank_up"@);
    assert(s.rows[5].0 == "关注指数"@ && cols[5].0 == "emc_focus"@);
    assert(s.rows[6].0 == "机构参与度"@ && cols[6].0 == "emc_org_participate"@);
    assert(s.rows[7].0 == "控盘程度"@ && cols[6].0 == "emc_org_participate"@);
    assert(s.rows[8].0 == "机构参与比例"@ && cols[7].0 == "emc_ratio"@);
    assert(s.rows[9].0 == "主力成本(实时)"@ && cols[8].0 == "emc_prime_cost"@);
    assert(s.rows[10].0 == "主力成本(20日)"@ && cols[9].0 == "emc_prime_cost_20d"@);
    assert(s.rows[11].0 == "主力成本(60日)"@ && cols[10].0 == "emc_prime_cost_60d"@);
    assert(s.rows[12].0 == "主力净流入"@ && cols[11].0 == "emc_prime_inflow"@);
    assert(s.rows[13].0 == "超大单流入"@ && cols[12].0 == "emc_superdeal_in"@);
    assert(s.rows[14].0 == "超大单流出"@ && cols[13].0 == "emc_superdeal_out"@);
    assert(s.rows[15].0 == "大单流入"@ && cols[14].0 == "emc_bigdeal_in"@);
    assert(s.rows[16].0 == "大单流出"@ && cols[15].0 == "emc_bigdeal_out"@);
    assert(s.rows[17].0 == "买入超大单占比"@ && cols[16].0 == "emc_buy_superdeal_ratio"@);
    assert(s.rows[18].0 == "买入大单占比"@ && cols[17].0 == "emc_buy_bigdeal_ratio"@);
}

proof fn valuation_fit(r: Seq<Seq<char>>)
    requires
        r.len() == 13,
    ensures
        shows_valuation(valuation_section(r), r),
{
    let s = valuation_section(r);
    let cols = valuation_asked();
    assert(s.rows[0].0 == "数据日"@ && cols[1].0 == "trade_date"@);
    assert(s.rows[1].0 == "抓取日"@ && cols[12].0 == "crawl_date"@);
    assert(s.rows[2].0 == "PE(TTM)"@ && cols[2].0 == "emv_pe_ttm"@);
    assert(s.rows[3].0 == "PE(LAR)"@ && cols[3].0 == "emv_pe_lar"@);
    assert(s.rows[4].0 == "PB(MRQ)"@ && cols[4].0 == "emv_pb_mrq"@);
    assert(s.rows[5].0 == "PCF_OCF(LAR)"@ && cols[5].0 == "emv_pcf_ocf_lar"@);
    assert(s.rows[6].0 == "PCF_OCF(TTM)"@ && cols[6].0 == "emv_pcf_ocf_ttm"@);
    assert(s.rows[7].0 == "PS(TTM)"@ && cols[7].0 == "emv_ps_ttm"@);
    assert(s.rows[8].0 == "PEG"@ && cols[8].0 == "emv_peg"@);
    assert(s.rows[9].0 == "总市值"@ && cols[9].0 == "emv_total_market_cap"@);
    assert(s.rows[10].0 == "流通市值"@ && cols[10].0 == "emv_float_market_cap"@);
    assert(s.rows[11].0 == "板块"@ && cols[11].0 == "emv_board"@);
}

proof fn chances_fit(r: Seq<Seq<char>>)
    requires
        r.len() == 9,
    ensures
        shows_chances(chances_section(r), r),
{
    let s = chances_section(r);
    let cols = diag_prob_asked();
    assert(s.rows[0].0 == "数据日"@ && cols[0].0 == "trade_date"@);
    assert(s.rows[1].0 == "次日上涨概率"@ && cols[1].0 == "emt_rise_1_prob"@);
    assert(s.rows[2].0 == "5日上涨概率"@ && cols[2].0 == "emt_rise_5_prob"@);
    assert(s.rows[3].0 == "次日平均涨跌"@ && cols[3].0 == "emt_avg_1_inc"@);
    assert(s.rows[4].0 == "5日平均涨跌"@ && cols[4].0 == "emt_avg_5_inc"@);
    assert(s.rows[5].0 == "打败比例"@ && cols[7].0 == "emt_rank_ratio"@);
    assert(s.rows[6].0 == "样本数(次日)"@ && cols[5].0 == "emt_all_count_1"@);
    assert(s.rows[7].0 == "样本数(5日)"@ && cols[6].0 == "emt_all_count_5"@);
    assert(s.rows[8].0 == "抓取日"@ && cols[8].0 == "crawl_date"@);
}

proof fn wish_fit(r: Seq<Seq<char>>)
    requires
        r.len() == 6,
    ensures
        shows_wish(participation_section(r), r),
{
    let s = participation_section(r);
    let cols = participation_asked();
    assert(s.rows[0].0 == "数据日"@ && cols[0].0 == "trade_date"@);
    assert(s.rows[1].0 == "当日参与意愿值"@ && cols[1].0 == "emp_wish"@);
    assert(s.rows[2].0 == "五日平均参与意愿值"@ && cols[2].0 == "emp_wish_5d"@);
    assert(s.rows[3].0 == "当日参与意愿变化%"@ && cols[3].0 == "emp_wish_change"@);
    assert(s.rows[4].0 == "五日参与意愿变化%"@ && cols[4].0 == "emp_wish_5d_change"@);
    assert(s.rows[5].0 == "抓取日"@ && cols[5].0 == "crawl_date"@);
}

proof fn ranks_fit(r: Seq<Seq<char>>)
    requires
        r.len() == 10,
    ensures
        shows_ranks(popularity_section(r), r),
{
    let s = popularity_section(r);
    let cols = popularity_asked();
    assert(s.rows[0].0 == "数据日"@ && cols[0].0 == "trade_date"@);
    assert(s.rows[1].0 == "综合市场排名"@ && cols[1].0 == "emp_market_rank"@);
    assert(cols[2].0 == "emp_market_num"@);
    assert(s.rows[1].1 == r[1] + " / "@ + r[2]);
    assert(s.rows[2].0 == "行业排名"@ && cols[3].0 == "emp_industry_rank"@);
    assert(s.rows[3].0 == "综合得分变化率%"@ && cols[4].0 == "emp_change_rate"@);
    assert(s.rows[4].0 == "全市场股票数"@ && cols[5].0 == "emp_market_stock_num"@);
    assert(s.rows[5].0 == "关注排名"@ && cols[6].0 == "emp_focus_rank"@);
    assert(cols[7].0 == "emp_focus_total"@);
    assert(s.rows[5].1 == r[6] + " / "@ + r[7]);
    assert(s.rows[6].0 == "关注指数"@ && cols[8].0 == "emp_focus_index"@);
    assert(s.rows[7].0 == "抓取日"@ && cols[9].0 == "crawl_date"@);
}

proof fn words_fit(r: Seq<Seq<char>>)
    requires
        r.len() == 4,
    ensures
        shows_words(diagnosis_section(r), r),
{
    let s = diagnosis_section(r);
    let cols = diag_text_asked();
    assert(s.rows[0].0 == "数据日"@ && cols[0].0 == "trade_date"@);
    assert(s.rows[1].0 == "趋势量能/支撑压力"@ && cols[1].0 == "emt_comment_txt"@);
    assert(s.rows[2].0 == "消息面/资金面"@ && cols[2].0 == "emt_words_explain"@);
    assert(s.rows[3].0 == "抓取日"@ && cols[3].0 == "crawl_date"@);
}

proof fn only_one_cycle(r: Seq<Seq<char>>)
    requires
        r.len() == 13,
    ensures
        forall|value: Seq<char>| #[trigger]
            under(support_asked(), r, "cycle"@, value) ==> value == r[0],
        "long"@ != "short"@,
{
    reveal_strlit("cycle");
    reveal_strlit("support_level");
    reveal_strlit("resistance_level");
    reveal_strlit("level_desc");
    reveal_strlit("rating_text");
    reveal_strlit("rating_level");
    reveal_strlit("rating_status");
    reveal_strlit("bullish_events");
    reveal_strlit("bearish_events");
    reveal_strlit("rank_str");
    reveal_strlit("industry_name");
    reveal_strlit("update_time");
    reveal_strlit("trade_date");
    reveal_strlit("long");
    reveal_strlit("short");
    assert("long"@.len() == 4 && "short"@.len() == 5);
    let cols = support_asked();
    assert(cols[1].0.len() == 13);
    assert(cols[2].0.len() == 16);
    assert(cols[3].0.len() == 10);
    assert(cols[4].0.len() == 11);
    assert(cols[5].0.len() == 12);
    assert(cols[6].0.len() == 13);
    assert(cols[7].0.len() == 14);
    assert(cols[8].0.len() == 14);
    assert(cols[9].0.len() == 8);
    assert(cols[10].0.len() == 13);
    assert(cols[11].0.len() == 11);
    assert(cols[12].0.len() == 10);
    assert("cycle"@.len() == 5);
    assert forall|value: Seq<char>| #[trigger] under(support_asked(), r, "cycle"@,
        value) implies value
        == r[0] by {
        let k = choose|k: int|
            {
                &&& 0 <= k < cols.len()
                &&& 0 <= k < r.len()
                &&& (#[trigger] cols[k]).0 == "cycle"@
                &&& r[k] == value
            };
        assert(cols[k].0.len() == 5);
        assert(k == 0);
    }
}

// ---------------------------------------------------------------- laws

/// The row of the scores is shown, under its labels.
pub proof fn scores_are_shown(rows: LookupRows)
    requires
        rows.wf(),
        rows.scores is Some,
    ensures
        exists|k: int|
            0 <= k < all_sections(rows).len() && shows_scores(
                #[trigger] all_sections(rows)[k],
                views((rows.scores->0)@),
            ),
{
    let r = views((rows.scores->0)@);
    scores_fit(r);
    let k: int = (0) as int;
    assert(all_sections(rows)[k] == scores_section(r));
}

/// The first row of each cycle is shown, under its labels.
pub proof fn levels_are_shown(rows: LookupRows, i: int)
    requires
        rows.wf(),
        0 <= i < rows.support@.len(),
        is_first(row_views(rows.support@), i),
    ensures
        exists|k: int|
            0 <= k < all_sections(rows).len() && shows_levels(
                #[trigger] all_sections(rows)[k],
                views(rows.support@[i]@),
            ),
{
    let all = row_views(rows.support@);
    let r = views(rows.support@[i]@);
    each_cycle_is_shown_once(all);
    assert(all[i] == r);
    let j = choose|j: int| 0 <= j < first_rows(all).len() && first_rows(all)[j] == r;
    levels_fit(r);
    assert(support_sections(all)[j] == support_section(r));
    let k: int = scores_sections(rows.scores).len() + j;
    assert(all_sections(rows)[k] == support_section(r));
}

/// The row of the flow is shown, under its labels.
pub proof fn flow_are_shown(rows: LookupRows)
    requires
        rows.wf(),
        rows.fund_flow is Some,
    ensures
        exists|k: int|
            0 <= k < all_sections(rows).len() && shows_flow(
                #[trigger] all_sections(rows)[k],
                views((rows.fund_flow->0)@),
            ),
{
    let r = views((rows.fund_flow->0)@);
    flow_fit(r);
    let k: int = (scores_sections(rows.scores).len()
        + support_sections(row_views(rows.support@)).len()) as int;
    assert(all_sections(rows)[k] == flow_section(r));
}

/// The row of the votes is shown, under its labels.
pub proof fn votes_are_shown(rows: LookupRows)
    requires
        rows.wf(),
        rows.vote is Some,
    ensures
        exists|k: int|
            0 <= k < all_sections(rows).len() && shows_votes(
                #[trigger] all_sections(rows)[k],
                views((rows.vote->0)@),
            ),
{
    let r = views((rows.vote->0)@);
    votes_fit(r);
    let k: int = (scores_sections(rows.scores).len()
        + support_sections(row_views(rows.support@)).len()
        + flow_sections(rows.fund_flow).len()) as int;
    assert(all_sections(rows)[k] == vote_section(r));
}

/// The row of the comment is shown, under its labels.
pub proof fn comment_are_shown(rows: LookupRows)
    requires
        rows.wf(),
        rows.em_comment is Some,
    ensures
        exists|k: int|
            0 <= k < all_sections(rows).len() && shows_comment(
                #[trigger] all_sections(rows)[k],
                views((rows.em_comment->0)@),
            ),
{
    let r = views((rows.em_comment->0)@);
    comment_fit(r);
    let k: int = (scores_sections(rows.scores).len()
        + support_sections(row_views(rows.support@)).len() + flow_sections(rows.fund_flow).len()
        + vote_sections(rows.vote).len()) as int;
    assert(all_sections(rows)[k] == comment_section(r));
}

/// The row of the valuation is shown, under its labels.
pub proof fn valuation_are_shown(rows: LookupRows)
    requires
        rows.wf(),
        rows.em_valuation is Some,
    ensures
        exists|k: int|
            0 <= k < all_sections(rows).len() && shows_valuation(
                #[trigger] all_sections(rows)[k],
                views((rows.em_valuation->0)@),
            ),
{
    let r = views((rows.em_valuation->0)@);
    valuation_fit(r);
    let k: int = (scores_sections(rows.scores).len()
        + support_sections(row_views(rows.support@)).len() + flow_sections(rows.fund_flow).len()
        + vote_sections(rows.vote).len() + comment_sections(rows.em_comment).len()) as int;
    assert(all_sections(rows)[k] == valuation_section(r));
}

/// The row of the chances is shown, under its labels.
pub proof fn chances_are_shown(rows: LookupRows)
    requires
        rows.wf(),
        rows.em_diag_prob is Some,
    ensures
        exists|k: int|
            0 <= k < all_sections(rows).len() && shows_chances(
                #[trigger] all_sections(rows)[k],
                views((rows.em_diag_prob->0)@),
            ),
{
    let r = views((rows.em_diag_prob->0)@);
    chances_fit(r);
    let k: int = (scores_sections(rows.scores).len()
        + support_sections(row_views(rows.support@)).len() + flow_sections(rows.fund_flow).len()
        + vote_sections(rows.vote).len() + comment_sections(rows.em_comment).len()
        + valuation_sections(rows.em_valuation).len()) as int;
    assert(all_sections(rows)[k] == chances_section(r));
}

/// The row of the wish is shown, under its labels.
pub proof fn wish_are_shown(rows: LookupRows)
    requires
        rows.wf(),
        rows.em_participation is Some,
    ensures
        exists|k: int|
            0 <= k < all_sections(rows).len() && shows_wish(
                #[trigger] all_sections(rows)[k],
                views((rows.em_participation->0)@),
            ),
{
    let r = views((rows.em_participation->0)@);
    wish_fit(r);
    let k: int = (scores_sections(rows.scores).len()
        + support_sections(row_views(rows.support@)).len() + flow_sections(rows.fund_flow).len()
        + vote_sections(rows.vote).len() + comment_sections(rows.em_comment).len()
        + valuation_sections(rows.em_valuation).len()
        + chances_sections(rows.em_diag_prob).len()) as int;
    assert(all_sections(rows)[k] == participation_section(r));
}

/// The row of the ranks is shown, under its labels.
pub proof fn ranks_are_shown(rows: LookupRows)
    requires
        rows.wf(),
        rows.em_popularity is Some,
    ensures
        exists|k: int|
            0 <= k < all_sections(rows).len() && shows_ranks(
                #[trigger] all_sections(rows)[k],
                views((rows.em_popularity->0)@),
            ),
{
    let r = views((rows.em_popularity->0)@);
    ranks_fit(r);
    let k: int = (scores_sections(rows.scores).len()
        + support_sections(row_views(rows.support@)).len() + flow_sections(rows.fund_flow).len()
        + vote_sections(rows.vote).len() + comment_sections(rows.em_comment).len()
        + valuation_sections(rows.em_valuation).len() + chances_sections(rows.em_diag_prob).len()
        + participation_sections(rows.em_participation).len()) as int;
    assert(all_sections(rows)[k] == popularity_section(r));
}

/// The row of the words is shown, under its labels.
pub proof fn words_are_shown(rows: LookupRows)
    requires
        rows.wf(),
        rows.em_diag_text is Some,
    ensures
        exists|k: int|
            0 <= k < all_sections(rows).len() && shows_words(
                #[trigger] all_sections(rows)[k],
                views((rows.em_diag_text->0)@),
            ),
{
    let r = views((rows.em_diag_text->0)@);
    words_fit(r);
    let k: int = (scores_sections(rows.scores).len()
        + support_sections(row_views(rows.support@)).len() + flow_sections(rows.fund_flow).len()
        + vote_sections(rows.vote).len() + comment_sections(rows.em_comment).len()
        + valuation_sections(rows.em_valuation).len() + chances_sections(rows.em_diag_prob).len()
        + participation_sections(rows.em_participation).len()
        + popularity_sections(rows.em_popularity).len()) as int;
    assert(all_sections(rows)[k] == diagnosis_section(r));
}

/// Rows of the scores that differ in a column that is shown are not shown alike.
pub proof fn scores_that_differ_show(a: Seq<Seq<char>>, b: Seq<Seq<char>>)
    requires
        a.len() == 12,
        b.len() == 12,
        scores_section(a) == scores_section(b),
    ensures
        forall|value: Seq<char>| value == a[0] ==> #[trigger] under(scores_asked(), b,
            "trade_date"@, value),
        forall|value: Seq<char>| value == a[9] ==> #[trigger] under(scores_asked(), b,
            "update_time"@, value),
        forall|value: Seq<char>| value == a[10] ==> #[trigger] under(scores_asked(), b,
            "crawl_date"@, value),
        forall|value: Seq<char>| value == a[11] ==> #[trigger] under(scores_asked(), b, "status"@,
            value),
        forall|value: Seq<char>| value == a[3] ==> #[trigger] under(scores_asked(), b, "synthesis"@,
            value),
        forall|value: Seq<char>| value == a[4] ==> #[trigger] under(scores_asked(), b,
            "technology"@, value),
        forall|value: Seq<char>| value == a[5] ==> #[trigger] under(scores_asked(), b, "capital"@,
            value),
        forall|value: Seq<char>| value == a[6] ==> #[trigger] under(scores_asked(), b, "market"@,
            value),
        forall|value: Seq<char>| value == a[7] ==> #[trigger] under(scores_asked(), b, "finance"@,
            value),
        forall|value: Seq<char>| value == a[8] ==> #[trigger] under(scores_asked(), b, "is_new"@,
            value),
{
    let cols = scores_asked();
    assert(scores_section(a).rows[0].1 == scores_section(b).rows[0].1);
    assert(cols[0].0 == "trade_date"@ && a[0] == b[0]);
    assert(scores_section(a).rows[1].1 == scores_section(b).rows[1].1);
    assert(cols[9].0 == "update_time"@ && a[9] == b[9]);
    assert(scores_section(a).rows[2].1 == scores_section(b).rows[2].1);
    assert(cols[10].0 == "crawl_date"@ && a[10] == b[10]);
    assert(scores_section(a).rows[3].1 == scores_section(b).rows[3].1);
    assert(cols[11].0 == "status"@ && a[11] == b[11]);
    assert(scores_section(a).rows[4].1 == scores_section(b).rows[4].1);
    assert(cols[3].0 == "synthesis"@ && a[3] == b[3]);
    assert(scores_section(a).rows[5].1 == scores_section(b).rows[5].1);
    assert(cols[4].0 == "technology"@ && a[4] == b[4]);
    assert(scores_section(a).rows[6].1 == scores_section(b).rows[6].1);
    assert(cols[5].0 == "capital"@ && a[5] == b[5]);
    assert(scores_section(a).rows[7].1 == scores_section(b).rows[7].1);
    assert(cols[6].0 == "market"@ && a[6] == b[6]);
    assert(scores_section(a).rows[8].1 == scores_section(b).rows[8].1);
    assert(cols[7].0 == "finance"@ && a[7] == b[7]);
    assert(scores_section(a).rows[9].1 == scores_section(b).rows[9].1);
    assert(cols[8].0 == "is_new"@ && a[8] == b[8]);
}

/// Rows of the levels that differ in a column that is shown are not shown alike.
pub proof fn levels_that_differ_show(a: Seq<Seq<char>>, b: Seq<Seq<char>>)
    requires
        a.len() == 13,
        b.len() == 13,
        support_section(a) == support_section(b),
    ensures
        forall|value: Seq<char>| value == a[1] ==> #[trigger] under(support_asked(), b,
            "support_level"@, value),
        forall|value: Seq<char>| value == a[2] ==> #[trigger] under(support_asked(), b,
            "resistance_level"@, value),
        forall|value: Seq<char>| value == a[4] ==> #[trigger] under(support_asked(), b,
            "rating_text"@, value),
        forall|value: Seq<char>| value == a[5] ==> #[trigger] under(support_asked(), b,
            "rating_level"@, value),
        forall|value: Seq<char>| value == a[6] ==> #[trigger] under(support_asked(), b,
            "rating_status"@, value),
        forall|value: Seq<char>| value == a[10] ==> #[trigger] under(support_asked(), b,
            "industry_name"@, value),
        forall|value: Seq<char>| value == a[9] ==> #[trigger] under(support_asked(), b, "rank_str"@,
            value),
        forall|value: Seq<char>| value == a[3] ==> #[trigger] under(support_asked(), b,
            "level_desc"@, value),
        forall|value: Seq<char>| value == a[7] ==> #[trigger] under(support_asked(), b,
            "bullish_events"@, value),
        forall|value: Seq<char>| value == a[8] ==> #[trigger] under(support_asked(), b,
            "bearish_events"@, value),
        forall|value: Seq<char>| value == a[11] ==> #[trigger] under(support_asked(), b,
            "update_time"@, value),
{
    let cols = support_asked();
    assert(support_section(a).rows[0].1 == support_section(b).rows[0].1);
    assert(cols[1].0 == "support_level"@ && a[1] == b[1]);
    assert(support_section(a).rows[1].1 == support_section(b).rows[1].1);
    assert(cols[2].0 == "resistance_level"@ && a[2] == b[2]);
    assert(support_section(a).rows[2].1 == support_section(b).rows[2].1);
    assert(cols[4].0 == "rating_text"@ && a[4] == b[4]);
    assert(support_section(a).rows[3].1 == support_section(b).rows[3].1);
    assert(cols[5].0 == "rating_level"@ && a[5] == b[5]);
    assert(support_section(a).rows[4].1 == support_section(b).rows[4].1);
    assert(cols[6].0 == "rating_status"@ && a[6] == b[6]);
    assert(support_section(a).rows[5].1 == support_section(b).rows[5].1);
    assert(cols[10].0 == "industry_name"@ && a[10] == b[10]);
    assert(support_section(a).rows[6].1 == support_section(b).rows[6].1);
    assert(cols[9].0 == "rank_str"@ && a[9] == b[9]);
    assert(support_section(a).rows[7].1 == support_section(b).rows[7].1);
    assert(cols[3].0 == "level_desc"@ && a[3] == b[3]);
    assert(support_section(a).rows[8].1 == support_section(b).rows[8].1);
    assert(cols[7].0 == "bullish_events"@ && a[7] == b[7]);
    assert(support_section(a).rows[9].1 == support_section(b).rows[9].1);
    assert(cols[8].0 == "bearish_events"@ && a[8] == b[8]);
    assert(support_section(a).rows[10].1 == support_section(b).rows[10].1);
    assert(cols[11].0 == "update_time"@ && a[11] == b[11]);
}

/// Rows of the flow that differ in a column that is shown are not shown alike.
pub proof fn flow_that_differ_show(a: Seq<Seq<char>>, b: Seq<Seq<char>>)
    requires
        a.len() == 11,
        b.len() == 11,
        flow_section(a) == flow_section(b),
    ensures
        forall|value: Seq<char>| value == a[0] ==> #[trigger] under(flow_asked(), b, "super_net"@,
            value),
        forall|value: Seq<char>| value == a[1] ==> #[trigger] under(flow_asked(), b, "large_net"@,
            value),
        forall|value: Seq<char>| value == a[2] ==> #[trigger] under(flow_asked(), b, "medium_net"@,
            value),
        forall|value: Seq<char>| value == a[3] ==> #[trigger] under(flow_asked(), b, "little_net"@,
            value),
        forall|value: Seq<char>| value == a[4] ==> #[trigger] under(flow_asked(), b, "main_net"@,
            value),
        forall|value: Seq<char>| value == a[5] ==> #[trigger] under(flow_asked(), b, "super_rate"@,
            value),
        forall|value: Seq<char>| value == a[6] ==> #[trigger] under(flow_asked(), b, "large_rate"@,
            value),
        forall|value: Seq<char>| value == a[7] ==> #[trigger] under(flow_asked(), b, "medium_rate"@,
            value),
        forall|value: Seq<char>| value == a[8] ==> #[trigger] under(flow_asked(), b, "little_rate"@,
            value),
        forall|value: Seq<char>| value == a[9] ==> #[trigger] under(flow_asked(), b, "trade_date"@,
            value),
        forall|value: Seq<char>| value == a[10] ==> #[trigger] under(flow_asked(), b,
            "update_time"@, value),
{
    let cols = flow_asked();
    assert(flow_section(a).rows[0].1 == flow_section(b).rows[0].1);
    assert(cols[0].0 == "super_net"@ && a[0] == b[0]);
    assert(flow_section(a).rows[1].1 == flow_section(b).rows[1].1);
    assert(cols[1].0 == "large_net"@ && a[1] == b[1]);
    assert(flow_section(a).rows[2].1 == flow_section(b).rows[2].1);
    assert(cols[2].0 == "medium_net"@ && a[2] == b[2]);
    assert(flow_section(a).rows[3].1 == flow_section(b).rows[3].1);
    assert(cols[3].0 == "little_net"@ && a[3] == b[3]);
    assert(flow_section(a).rows[4].1 == flow_section(b).rows[4].1);
    assert(cols[4].0 == "main_net"@ && a[4] == b[4]);
    assert(flow_section(a).rows[5].1 == flow_section(b).rows[5].1);
    assert(cols[5].0 == "super_rate"@ && a[5] == b[5]);
    assert(flow_section(a).rows[6].1 == flow_section(b).rows[6].1);
    assert(cols[6].0 == "large_rate"@ && a[6] == b[6]);
    assert(flow_section(a).rows[7].1 == flow_section(b).rows[7].1);
    assert(cols[7].0 == "medium_rate"@ && a[7] == b[7]);
    assert(flow_section(a).rows[8].1 == flow_section(b).rows[8].1);
    assert(cols[8].0 == "little_rate"@ && a[8] == b[8]);
    assert(flow_section(a).rows[9].1 == flow_section(b).rows[9].1);
    assert(cols[9].0 == "trade_date"@ && a[9] == b[9]);
    assert(flow_section(a).rows[10].1 == flow_section(b).rows[10].1);
    assert(cols[10].0 == "update_time"@ && a[10] == b[10]);
}

/// Rows of the votes that differ in a column that is shown are not shown alike.
pub proof fn votes_that_differ_show(a: Seq<Seq<char>>, b: Seq<Seq<char>>)
    requires
        a.len() == 10,
        b.len() == 10,
        vote_section(a) == vote_section(b),
    ensures
        forall|value: Seq<char>| value == a[0] ==> #[trigger] under(vote_asked(), b, "vote_up"@,
            value),
        forall|value: Seq<char>| value == a[1] ==> #[trigger] under(vote_asked(), b, "vote_down"@,
            value),
        forall|value: Seq<char>| value == a[2] ==> #[trigger] under(vote_asked(), b, "total_num"@,
            value),
        forall|value: Seq<char>| value == a[3] ==> #[trigger] under(vote_asked(), b,
            "vote_up_rate"@, value),
        forall|value: Seq<char>| value == a[4] ==> #[trigger] under(vote_asked(), b,
            "vote_down_rate"@, value),
        forall|value: Seq<char>| value == a[5] ==> #[trigger] under(vote_asked(), b, "week_up"@,
            value),
        forall|value: Seq<char>| value == a[6] ==> #[trigger] under(vote_asked(), b, "week_down"@,
            value),
        forall|value: Seq<char>| value == a[7] ==> #[trigger] under(vote_asked(), b, "week_rate"@,
            value),
        forall|value: Seq<char>| value == a[8] ==> #[trigger] under(vote_asked(), b, "trade_date"@,
            value),
        forall|value: Seq<char>| value == a[9] ==> #[trigger] under(vote_asked(), b, "update_time"@,
            value),
{
    let cols = vote_asked();
    assert(vote_section(a).rows[0].1 == vote_section(b).rows[0].1);
    assert(cols[0].0 == "vote_up"@ && a[0] == b[0]);
    assert(vote_section(a).rows[1].1 == vote_section(b).rows[1].1);
    assert(cols[1].0 == "vote_down"@ && a[1] == b[1]);
    assert(vote_section(a).rows[2].1 == vote_section(b).rows[2].1);
    assert(cols[2].0 == "total_num"@ && a[2] == b[2]);
    assert(vote_section(a).rows[3].1 == vote_section(b).rows[3].1);
    assert(cols[3].0 == "vote_up_rate"@ && a[3] == b[3]);
    assert(vote_section(a).rows[4].1 == vote_section(b).rows[4].1);
    assert(cols[4].0 == "vote_down_rate"@ && a[4] == b[4]);
    assert(vote_section(a).rows[5].1 == vote_section(b).rows[5].1);
    assert(cols[5].0 == "week_up"@ && a[5] == b[5]);
    assert(vote_section(a).rows[6].1 == vote_section(b).rows[6].1);
    assert(cols[6].0 == "week_down"@ && a[6] == b[6]);
    assert(vote_section(a).rows[7].1 == vote_section(b).rows[7].1);
    assert(cols[7].0 == "week_rate"@ && a[7] == b[7]);
    assert(vote_section(a).rows[8].1 == vote_section(b).rows[8].1);
    assert(cols[8].0 == "trade_date"@ && a[8] == b[8]);
    assert(vote_section(a).rows[9].1 == vote_section(b).rows[9].1);
    assert(cols[9].0 == "update_time"@ && a[9] == b[9]);
}

/// Rows of the comment that differ in a column that is shown are not shown alike.
pub proof fn comment_that_differ_show(a: Seq<Seq<char>>, b: Seq<Seq<char>>)
    requires
        a.len() == 19,
        b.len() == 19,
        comment_section(a) == comment_section(b),
    ensures
        forall|value: Seq<char>| value == a[1] ==> #[trigger] under(comment_asked(), b,
            "trade_date"@, value),
        forall|value: Seq<char>| value == a[18] ==> #[trigger] under(comment_asked(), b,
            "crawl_date"@, value),
        forall|value: Seq<char>| value == a[2] ==> #[trigger] under(comment_asked(), b,
            "emc_total_score"@, value),
        forall|value: Seq<char>| value == a[3] ==> #[trigger] under(comment_asked(), b, "emc_rank"@,
            value),
        forall|value: Seq<char>| value == a[4] ==> #[trigger] under(comment_asked(), b,
            "emc_rank_up"@, value),
        forall|value: Seq<char>| value == a[5] ==> #[trigger] under(comment_asked(), b,
            "emc_focus"@, value),
        forall|value: Seq<char>| value == a[6] ==> #[trigger] under(comment_asked(), b,
            "emc_org_participate"@, value),
        forall|value: Seq<char>| value == a[7] ==> #[trigger] under(comment_asked(), b,
            "emc_ratio"@, value),
        forall|value: Seq<char>| value == a[8] ==> #[trigger] under(comment_asked(), b,
            "emc_prime_cost"@, value),
        forall|value: Seq<char>| value == a[9] ==> #[trigger] under(comment_asked(), b,
            "emc_prime_cost_20d"@, value),
        forall|value: Seq<char>| value == a[10] ==> #[trigger] under(comment_asked(), b,
            "emc_prime_cost_60d"@, value),
        forall|value: Seq<char>| value == a[11] ==> #[trigger] under(comment_asked(), b,
            "emc_prime_inflow"@, value),
        forall|value: Seq<char>| value == a[12] ==> #[trigger] under(comment_asked(), b,
            "emc_superdeal_in"@, value),
        forall|value: Seq<char>| value == a[13] ==> #[trigger] under(comment_asked(), b,
            "emc_superdeal_out"@, value),
        forall|value: Seq<char>| value == a[14] ==> #[trigger] under(comment_asked(), b,
            "emc_bigdeal_in"@, value),
        forall|value: Seq<char>| value == a[15] ==> #[trigger] under(comment_asked(), b,
            "emc_bigdeal_out"@, value),
        forall|value: Seq<char>| value == a[16] ==> #[trigger] under(comment_asked(), b,
            "emc_buy_superdeal_ratio"@, value),
        forall|value: Seq<char>| value == a[17] ==> #[trigger] under(comment_asked(), b,
            "emc_buy_bigdeal_ratio"@, value),
{
    let cols = comment_asked();
    assert(comment_section(a).rows[0].1 == comment_section(b).rows[0].1);
    assert(cols[1].0 == "trade_date"@ && a[1] == b[1]);
    assert(comment_section(a).rows[1].1 == comment_section(b).rows[1].1);
    assert(cols[18].0 == "crawl_date"@ && a[18] == b[18]);
    assert(comment_section(a).rows[2].1 == comment_section(b).rows[2].1);
    assert(cols[2].0 == "emc_total_score"@ && a[2] == b[2]);
    assert(comment_section(a).rows[3].1 == comment_section(b).rows[3].1);
    assert(cols[3].0 == "emc_rank"@ && a[3] == b[3]);
    assert(comment_section(a).rows[4].1 == comment_section(b).rows[4].1);
    assert(cols[4].0 == "emc_rank_up"@ && a[4] == b[4]);
    assert(comment_section(a).rows[5].1 == comment_section(b).rows[5].1);
    assert(cols[5].0 == "emc_focus"@ && a[5] == b[5]);
    assert(comment_section(a).rows[6].1 == comment_section(b).rows[6].1);
    assert(cols[6].0 == "emc_org_participate"@ && a[6] == b[6]);
    assert(comment_section(a).rows[8].1 == comment_section(b).rows[8].1);
    assert(cols[7].0 == "emc_ratio"@ && a[7] == b[7]);
    assert(comment_section(a).rows[9].1 == comment_section(b).rows[9].1);
    assert(cols[8].0 == "emc_prime_cost"@ && a[8] == b[8]);
    assert(comment_section(a).rows[10].1 == comment_section(b).rows[10].1);
    assert(cols[9].0 == "emc_prime_cost_20d"@ && a[9] == b[9]);
    assert(comment_section(a).rows[11].1 == comment_section(b).rows[11].1);
    assert(cols[10].0 == "emc_prime_cost_60d"@ && a[10] == b[10]);
    assert(comment_section(a).rows[12].1 == comment_section(b).rows[12].1);
    assert(cols[11].0 == "emc_prime_inflow"@ && a[11] == b[11]);
    assert(comment_section(a).rows[13].1 == comment_section(b).rows[13].1);
    assert(cols[12].0 == "emc_superdeal_in"@ && a[12] == b[12]);
    assert(comment_section(a).rows[14].1 == comment_section(b).rows[14].1);
    assert(cols[13].0 == "emc_superdeal_out"@ && a[13] == b[13]);
    assert(comment_section(a).rows[15].1 == comment_section(b).rows[15].1);
    assert(cols[14].0 == "emc_bigdeal_in"@ && a[14] == b[14]);
    assert(comment_section(a).rows[16].1 == comment_section(b).rows[16].1);
    assert(cols[15].0 == "emc_bigdeal_out"@ && a[15] == b[15]);
    assert(comment_section(a).rows[17].1 == comment_section(b).rows[17].1);
    assert(cols[16].0 == "emc_buy_superdeal_ratio"@ && a[16] == b[16]);
    assert(comment_section(a).rows[18].1 == comment_section(b).rows[18].1);
    assert(cols[17].0 == "emc_buy_bigdeal_ratio"@ && a[17] == b[17]);
}

/// Rows of the valuation that differ in a column that is shown are not shown alike.
pub proof fn valuation_that_differ_show(a: Seq<Seq<char>>, b: Seq<Seq<char>>)
    requires
        a.len() == 13,
        b.len() == 13,
        valuation_section(a) == valuation_section(b),
    ensures
        forall|value: Seq<char>| value == a[1] ==> #[trigger] under(valuation_asked(), b,
            "trade_date"@, value),
        forall|value: Seq<char>| value == a[12] ==> #[trigger] under(valuation_asked(), b,
            "crawl_date"@, value),
        forall|value: Seq<char>| value == a[2] ==> #[trigger] under(valuation_asked(), b,
            "emv_pe_ttm"@, value),
        forall|value: Seq<char>| value == a[3] ==> #[trigger] under(valuation_asked(), b,
            "emv_pe_lar"@, value),
        forall|value: Seq<char>| value == a[4] ==> #[trigger] under(valuation_asked(), b,
            "emv_pb_mrq"@, value),
        forall|value: Seq<char>| value == a[5] ==> #[trigger] under(valuation_asked(), b,
            "emv_pcf_ocf_lar"@, value),
        forall|value: Seq<char>| value == a[6] ==> #[trigger] under(valuation_asked(), b,
            "emv_pcf_ocf_ttm"@, value),
        forall|value: Seq<char>| value == a[7] ==> #[trigger] under(valuation_asked(), b,
            "emv_ps_ttm"@, value),
        forall|value: Seq<char>| value == a[8] ==> #[trigger] under(valuation_asked(), b,
            "emv_peg"@, value),
        forall|value: Seq<char>| value == a[9] ==> #[trigger] under(valuation_asked(), b,
            "emv_total_market_cap"@, value),
        forall|value: Seq<char>| value == a[10] ==> #[trigger] under(valuation_asked(), b,
            "emv_float_market_cap"@, value),
        forall|value: Seq<char>| value == a[11] ==> #[trigger] under(valuation_asked(), b,
            "emv_board"@, value),
{
    let cols = valuation_asked();
    assert(valuation_section(a).rows[0].1 == valuation_section(b).rows[0].1);
    assert(cols[1].0 == "trade_date"@ && a[1] == b[1]);
    assert(valuation_section(a).rows[1].1 == valuation_section(b).rows[1].1);
    assert(cols[12].0 == "crawl_date"@ && a[12] == b[12]);
    assert(valuation_section(a).rows[2].1 == valuation_section(b).rows[2].1);
    assert(cols[2].0 == "emv_pe_ttm"@ && a[2] == b[2]);
    assert(valuation_section(a).rows[3].1 == valuation_section(b).rows[3].1);
    assert(cols[3].0 == "emv_pe_lar"@ && a[3] == b[3]);
    assert(valuation_section(a).rows[4].1 == valuation_section(b).rows[4].1);
    assert(cols[4].0 == "emv_pb_mrq"@ && a[4] == b[4]);
    assert(valuation_section(a).rows[5].1 == valuation_section(b).rows[5].1);
    assert(cols[5].0 == "emv_pcf_ocf_lar"@ && a[5] == b[5]);
    assert(valuation_section(a).rows[6].1 == valuation_section(b).rows[6].1);
    assert(cols[6].0 == "emv_pcf_ocf_ttm"@ && a[6] == b[6]);
    assert(valuation_section(a).rows[7].1 == valuation_section(b).rows[7].1);
    assert(cols[7].0 == "emv_ps_ttm"@ && a[7] == b[7]);
    assert(valuation_section(a).rows[8].1 == valuation_section(b).rows[8].1);
    assert(cols[8].0 == "emv_peg"@ && a[8] == b[8]);
    assert(valuation_section(a).rows[9].1 == valuation_section(b).rows[9].1);
    assert(cols[9].0 == "emv_total_market_cap"@ && a[9] == b[9]);
    assert(valuation_section(a).rows[10].1 == valuation_section(b).rows[10].1);
    assert(cols[10].0 == "emv_float_market_cap"@ && a[10] == b[10]);
    assert(valuation_section(a).rows[11].1 == valuation_section(b).rows[11].1);
    assert(cols[11].0 == "emv_board"@ && a[11] == b[11]);
}

/// Rows of the chances that differ in a column that is shown are not shown alike.
pub proof fn chances_that_differ_show(a: Seq<Seq<char>>, b: Seq<Seq<char>>)
    requires
        a.len() == 9,
        b.len() == 9,
        chances_section(a) == chances_section(b),
    ensures
        forall|value: Seq<char>| value == a[0] ==> #[trigger] under(diag_prob_asked(), b,
            "trade_date"@, value),
        forall|value: Seq<char>| value == a[3] ==> #[trigger] under(diag_prob_asked(), b,
            "emt_avg_1_inc"@, value),
        forall|value: Seq<char>| value == a[4] ==> #[trigger] under(diag_prob_asked(), b,
            "emt_avg_5_inc"@, value),
        forall|value: Seq<char>| value == a[5] ==> #[trigger] under(diag_prob_asked(), b,
            "emt_all_count_1"@, value),
        forall|value: Seq<char>| value == a[6] ==> #[trigger] under(diag_prob_asked(), b,
            "emt_all_count_5"@, value),
        forall|value: Seq<char>| value == a[8] ==> #[trigger] under(diag_prob_asked(), b,
            "crawl_date"@, value),
        forall|value: Seq<char>| value == a[1] ==> #[trigger] under(diag_prob_asked(), b,
            "emt_rise_1_prob"@, value),
        forall|value: Seq<char>| value == a[2] ==> #[trigger] under(diag_prob_asked(), b,
            "emt_rise_5_prob"@, value),
        forall|value: Seq<char>| value == a[7] ==> #[trigger] under(diag_prob_asked(), b,
            "emt_rank_ratio"@, value),
{
    let cols = diag_prob_asked();
    reveal_strlit(" %");
    reveal_strlit("—");
    assert(chances_section(a).rows[0].1 == chances_section(b).rows[0].1);
    assert(cols[0].0 == "trade_date"@ && a[0] == b[0]);
    assert(chances_section(a).rows[3].1 == chances_section(b).rows[3].1);
    assert(cols[3].0 == "emt_avg_1_inc"@ && a[3] == b[3]);
    assert(chances_section(a).rows[4].1 == chances_section(b).rows[4].1);
    assert(cols[4].0 == "emt_avg_5_inc"@ && a[4] == b[4]);
    assert(chances_section(a).rows[6].1 == chances_section(b).rows[6].1);
    assert(cols[5].0 == "emt_all_count_1"@ && a[5] == b[5]);
    assert(chances_section(a).rows[7].1 == chances_section(b).rows[7].1);
    assert(cols[6].0 == "emt_all_count_5"@ && a[6] == b[6]);
    assert(chances_section(a).rows[8].1 == chances_section(b).rows[8].1);
    assert(cols[8].0 == "crawl_date"@ && a[8] == b[8]);
    assert(chances_section(a).rows[1].1 == chances_section(b).rows[1].1);
    assert(a[1] == b[1]) by {
        if a[1] != DASH@ && b[1] != DASH@ {
            assert((a[1] + " %"@).take(a[1].len() as int) =~= a[1]);
            assert((b[1] + " %"@).take(b[1].len() as int) =~= b[1]);
            assert((a[1] + " %"@).len() == (b[1] + " %"@).len());
        } else if a[1] != DASH@ {
            assert((a[1] + " %"@).len() == 1);
        } else if b[1] != DASH@ {
            assert((b[1] + " %"@).len() == 1);
        }
    }
    assert(cols[1].0 == "emt_rise_1_prob"@);
    assert(chances_section(a).rows[2].1 == chances_section(b).rows[2].1);
    assert(a[2] == b[2]) by {
        if a[2] != DASH@ && b[2] != DASH@ {
            assert((a[2] + " %"@).take(a[2].len() as int) =~= a[2]);
            assert((b[2] + " %"@).take(b[2].len() as int) =~= b[2]);
            assert((a[2] + " %"@).len() == (b[2] + " %"@).len());
        } else if a[2] != DASH@ {
            assert((a[2] + " %"@).len() == 1);
        } else if b[2] != DASH@ {
            assert((b[2] + " %"@).len() == 1);
        }
    }
    assert(cols[2].0 == "emt_rise_5_prob"@);
    assert(chances_section(a).rows[5].1 == chances_section(b).rows[5].1);
    assert(a[7] == b[7]) by {
        if a[7] != DASH@ && b[7] != DASH@ {
            assert((a[7] + " %"@).take(a[7].len() as int) =~= a[7]);
            assert((b[7] + " %"@).take(b[7].len() as int) =~= b[7]);
            assert((a[7] + " %"@).len() == (b[7] + " %"@).len());
        } else if a[7] != DASH@ {
            assert((a[7] + " %"@).len() == 1);
        } else if b[7] != DASH@ {
            assert((b[7] + " %"@).len() == 1);
        }
    }
    assert(cols[7].0 == "emt_rank_ratio"@);
}

/// Rows of the wish that differ in a column that is shown are not shown alike.
pub proof fn wish_that_differ_show(a: Seq<Seq<char>>, b: Seq<Seq<char>>)
    requires
        a.len() == 6,
        b.len() == 6,
        participation_section(a) == participation_section(b),
    ensures
        forall|value: Seq<char>| value == a[0] ==> #[trigger] under(participation_asked(), b,
            "trade_date"@, value),
        forall|value: Seq<char>| value == a[1] ==> #[trigger] under(participation_asked(), b,
            "emp_wish"@, value),
        forall|value: Seq<char>| value == a[2] ==> #[trigger] under(participation_asked(), b,
            "emp_wish_5d"@, value),
        forall|value: Seq<char>| value == a[3] ==> #[trigger] under(participation_asked(), b,
            "emp_wish_change"@, value),
        forall|value: Seq<char>| value == a[4] ==> #[trigger] under(participation_asked(), b,
            "emp_wish_5d_change"@, value),
        forall|value: Seq<char>| value == a[5] ==> #[trigger] under(participation_asked(), b,
            "crawl_date"@, value),
{
    let cols = participation_asked();
    assert(participation_section(a).rows[0].1 == participation_section(b).rows[0].1);
    assert(cols[0].0 == "trade_date"@ && a[0] == b[0]);
    assert(participation_section(a).rows[1].1 == participation_section(b).rows[1].1);
    assert(cols[1].0 == "emp_wish"@ && a[1] == b[1]);
    assert(participation_section(a).rows[2].1 == participation_section(b).rows[2].1);
    assert(cols[2].0 == "emp_wish_5d"@ && a[2] == b[2]);
    assert(participation_section(a).rows[3].1 == participation_section(b).rows[3].1);
    assert(cols[3].0 == "emp_wish_change"@ && a[3] == b[3]);
    assert(participation_section(a).rows[4].1 == participation_section(b).rows[4].1);
    assert(cols[4].0 == "emp_wish_5d_change"@ && a[4] == b[4]);
    assert(participation_section(a).rows[5].1 == participation_section(b).rows[5].1);
    assert(cols[5].0 == "crawl_date"@ && a[5] == b[5]);
}

/// Rows of the ranks that differ in a column that is shown are not shown alike.
pub proof fn ranks_that_differ_show(a: Seq<Seq<char>>, b: Seq<Seq<char>>)
    requires
        a.len() == 10,
        b.len() == 10,
        popularity_section(a) == popularity_section(b),
    ensures
        forall|value: Seq<char>| value == a[0] ==> #[trigger] under(popularity_asked(), b,
            "trade_date"@, value),
        forall|value: Seq<char>| value == a[3] ==> #[trigger] under(popularity_asked(), b,
            "emp_industry_rank"@, value),
        forall|value: Seq<char>| value == a[4] ==> #[trigger] under(popularity_asked(), b,
            "emp_change_rate"@, value),
        forall|value: Seq<char>| value == a[5] ==> #[trigger] under(popularity_asked(), b,
            "emp_market_stock_num"@, value),
        forall|value: Seq<char>| value == a[8] ==> #[trigger] under(popularity_asked(), b,
            "emp_focus_index"@, value),
        forall|value: Seq<char>| value == a[9] ==> #[trigger] under(popularity_asked(), b,
            "crawl_date"@, value),
{
    let cols = popularity_asked();
    assert(popularity_section(a).rows[0].1 == popularity_section(b).rows[0].1);
    assert(cols[0].0 == "trade_date"@ && a[0] == b[0]);
    assert(popularity_section(a).rows[2].1 == popularity_section(b).rows[2].1);
    assert(cols[3].0 == "emp_industry_rank"@ && a[3] == b[3]);
    assert(popularity_section(a).rows[3].1 == popularity_section(b).rows[3].1);
    assert(cols[4].0 == "emp_change_rate"@ && a[4] == b[4]);
    assert(popularity_section(a).rows[4].1 == popularity_section(b).rows[4].1);
    assert(cols[5].0 == "emp_market_stock_num"@ && a[5] == b[5]);
    assert(popularity_section(a).rows[6].1 == popularity_section(b).rows[6].1);
    assert(cols[8].0 == "emp_focus_index"@ && a[8] == b[8]);
    assert(popularity_section(a).rows[7].1 == popularity_section(b).rows[7].1);
    assert(cols[9].0 == "crawl_date"@ && a[9] == b[9]);
}

/// Rows of the words that differ in a column that is shown are not shown alike.
pub proof fn words_that_differ_show(a: Seq<Seq<char>>, b: Seq<Seq<char>>)
    requires
        a.len() == 4,
        b.len() == 4,
        diagnosis_section(a) == diagnosis_section(b),
    ensures
        forall|value: Seq<char>| value == a[0] ==> #[trigger] under(diag_text_asked(), b,
            "trade_date"@, value),
        forall|value: Seq<char>| value == a[1] ==> #[trigger] under(diag_text_asked(), b,
            "emt_comment_txt"@, value),
        forall|value: Seq<char>| value == a[2] ==> #[trigger] under(diag_text_asked(), b,
            "emt_words_explain"@, value),
        forall|value: Seq<char>| value == a[3] ==> #[trigger] under(diag_text_asked(), b,
            "crawl_date"@, value),
{
    let cols = diag_text_asked();
    assert(diagnosis_section(a).rows[0].1 == diagnosis_section(b).rows[0].1);
    assert(cols[0].0 == "trade_date"@ && a[0] == b[0]);
    assert(diagnosis_section(a).rows[1].1 == diagnosis_section(b).rows[1].1);
    assert(cols[1].0 == "emt_comment_txt"@ && a[1] == b[1]);
    assert(diagnosis_section(a).rows[2].1 == diagnosis_section(b).rows[2].1);
    assert(cols[2].0 == "emt_words_explain"@ && a[2] == b[2]);
    assert(diagnosis_section(a).rows[3].1 == diagnosis_section(b).rows[3].1);
    assert(cols[3].0 == "crawl_date"@ && a[3] == b[3]);
}

/// A line with a label and a value.
pub open spec fn has_line(s: SectionView, label: Seq<char>, value: Seq<char>) -> bool {
    exists|i: int| 0 <= i < s.rows.len() && (#[trigger] s.rows[i]).0 == label && s.rows[i].1
        == value
}

/// The attempts at a source: the number of them, the last outcome with its status, its day, the
/// time of the record and the shells in a row, each behind the name of the source.
pub open spec fn shows_attempts(s: SectionView, r: Seq<Seq<char>>) -> bool {
    forall|source: Seq<char>, count: Seq<char>, success: Seq<char>, status: Seq<char>,
        day: Seq<char>, at: Seq<char>, streak: Seq<char>|
        #![trigger under(stats_asked(), r, "source"@, source), under(stats_asked(), r,
            "crawl_count"@, count), under(stats_asked(), r, "last_success"@, success),
            under(stats_asked(), r, "last_status"@, status), under(stats_asked(), r,
            "last_attempt"@, day), under(stats_asked(), r, "updated_at"@, at), under(stats_asked(),
            r, "empty_streak"@, streak)]
        under(stats_asked(), r, "source"@, source) && under(stats_asked(), r, "crawl_count"@, count)
            && under(stats_asked(), r, "last_success"@, success) && under(stats_asked(), r,
            "last_status"@, status) && under(stats_asked(), r, "last_attempt"@, day)
            && under(stats_asked(), r, "updated_at"@, at) && under(stats_asked(), r,
            "empty_streak"@, streak) ==> {
            let name = if source == "baidu"@ {
                "百度"@
            } else if source == "em"@ {
                "东财"@
            } else {
                source
            };
            &&& has_line(s, name + " 次数"@, count)
            &&& has_line(s, name + " 最近"@, (if success == "1"@ { "成功"@ } else { "未成功"@ }) + " / "@
                + status)
            &&& has_line(s, name + " 尝试日"@, day)
            &&& has_line(s, name + " 更新"@, at)
            &&& has_line(s, name + " 空壳连击"@, streak)
        }
}

proof fn stats_cells_are_one(r: Seq<Seq<char>>, i: int, column: Seq<char>, value: Seq<char>)
    requires
        r.len() == 7,
        0 <= i < 7,
        stats_asked()[i].0 == column,
        under(stats_asked(), r, column, value),
    ensures
        value == r[i],
{
    reveal_strlit("source");
    reveal_strlit("crawl_count");
    reveal_strlit("last_success");
    reveal_strlit("last_status");
    reveal_strlit("last_attempt");
    reveal_strlit("updated_at");
    reveal_strlit("empty_streak");
    let cols = stats_asked();
    assert(cols[0].0.len() == 6 && cols[0].0[5] == 'e' && cols[0].0[0] == 's');
    assert(cols[1].0.len() == 11 && cols[1].0[5] == '_' && cols[1].0[0] == 'c');
    assert(cols[2].0.len() == 12 && cols[2].0[5] == 's' && cols[2].0[0] == 'l');
    assert(cols[3].0.len() == 11 && cols[3].0[5] == 's' && cols[3].0[0] == 'l');
    assert(cols[4].0.len() == 12 && cols[4].0[5] == 'a' && cols[4].0[0] == 'l');
    assert(cols[5].0.len() == 10 && cols[5].0[5] == 'e' && cols[5].0[0] == 'u');
    assert(cols[6].0.len() == 12 && cols[6].0[5] == '_' && cols[6].0[0] == 'e');
    let k = choose|k: int|
        {
            &&& 0 <= k < cols.len()
            &&& 0 <= k < r.len()
            &&& (#[trigger] cols[k]).0 == column
            &&& r[k] == value
        };
    assert(cols[k].0 == cols[i].0);
    assert(k == i);
}

proof fn attempts_have_their_lines(rows: Seq<Seq<Seq<char>>>, i: int, j: int)
    requires
        0 <= i < rows.len(),
        0 <= j < 5,
    ensures
        attempts_lines(rows).len() == 5 * rows.len(),
        attempts_lines(rows)[5 * i + j] == attempt_lines(rows[i])[j],
    decreases rows.len(),
{
    attempts_are_five_each(rows);
    attempts_are_five_each(rows.drop_last());
    if i < rows.len() - 1 {
        attempts_have_their_lines(rows.drop_last(), i, j);
    }
}

proof fn attempts_are_five_each(rows: Seq<Seq<Seq<char>>>)
    ensures
        attempts_lines(rows).len() == 5 * rows.len(),
    decreases rows.len(),
{
    if rows.len() > 0 {
        attempts_are_five_each(rows.drop_last());
    }
}

/// The attempts at each source are shown, five lines each, under one title.
pub proof fn attempts_are_shown(rows: LookupRows, i: int)
    requires
        rows.wf(),
        0 <= i < rows.crawl_stats@.len(),
    ensures
        exists|k: int|
            {
                &&& 0 <= k < all_sections(rows).len()
                &&& (#[trigger] all_sections(rows)[k]).title == "抓取统计"@
                &&& all_sections(rows)[k].rows.len() == 5 * rows.crawl_stats@.len()
                &&& shows_attempts(all_sections(rows)[k], views(rows.crawl_stats@[i]@))
            },
{
    let all = row_views(rows.crawl_stats@);
    let r = views(rows.crawl_stats@[i]@);
    assert(all[i] == r);
    let k = all_sections(rows).len() - 1;
    let s = all_sections(rows)[k];
    assert(s == stats_sections(all)[0]);
    attempts_have_their_lines(all, i, 0);
    assert(s.rows[5 * i + 0] == attempt_lines(r)[0]);
    attempts_have_their_lines(all, i, 1);
    assert(s.rows[5 * i + 1] == attempt_lines(r)[1]);
    attempts_have_their_lines(all, i, 2);
    assert(s.rows[5 * i + 2] == attempt_lines(r)[2]);
    attempts_have_their_lines(all, i, 3);
    assert(s.rows[5 * i + 3] == attempt_lines(r)[3]);
    attempts_have_their_lines(all, i, 4);
    assert(s.rows[5 * i + 4] == attempt_lines(r)[4]);
    assert forall|source: Seq<char>, count: Seq<char>, success: Seq<char>, status: Seq<char>,
        day: Seq<char>, at: Seq<char>, streak: Seq<char>|
        #![trigger under(stats_asked(), r, "source"@, source), under(stats_asked(), r,
            "crawl_count"@, count), under(stats_asked(), r, "last_success"@, success),
            under(stats_asked(), r, "last_status"@, status), under(stats_asked(), r,
            "last_attempt"@, day), under(stats_asked(), r, "updated_at"@, at), under(stats_asked(),
            r, "empty_streak"@, streak)]
        under(stats_asked(), r, "source"@, source) && under(stats_asked(), r, "crawl_count"@, count)
            && under(stats_asked(), r, "last_success"@, success) && under(stats_asked(), r,
            "last_status"@, status) && under(stats_asked(), r, "last_attempt"@, day)
            && under(stats_asked(), r, "updated_at"@, at) && under(stats_asked(), r,
            "empty_streak"@, streak) implies {
        let name = if source == "baidu"@ {
            "百度"@
        } else if source == "em"@ {
            "东财"@
        } else {
            source
        };
        &&& has_line(s, name + " 次数"@, count)
        &&& has_line(s, name + " 最近"@, (if success == "1"@ { "成功"@ } else { "未成功"@ }) + " / "@
            + status)
        &&& has_line(s, name + " 尝试日"@, day)
        &&& has_line(s, name + " 更新"@, at)
        &&& has_line(s, name + " 空壳连击"@, streak)
    } by {
        stats_cells_are_one(r, 0, "source"@, source);
        stats_cells_are_one(r, 1, "crawl_count"@, count);
        stats_cells_are_one(r, 2, "last_success"@, success);
        stats_cells_are_one(r, 3, "last_status"@, status);
        stats_cells_are_one(r, 4, "last_attempt"@, day);
        stats_cells_are_one(r, 5, "updated_at"@, at);
        stats_cells_are_one(r, 6, "empty_streak"@, streak);
    }
}

/// No section stands for nothing: there is one for each cycle, one for each table with a row of the
/// stock, and one for the attempts where there are any.
pub proof fn nothing_else_is_shown(rows: LookupRows)
    ensures
        all_sections(rows).len() == first_rows(row_views(rows.support@)).len()
            + (if rows.scores is Some { 1int } else { 0int })
            + (if rows.fund_flow is Some { 1int } else { 0int })
            + (if rows.vote is Some { 1int } else { 0int })
            + (if rows.em_comment is Some { 1int } else { 0int })
            + (if rows.em_valuation is Some { 1int } else { 0int })
            + (if rows.em_diag_prob is Some { 1int } else { 0int })
            + (if rows.em_participation is Some { 1int } else { 0int })
            + (if rows.em_popularity is Some { 1int } else { 0int })
            + (if rows.em_diag_text is Some { 1int } else { 0int })
            + (if rows.crawl_stats@.len() > 0 { 1int } else { 0int }),
{
}

/// The name of a stock is that of the list of stocks; where that has none, the first that is no
/// dash among those of the scores, the comment and the valuation.
pub proof fn a_name_is_found(rows: LookupRows)
    requires
        rows.wf(),
    ensures
        rows.name matches Some(n) && n@.len() > 0 && n@ != DASH@ ==> found_name(rows)
            == (rows.name->0)@,
        rows.name is None && rows.scores is Some ==> (forall|n: Seq<char>| #[trigger]
            under(scores_asked(), views((rows.scores->0)@), "name"@, n) && n != DASH@ && n.len() > 0
                ==> found_name(rows) == n),
        rows.name is None && rows.scores is None && rows.em_comment is Some
            ==> (forall|n: Seq<char>| #[trigger]
            under(comment_asked(), views((rows.em_comment->0)@), "name"@, n) && n != DASH@
                && n.len() > 0
                ==> found_name(rows) == n),
        rows.name is None && rows.scores is None && rows.em_comment is None
            && rows.em_valuation is Some ==> (forall|n: Seq<char>| #[trigger]
            under(valuation_asked(), views((rows.em_valuation->0)@), "name"@, n) && n != DASH@
                && n.len() > 0
                ==> found_name(rows) == n),
{
    reveal_strlit("trade_date");
    reveal_strlit("code");
    reveal_strlit("name");
    reveal_strlit("synthesis");
    reveal_strlit("technology");
    reveal_strlit("capital");
    reveal_strlit("market");
    reveal_strlit("finance");
    reveal_strlit("is_new");
    reveal_strlit("update_time");
    reveal_strlit("crawl_date");
    reveal_strlit("status");
    reveal_strlit("emc_total_score");
    reveal_strlit("emc_rank");
    reveal_strlit("emc_rank_up");
    reveal_strlit("emc_focus");
    reveal_strlit("emc_org_participate");
    reveal_strlit("emc_ratio");
    reveal_strlit("emc_prime_cost");
    reveal_strlit("emc_prime_cost_20d");
    reveal_strlit("emc_prime_cost_60d");
    reveal_strlit("emc_prime_inflow");
    reveal_strlit("emc_superdeal_in");
    reveal_strlit("emc_superdeal_out");
    reveal_strlit("emc_bigdeal_in");
    reveal_strlit("emc_bigdeal_out");
    reveal_strlit("emc_buy_superdeal_ratio");
    reveal_strlit("emc_buy_bigdeal_ratio");
    reveal_strlit("emv_pe_ttm");
    reveal_strlit("emv_pe_lar");
    reveal_strlit("emv_pb_mrq");
    reveal_strlit("emv_pcf_ocf_lar");
    reveal_strlit("emv_pcf_ocf_ttm");
    reveal_strlit("emv_ps_ttm");
    reveal_strlit("emv_peg");
    reveal_strlit("emv_total_market_cap");
    reveal_strlit("emv_float_market_cap");
    reveal_strlit("emv_board");
    let scores = scores_asked();
    assert(scores[0].0.len() == 10);
    assert(scores[1].0.len() == 4 && scores[1].0[0] == 'c');
    assert(scores[3].0.len() == 9);
    assert(scores[4].0.len() == 10);
    assert(scores[5].0.len() == 7);
    assert(scores[6].0.len() == 6);
    assert(scores[7].0.len() == 7);
    assert(scores[8].0.len() == 6);
    assert(scores[9].0.len() == 11);
    assert(scores[10].0.len() == 10);
    assert(scores[11].0.len() == 6);
    let comment = comment_asked();
    assert(comment[1].0.len() == 10);
    assert(comment[2].0.len() == 15);
    assert(comment[3].0.len() == 8);
    assert(comment[4].0.len() == 11);
    assert(comment[5].0.len() == 9);
    assert(comment[6].0.len() == 19);
    assert(comment[7].0.len() == 9);
    assert(comment[8].0.len() == 14);
    assert(comment[9].0.len() == 18);
    assert(comment[10].0.len() == 18);
    assert(comment[11].0.len() == 16);
    assert(comment[12].0.len() == 16);
    assert(comment[13].0.len() == 17);
    assert(comment[14].0.len() == 14);
    assert(comment[15].0.len() == 15);
    assert(comment[16].0.len() == 23);
    assert(comment[17].0.len() == 21);
    assert(comment[18].0.len() == 10);
    let valuation = valuation_asked();
    assert(valuation[1].0.len() == 10);
    assert(valuation[2].0.len() == 10);
    assert(valuation[3].0.len() == 10);
    assert(valuation[4].0.len() == 10);
    assert(valuation[5].0.len() == 15);
    assert(valuation[6].0.len() == 15);
    assert(valuation[7].0.len() == 10);
    assert(valuation[8].0.len() == 7);
    assert(valuation[9].0.len() == 20);
    assert(valuation[10].0.len() == 20);
    assert(valuation[11].0.len() == 9);
    assert(valuation[12].0.len() == 10);
    if rows.scores is Some {
        let r = views((rows.scores->0)@);
        assert forall|n: Seq<char>| #[trigger] under(scores_asked(), r, "name"@, n) implies n
            == r[2] by {
            let k = choose|k: int|
                {
                    &&& 0 <= k < scores.len()
                    &&& 0 <= k < r.len()
                    &&& (#[trigger] scores[k]).0 == "name"@
                    &&& r[k] == n
                };
            assert(scores[k].0.len() == 4 && scores[k].0[0] == 'n');
            assert(k == 2);
        }
    }
    if rows.em_comment is Some {
        let r = views((rows.em_comment->0)@);
        assert forall|n: Seq<char>| #[trigger] under(comment_asked(), r, "name"@, n) implies n
            == r[0] by {
            let k = choose|k: int|
                {
                    &&& 0 <= k < comment.len()
                    &&& 0 <= k < r.len()
                    &&& (#[trigger] comment[k]).0 == "name"@
                    &&& r[k] == n
                };
            assert(comment[k].0.len() == 4 && comment[k].0[0] == 'n');
            assert(k == 0);
        }
    }
    if rows.em_valuation is Some {
        let r = views((rows.em_valuation->0)@);
        assert forall|n: Seq<char>| #[trigger] under(valuation_asked(), r, "name"@, n) implies n
            == r[0] by {
            let k = choose|k: int|
                {
                    &&& 0 <= k < valuation.len()
                    &&& 0 <= k < r.len()
                    &&& (#[trigger] valuation[k]).0 == "name"@
                    &&& r[k] == n
                };
            assert(valuation[k].0.len() == 4 && valuation[k].0[0] == 'n');
            assert(k == 0);
        }
    }
}

} // verus!
