//! The columns of the tables and of the queries, as the texts of the statements name them.

use vstd::prelude::*;

use crate::db::{stats_text, CellView, EM_SCHEMA, SCHEMA};
use crate::lookup::{
    CRAWL_STATS_QUERY, EM_COMMENT_QUERY, EM_DIAG_PROB_QUERY, EM_DIAG_TEXT_QUERY,
    EM_PARTICIPATION_QUERY, EM_POPULARITY_QUERY, EM_VALUATION_QUERY, FUND_FLOW_QUERY, SCORES_QUERY,
    SUPPORT_QUERY, VOTE_QUERY,
};
use crate::text::stands_at;

verus! {

/// Columns in their order, each with the text between it and the next one.
pub type Columns = Seq<(Seq<char>, Seq<char>)>;

/// A text has columns from a place on, one behind the other.
pub open spec fn spelled(text: Seq<char>, at: int, cols: Columns) -> bool
    decreases cols.len(),
{
    cols.len() == 0 || {
        let (name, glue) = cols[0];
        &&& stands_at(text, name, at)
        &&& stands_at(text, glue, at + name.len())
        &&& spelled(text, at + name.len() + glue.len(), cols.drop_first())
    }
}

/// A text names columns behind a head.
pub open spec fn names(text: Seq<char>, head: Seq<char>, cols: Columns) -> bool {
    exists|at: int| #[trigger] stands_at(text, head, at) && spelled(text, at + head.len(), cols)
}

/// Under a column of a row stands a value.
pub open spec fn under<V>(cols: Columns, row: Seq<V>, column: Seq<char>, value: V) -> bool {
    exists|k: int|
        {
            &&& 0 <= k < cols.len()
            &&& 0 <= k < row.len()
            &&& (#[trigger] cols[k]).0 == column
            &&& row[k] == value
        }
}

/// The value that a place of a statement stands for: one of those bound to it, or the number one.
pub open spec fn bound(place: Seq<char>, params: Seq<CellView>) -> CellView {
    if place == "1"@ {
        CellView::Int(1)
    } else if place == "?1"@ {
        params[0]
    } else if place == "?2"@ {
        params[1]
    } else if place == "?3"@ {
        params[2]
    } else if place == "?4"@ {
        params[3]
    } else if place == "?5"@ {
        params[4]
    } else if place == "?6"@ {
        params[5]
    } else {
        params[6]
    }
}

/// A statement puts a value under a column, by the places that it lists for its columns.
pub open spec fn puts(
    cols: Columns,
    places: Columns,
    params: Seq<CellView>,
    column: Seq<char>,
    value: CellView,
) -> bool {
    exists|k: int|
        {
            &&& 0 <= k < cols.len()
            &&& 0 <= k < places.len()
            &&& (#[trigger] cols[k]).0 == column
            &&& bound(places[k].0, params) == value
        }
}

// ---------------------------------------------------------------- tables

/// The columns of the table of stocks.
pub open spec fn stocks_columns() -> Columns {
    seq![
        ("code"@, " TEXT PRIMARY KEY, "@),
        ("name"@, " TEXT, "@),
        ("market"@, " TEXT\n);"@),
    ]
}

/// The columns of the table of scores.
pub open spec fn scores_columns() -> Columns {
    seq![
        ("trade_date"@, " TEXT, "@),
        ("code"@, " TEXT, "@),
        ("name"@, " TEXT,\n    "@),
        ("synthesis"@, " TEXT, "@),
        ("technology"@, " TEXT, "@),
        ("capital"@, " TEXT, "@),
        ("market"@, " TEXT, "@),
        ("finance"@, " TEXT,\n    "@),
        ("is_new"@, " TEXT, "@),
        ("update_time"@, " TEXT,\n    "@),
        ("crawl_date"@, " TEXT, "@),
        ("status"@, " TEXT,\n    "@),
    ]
}

/// The columns of the table of support and resistance.
pub open spec fn support_columns() -> Columns {
    seq![
        ("trade_date"@, " TEXT, "@),
        ("code"@, " TEXT, "@),
        ("cycle"@, " TEXT, "@),
        ("support_level"@, " TEXT, "@),
        ("resistance_level"@, " TEXT,\n    "@),
        ("level_desc"@, " TEXT, "@),
        ("rating_text"@, " TEXT, "@),
        ("rating_level"@, " TEXT, "@),
        ("rating_status"@, " TEXT,\n    "@),
        ("bullish_events"@, " TEXT, "@),
        ("bearish_events"@, " TEXT, "@),
        ("rank_str"@, " TEXT, "@),
        ("industry_name"@, " TEXT,\n    "@),
        ("update_time"@, " TEXT, "@),
        ("crawl_date"@, " TEXT, "@),
        ("status"@, " TEXT,\n    "@),
    ]
}

/// The columns of the table of the fund flow.
pub open spec fn flow_columns() -> Columns {
    seq![
        ("trade_date"@, " TEXT, "@),
        ("code"@, " TEXT, "@),
        ("super_net"@, " REAL, "@),
        ("large_net"@, " REAL, "@),
        ("medium_net"@, " REAL,\n    "@),
        ("little_net"@, " REAL, "@),
        ("super_rate"@, " TEXT, "@),
        ("large_rate"@, " TEXT, "@),
        ("medium_rate"@, " TEXT,\n    "@),
        ("little_rate"@, " TEXT, "@),
        ("main_net"@, " REAL, "@),
        ("update_time"@, " TEXT, "@),
        ("crawl_date"@, " TEXT, "@),
        ("status"@, " TEXT,\n    "@),
    ]
}

/// The columns of the table of votes.
pub open spec fn vote_columns() -> Columns {
    seq![
        ("trade_date"@, " TEXT, "@),
        ("code"@, " TEXT, "@),
        ("vote_up"@, " TEXT, "@),
        ("vote_down"@, " TEXT, "@),
        ("total_num"@, " TEXT,\n    "@),
        ("vote_up_rate"@, " TEXT, "@),
        ("vote_down_rate"@, " TEXT, "@),
        ("week_up"@, " TEXT, "@),
        ("week_down"@, " TEXT, "@),
        ("week_rate"@, " TEXT,\n    "@),
        ("update_time"@, " TEXT, "@),
        ("crawl_date"@, " TEXT, "@),
        ("status"@, " TEXT,\n    "@),
    ]
}

/// The columns of the table of attempts.
pub open spec fn stats_columns() -> Columns {
    seq![
        ("code"@, " TEXT NOT NULL,\n    "@),
        ("crawl_count"@, " INTEGER NOT NULL DEFAULT 0,\n    "@),
        ("last_success"@, " INTEGER NOT NULL DEFAULT 0,\n    "@),
        ("last_status"@, " TEXT,\n    "@),
        ("last_attempt"@, " TEXT,\n    "@),
        ("updated_at"@, " TEXT,\n    "@),
        ("source"@, " TEXT NOT NULL DEFAULT 'baidu',\n    "@),
        ("empty_streak"@, " INTEGER NOT NULL DEFAULT 0,\n    "@),
    ]
}

/// The columns of the table of comments.
pub open spec fn comment_columns() -> Columns {
    seq![
        ("code"@, " TEXT NOT NULL, "@),
        ("name"@, " TEXT, "@),
        ("trade_date"@, " TEXT NOT NULL,\n    "@),
        ("emc_total_score"@, " REAL, "@),
        ("emc_rank"@, " INTEGER, "@),
        ("emc_rank_up"@, " INTEGER,\n    "@),
        ("emc_focus"@, " REAL, "@),
        ("emc_org_participate"@, " REAL, "@),
        ("emc_ratio"@, " REAL,\n    "@),
        ("emc_prime_cost"@, " REAL, "@),
        ("emc_prime_cost_20d"@, " REAL, "@),
        ("emc_prime_cost_60d"@, " REAL,\n    "@),
        ("emc_prime_inflow"@, " REAL, "@),
        ("emc_superdeal_in"@, " REAL, "@),
        ("emc_superdeal_out"@, " REAL,\n    "@),
        ("emc_bigdeal_in"@, " REAL, "@),
        ("emc_bigdeal_out"@, " REAL,\n    "@),
        ("emc_buy_superdeal_ratio"@, " REAL, "@),
        ("emc_buy_bigdeal_ratio"@, " REAL,\n    "@),
        ("crawl_date"@, " TEXT,\n    "@),
    ]
}

/// The columns of the table of valuations.
pub open spec fn valuation_columns() -> Columns {
    seq![
        ("code"@, " TEXT NOT NULL, "@),
        ("name"@, " TEXT, "@),
        ("trade_date"@, " TEXT NOT NULL,\n    "@),
        ("emv_pe_ttm"@, " REAL, "@),
        ("emv_pe_lar"@, " REAL, "@),
        ("emv_pb_mrq"@, " REAL,\n    "@),
        ("emv_pcf_ocf_lar"@, " REAL, "@),
        ("emv_pcf_ocf_ttm"@, " REAL, "@),
        ("emv_ps_ttm"@, " REAL, "@),
        ("emv_peg"@, " REAL,\n    "@),
        ("emv_total_market_cap"@, " REAL, "@),
        ("emv_float_market_cap"@, " REAL, "@),
        ("emv_board"@, " TEXT,\n    "@),
        ("crawl_date"@, " TEXT,\n    "@),
    ]
}

/// The columns of the table of diagnoses in words.
pub open spec fn diag_text_columns() -> Columns {
    seq![
        ("code"@, " TEXT NOT NULL, "@),
        ("name"@, " TEXT, "@),
        ("trade_date"@, " TEXT NOT NULL,\n    "@),
        ("emt_comment_txt"@, " TEXT, "@),
        ("emt_words_explain"@, " TEXT, "@),
        ("crawl_date"@, " TEXT,\n    "@),
    ]
}

/// The columns of the table of chances.
pub open spec fn diag_prob_columns() -> Columns {
    seq![
        ("code"@, " TEXT NOT NULL, "@),
        ("name"@, " TEXT, "@),
        ("trade_date"@, " TEXT NOT NULL,\n    "@),
        ("emt_rise_1_prob"@, " REAL, "@),
        ("emt_rise_5_prob"@, " REAL,\n    "@),
        ("emt_avg_1_inc"@, " REAL, "@),
        ("emt_avg_5_inc"@, " REAL,\n    "@),
        ("emt_all_count_1"@, " INTEGER, "@),
        ("emt_all_count_5"@, " INTEGER,\n    "@),
        ("emt_rank_ratio"@, " REAL, "@),
        ("crawl_date"@, " TEXT,\n    "@),
    ]
}

/// The columns of the table of the wish to take part.
pub open spec fn participation_columns() -> Columns {
    seq![
        ("code"@, " TEXT NOT NULL, "@),
        ("name"@, " TEXT, "@),
        ("trade_date"@, " TEXT NOT NULL,\n    "@),
        ("emp_wish"@, " REAL, "@),
        ("emp_wish_5d"@, " REAL, "@),
        ("emp_wish_change"@, " REAL, "@),
        ("emp_wish_5d_change"@, " REAL,\n    "@),
        ("crawl_date"@, " TEXT,\n    "@),
    ]
}

/// The columns of the table of ranks.
pub open spec fn popularity_columns() -> Columns {
    seq![
        ("code"@, " TEXT NOT NULL, "@),
        ("name"@, " TEXT, "@),
        ("trade_date"@, " TEXT NOT NULL,\n    "@),
        ("emp_market_rank"@, " INTEGER, "@),
        ("emp_market_num"@, " INTEGER, "@),
        ("emp_industry_rank"@, " INTEGER,\n    "@),
        ("emp_change_rate"@, " REAL, "@),
        ("emp_market_stock_num"@, " INTEGER,\n    "@),
        ("emp_focus_rank"@, " INTEGER, "@),
        ("emp_focus_total"@, " INTEGER, "@),
        ("emp_focus_index"@, " REAL,\n    "@),
        ("crawl_date"@, " TEXT,\n    "@),
    ]
}

/// The columns that the statement that counts an attempt names.
pub open spec fn count_columns() -> Columns {
    seq![
        ("code"@, ", "@),
        ("crawl_count"@, ", "@),
        ("last_success"@, ", "@),
        ("last_status"@, ", "@),
        ("last_attempt"@, ", "@),
        ("updated_at"@, ", "@),
        ("source"@, ", "@),
        ("empty_streak"@, ") VALUES ("@),
    ]
}

/// The places that it lists for them.
pub open spec fn count_places() -> Columns {
    seq![
        ("?1"@, ", "@),
        ("1"@, ", "@),
        ("?2"@, ", "@),
        ("?3"@, ", "@),
        ("?4"@, ", "@),
        ("?5"@, ", "@),
        ("?6"@, ", "@),
        ("?7"@, ") ON CONFLICT(code, source) DO UPDATE SET "@),
    ]
}

// ---------------------------------------------------------------- queries

/// The columns that the query of scores asks for.
pub open spec fn scores_asked() -> Columns {
    seq![
        ("trade_date"@, ", "@),
        ("code"@, ", "@),
        ("name"@, ", "@),
        ("synthesis"@, ", "@),
        ("technology"@, ", "@),
        ("capital"@, ", "@),
        ("market"@, ", "@),
        ("finance"@, ", "@),
        ("is_new"@, ", "@),
        ("update_time"@, ", "@),
        ("crawl_date"@, ", "@),
        ("status"@, " FROM scores WHERE code=?1"@),
    ]
}

/// The columns that the query of support and resistance asks for.
pub open spec fn support_asked() -> Columns {
    seq![
        ("cycle"@, ", "@),
        ("support_level"@, ", "@),
        ("resistance_level"@, ", "@),
        ("level_desc"@, ", "@),
        ("rating_text"@, ", "@),
        ("rating_level"@, ", "@),
        ("rating_status"@, ", "@),
        ("bullish_events"@, ", "@),
        ("bearish_events"@, ", "@),
        ("rank_str"@, ", "@),
        ("industry_name"@, ", "@),
        ("update_time"@, ", "@),
        ("trade_date"@, " FROM support_resistance WHERE code=?1"@),
    ]
}

/// The columns that the query of the fund flow asks for.
pub open spec fn flow_asked() -> Columns {
    seq![
        ("super_net"@, ", "@),
        ("large_net"@, ", "@),
        ("medium_net"@, ", "@),
        ("little_net"@, ", "@),
        ("main_net"@, ", "@),
        ("super_rate"@, ", "@),
        ("large_rate"@, ", "@),
        ("medium_rate"@, ", "@),
        ("little_rate"@, ", "@),
        ("trade_date"@, ", "@),
        ("update_time"@, " FROM fund_flow WHERE code=?1"@),
    ]
}

/// The columns that the query of votes asks for.
pub open spec fn vote_asked() -> Columns {
    seq![
        ("vote_up"@, ", "@),
        ("vote_down"@, ", "@),
        ("total_num"@, ", "@),
        ("vote_up_rate"@, ", "@),
        ("vote_down_rate"@, ", "@),
        ("week_up"@, ", "@),
        ("week_down"@, ", "@),
        ("week_rate"@, ", "@),
        ("trade_date"@, ", "@),
        ("update_time"@, " FROM vote WHERE code=?1"@),
    ]
}

/// The columns that the query of comments asks for.
pub open spec fn comment_asked() -> Columns {
    seq![
        ("name"@, ", "@),
        ("trade_date"@, ", "@),
        ("emc_total_score"@, ", "@),
        ("emc_rank"@, ", "@),
        ("emc_rank_up"@, ", "@),
        ("emc_focus"@, ", "@),
        ("emc_org_participate"@, ", "@),
        ("emc_ratio"@, ", "@),
        ("emc_prime_cost"@, ", "@),
        ("emc_prime_cost_20d"@, ", "@),
        ("emc_prime_cost_60d"@, ", "@),
        ("emc_prime_inflow"@, ", "@),
        ("emc_superdeal_in"@, ", "@),
        ("emc_superdeal_out"@, ", "@),
        ("emc_bigdeal_in"@, ", "@),
        ("emc_bigdeal_out"@, ", "@),
        ("emc_buy_superdeal_ratio"@, ", "@),
        ("emc_buy_bigdeal_ratio"@, ", "@),
        ("crawl_date"@, " FROM em_comment WHERE code=?1"@),
    ]
}

/// The columns that the query of valuations asks for.
pub open spec fn valuation_asked() -> Columns {
    seq![
        ("name"@, ", "@),
        ("trade_date"@, ", "@),
        ("emv_pe_ttm"@, ", "@),
        ("emv_pe_lar"@, ", "@),
        ("emv_pb_mrq"@, ", "@),
        ("emv_pcf_ocf_lar"@, ", "@),
        ("emv_pcf_ocf_ttm"@, ", "@),
        ("emv_ps_ttm"@, ", "@),
        ("emv_peg"@, ", "@),
        ("emv_total_market_cap"@, ", "@),
        ("emv_float_market_cap"@, ", "@),
        ("emv_board"@, ", "@),
        ("crawl_date"@, " FROM em_valuation WHERE code=?1"@),
    ]
}

/// The columns that the query of chances asks for.
pub open spec fn diag_prob_asked() -> Columns {
    seq![
        ("trade_date"@, ", "@),
        ("emt_rise_1_prob"@, ", "@),
        ("emt_rise_5_prob"@, ", "@),
        ("emt_avg_1_inc"@, ", "@),
        ("emt_avg_5_inc"@, ", "@),
        ("emt_all_count_1"@, ", "@),
        ("emt_all_count_5"@, ", "@),
        ("emt_rank_ratio"@, ", "@),
        ("crawl_date"@, " FROM em_diag_prob WHERE code=?1"@),
    ]
}

/// The columns that the query of the wish to take part asks for.
pub open spec fn participation_asked() -> Columns {
    seq![
        ("trade_date"@, ", "@),
        ("emp_wish"@, ", "@),
        ("emp_wish_5d"@, ", "@),
        ("emp_wish_change"@, ", "@),
        ("emp_wish_5d_change"@, ", "@),
        ("crawl_date"@, " FROM em_participation WHERE code=?1"@),
    ]
}

/// The columns that the query of ranks asks for.
pub open spec fn popularity_asked() -> Columns {
    seq![
        ("trade_date"@, ", "@),
        ("emp_market_rank"@, ", "@),
        ("emp_market_num"@, ", "@),
        ("emp_industry_rank"@, ", "@),
        ("emp_change_rate"@, ", "@),
        ("emp_market_stock_num"@, ", "@),
        ("emp_focus_rank"@, ", "@),
        ("emp_focus_total"@, ", "@),
        ("emp_focus_index"@, ", "@),
        ("crawl_date"@, " FROM em_popularity WHERE code=?1"@),
    ]
}

/// The columns that the query of diagnoses in words asks for.
pub open spec fn diag_text_asked() -> Columns {
    seq![
        ("trade_date"@, ", "@),
        ("emt_comment_txt"@, ", "@),
        ("emt_words_explain"@, ", "@),
        ("crawl_date"@, " FROM em_diag_text WHERE code=?1"@),
    ]
}

/// The columns that the query of attempts asks for.
pub open spec fn stats_asked() -> Columns {
    seq![
        ("source"@, ", "@),
        ("crawl_count"@, ", "@),
        ("last_success"@, ", "@),
        ("last_status"@, ", "@),
        ("last_attempt"@, ", "@),
        ("updated_at"@, ", "@),
        ("empty_streak"@, " FROM crawl_stats WHERE code=?1"@),
    ]
}

// ---------------------------------------------------------------- the texts

/// The statements that make the tables of the Baidu data name these columns in this order.
#[verifier::rlimit(80)]
pub proof fn the_schema_names_its_columns()
    ensures
        names(SCHEMA@, "CREATE TABLE IF NOT EXISTS stocks (\n    "@, stocks_columns()),
        names(SCHEMA@, "CREATE TABLE IF NOT EXISTS scores (\n    "@, scores_columns()),
        names(SCHEMA@, "CREATE TABLE IF NOT EXISTS support_resistance (\n    "@, support_columns()),
        names(SCHEMA@, "CREATE TABLE IF NOT EXISTS fund_flow (\n    "@, flow_columns()),
        names(SCHEMA@, "CREATE TABLE IF NOT EXISTS vote (\n    "@, vote_columns()),
        names(SCHEMA@, "CREATE TABLE IF NOT EXISTS crawl_stats (\n    "@, stats_columns()),
{
    reveal_strlit(
        "
CREATE TABLE IF NOT EXISTS stocks (
    code TEXT PRIMARY KEY, name TEXT, market TEXT
);
CREATE TABLE IF NOT EXISTS scores (
    trade_date TEXT, code TEXT, name TEXT,
    synthesis TEXT, technology TEXT, capital TEXT, market TEXT, finance TEXT,
    is_new TEXT, update_time TEXT,
    crawl_date TEXT, status TEXT,
    PRIMARY KEY (update_time, code)
);
CREATE TABLE IF NOT EXISTS support_resistance (
    trade_date TEXT, code TEXT, cycle TEXT, support_level TEXT, resistance_level TEXT,
    level_desc TEXT, rating_text TEXT, rating_level TEXT, rating_status TEXT,
    bullish_events TEXT, bearish_events TEXT, rank_str TEXT, industry_name TEXT,
    update_time TEXT, crawl_date TEXT, status TEXT,
    PRIMARY KEY (update_time, code, cycle)
);
CREATE TABLE IF NOT EXISTS fund_flow (
    trade_date TEXT, code TEXT, super_net REAL, large_net REAL, medium_net REAL,
    little_net REAL, super_rate TEXT, large_rate TEXT, medium_rate TEXT,
    little_rate TEXT, main_net REAL, update_time TEXT, crawl_date TEXT, status TEXT,
    PRIMARY KEY (update_time, code)
);
CREATE TABLE IF NOT EXISTS vote (
    trade_date TEXT, code TEXT, vote_up TEXT, vote_down TEXT, total_num TEXT,
    vote_up_rate TEXT, vote_down_rate TEXT, week_up TEXT, week_down TEXT, week_rate TEXT,
    update_time TEXT, crawl_date TEXT, status TEXT,
    PRIMARY KEY (update_time, code)
);
-- 逐股累计抓取统计（按 code 独立建表，不受 update_time 变动影响）：
--   crawl_count  累计被尝试抓取的次数（成功/空壳/失败都 +1；续跑跳过不计入）
--   last_success 最近一次尝试是否成功拿到真实分析（1=成功 0=空壳或失败）
--   last_status  'ok' / 'empty' / 'fail'
--   last_attempt 最近一次尝试的日历日（crawl_date）
--   updated_at   最近一次更新的 CST 时间戳
CREATE TABLE IF NOT EXISTS crawl_stats (
    code TEXT NOT NULL,
    crawl_count INTEGER NOT NULL DEFAULT 0,
    last_success INTEGER NOT NULL DEFAULT 0,
    last_status TEXT,
    last_attempt TEXT,
    updated_at TEXT,
    source TEXT NOT NULL DEFAULT 'baidu',
    empty_streak INTEGER NOT NULL DEFAULT 0,
    PRIMARY KEY (code, source)
);
",
    );
    let t = SCHEMA@;
    assert(names(t, "CREATE TABLE IF NOT EXISTS stocks (\n    "@, stocks_columns())) by {
        reveal_strlit("CREATE TABLE IF NOT EXISTS stocks (\n    ");
        reveal_strlit("code");
        reveal_strlit(" TEXT PRIMARY KEY, ");
        reveal_strlit("name");
        reveal_strlit(" TEXT, ");
        reveal_strlit("market");
        reveal_strlit(" TEXT\n);");
        assert(t.subrange(1, 41) =~= "CREATE TABLE IF NOT EXISTS stocks (\n    "@);
        assert(stands_at(t, "CREATE TABLE IF NOT EXISTS stocks (\n    "@, 1));
        assert(t.subrange(41, 45) =~= "code"@);
        assert(t.subrange(45, 64) =~= " TEXT PRIMARY KEY, "@);
        assert(t.subrange(64, 68) =~= "name"@);
        assert(t.subrange(68, 75) =~= " TEXT, "@);
        assert(t.subrange(75, 81) =~= "market"@);
        assert(t.subrange(81, 89) =~= " TEXT\n);"@);
        reveal_with_fuel(spelled, 5);
        assert(spelled(t, 41, stocks_columns()));
    }
    assert(names(t, "CREATE TABLE IF NOT EXISTS scores (\n    "@, scores_columns())) by {
        reveal_strlit("CREATE TABLE IF NOT EXISTS scores (\n    ");
        reveal_strlit("trade_date");
        reveal_strlit(" TEXT, ");
        reveal_strlit("code");
        reveal_strlit("name");
        reveal_strlit(" TEXT,\n    ");
        reveal_strlit("synthesis");
        reveal_strlit("technology");
        reveal_strlit("capital");
        reveal_strlit("market");
        reveal_strlit("finance");
        reveal_strlit("is_new");
        reveal_strlit("update_time");
        reveal_strlit("crawl_date");
        reveal_strlit("status");
        assert(t.subrange(90, 130) =~= "CREATE TABLE IF NOT EXISTS scores (\n    "@);
        assert(stands_at(t, "CREATE TABLE IF NOT EXISTS scores (\n    "@, 90));
        assert(t.subrange(130, 140) =~= "trade_date"@);
        assert(t.subrange(140, 147) =~= " TEXT, "@);
        assert(t.subrange(147, 151) =~= "code"@);
        assert(t.subrange(151, 158) =~= " TEXT, "@);
        assert(t.subrange(158, 162) =~= "name"@);
        assert(t.subrange(162, 173) =~= " TEXT,\n    "@);
        assert(t.subrange(173, 182) =~= "synthesis"@);
        assert(t.subrange(182, 189) =~= " TEXT, "@);
        assert(t.subrange(189, 199) =~= "technology"@);
        assert(t.subrange(199, 206) =~= " TEXT, "@);
        assert(t.subrange(206, 213) =~= "capital"@);
        assert(t.subrange(213, 220) =~= " TEXT, "@);
        assert(t.subrange(220, 226) =~= "market"@);
        assert(t.subrange(226, 233) =~= " TEXT, "@);
        assert(t.subrange(233, 240) =~= "finance"@);
        assert(t.subrange(240, 251) =~= " TEXT,\n    "@);
        assert(t.subrange(251, 257) =~= "is_new"@);
        assert(t.subrange(257, 264) =~= " TEXT, "@);
        assert(t.subrange(264, 275) =~= "update_time"@);
        assert(t.subrange(275, 286) =~= " TEXT,\n    "@);
        assert(t.subrange(286, 296) =~= "crawl_date"@);
        assert(t.subrange(296, 303) =~= " TEXT, "@);
        assert(t.subrange(303, 309) =~= "status"@);
        assert(t.subrange(309, 320) =~= " TEXT,\n    "@);
        reveal_with_fuel(spelled, 14);
        assert(spelled(t, 130, scores_columns()));
    }
    assert(names(t, "CREATE TABLE IF NOT EXISTS support_resistance (\n    "@,
        support_columns())) by {
        reveal_strlit("CREATE TABLE IF NOT EXISTS support_resistance (\n    ");
        reveal_strlit("trade_date");
        reveal_strlit(" TEXT, ");
        reveal_strlit("code");
        reveal_strlit("cycle");
        reveal_strlit("support_level");
        reveal_strlit("resistance_level");
        reveal_strlit(" TEXT,\n    ");
        reveal_strlit("level_desc");
        reveal_strlit("rating_text");
        reveal_strlit("rating_level");
        reveal_strlit("rating_status");
        reveal_strlit("bullish_events");
        reveal_strlit("bearish_events");
        reveal_strlit("rank_str");
        reveal_strlit("industry_name");
        reveal_strlit("update_time");
        reveal_strlit("crawl_date");
        reveal_strlit("status");
        assert(t.subrange(355, 407) =~= "CREATE TABLE IF NOT EXISTS support_resistance (\n    "@);
        assert(stands_at(t, "CREATE TABLE IF NOT EXISTS support_resistance (\n    "@, 355));
        assert(t.subrange(407, 417) =~= "trade_date"@);
        assert(t.subrange(417, 424) =~= " TEXT, "@);
        assert(t.subrange(424, 428) =~= "code"@);
        assert(t.subrange(428, 435) =~= " TEXT, "@);
        assert(t.subrange(435, 440) =~= "cycle"@);
        assert(t.subrange(440, 447) =~= " TEXT, "@);
        assert(t.subrange(447, 460) =~= "support_level"@);
        assert(t.subrange(460, 467) =~= " TEXT, "@);
        assert(t.subrange(467, 483) =~= "resistance_level"@);
        assert(t.subrange(483, 494) =~= " TEXT,\n    "@);
        assert(t.subrange(494, 504) =~= "level_desc"@);
        assert(t.subrange(504, 511) =~= " TEXT, "@);
        assert(t.subrange(511, 522) =~= "rating_text"@);
        assert(t.subrange(522, 529) =~= " TEXT, "@);
        assert(t.subrange(529, 541) =~= "rating_level"@);
        assert(t.subrange(541, 548) =~= " TEXT, "@);
        assert(t.subrange(548, 561) =~= "rating_status"@);
        assert(t.subrange(561, 572) =~= " TEXT,\n    "@);
        assert(t.subrange(572, 586) =~= "bullish_events"@);
        assert(t.subrange(586, 593) =~= " TEXT, "@);
        assert(t.subrange(593, 607) =~= "bearish_events"@);
        assert(t.subrange(607, 614) =~= " TEXT, "@);
        assert(t.subrange(614, 622) =~= "rank_str"@);
        assert(t.subrange(622, 629) =~= " TEXT, "@);
        assert(t.subrange(629, 642) =~= "industry_name"@);
        assert(t.subrange(642, 653) =~= " TEXT,\n    "@);
        assert(t.subrange(653, 664) =~= "update_time"@);
        assert(t.subrange(664, 671) =~= " TEXT, "@);
        assert(t.subrange(671, 681) =~= "crawl_date"@);
        assert(t.subrange(681, 688) =~= " TEXT, "@);
        assert(t.subrange(688, 694) =~= "status"@);
        assert(t.subrange(694, 705) =~= " TEXT,\n    "@);
        reveal_with_fuel(spelled, 18);
        assert(spelled(t, 407, support_columns()));
    }
    assert(names(t, "CREATE TABLE IF NOT EXISTS fund_flow (\n    "@, flow_columns())) by {
        reveal_strlit("CREATE TABLE IF NOT EXISTS fund_flow (\n    ");
        reveal_strlit("trade_date");
        reveal_strlit(" TEXT, ");
        reveal_strlit("code");
        reveal_strlit("super_net");
        reveal_strlit(" REAL, ");
        reveal_strlit("large_net");
        reveal_strlit("medium_net");
        reveal_strlit(" REAL,\n    ");
        reveal_strlit("little_net");
        reveal_strlit("super_rate");
        reveal_strlit("large_rate");
        reveal_strlit("medium_rate");
        reveal_strlit(" TEXT,\n    ");
        reveal_strlit("little_rate");
        reveal_strlit("main_net");
        reveal_strlit("update_time");
        reveal_strlit("crawl_date");
        reveal_strlit("status");
        assert(t.subrange(747, 790) =~= "CREATE TABLE IF NOT EXISTS fund_flow (\n    "@);
        assert(stands_at(t, "CREATE TABLE IF NOT EXISTS fund_flow (\n    "@, 747));
        assert(t.subrange(790, 800) =~= "trade_date"@);
        assert(t.subrange(800, 807) =~= " TEXT, "@);
        assert(t.subrange(807, 811) =~= "code"@);
        assert(t.subrange(811, 818) =~= " TEXT, "@);
        assert(t.subrange(818, 827) =~= "super_net"@);
        assert(t.subrange(827, 834) =~= " REAL, "@);
        assert(t.subrange(834, 843) =~= "large_net"@);
        assert(t.subrange(843, 850) =~= " REAL, "@);
        assert(t.subrange(850, 860) =~= "medium_net"@);
        assert(t.subrange(860, 871) =~= " REAL,\n    "@);
        assert(t.subrange(871, 881) =~= "little_net"@);
        assert(t.subrange(881, 888) =~= " REAL, "@);
        assert(t.subrange(888, 898) =~= "super_rate"@);
        assert(t.subrange(898, 905) =~= " TEXT, "@);
        assert(t.subrange(905, 915) =~= "large_rate"@);
        assert(t.subrange(915, 922) =~= " TEXT, "@);
        assert(t.subrange(922, 933) =~= "medium_rate"@);
        assert(t.subrange(933, 944) =~= " TEXT,\n    "@);
        assert(t.subrange(944, 955) =~= "little_rate"@);
        assert(t.subrange(955, 962) =~= " TEXT, "@);
        assert(t.subrange(962, 970) =~= "main_net"@);
        assert(t.subrange(970, 977) =~= " REAL, "@);
        assert(t.subrange(977, 988) =~= "update_time"@);
        assert(t.subrange(988, 995) =~= " TEXT, "@);
        assert(t.subrange(995, 1005) =~= "crawl_date"@);
        assert(t.subrange(1005, 1012) =~= " TEXT, "@);
        assert(t.subrange(1012, 1018) =~= "status"@);
        assert(t.subrange(1018, 1029) =~= " TEXT,\n    "@);
        reveal_with_fuel(spelled, 16);
        assert(spelled(t, 790, flow_columns()));
    }
    assert(names(t, "CREATE TABLE IF NOT EXISTS vote (\n    "@, vote_columns())) by {
        reveal_strlit("CREATE TABLE IF NOT EXISTS vote (\n    ");
        reveal_strlit("trade_date");
        reveal_strlit(" TEXT, ");
        reveal_strlit("code");
        reveal_strlit("vote_up");
        reveal_strlit("vote_down");
        reveal_strlit("total_num");
        reveal_strlit(" TEXT,\n    ");
        reveal_strlit("vote_up_rate");
        reveal_strlit("vote_down_rate");
        reveal_strlit("week_up");
        reveal_strlit("week_down");
        reveal_strlit("week_rate");
        reveal_strlit("update_time");
        reveal_strlit("crawl_date");
        reveal_strlit("status");
        assert(t.subrange(1064, 1102) =~= "CREATE TABLE IF NOT EXISTS vote (\n    "@);
        assert(stands_at(t, "CREATE TABLE IF NOT EXISTS vote (\n    "@, 1064));
        assert(t.subrange(1102, 1112) =~= "trade_date"@);
        assert(t.subrange(1112, 1119) =~= " TEXT, "@);
        assert(t.subrange(1119, 1123) =~= "code"@);
        assert(t.subrange(1123, 1130) =~= " TEXT, "@);
        assert(t.subrange(1130, 1137) =~= "vote_up"@);
        assert(t.subrange(1137, 1144) =~= " TEXT, "@);
        assert(t.subrange(1144, 1153) =~= "vote_down"@);
        assert(t.subrange(1153, 1160) =~= " TEXT, "@);
        assert(t.subrange(1160, 1169) =~= "total_num"@);
        assert(t.subrange(1169, 1180) =~= " TEXT,\n    "@);
        assert(t.subrange(1180, 1192) =~= "vote_up_rate"@);
        assert(t.subrange(1192, 1199) =~= " TEXT, "@);
        assert(t.subrange(1199, 1213) =~= "vote_down_rate"@);
        assert(t.subrange(1213, 1220) =~= " TEXT, "@);
        assert(t.subrange(1220, 1227) =~= "week_up"@);
        assert(t.subrange(1227, 1234) =~= " TEXT, "@);
        assert(t.subrange(1234, 1243) =~= "week_down"@);
        assert(t.subrange(1243, 1250) =~= " TEXT, "@);
        assert(t.subrange(1250, 1259) =~= "week_rate"@);
        assert(t.subrange(1259, 1270) =~= " TEXT,\n    "@);
        assert(t.subrange(1270, 1281) =~= "update_time"@);
        assert(t.subrange(1281, 1288) =~= " TEXT, "@);
        assert(t.subrange(1288, 1298) =~= "crawl_date"@);
        assert(t.subrange(1298, 1305) =~= " TEXT, "@);
        assert(t.subrange(1305, 1311) =~= "status"@);
        assert(t.subrange(1311, 1322) =~= " TEXT,\n    "@);
        reveal_with_fuel(spelled, 15);
        assert(spelled(t, 1102, vote_columns()));
    }
    assert(names(t, "CREATE TABLE IF NOT EXISTS crawl_stats (\n    "@, stats_columns())) by {
        reveal_strlit("CREATE TABLE IF NOT EXISTS crawl_stats (\n    ");
        reveal_strlit("code");
        reveal_strlit(" TEXT NOT NULL,\n    ");
        reveal_strlit("crawl_count");
        reveal_strlit(" INTEGER NOT NULL DEFAULT 0,\n    ");
        reveal_strlit("last_success");
        reveal_strlit("last_status");
        reveal_strlit(" TEXT,\n    ");
        reveal_strlit("last_attempt");
        reveal_strlit("updated_at");
        reveal_strlit("source");
        reveal_strlit(" TEXT NOT NULL DEFAULT 'baidu',\n    ");
        reveal_strlit("empty_streak");
        assert(t.subrange(1620, 1665) =~= "CREATE TABLE IF NOT EXISTS crawl_stats (\n    "@);
        assert(stands_at(t, "CREATE TABLE IF NOT EXISTS crawl_stats (\n    "@, 1620));
        assert(t.subrange(1665, 1669) =~= "code"@);
        assert(t.subrange(1669, 1689) =~= " TEXT NOT NULL,\n    "@);
        assert(t.subrange(1689, 1700) =~= "crawl_count"@);
        assert(t.subrange(1700, 1733) =~= " INTEGER NOT NULL DEFAULT 0,\n    "@);
        assert(t.subrange(1733, 1745) =~= "last_success"@);
        assert(t.subrange(1745, 1778) =~= " INTEGER NOT NULL DEFAULT 0,\n    "@);
        assert(t.subrange(1778, 1789) =~= "last_status"@);
        assert(t.subrange(1789, 1800) =~= " TEXT,\n    "@);
        assert(t.subrange(1800, 1812) =~= "last_attempt"@);
        assert(t.subrange(1812, 1823) =~= " TEXT,\n    "@);
        assert(t.subrange(1823, 1833) =~= "updated_at"@);
        assert(t.subrange(1833, 1844) =~= " TEXT,\n    "@);
        assert(t.subrange(1844, 1850) =~= "source"@);
        assert(t.subrange(1850, 1886) =~= " TEXT NOT NULL DEFAULT 'baidu',\n    "@);
        assert(t.subrange(1886, 1898) =~= "empty_streak"@);
        assert(t.subrange(1898, 1931) =~= " INTEGER NOT NULL DEFAULT 0,\n    "@);
        reveal_with_fuel(spelled, 10);
        assert(spelled(t, 1665, stats_columns()));
    }
}

/// The statements that make the tables of the Eastmoney data name these columns in this order.
#[verifier::rlimit(80)]
pub proof fn the_em_schema_names_its_columns()
    ensures
        names(EM_SCHEMA@, "CREATE TABLE IF NOT EXISTS em_comment (\n    "@, comment_columns()),
        names(EM_SCHEMA@, "CREATE TABLE IF NOT EXISTS em_valuation (\n    "@, valuation_columns()),
        names(EM_SCHEMA@, "CREATE TABLE IF NOT EXISTS em_diag_text (\n    "@, diag_text_columns()),
        names(EM_SCHEMA@, "CREATE TABLE IF NOT EXISTS em_diag_prob (\n    "@, diag_prob_columns()),
        names(EM_SCHEMA@, "CREATE TABLE IF NOT EXISTS em_participation (\n    "@,
            participation_columns()),
        names(EM_SCHEMA@, "CREATE TABLE IF NOT EXISTS em_popularity (\n    "@,
            popularity_columns()),
{
    reveal_strlit(
        "
CREATE TABLE IF NOT EXISTS em_comment (
    code TEXT NOT NULL, name TEXT, trade_date TEXT NOT NULL,
    emc_total_score REAL, emc_rank INTEGER, emc_rank_up INTEGER,
    emc_focus REAL, emc_org_participate REAL, emc_ratio REAL,
    emc_prime_cost REAL, emc_prime_cost_20d REAL, emc_prime_cost_60d REAL,
    emc_prime_inflow REAL, emc_superdeal_in REAL, emc_superdeal_out REAL,
    emc_bigdeal_in REAL, emc_bigdeal_out REAL,
    emc_buy_superdeal_ratio REAL, emc_buy_bigdeal_ratio REAL,
    crawl_date TEXT,
    PRIMARY KEY (trade_date, code)
);
CREATE TABLE IF NOT EXISTS em_valuation (
    code TEXT NOT NULL, name TEXT, trade_date TEXT NOT NULL,
    emv_pe_ttm REAL, emv_pe_lar REAL, emv_pb_mrq REAL,
    emv_pcf_ocf_lar REAL, emv_pcf_ocf_ttm REAL, emv_ps_ttm REAL, emv_peg REAL,
    emv_total_market_cap REAL, emv_float_market_cap REAL, emv_board TEXT,
    crawl_date TEXT,
    PRIMARY KEY (trade_date, code)
);
CREATE TABLE IF NOT EXISTS em_diag_text (
    code TEXT NOT NULL, name TEXT, trade_date TEXT NOT NULL,
    emt_comment_txt TEXT, emt_words_explain TEXT, crawl_date TEXT,
    PRIMARY KEY (trade_date, code)
);
CREATE TABLE IF NOT EXISTS em_diag_prob (
    code TEXT NOT NULL, name TEXT, trade_date TEXT NOT NULL,
    emt_rise_1_prob REAL, emt_rise_5_prob REAL,
    emt_avg_1_inc REAL, emt_avg_5_inc REAL,
    emt_all_count_1 INTEGER, emt_all_count_5 INTEGER,
    emt_rank_ratio REAL, crawl_date TEXT,
    PRIMARY KEY (trade_date, code)
);
CREATE TABLE IF NOT EXISTS em_participation (
    code TEXT NOT NULL, name TEXT, trade_date TEXT NOT NULL,
    emp_wish REAL, emp_wish_5d REAL, emp_wish_change REAL, emp_wish_5d_change REAL,
    crawl_date TEXT,
    PRIMARY KEY (trade_date, code)
);
CREATE TABLE IF NOT EXISTS em_popularity (
    code TEXT NOT NULL, name TEXT, trade_date TEXT NOT NULL,
    emp_market_rank INTEGER, emp_market_num INTEGER, emp_industry_rank INTEGER,
    emp_change_rate REAL, emp_market_stock_num INTEGER,
    emp_focus_rank INTEGER, emp_focus_total INTEGER, emp_focus_index REAL,
    crawl_date TEXT,
    PRIMARY KEY (trade_date, code)
);
",
    );
    let t = EM_SCHEMA@;
    assert(names(t, "CREATE TABLE IF NOT EXISTS em_comment (\n    "@, comment_columns())) by {
        reveal_strlit("CREATE TABLE IF NOT EXISTS em_comment (\n    ");
        reveal_strlit("code");
        reveal_strlit(" TEXT NOT NULL, ");
        reveal_strlit("name");
        reveal_strlit(" TEXT, ");
        reveal_strlit("trade_date");
        reveal_strlit(" TEXT NOT NULL,\n    ");
        reveal_strlit("emc_total_score");
        reveal_strlit(" REAL, ");
        reveal_strlit("emc_rank");
        reveal_strlit(" INTEGER, ");
        reveal_strlit("emc_rank_up");
        reveal_strlit(" INTEGER,\n    ");
        reveal_strlit("emc_focus");
        reveal_strlit("emc_org_participate");
        reveal_strlit("emc_ratio");
        reveal_strlit(" REAL,\n    ");
        reveal_strlit("emc_prime_cost");
        reveal_strlit("emc_prime_cost_20d");
        reveal_strlit("emc_prime_cost_60d");
        reveal_strlit("emc_prime_inflow");
        reveal_strlit("emc_superdeal_in");
        reveal_strlit("emc_superdeal_out");
        reveal_strlit("emc_bigdeal_in");
        reveal_strlit("emc_bigdeal_out");
        reveal_strlit("emc_buy_superdeal_ratio");
        reveal_strlit("emc_buy_bigdeal_ratio");
        reveal_strlit("crawl_date");
        reveal_strlit(" TEXT,\n    ");
        assert(t.subrange(1, 45) =~= "CREATE TABLE IF NOT EXISTS em_comment (\n    "@);
        assert(stands_at(t, "CREATE TABLE IF NOT EXISTS em_comment (\n    "@, 1));
        assert(t.subrange(45, 49) =~= "code"@);
        assert(t.subrange(49, 65) =~= " TEXT NOT NULL, "@);
        assert(t.subrange(65, 69) =~= "name"@);
        assert(t.subrange(69, 76) =~= " TEXT, "@);
        assert(t.subrange(76, 86) =~= "trade_date"@);
        assert(t.subrange(86, 106) =~= " TEXT NOT NULL,\n    "@);
        assert(t.subrange(106, 121) =~= "emc_total_score"@);
        assert(t.subrange(121, 128) =~= " REAL, "@);
        assert(t.subrange(128, 136) =~= "emc_rank"@);
        assert(t.subrange(136, 146) =~= " INTEGER, "@);
        assert(t.subrange(146, 157) =~= "emc_rank_up"@);
        assert(t.subrange(157, 171) =~= " INTEGER,\n    "@);
        assert(t.subrange(171, 180) =~= "emc_focus"@);
        assert(t.subrange(180, 187) =~= " REAL, "@);
        assert(t.subrange(187, 206) =~= "emc_org_participate"@);
        assert(t.subrange(206, 213) =~= " REAL, "@);
        assert(t.subrange(213, 222) =~= "emc_ratio"@);
        assert(t.subrange(222, 233) =~= " REAL,\n    "@);
        assert(t.subrange(233, 247) =~= "emc_prime_cost"@);
        assert(t.subrange(247, 254) =~= " REAL, "@);
        assert(t.subrange(254, 272) =~= "emc_prime_cost_20d"@);
        assert(t.subrange(272, 279) =~= " REAL, "@);
        assert(t.subrange(279, 297) =~= "emc_prime_cost_60d"@);
        assert(t.subrange(297, 308) =~= " REAL,\n    "@);
        assert(t.subrange(308, 324) =~= "emc_prime_inflow"@);
        assert(t.subrange(324, 331) =~= " REAL, "@);
        assert(t.subrange(331, 347) =~= "emc_superdeal_in"@);
        assert(t.subrange(347, 354) =~= " REAL, "@);
        assert(t.subrange(354, 371) =~= "emc_superdeal_out"@);
        assert(t.subrange(371, 382) =~= " REAL,\n    "@);
        assert(t.subrange(382, 396) =~= "emc_bigdeal_in"@);
        assert(t.subrange(396, 403) =~= " REAL, "@);
        assert(t.subrange(403, 418) =~= "emc_bigdeal_out"@);
        assert(t.subrange(418, 429) =~= " REAL,\n    "@);
        assert(t.subrange(429, 452) =~= "emc_buy_superdeal_ratio"@);
        assert(t.subrange(452, 459) =~= " REAL, "@);
        assert(t.subrange(459, 480) =~= "emc_buy_bigdeal_ratio"@);
        assert(t.subrange(480, 491) =~= " REAL,\n    "@);
        assert(t.subrange(491, 501) =~= "crawl_date"@);
        assert(t.subrange(501, 512) =~= " TEXT,\n    "@);
        reveal_with_fuel(spelled, 22);
        assert(spelled(t, 45, comment_columns()));
    }
    assert(names(t, "CREATE TABLE IF NOT EXISTS em_valuation (\n    "@, valuation_columns())) by {
        reveal_strlit("CREATE TABLE IF NOT EXISTS em_valuation (\n    ");
        reveal_strlit("code");
        reveal_strlit(" TEXT NOT NULL, ");
        reveal_strlit("name");
        reveal_strlit(" TEXT, ");
        reveal_strlit("trade_date");
        reveal_strlit(" TEXT NOT NULL,\n    ");
        reveal_strlit("emv_pe_ttm");
        reveal_strlit(" REAL, ");
        reveal_strlit("emv_pe_lar");
        reveal_strlit("emv_pb_mrq");
        reveal_strlit(" REAL,\n    ");
        reveal_strlit("emv_pcf_ocf_lar");
        reveal_strlit("emv_pcf_ocf_ttm");
        reveal_strlit("emv_ps_ttm");
        reveal_strlit("emv_peg");
        reveal_strlit("emv_total_market_cap");
        reveal_strlit("emv_float_market_cap");
        reveal_strlit("emv_board");
        reveal_strlit(" TEXT,\n    ");
        reveal_strlit("crawl_date");
        assert(t.subrange(546, 592) =~= "CREATE TABLE IF NOT EXISTS em_valuation (\n    "@);
        assert(stands_at(t, "CREATE TABLE IF NOT EXISTS em_valuation (\n    "@, 546));
        assert(t.subrange(592, 596) =~= "code"@);
        assert(t.subrange(596, 612) =~= " TEXT NOT NULL, "@);
        assert(t.subrange(612, 616) =~= "name"@);
        assert(t.subrange(616, 623) =~= " TEXT, "@);
        assert(t.subrange(623, 633) =~= "trade_date"@);
        assert(t.subrange(633, 653) =~= " TEXT NOT NULL,\n    "@);
        assert(t.subrange(653, 663) =~= "emv_pe_ttm"@);
        assert(t.subrange(663, 670) =~= " REAL, "@);
        assert(t.subrange(670, 680) =~= "emv_pe_lar"@);
        assert(t.subrange(680, 687) =~= " REAL, "@);
        assert(t.subrange(687, 697) =~= "emv_pb_mrq"@);
        assert(t.subrange(697, 708) =~= " REAL,\n    "@);
        assert(t.subrange(708, 723) =~= "emv_pcf_ocf_lar"@);
        assert(t.subrange(723, 730) =~= " REAL, "@);
        assert(t.subrange(730, 745) =~= "emv_pcf_ocf_ttm"@);
        assert(t.subrange(745, 752) =~= " REAL, "@);
        assert(t.subrange(752, 762) =~= "emv_ps_ttm"@);
        assert(t.subrange(762, 769) =~= " REAL, "@);
        assert(t.subrange(769, 776) =~= "emv_peg"@);
        assert(t.subrange(776, 787) =~= " REAL,\n    "@);
        assert(t.subrange(787, 807) =~= "emv_total_market_cap"@);
        assert(t.subrange(807, 814) =~= " REAL, "@);
        assert(t.subrange(814, 834) =~= "emv_float_market_cap"@);
        assert(t.subrange(834, 841) =~= " REAL, "@);
        assert(t.subrange(841, 850) =~= "emv_board"@);
        assert(t.subrange(850, 861) =~= " TEXT,\n    "@);
        assert(t.subrange(861, 871) =~= "crawl_date"@);
        assert(t.subrange(871, 882) =~= " TEXT,\n    "@);
        reveal_with_fuel(spelled, 16);
        assert(spelled(t, 592, valuation_columns()));
    }
    assert(names(t, "CREATE TABLE IF NOT EXISTS em_diag_text (\n    "@, diag_text_columns())) by {
        reveal_strlit("CREATE TABLE IF NOT EXISTS em_diag_text (\n    ");
        reveal_strlit("code");
        reveal_strlit(" TEXT NOT NULL, ");
        reveal_strlit("name");
        reveal_strlit(" TEXT, ");
        reveal_strlit("trade_date");
        reveal_strlit(" TEXT NOT NULL,\n    ");
        reveal_strlit("emt_comment_txt");
        reveal_strlit("emt_words_explain");
        reveal_strlit("crawl_date");
        reveal_strlit(" TEXT,\n    ");
        assert(t.subrange(916, 962) =~= "CREATE TABLE IF NOT EXISTS em_diag_text (\n    "@);
        assert(stands_at(t, "CREATE TABLE IF NOT EXISTS em_diag_text (\n    "@, 916));
        assert(t.subrange(962, 966) =~= "code"@);
        assert(t.subrange(966, 982) =~= " TEXT NOT NULL, "@);
        assert(t.subrange(982, 986) =~= "name"@);
        assert(t.subrange(986, 993) =~= " TEXT, "@);
        assert(t.subrange(993, 1003) =~= "trade_date"@);
        assert(t.subrange(1003, 1023) =~= " TEXT NOT NULL,\n    "@);
        assert(t.subrange(1023, 1038) =~= "emt_comment_txt"@);
        assert(t.subrange(1038, 1045) =~= " TEXT, "@);
        assert(t.subrange(1045, 1062) =~= "emt_words_explain"@);
        assert(t.subrange(1062, 1069) =~= " TEXT, "@);
        assert(t.subrange(1069, 1079) =~= "crawl_date"@);
        assert(t.subrange(1079, 1090) =~= " TEXT,\n    "@);
        reveal_with_fuel(spelled, 8);
        assert(spelled(t, 962, diag_text_columns()));
    }
    assert(names(t, "CREATE TABLE IF NOT EXISTS em_diag_prob (\n    "@, diag_prob_columns())) by {
        reveal_strlit("CREATE TABLE IF NOT EXISTS em_diag_prob (\n    ");
        reveal_strlit("code");
        reveal_strlit(" TEXT NOT NULL, ");
        reveal_strlit("name");
        reveal_strlit(" TEXT, ");
        reveal_strlit("trade_date");
        reveal_strlit(" TEXT NOT NULL,\n    ");
        reveal_strlit("emt_rise_1_prob");
        reveal_strlit(" REAL, ");
        reveal_strlit("emt_rise_5_prob");
        reveal_strlit(" REAL,\n    ");
        reveal_strlit("emt_avg_1_inc");
        reveal_strlit("emt_avg_5_inc");
        reveal_strlit("emt_all_count_1");
        reveal_strlit(" INTEGER, ");
        reveal_strlit("emt_all_count_5");
        reveal_strlit(" INTEGER,\n    ");
        reveal_strlit("emt_rank_ratio");
        reveal_strlit("crawl_date");
        reveal_strlit(" TEXT,\n    ");
        assert(t.subrange(1124, 1170) =~= "CREATE TABLE IF NOT EXISTS em_diag_prob (\n    "@);
        assert(stands_at(t, "CREATE TABLE IF NOT EXISTS em_diag_prob (\n    "@, 1124));
        assert(t.subrange(1170, 1174) =~= "code"@);
        assert(t.subrange(1174, 1190) =~= " TEXT NOT NULL, "@);
        assert(t.subrange(1190, 1194) =~= "name"@);
        assert(t.subrange(1194, 1201) =~= " TEXT, "@);
        assert(t.subrange(1201, 1211) =~= "trade_date"@);
        assert(t.subrange(1211, 1231) =~= " TEXT NOT NULL,\n    "@);
        assert(t.subrange(1231, 1246) =~= "emt_rise_1_prob"@);
        assert(t.subrange(1246, 1253) =~= " REAL, "@);
        assert(t.subrange(1253, 1268) =~= "emt_rise_5_prob"@);
        assert(t.subrange(1268, 1279) =~= " REAL,\n    "@);
        assert(t.subrange(1279, 1292) =~= "emt_avg_1_inc"@);
        assert(t.subrange(1292, 1299) =~= " REAL, "@);
        assert(t.subrange(1299, 1312) =~= "emt_avg_5_inc"@);
        assert(t.subrange(1312, 1323) =~= " REAL,\n    "@);
        assert(t.subrange(1323, 1338) =~= "emt_all_count_1"@);
        assert(t.subrange(1338, 1348) =~= " INTEGER, "@);
        assert(t.subrange(1348, 1363) =~= "emt_all_count_5"@);
        assert(t.subrange(1363, 1377) =~= " INTEGER,\n    "@);
        assert(t.subrange(1377, 1391) =~= "emt_rank_ratio"@);
        assert(t.subrange(1391, 1398) =~= " REAL, "@);
        assert(t.subrange(1398, 1408) =~= "crawl_date"@);
        assert(t.subrange(1408, 1419) =~= " TEXT,\n    "@);
        reveal_with_fuel(spelled, 13);
        assert(spelled(t, 1170, diag_prob_columns()));
    }
    assert(names(t, "CREATE TABLE IF NOT EXISTS em_participation (\n    "@,
        participation_columns())) by {
        reveal_strlit("CREATE TABLE IF NOT EXISTS em_participation (\n    ");
        reveal_strlit("code");
        reveal_strlit(" TEXT NOT NULL, ");
        reveal_strlit("name");
        reveal_strlit(" TEXT, ");
        reveal_strlit("trade_date");
        reveal_strlit(" TEXT NOT NULL,\n    ");
        reveal_strlit("emp_wish");
        reveal_strlit(" REAL, ");
        reveal_strlit("emp_wish_5d");
        reveal_strlit("emp_wish_change");
        reveal_strlit("emp_wish_5d_change");
        reveal_strlit(" REAL,\n    ");
        reveal_strlit("crawl_date");
        reveal_strlit(" TEXT,\n    ");
        assert(t.subrange(1453, 1503) =~= "CREATE TABLE IF NOT EXISTS em_participation (\n    "@);
        assert(stands_at(t, "CREATE TABLE IF NOT EXISTS em_participation (\n    "@, 1453));
        assert(t.subrange(1503, 1507) =~= "code"@);
        assert(t.subrange(1507, 1523) =~= " TEXT NOT NULL, "@);
        assert(t.subrange(1523, 1527) =~= "name"@);
        assert(t.subrange(1527, 1534) =~= " TEXT, "@);
        assert(t.subrange(1534, 1544) =~= "trade_date"@);
        assert(t.subrange(1544, 1564) =~= " TEXT NOT NULL,\n    "@);
        assert(t.subrange(1564, 1572) =~= "emp_wish"@);
        assert(t.subrange(1572, 1579) =~= " REAL, "@);
        assert(t.subrange(1579, 1590) =~= "emp_wish_5d"@);
        assert(t.subrange(1590, 1597) =~= " REAL, "@);
        assert(t.subrange(1597, 1612) =~= "emp_wish_change"@);
        assert(t.subrange(1612, 1619) =~= " REAL, "@);
        assert(t.subrange(1619, 1637) =~= "emp_wish_5d_change"@);
        assert(t.subrange(1637, 1648) =~= " REAL,\n    "@);
        assert(t.subrange(1648, 1658) =~= "crawl_date"@);
        assert(t.subrange(1658, 1669) =~= " TEXT,\n    "@);
        reveal_with_fuel(spelled, 10);
        assert(spelled(t, 1503, participation_columns()));
    }
    assert(names(t, "CREATE TABLE IF NOT EXISTS em_popularity (\n    "@, popularity_columns())) by {
        reveal_strlit("CREATE TABLE IF NOT EXISTS em_popularity (\n    ");
        reveal_strlit("code");
        reveal_strlit(" TEXT NOT NULL, ");
        reveal_strlit("name");
        reveal_strlit(" TEXT, ");
        reveal_strlit("trade_date");
        reveal_strlit(" TEXT NOT NULL,\n    ");
        reveal_strlit("emp_market_rank");
        reveal_strlit(" INTEGER, ");
        reveal_strlit("emp_market_num");
        reveal_strlit("emp_industry_rank");
        reveal_strlit(" INTEGER,\n    ");
        reveal_strlit("emp_change_rate");
        reveal_strlit(" REAL, ");
        reveal_strlit("emp_market_stock_num");
        reveal_strlit("emp_focus_rank");
        reveal_strlit("emp_focus_total");
        reveal_strlit("emp_focus_index");
        reveal_strlit(" REAL,\n    ");
        reveal_strlit("crawl_date");
        reveal_strlit(" TEXT,\n    ");
        assert(t.subrange(1703, 1750) =~= "CREATE TABLE IF NOT EXISTS em_popularity (\n    "@);
        assert(stands_at(t, "CREATE TABLE IF NOT EXISTS em_popularity (\n    "@, 1703));
        assert(t.subrange(1750, 1754) =~= "code"@);
        assert(t.subrange(1754, 1770) =~= " TEXT NOT NULL, "@);
        assert(t.subrange(1770, 1774) =~= "name"@);
        assert(t.subrange(1774, 1781) =~= " TEXT, "@);
        assert(t.subrange(1781, 1791) =~= "trade_date"@);
        assert(t.subrange(1791, 1811) =~= " TEXT NOT NULL,\n    "@);
        assert(t.subrange(1811, 1826) =~= "emp_market_rank"@);
        assert(t.subrange(1826, 1836) =~= " INTEGER, "@);
        assert(t.subrange(1836, 1850) =~= "emp_market_num"@);
        assert(t.subrange(1850, 1860) =~= " INTEGER, "@);
        assert(t.subrange(1860, 1877) =~= "emp_industry_rank"@);
        assert(t.subrange(1877, 1891) =~= " INTEGER,\n    "@);
        assert(t.subrange(1891, 1906) =~= "emp_change_rate"@);
        assert(t.subrange(1906, 1913) =~= " REAL, "@);
        assert(t.subrange(1913, 1933) =~= "emp_market_stock_num"@);
        assert(t.subrange(1933, 1947) =~= " INTEGER,\n    "@);
        assert(t.subrange(1947, 1961) =~= "emp_focus_rank"@);
        assert(t.subrange(1961, 1971) =~= " INTEGER, "@);
        assert(t.subrange(1971, 1986) =~= "emp_focus_total"@);
        assert(t.subrange(1986, 1996) =~= " INTEGER, "@);
        assert(t.subrange(1996, 2011) =~= "emp_focus_index"@);
        assert(t.subrange(2011, 2022) =~= " REAL,\n    "@);
        assert(t.subrange(2022, 2032) =~= "crawl_date"@);
        assert(t.subrange(2032, 2043) =~= " TEXT,\n    "@);
        reveal_with_fuel(spelled, 14);
        assert(spelled(t, 1750, popularity_columns()));
    }
}

/// The query of scores names these columns in this order.
pub proof fn the_query_names_scores()
    ensures
        names(SCORES_QUERY@, "SELECT "@, scores_asked()),
{
    reveal_strlit(
        "SELECT trade_date, code, name, synthesis, technology, capital, market, finance, is_new, update_time, crawl_date, status FROM scores WHERE code=?1 ORDER BY COALESCE(update_time, trade_date) DESC LIMIT 1",
    );
    let t = SCORES_QUERY@;
    assert(names(t, "SELECT "@, scores_asked())) by {
        reveal_strlit("SELECT ");
        reveal_strlit("trade_date");
        reveal_strlit(", ");
        reveal_strlit("code");
        reveal_strlit("name");
        reveal_strlit("synthesis");
        reveal_strlit("technology");
        reveal_strlit("capital");
        reveal_strlit("market");
        reveal_strlit("finance");
        reveal_strlit("is_new");
        reveal_strlit("update_time");
        reveal_strlit("crawl_date");
        reveal_strlit("status");
        reveal_strlit(" FROM scores WHERE code=?1");
        assert(t.subrange(0, 7) =~= "SELECT "@);
        assert(stands_at(t, "SELECT "@, 0));
        assert(t.subrange(7, 17) =~= "trade_date"@);
        assert(t.subrange(17, 19) =~= ", "@);
        assert(t.subrange(19, 23) =~= "code"@);
        assert(t.subrange(23, 25) =~= ", "@);
        assert(t.subrange(25, 29) =~= "name"@);
        assert(t.subrange(29, 31) =~= ", "@);
        assert(t.subrange(31, 40) =~= "synthesis"@);
        assert(t.subrange(40, 42) =~= ", "@);
        assert(t.subrange(42, 52) =~= "technology"@);
        assert(t.subrange(52, 54) =~= ", "@);
        assert(t.subrange(54, 61) =~= "capital"@);
        assert(t.subrange(61, 63) =~= ", "@);
        assert(t.subrange(63, 69) =~= "market"@);
        assert(t.subrange(69, 71) =~= ", "@);
        assert(t.subrange(71, 78) =~= "finance"@);
        assert(t.subrange(78, 80) =~= ", "@);
        assert(t.subrange(80, 86) =~= "is_new"@);
        assert(t.subrange(86, 88) =~= ", "@);
        assert(t.subrange(88, 99) =~= "update_time"@);
        assert(t.subrange(99, 101) =~= ", "@);
        assert(t.subrange(101, 111) =~= "crawl_date"@);
        assert(t.subrange(111, 113) =~= ", "@);
        assert(t.subrange(113, 119) =~= "status"@);
        assert(t.subrange(119, 145) =~= " FROM scores WHERE code=?1"@);
        reveal_with_fuel(spelled, 14);
        assert(spelled(t, 7, scores_asked()));
    }
}

/// The query of support and resistance names these columns in this order.
pub proof fn the_query_names_support()
    ensures
        names(SUPPORT_QUERY@, "SELECT "@, support_asked()),
{
    reveal_strlit(
        "SELECT cycle, support_level, resistance_level, level_desc, rating_text, rating_level, rating_status, bullish_events, bearish_events, rank_str, industry_name, update_time, trade_date FROM support_resistance WHERE code=?1 ORDER BY COALESCE(update_time, trade_date) DESC",
    );
    let t = SUPPORT_QUERY@;
    assert(names(t, "SELECT "@, support_asked())) by {
        reveal_strlit("SELECT ");
        reveal_strlit("cycle");
        reveal_strlit(", ");
        reveal_strlit("support_level");
        reveal_strlit("resistance_level");
        reveal_strlit("level_desc");
        reveal_strlit("rating_text");
        reveal_strlit("rating_level");
        reveal_strlit("rating_status");
        reveal_strlit("bullish_events");
        reveal_strlit("bearish_events");
        reveal_strlit("rank_str");
        reveal_strlit("industry_name");
        reveal_strlit("update_time");
        reveal_strlit("trade_date");
        reveal_strlit(" FROM support_resistance WHERE code=?1");
        assert(t.subrange(0, 7) =~= "SELECT "@);
        assert(stands_at(t, "SELECT "@, 0));
        assert(t.subrange(7, 12) =~= "cycle"@);
        assert(t.subrange(12, 14) =~= ", "@);
        assert(t.subrange(14, 27) =~= "support_level"@);
        assert(t.subrange(27, 29) =~= ", "@);
        assert(t.subrange(29, 45) =~= "resistance_level"@);
        assert(t.subrange(45, 47) =~= ", "@);
        assert(t.subrange(47, 57) =~= "level_desc"@);
        assert(t.subrange(57, 59) =~= ", "@);
        assert(t.subrange(59, 70) =~= "rating_text"@);
        assert(t.subrange(70, 72) =~= ", "@);
        assert(t.subrange(72, 84) =~= "rating_level"@);
        assert(t.subrange(84, 86) =~= ", "@);
        assert(t.subrange(86, 99) =~= "rating_status"@);
        assert(t.subrange(99, 101) =~= ", "@);
        assert(t.subrange(101, 115) =~= "bullish_events"@);
        assert(t.subrange(115, 117) =~= ", "@);
        assert(t.subrange(117, 131) =~= "bearish_events"@);
        assert(t.subrange(131, 133) =~= ", "@);
        assert(t.subrange(133, 141) =~= "rank_str"@);
        assert(t.subrange(141, 143) =~= ", "@);
        assert(t.subrange(143, 156) =~= "industry_name"@);
        assert(t.subrange(156, 158) =~= ", "@);
        assert(t.subrange(158, 169) =~= "update_time"@);
        assert(t.subrange(169, 171) =~= ", "@);
        assert(t.subrange(171, 181) =~= "trade_date"@);
        assert(t.subrange(181, 219) =~= " FROM support_resistance WHERE code=?1"@);
        reveal_with_fuel(spelled, 15);
        assert(spelled(t, 7, support_asked()));
    }
}

/// The query of the fund flow names these columns in this order.
pub proof fn the_query_names_flow()
    ensures
        names(FUND_FLOW_QUERY@, "SELECT "@, flow_asked()),
{
    reveal_strlit(
        "SELECT super_net, large_net, medium_net, little_net, main_net, super_rate, large_rate, medium_rate, little_rate, trade_date, update_time FROM fund_flow WHERE code=?1 ORDER BY COALESCE(update_time, trade_date) DESC LIMIT 1",
    );
    let t = FUND_FLOW_QUERY@;
    assert(names(t, "SELECT "@, flow_asked())) by {
        reveal_strlit("SELECT ");
        reveal_strlit("super_net");
        reveal_strlit(", ");
        reveal_strlit("large_net");
        reveal_strlit("medium_net");
        reveal_strlit("little_net");
        reveal_strlit("main_net");
        reveal_strlit("super_rate");
        reveal_strlit("large_rate");
        reveal_strlit("medium_rate");
        reveal_strlit("little_rate");
        reveal_strlit("trade_date");
        reveal_strlit("update_time");
        reveal_strlit(" FROM fund_flow WHERE code=?1");
        assert(t.subrange(0, 7) =~= "SELECT "@);
        assert(stands_at(t, "SELECT "@, 0));
        assert(t.subrange(7, 16) =~= "super_net"@);
        assert(t.subrange(16, 18) =~= ", "@);
        assert(t.subrange(18, 27) =~= "large_net"@);
        assert(t.subrange(27, 29) =~= ", "@);
        assert(t.subrange(29, 39) =~= "medium_net"@);
        assert(t.subrange(39, 41) =~= ", "@);
        assert(t.subrange(41, 51) =~= "little_net"@);
        assert(t.subrange(51, 53) =~= ", "@);
        assert(t.subrange(53, 61) =~= "main_net"@);
        assert(t.subrange(61, 63) =~= ", "@);
        assert(t.subrange(63, 73) =~= "super_rate"@);
        assert(t.subrange(73, 75) =~= ", "@);
        assert(t.subrange(75, 85) =~= "large_rate"@);
        assert(t.subrange(85, 87) =~= ", "@);
        assert(t.subrange(87, 98) =~= "medium_rate"@);
        assert(t.subrange(98, 100) =~= ", "@);
        assert(t.subrange(100, 111) =~= "little_rate"@);
        assert(t.subrange(111, 113) =~= ", "@);
        assert(t.subrange(113, 123) =~= "trade_date"@);
        assert(t.subrange(123, 125) =~= ", "@);
        assert(t.subrange(125, 136) =~= "update_time"@);
        assert(t.subrange(136, 165) =~= " FROM fund_flow WHERE code=?1"@);
        reveal_with_fuel(spelled, 13);
        assert(spelled(t, 7, flow_asked()));
    }
}

/// The query of votes names these columns in this order.
pub proof fn the_query_names_vote()
    ensures
        names(VOTE_QUERY@, "SELECT "@, vote_asked()),
{
    reveal_strlit(
        "SELECT vote_up, vote_down, total_num, vote_up_rate, vote_down_rate, week_up, week_down, week_rate, trade_date, update_time FROM vote WHERE code=?1 ORDER BY COALESCE(update_time, trade_date) DESC LIMIT 1",
    );
    let t = VOTE_QUERY@;
    assert(names(t, "SELECT "@, vote_asked())) by {
        reveal_strlit("SELECT ");
        reveal_strlit("vote_up");
        reveal_strlit(", ");
        reveal_strlit("vote_down");
        reveal_strlit("total_num");
        reveal_strlit("vote_up_rate");
        reveal_strlit("vote_down_rate");
        reveal_strlit("week_up");
        reveal_strlit("week_down");
        reveal_strlit("week_rate");
        reveal_strlit("trade_date");
        reveal_strlit("update_time");
        reveal_strlit(" FROM vote WHERE code=?1");
        assert(t.subrange(0, 7) =~= "SELECT "@);
        assert(stands_at(t, "SELECT "@, 0));
        assert(t.subrange(7, 14) =~= "vote_up"@);
        assert(t.subrange(14, 16) =~= ", "@);
        assert(t.subrange(16, 25) =~= "vote_down"@);
        assert(t.subrange(25, 27) =~= ", "@);
        assert(t.subrange(27, 36) =~= "total_num"@);
        assert(t.subrange(36, 38) =~= ", "@);
        assert(t.subrange(38, 50) =~= "vote_up_rate"@);
        assert(t.subrange(50, 52) =~= ", "@);
        assert(t.subrange(52, 66) =~= "vote_down_rate"@);
        assert(t.subrange(66, 68) =~= ", "@);
        assert(t.subrange(68, 75) =~= "week_up"@);
        assert(t.subrange(75, 77) =~= ", "@);
        assert(t.subrange(77, 86) =~= "week_down"@);
        assert(t.subrange(86, 88) =~= ", "@);
        assert(t.subrange(88, 97) =~= "week_rate"@);
        assert(t.subrange(97, 99) =~= ", "@);
        assert(t.subrange(99, 109) =~= "trade_date"@);
        assert(t.subrange(109, 111) =~= ", "@);
        assert(t.subrange(111, 122) =~= "update_time"@);
        assert(t.subrange(122, 146) =~= " FROM vote WHERE code=?1"@);
        reveal_with_fuel(spelled, 12);
        assert(spelled(t, 7, vote_asked()));
    }
}

/// The query of comments names these columns in this order.
pub proof fn the_query_names_comment()
    ensures
        names(EM_COMMENT_QUERY@, "SELECT "@, comment_asked()),
{
    reveal_strlit(
        "SELECT name, trade_date, emc_total_score, emc_rank, emc_rank_up, emc_focus, emc_org_participate, emc_ratio, emc_prime_cost, emc_prime_cost_20d, emc_prime_cost_60d, emc_prime_inflow, emc_superdeal_in, emc_superdeal_out, emc_bigdeal_in, emc_bigdeal_out, emc_buy_superdeal_ratio, emc_buy_bigdeal_ratio, crawl_date FROM em_comment WHERE code=?1 ORDER BY trade_date DESC LIMIT 1",
    );
    let t = EM_COMMENT_QUERY@;
    assert(names(t, "SELECT "@, comment_asked())) by {
        reveal_strlit("SELECT ");
        reveal_strlit("name");
        reveal_strlit(", ");
        reveal_strlit("trade_date");
        reveal_strlit("emc_total_score");
        reveal_strlit("emc_rank");
        reveal_strlit("emc_rank_up");
        reveal_strlit("emc_focus");
        reveal_strlit("emc_org_participate");
        reveal_strlit("emc_ratio");
        reveal_strlit("emc_prime_cost");
        reveal_strlit("emc_prime_cost_20d");
        reveal_strlit("emc_prime_cost_60d");
        reveal_strlit("emc_prime_inflow");
        reveal_strlit("emc_superdeal_in");
        reveal_strlit("emc_superdeal_out");
        reveal_strlit("emc_bigdeal_in");
        reveal_strlit("emc_bigdeal_out");
        reveal_strlit("emc_buy_superdeal_ratio");
        reveal_strlit("emc_buy_bigdeal_ratio");
        reveal_strlit("crawl_date");
        reveal_strlit(" FROM em_comment WHERE code=?1");
        assert(t.subrange(0, 7) =~= "SELECT "@);
        assert(stands_at(t, "SELECT "@, 0));
        assert(t.subrange(7, 11) =~= "name"@);
        assert(t.subrange(11, 13) =~= ", "@);
        assert(t.subrange(13, 23) =~= "trade_date"@);
        assert(t.subrange(23, 25) =~= ", "@);
        assert(t.subrange(25, 40) =~= "emc_total_score"@);
        assert(t.subrange(40, 42) =~= ", "@);
        assert(t.subrange(42, 50) =~= "emc_rank"@);
        assert(t.subrange(50, 52) =~= ", "@);
        assert(t.subrange(52, 63) =~= "emc_rank_up"@);
        assert(t.subrange(63, 65) =~= ", "@);
        assert(t.subrange(65, 74) =~= "emc_focus"@);
        assert(t.subrange(74, 76) =~= ", "@);
        assert(t.subrange(76, 95) =~= "emc_org_participate"@);
        assert(t.subrange(95, 97) =~= ", "@);
        assert(t.subrange(97, 106) =~= "emc_ratio"@);
        assert(t.subrange(106, 108) =~= ", "@);
        assert(t.subrange(108, 122) =~= "emc_prime_cost"@);
        assert(t.subrange(122, 124) =~= ", "@);
        assert(t.subrange(124, 142) =~= "emc_prime_cost_20d"@);
        assert(t.subrange(142, 144) =~= ", "@);
        assert(t.subrange(144, 162) =~= "emc_prime_cost_60d"@);
        assert(t.subrange(162, 164) =~= ", "@);
        assert(t.subrange(164, 180) =~= "emc_prime_inflow"@);
        assert(t.subrange(180, 182) =~= ", "@);
        assert(t.subrange(182, 198) =~= "emc_superdeal_in"@);
        assert(t.subrange(198, 200) =~= ", "@);
        assert(t.subrange(200, 217) =~= "emc_superdeal_out"@);
        assert(t.subrange(217, 219) =~= ", "@);
        assert(t.subrange(219, 233) =~= "emc_bigdeal_in"@);
        assert(t.subrange(233, 235) =~= ", "@);
        assert(t.subrange(235, 250) =~= "emc_bigdeal_out"@);
        assert(t.subrange(250, 252) =~= ", "@);
        assert(t.subrange(252, 275) =~= "emc_buy_superdeal_ratio"@);
        assert(t.subrange(275, 277) =~= ", "@);
        assert(t.subrange(277, 298) =~= "emc_buy_bigdeal_ratio"@);
        assert(t.subrange(298, 300) =~= ", "@);
        assert(t.subrange(300, 310) =~= "crawl_date"@);
        assert(t.subrange(310, 340) =~= " FROM em_comment WHERE code=?1"@);
        reveal_with_fuel(spelled, 21);
        assert(spelled(t, 7, comment_asked()));
    }
}

/// The query of valuations names these columns in this order.
pub proof fn the_query_names_valuation()
    ensures
        names(EM_VALUATION_QUERY@, "SELECT "@, valuation_asked()),
{
    reveal_strlit(
        "SELECT name, trade_date, emv_pe_ttm, emv_pe_lar, emv_pb_mrq, emv_pcf_ocf_lar, emv_pcf_ocf_ttm, emv_ps_ttm, emv_peg, emv_total_market_cap, emv_float_market_cap, emv_board, crawl_date FROM em_valuation WHERE code=?1 ORDER BY trade_date DESC LIMIT 1",
    );
    let t = EM_VALUATION_QUERY@;
    assert(names(t, "SELECT "@, valuation_asked())) by {
        reveal_strlit("SELECT ");
        reveal_strlit("name");
        reveal_strlit(", ");
        reveal_strlit("trade_date");
        reveal_strlit("emv_pe_ttm");
        reveal_strlit("emv_pe_lar");
        reveal_strlit("emv_pb_mrq");
        reveal_strlit("emv_pcf_ocf_lar");
        reveal_strlit("emv_pcf_ocf_ttm");
        reveal_strlit("emv_ps_ttm");
        reveal_strlit("emv_peg");
        reveal_strlit("emv_total_market_cap");
        reveal_strlit("emv_float_market_cap");
        reveal_strlit("emv_board");
        reveal_strlit("crawl_date");
        reveal_strlit(" FROM em_valuation WHERE code=?1");
        assert(t.subrange(0, 7) =~= "SELECT "@);
        assert(stands_at(t, "SELECT "@, 0));
        assert(t.subrange(7, 11) =~= "name"@);
        assert(t.subrange(11, 13) =~= ", "@);
        assert(t.subrange(13, 23) =~= "trade_date"@);
        assert(t.subrange(23, 25) =~= ", "@);
        assert(t.subrange(25, 35) =~= "emv_pe_ttm"@);
        assert(t.subrange(35, 37) =~= ", "@);
        assert(t.subrange(37, 47) =~= "emv_pe_lar"@);
        assert(t.subrange(47, 49) =~= ", "@);
        assert(t.subrange(49, 59) =~= "emv_pb_mrq"@);
        assert(t.subrange(59, 61) =~= ", "@);
        assert(t.subrange(61, 76) =~= "emv_pcf_ocf_lar"@);
        assert(t.subrange(76, 78) =~= ", "@);
        assert(t.subrange(78, 93) =~= "emv_pcf_ocf_ttm"@);
        assert(t.subrange(93, 95) =~= ", "@);
        assert(t.subrange(95, 105) =~= "emv_ps_ttm"@);
        assert(t.subrange(105, 107) =~= ", "@);
        assert(t.subrange(107, 114) =~= "emv_peg"@);
        assert(t.subrange(114, 116) =~= ", "@);
        assert(t.subrange(116, 136) =~= "emv_total_market_cap"@);
        assert(t.subrange(136, 138) =~= ", "@);
        assert(t.subrange(138, 158) =~= "emv_float_market_cap"@);
        assert(t.subrange(158, 160) =~= ", "@);
        assert(t.subrange(160, 169) =~= "emv_board"@);
        assert(t.subrange(169, 171) =~= ", "@);
        assert(t.subrange(171, 181) =~= "crawl_date"@);
        assert(t.subrange(181, 213) =~= " FROM em_valuation WHERE code=?1"@);
        reveal_with_fuel(spelled, 15);
        assert(spelled(t, 7, valuation_asked()));
    }
}

/// The query of chances names these columns in this order.
pub proof fn the_query_names_diag_prob()
    ensures
        names(EM_DIAG_PROB_QUERY@, "SELECT "@, diag_prob_asked()),
{
    reveal_strlit(
        "SELECT trade_date, emt_rise_1_prob, emt_rise_5_prob, emt_avg_1_inc, emt_avg_5_inc, emt_all_count_1, emt_all_count_5, emt_rank_ratio, crawl_date FROM em_diag_prob WHERE code=?1 ORDER BY trade_date DESC LIMIT 1",
    );
    let t = EM_DIAG_PROB_QUERY@;
    assert(names(t, "SELECT "@, diag_prob_asked())) by {
        reveal_strlit("SELECT ");
        reveal_strlit("trade_date");
        reveal_strlit(", ");
        reveal_strlit("emt_rise_1_prob");
        reveal_strlit("emt_rise_5_prob");
        reveal_strlit("emt_avg_1_inc");
        reveal_strlit("emt_avg_5_inc");
        reveal_strlit("emt_all_count_1");
        reveal_strlit("emt_all_count_5");
        reveal_strlit("emt_rank_ratio");
        reveal_strlit("crawl_date");
        reveal_strlit(" FROM em_diag_prob WHERE code=?1");
        assert(t.subrange(0, 7) =~= "SELECT "@);
        assert(stands_at(t, "SELECT "@, 0));
        assert(t.subrange(7, 17) =~= "trade_date"@);
        assert(t.subrange(17, 19) =~= ", "@);
        assert(t.subrange(19, 34) =~= "emt_rise_1_prob"@);
        assert(t.subrange(34, 36) =~= ", "@);
        assert(t.subrange(36, 51) =~= "emt_rise_5_prob"@);
        assert(t.subrange(51, 53) =~= ", "@);
        assert(t.subrange(53, 66) =~= "emt_avg_1_inc"@);
        assert(t.subrange(66, 68) =~= ", "@);
        assert(t.subrange(68, 81) =~= "emt_avg_5_inc"@);
        assert(t.subrange(81, 83) =~= ", "@);
        assert(t.subrange(83, 98) =~= "emt_all_count_1"@);
        assert(t.subrange(98, 100) =~= ", "@);
        assert(t.subrange(100, 115) =~= "emt_all_count_5"@);
        assert(t.subrange(115, 117) =~= ", "@);
        assert(t.subrange(117, 131) =~= "emt_rank_ratio"@);
        assert(t.subrange(131, 133) =~= ", "@);
        assert(t.subrange(133, 143) =~= "crawl_date"@);
        assert(t.subrange(143, 175) =~= " FROM em_diag_prob WHERE code=?1"@);
        reveal_with_fuel(spelled, 11);
        assert(spelled(t, 7, diag_prob_asked()));
    }
}

/// The query of the wish to take part names these columns in this order.
pub proof fn the_query_names_participation()
    ensures
        names(EM_PARTICIPATION_QUERY@, "SELECT "@, participation_asked()),
{
    reveal_strlit(
        "SELECT trade_date, emp_wish, emp_wish_5d, emp_wish_change, emp_wish_5d_change, crawl_date FROM em_participation WHERE code=?1 ORDER BY trade_date DESC LIMIT 1",
    );
    let t = EM_PARTICIPATION_QUERY@;
    assert(names(t, "SELECT "@, participation_asked())) by {
        reveal_strlit("SELECT ");
        reveal_strlit("trade_date");
        reveal_strlit(", ");
        reveal_strlit("emp_wish");
        reveal_strlit("emp_wish_5d");
        reveal_strlit("emp_wish_change");
        reveal_strlit("emp_wish_5d_change");
        reveal_strlit("crawl_date");
        reveal_strlit(" FROM em_participation WHERE code=?1");
        assert(t.subrange(0, 7) =~= "SELECT "@);
        assert(stands_at(t, "SELECT "@, 0));
        assert(t.subrange(7, 17) =~= "trade_date"@);
        assert(t.subrange(17, 19) =~= ", "@);
        assert(t.subrange(19, 27) =~= "emp_wish"@);
        assert(t.subrange(27, 29) =~= ", "@);
        assert(t.subrange(29, 40) =~= "emp_wish_5d"@);
        assert(t.subrange(40, 42) =~= ", "@);
        assert(t.subrange(42, 57) =~= "emp_wish_change"@);
        assert(t.subrange(57, 59) =~= ", "@);
        assert(t.subrange(59, 77) =~= "emp_wish_5d_change"@);
        assert(t.subrange(77, 79) =~= ", "@);
        assert(t.subrange(79, 89) =~= "crawl_date"@);
        assert(t.subrange(89, 125) =~= " FROM em_participation WHERE code=?1"@);
        reveal_with_fuel(spelled, 8);
        assert(spelled(t, 7, participation_asked()));
    }
}

/// The query of ranks names these columns in this order.
pub proof fn the_query_names_popularity()
    ensures
        names(EM_POPULARITY_QUERY@, "SELECT "@, popularity_asked()),
{
    reveal_strlit(
        "SELECT trade_date, emp_market_rank, emp_market_num, emp_industry_rank, emp_change_rate, emp_market_stock_num, emp_focus_rank, emp_focus_total, emp_focus_index, crawl_date FROM em_popularity WHERE code=?1 ORDER BY trade_date DESC LIMIT 1",
    );
    let t = EM_POPULARITY_QUERY@;
    assert(names(t, "SELECT "@, popularity_asked())) by {
        reveal_strlit("SELECT ");
        reveal_strlit("trade_date");
        reveal_strlit(", ");
        reveal_strlit("emp_market_rank");
        reveal_strlit("emp_market_num");
        reveal_strlit("emp_industry_rank");
        reveal_strlit("emp_change_rate");
        reveal_strlit("emp_market_stock_num");
        reveal_strlit("emp_focus_rank");
        reveal_strlit("emp_focus_total");
        reveal_strlit("emp_focus_index");
        reveal_strlit("crawl_date");
        reveal_strlit(" FROM em_popularity WHERE code=?1");
        assert(t.subrange(0, 7) =~= "SELECT "@);
        assert(stands_at(t, "SELECT "@, 0));
        assert(t.subrange(7, 17) =~= "trade_date"@);
        assert(t.subrange(17, 19) =~= ", "@);
        assert(t.subrange(19, 34) =~= "emp_market_rank"@);
        assert(t.subrange(34, 36) =~= ", "@);
        assert(t.subrange(36, 50) =~= "emp_market_num"@);
        assert(t.subrange(50, 52) =~= ", "@);
        assert(t.subrange(52, 69) =~= "emp_industry_rank"@);
        assert(t.subrange(69, 71) =~= ", "@);
        assert(t.subrange(71, 86) =~= "emp_change_rate"@);
        assert(t.subrange(86, 88) =~= ", "@);
        assert(t.subrange(88, 108) =~= "emp_market_stock_num"@);
        assert(t.subrange(108, 110) =~= ", "@);
        assert(t.subrange(110, 124) =~= "emp_focus_rank"@);
        assert(t.subrange(124, 126) =~= ", "@);
        assert(t.subrange(126, 141) =~= "emp_focus_total"@);
        assert(t.subrange(141, 143) =~= ", "@);
        assert(t.subrange(143, 158) =~= "emp_focus_index"@);
        assert(t.subrange(158, 160) =~= ", "@);
        assert(t.subrange(160, 170) =~= "crawl_date"@);
        assert(t.subrange(170, 203) =~= " FROM em_popularity WHERE code=?1"@);
        reveal_with_fuel(spelled, 12);
        assert(spelled(t, 7, popularity_asked()));
    }
}

/// The query of diagnoses in words names these columns in this order.
pub proof fn the_query_names_diag_text()
    ensures
        names(EM_DIAG_TEXT_QUERY@, "SELECT "@, diag_text_asked()),
{
    reveal_strlit(
        "SELECT trade_date, emt_comment_txt, emt_words_explain, crawl_date FROM em_diag_text WHERE code=?1 ORDER BY trade_date DESC LIMIT 1",
    );
    let t = EM_DIAG_TEXT_QUERY@;
    assert(names(t, "SELECT "@, diag_text_asked())) by {
        reveal_strlit("SELECT ");
        reveal_strlit("trade_date");
        reveal_strlit(", ");
        reveal_strlit("emt_comment_txt");
        reveal_strlit("emt_words_explain");
        reveal_strlit("crawl_date");
        reveal_strlit(" FROM em_diag_text WHERE code=?1");
        assert(t.subrange(0, 7) =~= "SELECT "@);
        assert(stands_at(t, "SELECT "@, 0));
        assert(t.subrange(7, 17) =~= "trade_date"@);
        assert(t.subrange(17, 19) =~= ", "@);
        assert(t.subrange(19, 34) =~= "emt_comment_txt"@);
        assert(t.subrange(34, 36) =~= ", "@);
        assert(t.subrange(36, 53) =~= "emt_words_explain"@);
        assert(t.subrange(53, 55) =~= ", "@);
        assert(t.subrange(55, 65) =~= "crawl_date"@);
        assert(t.subrange(65, 97) =~= " FROM em_diag_text WHERE code=?1"@);
        reveal_with_fuel(spelled, 6);
        assert(spelled(t, 7, diag_text_asked()));
    }
}

/// The query of attempts names these columns in this order.
pub proof fn the_query_names_stats()
    ensures
        names(CRAWL_STATS_QUERY@, "SELECT "@, stats_asked()),
{
    reveal_strlit(
        "SELECT source, crawl_count, last_success, last_status, last_attempt, updated_at, empty_streak FROM crawl_stats WHERE code=?1 ORDER BY source",
    );
    let t = CRAWL_STATS_QUERY@;
    assert(names(t, "SELECT "@, stats_asked())) by {
        reveal_strlit("SELECT ");
        reveal_strlit("source");
        reveal_strlit(", ");
        reveal_strlit("crawl_count");
        reveal_strlit("last_success");
        reveal_strlit("last_status");
        reveal_strlit("last_attempt");
        reveal_strlit("updated_at");
        reveal_strlit("empty_streak");
        reveal_strlit(" FROM crawl_stats WHERE code=?1");
        assert(t.subrange(0, 7) =~= "SELECT "@);
        assert(stands_at(t, "SELECT "@, 0));
        assert(t.subrange(7, 13) =~= "source"@);
        assert(t.subrange(13, 15) =~= ", "@);
        assert(t.subrange(15, 26) =~= "crawl_count"@);
        assert(t.subrange(26, 28) =~= ", "@);
        assert(t.subrange(28, 40) =~= "last_success"@);
        assert(t.subrange(40, 42) =~= ", "@);
        assert(t.subrange(42, 53) =~= "last_status"@);
        assert(t.subrange(53, 55) =~= ", "@);
        assert(t.subrange(55, 67) =~= "last_attempt"@);
        assert(t.subrange(67, 69) =~= ", "@);
        assert(t.subrange(69, 79) =~= "updated_at"@);
        assert(t.subrange(79, 81) =~= ", "@);
        assert(t.subrange(81, 93) =~= "empty_streak"@);
        assert(t.subrange(93, 124) =~= " FROM crawl_stats WHERE code=?1"@);
        reveal_with_fuel(spelled, 9);
        assert(spelled(t, 7, stats_asked()));
    }
}

/// The statement that counts an attempt names these columns, and then these places for them.
pub proof fn a_count_names_its_columns(status: Seq<char>)
    ensures
        names(stats_text(status), "INSERT INTO crawl_stats ("@, count_columns()),
        names(stats_text(status), ") VALUES ("@, count_places()),
{
    reveal_strlit(
        "INSERT INTO crawl_stats (code, crawl_count, last_success, last_status, last_attempt, updated_at, source, empty_streak) VALUES (?1, 1, ?2, ?3, ?4, ?5, ?6, ?7) ON CONFLICT(code, source) DO UPDATE SET crawl_count = crawl_count + 1, last_success = excluded.last_success, last_status = excluded.last_status, last_attempt = excluded.last_attempt, updated_at = excluded.updated_at, empty_streak = ",
    );
    let t = stats_text(status);
    assert(names(t, "INSERT INTO crawl_stats ("@, count_columns())) by {
        reveal_strlit("INSERT INTO crawl_stats (");
        reveal_strlit("code");
        reveal_strlit(", ");
        reveal_strlit("crawl_count");
        reveal_strlit("last_success");
        reveal_strlit("last_status");
        reveal_strlit("last_attempt");
        reveal_strlit("updated_at");
        reveal_strlit("source");
        reveal_strlit("empty_streak");
        reveal_strlit(") VALUES (");
        assert(t.subrange(0, 25) =~= "INSERT INTO crawl_stats ("@);
        assert(stands_at(t, "INSERT INTO crawl_stats ("@, 0));
        assert(t.subrange(25, 29) =~= "code"@);
        assert(t.subrange(29, 31) =~= ", "@);
        assert(t.subrange(31, 42) =~= "crawl_count"@);
        assert(t.subrange(42, 44) =~= ", "@);
        assert(t.subrange(44, 56) =~= "last_success"@);
        assert(t.subrange(56, 58) =~= ", "@);
        assert(t.subrange(58, 69) =~= "last_status"@);
        assert(t.subrange(69, 71) =~= ", "@);
        assert(t.subrange(71, 83) =~= "last_attempt"@);
        assert(t.subrange(83, 85) =~= ", "@);
        assert(t.subrange(85, 95) =~= "updated_at"@);
        assert(t.subrange(95, 97) =~= ", "@);
        assert(t.subrange(97, 103) =~= "source"@);
        assert(t.subrange(103, 105) =~= ", "@);
        assert(t.subrange(105, 117) =~= "empty_streak"@);
        assert(t.subrange(117, 127) =~= ") VALUES ("@);
        reveal_with_fuel(spelled, 10);
        assert(spelled(t, 25, count_columns()));
    }
    assert(names(t, ") VALUES ("@, count_places())) by {
        reveal_strlit(") VALUES (");
        reveal_strlit("?1");
        reveal_strlit(", ");
        reveal_strlit("1");
        reveal_strlit("?2");
        reveal_strlit("?3");
        reveal_strlit("?4");
        reveal_strlit("?5");
        reveal_strlit("?6");
        reveal_strlit("?7");
        reveal_strlit(") ON CONFLICT(code, source) DO UPDATE SET ");
        assert(t.subrange(117, 127) =~= ") VALUES ("@);
        assert(stands_at(t, ") VALUES ("@, 117));
        assert(t.subrange(127, 129) =~= "?1"@);
        assert(t.subrange(129, 131) =~= ", "@);
        assert(t.subrange(131, 132) =~= "1"@);
        assert(t.subrange(132, 134) =~= ", "@);
        assert(t.subrange(134, 136) =~= "?2"@);
        assert(t.subrange(136, 138) =~= ", "@);
        assert(t.subrange(138, 140) =~= "?3"@);
        assert(t.subrange(140, 142) =~= ", "@);
        assert(t.subrange(142, 144) =~= "?4"@);
        assert(t.subrange(144, 146) =~= ", "@);
        assert(t.subrange(146, 148) =~= "?5"@);
        assert(t.subrange(148, 150) =~= ", "@);
        assert(t.subrange(150, 152) =~= "?6"@);
        assert(t.subrange(152, 154) =~= ", "@);
        assert(t.subrange(154, 156) =~= "?7"@);
        assert(t.subrange(156, 198) =~= ") ON CONFLICT(code, source) DO UPDATE SET "@);
        reveal_with_fuel(spelled, 10);
        assert(spelled(t, 127, count_places()));
    }
}

} // verus!
