//! What the rows of the Eastmoney data hold, column by column and by the keys they are read from.

use vstd::prelude::*;

use crate::columns::{
    comment_columns, diag_prob_columns, diag_text_columns, participation_columns,
    popularity_columns, under, valuation_columns, Columns,
};
use crate::db::{stats_text, CellView, StatementView};
use crate::em_crawler::{
    batch_rows, comment_row, day_in, diag_prob_row, diag_text_row, latest, leftover_rows, name_in,
    participation_row, popularity_row, real_of, row_code, row_day, valuation_row, whole_of,
    Leftover, Tables,
};
use crate::db::text_cell;
use crate::json::{a_lookup_finds_the_entry, as_text, field, field_in, has_entry, Json, JsonNumber};
use crate::number::strict_real;
use crate::text::read_i64;

verus! {

// ---------------------------------------------------------------- readings

/// A number of a document: one as it is written, or that of a string that writes nothing else;
/// null where there is neither.
pub open spec fn reads_real(doc: Option<Json>, key: Seq<char>, cell: CellView) -> bool {
    match doc {
        None => cell == CellView::Null,
        Some(d) => {
            &&& forall|n: JsonNumber| #[trigger]
                has_entry(d, key, Json::Number(n)) ==> cell == CellView::Real(n.text@)
            &&& forall|s: String| #[trigger]
                has_entry(d, key, Json::Text(s)) ==> cell == match strict_real(s@) {
                    Some(t) => CellView::Real(t),
                    None => CellView::Null,
                }
            &&& cell != CellView::Null ==> exists|item: Json| #[trigger]
                has_entry(d, key, item) && (item is Number || item is Text)
        },
    }
}

/// A whole number of a document: one as it is, one cut to a whole one, or that of a string.
pub open spec fn reads_whole(doc: Option<Json>, key: Seq<char>, cell: CellView) -> bool {
    match doc {
        None => cell == CellView::Null,
        Some(d) => {
            &&& forall|n: JsonNumber| #[trigger]
                has_entry(d, key, Json::Number(n)) ==> cell == match n.int {
                    Some(i) => CellView::Int(i as int),
                    None => CellView::Whole(n.text@),
                }
            &&& forall|s: String| #[trigger]
                has_entry(d, key, Json::Text(s)) ==> cell == match read_i64(s@) {
                    Some(i) => CellView::Int(i as int),
                    None => CellView::Null,
                }
            &&& cell != CellView::Null ==> exists|item: Json| #[trigger]
                has_entry(d, key, item) && (item is Number || item is Text)
        },
    }
}

/// A string of a document, or null.
pub open spec fn reads_words(doc: Option<Json>, key: Seq<char>, cell: CellView) -> bool {
    match doc {
        None => cell == CellView::Null,
        Some(d) => {
            &&& forall|s: String| #[trigger]
                has_entry(d, key, Json::Text(s)) ==> cell == CellView::Text(s@)
            &&& cell != CellView::Null ==> exists|s: String| #[trigger]
                has_entry(d, key, Json::Text(s))
        },
    }
}

/// The name in a document, else another.
pub open spec fn reads_name(doc: Option<Json>, otherwise: Seq<char>, cell: CellView) -> bool {
    match doc {
        None => cell == CellView::Text(otherwise),
        Some(d) => {
            &&& forall|s: String| #[trigger]
                has_entry(d, "SECURITY_NAME_ABBR"@, Json::Text(s)) ==> cell == CellView::Text(s@)
            &&& (forall|s: String| !#[trigger]
                has_entry(d, "SECURITY_NAME_ABBR"@, Json::Text(s))) ==> cell == CellView::Text(
                otherwise,
            )
        },
    }
}

/// The day in a document, to ten characters: the day of trading, or without one that of the
/// diagnosis; else another.
pub open spec fn reads_day(doc: Option<Json>, otherwise: Seq<char>, cell: CellView) -> bool {
    match doc {
        None => cell == CellView::Text(otherwise),
        Some(d) => {
            &&& forall|s: String| #[trigger]
                has_entry(d, "TRADE_DATE"@, Json::Text(s)) && s@.len() > 0 ==> cell
                    == CellView::Text(
                    if s@.len() <= 10 {
                        s@
                    } else {
                        s@.take(10)
                    },
                )
            &&& forall|s: String|
                (forall|item: Json| !#[trigger] has_entry(d, "TRADE_DATE"@, item)) && #[trigger]
                    has_entry(d, "DIAGNOSE_DATE"@, Json::Text(s)) && s@.len() > 0 ==> cell
                    == CellView::Text(
                    if s@.len() <= 10 {
                        s@
                    } else {
                        s@.take(10)
                    },
                )
            &&& (forall|item: Json| !#[trigger] has_entry(d, "TRADE_DATE"@, item)) && (forall|
                item: Json,
            | !#[trigger] has_entry(d, "DIAGNOSE_DATE"@, item)) ==> cell == CellView::Text(
                otherwise,
            )
        },
    }
}

/// The code in a document.
pub open spec fn reads_code(doc: Json, cell: CellView) -> bool {
    forall|s: String| #[trigger]
        has_entry(doc, "SECURITY_CODE"@, Json::Text(s)) ==> cell == CellView::Text(s@)
}

pub open spec fn feeds_real(cols: Columns, row: Seq<CellView>, column: Seq<char>, doc: Option<Json>,
    key: Seq<char>) -> bool {
    exists|k: int| 0 <= k < cols.len() && 0 <= k < row.len() && (#[trigger] cols[k]).0 == column
        && reads_real(doc, key, row[k])
}

pub open spec fn feeds_whole(cols: Columns, row: Seq<CellView>, column: Seq<char>,
    doc: Option<Json>, key: Seq<char>) -> bool {
    exists|k: int| 0 <= k < cols.len() && 0 <= k < row.len() && (#[trigger] cols[k]).0 == column
        && reads_whole(doc, key, row[k])
}

pub open spec fn feeds_text(cols: Columns, row: Seq<CellView>, column: Seq<char>, doc: Option<Json>,
    key: Seq<char>) -> bool {
    exists|k: int| 0 <= k < cols.len() && 0 <= k < row.len() && (#[trigger] cols[k]).0 == column
        && reads_words(doc, key, row[k])
}

pub open spec fn feeds_name(cols: Columns, row: Seq<CellView>, column: Seq<char>, doc: Option<Json>,
    otherwise: Seq<char>) -> bool {
    exists|k: int| 0 <= k < cols.len() && 0 <= k < row.len() && (#[trigger] cols[k]).0 == column
        && reads_name(doc, otherwise, row[k])
}

pub open spec fn feeds_day(cols: Columns, row: Seq<CellView>, column: Seq<char>, doc: Option<Json>,
    otherwise: Seq<char>) -> bool {
    exists|k: int| 0 <= k < cols.len() && 0 <= k < row.len() && (#[trigger] cols[k]).0 == column
        && reads_day(doc, otherwise, row[k])
}

pub open spec fn feeds_code(cols: Columns, row: Seq<CellView>, column: Seq<char>,
    doc: Json) -> bool {
    exists|k: int| 0 <= k < cols.len() && 0 <= k < row.len() && (#[trigger] cols[k]).0 == column
        && reads_code(doc, row[k])
}

/// A row of comments.
pub open spec fn holds_comment(row: Seq<CellView>, item: Json, crawl_date: Seq<char>) -> bool {
    &&& row.len() == 20
    &&& feeds_code(comment_columns(), row, "code"@, item)
    &&& feeds_name(comment_columns(), row, "name"@, Some(item), ""@)
    &&& feeds_day(comment_columns(), row, "trade_date"@, Some(item), ""@)
    &&& feeds_real(comment_columns(), row, "emc_total_score"@, Some(item), "TOTALSCORE"@)
    &&& feeds_whole(comment_columns(), row, "emc_rank"@, Some(item), "RANK"@)
    &&& feeds_whole(comment_columns(), row, "emc_rank_up"@, Some(item), "RANK_UP"@)
    &&& feeds_real(comment_columns(), row, "emc_focus"@, Some(item), "FOCUS"@)
    &&& feeds_real(comment_columns(), row, "emc_org_participate"@, Some(item), "ORG_PARTICIPATE"@)
    &&& feeds_real(comment_columns(), row, "emc_ratio"@, Some(item), "RATIO"@)
    &&& feeds_real(comment_columns(), row, "emc_prime_cost"@, Some(item), "PRIME_COST"@)
    &&& feeds_real(comment_columns(), row, "emc_prime_cost_20d"@, Some(item), "PRIME_COST_20DAYS"@)
    &&& feeds_real(comment_columns(), row, "emc_prime_cost_60d"@, Some(item), "PRIME_COST_60DAYS"@)
    &&& feeds_real(comment_columns(), row, "emc_prime_inflow"@, Some(item), "PRIME_INFLOW"@)
    &&& feeds_real(comment_columns(), row, "emc_superdeal_in"@, Some(item), "SUPERDEAL_INFLOW"@)
    &&& feeds_real(comment_columns(), row, "emc_superdeal_out"@, Some(item), "SUPERDEAL_OUTFLOW"@)
    &&& feeds_real(comment_columns(), row, "emc_bigdeal_in"@, Some(item), "BIGDEAL_INFLOW"@)
    &&& feeds_real(comment_columns(), row, "emc_bigdeal_out"@, Some(item), "BIGDEAL_OUTFLOW"@)
    &&& feeds_real(comment_columns(), row, "emc_buy_superdeal_ratio"@, Some(item),
        "BUY_SUPERDEAL_RATIO"@)
    &&& feeds_real(comment_columns(), row, "emc_buy_bigdeal_ratio"@, Some(item),
        "BUY_BIGDEAL_RATIO"@)
    &&& under(comment_columns(), row, "crawl_date"@, CellView::Text(crawl_date))
}

/// A row of diagnoses in words.
pub open spec fn holds_diag_text(row: Seq<CellView>, who: Leftover, comment: Option<Json>,
    words: Option<Json>, crawl_date: Seq<char>) -> bool {
    &&& row.len() == 6
    &&& under(diag_text_columns(), row, "code"@, CellView::Text(who.code@))
    &&& exists|other: Seq<char>| reads_name(comment, who.name@, CellView::Text(other))
        && #[trigger] feeds_name(diag_text_columns(), row, "name"@, words, other)
    &&& feeds_day(diag_text_columns(), row, "trade_date"@, comment, who.td@)
    &&& feeds_text(diag_text_columns(), row, "emt_comment_txt"@, comment, "COMMENT_TXT"@)
    &&& feeds_text(diag_text_columns(), row, "emt_words_explain"@, words, "WORDS_EXPLAIN"@)
    &&& under(diag_text_columns(), row, "crawl_date"@, CellView::Text(crawl_date))
}

/// A row of chances: the chances of the report, and the share of stocks beaten of the row that came
/// for the stock.
pub open spec fn holds_diag_prob(row: Seq<CellView>, who: Leftover, chances: Option<Json>,
    share: Option<Json>, crawl_date: Seq<char>) -> bool {
    &&& row.len() == 11
    &&& under(diag_prob_columns(), row, "code"@, CellView::Text(who.code@))
    &&& feeds_name(diag_prob_columns(), row, "name"@, chances, who.name@)
    &&& feeds_day(diag_prob_columns(), row, "trade_date"@, chances, who.td@)
    &&& feeds_real(diag_prob_columns(), row, "emt_rise_1_prob"@, chances, "RISE_1_PROBABILITY"@)
    &&& feeds_real(diag_prob_columns(), row, "emt_rise_5_prob"@, chances, "RISE_5_PROBABILITY"@)
    &&& feeds_real(diag_prob_columns(), row, "emt_avg_1_inc"@, chances, "AVERAGE_1_INCREASE"@)
    &&& feeds_real(diag_prob_columns(), row, "emt_avg_5_inc"@, chances, "AVERAGE_5_INCREASE"@)
    &&& feeds_whole(diag_prob_columns(), row, "emt_all_count_1"@, chances, "ALL_COUNT_1"@)
    &&& feeds_whole(diag_prob_columns(), row, "emt_all_count_5"@, chances, "ALL_COUNT_5"@)
    &&& feeds_real(diag_prob_columns(), row, "emt_rank_ratio"@, share, "STOCK_RANK_RATIO"@)
    &&& under(diag_prob_columns(), row, "crawl_date"@, CellView::Text(crawl_date))
}

/// A row of the wish to take part.
pub open spec fn holds_participation(row: Seq<CellView>, who: Leftover, row_doc: Json,
    crawl_date: Seq<char>) -> bool {
    &&& row.len() == 8
    &&& under(participation_columns(), row, "code"@, CellView::Text(who.code@))
    &&& feeds_name(participation_columns(), row, "name"@, Some(row_doc), who.name@)
    &&& feeds_day(participation_columns(), row, "trade_date"@, Some(row_doc), who.td@)
    &&& feeds_real(participation_columns(), row, "emp_wish"@, Some(row_doc), "PARTICIPATION_WISH"@)
    &&& feeds_real(participation_columns(), row, "emp_wish_5d"@, Some(row_doc),
        "PARTICIPATION_WISH_5DAYS"@)
    &&& feeds_real(participation_columns(), row, "emp_wish_change"@, Some(row_doc),
        "PARTICIPATION_WISH_CHANGE"@)
    &&& feeds_real(participation_columns(), row, "emp_wish_5d_change"@, Some(row_doc),
        "PARTICIPATION_WISH_5DAYSCHANGE"@)
    &&& under(participation_columns(), row, "crawl_date"@, CellView::Text(crawl_date))
}

/// A row of ranks: those of the one report, and the focus of the other.
pub open spec fn holds_popularity(row: Seq<CellView>, who: Leftover, ranks: Option<Json>,
    focus: Option<Json>, crawl_date: Seq<char>) -> bool {
    &&& row.len() == 12
    &&& under(popularity_columns(), row, "code"@, CellView::Text(who.code@))
    &&& feeds_name(popularity_columns(), row, "name"@, ranks, who.name@)
    &&& feeds_day(popularity_columns(), row, "trade_date"@, ranks, who.td@)
    &&& feeds_whole(popularity_columns(), row, "emp_market_rank"@, ranks, "MARKET_RANK"@)
    &&& feeds_whole(popularity_columns(), row, "emp_market_num"@, ranks, "EVALUATE_MARKET_NUM"@)
    &&& feeds_whole(popularity_columns(), row, "emp_industry_rank"@, ranks, "INDUSTRY_RANK"@)
    &&& feeds_real(popularity_columns(), row, "emp_change_rate"@, ranks, "CHANGE_RATE"@)
    &&& feeds_whole(popularity_columns(), row, "emp_market_stock_num"@, ranks, "MARKET_STOCK_NUM"@)
    &&& feeds_whole(popularity_columns(), row, "emp_focus_rank"@, focus, "MARKET_FOCUS_RANK"@)
    &&& feeds_whole(popularity_columns(), row, "emp_focus_total"@, focus, "TOTAL_MARKET"@)
    &&& feeds_real(popularity_columns(), row, "emp_focus_index"@, focus, "MARKET_FOCUS"@)
    &&& under(popularity_columns(), row, "crawl_date"@, CellView::Text(crawl_date))
}

/// A row of valuations.
pub open spec fn holds_valuation(row: Seq<CellView>, who: Leftover, row_doc: Json,
    crawl_date: Seq<char>) -> bool {
    &&& row.len() == 14
    &&& under(valuation_columns(), row, "code"@, CellView::Text(who.code@))
    &&& feeds_name(valuation_columns(), row, "name"@, Some(row_doc), who.name@)
    &&& feeds_day(valuation_columns(), row, "trade_date"@, Some(row_doc), who.td@)
    &&& feeds_real(valuation_columns(), row, "emv_pe_ttm"@, Some(row_doc), "PE_TTM"@)
    &&& feeds_real(valuation_columns(), row, "emv_pe_lar"@, Some(row_doc), "PE_LAR"@)
    &&& feeds_real(valuation_columns(), row, "emv_pb_mrq"@, Some(row_doc), "PB_MRQ"@)
    &&& feeds_real(valuation_columns(), row, "emv_pcf_ocf_lar"@, Some(row_doc), "PCF_OCF_LAR"@)
    &&& feeds_real(valuation_columns(), row, "emv_pcf_ocf_ttm"@, Some(row_doc), "PCF_OCF_TTM"@)
    &&& feeds_real(valuation_columns(), row, "emv_ps_ttm"@, Some(row_doc), "PS_TTM"@)
    &&& feeds_real(valuation_columns(), row, "emv_peg"@, Some(row_doc), "PEG_CAR"@)
    &&& feeds_real(valuation_columns(), row, "emv_total_market_cap"@, Some(row_doc),
        "TOTAL_MARKET_CAP"@)
    &&& feeds_real(valuation_columns(), row, "emv_float_market_cap"@, Some(row_doc),
        "NOTLIMITED_MARKETCAP_A"@)
    &&& feeds_text(valuation_columns(), row, "emv_board"@, Some(row_doc), "BOARD_NAME"@)
    &&& under(valuation_columns(), row, "crawl_date"@, CellView::Text(crawl_date))
}

// ---------------------------------------------------------------- lemmas

proof fn entries_are_looked_up(d: Json, key: Seq<char>)
    ensures
        forall|item: Json| #[trigger] has_entry(d, key, item) <==> field(d, key) == Some(item),
{
    assert forall|item: Json| #[trigger] has_entry(d, key, item) <==> field(d, key)
        == Some(item) by {
        a_lookup_finds_the_entry(d, key, item);
    }
    match field(d, key) {
        Some(item) => {
            assert(has_entry(d, key, item));
        },
        None => {},
    }
}

proof fn a_real_is_read(doc: Option<Json>, key: Seq<char>)
    ensures
        reads_real(doc, key, real_of(doc, key)),
{
    if let Some(d) = doc {
        entries_are_looked_up(d, key);
        if let Some(item) = field(d, key) {
            assert(has_entry(d, key, item));
        }
    }
}

proof fn a_whole_is_read(doc: Option<Json>, key: Seq<char>)
    ensures
        reads_whole(doc, key, whole_of(doc, key)),
{
    if let Some(d) = doc {
        entries_are_looked_up(d, key);
        if let Some(item) = field(d, key) {
            assert(has_entry(d, key, item));
        }
    }
}

proof fn a_text_is_read(doc: Option<Json>, key: Seq<char>)
    ensures
        reads_words(doc, key, text_cell(as_text(field_in(doc, key)))),
{
    if let Some(d) = doc {
        entries_are_looked_up(d, key);
        if let Some(Json::Text(s)) = field(d, key) {
            assert(has_entry(d, key, Json::Text(s)));
        }
    }
}

proof fn a_name_is_taken(doc: Option<Json>, otherwise: Seq<char>)
    ensures
        reads_name(doc, otherwise, CellView::Text(name_in(doc, otherwise))),
{
    if let Some(d) = doc {
        entries_are_looked_up(d, "SECURITY_NAME_ABBR"@);
        if let Some(Json::Text(s)) = field(d, "SECURITY_NAME_ABBR"@) {
            assert(has_entry(d, "SECURITY_NAME_ABBR"@, Json::Text(s)));
        }
    }
}

proof fn a_day_is_taken(doc: Option<Json>, otherwise: Seq<char>)
    ensures
        reads_day(doc, otherwise, CellView::Text(day_in(doc, otherwise))),
{
    if let Some(d) = doc {
        entries_are_looked_up(d, "TRADE_DATE"@);
        entries_are_looked_up(d, "DIAGNOSE_DATE"@);
        if let Some(item) = field(d, "TRADE_DATE"@) {
            assert(has_entry(d, "TRADE_DATE"@, item));
        }
        if let Some(item) = field(d, "DIAGNOSE_DATE"@) {
            assert(has_entry(d, "DIAGNOSE_DATE"@, item));
        }
    }
}

proof fn a_day_of_nothing(doc: Json)
    ensures
        row_day(doc) == day_in(Some(doc), ""@),
{
    reveal_strlit("");
    if row_day(doc).len() == 0 {
        assert(row_day(doc) =~= ""@);
    }
}

proof fn a_code_is_read(doc: Json)
    ensures
        reads_code(doc, CellView::Text(row_code(doc))),
{
    entries_are_looked_up(doc, "SECURITY_CODE"@);
}

proof fn comment_is_held(item: Json, crawl_date: Seq<char>)
    ensures
        holds_comment(comment_row(item, crawl_date).params, item, crawl_date),
{
    let cols = comment_columns();
    let row = comment_row(item, crawl_date).params;
    a_day_of_nothing(item);
    assert(cols[0].0 == "code"@);
    a_code_is_read(item);
    assert(reads_code(item, row[0]));
    assert(cols[1].0 == "name"@);
    a_name_is_taken(Some(item), ""@);
    assert(reads_name(Some(item), ""@, row[1]));
    assert(cols[2].0 == "trade_date"@);
    a_day_is_taken(Some(item), ""@);
    assert(reads_day(Some(item), ""@, row[2]));
    assert(cols[3].0 == "emc_total_score"@);
    a_real_is_read(Some(item), "TOTALSCORE"@);
    assert(reads_real(Some(item), "TOTALSCORE"@, row[3]));
    assert(cols[4].0 == "emc_rank"@);
    a_whole_is_read(Some(item), "RANK"@);
    assert(reads_whole(Some(item), "RANK"@, row[4]));
    assert(cols[5].0 == "emc_rank_up"@);
    a_whole_is_read(Some(item), "RANK_UP"@);
    assert(reads_whole(Some(item), "RANK_UP"@, row[5]));
    assert(cols[6].0 == "emc_focus"@);
    a_real_is_read(Some(item), "FOCUS"@);
    assert(reads_real(Some(item), "FOCUS"@, row[6]));
    assert(cols[7].0 == "emc_org_participate"@);
    a_real_is_read(Some(item), "ORG_PARTICIPATE"@);
    assert(reads_real(Some(item), "ORG_PARTICIPATE"@, row[7]));
    assert(cols[8].0 == "emc_ratio"@);
    a_real_is_read(Some(item), "RATIO"@);
    assert(reads_real(Some(item), "RATIO"@, row[8]));
    assert(cols[9].0 == "emc_prime_cost"@);
    a_real_is_read(Some(item), "PRIME_COST"@);
    assert(reads_real(Some(item), "PRIME_COST"@, row[9]));
    assert(cols[10].0 == "emc_prime_cost_20d"@);
    a_real_is_read(Some(item), "PRIME_COST_20DAYS"@);
    assert(reads_real(Some(item), "PRIME_COST_20DAYS"@, row[10]));
    assert(cols[11].0 == "emc_prime_cost_60d"@);
    a_real_is_read(Some(item), "PRIME_COST_60DAYS"@);
    assert(reads_real(Some(item), "PRIME_COST_60DAYS"@, row[11]));
    assert(cols[12].0 == "emc_prime_inflow"@);
    a_real_is_read(Some(item), "PRIME_INFLOW"@);
    assert(reads_real(Some(item), "PRIME_INFLOW"@, row[12]));
    assert(cols[13].0 == "emc_superdeal_in"@);
    a_real_is_read(Some(item), "SUPERDEAL_INFLOW"@);
    assert(reads_real(Some(item), "SUPERDEAL_INFLOW"@, row[13]));
    assert(cols[14].0 == "emc_superdeal_out"@);
    a_real_is_read(Some(item), "SUPERDEAL_OUTFLOW"@);
    assert(reads_real(Some(item), "SUPERDEAL_OUTFLOW"@, row[14]));
    assert(cols[15].0 == "emc_bigdeal_in"@);
    a_real_is_read(Some(item), "BIGDEAL_INFLOW"@);
    assert(reads_real(Some(item), "BIGDEAL_INFLOW"@, row[15]));
    assert(cols[16].0 == "emc_bigdeal_out"@);
    a_real_is_read(Some(item), "BIGDEAL_OUTFLOW"@);
    assert(reads_real(Some(item), "BIGDEAL_OUTFLOW"@, row[16]));
    assert(cols[17].0 == "emc_buy_superdeal_ratio"@);
    a_real_is_read(Some(item), "BUY_SUPERDEAL_RATIO"@);
    assert(reads_real(Some(item), "BUY_SUPERDEAL_RATIO"@, row[17]));
    assert(cols[18].0 == "emc_buy_bigdeal_ratio"@);
    a_real_is_read(Some(item), "BUY_BIGDEAL_RATIO"@);
    assert(reads_real(Some(item), "BUY_BIGDEAL_RATIO"@, row[18]));
    assert(cols[19].0 == "crawl_date"@);
    assert(row[19] == CellView::Text(crawl_date));
}

proof fn diag_text_is_held(who: Leftover, comment: Option<Json>, words: Option<Json>,
    crawl_date: Seq<char>)
    ensures
        holds_diag_text(diag_text_row(who, crawl_date, comment, words).params, who, comment, words,
            crawl_date),
{
    let cols = diag_text_columns();
    let row = diag_text_row(who, crawl_date, comment, words).params;
    assert(cols[0].0 == "code"@);
    assert(row[0] == CellView::Text(who.code@));
    assert(cols[1].0 == "name"@);
    let other = name_in(comment, who.name@);
    a_name_is_taken(comment, who.name@);
    a_name_is_taken(words, other);
    assert(reads_name(words, other, row[1]));
    assert(feeds_name(cols, row, "name"@, words, other));
    assert(cols[2].0 == "trade_date"@);
    a_day_is_taken(comment, who.td@);
    assert(reads_day(comment, who.td@, row[2]));
    assert(cols[3].0 == "emt_comment_txt"@);
    a_text_is_read(comment, "COMMENT_TXT"@);
    assert(reads_words(comment, "COMMENT_TXT"@, row[3]));
    assert(cols[4].0 == "emt_words_explain"@);
    a_text_is_read(words, "WORDS_EXPLAIN"@);
    assert(reads_words(words, "WORDS_EXPLAIN"@, row[4]));
    assert(cols[5].0 == "crawl_date"@);
    assert(row[5] == CellView::Text(crawl_date));
}

proof fn diag_prob_is_held(who: Leftover, chances: Option<Json>, share: Option<Json>,
    crawl_date: Seq<char>)
    ensures
        holds_diag_prob(diag_prob_row(who, crawl_date, chances, share).params, who, chances, share,
            crawl_date),
{
    let cols = diag_prob_columns();
    let row = diag_prob_row(who, crawl_date, chances, share).params;
    assert(cols[0].0 == "code"@);
    assert(row[0] == CellView::Text(who.code@));
    assert(cols[1].0 == "name"@);
    a_name_is_taken(chances, who.name@);
    assert(reads_name(chances, who.name@, row[1]));
    assert(cols[2].0 == "trade_date"@);
    a_day_is_taken(chances, who.td@);
    assert(reads_day(chances, who.td@, row[2]));
    assert(cols[3].0 == "emt_rise_1_prob"@);
    a_real_is_read(chances, "RISE_1_PROBABILITY"@);
    assert(reads_real(chances, "RISE_1_PROBABILITY"@, row[3]));
    assert(cols[4].0 == "emt_rise_5_prob"@);
    a_real_is_read(chances, "RISE_5_PROBABILITY"@);
    assert(reads_real(chances, "RISE_5_PROBABILITY"@, row[4]));
    assert(cols[5].0 == "emt_avg_1_inc"@);
    a_real_is_read(chances, "AVERAGE_1_INCREASE"@);
    assert(reads_real(chances, "AVERAGE_1_INCREASE"@, row[5]));
    assert(cols[6].0 == "emt_avg_5_inc"@);
    a_real_is_read(chances, "AVERAGE_5_INCREASE"@);
    assert(reads_real(chances, "AVERAGE_5_INCREASE"@, row[6]));
    assert(cols[7].0 == "emt_all_count_1"@);
    a_whole_is_read(chances, "ALL_COUNT_1"@);
    assert(reads_whole(chances, "ALL_COUNT_1"@, row[7]));
    assert(cols[8].0 == "emt_all_count_5"@);
    a_whole_is_read(chances, "ALL_COUNT_5"@);
    assert(reads_whole(chances, "ALL_COUNT_5"@, row[8]));
    assert(cols[9].0 == "emt_rank_ratio"@);
    a_real_is_read(share, "STOCK_RANK_RATIO"@);
    assert(reads_real(share, "STOCK_RANK_RATIO"@, row[9]));
    assert(cols[10].0 == "crawl_date"@);
    assert(row[10] == CellView::Text(crawl_date));
}

proof fn participation_is_held(who: Leftover, row_doc: Json, crawl_date: Seq<char>)
    ensures
        holds_participation(participation_row(who, crawl_date, row_doc).params, who, row_doc,
            crawl_date),
{
    let cols = participation_columns();
    let row = participation_row(who, crawl_date, row_doc).params;
    assert(cols[0].0 == "code"@);
    assert(row[0] == CellView::Text(who.code@));
    assert(cols[1].0 == "name"@);
    a_name_is_taken(Some(row_doc), who.name@);
    assert(reads_name(Some(row_doc), who.name@, row[1]));
    assert(cols[2].0 == "trade_date"@);
    a_day_is_taken(Some(row_doc), who.td@);
    assert(reads_day(Some(row_doc), who.td@, row[2]));
    assert(cols[3].0 == "emp_wish"@);
    a_real_is_read(Some(row_doc), "PARTICIPATION_WISH"@);
    assert(reads_real(Some(row_doc), "PARTICIPATION_WISH"@, row[3]));
    assert(cols[4].0 == "emp_wish_5d"@);
    a_real_is_read(Some(row_doc), "PARTICIPATION_WISH_5DAYS"@);
    assert(reads_real(Some(row_doc), "PARTICIPATION_WISH_5DAYS"@, row[4]));
    assert(cols[5].0 == "emp_wish_change"@);
    a_real_is_read(Some(row_doc), "PARTICIPATION_WISH_CHANGE"@);
    assert(reads_real(Some(row_doc), "PARTICIPATION_WISH_CHANGE"@, row[5]));
    assert(cols[6].0 == "emp_wish_5d_change"@);
    a_real_is_read(Some(row_doc), "PARTICIPATION_WISH_5DAYSCHANGE"@);
    assert(reads_real(Some(row_doc), "PARTICIPATION_WISH_5DAYSCHANGE"@, row[6]));
    assert(cols[7].0 == "crawl_date"@);
    assert(row[7] == CellView::Text(crawl_date));
}

proof fn popularity_is_held(who: Leftover, ranks: Option<Json>, focus: Option<Json>,
    crawl_date: Seq<char>)
    ensures
        holds_popularity(popularity_row(who, crawl_date, ranks, focus).params, who, ranks, focus,
            crawl_date),
{
    let cols = popularity_columns();
    let row = popularity_row(who, crawl_date, ranks, focus).params;
    assert(cols[0].0 == "code"@);
    assert(row[0] == CellView::Text(who.code@));
    assert(cols[1].0 == "name"@);
    a_name_is_taken(ranks, who.name@);
    assert(reads_name(ranks, who.name@, row[1]));
    assert(cols[2].0 == "trade_date"@);
    a_day_is_taken(ranks, who.td@);
    assert(reads_day(ranks, who.td@, row[2]));
    assert(cols[3].0 == "emp_market_rank"@);
    a_whole_is_read(ranks, "MARKET_RANK"@);
    assert(reads_whole(ranks, "MARKET_RANK"@, row[3]));
    assert(cols[4].0 == "emp_market_num"@);
    a_whole_is_read(ranks, "EVALUATE_MARKET_NUM"@);
    assert(reads_whole(ranks, "EVALUATE_MARKET_NUM"@, row[4]));
    assert(cols[5].0 == "emp_industry_rank"@);
    a_whole_is_read(ranks, "INDUSTRY_RANK"@);
    assert(reads_whole(ranks, "INDUSTRY_RANK"@, row[5]));
    assert(cols[6].0 == "emp_change_rate"@);
    a_real_is_read(ranks, "CHANGE_RATE"@);
    assert(reads_real(ranks, "CHANGE_RATE"@, row[6]));
    assert(cols[7].0 == "emp_market_stock_num"@);
    a_whole_is_read(ranks, "MARKET_STOCK_NUM"@);
    assert(reads_whole(ranks, "MARKET_STOCK_NUM"@, row[7]));
    assert(cols[8].0 == "emp_focus_rank"@);
    a_whole_is_read(focus, "MARKET_FOCUS_RANK"@);
    assert(reads_whole(focus, "MARKET_FOCUS_RANK"@, row[8]));
    assert(cols[9].0 == "emp_focus_total"@);
    a_whole_is_read(focus, "TOTAL_MARKET"@);
    assert(reads_whole(focus, "TOTAL_MARKET"@, row[9]));
    assert(cols[10].0 == "emp_focus_index"@);
    a_real_is_read(focus, "MARKET_FOCUS"@);
    assert(reads_real(focus, "MARKET_FOCUS"@, row[10]));
    assert(cols[11].0 == "crawl_date"@);
    assert(row[11] == CellView::Text(crawl_date));
}

proof fn valuation_is_held(who: Leftover, row_doc: Json, crawl_date: Seq<char>)
    ensures
        holds_valuation(valuation_row(who, crawl_date, row_doc).params, who, row_doc, crawl_date),
{
    let cols = valuation_columns();
    let row = valuation_row(who, crawl_date, row_doc).params;
    assert(cols[0].0 == "code"@);
    assert(row[0] == CellView::Text(who.code@));
    assert(cols[1].0 == "name"@);
    a_name_is_taken(Some(row_doc), who.name@);
    assert(reads_name(Some(row_doc), who.name@, row[1]));
    assert(cols[2].0 == "trade_date"@);
    a_day_is_taken(Some(row_doc), who.td@);
    assert(reads_day(Some(row_doc), who.td@, row[2]));
    assert(cols[3].0 == "emv_pe_ttm"@);
    a_real_is_read(Some(row_doc), "PE_TTM"@);
    assert(reads_real(Some(row_doc), "PE_TTM"@, row[3]));
    assert(cols[4].0 == "emv_pe_lar"@);
    a_real_is_read(Some(row_doc), "PE_LAR"@);
    assert(reads_real(Some(row_doc), "PE_LAR"@, row[4]));
    assert(cols[5].0 == "emv_pb_mrq"@);
    a_real_is_read(Some(row_doc), "PB_MRQ"@);
    assert(reads_real(Some(row_doc), "PB_MRQ"@, row[5]));
    assert(cols[6].0 == "emv_pcf_ocf_lar"@);
    a_real_is_read(Some(row_doc), "PCF_OCF_LAR"@);
    assert(reads_real(Some(row_doc), "PCF_OCF_LAR"@, row[6]));
    assert(cols[7].0 == "emv_pcf_ocf_ttm"@);
    a_real_is_read(Some(row_doc), "PCF_OCF_TTM"@);
    assert(reads_real(Some(row_doc), "PCF_OCF_TTM"@, row[7]));
    assert(cols[8].0 == "emv_ps_ttm"@);
    a_real_is_read(Some(row_doc), "PS_TTM"@);
    assert(reads_real(Some(row_doc), "PS_TTM"@, row[8]));
    assert(cols[9].0 == "emv_peg"@);
    a_real_is_read(Some(row_doc), "PEG_CAR"@);
    assert(reads_real(Some(row_doc), "PEG_CAR"@, row[9]));
    assert(cols[10].0 == "emv_total_market_cap"@);
    a_real_is_read(Some(row_doc), "TOTAL_MARKET_CAP"@);
    assert(reads_real(Some(row_doc), "TOTAL_MARKET_CAP"@, row[10]));
    assert(cols[11].0 == "emv_float_market_cap"@);
    a_real_is_read(Some(row_doc), "NOTLIMITED_MARKETCAP_A"@);
    assert(reads_real(Some(row_doc), "NOTLIMITED_MARKETCAP_A"@, row[11]));
    assert(cols[12].0 == "emv_board"@);
    a_text_is_read(Some(row_doc), "BOARD_NAME"@);
    assert(reads_words(Some(row_doc), "BOARD_NAME"@, row[12]));
    assert(cols[13].0 == "crawl_date"@);
    assert(row[13] == CellView::Text(crawl_date));
}

/// A table of the Eastmoney data.
pub enum EmTable {
    Comment,
    Words,
    Chances,
    Wish,
    Ranks,
    Valuation,
}

/// The statement that writes a row of a table.
pub open spec fn em_write_of(table: EmTable) -> Seq<char> {
    match table {
        EmTable::Comment =>
            "INSERT OR REPLACE INTO em_comment VALUES (?,?,?,?,?,?,?,?,?,?,?,?,?,?,?,?,?,?,?,?)"@,
        EmTable::Words => "INSERT OR REPLACE INTO em_diag_text VALUES (?,?,?,?,?,?)"@,
        EmTable::Chances => "INSERT OR REPLACE INTO em_diag_prob VALUES (?,?,?,?,?,?,?,?,?,?,?)"@,
        EmTable::Wish => "INSERT OR REPLACE INTO em_participation VALUES (?,?,?,?,?,?,?,?)"@,
        EmTable::Ranks => "INSERT OR REPLACE INTO em_popularity VALUES (?,?,?,?,?,?,?,?,?,?,?,?)"@,
        EmTable::Valuation =>
            "INSERT OR REPLACE INTO em_valuation VALUES (?,?,?,?,?,?,?,?,?,?,?,?,?,?)"@,
    }
}

proof fn em_statements_differ()
    ensures
        forall|a: EmTable, b: EmTable| a != b ==> #[trigger] em_write_of(a) != #[trigger]
            em_write_of(b),
        forall|a: EmTable, status: Seq<char>| #[trigger] em_write_of(a) != #[trigger]
            stats_text(status),
{
    reveal_strlit(
        "INSERT INTO crawl_stats (code, crawl_count, last_success, last_status, last_attempt, updated_at, source, empty_streak) VALUES (?1, 1, ?2, ?3, ?4, ?5, ?6, ?7) ON CONFLICT(code, source) DO UPDATE SET crawl_count = crawl_count + 1, last_success = excluded.last_success, last_status = excluded.last_status, last_attempt = excluded.last_attempt, updated_at = excluded.updated_at, empty_streak = ",
    );
    reveal_strlit("INSERT OR REPLACE INTO em_comment VALUES (?,?,?,?,?,?,?,?,?,?,?,?,?,?,?,?,?,?,?,?)");
    reveal_strlit("INSERT OR REPLACE INTO em_diag_text VALUES (?,?,?,?,?,?)");
    reveal_strlit("INSERT OR REPLACE INTO em_diag_prob VALUES (?,?,?,?,?,?,?,?,?,?,?)");
    reveal_strlit("INSERT OR REPLACE INTO em_participation VALUES (?,?,?,?,?,?,?,?)");
    reveal_strlit("INSERT OR REPLACE INTO em_popularity VALUES (?,?,?,?,?,?,?,?,?,?,?,?)");
    reveal_strlit("INSERT OR REPLACE INTO em_valuation VALUES (?,?,?,?,?,?,?,?,?,?,?,?,?,?)");
    assert("INSERT OR REPLACE INTO em_comment VALUES (?,?,?,?,?,?,?,?,?,?,?,?,?,?,?,?,?,?,?,?)"@[26]
        == 'c' &&
        "INSERT OR REPLACE INTO em_comment VALUES (?,?,?,?,?,?,?,?,?,?,?,?,?,?,?,?,?,?,?,?)"@[27]
        == 'o' &&
        "INSERT OR REPLACE INTO em_comment VALUES (?,?,?,?,?,?,?,?,?,?,?,?,?,?,?,?,?,?,?,?)"@[31]
        == 'n');
    assert("INSERT OR REPLACE INTO em_diag_text VALUES (?,?,?,?,?,?)"@[26] == 'd'
        && "INSERT OR REPLACE INTO em_diag_text VALUES (?,?,?,?,?,?)"@[27] == 'i'
        && "INSERT OR REPLACE INTO em_diag_text VALUES (?,?,?,?,?,?)"@[31] == 't');
    assert("INSERT OR REPLACE INTO em_diag_prob VALUES (?,?,?,?,?,?,?,?,?,?,?)"@[26] == 'd'
        && "INSERT OR REPLACE INTO em_diag_prob VALUES (?,?,?,?,?,?,?,?,?,?,?)"@[27] == 'i'
        && "INSERT OR REPLACE INTO em_diag_prob VALUES (?,?,?,?,?,?,?,?,?,?,?)"@[31] == 'p');
    assert("INSERT OR REPLACE INTO em_participation VALUES (?,?,?,?,?,?,?,?)"@[26] == 'p'
        && "INSERT OR REPLACE INTO em_participation VALUES (?,?,?,?,?,?,?,?)"@[27] == 'a'
        && "INSERT OR REPLACE INTO em_participation VALUES (?,?,?,?,?,?,?,?)"@[31] == 'c');
    assert("INSERT OR REPLACE INTO em_popularity VALUES (?,?,?,?,?,?,?,?,?,?,?,?)"@[26] == 'p'
        && "INSERT OR REPLACE INTO em_popularity VALUES (?,?,?,?,?,?,?,?,?,?,?,?)"@[27] == 'o'
        && "INSERT OR REPLACE INTO em_popularity VALUES (?,?,?,?,?,?,?,?,?,?,?,?)"@[31] == 'a');
    assert("INSERT OR REPLACE INTO em_valuation VALUES (?,?,?,?,?,?,?,?,?,?,?,?,?,?)"@[26] == 'v'
        && "INSERT OR REPLACE INTO em_valuation VALUES (?,?,?,?,?,?,?,?,?,?,?,?,?,?)"@[27] == 'a'
        && "INSERT OR REPLACE INTO em_valuation VALUES (?,?,?,?,?,?,?,?,?,?,?,?,?,?)"@[31] == 't');
    assert forall|a: EmTable, status: Seq<char>| #[trigger] em_write_of(a) != #[trigger]
        stats_text(status) by {
        assert(em_write_of(a)[7] == 'O');
        assert(stats_text(status)[7] == 'I');
    }
    assert forall|a: EmTable, b: EmTable| a != b implies #[trigger] em_write_of(a) != #[trigger]
        em_write_of(b) by {
        let (x, y) = (em_write_of(a), em_write_of(b));
        assert(x[26] != y[26] || x[27] != y[27] || x[31] != y[31]);
    }
}

// ---------------------------------------------------------------- laws

/// What the reports say of a stock stands under the columns of its name: of each report that which
/// it has on the stock, and of one report nothing under the columns of another.
pub proof fn reports_stand_under_their_columns(
    item: Json,
    who: Leftover,
    tables: Tables,
    crawl_date: Seq<char>,
    i: int,
)
    requires
        0 <= i < batch_rows(item, who, tables, crawl_date).len(),
    ensures
        ({
            let s = batch_rows(item, who, tables, crawl_date)[i];
            let diagnosis = latest(tables.diagnosis.report(), who.code@);
            let news = latest(tables.news.report(), who.code@);
            let chances = latest(tables.chances.report(), who.code@);
            let ranks = latest(tables.ranks.report(), who.code@);
            let focus = latest(tables.focus.report(), who.code@);
            let wish = latest(tables.participation.report(), who.code@);
            &&& s.sql == em_write_of(EmTable::Comment) ==> holds_comment(s.params, item, crawl_date)
            &&& s.sql == em_write_of(EmTable::Words) ==> holds_diag_text(s.params, who, diagnosis,
                news, crawl_date)
            &&& s.sql == em_write_of(EmTable::Chances) ==> holds_diag_prob(s.params, who, chances,
                None, crawl_date)
            &&& s.sql == em_write_of(EmTable::Wish) ==> wish is Some
                && holds_participation(s.params, who, wish->0, crawl_date)
            &&& s.sql == em_write_of(EmTable::Ranks) ==> holds_popularity(s.params, who, ranks,
                focus, crawl_date)
            &&& s.sql != em_write_of(EmTable::Valuation)
        }),
{
    let s = batch_rows(item, who, tables, crawl_date)[i];
    let diagnosis = latest(tables.diagnosis.report(), who.code@);
    let news = latest(tables.news.report(), who.code@);
    let chances = latest(tables.chances.report(), who.code@);
    let ranks = latest(tables.ranks.report(), who.code@);
    let focus = latest(tables.focus.report(), who.code@);
    let wish = latest(tables.participation.report(), who.code@);
    em_statements_differ();
    comment_is_held(item, crawl_date);
    diag_text_is_held(who, diagnosis, news, crawl_date);
    diag_prob_is_held(who, chances, None, crawl_date);
    popularity_is_held(who, ranks, focus, crawl_date);
    if let Some(w) = wish {
        participation_is_held(who, w, crawl_date);
    }
    let (c, d, p, w, r) = (EmTable::Comment, EmTable::Words, EmTable::Chances, EmTable::Wish,
        EmTable::Ranks);
    assert({
        ||| s == comment_row(item, crawl_date) && s.sql == em_write_of(c)
        ||| s == diag_text_row(who, crawl_date, diagnosis, news) && s.sql == em_write_of(d)
        ||| s == diag_prob_row(who, crawl_date, chances, None) && s.sql == em_write_of(p)
        ||| wish is Some && s == participation_row(who, crawl_date, wish->0) && s.sql
            == em_write_of(w)
        ||| s == popularity_row(who, crawl_date, ranks, focus) && s.sql == em_write_of(r)
    });
    assert(em_write_of(EmTable::Valuation) != s.sql);
}

/// Which rows the reports give a stock: its comment; words where either of two reports has any;
/// chances, the wish to take part and ranks where a report has the stock.
pub proof fn reports_write_what_they_have(item: Json, who: Leftover, tables: Tables,
    crawl_date: Seq<char>)
    requires
        row_code(item).len() > 0,
    ensures
        ({
            let rows = batch_rows(item, who, tables, crawl_date);
            let code = who.code@;
            &&& em_writes(rows, EmTable::Comment)
            &&& em_writes(rows, EmTable::Chances) <==> latest(tables.chances.report(), code) is Some
            &&& em_writes(rows, EmTable::Wish) <==> latest(tables.participation.report(),
                code) is Some
            &&& em_writes(rows, EmTable::Ranks) <==> latest(tables.ranks.report(), code) is Some
                || latest(tables.focus.report(), code) is Some
            &&& em_writes(rows, EmTable::Words) <==> has_words(latest(tables.diagnosis.report(),
                code), "COMMENT_TXT"@) || has_words(latest(tables.news.report(), code),
                "WORDS_EXPLAIN"@)
        }),
{
    let rows = batch_rows(item, who, tables, crawl_date);
    let diagnosis = latest(tables.diagnosis.report(), who.code@);
    let news = latest(tables.news.report(), who.code@);
    let chances = latest(tables.chances.report(), who.code@);
    let ranks = latest(tables.ranks.report(), who.code@);
    let focus = latest(tables.focus.report(), who.code@);
    let wish = latest(tables.participation.report(), who.code@);
    em_statements_differ();
    words_are_read(diagnosis, "COMMENT_TXT"@);
    words_are_read(news, "WORDS_EXPLAIN"@);
    let a: int = 1;
    let b: int = a + if has_words(diagnosis, "COMMENT_TXT"@) || has_words(news,
        "WORDS_EXPLAIN"@) { 1int } else { 0int };
    let c: int = b + if chances is Some { 1int } else { 0int };
    let d: int = c + if wish is Some { 1int } else { 0int };
    assert(rows[0].sql == em_write_of(EmTable::Comment));
    if b > a {
        assert(rows[a].sql == em_write_of(EmTable::Words));
    }
    if c > b {
        assert(rows[b].sql == em_write_of(EmTable::Chances));
    }
    if d > c {
        assert(rows[c].sql == em_write_of(EmTable::Wish));
    }
    if ranks is Some || focus is Some {
        assert(rows[d].sql == em_write_of(EmTable::Ranks));
    }
    assert forall|i: int| 0 <= i < rows.len() implies {
        ||| (#[trigger] rows[i]).sql == em_write_of(EmTable::Comment) && i == 0
        ||| rows[i].sql == em_write_of(EmTable::Words) && b > a
        ||| rows[i].sql == em_write_of(EmTable::Chances) && c > b
        ||| rows[i].sql == em_write_of(EmTable::Wish) && d > c
        ||| rows[i].sql == em_write_of(EmTable::Ranks) && (ranks is Some || focus is Some)
    } by {}
}

/// Some statement writes to a table.
pub open spec fn em_writes(rows: Seq<StatementView>, table: EmTable) -> bool {
    exists|i: int| 0 <= i < rows.len() && (#[trigger] rows[i]).sql == em_write_of(table)
}

/// A document has a string under a key.
pub open spec fn has_words(doc: Option<Json>, key: Seq<char>) -> bool {
    doc matches Some(d) && exists|s: String| #[trigger] has_entry(d, key, Json::Text(s))
}

proof fn words_are_read(doc: Option<Json>, key: Seq<char>)
    ensures
        has_words(doc, key) <==> as_text(field_in(doc, key)) is Some,
{
    if let Some(d) = doc {
        entries_are_looked_up(d, key);
        if let Some(Json::Text(s)) = field(d, key) {
            assert(has_entry(d, key, Json::Text(s)));
        }
    }
}

/// A stock that was asked for by itself writes its valuation, where one came, column by column, and
/// a row of chances that holds the chances of the report and the share of stocks beaten that came
/// for the stock, each under the columns of its name.
pub proof fn an_asked_stock_stands_under_its_columns(
    who: Leftover,
    val: Option<Json>,
    share: Option<Json>,
    chances: Option<Json>,
    crawl_date: Seq<char>,
    secs: int,
    i: int,
)
    requires
        0 <= i < leftover_rows(who, val, share, chances, crawl_date, secs).len(),
    ensures
        ({
            let s = leftover_rows(who, val, share, chances, crawl_date, secs)[i];
            &&& s.sql == em_write_of(EmTable::Valuation) ==> val is Some
                && holds_valuation(s.params, who, val->0, crawl_date)
            &&& s.sql == em_write_of(EmTable::Chances) ==> holds_diag_prob(s.params, who, chances,
                share, crawl_date)
            &&& s.sql != em_write_of(EmTable::Comment)
            &&& s.sql != em_write_of(EmTable::Words)
            &&& s.sql != em_write_of(EmTable::Wish)
            &&& s.sql != em_write_of(EmTable::Ranks)
        }),
{
    em_statements_differ();
    if let Some(v) = val {
        valuation_is_held(who, v, crawl_date);
    }
    diag_prob_is_held(who, chances, share, crawl_date);
    let s = leftover_rows(who, val, share, chances, crawl_date, secs)[i];
    let (v, p) = (EmTable::Valuation, EmTable::Chances);
    assert({
        ||| val is Some && s == valuation_row(who, crawl_date, val->0) && s.sql == em_write_of(v)
        ||| s == diag_prob_row(who, crawl_date, chances, share) && s.sql == em_write_of(p)
        ||| s.sql == stats_text("ok"@)
    });
    assert(em_write_of(v) != stats_text("ok"@) && em_write_of(p) != stats_text("ok"@));
    assert(em_write_of(EmTable::Comment) != s.sql && em_write_of(EmTable::Words) != s.sql
        && em_write_of(EmTable::Wish) != s.sql && em_write_of(EmTable::Ranks) != s.sql);
}

/// Which rows such a stock writes: a valuation where one came, chances where there are any or a
/// share came.
pub proof fn a_stock_writes_what_came(
    who: Leftover,
    val: Option<Json>,
    share: Option<Json>,
    chances: Option<Json>,
    crawl_date: Seq<char>,
    secs: int,
)
    ensures
        ({
            let rows = leftover_rows(who, val, share, chances, crawl_date, secs);
            &&& em_writes(rows, EmTable::Valuation) <==> val is Some
            &&& em_writes(rows, EmTable::Chances) <==> chances is Some || share is Some
        }),
{
    em_statements_differ();
    let rows = leftover_rows(who, val, share, chances, crawl_date, secs);
    let a: int = if val is Some { 1 } else { 0 };
    if val is Some {
        assert(rows[0].sql == em_write_of(EmTable::Valuation));
    }
    if chances is Some || share is Some {
        assert(rows[a].sql == em_write_of(EmTable::Chances));
    }
    assert forall|i: int| 0 <= i < rows.len() implies {
        ||| (#[trigger] rows[i]).sql == em_write_of(EmTable::Valuation) && val is Some
        ||| rows[i].sql == em_write_of(EmTable::Chances) && (chances is Some || share is Some)
        ||| rows[i].sql == stats_text("ok"@)
    } by {}
}

/// A stock that is asked for after the reports keeps the chances that these gave it: its row of
/// chances stands under the same stock and day and takes the place of theirs with the same
/// chances in it, and what it adds is the share of stocks beaten.
pub proof fn a_stock_keeps_its_chances(
    item: Json,
    who: Leftover,
    tables: Tables,
    crawl_date: Seq<char>,
    i: int,
    val: Option<Json>,
    share: Option<Json>,
    secs: int,
    j: int,
)
    requires
        0 <= i < batch_rows(item, who, tables, crawl_date).len(),
        batch_rows(item, who, tables, crawl_date)[i].sql == em_write_of(EmTable::Chances),
        0 <= j < leftover_rows(
            who,
            val,
            share,
            latest(tables.chances.report(), who.code@),
            crawl_date,
            secs,
        ).len(),
        leftover_rows(
            who,
            val,
            share,
            latest(tables.chances.report(), who.code@),
            crawl_date,
            secs,
        )[j].sql == em_write_of(EmTable::Chances),
    ensures
        ({
            let chances = latest(tables.chances.report(), who.code@);
            let before = batch_rows(item, who, tables, crawl_date)[i].params;
            let after = leftover_rows(who, val, share, chances, crawl_date, secs)[j].params;
            &&& before.len() == after.len() == diag_prob_columns().len()
            &&& forall|k: int|
                0 <= k < before.len() && (#[trigger] diag_prob_columns()[k]).0 != "emt_rank_ratio"@
                    ==> after[k] == before[k]
            &&& feeds_real(diag_prob_columns(), after, "emt_rank_ratio"@, share,
                "STOCK_RANK_RATIO"@)
        }),
{
    let chances = latest(tables.chances.report(), who.code@);
    em_statements_differ();
    an_asked_stock_stands_under_its_columns(who, val, share, chances, crawl_date, secs, j);
    let (c, d, p, w, r) = (EmTable::Comment, EmTable::Words, EmTable::Chances, EmTable::Wish,
        EmTable::Ranks);
    let s = batch_rows(item, who, tables, crawl_date)[i];
    assert(em_write_of(c) != em_write_of(p) && em_write_of(d) != em_write_of(p)
        && em_write_of(w) != em_write_of(p) && em_write_of(r) != em_write_of(p));
    assert(s == diag_prob_row(who, crawl_date, chances, None));
    let l = leftover_rows(who, val, share, chances, crawl_date, secs)[j];
    assert(em_write_of(EmTable::Valuation) != em_write_of(p)
        && stats_text("ok"@) != em_write_of(p));
    assert(l == diag_prob_row(who, crawl_date, chances, share));
    let cols = diag_prob_columns();
    assert(cols[9].0 == "emt_rank_ratio"@);
}

} // verus!
