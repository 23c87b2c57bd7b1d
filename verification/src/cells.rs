//! What the rows that are written hold, column by column.

use vstd::prelude::*;

use crate::columns::{
    bound, count_columns, count_places, flow_columns, puts, scores_columns, stocks_columns,
    support_columns, under, vote_columns,
};
use crate::documents::a_flow_is_read;
use crate::http::flow_of;
use crate::db::{
    first_streak, flow_row, has_analysis, scores_row, snapshot_rows, stats_row, stats_text,
    status_of, stock_row, support_row, support_rows, vote_row, CellView, StatementView,
};
use crate::json::{text_view, Json};
use crate::models::{FundFlow, RealSum, StockRef, StockResult, SupportResistance, Vote};
use crate::number::Real;
use crate::tables::{key_of, statements_differ, write_of, Table};
use crate::text::{holds, stands_at};

verus! {

/// A number, or null where there is none.
pub open spec fn number_cell(x: Option<Real>) -> CellView {
    match x {
        Some(r) => CellView::Real(r@),
        None => CellView::Null,
    }
}

/// A text, or null where there is none.
pub open spec fn words_cell(x: Option<String>) -> CellView {
    match x {
        Some(s) => CellView::Text(s@),
        None => CellView::Null,
    }
}

/// A row of stocks: code, name and market, the name as the visit brought it.
pub open spec fn holds_stock(row: Seq<CellView>, stock: StockRef, res: StockResult) -> bool {
    &&& row.len() == 3
    &&& under(stocks_columns(), row, "code"@, CellView::Text(stock.code@))
    &&& under(stocks_columns(), row, "name"@, CellView::Text(match res.name { Some(n) => n@,
        None => stock.name@ }))
    &&& under(stocks_columns(), row, "market"@, CellView::Text("ab"@))
}

/// A row of scores, each score under its own name. A shell stands under its batch.
pub open spec fn holds_scores(
    row: Seq<CellView>,
    trade_date: Seq<char>,
    stock: StockRef,
    res: StockResult,
    crawl_date: Seq<char>,
) -> bool {
    &&& row.len() == 12
    &&& under(scores_columns(), row, "trade_date"@, CellView::Text(trade_date))
    &&& under(scores_columns(), row, "code"@, CellView::Text(stock.code@))
    &&& under(scores_columns(), row, "name"@, CellView::Text(match res.name { Some(n) => n@,
        None => stock.name@ }))
    &&& under(scores_columns(), row, "synthesis"@, words_cell(res.scores.synthesis_rating))
    &&& under(scores_columns(), row, "technology"@, number_cell(res.scores.technology))
    &&& under(scores_columns(), row, "capital"@, number_cell(res.scores.capital))
    &&& under(scores_columns(), row, "market"@, number_cell(res.scores.market))
    &&& under(scores_columns(), row, "finance"@, number_cell(res.scores.finance))
    &&& under(scores_columns(), row, "is_new"@, words_cell(res.scores.is_new))
    &&& under(scores_columns(), row, "update_time"@,
        CellView::Text(match res.scores.update_time { Some(t) => t@, None => trade_date }))
    &&& under(scores_columns(), row, "crawl_date"@, CellView::Text(crawl_date))
    &&& under(scores_columns(), row, "status"@,
        CellView::Text(if res.scores.update_time is Some { "ok"@ } else { "empty"@ }))
}

/// A row of support and resistance of a cycle.
pub open spec fn holds_level(
    row: Seq<CellView>,
    level: SupportResistance,
    trade_date: Seq<char>,
    stock: StockRef,
    res: StockResult,
    crawl_date: Seq<char>,
) -> bool {
    &&& row.len() == 16
    &&& under(support_columns(), row, "trade_date"@, CellView::Text(trade_date))
    &&& under(support_columns(), row, "code"@, CellView::Text(stock.code@))
    &&& under(support_columns(), row, "cycle"@, CellView::Text(level.cycle@))
    &&& under(support_columns(), row, "support_level"@, words_cell(level.support_level))
    &&& under(support_columns(), row, "resistance_level"@, words_cell(level.resistance_level))
    &&& under(support_columns(), row, "level_desc"@, words_cell(level.level_desc))
    &&& under(support_columns(), row, "rating_text"@, words_cell(level.rating_text))
    &&& under(support_columns(), row, "rating_level"@, words_cell(level.rating_level))
    &&& under(support_columns(), row, "rating_status"@, words_cell(level.rating_status))
    &&& under(support_columns(), row, "bullish_events"@, words_cell(level.bullish_events))
    &&& under(support_columns(), row, "bearish_events"@, words_cell(level.bearish_events))
    &&& under(support_columns(), row, "rank_str"@, words_cell(level.rank_str))
    &&& under(support_columns(), row, "industry_name"@, words_cell(level.industry_name))
    &&& under(support_columns(), row, "update_time"@, words_cell(res.scores.update_time))
    &&& under(support_columns(), row, "crawl_date"@, CellView::Text(crawl_date))
    &&& under(support_columns(), row, "status"@, CellView::Text("ok"@))
}

/// A row of the fund flow, each group of orders under its own name.
pub open spec fn holds_flow(
    row: Seq<CellView>,
    flow: FundFlow,
    trade_date: Seq<char>,
    stock: StockRef,
    res: StockResult,
    crawl_date: Seq<char>,
) -> bool {
    &&& row.len() == 14
    &&& under(flow_columns(), row, "trade_date"@, CellView::Text(trade_date))
    &&& under(flow_columns(), row, "code"@, CellView::Text(stock.code@))
    &&& under(flow_columns(), row, "super_net"@, number_cell(flow.super_net))
    &&& under(flow_columns(), row, "large_net"@, number_cell(flow.large_net))
    &&& under(flow_columns(), row, "medium_net"@, number_cell(flow.medium_net))
    &&& under(flow_columns(), row, "little_net"@, number_cell(flow.little_net))
    &&& under(flow_columns(), row, "super_rate"@, words_cell(flow.super_rate))
    &&& under(flow_columns(), row, "large_rate"@, words_cell(flow.large_rate))
    &&& under(flow_columns(), row, "medium_rate"@, words_cell(flow.medium_rate))
    &&& under(flow_columns(), row, "little_rate"@, words_cell(flow.little_rate))
    &&& under(flow_columns(), row, "main_net"@, match flow.main_net { None => CellView::Null,
        Some(RealSum::One(a)) => CellView::Real(a@), Some(RealSum::Two(a, b)) => CellView::Sum(a@,
        b@) })
    &&& under(flow_columns(), row, "update_time"@, words_cell(res.scores.update_time))
    &&& under(flow_columns(), row, "crawl_date"@, CellView::Text(crawl_date))
    &&& under(flow_columns(), row, "status"@, CellView::Text("ok"@))
}

/// A row of votes.
pub open spec fn holds_votes(
    row: Seq<CellView>,
    vote: Vote,
    trade_date: Seq<char>,
    stock: StockRef,
    res: StockResult,
    crawl_date: Seq<char>,
) -> bool {
    &&& row.len() == 13
    &&& under(vote_columns(), row, "trade_date"@, CellView::Text(trade_date))
    &&& under(vote_columns(), row, "code"@, CellView::Text(stock.code@))
    &&& under(vote_columns(), row, "vote_up"@, words_cell(vote.vote_up))
    &&& under(vote_columns(), row, "vote_down"@, words_cell(vote.vote_down))
    &&& under(vote_columns(), row, "total_num"@, words_cell(vote.total_num))
    &&& under(vote_columns(), row, "vote_up_rate"@, words_cell(vote.vote_up_rate))
    &&& under(vote_columns(), row, "vote_down_rate"@, words_cell(vote.vote_down_rate))
    &&& under(vote_columns(), row, "week_up"@, words_cell(vote.week_up))
    &&& under(vote_columns(), row, "week_down"@, words_cell(vote.week_down))
    &&& under(vote_columns(), row, "week_rate"@, words_cell(vote.week_rate))
    &&& under(vote_columns(), row, "update_time"@, words_cell(res.scores.update_time))
    &&& under(vote_columns(), row, "crawl_date"@, CellView::Text(crawl_date))
    &&& under(vote_columns(), row, "status"@, CellView::Text("ok"@))
}

/// What the statement that counts an attempt puts under each column.
pub open spec fn counts(
    params: Seq<CellView>,
    code: Seq<char>,
    success: bool,
    status: Seq<char>,
    source: Seq<char>,
    crawl_date: Seq<char>,
    updated_at: Seq<char>,
) -> bool {
    &&& params.len() == 7
    &&& puts(count_columns(), count_places(), params, "code"@, CellView::Text(code))
    &&& puts(count_columns(), count_places(), params, "crawl_count"@, CellView::Int(1))
    &&& puts(count_columns(), count_places(), params, "last_success"@,
        CellView::Int(if success { 1 } else { 0 }))
    &&& puts(count_columns(), count_places(), params, "last_status"@, CellView::Text(status))
    &&& puts(count_columns(), count_places(), params, "last_attempt"@, CellView::Text(crawl_date))
    &&& puts(count_columns(), count_places(), params, "updated_at"@, CellView::Text(updated_at))
    &&& puts(count_columns(), count_places(), params, "source"@, CellView::Text(source))
    &&& puts(count_columns(), count_places(), params, "empty_streak"@, CellView::Int(if status
        == "empty"@ { 1 } else { 0 }))
}

/// A statement of a visit, told by what it writes to.
spec fn is_one_of(
    s: StatementView,
    trade_date: Seq<char>,
    stock: StockRef,
    res: StockResult,
    crawl_date: Seq<char>,
    updated_at: Seq<char>,
) -> bool {
    let day = text_view(res.scores.update_time);
    ||| s == stock_row(stock, res)
    ||| s == scores_row(trade_date, stock, res, crawl_date)
    ||| s == stats_row(
        stock.code@,
        has_analysis(res),
        status_of(res),
        "baidu"@,
        crawl_date,
        updated_at,
    )
    ||| has_analysis(res) && exists|j: int|
        0 <= j < res.support@.len() && s == support_row(
            trade_date,
            stock.code@,
            #[trigger] res.support@[j],
            day,
            crawl_date,
            status_of(res),
        )
    ||| has_analysis(res) && res.fund_flow is Some && s == flow_row(
        trade_date,
        stock.code@,
        res.fund_flow->0,
        day,
        crawl_date,
        status_of(res),
    )
    ||| has_analysis(res) && res.vote is Some && s == vote_row(
        trade_date,
        stock.code@,
        res.vote->0,
        day,
        crawl_date,
        status_of(res),
    )
}

proof fn each_is_one_of(
    trade_date: Seq<char>,
    stock: StockRef,
    res: StockResult,
    crawl_date: Seq<char>,
    updated_at: Seq<char>,
    i: int,
)
    requires
        0 <= i < snapshot_rows(trade_date, stock, res, crawl_date, updated_at).len(),
    ensures
        is_one_of(
            snapshot_rows(trade_date, stock, res, crawl_date, updated_at)[i],
            trade_date,
            stock,
            res,
            crawl_date,
            updated_at,
        ),
{
    let rows = snapshot_rows(trade_date, stock, res, crawl_date, updated_at);
    let day = text_view(res.scores.update_time);
    if i >= 3 {
        assert(has_analysis(res));
        let levels = support_rows(
            trade_date,
            stock.code@,
            res.support@,
            day,
            crawl_date,
            status_of(res),
        );
        if i < 3 + levels.len() {
            assert(rows[i] == levels[i - 3]);
            assert(levels[i - 3] == support_row(
                trade_date,
                stock.code@,
                res.support@[i - 3],
                day,
                crawl_date,
                status_of(res),
            ));
        }
    }
}

/// A visit writes the stock, column by column.
pub proof fn a_stock_stands_under_its_columns(
    trade_date: Seq<char>,
    stock: StockRef,
    res: StockResult,
    crawl_date: Seq<char>,
    updated_at: Seq<char>,
    i: int,
)
    requires
        0 <= i < snapshot_rows(trade_date, stock, res, crawl_date, updated_at).len(),
        snapshot_rows(trade_date, stock, res, crawl_date, updated_at)[i].sql
            == "INSERT OR REPLACE INTO stocks VALUES (?,?,?)"@,
    ensures
        ({
            let row = snapshot_rows(trade_date, stock, res, crawl_date, updated_at)[i].params;
            holds_stock(row, stock, res)
        }),
{
    let s = snapshot_rows(trade_date, stock, res, crawl_date, updated_at)[i];
    let row = s.params;
    each_is_one_of(trade_date, stock, res, crawl_date, updated_at, i);
    statements_differ(stock.code@, has_analysis(res), status_of(res), crawl_date, updated_at);
    assert(write_of(Table::Scores) != "INSERT OR REPLACE INTO stocks VALUES (?,?,?)"@);
    assert(write_of(Table::Support) != "INSERT OR REPLACE INTO stocks VALUES (?,?,?)"@);
    assert(write_of(Table::Flow) != "INSERT OR REPLACE INTO stocks VALUES (?,?,?)"@);
    assert(write_of(Table::Vote) != "INSERT OR REPLACE INTO stocks VALUES (?,?,?)"@);
    the_count_is_no_stock(res);
    assert(s == stock_row(stock, res));
    let cols = stocks_columns();
    assert(cols[0].0 == "code"@ && row[0] == CellView::Text(stock.code@));
    assert(cols[1].0 == "name"@ && row[1] == CellView::Text(match res.name { Some(n) => n@,
        None => stock.name@ }));
    assert(cols[2].0 == "market"@ && row[2] == CellView::Text("ab"@));
}

/// A visit writes its scores, each under the column of its name.
pub proof fn scores_stand_under_their_columns(
    trade_date: Seq<char>,
    stock: StockRef,
    res: StockResult,
    crawl_date: Seq<char>,
    updated_at: Seq<char>,
    i: int,
)
    requires
        0 <= i < snapshot_rows(trade_date, stock, res, crawl_date, updated_at).len(),
        snapshot_rows(trade_date, stock, res, crawl_date, updated_at)[i].sql
            == write_of(Table::Scores),
    ensures
        ({
            let row = snapshot_rows(trade_date, stock, res, crawl_date, updated_at)[i].params;
            holds_scores(row, trade_date, stock, res, crawl_date)
        }),
{
    let s = snapshot_rows(trade_date, stock, res, crawl_date, updated_at)[i];
    let row = s.params;
    each_is_one_of(trade_date, stock, res, crawl_date, updated_at, i);
    statements_differ(stock.code@, has_analysis(res), status_of(res), crawl_date, updated_at);
    assert(write_of(Table::Scores) != "INSERT OR REPLACE INTO stocks VALUES (?,?,?)"@);
    assert(write_of(Table::Scores) != stats_row(stock.code@, has_analysis(res), status_of(res),
        "baidu"@, crawl_date, updated_at).sql);
    assert(s == scores_row(trade_date, stock, res, crawl_date));
    let cols = scores_columns();
    assert(cols[0].0 == "trade_date"@ && row[0] == CellView::Text(trade_date));
    assert(cols[1].0 == "code"@ && row[1] == CellView::Text(stock.code@));
    assert(cols[2].0 == "name"@ && row[2] == CellView::Text(match res.name { Some(n) => n@,
        None => stock.name@ }));
    assert(cols[3].0 == "synthesis"@ && row[3] == words_cell(res.scores.synthesis_rating));
    assert(cols[4].0 == "technology"@ && row[4] == number_cell(res.scores.technology));
    assert(cols[5].0 == "capital"@ && row[5] == number_cell(res.scores.capital));
    assert(cols[6].0 == "market"@ && row[6] == number_cell(res.scores.market));
    assert(cols[7].0 == "finance"@ && row[7] == number_cell(res.scores.finance));
    assert(cols[8].0 == "is_new"@ && row[8] == words_cell(res.scores.is_new));
    assert(cols[9].0 == "update_time"@ && row[9]
        == CellView::Text(match res.scores.update_time { Some(t) => t@, None => trade_date }));
    assert(cols[10].0 == "crawl_date"@ && row[10] == CellView::Text(crawl_date));
    assert(cols[11].0 == "status"@ && row[11] == CellView::Text(if res.scores.update_time is Some {
        "ok"@ } else { "empty"@ }));
}

/// A visit writes support and resistance beside an analysis alone, each row one of the levels that
/// it brought, column by column.
pub proof fn a_level_stands_under_its_columns(
    trade_date: Seq<char>,
    stock: StockRef,
    res: StockResult,
    crawl_date: Seq<char>,
    updated_at: Seq<char>,
    i: int,
)
    requires
        0 <= i < snapshot_rows(trade_date, stock, res, crawl_date, updated_at).len(),
        snapshot_rows(trade_date, stock, res, crawl_date, updated_at)[i].sql
            == write_of(Table::Support),
    ensures
        ({
            let row = snapshot_rows(trade_date, stock, res, crawl_date, updated_at)[i].params;
            has_analysis(res) && exists|j: int|
                0 <= j < res.support@.len() && holds_level(
                    row,
                    #[trigger] res.support@[j],
                    trade_date,
                    stock,
                    res,
                    crawl_date,
                )
        }),
{
    let s = snapshot_rows(trade_date, stock, res, crawl_date, updated_at)[i];
    let row = s.params;
    each_is_one_of(trade_date, stock, res, crawl_date, updated_at, i);
    statements_differ(stock.code@, has_analysis(res), status_of(res), crawl_date, updated_at);
    assert(write_of(Table::Support) != "INSERT OR REPLACE INTO stocks VALUES (?,?,?)"@);
    assert(write_of(Table::Support) != stats_row(stock.code@, has_analysis(res), status_of(res),
        "baidu"@, crawl_date, updated_at).sql);
    let day = text_view(res.scores.update_time);
    let j = choose|j: int|
        0 <= j < res.support@.len() && s == support_row(
            trade_date,
            stock.code@,
            #[trigger] res.support@[j],
            day,
            crawl_date,
            status_of(res),
        );
    let level = res.support@[j];
    let cols = support_columns();
    assert(cols[0].0 == "trade_date"@ && row[0] == CellView::Text(trade_date));
    assert(cols[1].0 == "code"@ && row[1] == CellView::Text(stock.code@));
    assert(cols[2].0 == "cycle"@ && row[2] == CellView::Text(level.cycle@));
    assert(cols[3].0 == "support_level"@ && row[3] == words_cell(level.support_level));
    assert(cols[4].0 == "resistance_level"@ && row[4] == words_cell(level.resistance_level));
    assert(cols[5].0 == "level_desc"@ && row[5] == words_cell(level.level_desc));
    assert(cols[6].0 == "rating_text"@ && row[6] == words_cell(level.rating_text));
    assert(cols[7].0 == "rating_level"@ && row[7] == words_cell(level.rating_level));
    assert(cols[8].0 == "rating_status"@ && row[8] == words_cell(level.rating_status));
    assert(cols[9].0 == "bullish_events"@ && row[9] == words_cell(level.bullish_events));
    assert(cols[10].0 == "bearish_events"@ && row[10] == words_cell(level.bearish_events));
    assert(cols[11].0 == "rank_str"@ && row[11] == words_cell(level.rank_str));
    assert(cols[12].0 == "industry_name"@ && row[12] == words_cell(level.industry_name));
    assert(cols[13].0 == "update_time"@ && row[13] == words_cell(res.scores.update_time));
    assert(cols[14].0 == "crawl_date"@ && row[14] == CellView::Text(crawl_date));
    assert(cols[15].0 == "status"@ && row[15] == CellView::Text("ok"@));
    assert(holds_level(row, level, trade_date, stock, res, crawl_date));
}

/// A visit writes its fund flow beside an analysis alone, each group of orders under the column of
/// its name, and the main flow as the sum that it is.
pub proof fn a_flow_stands_under_its_columns(
    trade_date: Seq<char>,
    stock: StockRef,
    res: StockResult,
    crawl_date: Seq<char>,
    updated_at: Seq<char>,
    i: int,
)
    requires
        0 <= i < snapshot_rows(trade_date, stock, res, crawl_date, updated_at).len(),
        snapshot_rows(trade_date, stock, res, crawl_date, updated_at)[i].sql
            == write_of(Table::Flow),
    ensures
        ({
            let row = snapshot_rows(trade_date, stock, res, crawl_date, updated_at)[i].params;
            has_analysis(res) && res.fund_flow is Some && holds_flow(
                row,
                res.fund_flow->0,
                trade_date,
                stock,
                res,
                crawl_date,
            )
        }),
{
    let s = snapshot_rows(trade_date, stock, res, crawl_date, updated_at)[i];
    let row = s.params;
    each_is_one_of(trade_date, stock, res, crawl_date, updated_at, i);
    statements_differ(stock.code@, has_analysis(res), status_of(res), crawl_date, updated_at);
    assert(write_of(Table::Flow) != "INSERT OR REPLACE INTO stocks VALUES (?,?,?)"@);
    assert(write_of(Table::Flow) != stats_row(stock.code@, has_analysis(res), status_of(res),
        "baidu"@, crawl_date, updated_at).sql);
    let flow = res.fund_flow->0;
    let cols = flow_columns();
    assert(cols[0].0 == "trade_date"@ && row[0] == CellView::Text(trade_date));
    assert(cols[1].0 == "code"@ && row[1] == CellView::Text(stock.code@));
    assert(cols[2].0 == "super_net"@ && row[2] == number_cell(flow.super_net));
    assert(cols[3].0 == "large_net"@ && row[3] == number_cell(flow.large_net));
    assert(cols[4].0 == "medium_net"@ && row[4] == number_cell(flow.medium_net));
    assert(cols[5].0 == "little_net"@ && row[5] == number_cell(flow.little_net));
    assert(cols[6].0 == "super_rate"@ && row[6] == words_cell(flow.super_rate));
    assert(cols[7].0 == "large_rate"@ && row[7] == words_cell(flow.large_rate));
    assert(cols[8].0 == "medium_rate"@ && row[8] == words_cell(flow.medium_rate));
    assert(cols[9].0 == "little_rate"@ && row[9] == words_cell(flow.little_rate));
    assert(cols[10].0 == "main_net"@ && row[10] == match flow.main_net { None => CellView::Null,
        Some(RealSum::One(a)) => CellView::Real(a@), Some(RealSum::Two(a, b)) => CellView::Sum(a@,
        b@) });
    assert(cols[11].0 == "update_time"@ && row[11] == words_cell(res.scores.update_time));
    assert(cols[12].0 == "crawl_date"@ && row[12] == CellView::Text(crawl_date));
    assert(cols[13].0 == "status"@ && row[13] == CellView::Text("ok"@));
}

/// A visit writes its votes beside an analysis alone, each under the column of its name.
pub proof fn votes_stand_under_their_columns(
    trade_date: Seq<char>,
    stock: StockRef,
    res: StockResult,
    crawl_date: Seq<char>,
    updated_at: Seq<char>,
    i: int,
)
    requires
        0 <= i < snapshot_rows(trade_date, stock, res, crawl_date, updated_at).len(),
        snapshot_rows(trade_date, stock, res, crawl_date, updated_at)[i].sql
            == write_of(Table::Vote),
    ensures
        ({
            let row = snapshot_rows(trade_date, stock, res, crawl_date, updated_at)[i].params;
            has_analysis(res) && res.vote is Some && holds_votes(
                row,
                res.vote->0,
                trade_date,
                stock,
                res,
                crawl_date,
            )
        }),
{
    let s = snapshot_rows(trade_date, stock, res, crawl_date, updated_at)[i];
    let row = s.params;
    each_is_one_of(trade_date, stock, res, crawl_date, updated_at, i);
    statements_differ(stock.code@, has_analysis(res), status_of(res), crawl_date, updated_at);
    assert(write_of(Table::Vote) != "INSERT OR REPLACE INTO stocks VALUES (?,?,?)"@);
    assert(write_of(Table::Vote) != stats_row(stock.code@, has_analysis(res), status_of(res),
        "baidu"@, crawl_date, updated_at).sql);
    let vote = res.vote->0;
    let cols = vote_columns();
    assert(cols[0].0 == "trade_date"@ && row[0] == CellView::Text(trade_date));
    assert(cols[1].0 == "code"@ && row[1] == CellView::Text(stock.code@));
    assert(cols[2].0 == "vote_up"@ && row[2] == words_cell(vote.vote_up));
    assert(cols[3].0 == "vote_down"@ && row[3] == words_cell(vote.vote_down));
    assert(cols[4].0 == "total_num"@ && row[4] == words_cell(vote.total_num));
    assert(cols[5].0 == "vote_up_rate"@ && row[5] == words_cell(vote.vote_up_rate));
    assert(cols[6].0 == "vote_down_rate"@ && row[6] == words_cell(vote.vote_down_rate));
    assert(cols[7].0 == "week_up"@ && row[7] == words_cell(vote.week_up));
    assert(cols[8].0 == "week_down"@ && row[8] == words_cell(vote.week_down));
    assert(cols[9].0 == "week_rate"@ && row[9] == words_cell(vote.week_rate));
    assert(cols[10].0 == "update_time"@ && row[10] == words_cell(res.scores.update_time));
    assert(cols[11].0 == "crawl_date"@ && row[11] == CellView::Text(crawl_date));
    assert(cols[12].0 == "status"@ && row[12] == CellView::Text("ok"@));
}

/// The main flow that is written beside the flows of the very large and the large orders is the sum
/// of these two, where the visit brought both.
pub proof fn the_main_flow_is_the_sum(
    row: Seq<CellView>,
    flow: FundFlow,
    trade_date: Seq<char>,
    stock: StockRef,
    res: StockResult,
    crawl_date: Seq<char>,
    spread: Json,
)
    requires
        holds_flow(row, flow, trade_date, stock, res, crawl_date),
        flow_of(flow, Some(spread)),
        flow.super_net is Some,
        flow.large_net is Some,
    ensures
        ({
            let a = (flow.super_net->0)@;
            let b = (flow.large_net->0)@;
            &&& under(flow_columns(), row, "super_net"@, CellView::Real(a))
            &&& under(flow_columns(), row, "large_net"@, CellView::Real(b))
            &&& under(flow_columns(), row, "main_net"@, CellView::Sum(a, b))
        }),
{
    a_flow_is_read(flow, spread);
}

proof fn the_count_is_no_stock(res: StockResult)
    ensures
        stats_text(status_of(res)) != "INSERT OR REPLACE INTO stocks VALUES (?,?,?)"@,
{
    reveal_strlit(
        "INSERT INTO crawl_stats (code, crawl_count, last_success, last_status, last_attempt, updated_at, source, empty_streak) VALUES (?1, 1, ?2, ?3, ?4, ?5, ?6, ?7) ON CONFLICT(code, source) DO UPDATE SET crawl_count = crawl_count + 1, last_success = excluded.last_success, last_status = excluded.last_status, last_attempt = excluded.last_attempt, updated_at = excluded.updated_at, empty_streak = ",
    );
    reveal_strlit("INSERT OR REPLACE INTO stocks VALUES (?,?,?)");
    assert(stats_text(status_of(res))[7] == 'I');
    assert("INSERT OR REPLACE INTO stocks VALUES (?,?,?)"@[7] == 'O');
}

/// An attempt is counted with each value under the column of its name, at whatever place the
/// statement lists for it.
pub proof fn an_attempt_stands_under_its_columns(
    code: Seq<char>,
    success: bool,
    status: Seq<char>,
    source: Seq<char>,
    crawl_date: Seq<char>,
    updated_at: Seq<char>,
)
    ensures
        counts(
            stats_row(code, success, status, source, crawl_date, updated_at).params,
            code,
            success,
            status,
            source,
            crawl_date,
            updated_at,
        ),
{
    let params = stats_row(code, success, status, source, crawl_date, updated_at).params;
    let cols = count_columns();
    let places = count_places();
    reveal_strlit("1");
    reveal_strlit("?1");
    reveal_strlit("?2");
    reveal_strlit("?3");
    reveal_strlit("?4");
    reveal_strlit("?5");
    reveal_strlit("?6");
    reveal_strlit("?7");
    assert("?1"@.len() == 2 && "?1"@[1] == '1');
    assert("?2"@.len() == 2 && "?2"@[1] == '2');
    assert("?3"@.len() == 2 && "?3"@[1] == '3');
    assert("?4"@.len() == 2 && "?4"@[1] == '4');
    assert("?5"@.len() == 2 && "?5"@[1] == '5');
    assert("?6"@.len() == 2 && "?6"@[1] == '6');
    assert("?7"@.len() == 2 && "?7"@[1] == '7');
    assert("1"@.len() == 1);
    assert(cols[0].0 == "code"@ && bound(places[0].0, params) == CellView::Text(code));
    assert(cols[1].0 == "crawl_count"@ && bound(places[1].0, params) == CellView::Int(1));
    assert(cols[2].0 == "last_success"@ && bound(places[2].0, params)
        == CellView::Int(if success { 1 } else { 0 }));
    assert(cols[3].0 == "last_status"@ && bound(places[3].0, params) == CellView::Text(status));
    assert(cols[4].0 == "last_attempt"@ && bound(places[4].0, params)
        == CellView::Text(crawl_date));
    assert(cols[5].0 == "updated_at"@ && bound(places[5].0, params) == CellView::Text(updated_at));
    assert(cols[6].0 == "source"@ && bound(places[6].0, params) == CellView::Text(source));
    assert(cols[7].0 == "empty_streak"@ && bound(places[7].0, params) == CellView::Int(if status
        == "empty"@ { 1 } else { 0 }));
}

/// A visit writes all that it brought: the stock, its scores and the attempt; beside an analysis a
/// row for each of the levels, in their order, and one for the fund flow and one for the votes
/// where they came; nothing more.
pub proof fn a_visit_writes_what_came(
    trade_date: Seq<char>,
    stock: StockRef,
    res: StockResult,
    crawl_date: Seq<char>,
    updated_at: Seq<char>,
)
    ensures
        ({
            let rows = snapshot_rows(trade_date, stock, res, crawl_date, updated_at);
            let levels = res.support@.len() as int;
            let flows: int = if res.fund_flow is Some { 1 } else { 0 };
            let votes: int = if res.vote is Some { 1 } else { 0 };
            &&& rows[0].sql == "INSERT OR REPLACE INTO stocks VALUES (?,?,?)"@
            &&& rows[1].sql == write_of(Table::Scores)
            &&& rows[2].sql == stats_text(if res.scores.update_time is Some { "ok"@ } else {
                "empty"@ })
            &&& res.scores.update_time is None ==> rows.len() == 3
            &&& res.scores.update_time is Some ==> {
                &&& rows.len() == 3 + levels + flows + votes
                &&& forall|j: int|
                    #![trigger res.support@[j]]
                    0 <= j < levels ==> rows[3 + j].sql == write_of(Table::Support)
                        && rows[3 + j].params[2] == CellView::Text(res.support@[j].cycle@)
                &&& res.fund_flow is Some ==> rows[3 + levels].sql == write_of(Table::Flow)
                &&& res.vote is Some ==> rows.last().sql == write_of(Table::Vote)
            }
        }),
{
}

/// The rows of a table stand under the day of the analysis and the stock, those of levels under
/// their cycle too.
pub proof fn rows_stand_under_their_keys(row: Seq<CellView>)
    requires
        row.len() == 16,
    ensures
        under(scores_columns(), row, "update_time"@, key_of(Table::Scores, row)[0]),
        under(scores_columns(), row, "code"@, key_of(Table::Scores, row)[1]),
        key_of(Table::Scores, row).len() == 2,
        under(support_columns(), row, "update_time"@, key_of(Table::Support, row)[0]),
        under(support_columns(), row, "code"@, key_of(Table::Support, row)[1]),
        under(support_columns(), row, "cycle"@, key_of(Table::Support, row)[2]),
        key_of(Table::Support, row).len() == 3,
        under(flow_columns(), row, "update_time"@, key_of(Table::Flow, row)[0]),
        under(flow_columns(), row, "code"@, key_of(Table::Flow, row)[1]),
        key_of(Table::Flow, row).len() == 2,
        under(vote_columns(), row, "update_time"@, key_of(Table::Vote, row)[0]),
        under(vote_columns(), row, "code"@, key_of(Table::Vote, row)[1]),
        key_of(Table::Vote, row).len() == 2,
{
    assert(scores_columns()[9].0 == "update_time"@ && scores_columns()[1].0 == "code"@);
    assert(support_columns()[13].0 == "update_time"@ && support_columns()[1].0 == "code"@
        && support_columns()[2].0 == "cycle"@);
    assert(flow_columns()[11].0 == "update_time"@ && flow_columns()[1].0 == "code"@);
    assert(vote_columns()[10].0 == "update_time"@ && vote_columns()[1].0 == "code"@);
}

/// A statement that counts an attempt ends with how the shells in a row go on: one more for a
/// shell, none for an analysis, and as many as there were for a failure.
pub proof fn shells_go_on_by_status(status: Seq<char>)
    ensures
        status == "empty"@ ==> holds(
            stats_text(status),
            "empty_streak = COALESCE(empty_streak, 0) + 1"@,
        ) && first_streak(status) == 1,
        status == "ok"@ ==> holds(stats_text(status), "empty_streak = 0"@) && first_streak(status)
            == 0,
        status != "ok"@ && status != "empty"@ ==> stats_text(status).len() >= 41 && stats_text(
            status,
        ).skip(stats_text(status).len() - 41) == " empty_streak = COALESCE(empty_streak, 0)"@
            && first_streak(status) == 0,
        holds(stats_text(status), "ON CONFLICT(code, source) DO UPDATE SET"@),
        holds(stats_text(status), "crawl_count = crawl_count + 1,"@),
        holds(stats_text(status), "last_success = excluded.last_success,"@),
        holds(stats_text(status), "last_status = excluded.last_status,"@),
        holds(stats_text(status), "last_attempt = excluded.last_attempt,"@),
        holds(stats_text(status), "updated_at = excluded.updated_at,"@),
{
    reveal_strlit("ok");
    reveal_strlit("empty");
    assert("ok"@.len() != "empty"@.len());
    reveal_strlit(
        "INSERT INTO crawl_stats (code, crawl_count, last_success, last_status, last_attempt, updated_at, source, empty_streak) VALUES (?1, 1, ?2, ?3, ?4, ?5, ?6, ?7) ON CONFLICT(code, source) DO UPDATE SET crawl_count = crawl_count + 1, last_success = excluded.last_success, last_status = excluded.last_status, last_attempt = excluded.last_attempt, updated_at = excluded.updated_at, empty_streak = ",
    );
    reveal_strlit("COALESCE(empty_streak, 0) + 1");
    reveal_strlit("0");
    reveal_strlit("COALESCE(empty_streak, 0)");
    reveal_strlit("empty_streak = COALESCE(empty_streak, 0) + 1");
    reveal_strlit("empty_streak = 0");
    reveal_strlit(" empty_streak = COALESCE(empty_streak, 0)");
    let text = stats_text(status);
    reveal_strlit("ON CONFLICT(code, source) DO UPDATE SET");
    assert(text.subrange(158, 197) =~= "ON CONFLICT(code, source) DO UPDATE SET"@);
    assert(stands_at(text, "ON CONFLICT(code, source) DO UPDATE SET"@, 158));
    reveal_strlit("crawl_count = crawl_count + 1,");
    assert(text.subrange(198, 228) =~= "crawl_count = crawl_count + 1,"@);
    assert(stands_at(text, "crawl_count = crawl_count + 1,"@, 198));
    reveal_strlit("last_success = excluded.last_success,");
    assert(text.subrange(229, 266) =~= "last_success = excluded.last_success,"@);
    assert(stands_at(text, "last_success = excluded.last_success,"@, 229));
    reveal_strlit("last_status = excluded.last_status,");
    assert(text.subrange(267, 302) =~= "last_status = excluded.last_status,"@);
    assert(stands_at(text, "last_status = excluded.last_status,"@, 267));
    reveal_strlit("last_attempt = excluded.last_attempt,");
    assert(text.subrange(303, 340) =~= "last_attempt = excluded.last_attempt,"@);
    assert(stands_at(text, "last_attempt = excluded.last_attempt,"@, 303));
    reveal_strlit("updated_at = excluded.updated_at,");
    assert(text.subrange(341, 374) =~= "updated_at = excluded.updated_at,"@);
    assert(stands_at(text, "updated_at = excluded.updated_at,"@, 341));
    if status == "empty"@ {
        assert(text.subrange(375, 419) =~= "empty_streak = COALESCE(empty_streak, 0) + 1"@);
        assert(stands_at(text, "empty_streak = COALESCE(empty_streak, 0) + 1"@, 375));
    }
    if status == "ok"@ {
        assert(text.subrange(375, 391) =~= "empty_streak = 0"@);
        assert(stands_at(text, "empty_streak = 0"@, 375));
    }
    if status != "ok"@ && status != "empty"@ {
        assert(text.skip(text.len() - 41) =~= " empty_streak = COALESCE(empty_streak, 0)"@);
    }
}

} // verus!
