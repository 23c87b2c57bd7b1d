//! What the tables hold once visits are written to them.

use vstd::prelude::*;

use crate::attempts::{
    an_attempt_counts_for_its_source_alone, counted, counted_all, counted_in_turn, one_more,
    others_count_nothing, replaces, streak_in, Attempts, StatsRow,
};
use crate::db::{
    detail_rows, flow_row, has_analysis, key_day, scores_row, snapshot_rows, stats_row, status_of,
    stock_row, streak_after, support_row, support_rows, vote_row, CellView, Completeness,
    StatementView,
};
use crate::json::text_view;
use crate::models::{StockRef, StockResult, SupportResistance};

verus! {

/// A table that visits write to.
pub enum Table {
    Scores,
    Support,
    Flow,
    Vote,
}

/// The rows of a table, each under its primary key.
pub type Rows = Map<Seq<CellView>, Seq<CellView>>;

/// The statement that writes a row of a table.
pub open spec fn write_of(table: Table) -> Seq<char> {
    match table {
        Table::Scores => "INSERT OR REPLACE INTO scores VALUES (?,?,?,?,?,?,?,?,?,?,?,?)"@,
        Table::Support => {
            "INSERT OR REPLACE INTO support_resistance VALUES (?,?,?,?,?,?,?,?,?,?,?,?,?,?,?,?)"@
        },
        Table::Flow => "INSERT OR REPLACE INTO fund_flow VALUES (?,?,?,?,?,?,?,?,?,?,?,?,?,?)"@,
        Table::Vote => "INSERT OR REPLACE INTO vote VALUES (?,?,?,?,?,?,?,?,?,?,?,?,?)"@,
    }
}

/// The primary key of a row, by the places of its columns: the day of the analysis and the stock,
/// for levels the cycle too.
pub open spec fn key_of(table: Table, row: Seq<CellView>) -> Seq<CellView> {
    match table {
        Table::Scores => seq![row[9], row[1]],
        Table::Support => seq![row[13], row[1], row[2]],
        Table::Flow => seq![row[11], row[1]],
        Table::Vote => seq![row[10], row[1]],
    }
}

/// A table after a statement: a row takes the place of the one under its key.
pub open spec fn written(table: Table, rows: Rows, s: StatementView) -> Rows {
    if s.sql == write_of(table) {
        rows.insert(key_of(table, s.params), s.params)
    } else {
        rows
    }
}

/// A table after statements.
pub open spec fn written_all(table: Table, rows: Rows, list: Seq<StatementView>) -> Rows
    decreases list.len(),
{
    if list.len() == 0 {
        rows
    } else {
        written(table, written_all(table, rows, list.drop_last()), list.last())
    }
}

/// Whether a table has a row of a stock in a batch.
pub open spec fn has_row(rows: Rows, trade_date: Seq<char>, code: Seq<char>) -> bool {
    exists|key: Seq<CellView>| #[trigger]
        rows.dom().contains(key) && rows[key][0] == CellView::Text(trade_date) && rows[key][1]
            == CellView::Text(code)
}

/// The tables that visits write to, that of the stocks aside: of the attempts, each is under its
/// stock and its source.
pub struct Store {
    pub scores: Rows,
    pub support: Rows,
    pub flow: Rows,
    pub vote: Rows,
    pub attempts: Attempts,
}

impl Store {
    /// The tables after statements.
    pub open spec fn after(self, list: Seq<StatementView>) -> Store {
        Store {
            scores: written_all(Table::Scores, self.scores, list),
            support: written_all(Table::Support, self.support, list),
            flow: written_all(Table::Flow, self.flow, list),
            vote: written_all(Table::Vote, self.vote, list),
            attempts: counted_all(self.attempts, list),
        }
    }

    /// Which of the four kinds of data there are of a stock in a batch.
    pub open spec fn completeness(self, trade_date: Seq<char>, code: Seq<char>) -> Completeness {
        Completeness {
            scores: has_row(self.scores, trade_date, code),
            support: has_row(self.support, trade_date, code),
            fund_flow: has_row(self.flow, trade_date, code),
            vote: has_row(self.vote, trade_date, code),
        }
    }
}

/// What a visit writes to a table.
pub open spec fn rows_for(
    table: Table,
    trade_date: Seq<char>,
    stock: StockRef,
    res: StockResult,
    crawl_date: Seq<char>,
) -> Seq<StatementView> {
    let day = text_view(res.scores.update_time);
    let status = status_of(res);
    match table {
        Table::Scores => seq![scores_row(trade_date, stock, res, crawl_date)],
        Table::Support => if has_analysis(res) {
            support_rows(trade_date, stock.code@, res.support@, day, crawl_date, status)
        } else {
            Seq::empty()
        },
        Table::Flow => match res.fund_flow {
            Some(f) if has_analysis(res) => seq![
                flow_row(trade_date, stock.code@, f, day, crawl_date, status),
            ],
            _ => Seq::empty(),
        },
        Table::Vote => match res.vote {
            Some(v) if has_analysis(res) => seq![
                vote_row(trade_date, stock.code@, v, day, crawl_date, status),
            ],
            _ => Seq::empty(),
        },
    }
}

// ---------------------------------------------------------------- lemmas

pub proof fn statements_differ(
    code: Seq<char>,
    success: bool,
    status: Seq<char>,
    crawl_date: Seq<char>,
    updated_at: Seq<char>,
)
    ensures
        write_of(Table::Scores) != write_of(Table::Support),
        write_of(Table::Scores) != write_of(Table::Flow),
        write_of(Table::Scores) != write_of(Table::Vote),
        write_of(Table::Support) != write_of(Table::Flow),
        write_of(Table::Support) != write_of(Table::Vote),
        write_of(Table::Flow) != write_of(Table::Vote),
        forall|t: Table|
            #[trigger] write_of(t) != "INSERT OR REPLACE INTO stocks VALUES (?,?,?)"@,
        forall|t: Table|
            #[trigger] write_of(t) != stats_row(
                code,
                success,
                status,
                "baidu"@,
                crawl_date,
                updated_at,
            ).sql,
{
    reveal_strlit("INSERT OR REPLACE INTO scores VALUES (?,?,?,?,?,?,?,?,?,?,?,?)");
    reveal_strlit(
        "INSERT OR REPLACE INTO support_resistance VALUES (?,?,?,?,?,?,?,?,?,?,?,?,?,?,?,?)",
    );
    reveal_strlit("INSERT OR REPLACE INTO fund_flow VALUES (?,?,?,?,?,?,?,?,?,?,?,?,?,?)");
    reveal_strlit("INSERT OR REPLACE INTO vote VALUES (?,?,?,?,?,?,?,?,?,?,?,?,?)");
    reveal_strlit("INSERT OR REPLACE INTO stocks VALUES (?,?,?)");
    reveal_strlit(
        "INSERT INTO crawl_stats (code, crawl_count, last_success, last_status, last_attempt, updated_at, source, empty_streak) VALUES (?1, 1, ?2, ?3, ?4, ?5, ?6, ?7) ON CONFLICT(code, source) DO UPDATE SET crawl_count = crawl_count + 1, last_success = excluded.last_success, last_status = excluded.last_status, last_attempt = excluded.last_attempt, updated_at = excluded.updated_at, empty_streak = ",
    );
    assert(write_of(Table::Scores)[24] == 'c');
    assert(write_of(Table::Support)[24] == 'u');
    assert(write_of(Table::Flow)[23] == 'f');
    assert(write_of(Table::Vote)[23] == 'v');
    assert("INSERT OR REPLACE INTO stocks VALUES (?,?,?)"@[24] == 't');
    assert("INSERT OR REPLACE INTO stocks VALUES (?,?,?)"@[23] == 's');
    let stats = stats_row(code, success, status, "baidu"@, crawl_date, updated_at).sql;
    assert(stats[7] == 'I');
    assert forall|t: Table|
        #[trigger] write_of(t) != stats && write_of(t)
            != "INSERT OR REPLACE INTO stocks VALUES (?,?,?)"@ by {
        assert(write_of(t)[7] == 'O');
    }
}

proof fn written_in_turn(table: Table, rows: Rows, a: Seq<StatementView>, b: Seq<StatementView>)
    ensures
        written_all(table, rows, a + b) == written_all(table, written_all(table, rows, a), b),
    decreases b.len(),
{
    if b.len() == 0 {
        assert(a + b =~= a);
    } else {
        assert((a + b).drop_last() =~= a + b.drop_last());
        written_in_turn(table, rows, a, b.drop_last());
    }
}

proof fn others_write_nothing(table: Table, rows: Rows, list: Seq<StatementView>)
    requires
        forall|i: int| 0 <= i < list.len() ==> (#[trigger] list[i]).sql != write_of(table),
    ensures
        written_all(table, rows, list) == rows,
    decreases list.len(),
{
    if list.len() > 0 {
        others_write_nothing(table, rows, list.drop_last());
    }
}

proof fn one_is_written(table: Table, rows: Rows, s: StatementView)
    ensures
        written_all(table, rows, seq![s]) == written(table, rows, s),
{
    assert(seq![s].drop_last() =~= Seq::empty());
    assert(written_all(table, rows, seq![s].drop_last()) == rows);
}

/// A visit changes a table by what it writes there alone.
proof fn a_table_takes_its_rows(
    table: Table,
    rows: Rows,
    trade_date: Seq<char>,
    stock: StockRef,
    res: StockResult,
    crawl_date: Seq<char>,
    updated_at: Seq<char>,
)
    ensures
        written_all(
            table,
            rows,
            snapshot_rows(trade_date, stock, res, crawl_date, updated_at),
        ) == written_all(table, rows, rows_for(table, trade_date, stock, res, crawl_date)),
{
    let stats = stats_row(
        stock.code@,
        has_analysis(res),
        status_of(res),
        "baidu"@,
        crawl_date,
        updated_at,
    );
    statements_differ(stock.code@, has_analysis(res), status_of(res), crawl_date, updated_at);
    let scores = rows_for(Table::Scores, trade_date, stock, res, crawl_date);
    let support = rows_for(Table::Support, trade_date, stock, res, crawl_date);
    let flow = rows_for(Table::Flow, trade_date, stock, res, crawl_date);
    let vote = rows_for(Table::Vote, trade_date, stock, res, crawl_date);
    let a = seq![stock_row(stock, res)];
    let all = snapshot_rows(trade_date, stock, res, crawl_date, updated_at);
    assert(all =~= a + scores + seq![stats] + support + flow + vote);
    written_in_turn(table, rows, a + scores + seq![stats] + support + flow, vote);
    written_in_turn(table, rows, a + scores + seq![stats] + support, flow);
    written_in_turn(table, rows, a + scores + seq![stats], support);
    written_in_turn(table, rows, a + scores, seq![stats]);
    written_in_turn(table, rows, a, scores);
    others_write_nothing(table, rows, a);
    assert forall|r: Rows| #[trigger] written_all(table, r, seq![stats]) == r by {
        others_write_nothing(table, r, seq![stats]);
    }
    assert(table != Table::Scores ==> forall|r: Rows| #[trigger]
        written_all(table, r, scores) == r) by {
        if table != Table::Scores {
            assert forall|r: Rows| #[trigger] written_all(table, r, scores) == r by {
                others_write_nothing(table, r, scores);
            }
        }
    }
    assert(table != Table::Support ==> forall|r: Rows| #[trigger]
        written_all(table, r, support) == r) by {
        if table != Table::Support {
            assert forall|r: Rows| #[trigger] written_all(table, r, support) == r by {
                others_write_nothing(table, r, support);
            }
        }
    }
    assert(table != Table::Flow ==> forall|r: Rows| #[trigger] written_all(table, r, flow)
        == r) by {
        if table != Table::Flow {
            assert forall|r: Rows| #[trigger] written_all(table, r, flow) == r by {
                others_write_nothing(table, r, flow);
            }
        }
    }
    assert(table != Table::Vote ==> forall|r: Rows| #[trigger] written_all(table, r, vote)
        == r) by {
        if table != Table::Vote {
            assert forall|r: Rows| #[trigger] written_all(table, r, vote) == r by {
                others_write_nothing(table, r, vote);
            }
        }
    }
}

/// The key of an analysis of a stock.
pub open spec fn analysis_key(day: Seq<char>, code: Seq<char>) -> Seq<CellView> {
    seq![CellView::Text(day), CellView::Text(code)]
}

/// The key of a level of a stock.
pub open spec fn level_key(day: Seq<char>, code: Seq<char>, cycle: Seq<char>) -> Seq<CellView> {
    seq![CellView::Text(day), CellView::Text(code), CellView::Text(cycle)]
}

/// Whether a key is that of one of the levels.
pub open spec fn keys_a_level(
    key: Seq<CellView>,
    day: Seq<char>,
    code: Seq<char>,
    list: Seq<SupportResistance>,
) -> bool {
    exists|i: int| 0 <= i < list.len() && key == level_key(day, code, (#[trigger] list[i]).cycle@)
}

/// Whether no level behind this one is of its cycle.
pub open spec fn is_last_of_cycle(list: Seq<SupportResistance>, i: int) -> bool {
    &&& 0 <= i < list.len()
    &&& forall|j: int| i < j < list.len() ==> (#[trigger] list[j]).cycle@ != list[i].cycle@
}

proof fn levels_are_written(
    rows: Rows,
    trade_date: Seq<char>,
    code: Seq<char>,
    list: Seq<SupportResistance>,
    day: Seq<char>,
    crawl_date: Seq<char>,
    status: Seq<char>,
)
    ensures
        ({
            let writes = support_rows(trade_date, code, list, Some(day), crawl_date, status);
            let after = written_all(Table::Support, rows, writes);
            &&& forall|key: Seq<CellView>| #[trigger]
                after.dom().contains(key) <==> rows.dom().contains(key) || keys_a_level(
                    key,
                    day,
                    code,
                    list,
                )
            &&& forall|key: Seq<CellView>|
                !keys_a_level(key, day, code, list) && rows.dom().contains(key)
                    ==> #[trigger] after[key] == rows[key]
            &&& forall|i: int| #[trigger]
                is_last_of_cycle(list, i) ==> after[level_key(day, code, list[i].cycle@)]
                    == support_row(
                    trade_date,
                    code,
                    list[i],
                    Some(day),
                    crawl_date,
                    status,
                ).params
        }),
    decreases list.len(),
{
    let writes = support_rows(trade_date, code, list, Some(day), crawl_date, status);
    let after = written_all(Table::Support, rows, writes);
    if list.len() > 0 {
        let n = list.len() - 1;
        let head = list.drop_last();
        let fewer = support_rows(trade_date, code, head, Some(day), crawl_date, status);
        assert(writes.drop_last() =~= fewer);
        levels_are_written(rows, trade_date, code, head, day, crawl_date, status);
        let before = written_all(Table::Support, rows, fewer);
        let last = support_row(trade_date, code, list[n], Some(day), crawl_date, status);
        assert(writes.last() == last);
        let new = level_key(day, code, list[n].cycle@);
        assert(key_of(Table::Support, last.params) =~= new);
        assert(after == before.insert(new, last.params));
        assert forall|key: Seq<CellView>|
            keys_a_level(key, day, code, list) == (keys_a_level(key, day, code, head) || key
                == new) by {
            if keys_a_level(key, day, code, head) {
                let i = choose|i: int|
                    0 <= i < head.len() && key == level_key(
                        day,
                        code,
                        (#[trigger] head[i]).cycle@,
                    );
                assert(list[i] == head[i]);
            }
            if keys_a_level(key, day, code, list) {
                let i = choose|i: int|
                    0 <= i < list.len() && key == level_key(
                        day,
                        code,
                        (#[trigger] list[i]).cycle@,
                    );
                if i < n {
                    assert(list[i] == head[i]);
                }
            }
            if key == new {
                assert(key == level_key(day, code, list[n].cycle@));
            }
        }
        assert forall|i: int| #[trigger] is_last_of_cycle(list, i) implies after[level_key(
            day,
            code,
            list[i].cycle@,
        )] == support_row(trade_date, code, list[i], Some(day), crawl_date, status).params by {
            if i < n {
                assert(list[i] == head[i]);
                assert forall|j: int| i < j < head.len() implies (#[trigger] head[j]).cycle@
                    != head[i].cycle@ by {
                    assert(head[j] == list[j]);
                }
                assert(is_last_of_cycle(head, i));
                assert(list[n].cycle@ != list[i].cycle@);
                assert(new[2] == CellView::Text(list[n].cycle@));
                assert(level_key(day, code, list[i].cycle@)[2] == CellView::Text(list[i].cycle@));
                assert(new != level_key(day, code, list[i].cycle@));
            }
        }
    } else {
        assert(writes =~= Seq::empty());
    }
}

// ---------------------------------------------------------------- laws

/// Two visits to a stock that brought the same analysis leave one row of it in each table, on
/// whatever days they were made and for whatever batches: the second row of scores takes the
/// place of the first, as do its fund flow, its votes and its level of each cycle where it
/// brought them; where it did not, those of the first stay. No row under another key changes.
pub proof fn an_analysis_stands_once(
    store: Store,
    day: Seq<char>,
    first_date: Seq<char>,
    first_stock: StockRef,
    first: StockResult,
    first_visit: (Seq<char>, Seq<char>),
    second_date: Seq<char>,
    second_stock: StockRef,
    second: StockResult,
    second_visit: (Seq<char>, Seq<char>),
)
    requires
        text_view(first.scores.update_time) == Some(day),
        text_view(second.scores.update_time) == Some(day),
        first_stock.code@ == second_stock.code@,
    ensures
        ({
            let code = second_stock.code@;
            let key = analysis_key(day, code);
            let after = store.after(
                snapshot_rows(first_date, first_stock, first, first_visit.0, first_visit.1),
            ).after(
                snapshot_rows(second_date, second_stock, second, second_visit.0, second_visit.1),
            );
            &&& after.scores == store.scores.insert(
                key,
                scores_row(second_date, second_stock, second, second_visit.0).params,
            )
            &&& after.flow == match (second.fund_flow, first.fund_flow) {
                (Some(f), _) => store.flow.insert(
                    key,
                    flow_row(second_date, code, f, Some(day), second_visit.0, "ok"@).params,
                ),
                (None, Some(f)) => store.flow.insert(
                    key,
                    flow_row(first_date, code, f, Some(day), first_visit.0, "ok"@).params,
                ),
                (None, None) => store.flow,
            }
            &&& after.vote == match (second.vote, first.vote) {
                (Some(v), _) => store.vote.insert(
                    key,
                    vote_row(second_date, code, v, Some(day), second_visit.0, "ok"@).params,
                ),
                (None, Some(v)) => store.vote.insert(
                    key,
                    vote_row(first_date, code, v, Some(day), first_visit.0, "ok"@).params,
                ),
                (None, None) => store.vote,
            }
            &&& forall|k: Seq<CellView>| #[trigger]
                after.support.dom().contains(k) <==> store.support.dom().contains(k)
                    || keys_a_level(k, day, code, first.support@) || keys_a_level(
                    k,
                    day,
                    code,
                    second.support@,
                )
            &&& forall|i: int| #[trigger]
                is_last_of_cycle(second.support@, i) ==> after.support[level_key(
                    day,
                    code,
                    second.support@[i].cycle@,
                )] == support_row(
                    second_date,
                    code,
                    second.support@[i],
                    Some(day),
                    second_visit.0,
                    "ok"@,
                ).params
            &&& forall|i: int| #[trigger]
                is_last_of_cycle(first.support@, i) && !keys_a_level(
                    level_key(day, code, first.support@[i].cycle@),
                    day,
                    code,
                    second.support@,
                ) ==> after.support[level_key(day, code, first.support@[i].cycle@)] == support_row(
                    first_date,
                    code,
                    first.support@[i],
                    Some(day),
                    first_visit.0,
                    "ok"@,
                ).params
            &&& forall|k: Seq<CellView>|
                store.support.dom().contains(k) && !keys_a_level(k, day, code, first.support@)
                    && !keys_a_level(k, day, code, second.support@) ==> #[trigger] after.support[k]
                    == store.support[k]
        }),
{
    let code = second_stock.code@;
    let key = analysis_key(day, code);
    let one = snapshot_rows(first_date, first_stock, first, first_visit.0, first_visit.1);
    let two = snapshot_rows(second_date, second_stock, second, second_visit.0, second_visit.1);
    let middle = store.after(one);
    let after = middle.after(two);
    a_visit_is_written(store, first_date, first_stock, first, first_visit.0, first_visit.1);
    a_visit_is_written(middle, second_date, second_stock, second, second_visit.0, second_visit.1);
    assert(after.scores =~= store.scores.insert(
        key,
        scores_row(second_date, second_stock, second, second_visit.0).params,
    ));
    match second.fund_flow {
        Some(f) => {
            assert(after.flow =~= store.flow.insert(
                key,
                flow_row(second_date, code, f, Some(day), second_visit.0, "ok"@).params,
            ));
        },
        None => {},
    }
    match second.vote {
        Some(v) => {
            assert(after.vote =~= store.vote.insert(
                key,
                vote_row(second_date, code, v, Some(day), second_visit.0, "ok"@).params,
            ));
        },
        None => {},
    }
    levels_are_written(
        store.support,
        first_date,
        code,
        first.support@,
        day,
        first_visit.0,
        "ok"@,
    );
    levels_are_written(
        middle.support,
        second_date,
        code,
        second.support@,
        day,
        second_visit.0,
        "ok"@,
    );
    assert forall|i: int| #[trigger]
        is_last_of_cycle(first.support@, i) && !keys_a_level(
            level_key(day, code, first.support@[i].cycle@),
            day,
            code,
            second.support@,
        ) implies after.support[level_key(day, code, first.support@[i].cycle@)] == support_row(
        first_date,
        code,
        first.support@[i],
        Some(day),
        first_visit.0,
        "ok"@,
    ).params by {
        let k = level_key(day, code, first.support@[i].cycle@);
        assert(keys_a_level(k, day, code, first.support@)) by {
            assert(k == level_key(day, code, first.support@[i].cycle@));
        }
        assert(middle.support.dom().contains(k));
        assert(after.support[k] == middle.support[k]);
    }
}

/// What a visit leaves in each table.
proof fn a_visit_is_written(
    store: Store,
    trade_date: Seq<char>,
    stock: StockRef,
    res: StockResult,
    crawl_date: Seq<char>,
    updated_at: Seq<char>,
)
    ensures
        ({
            let code = stock.code@;
            let day = text_view(res.scores.update_time);
            let key = analysis_key(key_day(trade_date, res), code);
            let after = store.after(
                snapshot_rows(trade_date, stock, res, crawl_date, updated_at),
            );
            &&& after.scores == store.scores.insert(
                key,
                scores_row(trade_date, stock, res, crawl_date).params,
            )
            &&& after.support == if has_analysis(res) {
                written_all(
                    Table::Support,
                    store.support,
                    support_rows(trade_date, code, res.support@, day, crawl_date, "ok"@),
                )
            } else {
                store.support
            }
            &&& after.flow == match res.fund_flow {
                Some(f) if has_analysis(res) => store.flow.insert(
                    key,
                    flow_row(trade_date, code, f, day, crawl_date, "ok"@).params,
                ),
                _ => store.flow,
            }
            &&& after.vote == match res.vote {
                Some(v) if has_analysis(res) => store.vote.insert(
                    key,
                    vote_row(trade_date, code, v, day, crawl_date, "ok"@).params,
                ),
                _ => store.vote,
            }
        }),
{
    let code = stock.code@;
    let day = text_view(res.scores.update_time);
    let key = analysis_key(key_day(trade_date, res), code);
    a_table_takes_its_rows(
        Table::Scores,
        store.scores,
        trade_date,
        stock,
        res,
        crawl_date,
        updated_at,
    );
    a_table_takes_its_rows(
        Table::Support,
        store.support,
        trade_date,
        stock,
        res,
        crawl_date,
        updated_at,
    );
    a_table_takes_its_rows(
        Table::Flow,
        store.flow,
        trade_date,
        stock,
        res,
        crawl_date,
        updated_at,
    );
    a_table_takes_its_rows(
        Table::Vote,
        store.vote,
        trade_date,
        stock,
        res,
        crawl_date,
        updated_at,
    );
    let scores = scores_row(trade_date, stock, res, crawl_date);
    one_is_written(Table::Scores, store.scores, scores);
    assert(key_of(Table::Scores, scores.params) =~= key);
    match res.fund_flow {
        Some(f) => {
            let row = flow_row(trade_date, code, f, day, crawl_date, status_of(res));
            one_is_written(Table::Flow, store.flow, row);
            assert(has_analysis(res) ==> key_of(Table::Flow, row.params) =~= key);
        },
        None => {},
    }
    match res.vote {
        Some(v) => {
            let row = vote_row(trade_date, code, v, day, crawl_date, status_of(res));
            one_is_written(Table::Vote, store.vote, row);
            assert(has_analysis(res) ==> key_of(Table::Vote, row.params) =~= key);
        },
        None => {},
    }
}

/// What the check finds of a stock in a batch once a visit is written: its scores in any case;
/// levels, fund flow and votes where the visit brought them beside an analysis, or where they
/// were there before.
pub proof fn the_check_finds_what_a_visit_wrote(
    store: Store,
    trade_date: Seq<char>,
    stock: StockRef,
    res: StockResult,
    crawl_date: Seq<char>,
    updated_at: Seq<char>,
)
    ensures
        ({
            let before = store.completeness(trade_date, stock.code@);
            let after = store.after(
                snapshot_rows(trade_date, stock, res, crawl_date, updated_at),
            ).completeness(trade_date, stock.code@);
            &&& after.scores
            &&& after.support == (before.support || has_analysis(res) && res.support@.len() > 0)
            &&& after.fund_flow == (before.fund_flow || has_analysis(res) && res.fund_flow is Some)
            &&& after.vote == (before.vote || has_analysis(res) && res.vote is Some)
        }),
{
    let code = stock.code@;
    let after = store.after(snapshot_rows(trade_date, stock, res, crawl_date, updated_at));
    a_visit_is_written(store, trade_date, stock, res, crawl_date, updated_at);
    let key = analysis_key(key_day(trade_date, res), code);
    assert(after.scores.dom().contains(key));
    assert(has_row(after.scores, trade_date, code));
    if has_analysis(res) {
        let day = key_day(trade_date, res);
        if res.fund_flow is Some {
            assert(after.flow.dom().contains(key));
        }
        if res.vote is Some {
            assert(after.vote.dom().contains(key));
        }
        levels_are_written(store.support, trade_date, code, res.support@, day, crawl_date, "ok"@);
        let n = res.support@.len() - 1;
        if n >= 0 {
            assert(is_last_of_cycle(res.support@, n));
            let level = level_key(day, code, res.support@[n].cycle@);
            assert(keys_a_level(level, day, code, res.support@));
            assert(after.support.dom().contains(level));
        } else {
            assert(support_rows(
                trade_date,
                code,
                res.support@,
                Some(day),
                crawl_date,
                "ok"@,
            ) =~= Seq::empty());
        }
    }
}

proof fn rows_replace(
    trade_date: Seq<char>,
    stock: StockRef,
    res: StockResult,
    crawl_date: Seq<char>,
)
    ensures
        replaces(stock_row(stock, res)),
        replaces(scores_row(trade_date, stock, res, crawl_date)),
        forall|i: int|
            0 <= i < detail_rows(trade_date, stock, res, crawl_date).len() ==> replaces(
                #[trigger] detail_rows(trade_date, stock, res, crawl_date)[i],
            ),
{
    reveal_strlit("INSERT OR REPLACE INTO stocks VALUES (?,?,?)");
    reveal_strlit("INSERT OR REPLACE INTO scores VALUES (?,?,?,?,?,?,?,?,?,?,?,?)");
    reveal_strlit(
        "INSERT OR REPLACE INTO support_resistance VALUES (?,?,?,?,?,?,?,?,?,?,?,?,?,?,?,?)",
    );
    reveal_strlit("INSERT OR REPLACE INTO fund_flow VALUES (?,?,?,?,?,?,?,?,?,?,?,?,?,?)");
    reveal_strlit("INSERT OR REPLACE INTO vote VALUES (?,?,?,?,?,?,?,?,?,?,?,?,?)");
}

/// A visit counts as one attempt at its stock from Baidu, `ok` with an analysis and `empty`
/// without. What is on record of other stocks, and of the stock from another source, stays as it
/// was.
pub proof fn a_visit_is_one_attempt(
    store: Store,
    trade_date: Seq<char>,
    stock: StockRef,
    res: StockResult,
    crawl_date: Seq<char>,
    updated_at: Seq<char>,
)
    ensures
        ({
            let rows = store.attempts;
            let key = (stock.code@, "baidu"@);
            let after = store.after(
                snapshot_rows(trade_date, stock, res, crawl_date, updated_at),
            ).attempts;
            &&& after.dom().contains(key)
            &&& after[key] == StatsRow {
                code: Some(stock.code@),
                crawl_count: if rows.dom().contains(key) {
                    one_more(rows[key].crawl_count)
                } else {
                    Some(1)
                },
                last_success: Some(
                    if has_analysis(res) {
                        1
                    } else {
                        0
                    },
                ),
                last_status: Some(status_of(res)),
                last_attempt: Some(crawl_date),
                updated_at: Some(updated_at),
                source: Some("baidu"@),
                empty_streak: Some(streak_after(streak_in(rows, key), status_of(res))),
            }
            &&& forall|other: (Seq<char>, Seq<char>)|
                other != key ==> (#[trigger] after.dom().contains(other) <==> rows.dom().contains(
                    other,
                )) && after[other] == rows[other]
        }),
{
    let rows = store.attempts;
    let stats = stats_row(
        stock.code@,
        has_analysis(res),
        status_of(res),
        "baidu"@,
        crawl_date,
        updated_at,
    );
    let head = seq![stock_row(stock, res), scores_row(trade_date, stock, res, crawl_date)];
    let tail = detail_rows(trade_date, stock, res, crawl_date);
    let all = snapshot_rows(trade_date, stock, res, crawl_date, updated_at);
    assert(all =~= head + seq![stats] + tail);
    rows_replace(trade_date, stock, res, crawl_date);
    counted_in_turn(rows, head + seq![stats], tail);
    counted_in_turn(rows, head, seq![stats]);
    others_count_nothing(rows, head);
    assert(seq![stats].drop_last() =~= Seq::empty());
    assert(counted_all(rows, seq![stats].drop_last()) == rows);
    assert(counted_all(rows, seq![stats]) == counted(rows, stats));
    others_count_nothing(counted(rows, stats), tail);
    an_attempt_counts_for_its_source_alone(
        rows,
        stock.code@,
        has_analysis(res),
        status_of(res),
        "baidu"@,
        crawl_date,
        updated_at,
    );
}

} // verus!
