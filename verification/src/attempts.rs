//! What the table of attempts holds, as attempts are counted and as an old table is opened.

use vstd::prelude::*;

use crate::db::{
    a_renamed_table_stays, rebuild_text, renamed_text, stats_columns, stats_row, stats_text,
    streak_after, streak_expr, wants_rebuild, CellView, StatementView,
};
use crate::text::{holds, stands_at};

verus! {

/// A row of the table of attempts. A column that the table does not have is null.
pub struct StatsRow {
    pub code: Option<Seq<char>>,
    pub crawl_count: Option<int>,
    pub last_success: Option<int>,
    pub last_status: Option<Seq<char>>,
    pub last_attempt: Option<Seq<char>>,
    pub updated_at: Option<Seq<char>>,
    pub source: Option<Seq<char>>,
    pub empty_streak: Option<int>,
}

/// The rows of a table of attempts, each under its stock and its source.
pub type Attempts = Map<(Seq<char>, Seq<char>), StatsRow>;

// ---------------------------------------------------------------- counting

pub open spec fn text_in(cell: CellView) -> Option<Seq<char>> {
    match cell {
        CellView::Text(t) => Some(t),
        _ => None,
    }
}

pub open spec fn int_in(cell: CellView) -> Option<int> {
    match cell {
        CellView::Int(i) => Some(i),
        _ => None,
    }
}

/// A number, or nought for null.
pub open spec fn or_zero(n: Option<int>) -> int {
    match n {
        Some(n) => n,
        None => 0,
    }
}

pub open spec fn one_more(n: Option<int>) -> Option<int> {
    match n {
        Some(n) => Some(n + 1),
        None => None,
    }
}

/// Whether a statement counts an attempt.
pub open spec fn counts_attempt(s: StatementView) -> bool {
    s.sql == stats_text("empty"@) || s.sql == stats_text("ok"@) || s.sql == stats_text("fail"@)
}

/// The shells in a row, as the expression at the end of the statement has them go on.
pub open spec fn streak_by(sql: Seq<char>, n: int) -> int {
    if sql == stats_text("empty"@) {
        n + 1
    } else if sql == stats_text("ok"@) {
        0
    } else {
        n
    }
}

/// The table after a statement. One that counts an attempt gives a stock and a source their first
/// row, or updates the one they have; it fails where either is null.
pub open spec fn counted(rows: Attempts, s: StatementView) -> Attempts {
    match (text_in(s.params[0]), text_in(s.params[5])) {
        (Some(code), Some(source)) if counts_attempt(s) => {
            let key = (code, source);
            let first = StatsRow {
                code: Some(code),
                crawl_count: Some(1),
                last_success: int_in(s.params[1]),
                last_status: text_in(s.params[2]),
                last_attempt: text_in(s.params[3]),
                updated_at: text_in(s.params[4]),
                source: Some(source),
                empty_streak: int_in(s.params[6]),
            };
            if rows.dom().contains(key) {
                rows.insert(
                    key,
                    StatsRow {
                        crawl_count: one_more(rows[key].crawl_count),
                        empty_streak: Some(streak_by(s.sql, or_zero(rows[key].empty_streak))),
                        ..first
                    },
                )
            } else {
                rows.insert(key, first)
            }
        },
        _ => rows,
    }
}

/// The table after statements.
pub open spec fn counted_all(rows: Attempts, list: Seq<StatementView>) -> Attempts
    decreases list.len(),
{
    if list.len() == 0 {
        rows
    } else {
        counted(counted_all(rows, list.drop_last()), list.last())
    }
}

/// The shells in a row that are on record of a stock and a source.
pub open spec fn streak_in(rows: Attempts, key: (Seq<char>, Seq<char>)) -> Option<int> {
    if rows.dom().contains(key) {
        Some(or_zero(rows[key].empty_streak))
    } else {
        None
    }
}

proof fn texts_tell_the_status(status: Seq<char>)
    ensures
        stats_text(status) == stats_text("empty"@) <==> status == "empty"@,
        stats_text(status) == stats_text("ok"@) <==> status == "ok"@,
        status != "empty"@ && status != "ok"@ ==> stats_text(status) == stats_text("fail"@),
{
    reveal_strlit("empty");
    reveal_strlit("ok");
    reveal_strlit("fail");
    reveal_strlit("COALESCE(empty_streak, 0) + 1");
    reveal_strlit("0");
    reveal_strlit("COALESCE(empty_streak, 0)");
    assert("empty"@.len() == 5 && "ok"@.len() == 2 && "fail"@.len() == 4);
    assert(streak_expr("empty"@).len() == 29);
    assert(streak_expr("ok"@).len() == 1);
    assert(streak_expr("fail"@).len() == 25);
    let head =
        "INSERT INTO crawl_stats (code, crawl_count, last_success, last_status, last_attempt, updated_at, source, empty_streak) VALUES (?1, 1, ?2, ?3, ?4, ?5, ?6, ?7) ON CONFLICT(code, source) DO UPDATE SET crawl_count = crawl_count + 1, last_success = excluded.last_success, last_status = excluded.last_status, last_attempt = excluded.last_attempt, updated_at = excluded.updated_at, empty_streak = "@.len();
    assert(stats_text(status).len() == head + streak_expr(status).len());
    assert(stats_text("empty"@).len() == head + 29);
    assert(stats_text("ok"@).len() == head + 1);
}

/// An attempt is counted for its stock and its source: the first one makes their row, each
/// further one counts one more on it, and the shells in a row go on as its status says. No row of
/// another stock or another source changes, and none comes or goes.
pub proof fn an_attempt_counts_for_its_source_alone(
    rows: Attempts,
    code: Seq<char>,
    success: bool,
    status: Seq<char>,
    source: Seq<char>,
    crawl_date: Seq<char>,
    updated_at: Seq<char>,
)
    ensures
        ({
            let key = (code, source);
            let after = counted(
                rows,
                stats_row(code, success, status, source, crawl_date, updated_at),
            );
            &&& after.dom().contains(key)
            &&& after[key] == StatsRow {
                code: Some(code),
                crawl_count: if rows.dom().contains(key) {
                    one_more(rows[key].crawl_count)
                } else {
                    Some(1)
                },
                last_success: Some(
                    if success {
                        1
                    } else {
                        0
                    },
                ),
                last_status: Some(status),
                last_attempt: Some(crawl_date),
                updated_at: Some(updated_at),
                source: Some(source),
                empty_streak: Some(streak_after(streak_in(rows, key), status)),
            }
            &&& forall|other: (Seq<char>, Seq<char>)|
                other != key ==> (#[trigger] after.dom().contains(other) <==> rows.dom().contains(
                    other,
                )) && after[other] == rows[other]
        }),
{
    texts_tell_the_status(status);
}

/// Two attempts at different stocks or from different sources leave the same table in either
/// order.
pub proof fn sources_do_not_disturb_each_other(
    rows: Attempts,
    a: (Seq<char>, Seq<char>),
    a_success: bool,
    a_status: Seq<char>,
    a_visit: (Seq<char>, Seq<char>),
    b: (Seq<char>, Seq<char>),
    b_success: bool,
    b_status: Seq<char>,
    b_visit: (Seq<char>, Seq<char>),
)
    requires
        a != b,
    ensures
        ({
            let first = stats_row(a.0, a_success, a_status, a.1, a_visit.0, a_visit.1);
            let second = stats_row(b.0, b_success, b_status, b.1, b_visit.0, b_visit.1);
            counted(counted(rows, first), second) == counted(counted(rows, second), first)
        }),
{
    let first = stats_row(a.0, a_success, a_status, a.1, a_visit.0, a_visit.1);
    let second = stats_row(b.0, b_success, b_status, b.1, b_visit.0, b_visit.1);
    assert(counted(counted(rows, first), second) =~= counted(counted(rows, second), first));
}

/// A statement that writes a row in the place of another.
pub open spec fn replaces(s: StatementView) -> bool {
    s.sql.len() > 7 && s.sql[7] == 'O'
}

proof fn replacing_counts_no_attempt(s: StatementView)
    requires
        replaces(s),
    ensures
        !counts_attempt(s),
{
    reveal_strlit(
        "INSERT INTO crawl_stats (code, crawl_count, last_success, last_status, last_attempt, updated_at, source, empty_streak) VALUES (?1, 1, ?2, ?3, ?4, ?5, ?6, ?7) ON CONFLICT(code, source) DO UPDATE SET crawl_count = crawl_count + 1, last_success = excluded.last_success, last_status = excluded.last_status, last_attempt = excluded.last_attempt, updated_at = excluded.updated_at, empty_streak = ",
    );
    assert(stats_text("empty"@)[7] == 'I');
    assert(stats_text("ok"@)[7] == 'I');
    assert(stats_text("fail"@)[7] == 'I');
}

/// Statements that write rows in the place of others count no attempt.
pub proof fn others_count_nothing(rows: Attempts, list: Seq<StatementView>)
    requires
        forall|i: int| 0 <= i < list.len() ==> replaces(#[trigger] list[i]),
    ensures
        counted_all(rows, list) == rows,
    decreases list.len(),
{
    if list.len() > 0 {
        let head = list.drop_last();
        assert forall|i: int| 0 <= i < head.len() implies replaces(#[trigger] head[i]) by {
            assert(head[i] == list[i]);
        }
        others_count_nothing(rows, head);
        replacing_counts_no_attempt(list[list.len() - 1]);
    }
}

/// Statements count one after the other.
pub proof fn counted_in_turn(rows: Attempts, a: Seq<StatementView>, b: Seq<StatementView>)
    ensures
        counted_all(rows, a + b) == counted_all(counted_all(rows, a), b),
    decreases b.len(),
{
    if b.len() == 0 {
        assert(a + b =~= a);
    } else {
        assert((a + b).drop_last() =~= a + b.drop_last());
        counted_in_turn(rows, a, b.drop_last());
    }
}

// ---------------------------------------------------------------- opening

/// A table of attempts: its columns, its rows, and the statement that SQLite keeps of it, cut
/// where a new column comes in.
pub struct StatsTable {
    pub cols: Seq<Seq<char>>,
    pub rows: Seq<StatsRow>,
    pub body: Seq<char>,
    pub tail: Seq<char>,
}

impl StatsTable {
    pub open spec fn sql(self) -> Seq<char> {
        self.body + self.tail
    }

    /// A column that is not there is null in each row.
    pub open spec fn wf(self) -> bool {
        forall|i: int|
            #![trigger self.rows[i]]
            0 <= i < self.rows.len() ==> {
                &&& !self.cols.contains("source"@) ==> self.rows[i].source is None
                &&& !self.cols.contains("empty_streak"@) ==> self.rows[i].empty_streak is None
            }
    }
}

/// A row as it is moved into the rebuilt table: without a source it is of Baidu, and without a
/// count it is after no shells.
pub open spec fn settled(r: StatsRow) -> StatsRow {
    StatsRow {
        source: match r.source {
            Some(s) => Some(s),
            None => Some("baidu"@),
        },
        empty_streak: Some(or_zero(r.empty_streak)),
        ..r
    }
}

/// Whether the rebuilt table takes a row: null is not allowed in these columns.
pub open spec fn is_whole(r: StatsRow) -> bool {
    r.code is Some && r.crawl_count is Some && r.last_success is Some
}

pub open spec fn same_key(a: StatsRow, b: StatsRow) -> bool {
    a.code == b.code && a.source == b.source
}

/// Whether there is a row of the same stock and source.
pub open spec fn has_key(rows: Seq<StatsRow>, r: StatsRow) -> bool {
    exists|i: int| 0 <= i < rows.len() && same_key(#[trigger] rows[i], r)
}

/// The rows of the rebuilt table: row by row, but for those that it does not take and those whose
/// stock and source it has.
pub open spec fn moved(rows: Seq<StatsRow>) -> Seq<StatsRow>
    decreases rows.len(),
{
    if rows.len() == 0 {
        Seq::empty()
    } else {
        let before = moved(rows.drop_last());
        let r = settled(rows.last());
        if is_whole(r) && !has_key(before, r) {
            before.push(r)
        } else {
            before
        }
    }
}

/// The columns of the rebuilt table.
pub open spec fn rebuilt_columns() -> Seq<Seq<char>> {
    seq![
        "code"@,
        "crawl_count"@,
        "last_success"@,
        "last_status"@,
        "last_attempt"@,
        "updated_at"@,
        "source"@,
        "empty_streak"@,
    ]
}

/// The table after one of the statements of an opening; the script of the rebuild finds no table
/// under the name that it builds it by.
pub open spec fn altered(t: StatsTable, sql: Seq<char>) -> StatsTable {
    if sql == "ALTER TABLE crawl_stats ADD COLUMN source TEXT DEFAULT 'baidu'"@ {
        StatsTable {
            cols: t.cols.push("source"@),
            rows: t.rows.map_values(
                |r: StatsRow| StatsRow { source: Some("baidu"@), ..r },
            ),
            body: t.body + ", source TEXT DEFAULT 'baidu'"@,
            ..t
        }
    } else if sql == "UPDATE crawl_stats SET source='baidu' WHERE source IS NULL"@ {
        StatsTable {
            rows: t.rows.map_values(
                |r: StatsRow|
                    if r.source is None {
                        StatsRow { source: Some("baidu"@), ..r }
                    } else {
                        r
                    },
            ),
            ..t
        }
    } else if sql
        == "ALTER TABLE crawl_stats ADD COLUMN empty_streak INTEGER NOT NULL DEFAULT 0"@ {
        StatsTable {
            cols: t.cols.push("empty_streak"@),
            rows: t.rows.map_values(|r: StatsRow| StatsRow { empty_streak: Some(0), ..r }),
            body: t.body + ", empty_streak INTEGER NOT NULL DEFAULT 0"@,
            ..t
        }
    } else if sql == rebuild_text() {
        StatsTable {
            cols: rebuilt_columns(),
            rows: moved(t.rows),
            body: renamed_text().drop_last(),
            tail: seq![renamed_text().last()],
        }
    } else {
        t
    }
}

pub open spec fn altered_by(t: StatsTable, list: Seq<Seq<char>>) -> StatsTable
    decreases list.len(),
{
    if list.len() == 0 {
        t
    } else {
        altered(altered_by(t, list.drop_last()), list.last())
    }
}

/// The table after an opening of the database: it gets the columns it lacks, and is then rebuilt
/// where it has to be.
pub open spec fn opened(t: StatsTable) -> StatsTable {
    let wide = altered_by(t, stats_columns(t.cols));
    if wants_rebuild(wide.sql()) {
        altered(wide, rebuild_text())
    } else {
        wide
    }
}

/// The rows under stock and source.
pub open spec fn by_key(rows: Seq<StatsRow>) -> Attempts
    decreases rows.len(),
{
    if rows.len() == 0 {
        Map::empty()
    } else {
        let r = rows.last();
        match (r.code, r.source) {
            (Some(code), Some(source)) => by_key(rows.drop_last()).insert((code, source), r),
            _ => by_key(rows.drop_last()),
        }
    }
}

/// A table of attempts keyed by the stock alone, as it was made before there were sources.
pub open spec fn is_old(t: StatsTable) -> bool {
    &&& t.wf()
    &&& t.cols.len() > 0
    &&& !t.cols.contains("source"@)
    &&& !t.cols.contains("empty_streak"@)
    &&& holds(t.body, "crawl_stats"@)
    &&& holds(t.body, "code TEXT PRIMARY KEY"@)
    &&& forall|i: int, j: int|
        0 <= i < j < t.rows.len() ==> (#[trigger] t.rows[i]).code != (#[trigger] t.rows[j]).code
}

/// A row of an old table, under Baidu and after no shells.
pub open spec fn of_baidu(r: StatsRow) -> StatsRow {
    StatsRow { source: Some("baidu"@), empty_streak: Some(0), ..r }
}

proof fn statements_of_an_opening_differ()
    ensures
        "ALTER TABLE crawl_stats ADD COLUMN source TEXT DEFAULT 'baidu'"@
            != "UPDATE crawl_stats SET source='baidu' WHERE source IS NULL"@,
        "ALTER TABLE crawl_stats ADD COLUMN source TEXT DEFAULT 'baidu'"@
            != "ALTER TABLE crawl_stats ADD COLUMN empty_streak INTEGER NOT NULL DEFAULT 0"@,
        "UPDATE crawl_stats SET source='baidu' WHERE source IS NULL"@
            != "ALTER TABLE crawl_stats ADD COLUMN empty_streak INTEGER NOT NULL DEFAULT 0"@,
        rebuild_text() != "ALTER TABLE crawl_stats ADD COLUMN source TEXT DEFAULT 'baidu'"@,
        rebuild_text() != "UPDATE crawl_stats SET source='baidu' WHERE source IS NULL"@,
        rebuild_text()
            != "ALTER TABLE crawl_stats ADD COLUMN empty_streak INTEGER NOT NULL DEFAULT 0"@,
{
    reveal_strlit("ALTER TABLE crawl_stats ADD COLUMN source TEXT DEFAULT 'baidu'");
    reveal_strlit("UPDATE crawl_stats SET source='baidu' WHERE source IS NULL");
    reveal_strlit("ALTER TABLE crawl_stats ADD COLUMN empty_streak INTEGER NOT NULL DEFAULT 0");
    reveal_strlit("CREATE TABLE IF NOT EXISTS crawl_stats_v3 ");
    assert("ALTER TABLE crawl_stats ADD COLUMN source TEXT DEFAULT 'baidu'"@[35] == 's');
    assert("ALTER TABLE crawl_stats ADD COLUMN empty_streak INTEGER NOT NULL DEFAULT 0"@[35]
        == 'e');
    assert("ALTER TABLE crawl_stats ADD COLUMN source TEXT DEFAULT 'baidu'"@[0] == 'A');
    assert("ALTER TABLE crawl_stats ADD COLUMN empty_streak INTEGER NOT NULL DEFAULT 0"@[0]
        == 'A');
    assert("UPDATE crawl_stats SET source='baidu' WHERE source IS NULL"@[0] == 'U');
    assert(rebuild_text()[0] == 'C');
}

proof fn what_stands_goes_on_standing(s: Seq<char>, more: Seq<char>, word: Seq<char>)
    requires
        holds(s, word),
    ensures
        holds(s + more, word),
{
    let at = choose|at: int| #[trigger] stands_at(s, word, at);
    assert((s + more).subrange(at, at + word.len()) =~= s.subrange(at, at + word.len()));
    assert(stands_at(s + more, word, at));
}

/// The rebuild keeps whole rows of different stocks, in their order.
proof fn different_rows_are_moved(rows: Seq<StatsRow>)
    requires
        forall|i: int| 0 <= i < rows.len() ==> is_whole(#[trigger] rows[i]),
        forall|i: int, j: int|
            0 <= i < j < rows.len() ==> (#[trigger] rows[i]).code != (#[trigger] rows[j]).code,
    ensures
        moved(rows) == rows.map_values(|r: StatsRow| settled(r)),
    decreases rows.len(),
{
    if rows.len() > 0 {
        let head = rows.drop_last();
        assert forall|i: int| 0 <= i < head.len() implies is_whole(#[trigger] head[i]) by {
            assert(head[i] == rows[i]);
        }
        assert forall|i: int, j: int| 0 <= i < j < head.len() implies (#[trigger] head[i]).code != (
        #[trigger] head[j]).code by {
            assert(head[i] == rows[i] && head[j] == rows[j]);
        }
        different_rows_are_moved(head);
        let before = moved(head);
        let r = settled(rows.last());
        assert(is_whole(rows[rows.len() - 1]));
        if has_key(before, r) {
            let i = choose|i: int| 0 <= i < before.len() && same_key(#[trigger] before[i], r);
            assert(before[i] == settled(head[i]));
            assert(rows[i].code != rows[rows.len() - 1].code);
        }
    }
    assert(moved(rows) =~= rows.map_values(|r: StatsRow| settled(r)));
}

proof fn rows_stand_under_their_keys(rows: Seq<StatsRow>)
    requires
        forall|i: int|
            0 <= i < rows.len() ==> (#[trigger] rows[i]).code is Some && rows[i].source is Some,
        forall|i: int, j: int|
            0 <= i < j < rows.len() ==> (#[trigger] rows[i]).code != (#[trigger] rows[j]).code,
    ensures
        forall|i: int|
            0 <= i < rows.len() ==> {
                let key = ((#[trigger] rows[i]).code->0, rows[i].source->0);
                by_key(rows).dom().contains(key) && by_key(rows)[key] == rows[i]
            },
        forall|key: (Seq<char>, Seq<char>)| #[trigger]
            by_key(rows).dom().contains(key) ==> exists|i: int|
                0 <= i < rows.len() && (#[trigger] rows[i]).code == Some(key.0) && rows[i].source
                    == Some(key.1),
    decreases rows.len(),
{
    if rows.len() > 0 {
        let n = rows.len() - 1;
        let head = rows.drop_last();
        assert forall|i: int| 0 <= i < head.len() implies (#[trigger] head[i]).code is Some
            && head[i].source is Some by {
            assert(head[i] == rows[i]);
        }
        assert forall|i: int, j: int| 0 <= i < j < head.len() implies (#[trigger] head[i]).code != (
        #[trigger] head[j]).code by {
            assert(head[i] == rows[i] && head[j] == rows[j]);
        }
        rows_stand_under_their_keys(head);
        assert(rows[n].code is Some && rows[n].source is Some);
        let last = (rows[n].code->0, rows[n].source->0);
        assert(by_key(rows) == by_key(head).insert(last, rows[n]));
        assert forall|i: int| 0 <= i < rows.len() implies {
            let key = ((#[trigger] rows[i]).code->0, rows[i].source->0);
            by_key(rows).dom().contains(key) && by_key(rows)[key] == rows[i]
        } by {
            if i < n {
                assert(head[i] == rows[i]);
                assert(rows[i].code != rows[n].code);
            }
        }
        assert forall|key: (Seq<char>, Seq<char>)| #[trigger]
            by_key(rows).dom().contains(key) implies exists|i: int|
            0 <= i < rows.len() && (#[trigger] rows[i]).code == Some(key.0) && rows[i].source
                == Some(key.1) by {
            if key == last {
                assert(rows[n].code == Some(key.0) && rows[n].source == Some(key.1));
            } else {
                assert(by_key(head).dom().contains(key));
                let i = choose|i: int|
                    0 <= i < head.len() && (#[trigger] head[i]).code == Some(key.0)
                        && head[i].source == Some(key.1);
                assert(rows[i] == head[i]);
            }
        }
    }
}

/// An old table gets its two columns and keeps its key.
proof fn an_old_table_is_widened(t: StatsTable)
    requires
        is_old(t),
    ensures
        ({
            let wide = altered_by(t, stats_columns(t.cols));
            &&& wide.rows == t.rows.map_values(|r: StatsRow| of_baidu(r))
            &&& wants_rebuild(wide.sql())
        }),
{
    let a = "ALTER TABLE crawl_stats ADD COLUMN source TEXT DEFAULT 'baidu'"@;
    let b = "UPDATE crawl_stats SET source='baidu' WHERE source IS NULL"@;
    let c = "ALTER TABLE crawl_stats ADD COLUMN empty_streak INTEGER NOT NULL DEFAULT 0"@;
    statements_of_an_opening_differ();
    let list = stats_columns(t.cols);
    assert(list =~= seq![a, b, c]);
    assert(list.drop_last() =~= seq![a, b]);
    assert(seq![a, b].drop_last() =~= seq![a]);
    assert(seq![a].drop_last() =~= Seq::empty());
    let first = altered(t, a);
    let second = altered(first, b);
    let wide = altered(second, c);
    assert(altered_by(t, Seq::<Seq<char>>::empty()) == t);
    assert(altered_by(t, seq![a]) == first);
    assert(altered_by(t, seq![a, b]) == second);
    assert(altered_by(t, list) == wide);
    assert(wide.rows =~= t.rows.map_values(|r: StatsRow| of_baidu(r)));
    let more = ", source TEXT DEFAULT 'baidu'"@ + ", empty_streak INTEGER NOT NULL DEFAULT 0"@
        + t.tail;
    assert(wide.sql() =~= t.body + more);
    what_stands_goes_on_standing(t.body, more, "crawl_stats"@);
    what_stands_goes_on_standing(t.body, more, "code TEXT PRIMARY KEY"@);
}

/// A table that was rebuilt is left as it is.
proof fn a_rebuilt_table_is_left_alone(t: StatsTable)
    requires
        t.cols == rebuilt_columns(),
        t.sql() == renamed_text(),
    ensures
        opened(t) == t,
{
    assert(t.cols[6] == "source"@ && t.cols[7] == "empty_streak"@);
    assert(stats_columns(t.cols) =~= Seq::empty());
    a_renamed_table_stays();
}

/// Opening a database with an old table of attempts keeps every row of it, in its order, with
/// its counts, status and times, from Baidu and after no shells, and adds none; the key is then
/// stock and source. A second opening changes nothing.
pub proof fn old_attempts_are_kept(t: StatsTable)
    requires
        is_old(t),
        forall|i: int| 0 <= i < t.rows.len() ==> is_whole(#[trigger] t.rows[i]),
    ensures
        ({
            let after = opened(t);
            &&& after.rows == t.rows.map_values(|r: StatsRow| of_baidu(r))
            &&& after.cols == rebuilt_columns()
            &&& after.sql() == renamed_text()
            &&& forall|i: int|
                0 <= i < t.rows.len() ==> {
                    let key = ((#[trigger] t.rows[i]).code->0, "baidu"@);
                    &&& by_key(after.rows).dom().contains(key)
                    &&& by_key(after.rows)[key] == of_baidu(t.rows[i])
                }
            &&& forall|key: (Seq<char>, Seq<char>)| #[trigger]
                by_key(after.rows).dom().contains(key) ==> key.1 == "baidu"@ && exists|i: int|
                    0 <= i < t.rows.len() && (#[trigger] t.rows[i]).code == Some(key.0)
            &&& opened(after) == after
        }),
{
    let wide = altered_by(t, stats_columns(t.cols));
    let after = opened(t);
    let rows = wide.rows;
    an_old_table_is_widened(t);
    statements_of_an_opening_differ();
    assert forall|i: int| 0 <= i < rows.len() implies is_whole(#[trigger] rows[i]) by {
        assert(is_whole(t.rows[i]));
        assert(rows[i] == of_baidu(t.rows[i]));
    }
    assert forall|i: int, j: int| 0 <= i < j < rows.len() implies (#[trigger] rows[i]).code != (
    #[trigger] rows[j]).code by {
        assert(rows[i] == of_baidu(t.rows[i]) && rows[j] == of_baidu(t.rows[j]));
        assert(t.rows[i].code != t.rows[j].code);
    }
    different_rows_are_moved(rows);
    assert(after == altered(wide, rebuild_text()));
    assert(after.rows =~= t.rows.map_values(|r: StatsRow| of_baidu(r))) by {
        assert forall|i: int| 0 <= i < rows.len() implies #[trigger] after.rows[i] == rows[i] by {
            assert(after.rows[i] == settled(rows[i]));
            assert(rows[i] == of_baidu(t.rows[i]));
        }
    }
    assert(renamed_text().len() > 0) by {
        reveal_strlit("CREATE TABLE \"crawl_stats\" ");
    }
    assert(after.sql() =~= renamed_text());
    a_rebuilt_table_is_left_alone(after);
    assert forall|i: int| 0 <= i < after.rows.len() implies (#[trigger] after.rows[i]).code is Some
        && after.rows[i].source is Some by {
        assert(after.rows[i] == of_baidu(t.rows[i]));
        assert(is_whole(t.rows[i]));
    }
    assert(after.rows == rows);
    rows_stand_under_their_keys(after.rows);
    assert forall|i: int| 0 <= i < t.rows.len() implies {
        let key = ((#[trigger] t.rows[i]).code->0, "baidu"@);
        &&& by_key(after.rows).dom().contains(key)
        &&& by_key(after.rows)[key] == of_baidu(t.rows[i])
    } by {
        assert(after.rows[i] == of_baidu(t.rows[i]));
    }
    assert forall|key: (Seq<char>, Seq<char>)| #[trigger]
        by_key(after.rows).dom().contains(key) implies key.1 == "baidu"@ && exists|i: int|
        0 <= i < t.rows.len() && (#[trigger] t.rows[i]).code == Some(key.0) by {
        let i = choose|i: int|
            0 <= i < after.rows.len() && (#[trigger] after.rows[i]).code == Some(key.0)
                && after.rows[i].source == Some(key.1);
        assert(after.rows[i] == of_baidu(t.rows[i]));
        assert(t.rows[i].code == Some(key.0));
    }
}

} // verus!
