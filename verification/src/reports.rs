//! The reports of the whole market, in the order in which they are asked for: the comments, which
//! give the list of stocks, and then six more.

use vstd::prelude::*;

use crate::crawler::{logs_more, one_line};
use crate::documents::keys_open;
use crate::em_crawler::{
    data_day, data_day_line, day_line, day_of_data, em_status_asks, empty_hint, empty_list_notice,
    ends_report, ends_text, first_row_of, index_latest, label_of, latest_params, list_address,
    market_line, market_text, next_report, own_params, own_report_params, page_after, page_params,
    page_text, page_url, paging_ends, paging_starts, query_part, query_parts, report_after,
    report_id, report_label, report_name, report_params, report_url, row_day, rows_of, rows_with,
    run_total, share_address, starts_text, taken, valuation_address, with_exchange, EM_BASE, Latest,
    Pager, Report, Tables,
};
use crate::http::{FetchStep, Wait};
use crate::json::{at_path, keys_lead_on, says, text_view, two_keys, Json};
use crate::state::{AppState, CrawlStatus, UserAck};
use crate::text::{decimal, joined, views};

verus! {

/// Where the reports stand.
#[derive(Debug, Clone, Copy, PartialEq, Eq)]
pub enum Stage {
    /// A page of a report is to be asked for.
    Paging(Report),
    /// No comments came: the user is to be asked.
    Asking,
    /// All reports came.
    Ready,
    /// The user stopped the run.
    Stopped,
}

/// The reports that came so far, and the pages of the one that comes now.
pub struct ReportRun {
    pub trade_date: String,
    pub limit: Option<usize>,
    pub stage: Stage,
    pub pager: Pager,
    pub comments: Vec<Json>,
    pub day: String,
    pub total: usize,
    pub tables: Tables,
}

/// The report of that kind, of those beside the comments.
pub open spec fn table(tables: Tables, t: Report) -> Option<Latest> {
    match t {
        Report::Comments => None,
        Report::Chances => Some(tables.chances),
        Report::Diagnosis => Some(tables.diagnosis),
        Report::News => Some(tables.news),
        Report::Ranks => Some(tables.ranks),
        Report::Participation => Some(tables.participation),
        Report::Focus => Some(tables.focus),
    }
}

/// A report took its place among the others, which stay.
pub open spec fn table_placed(after: Tables, before: Tables, t: Report, rows: Seq<Json>) -> bool {
    &&& after.wf()
    &&& table(after, t) matches Some(x) && x.report() == rows
    &&& forall|other: Report|
        other != t ==> #[trigger] table(after, other) == table(before, other)
}

/// The stage after a report.
pub open spec fn stage_after(t: Report) -> Stage {
    match report_after(t) {
        Some(next) => Stage::Paging(next),
        None => Stage::Ready,
    }
}

/// The line before the report that follows another.
pub open spec fn next_lines(t: Report) -> Seq<Seq<char>> {
    match report_after(t) {
        Some(next) => seq![starts_text(label_of(next))],
        None => Seq::empty(),
    }
}

/// What the log says where the list of stocks is settled.
pub open spec fn list_lines(total: nat, day: Seq<char>) -> Seq<Seq<char>> {
    seq![market_text(total), day_line(day)] + next_lines(Report::Comments)
}

/// The turn of a report.
pub open spec fn turn(t: Report) -> int {
    match t {
        Report::Comments => 0,
        Report::Chances => 1,
        Report::Diagnosis => 2,
        Report::News => 3,
        Report::Ranks => 4,
        Report::Participation => 5,
        Report::Focus => 6,
    }
}

/// Each report is asked for once: the one behind another is the next in turn, and only behind
/// the last are all of them there.
pub proof fn reports_take_turns(t: Report)
    ensures
        stage_after(t) matches Stage::Paging(next) ==> turn(next) == turn(t) + 1,
        stage_after(t) == Stage::Ready <==> (forall|other: Report| #[trigger]
            turn(other) <= turn(t)),
{
    assert(turn(Report::Focus) == 6);
}

impl ReportRun {
    pub open spec fn wf(self) -> bool {
        &&& self.pager.wf()
        &&& self.tables.wf()
        &&& self.total <= self.comments@.len()
    }

    /// What never changes.
    pub open spec fn same_orders(self, other: ReportRun) -> bool {
        self.trade_date == other.trade_date && self.limit == other.limit
    }

    /// The pages of a report begin.
    pub open spec fn at_first_page(self) -> bool {
        &&& self.pager.rows@.len() == 0
        &&& self.pager.page == 1
        &&& !self.pager.again
    }

    /// The list of stocks is settled: the other reports are asked for next.
    pub open spec fn list_settled(self, before: ReportRun, rows: Seq<Json>) -> bool {
        &&& self.stage == stage_after(Report::Comments)
        &&& self.at_first_page()
        &&& self.comments@ == rows
        &&& self.day@ == day_of_data(rows, before.trade_date@)
        &&& self.total == taken(rows.len() as int, before.limit)
        &&& self.tables == before.tables
    }

    /// Begins with the comments.
    pub fn new(trade_date: String, limit: Option<usize>, state: &mut AppState, stamp: &str) -> (r:
        ReportRun)
        requires
            old(state).wf(),
        ensures
            r.wf(),
            r.trade_date == trade_date,
            r.limit == limit,
            r.stage == Stage::Paging(Report::Comments),
            r.at_first_page(),
            r.comments@.len() == 0,
            r.total == 0,
            forall|t: Report| (#[trigger] table(r.tables, t)) matches Some(x) ==> x.report().len()
                == 0,
            final(state).wf(),
            *final(state) == (AppState { logs: final(state).logs, ..*old(state) }),
            views(final(state).logs@) == logs_more(
                old(state).logs@,
                stamp@,
                seq![starts_text(label_of(Report::Comments))],
            ),
    {
        state.push_log(stamp, &paging_starts(report_label(Report::Comments)));
        assert(views(state.logs@) =~= logs_more(
            old(state).logs@,
            stamp@,
            seq![starts_text(label_of(Report::Comments))],
        ));
        ReportRun {
            trade_date,
            limit,
            stage: Stage::Paging(Report::Comments),
            pager: Pager::new(),
            comments: Vec::new(),
            day: String::new(),
            total: 0,
            tables: Tables {
                chances: index_latest(Vec::new()),
                diagnosis: index_latest(Vec::new()),
                news: index_latest(Vec::new()),
                ranks: index_latest(Vec::new()),
                participation: index_latest(Vec::new()),
                focus: index_latest(Vec::new()),
            },
        }
    }

    /// The address to ask for: none where no page is due.
    pub fn url(&self) -> (r: Option<String>)
        ensures
            text_view(r) == match self.stage {
                Stage::Paging(t) => Some(
                    report_url(
                        report_id(t),
                        page_params(own_params(t, self.day@), self.pager.page as int),
                    ),
                ),
                _ => None,
            },
    {
        match self.stage {
            Stage::Paging(t) => {
                let params = own_report_params(t, &self.day);
                Some(page_url(report_name(t), &params, self.pager.page))
            },
            _ => None,
        }
    }

    fn place(&mut self, t: Report, rows: Vec<Json>)
        requires
            old(self).wf(),
            t != Report::Comments,
        ensures
            final(self).wf(),
            *final(self) == (ReportRun { tables: final(self).tables, ..*old(self) }),
            table_placed(final(self).tables, old(self).tables, t, rows@),
    {
        let latest = index_latest(rows);
        match t {
            Report::Comments => {},
            Report::Chances => {
                self.tables.chances = latest;
            },
            Report::Diagnosis => {
                self.tables.diagnosis = latest;
            },
            Report::News => {
                self.tables.news = latest;
            },
            Report::Ranks => {
                self.tables.ranks = latest;
            },
            Report::Participation => {
                self.tables.participation = latest;
            },
            Report::Focus => {
                self.tables.focus = latest;
            },
        }
    }

    /// Goes on to the report behind another.
    fn advance(&mut self, t: Report, state: &mut AppState, stamp: &str)
        requires
            old(self).wf(),
            old(state).wf(),
        ensures
            final(self).wf(),
            final(self).at_first_page(),
            *final(self) == (ReportRun {
                stage: stage_after(t),
                pager: final(self).pager,
                ..*old(self)
            }),
            final(state).wf(),
            *final(state) == (AppState { logs: final(state).logs, ..*old(state) }),
            views(final(state).logs@) == logs_more(old(state).logs@, stamp@, next_lines(t)),
    {
        self.pager = Pager::new();
        match next_report(t) {
            Some(next) => {
                self.stage = Stage::Paging(next);
                state.push_log(stamp, &paging_starts(report_label(next)));
            },
            None => {
                self.stage = Stage::Ready;
            },
        }
        assert(views(state.logs@) =~= logs_more(old(state).logs@, stamp@, next_lines(t)));
    }

    /// Settles the list of stocks.
    fn settle(&mut self, rows: Vec<Json>, state: &mut AppState, stamp: &str)
        requires
            old(self).wf(),
            old(state).wf(),
        ensures
            final(self).wf(),
            final(self).same_orders(*old(self)),
            final(self).list_settled(*old(self), rows@),
            final(state).wf(),
            *final(state) == (AppState {
                logs: final(state).logs,
                total: final(self).total,
                status: CrawlStatus::Running,
                status_msg: final(state).status_msg,
                ..*old(state)
            }),
            final(state).status_msg@ == "东财批量抓取中"@,
            views(final(state).logs@) == logs_more(
                old(state).logs@,
                stamp@,
                list_lines(final(self).total as nat, final(self).day@),
            ),
    {
        self.total = run_total(rows.len(), self.limit);
        self.day = data_day(&rows, &self.trade_date);
        self.comments = rows;
        state.total = self.total;
        state.status = CrawlStatus::Running;
        state.status_msg = "东财批量抓取中".to_string();
        state.push_log(stamp, &market_line(self.total));
        state.push_log(stamp, &data_day_line(&self.day));
        self.advance(Report::Comments, state, stamp);
        assert(views(state.logs@) =~= logs_more(
            old(state).logs@,
            stamp@,
            list_lines(self.total as nat, self.day@),
        ));
    }

    /// Takes in the reply for a page. The last page of a report leads to the next report; where
    /// no comments came at all, the user is to be asked.
    pub fn take_page(&mut self, reply: Result<Json, String>, state: &mut AppState, stamp: &str)
        requires
            old(self).wf(),
            old(self).stage is Paging,
            old(state).wf(),
        ensures
            final(self).wf(),
            final(self).same_orders(*old(self)),
            final(state).wf(),
            ({
                let t = old(self).stage->Paging_0;
                let before = old(self).pager;
                let rows = rows_with(before, reply);
                let said = one_line(page_text(before, label_of(t), reply));
                let ended = said.push(ends_text(label_of(t), rows.len()));
                if !ends_report(before, reply) {
                    &&& *final(self) == (ReportRun { pager: final(self).pager, ..*old(self) })
                    &&& final(self).pager.rows@ == rows
                    &&& final(self).pager.page == page_after(before, reply)
                    &&& final(self).pager.again <==> reply is Err
                    &&& *final(state) == (AppState { logs: final(state).logs, ..*old(state) })
                    &&& views(final(state).logs@) == logs_more(old(state).logs@, stamp@, said)
                } else if t != Report::Comments {
                    &&& *final(self) == (ReportRun {
                        stage: stage_after(t),
                        pager: final(self).pager,
                        tables: final(self).tables,
                        ..*old(self)
                    })
                    &&& final(self).at_first_page()
                    &&& table_placed(final(self).tables, old(self).tables, t, rows)
                    &&& *final(state) == (AppState { logs: final(state).logs, ..*old(state) })
                    &&& views(final(state).logs@) == logs_more(
                        old(state).logs@,
                        stamp@,
                        ended + next_lines(t),
                    )
                } else if rows.len() == 0 {
                    &&& *final(self) == (ReportRun {
                        stage: Stage::Asking,
                        pager: final(self).pager,
                        ..*old(self)
                    })
                    &&& *final(state) == (AppState { logs: final(state).logs, ..*old(state) })
                    &&& views(final(state).logs@) == logs_more(
                        old(state).logs@,
                        stamp@,
                        ended.push(empty_hint(list_address())),
                    )
                } else {
                    &&& final(self).list_settled(*old(self), rows)
                    &&& *final(state) == (AppState {
                        logs: final(state).logs,
                        total: final(self).total,
                        status: CrawlStatus::Running,
                        status_msg: final(state).status_msg,
                        ..*old(state)
                    })
                    &&& final(state).status_msg@ == "东财批量抓取中"@
                    &&& views(final(state).logs@) == logs_more(
                        old(state).logs@,
                        stamp@,
                        ended + list_lines(final(self).total as nat, final(self).day@),
                    )
                }
            }),
    {
        let t = match self.stage {
            Stage::Paging(t) => t,
            _ => Report::Comments,
        };
        let label = report_label(t);
        let step = self.pager.take_page(label, reply);
        let ghost said = one_line(text_view(step.log));
        match step.log {
            Some(line) => {
                state.push_log(stamp, &line);
            },
            None => {},
        }
        assert(views(state.logs@) =~= logs_more(old(state).logs@, stamp@, said));
        if step.more {
            return;
        }
        let mut whole = Pager::new();
        std::mem::swap(&mut whole, &mut self.pager);
        state.push_log(stamp, &paging_ends(label, whole.rows.len()));
        let ghost ended = said.push(ends_text(label_of(t), whole.rows@.len()));
        assert(views(state.logs@) =~= logs_more(old(state).logs@, stamp@, ended));
        match t {
            Report::Comments => {
                if whole.rows.len() == 0 {
                    state.push_log(stamp, &empty_list_notice().detail);
                    self.stage = Stage::Asking;
                    assert(views(state.logs@) =~= logs_more(
                        old(state).logs@,
                        stamp@,
                        ended.push(empty_hint(list_address())),
                    ));
                } else {
                    self.settle(whole.rows, state, stamp);
                    assert(views(state.logs@) =~= logs_more(
                        old(state).logs@,
                        stamp@,
                        ended + list_lines(self.total as nat, self.day@),
                    ));
                }
            },
            _ => {
                self.place(t, whole.rows);
                self.advance(t, state, stamp);
                assert(views(state.logs@) =~= logs_more(
                    old(state).logs@,
                    stamp@,
                    ended + next_lines(t),
                ));
            },
        }
    }

    /// Takes in what the user answers where no comments came: another try, an end, or the other
    /// reports for an empty list.
    pub fn answer(&mut self, ack: UserAck, state: &mut AppState, stamp: &str)
        requires
            old(self).wf(),
            old(self).stage == Stage::Asking,
            old(state).wf(),
        ensures
            final(self).wf(),
            final(self).same_orders(*old(self)),
            final(state).wf(),
            match ack {
                UserAck::Retry => {
                    &&& *final(self) == (ReportRun {
                        stage: Stage::Paging(Report::Comments),
                        pager: final(self).pager,
                        ..*old(self)
                    })
                    &&& final(self).at_first_page()
                    &&& *final(state) == (AppState { logs: final(state).logs, ..*old(state) })
                    &&& views(final(state).logs@) == logs_more(
                        old(state).logs@,
                        stamp@,
                        seq![starts_text(label_of(Report::Comments))],
                    )
                },
                UserAck::Stop => {
                    &&& *final(self) == (ReportRun { stage: Stage::Stopped, ..*old(self) })
                    &&& *final(state) == (AppState { status: CrawlStatus::Stopped, ..*old(state) })
                },
                UserAck::Continue => {
                    &&& final(self).list_settled(*old(self), Seq::empty())
                    &&& *final(state) == (AppState {
                        logs: final(state).logs,
                        total: 0,
                        status: CrawlStatus::Running,
                        status_msg: final(state).status_msg,
                        ..*old(state)
                    })
                    &&& final(state).status_msg@ == "东财批量抓取中"@
                    &&& views(final(state).logs@) == logs_more(
                        old(state).logs@,
                        stamp@,
                        list_lines(0, old(self).trade_date@),
                    )
                },
            },
    {
        match ack {
            UserAck::Retry => {
                self.pager = Pager::new();
                self.stage = Stage::Paging(Report::Comments);
                state.push_log(stamp, &paging_starts(report_label(Report::Comments)));
                assert(views(state.logs@) =~= logs_more(
                    old(state).logs@,
                    stamp@,
                    seq![starts_text(label_of(Report::Comments))],
                ));
            },
            UserAck::Stop => {
                self.stage = Stage::Stopped;
                state.status = CrawlStatus::Stopped;
            },
            UserAck::Continue => {
                let none: Vec<Json> = Vec::new();
                self.settle(none, state, stamp);
                assert(none@ =~= Seq::empty());
            },
        }
    }
}

// ---------------------------------------------------------------- laws of pages

/// The pages of a report stand so once the reply for a page was taken in.
pub open spec fn turned(before: Pager, after: Pager, reply: Result<Json, String>) -> bool {
    &&& after.rows@ == rows_with(before, reply)
    &&& after.page == page_after(before, reply)
}

/// The rows of a reply are the list under the data of its result, where there is one; else it has
/// none. The first of them answers for one stock.
pub proof fn a_reply_lists_its_rows(v: Json)
    ensures
        forall|list: Vec<Json>|
            #![trigger says(v, two_keys("result"@, "data"@), Json::Array(list))]
            says(v, two_keys("result"@, "data"@), Json::Array(list)) ==> rows_of(v) == list@ && (
            list@.len() > 0 ==> first_row_of(v) == Some(list@[0])),
        (forall|list: Vec<Json>| !#[trigger] says(v, two_keys("result"@, "data"@),
            Json::Array(list)))
            ==> rows_of(v).len() == 0,
        rows_of(v).len() == 0 ==> first_row_of(v) is None,
{
    let path = two_keys("result"@, "data"@);
    keys_open(v, path);
    assert forall|list: Vec<Json>| #[trigger] says(v, path, Json::Array(list)) implies rows_of(v)
        == list@ by {
        keys_lead_on(v, path, Json::Array(list));
    }
    match at_path(Some(v), path) {
        Some(Json::Array(list)) => {
            keys_lead_on(v, path, Json::Array(list));
        },
        _ => {},
    }
}

/// A page of five hundred rows is followed by the next; a shorter one is the last. One that failed
/// is asked for again once, without a row lost, and ends the report where it fails again.
pub proof fn a_short_page_ends_a_report(before: Pager, after: Pager, reply: Result<Json, String>)
    requires
        turned(before, after, reply),
    ensures
        reply is Ok ==> (ends_report(before, reply) <==> rows_of(reply->Ok_0).len() < 500),
        reply is Ok ==> after.rows@.len() == before.rows@.len() + rows_of(reply->Ok_0).len(),
        reply is Ok ==> after.page == before.page + if rows_of(reply->Ok_0).len() < 500 {
            0int
        } else {
            1
        },
        reply is Err ==> (ends_report(before, reply) <==> before.again),
        reply is Err ==> after.rows@ == before.rows@ && after.page == before.page,
        forall|i: int| 0 <= i < before.rows@.len() ==> after.rows@[i] == before.rows@[i],
{
}

/// Full pages come in turn, and each row stands in the report where its page and its place put it.
pub proof fn full_pages_come_in_turn(pagers: Seq<Pager>, replies: Seq<Result<Json, String>>)
    requires
        pagers.len() == replies.len() + 1,
        pagers[0].page == 1,
        pagers[0].rows@.len() == 0,
        forall|i: int|
            #![trigger replies[i]]
            0 <= i < replies.len() ==> replies[i] is Ok && rows_of(replies[i]->Ok_0).len() == 500
                && turned(pagers[i], pagers[i + 1], replies[i]),
    ensures
        pagers.last().page == replies.len() + 1,
        pagers.last().rows@.len() == 500 * replies.len(),
        forall|i: int, j: int|
            #![trigger rows_of(replies[i]->Ok_0)[j]]
            0 <= i < replies.len() && 0 <= j < 500 ==> pagers.last().rows@[500 * i + j] == rows_of(
                replies[i]->Ok_0,
            )[j],
    decreases replies.len(),
{
    if replies.len() > 0 {
        let n = replies.len() - 1;
        let rest = replies.drop_last();
        let first = pagers.drop_last();
        assert forall|i: int| #![trigger rest[i]] 0 <= i < rest.len() implies rest[i] is Ok
            && rows_of(rest[i]->Ok_0).len() == 500 && turned(first[i], first[i + 1], rest[i]) by {
            assert(rest[i] == replies[i]);
        }
        full_pages_come_in_turn(first, rest);
        assert(turned(pagers[n], pagers[n + 1], replies[n]));
        assert(first.last() == pagers[n]);
        assert forall|i: int, j: int|
            #![trigger rows_of(replies[i]->Ok_0)[j]]
            0 <= i < replies.len() && 0 <= j < 500 implies pagers.last().rows@[500 * i + j]
            == rows_of(replies[i]->Ok_0)[j] by {
            if i < n {
                assert(rest[i] == replies[i]);
                assert(first.last().rows@[500 * i + j] == rows_of(rest[i]->Ok_0)[j]);
            }
        }
    }
}

// ---------------------------------------------------------------- laws of requests

/// The code of a stock comes with its exchange: Shanghai where it begins with a six, Beijing where
/// with an eight or a four, else Shenzhen.
pub proof fn a_code_names_its_exchange(digit: char, rest: Seq<char>)
    ensures
        with_exchange(seq![digit] + rest) == (seq![digit] + rest) + (if digit == '6' {
            ".SH"@
        } else if digit == '4' || digit == '8' {
            ".BJ"@
        } else {
            ".SZ"@
        }),
{
}

/// Each report goes by a name of its own, is asked for by a number of rows and of the page, and
/// lands in the table that its name speaks of. Participation and focus are asked for one day,
/// comments by code.
pub proof fn reports_go_by_their_names(tables: Tables, day: Seq<char>)
    ensures
        report_id(Report::Comments) == "RPT_DMSK_TS_STOCKNEW"@,
        report_id(Report::Chances) == "RPT_STOCK_CHANGERATE"@,
        table(tables, Report::Chances) == Some(tables.chances),
        report_id(Report::Diagnosis) == "RPT_STOCK_TRENDVOLUME_COMMENT"@,
        table(tables, Report::Diagnosis) == Some(tables.diagnosis),
        report_id(Report::News) == "RPT_STOCK_WORDS_PK"@,
        table(tables, Report::News) == Some(tables.news),
        report_id(Report::Ranks) == "RPT_STOCK_PK_RANK"@,
        table(tables, Report::Ranks) == Some(tables.ranks),
        report_id(Report::Participation) == "RPT_STOCK_PARTICIPATION"@,
        table(tables, Report::Participation) == Some(tables.participation),
        report_id(Report::Focus) == "RPT_STOCK_MARKETFOCUS"@,
        table(tables, Report::Focus) == Some(tables.focus),
        own_params(Report::Participation, day) == own_params(Report::Focus, day),
        own_params(Report::Participation, day).contains(
            ("filter"@, "(TRADE_DATE='"@ + day + " 00:00:00')"@),
        ),
        own_params(Report::Comments, day).contains(("sortColumns"@, "SECURITY_CODE"@)),
        own_params(Report::Comments, day).contains(("sortTypes"@, "1"@)),
        forall|t: Report|
            t != Report::Comments && t != Report::Participation && t != Report::Focus
                ==> #[trigger] own_params(t, day).len() == 0,
{
    assert(own_params(Report::Participation, day)[0] == (
        "filter"@,
        "(TRADE_DATE='"@ + day + " 00:00:00')"@,
    ));
    assert(own_params(Report::Comments, day)[0] == ("sortColumns"@, "SECURITY_CODE"@));
    assert(own_params(Report::Comments, day)[1] == ("sortTypes"@, "1"@));
}

/// A page is asked for by its number, five hundred rows at a time, behind what the report is asked
/// for itself.
pub proof fn pages_are_asked_for_by_number(extra: Seq<(Seq<char>, Seq<char>)>, page: nat)
    ensures
        page_params(extra, page as int).len() == extra.len() + 2,
        page_params(extra, page as int).take(extra.len() as int) == extra,
        page_params(extra, page as int).contains(("pageSize"@, decimal(500))),
        page_params(extra, page as int).contains(("pageNumber"@, decimal(page))),
{
    let all = page_params(extra, page as int);
    assert(all.take(extra.len() as int) =~= extra);
    assert(all[extra.len() as int] == ("pageSize"@, decimal(500)));
    assert(all[extra.len() as int + 1] == ("pageNumber"@, decimal(page)));
}

/// The run takes all stocks of the list, or the first so many of them; its day is that of the first
/// stock, or the day of trade where that names none.
pub proof fn a_run_takes_what_is_listed(rows: Seq<Json>, limit: Option<usize>,
    trade_date: Seq<char>)
    ensures
        limit is None ==> taken(rows.len() as int, limit) == rows.len(),
        limit matches Some(n) ==> taken(rows.len() as int, limit) <= n && taken(
            rows.len() as int,
            limit,
        ) <= rows.len() && (taken(rows.len() as int, limit) == n || taken(rows.len() as int, limit)
            == rows.len()),
        rows.len() == 0 ==> day_of_data(rows, trade_date) == trade_date,
        rows.len() > 0 && row_day(rows[0]).len() > 0 ==> day_of_data(rows, trade_date) == row_day(
            rows[0],
        ),
        rows.len() > 0 && row_day(rows[0]).len() == 0 ==> day_of_data(rows, trade_date)
            == trade_date,
{
}

/// A report is asked for by its name and all its columns; each parameter more stands behind those
/// before it.
pub proof fn parameters_follow_each_other(
    report: Seq<char>,
    extra: Seq<(Seq<char>, Seq<char>)>,
    p: (Seq<char>, Seq<char>),
)
    ensures
        report_url(report, extra.push(p)) == report_url(report, extra) + "&"@ + query_part(p),
        report_url(report, Seq::empty()) == EM_BASE@ + "?"@ + query_part(("reportName"@, report))
            + "&"@ + query_part(("columns"@, "ALL"@)) + "&"@ + query_part(("client"@, "PC"@)) + "&"@
            + query_part(("source"@, "WEB"@)),
{
    let some = report_params(report, extra);
    let more = report_params(report, extra.push(p));
    assert(more =~= some.push(p));
    let texts = query_parts(some);
    assert(query_parts(more) =~= texts.push(query_part(p)));
    assert(query_parts(more).drop_last() =~= texts);
    assert(report_url(report, extra.push(p)) =~= report_url(report, extra) + "&"@ + query_part(p));
    let four = query_parts(report_params(report, Seq::empty()));
    assert(four =~= seq![
        query_part(("reportName"@, report)),
        query_part(("columns"@, "ALL"@)),
        query_part(("client"@, "PC"@)),
        query_part(("source"@, "WEB"@)),
    ]);
    four_are_joined(four[0], four[1], four[2], four[3], "&"@);
    let head = EM_BASE@ + "?"@;
    let tail = four[0] + "&"@ + four[1] + "&"@ + four[2] + "&"@ + four[3];
    assert(head + tail =~= head + four[0] + "&"@ + four[1] + "&"@ + four[2] + "&"@ + four[3]);
}

proof fn four_are_joined(a: Seq<char>, b: Seq<char>, c: Seq<char>, d: Seq<char>, sep: Seq<char>)
    ensures
        joined(seq![a, b, c, d], sep) == a + sep + b + sep + c + sep + d,
{
    assert(seq![a, b, c, d].drop_last() =~= seq![a, b, c]);
    assert(seq![a, b, c].drop_last() =~= seq![a, b]);
    assert(seq![a, b].drop_last() =~= seq![a]);
    assert(joined(seq![a], sep) == a);
    assert(joined(seq![a, b], sep) == a + sep + b);
    assert(joined(seq![a, b, c], sep) == a + sep + b + sep + c);
}

/// A stock that is asked for by itself is asked for by its code, or by its code and exchange: of
/// its rows the latest, which is the first by falling day.
pub proof fn the_latest_row_is_asked_for(code: Seq<char>, filter: Seq<char>)
    ensures
        valuation_address(code) == report_url(
            "RPT_VALUEANALYSIS_DET"@,
            latest_params("(SECURITY_CODE=\""@ + code + "\")"@),
        ),
        share_address(code) == report_url(
            "RPT_CUSTOM_STOCK_PK"@,
            latest_params("(SECUCODE=\""@ + with_exchange(code) + "\")"@),
        ),
        latest_params(filter).contains(("filter"@, filter)),
        latest_params(filter).contains(("pageSize"@, decimal(1))),
        latest_params(filter).contains(("pageNumber"@, decimal(1))),
        latest_params(filter).contains(("sortColumns"@, "TRADE_DATE"@)),
        latest_params(filter).contains(("sortTypes"@, "-1"@)),
        latest_params(filter).len() == 5,
{
    reveal_strlit("1");
    assert(decimal(1) =~= "1"@);
    let all = latest_params(filter);
    assert(all[0] == ("filter"@, filter));
    assert(all[1] == ("pageSize"@, decimal(1)));
    assert(all[2] == ("pageNumber"@, decimal(1)));
    assert(all[3] == ("sortColumns"@, "TRADE_DATE"@));
    assert(all[4] == ("sortTypes"@, "-1"@));
}

/// Eastmoney is asked again after any status but success and a refusal, which ends the request.
pub proof fn only_a_refusal_ends_a_request(r: FetchStep, attempt: u32, status: int)
    requires
        attempt >= 1,
        100 <= status < 1000,
        em_status_asks(r, attempt, status),
    ensures
        r is Fail <==> status == 403,
        r is ReadBody <==> status / 100 == 2,
        r is Retry <==> status != 403 && status / 100 != 2,
        r matches FetchStep::Retry { error, wait } ==> wait == Wait::Backoff((attempt - 1) as u32)
            && error@ == "HTTP "@ + decimal(status as nat),
{
}

/// A report that ended lands in the table of its kind, and no other table changes. The comments
/// have no table.
pub proof fn a_report_lands_in_its_table(
    after: Tables,
    before: Tables,
    t: Report,
    rows: Seq<Json>,
)
    requires
        table_placed(after, before, t, rows),
    ensures
        t == Report::Chances ==> after.chances.report() == rows,
        t != Report::Chances ==> after.chances == before.chances,
        t == Report::Diagnosis ==> after.diagnosis.report() == rows,
        t != Report::Diagnosis ==> after.diagnosis == before.diagnosis,
        t == Report::News ==> after.news.report() == rows,
        t != Report::News ==> after.news == before.news,
        t == Report::Ranks ==> after.ranks.report() == rows,
        t != Report::Ranks ==> after.ranks == before.ranks,
        t == Report::Participation ==> after.participation.report() == rows,
        t != Report::Participation ==> after.participation == before.participation,
        t == Report::Focus ==> after.focus.report() == rows,
        t != Report::Focus ==> after.focus == before.focus,
        t != Report::Comments,
{
    assert(table(after, Report::Chances) == Some(after.chances) && table(before, Report::Chances)
        == Some(before.chances));
    assert(table(after, Report::Diagnosis) == Some(after.diagnosis) && table(
        before,
        Report::Diagnosis,
    ) == Some(before.diagnosis));
    assert(table(after, Report::News) == Some(after.news) && table(before, Report::News) == Some(
        before.news,
    ));
    assert(table(after, Report::Ranks) == Some(after.ranks) && table(before, Report::Ranks) == Some(
        before.ranks,
    ));
    assert(table(after, Report::Participation) == Some(after.participation) && table(
        before,
        Report::Participation,
    ) == Some(before.participation));
    assert(table(after, Report::Focus) == Some(after.focus) && table(before, Report::Focus) == Some(
        before.focus,
    ));
}

/// The list of stocks is that of the comments: the run takes as many as the limit allows, works on
/// the day of the first, and asks for the chances next, from their first page on.
pub proof fn the_comments_settle_the_run(after: ReportRun, before: ReportRun, rows: Seq<Json>)
    requires
        after.list_settled(before, rows),
        rows.len() > 0,
    ensures
        after.comments@ == rows,
        before.limit is None ==> after.total == rows.len(),
        before.limit matches Some(n) ==> after.total <= n && after.total <= rows.len(),
        row_day(rows[0]).len() > 0 ==> after.day@ == row_day(rows[0]),
        row_day(rows[0]).len() == 0 ==> after.day@ == before.trade_date@,
        after.stage == Stage::Paging(Report::Chances),
        after.pager.page == 1 && after.pager.rows@.len() == 0 && !after.pager.again,
        after.tables == before.tables,
{
}

/// How each report is called in the log.
pub proof fn reports_have_labels()
    ensures
        label_of(Report::Comments) == "千股千评"@,
        label_of(Report::Chances) == "上涨概率"@,
        label_of(Report::Diagnosis) == "诊断文字"@,
        label_of(Report::News) == "消息面"@,
        label_of(Report::Ranks) == "市场排名"@,
        label_of(Report::Participation) == "参与意愿"@,
        label_of(Report::Focus) == "关注指数"@,
{
}

} // verus!
