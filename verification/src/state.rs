//! What the crawlers and the window share: progress, the log, the failure that waits for an
//! answer, and the problems to look into.

use vstd::prelude::*;

use crate::text::{position, views};
use crate::verify::{link_views, names, page_links, page_links_for_stock, LinkView, VerifyLink};

verus! {

#[derive(Debug, Clone, Copy, PartialEq, Eq, Structural)]
pub enum CrawlStatus {
    Idle,
    Running,
    Cooling,
    /// A failure waits for an answer.
    NeedConfirm,
    Done,
    Stopped,
    Error,
}

impl Default for CrawlStatus {
    fn default() -> (r: Self)
        ensures
            r == CrawlStatus::Idle,
    {
        CrawlStatus::Idle
    }
}

/// The answer to a failure: go on, try again, or stop the whole run.
#[derive(Debug, Clone, Copy, PartialEq, Eq, Structural)]
pub enum UserAck {
    Continue,
    Retry,
    Stop,
}

/// A failure that is shown.
#[derive(Debug, Clone, PartialEq, Eq)]
pub struct ErrorNotice {
    pub kind: String,
    pub code: String,
    pub name: String,
    pub detail: String,
    pub hint: String,
    pub links: Vec<VerifyLink>,
}

/// A failure by its texts.
pub struct NoticeView {
    pub kind: Seq<char>,
    pub code: Seq<char>,
    pub name: Seq<char>,
    pub detail: Seq<char>,
    pub hint: Seq<char>,
    pub links: Seq<LinkView>,
}

impl View for ErrorNotice {
    type V = NoticeView;

    open spec fn view(&self) -> NoticeView {
        NoticeView {
            kind: self.kind@,
            code: self.code@,
            name: self.name@,
            detail: self.detail@,
            hint: self.hint@,
            links: link_views(self.links@),
        }
    }
}

/// A problem of one stock, with the page to look at.
#[derive(Debug, Clone, PartialEq, Eq)]
pub struct ProblemItem {
    pub kind: String,
    pub code: String,
    pub name: String,
    pub detail: String,
    pub page_url: String,
    pub page_label: String,
}

/// A problem by its texts.
pub struct ProblemView {
    pub kind: Seq<char>,
    pub code: Seq<char>,
    pub name: Seq<char>,
    pub detail: Seq<char>,
    pub page_url: Seq<char>,
    pub page_label: Seq<char>,
}

impl View for ProblemItem {
    type V = ProblemView;

    open spec fn view(&self) -> ProblemView {
        ProblemView {
            kind: self.kind@,
            code: self.code@,
            name: self.name@,
            detail: self.detail@,
            page_url: self.page_url@,
            page_label: self.page_label@,
        }
    }
}

#[derive(Debug, Clone, PartialEq, Eq)]
pub struct AppState {
    pub total: usize,
    pub done: usize,
    pub skipped: usize,
    pub failed: usize,
    pub current_code: String,
    pub current_name: String,
    pub current_endpoint: String,
    pub status: CrawlStatus,
    pub status_msg: String,
    pub consecutive_403: usize,
    pub logs: Vec<String>,
    pub pending_error: Option<ErrorNotice>,
    /// Kinds of failures that are no longer asked about, each once.
    pub mute_error_kinds: Vec<String>,
    /// The status before a failure asked for an answer.
    pub resume_status: CrawlStatus,
    pub problems: Vec<ProblemItem>,
}

/// A line of the log with its time in front.
pub open spec fn stamped(stamp: Seq<char>, line: Seq<char>) -> Seq<char> {
    "["@ + stamp + "] "@ + line
}

/// The line for a failure of a kind that is no longer asked about.
pub open spec fn muted_line(n: NoticeView) -> Seq<char> {
    "[同类已确认不再问] "@ + n.kind + " "@ + n.code + " "@ + n.name + " "@ + n.detail
}

/// The line for a failure that waits for an answer.
pub open spec fn asking_line(n: NoticeView) -> Seq<char> {
    "⚠ 需确认: ["@ + n.kind + "] "@ + n.code + " "@ + n.name + " — "@ + n.detail
}

/// What the status line says while a failure waits for an answer.
pub const ASKING: &'static str = "请在弹窗点「确认继续」或打开源站核对是否符合";

/// The line for a problem of one stock.
pub open spec fn problem_line(p: ProblemView) -> Seq<char> {
    let line = "⚠ ["@ + p.kind + "] "@ + p.code + " "@ + p.name + " — "@ + p.detail;
    if p.page_url.len() == 0 {
        line
    } else {
        line + "  网页: "@ + p.page_url
    }
}

/// The status that is kept while a failure waits: the one before, and before the first of
/// several failures.
pub open spec fn kept_status(status: CrawlStatus, resume: CrawlStatus) -> CrawlStatus {
    if status == CrawlStatus::NeedConfirm {
        resume
    } else {
        status
    }
}

/// The status that an answer brings back.
pub open spec fn status_after(resume: CrawlStatus, ack: UserAck) -> CrawlStatus {
    if ack == UserAck::Stop {
        CrawlStatus::Stopped
    } else if resume == CrawlStatus::NeedConfirm {
        CrawlStatus::Idle
    } else {
        resume
    }
}

/// A kind joins the kinds that are no longer asked about, where it is not yet among them.
pub open spec fn with_kind(kinds: Seq<Seq<char>>, kind: Seq<char>) -> Seq<Seq<char>> {
    if kinds.contains(kind) {
        kinds
    } else {
        kinds.push(kind)
    }
}

/// What becomes of the state where a failure is put before the user: one of a muted kind is
/// answered at once, with `Continue`, and only logged; any other waits, and the status before it is
/// kept.
pub open spec fn put_before_user(
    before: AppState,
    after: AppState,
    stamp: Seq<char>,
    notice: ErrorNotice,
    r: Option<UserAck>,
) -> bool {
    &&& after.same_progress(before)
    &&& after.mute_error_kinds == before.mute_error_kinds
    &&& if views(before.mute_error_kinds@).contains(notice@.kind) {
        &&& r == Some(UserAck::Continue)
        &&& after.status == before.status
        &&& after.resume_status == before.resume_status
        &&& after.status_msg == before.status_msg
        &&& after.pending_error == before.pending_error
        &&& views(after.logs@) == views(before.logs@).push(stamped(stamp, muted_line(notice@)))
    } else {
        &&& r is None
        &&& after.status == CrawlStatus::NeedConfirm
        &&& after.resume_status == kept_status(before.status, before.resume_status)
        &&& after.status_msg@ == ASKING@
        &&& after.pending_error == Some(notice)
        &&& views(after.logs@) == views(before.logs@).push(stamped(stamp, asking_line(notice@)))
    }
}

/// What becomes of the state where the failure that waits is answered, and its kind muted where
/// asked to. The status before the failure comes back, unless the answer is to stop.
pub open spec fn answered(
    before: AppState,
    after: AppState,
    ack: UserAck,
    mute_this_kind: bool,
) -> bool {
    &&& after.same_progress(before)
    &&& after.logs == before.logs
    &&& after.resume_status == before.resume_status
    &&& after.pending_error is None
    &&& views(after.mute_error_kinds@) == match before.pending_error {
        Some(n) if mute_this_kind => with_kind(views(before.mute_error_kinds@), n@.kind),
        _ => views(before.mute_error_kinds@),
    }
    &&& if before.status == CrawlStatus::NeedConfirm {
        &&& after.status == status_after(before.resume_status, ack)
        &&& after.status_msg@.len() == 0
    } else {
        &&& after.status == before.status
        &&& after.status_msg == before.status_msg
    }
}

impl AppState {
    /// No kind is muted twice.
    pub open spec fn wf(self) -> bool {
        views(self.mute_error_kinds@).no_duplicates()
    }

    /// All but the log, the failure that waits, the statuses and the muted kinds.
    pub open spec fn same_progress(self, other: AppState) -> bool {
        &&& self.total == other.total
        &&& self.done == other.done
        &&& self.skipped == other.skipped
        &&& self.failed == other.failed
        &&& self.current_code == other.current_code
        &&& self.current_name == other.current_name
        &&& self.current_endpoint == other.current_endpoint
        &&& self.consecutive_403 == other.consecutive_403
        &&& self.problems == other.problems
    }

    /// A state at rest, with the lines that today's log already has.
    pub fn new(logs: Vec<String>) -> (r: AppState)
        ensures
            r.wf(),
            r.total == 0 && r.done == 0 && r.skipped == 0 && r.failed == 0,
            r.current_code@.len() == 0 && r.current_name@.len() == 0
                && r.current_endpoint@.len() == 0,
            r.status == CrawlStatus::Idle && r.resume_status == CrawlStatus::Idle,
            r.status_msg@.len() == 0,
            r.consecutive_403 == 0,
            r.logs == logs,
            r.pending_error is None,
            r.mute_error_kinds@.len() == 0,
            r.problems@.len() == 0,
    {
        AppState {
            total: 0,
            done: 0,
            skipped: 0,
            failed: 0,
            current_code: String::new(),
            current_name: String::new(),
            current_endpoint: String::new(),
            status: CrawlStatus::Idle,
            status_msg: String::new(),
            consecutive_403: 0,
            logs,
            pending_error: None,
            mute_error_kinds: Vec::new(),
            resume_status: CrawlStatus::Idle,
            problems: Vec::new(),
        }
    }

    /// Adds a line to the log, and gives it as it stands there.
    pub fn push_log(&mut self, stamp: &str, line: &str) -> (r: String)
        ensures
            r@ == stamped(stamp@, line@),
            views(final(self).logs@) == views(old(self).logs@).push(stamped(stamp@, line@)),
            *final(self) == (AppState { logs: final(self).logs, ..*old(self) }),
    {
        let mut s = "[".to_string();
        s.append(stamp);
        s.append("] ");
        s.append(line);
        let copy = s.clone();
        self.logs.push(s);
        assert(views(self.logs@) =~= views(old(self).logs@).push(stamped(stamp@, line@)));
        copy
    }

    /// Only the status and its line change.
    pub open spec fn stands_at(self, before: AppState, status: CrawlStatus,
        message: Seq<char>) -> bool {
        &&& self == (AppState { status, status_msg: self.status_msg, ..before })
        &&& self.status_msg@ == message
    }

    /// Changes the status and its line.
    pub fn enter(&mut self, status: CrawlStatus, message: String)
        ensures
            final(self).stands_at(*old(self), status, message@),
    {
        self.status = status;
        self.status_msg = message;
    }

    /// Shows the stock that is asked for.
    pub fn show_stock(&mut self, code: &str, name: &str)
        ensures
            *final(self) == (AppState {
                current_code: final(self).current_code,
                current_name: final(self).current_name,
                ..*old(self)
            }),
            final(self).current_code@ == code@,
            final(self).current_name@ == name@,
    {
        self.current_code = code.to_string();
        self.current_name = name.to_string();
    }

    /// Shows what is asked for.
    pub fn show_endpoint(&mut self, label: String)
        ensures
            *final(self) == (AppState { current_endpoint: label, ..*old(self) }),
    {
        self.current_endpoint = label;
    }

    /// Forgets what a run before this one muted and noted.
    pub fn forget_problems(&mut self)
        requires
            old(self).wf(),
        ensures
            final(self).wf(),
            *final(self) == (AppState {
                mute_error_kinds: final(self).mute_error_kinds,
                problems: final(self).problems,
                ..*old(self)
            }),
            final(self).mute_error_kinds@.len() == 0,
            final(self).problems@.len() == 0,
    {
        self.mute_error_kinds = Vec::new();
        self.problems = Vec::new();
    }

    /// Puts a failure before the user. One of a muted kind is answered at once, with `Continue`,
    /// and only logged; any other waits, and the status before it is kept.
    pub fn request_ack(&mut self, stamp: &str, notice: ErrorNotice) -> (r: Option<UserAck>)
        requires
            old(self).wf(),
        ensures
            final(self).wf(),
            final(self).same_progress(*old(self)),
            put_before_user(*old(self), *final(self), stamp@, notice, r),
    {
        let found = position(&self.mute_error_kinds, &notice.kind);
        proof {
            let kinds = views(self.mute_error_kinds@);
            match found {
                Some(i) => {
                    assert(kinds[i as int] == notice.kind@);
                },
                None => {
                    assert forall|j: int| 0 <= j < kinds.len() implies kinds[j] != notice.kind@ by {
                        assert(kinds[j] == self.mute_error_kinds@[j]@);
                    }
                },
            }
        }
        if found.is_some() {
            let mut line = "[同类已确认不再问] ".to_string();
            line.append(&notice.kind);
            line.append(" ");
            line.append(&notice.code);
            line.append(" ");
            line.append(&notice.name);
            line.append(" ");
            line.append(&notice.detail);
            self.push_log(stamp, &line);
            return Some(UserAck::Continue);
        }
        let mut line = "⚠ 需确认: [".to_string();
        line.append(&notice.kind);
        line.append("] ");
        line.append(&notice.code);
        line.append(" ");
        line.append(&notice.name);
        line.append(" — ");
        line.append(&notice.detail);
        self.push_log(stamp, &line);
        self.pending_error = Some(notice);
        if self.status != CrawlStatus::NeedConfirm {
            self.resume_status = self.status;
        }
        self.status = CrawlStatus::NeedConfirm;
        self.status_msg = ASKING.to_string();
        None
    }

    /// Answers the failure that waits, and mutes its kind where asked to. The status before the
    /// failure comes back, unless the answer is to stop.
    pub fn submit_ack(&mut self, ack: UserAck, mute_this_kind: bool)
        requires
            old(self).wf(),
        ensures
            final(self).wf(),
            final(self).same_progress(*old(self)),
            answered(*old(self), *final(self), ack, mute_this_kind),
    {
        if mute_this_kind {
            match &self.pending_error {
                Some(n) => {
                    let kind = n.kind.clone();
                    let found = position(&self.mute_error_kinds, &kind);
                    let ghost kinds = views(self.mute_error_kinds@);
                    proof {
                        match found {
                            Some(i) => {
                                assert(kinds[i as int] == kind@);
                            },
                            None => {
                                assert forall|j: int| 0 <= j < kinds.len() implies kinds[j]
                                    != kind@ by {
                                    assert(kinds[j] == self.mute_error_kinds@[j]@);
                                }
                            },
                        }
                    }
                    if found.is_none() {
                        let ghost k = kind@;
                        self.mute_error_kinds.push(kind);
                        assert(views(self.mute_error_kinds@) =~= kinds.push(k));
                    }
                },
                None => {},
            }
        }
        self.pending_error = None;
        if self.status == CrawlStatus::NeedConfirm {
            self.status = match ack {
                UserAck::Stop => CrawlStatus::Stopped,
                _ => if self.resume_status == CrawlStatus::NeedConfirm {
                    CrawlStatus::Idle
                } else {
                    self.resume_status
                },
            };
            self.status_msg = String::new();
        }
    }

    /// Notes a problem of one stock with the first page of its sources, and goes on.
    pub fn note_problem(
        &mut self,
        stamp: &str,
        kind: &str,
        code: &str,
        name: &str,
        detail: &str,
        sources: &[&str],
    )
        requires
            old(self).wf(),
        ensures
            final(self).wf(),
            *final(self) == (AppState {
                logs: final(self).logs,
                problems: final(self).problems,
                ..*old(self)
            }),
            ({
                let p = problem(
                    kind@,
                    code@,
                    name@,
                    detail@,
                    page_links(code@, names(sources@, "baidu"@), names(sources@, "em"@)),
                );
                &&& final(self).problems@.len() == old(self).problems@.len() + 1
                &&& final(self).problems@.drop_last() == old(self).problems@
                &&& final(self).problems@.last()@ == p
                &&& views(final(self).logs@) == views(old(self).logs@).push(
                    stamped(stamp@, problem_line(p)),
                )
            }),
    {
        let links = page_links_for_stock(code, sources);
        let (page_url, page_label) = if links.len() == 0 {
            (String::new(), String::new())
        } else {
            assert(link_views(links@)[0] == links@[0]@);
            let mut label = links[0].source.clone();
            label.append(" · ");
            label.append(&links[0].label);
            (links[0].url.clone(), label)
        };
        let mut line = "⚠ [".to_string();
        line.append(kind);
        line.append("] ");
        line.append(code);
        line.append(" ");
        line.append(name);
        line.append(" — ");
        line.append(detail);
        if !page_url.as_str().is_empty() {
            line.append("  网页: ");
            line.append(&page_url);
        }
        self.push_log(stamp, &line);
        let item = ProblemItem {
            kind: kind.to_string(),
            code: code.to_string(),
            name: name.to_string(),
            detail: detail.to_string(),
            page_url,
            page_label,
        };
        self.problems.push(item);
        assert(self.problems@.drop_last() =~= old(self).problems@);
    }
}

/// A problem with the first of its links.
pub open spec fn problem(
    kind: Seq<char>,
    code: Seq<char>,
    name: Seq<char>,
    detail: Seq<char>,
    links: Seq<LinkView>,
) -> ProblemView {
    ProblemView {
        kind,
        code,
        name,
        detail,
        page_url: if links.len() == 0 {
            Seq::empty()
        } else {
            links[0].url
        },
        page_label: if links.len() == 0 {
            Seq::empty()
        } else {
            links[0].source + " · "@ + links[0].label
        },
    }
}

/// A kind that was muted is muted, and so is every kind that was before.
pub proof fn a_muted_kind_stays_muted(kinds: Seq<Seq<char>>, kind: Seq<char>, other: Seq<char>)
    ensures
        with_kind(kinds, kind).contains(kind),
        kinds.contains(other) ==> with_kind(kinds, kind).contains(other),
        kinds.no_duplicates() ==> with_kind(kinds, kind).no_duplicates(),
{
    let after = with_kind(kinds, kind);
    if !kinds.contains(kind) {
        assert(after[kinds.len() as int] == kind);
        if kinds.contains(other) {
            let i = choose|i: int| 0 <= i < kinds.len() && kinds[i] == other;
            assert(after[i] == other);
        }
    }
}

/// A problem of a stock always comes with a page to look at, where its source is known.
pub proof fn a_problem_has_a_page(
    kind: Seq<char>,
    code: Seq<char>,
    name: Seq<char>,
    detail: Seq<char>,
    baidu: bool,
    em: bool,
)
    requires
        baidu || em,
    ensures
        problem(kind, code, name, detail, page_links(code, baidu, em)).page_url == if baidu {
            crate::verify::ai_page(code)
        } else {
            crate::verify::comment_page(code)
        },
        problem(kind, code, name, detail, page_links(code, baidu, em)).page_url.len() > 0,
{
    reveal_strlit("https://finance.baidu.com/ai-tech-analysi/stock/ab-");
    reveal_strlit("https://data.eastmoney.com/stockcomment/stock/");
}

/// Asking and answering leave the status as it was, unless the answer is to stop: a run that
/// runs goes on, and one that rests stays at rest. So does asking again before the answer.
pub proof fn an_answer_restores_the_status(status: CrawlStatus, resume: CrawlStatus, ack: UserAck)
    requires
        status != CrawlStatus::NeedConfirm,
        ack != UserAck::Stop,
    ensures
        status_after(kept_status(status, resume), ack) == status,
        status_after(kept_status(CrawlStatus::NeedConfirm, kept_status(status, resume)), ack)
            == status,
        status_after(kept_status(status, resume), UserAck::Stop) == CrawlStatus::Stopped,
{
}

// ---------------------------------------------------------------- where the log stands

/// The path of a name in a directory.
pub open spec fn path_of(dir: Seq<char>, name: Seq<char>) -> Seq<char> {
    if dir.len() == 0 {
        name
    } else if dir.last() == '/' {
        dir + name
    } else {
        dir + "/"@ + name
    }
}

/// The path of a name in a directory.
pub fn join_path(dir: &str, name: &str) -> (r: String)
    ensures
        r@ == path_of(dir@, name@),
{
    if dir.is_empty() {
        return name.to_string();
    }
    let chars = crate::text::chars_of(dir);
    let mut s = dir.to_string();
    if chars[chars.len() - 1] != '/' {
        s.append("/");
    }
    s.append(name);
    s
}

/// The directory of the logs, under the working directory.
pub fn session_log_dir(workspace: &str) -> (r: String)
    ensures
        r@ == path_of(workspace@, "logs"@),
{
    join_path(workspace, "logs")
}

/// The log of a day.
pub fn session_log_path(workspace: &str, day: &str) -> (r: String)
    ensures
        r@ == path_of(path_of(workspace@, "logs"@), "session-"@ + day@ + ".log"@),
{
    let mut name = "session-".to_string();
    name.append(day);
    name.append(".log");
    join_path(&session_log_dir(workspace), &name)
}

/// A failure that was put before the user and answered leaves the crawl where it was, or stopped
/// where the answer says so. Where its kind was muted, a failure of that kind is not asked about
/// again, and one of another kind is asked about as before.
pub proof fn an_answered_failure_leaves_no_trace(
    before: AppState,
    waiting: AppState,
    after: AppState,
    stamp: Seq<char>,
    notice: ErrorNotice,
    ack: UserAck,
    mute: bool,
)
    requires
        before.status != CrawlStatus::NeedConfirm,
        put_before_user(before, waiting, stamp, notice, None),
        answered(waiting, after, ack, mute),
    ensures
        waiting.status == CrawlStatus::NeedConfirm,
        waiting.pending_error == Some(notice),
        ack != UserAck::Stop ==> after.status == before.status,
        ack == UserAck::Stop ==> after.status == CrawlStatus::Stopped,
        after.pending_error is None,
        after.same_progress(before),
        views(after.logs@).len() == views(before.logs@).len() + 1,
        !mute ==> views(after.mute_error_kinds@) == views(before.mute_error_kinds@),
        mute ==> views(after.mute_error_kinds@) == views(before.mute_error_kinds@).push(
            notice@.kind,
        ),
        forall|later: AppState, next: ErrorNotice, r: Option<UserAck>|
            #![trigger put_before_user(after, later, stamp, next, r)]
            put_before_user(after, later, stamp, next, r) ==> {
                &&& mute && next@.kind == notice@.kind ==> r == Some(UserAck::Continue)
                    && later.status == after.status
                &&& next@.kind != notice@.kind ==> (r is None <==> !views(
                    before.mute_error_kinds@,
                ).contains(next@.kind))
            },
{
    let kinds = views(before.mute_error_kinds@);
    assert forall|later: AppState, next: ErrorNotice, r: Option<UserAck>|
        #![trigger put_before_user(after, later, stamp, next, r)]
        put_before_user(after, later, stamp, next, r) implies {
        &&& mute && next@.kind == notice@.kind ==> r == Some(UserAck::Continue) && later.status
            == after.status
        &&& next@.kind != notice@.kind ==> (r is None <==> !kinds.contains(next@.kind))
    } by {
        if mute {
            assert(kinds.push(notice@.kind).last() == notice@.kind);
            assert(kinds.push(notice@.kind).contains(notice@.kind));
            if kinds.contains(next@.kind) {
                let i = choose|i: int| 0 <= i < kinds.len() && kinds[i] == next@.kind;
                assert(kinds.push(notice@.kind)[i] == next@.kind);
            } else if kinds.push(notice@.kind).contains(next@.kind) {
                let i = choose|i: int|
                    0 <= i < kinds.len() + 1 && kinds.push(notice@.kind)[i] == next@.kind;
                assert(i == kinds.len());
            }
        }
    }
}

/// A file stands in a directory behind one slash; without a directory it is its name.
pub proof fn one_slash_parts_a_path(dir: Seq<char>, name: Seq<char>)
    ensures
        path_of(Seq::empty(), name) == name,
        dir.len() > 0 && dir.last() != '/' ==> path_of(dir, name) == path_of(dir.push('/'), name),
        path_of(dir.push('/'), name) == dir.push('/') + name,
{
    reveal_strlit("/");
    if dir.len() > 0 && dir.last() != '/' {
        assert(path_of(dir, name) =~= path_of(dir.push('/'), name));
    }
}

/// A second failure that comes while the first one waits takes its place, and the answer still brings
/// back the status before the first.
pub proof fn the_first_status_is_kept(
    before: AppState,
    first: AppState,
    second: AppState,
    after: AppState,
    stamp: Seq<char>,
    a: ErrorNotice,
    b: ErrorNotice,
    ack: UserAck,
    mute: bool,
)
    requires
        before.status != CrawlStatus::NeedConfirm,
        put_before_user(before, first, stamp, a, None),
        put_before_user(first, second, stamp, b, None),
        answered(second, after, ack, mute),
    ensures
        second.pending_error == Some(b),
        ack != UserAck::Stop ==> after.status == before.status,
        ack == UserAck::Stop ==> after.status == CrawlStatus::Stopped,
        mute ==> views(after.mute_error_kinds@).contains(b@.kind),
{
    if mute {
        let kinds = views(before.mute_error_kinds@);
        assert(kinds.push(b@.kind).last() == b@.kind);
    }
}

} // verus!
