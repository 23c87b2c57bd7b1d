//! The Baidu crawl: how many stocks are asked for at a time, how it slows down where visitors
//! are turned away, and what it does with each stock.

use vstd::prelude::*;

use crate::checklist::{lack_text, lacks, last_try_of, tries_of, with_item, CheckItem, CheckList};
use crate::db::Completeness;
use crate::http::{endpoint_label, given_up, label_of_request, Endpoint, RateLimiter};
use crate::json::text_view;
use crate::models::StockRef;
use crate::state::{
    problem, problem_line, stamped, AppState, CrawlStatus, ErrorNotice, ProblemItem, ProblemView,
    UserAck,
};
use crate::text::{contains, decimal, holds, same, stands_at, views, write_u64, write_usize};
use crate::verify::{
    all_links, classify_kind, kind_of, names, network_hint, one_source_is_named, page_links,
    source_names, source_verify_links, NETWORK_HINT,
};

verus! {

/// How a run goes. Spans are nanoseconds.
#[derive(Debug, Clone, PartialEq, Eq)]
pub struct CrawlConfig {
    pub db_path: String,
    pub trade_date: String,
    pub codes: Vec<StockRef>,
    pub min_interval: u64,
    pub max_per_minute: usize,
    pub jitter: u64,
    pub max_retries: u32,
    pub timeout: u64,
    pub limit: Option<usize>,
    /// Whether stocks that are fresh are skipped.
    pub resume: bool,
    pub fresh_days: i64,
    /// The shells in a row after which a stock is left alone: zero for never.
    pub empty_limit: i64,
    pub empty_cooldown_days: i64,
    pub rate_wait_cap: Option<u64>,
}

pub const SECOND: u64 = 1_000_000_000;

/// Refusals in a row after which the pause is long.
pub const CONSEC_403_THRESHOLD: usize = 8;

/// The long pause, in seconds.
pub const COOLDOWN_SEC: u64 = 600;

/// How many rounds with the long pause there are before the crawl gives up.
pub const MAX_COOLDOWNS: usize = 12;

/// How many stocks are asked for at a time at most.
pub const MAX_WORKERS: usize = 16;

/// Successes in a row after which more stocks are asked for at a time.
pub const RAMP_OK: usize = 24;

// ---------------------------------------------------------------- pace

/// How many stocks are asked for at a time, and until when nothing is. Times are nanoseconds on
/// a clock that never runs backwards.
#[derive(Debug, Clone, Copy, PartialEq, Eq)]
pub struct Pace {
    pub max_inflight: usize,
    pub inflight: usize,
    pub pause_until: u64,
    pub proxy_pause: u64,
    pub direct_pause: u64,
    pub consec_403: usize,
    pub consec_ok: usize,
    pub cooldown_rounds: usize,
    pub refreshing: bool,
}

/// What becomes of the wish to ask for a stock.
#[derive(Debug, Clone, Copy, PartialEq, Eq)]
pub enum Slot {
    /// Sleep that long and wish again.
    Wait(u64),
    /// Sleep that long and ask.
    Granted(u64),
}

/// What a refusal asks for.
#[derive(Debug, Clone, Copy, PartialEq, Eq)]
pub struct Slowdown {
    /// How many stocks were asked for at a time, and how many are from now on.
    pub from: usize,
    pub to: usize,
    /// The pause in seconds.
    pub pause: u64,
    pub next: AfterRefusal,
}

#[derive(Debug, Clone, Copy, PartialEq, Eq)]
pub enum AfterRefusal {
    /// Too many refusals: stop.
    GiveUp,
    /// Get a new cookie, with a long pause where that fails and the refusals go on.
    Refresh { long_cool: bool },
    /// Nothing but the pause.
    GoOn,
}

/// The levels of the pace.
pub open spec fn is_level(n: int) -> bool {
    n == 1 || n == 4 || n == 8 || n == 16
}

/// The level after a refusal.
pub open spec fn slower(n: int) -> int {
    if n > 4 {
        4
    } else if n > 1 {
        1
    } else {
        n
    }
}

/// The level after enough successes.
pub open spec fn faster(n: int) -> int {
    if n == 1 {
        4
    } else if n == 4 {
        8
    } else {
        MAX_WORKERS as int
    }
}

/// The seconds of pause at a level.
pub open spec fn pause_at(n: int) -> int {
    if n == 1 {
        20
    } else {
        8
    }
}

/// Until when nothing is asked for on a path.
pub open spec fn paused_until(p: Pace, use_proxy: bool) -> int {
    let path = if use_proxy {
        p.proxy_pause as int
    } else {
        p.direct_pause as int
    };
    if p.pause_until > path {
        p.pause_until as int
    } else {
        path
    }
}

pub open spec fn least(a: int, b: int) -> int {
    if a < b {
        a
    } else {
        b
    }
}

/// The longest sleep before a wish is made again, in nanoseconds.
pub const MAX_NAP: u64 = 200_000_000;

/// The sleep where all slots are taken, in nanoseconds.
pub const SHORT_NAP: u64 = 20_000_000;

/// The level rises with the next success.
pub open spec fn rises(p: Pace) -> bool {
    p.consec_ok + 1 >= RAMP_OK && p.max_inflight < MAX_WORKERS
}

/// The pace after a success.
pub open spec fn after_success(p: Pace) -> Pace {
    if rises(p) {
        Pace {
            consec_403: 0,
            consec_ok: 0,
            max_inflight: faster(p.max_inflight as int) as usize,
            ..p
        }
    } else {
        Pace { consec_403: 0, consec_ok: (p.consec_ok + 1) as usize, ..p }
    }
}

/// A refusal in time for a new cookie: at the lowest level, the second in a row or later, while
/// no cookie is being got.
pub open spec fn wants_refresh(p: Pace, to: int) -> bool {
    to == 1 && !p.refreshing && p.consec_403 + 1 >= 2
}

/// A refusal after which the crawl gives up: in time for a new cookie, with all rounds used.
pub open spec fn gives_up(p: Pace) -> bool {
    wants_refresh(p, slower(p.max_inflight as int)) && p.cooldown_rounds >= MAX_COOLDOWNS
}

/// A refusal that begins a round: enough of them in a row that the pause is long where no cookie
/// comes.
pub open spec fn begins_round(p: Pace) -> bool {
    &&& wants_refresh(p, slower(p.max_inflight as int))
    &&& !gives_up(p)
    &&& p.consec_403 + 1 >= CONSEC_403_THRESHOLD
}

/// The pace after a refusal.
pub open spec fn refused(p: Pace, now: int, use_proxy: bool) -> Pace {
    let to = slower(p.max_inflight as int);
    let asks = wants_refresh(p, to);
    Pace {
        consec_ok: 0,
        consec_403: (p.consec_403 + 1) as usize,
        max_inflight: to as usize,
        pause_until: (now + pause_at(to) * SECOND) as u64,
        proxy_pause: if use_proxy {
            (now + 30 * SECOND) as u64
        } else {
            p.proxy_pause
        },
        direct_pause: if use_proxy {
            p.direct_pause
        } else {
            (now + 30 * SECOND) as u64
        },
        cooldown_rounds: if begins_round(p) {
            (p.cooldown_rounds + 1) as usize
        } else {
            p.cooldown_rounds
        },
        refreshing: (asks && !gives_up(p)) || (!asks && p.refreshing),
        ..p
    }
}

/// The pace after the try to get a cookie.
pub open spec fn after_refresh(p: Pace, got: bool, long_cool: bool) -> Pace {
    Pace {
        refreshing: false,
        consec_403: if got || long_cool {
            0
        } else {
            p.consec_403
        },
        ..p
    }
}

/// What a refusal asks for.
pub open spec fn slowdown_of(p: Pace) -> Slowdown {
    let to = slower(p.max_inflight as int);
    Slowdown {
        from: p.max_inflight,
        to: to as usize,
        pause: pause_at(to) as u64,
        next: if gives_up(p) {
            AfterRefusal::GiveUp
        } else if wants_refresh(p, to) {
            AfterRefusal::Refresh { long_cool: begins_round(p) }
        } else {
            AfterRefusal::GoOn
        },
    }
}

/// What becomes of the wish to ask for a stock: it waits for the end of a pause, or for a free
/// slot, or takes a slot, at the lowest level after the interval between two requests.
pub open spec fn slot_given(
    before: Pace,
    after: Pace,
    now: u64,
    use_proxy: bool,
    serial_interval: u64,
    r: Slot,
) -> bool {
    if now < paused_until(before, use_proxy) {
        &&& after == before
        &&& r == Slot::Wait(least(paused_until(before, use_proxy) - now, MAX_NAP as int) as u64)
    } else if before.inflight >= before.max_inflight {
        &&& after == before
        &&& r == Slot::Wait(SHORT_NAP)
    } else {
        &&& after == (Pace { inflight: (before.inflight + 1) as usize, ..before })
        &&& r == Slot::Granted(
            if before.max_inflight == 1 {
                serial_interval
            } else {
                0
            },
        )
    }
}

/// The pace after a slot was given back.
pub open spec fn slot_back(p: Pace) -> Pace {
    Pace {
        inflight: if p.inflight > 0 {
            (p.inflight - 1) as usize
        } else {
            0
        },
        ..p
    }
}

impl Pace {
    /// The level is one of four, and no more stocks are asked for than the highest allows.
    pub open spec fn wf(self) -> bool {
        &&& is_level(self.max_inflight as int)
        &&& self.inflight <= MAX_WORKERS
    }

    /// The pace at the start.
    pub fn new(now: u64) -> (r: Pace)
        ensures
            r.wf(),
            r == (Pace {
                max_inflight: MAX_WORKERS,
                inflight: 0,
                pause_until: now,
                proxy_pause: now,
                direct_pause: now,
                consec_403: 0,
                consec_ok: 0,
                cooldown_rounds: 0,
                refreshing: false,
            }),
    {
        Pace {
            max_inflight: MAX_WORKERS,
            inflight: 0,
            pause_until: now,
            proxy_pause: now,
            direct_pause: now,
            consec_403: 0,
            consec_ok: 0,
            cooldown_rounds: 0,
            refreshing: false,
        }
    }

    /// Wishes to ask for a stock: granted outside a pause where a slot is free, and at the lowest
    /// level after the interval between two requests.
    pub fn acquire_slot(&mut self, now: u64, use_proxy: bool, serial_interval: u64) -> (r: Slot)
        requires
            old(self).wf(),
        ensures
            final(self).wf(),
            slot_given(*old(self), *final(self), now, use_proxy, serial_interval, r),
            r is Granted ==> final(self).inflight <= final(self).max_inflight,
    {
        let path = if use_proxy {
            self.proxy_pause
        } else {
            self.direct_pause
        };
        let until: u64 = if self.pause_until > path {
            self.pause_until
        } else {
            path
        };
        if now < until {
            let rest: u64 = until - now;
            if rest < MAX_NAP {
                Slot::Wait(rest)
            } else {
                Slot::Wait(MAX_NAP)
            }
        } else if self.inflight < self.max_inflight {
            self.inflight = self.inflight + 1;
            if self.max_inflight == 1 {
                Slot::Granted(serial_interval)
            } else {
                Slot::Granted(0)
            }
        } else {
            Slot::Wait(SHORT_NAP)
        }
    }

    /// Gives a slot back.
    pub fn release_slot(&mut self)
        requires
            old(self).wf(),
        ensures
            final(self).wf(),
            *final(self) == slot_back(*old(self)),
    {
        if self.inflight > 0 {
            self.inflight = self.inflight - 1;
        }
    }

    /// Counts a success. After enough in a row the level rises; gives the new one.
    pub fn note_success(&mut self) -> (r: Option<usize>)
        requires
            old(self).wf(),
            old(self).consec_ok < usize::MAX,
        ensures
            final(self).wf(),
            *final(self) == after_success(*old(self)),
            r == if rises(*old(self)) {
                Some(final(self).max_inflight)
            } else {
                None
            },
    {
        self.consec_403 = 0;
        self.consec_ok = self.consec_ok + 1;
        if self.consec_ok >= RAMP_OK && self.max_inflight < MAX_WORKERS {
            let next: usize = if self.max_inflight == 1 {
                4
            } else if self.max_inflight == 4 {
                8
            } else {
                MAX_WORKERS
            };
            self.max_inflight = next;
            self.consec_ok = 0;
            Some(next)
        } else {
            None
        }
    }

    /// Notes a failure that is no refusal.
    pub fn note_failure(&mut self)
        requires
            old(self).wf(),
        ensures
            final(self).wf(),
            *final(self) == (Pace { consec_403: 0, ..*old(self) }),
    {
        self.consec_403 = 0;
    }

    /// Takes in a refusal: the level falls, everything pauses, and the path by which the refusal
    /// came pauses for half a minute. At the lowest level a second refusal in a row asks for a
    /// new cookie, one at a time. So many refusals in a row that the pause becomes long begin a
    /// round; once all rounds are used the crawl gives up.
    pub fn handle_403(&mut self, now: u64, use_proxy: bool) -> (r: Slowdown)
        requires
            old(self).wf(),
            now + 30 * SECOND <= u64::MAX,
            old(self).consec_403 < usize::MAX,
        ensures
            final(self).wf(),
            *final(self) == refused(*old(self), now as int, use_proxy),
            r == slowdown_of(*old(self)),
            // Cookies are got one at a time, and the rounds stay within their number.
            r.next is Refresh ==> {
                &&& !old(self).refreshing && final(self).refreshing
                &&& old(self).cooldown_rounds <= final(self).cooldown_rounds <= MAX_COOLDOWNS
            },
    {
        self.consec_ok = 0;
        self.consec_403 = self.consec_403 + 1;
        let from: usize = self.max_inflight;
        if self.max_inflight > 4 {
            self.max_inflight = 4;
        } else if self.max_inflight > 1 {
            self.max_inflight = 1;
        }
        let to: usize = self.max_inflight;
        let pause: u64 = if to == 1 {
            20
        } else {
            8
        };
        self.pause_until = now + pause * SECOND;
        if use_proxy {
            self.proxy_pause = now + 30 * SECOND;
        } else {
            self.direct_pause = now + 30 * SECOND;
        }
        let next = if to == 1 && !self.refreshing && self.consec_403 >= 2 {
            if self.cooldown_rounds >= MAX_COOLDOWNS {
                AfterRefusal::GiveUp
            } else {
                self.refreshing = true;
                let long_cool = self.consec_403 >= CONSEC_403_THRESHOLD;
                if long_cool {
                    self.cooldown_rounds = self.cooldown_rounds + 1;
                }
                AfterRefusal::Refresh { long_cool }
            }
        } else {
            AfterRefusal::GoOn
        };
        Slowdown { from, to, pause, next }
    }

    /// Ends the try to get a cookie. The refusals are counted anew where it came or the long
    /// pause was made; else they go on being refusals in a row.
    pub fn refreshed(&mut self, got: bool, long_cool: bool)
        requires
            old(self).wf(),
        ensures
            final(self).wf(),
            *final(self) == after_refresh(*old(self), got, long_cool),
    {
        self.refreshing = false;
        if got || long_cool {
            self.consec_403 = 0;
        }
    }
}

/// The pace after one more refusal, where no cookie comes.
pub open spec fn after_refusal(p: Pace, now: int, use_proxy: bool) -> Pace {
    match slowdown_of(p).next {
        AfterRefusal::Refresh { long_cool } => after_refresh(
            refused(p, now, use_proxy),
            false,
            long_cool,
        ),
        _ => refused(p, now, use_proxy),
    }
}

/// The pace after refusals in a row, each with its time and its path.
pub open spec fn after_refusals(p: Pace, list: Seq<(int, bool)>) -> Pace
    decreases list.len(),
{
    if list.len() == 0 {
        p
    } else {
        after_refusal(after_refusals(p, list.drop_last()), list.last().0, list.last().1)
    }
}

/// The refusals in a row that use up all rounds that are left.
pub open spec fn refusals_left(p: Pace) -> int {
    CONSEC_403_THRESHOLD * (MAX_COOLDOWNS - p.cooldown_rounds)
}

proof fn refusals_are_counted(p: Pace, list: Seq<(int, bool)>)
    requires
        is_level(p.max_inflight as int),
        p.consec_403 == 0,
        !p.refreshing,
        p.cooldown_rounds <= MAX_COOLDOWNS,
        list.len() <= refusals_left(p) + 1,
    ensures
        ({
            let q = after_refusals(p, list);
            &&& q.consec_403 == list.len() % 8
            &&& !q.refreshing
            &&& q.cooldown_rounds == p.cooldown_rounds + list.len() / 8
            &&& is_level(q.max_inflight as int)
            &&& list.len() >= 1 ==> q.max_inflight <= 4
            &&& list.len() >= 2 ==> q.max_inflight == 1
        }),
    decreases list.len(),
{
    if list.len() > 0 {
        refusals_are_counted(p, list.drop_last());
    }
}

/// Eight refusals in a row, with no success between them and no cookie that comes, bring the long
/// pause, as long as a round is left: the crawl cools down for that time and then runs again,
/// with its refusals counted anew.
pub proof fn eight_refusals_bring_the_long_pause(p: Pace, list: Seq<(int, bool)>)
    requires
        is_level(p.max_inflight as int),
        p.consec_403 == 0,
        !p.refreshing,
        p.cooldown_rounds < MAX_COOLDOWNS,
        list.len() == CONSEC_403_THRESHOLD - 1,
    ensures
        ({
            let before = after_refusals(p, list);
            let eighth = slowdown_of(before);
            &&& eighth.next == (AfterRefusal::Refresh { long_cool: true })
            &&& refused_status(eighth) == CrawlStatus::Cooling
            &&& pause_after_refresh(false, true) == COOLDOWN_SEC
            &&& status_after_wait(refused_status(eighth), false) == CrawlStatus::Running
            &&& forall|now: int, use_proxy: bool| #[trigger]
                after_refusal(before, now, use_proxy).consec_403 == 0
        }),
{
    refusals_are_counted(p, list);
}

/// Refusals that go on and on, with no cookie that comes, bring a long pause with every eighth,
/// for as many rounds as are left; then the second one gives up, and none before.
pub proof fn the_rounds_end(p: Pace, list: Seq<(int, bool)>)
    requires
        is_level(p.max_inflight as int),
        p.consec_403 == 0,
        !p.refreshing,
        p.cooldown_rounds <= MAX_COOLDOWNS,
        list.len() <= refusals_left(p) + 1,
    ensures
        ({
            let next = slowdown_of(after_refusals(p, list)).next;
            &&& next == (AfterRefusal::Refresh { long_cool: true }) <==> (list.len() + 1) % 8 == 0
            &&& next == AfterRefusal::GiveUp <==> list.len() == refusals_left(p) + 1
        }),
{
    refusals_are_counted(p, list);
}

/// Two refusals in a row bring the pace to the lowest level, from any other; and three rises
/// bring it from there back to the highest.
pub proof fn levels_fall_fast_and_rise_slowly(n: int)
    requires
        is_level(n),
    ensures
        slower(slower(n)) == 1,
        faster(faster(faster(1))) == MAX_WORKERS,
        is_level(slower(n)) && is_level(faster(n)),
        slower(n) <= n <= faster(n),
{
}

/// Successes one after another.
pub open spec fn after_successes(p: Pace, n: nat) -> Pace
    decreases n,
{
    if n == 0 {
        p
    } else {
        after_success(after_successes(p, (n - 1) as nat))
    }
}

proof fn few_successes(p: Pace, n: nat)
    requires
        is_level(p.max_inflight as int),
        p.max_inflight < MAX_WORKERS,
        p.consec_ok == 0,
        p.consec_403 == 0,
        n < RAMP_OK,
    ensures
        after_successes(p, n) == (Pace { consec_ok: n as usize, ..p }),
    decreases n,
{
    if n > 0 {
        few_successes(p, (n - 1) as nat);
    }
}

proof fn successes_add_up(p: Pace, m: nat, n: nat)
    ensures
        after_successes(p, m + n) == after_successes(after_successes(p, m), n),
    decreases n,
{
    if n > 0 {
        successes_add_up(p, m, (n - 1) as nat);
    }
}

proof fn enough_successes(p: Pace)
    requires
        is_level(p.max_inflight as int),
        p.max_inflight < MAX_WORKERS,
        p.consec_ok == 0,
        p.consec_403 == 0,
    ensures
        after_successes(p, RAMP_OK as nat) == (Pace {
            max_inflight: faster(p.max_inflight as int) as usize,
            ..p
        }),
{
    few_successes(p, (RAMP_OK - 1) as nat);
}

/// From the lowest level, three times as many successes in a row as a rise takes bring the pace
/// back to the highest, and nothing else changes.
pub proof fn successes_restore_the_pace(p: Pace)
    requires
        p.max_inflight == 1,
        p.consec_ok == 0,
        p.consec_403 == 0,
    ensures
        after_successes(p, (3 * RAMP_OK) as nat) == (Pace { max_inflight: MAX_WORKERS, ..p }),
{
    let n = RAMP_OK as nat;
    enough_successes(p);
    let second = after_successes(p, n);
    enough_successes(second);
    let third = after_successes(second, n);
    enough_successes(third);
    successes_add_up(p, n, n);
    successes_add_up(p, n + n, n);
    assert(n + n + n == (3 * RAMP_OK) as nat);
}

// ---------------------------------------------------------------- refusals

/// A failure that says that the visitor was turned away.
pub open spec fn tells_refusal(msg: Seq<char>) -> bool {
    holds(msg, "403"@) || holds(msg, "Forbidden"@) || holds(msg, "CHALLENGE"@) || holds(
        msg,
        "验证"@,
    )
}

/// A refusal is told by its words, and so is a page that asks the visitor to prove to be human,
/// after however many tries: both slow the crawl down.
pub proof fn refusals_and_challenges_are_told(tries: nat)
    ensures
        "HTTP "@ + decimal(403) == "HTTP 403"@,
        tells_refusal("HTTP 403"@),
        tells_refusal(given_up(tries, "命中反爬验证页(CHALLENGE)"@)),
{
    reveal_strlit("HTTP ");
    reveal_strlit("HTTP 403");
    reveal_with_fuel(decimal, 4);
    assert("HTTP "@ + decimal(403) =~= "HTTP 403"@);
    reveal_strlit("403");
    reveal_strlit("CHALLENGE");
    reveal_strlit("命中反爬验证页(CHALLENGE)");
    assert("HTTP 403"@.subrange(5, 8) =~= "403"@);
    assert(stands_at("HTTP 403"@, "403"@, 5));
    let error = "命中反爬验证页(CHALLENGE)"@;
    let head = "抓取失败，已重试 "@ + decimal(tries) + " 次: "@;
    let said = given_up(tries, error);
    assert(said =~= head + error);
    let at = head.len() as int + 8;
    assert(said.subrange(at, at + 9) =~= "CHALLENGE"@);
    assert(stands_at(said, "CHALLENGE"@, at));
}

/// Whether a failure says that the visitor was turned away.
pub fn is_403(msg: &str) -> (r: bool)
    ensures
        r == tells_refusal(msg@),
{
    contains(msg, "403") || contains(msg, "Forbidden") || contains(msg, "CHALLENGE") || contains(
        msg,
        "验证",
    )
}

/// What the log says where the level fell.
pub open spec fn slowdown_text(s: Slowdown) -> Option<Seq<char>> {
    if s.to < s.from {
        Some(
            "遇 403，并发从 "@ + decimal(s.from as nat) + " 路降到 "@ + decimal(s.to as nat)
                + " 路，暂停 "@ + decimal(s.pause as nat) + "s"@,
        )
    } else {
        None
    }
}

fn slowdown_line(s: &Slowdown) -> (r: Option<String>)
    ensures
        text_view(r) == slowdown_text(*s),
{
    if s.to < s.from {
        let mut line = "遇 403，并发从 ".to_string();
        line.append(&write_usize(s.from));
        line.append(" 路降到 ");
        line.append(&write_usize(s.to));
        line.append(" 路，暂停 ");
        line.append(&write_u64(s.pause));
        line.append("s");
        Some(line)
    } else {
        None
    }
}

/// The status after a refusal.
pub open spec fn refused_status(s: Slowdown) -> CrawlStatus {
    if s.next is GiveUp {
        CrawlStatus::Error
    } else {
        CrawlStatus::Cooling
    }
}

/// The status line after a refusal.
pub open spec fn refused_message(s: Slowdown) -> Seq<char> {
    if s.next is GiveUp {
        "连续冷却 "@ + decimal(MAX_COOLDOWNS as nat) + " 次仍遭 403，判定为持久封禁"@
    } else {
        decimal(s.to as nat) + "路（403降速）"@
    }
}

fn refusal_status(s: &Slowdown) -> (r: (CrawlStatus, String))
    ensures
        r.0 == refused_status(*s),
        r.1@ == refused_message(*s),
{
    match s.next {
        AfterRefusal::GiveUp => {
            let mut msg = "连续冷却 ".to_string();
            msg.append(&write_usize(MAX_COOLDOWNS));
            msg.append(" 次仍遭 403，判定为持久封禁");
            (CrawlStatus::Error, msg)
        },
        _ => {
            let mut msg = write_usize(s.to);
            msg.append("路（403降速）");
            (CrawlStatus::Cooling, msg)
        },
    }
}

/// The seconds to wait after a new cookie was asked for: a few where it came, else twenty or the
/// long pause.
pub open spec fn pause_after_refresh(refreshed: bool, long_cool: bool) -> int {
    if refreshed {
        5
    } else if long_cool {
        COOLDOWN_SEC as int
    } else {
        20
    }
}

/// The seconds to wait after a new cookie was asked for.
pub fn refresh_pause(refreshed: bool, long_cool: bool) -> (r: u64)
    ensures
        r == pause_after_refresh(refreshed, long_cool),
{
    if refreshed {
        5
    } else if long_cool {
        COOLDOWN_SEC
    } else {
        20
    }
}

/// What the log says before that wait, where it says anything.
pub fn refresh_line(refreshed: bool, long_cool: bool) -> (r: Option<String>)
    ensures
        text_view(r) == if refreshed {
            Some("[B] Cookie 已刷新，5 秒后继续"@)
        } else if long_cool {
            Some("[B] 刷新失败，冷却 "@ + decimal(COOLDOWN_SEC as nat) + "s"@)
        } else {
            None
        },
{
    if refreshed {
        Some("[B] Cookie 已刷新，5 秒后继续".to_string())
    } else if long_cool {
        let mut s = "[B] 刷新失败，冷却 ".to_string();
        s.append(&write_u64(COOLDOWN_SEC));
        s.append("s");
        Some(s)
    } else {
        None
    }
}

/// Whether the output of the cookie script says that it succeeded.
pub fn refresh_succeeded(stdout: &str) -> (r: bool)
    ensures
        r == holds(stdout@, "OK"@),
{
    contains(stdout, "OK")
}

// ---------------------------------------------------------------- workers

/// The limiter of a worker, which holds nothing back: the pace does.
pub fn free_limiter(now: u64) -> (r: RateLimiter)
    ensures
        r.fits(now),
        r == (RateLimiter {
            min_interval: 0,
            max_per_minute: 1_000_000,
            jitter: 0,
            rate_wait_cap: Some(0),
            rate_window: SECOND,
            interval_jitter_extra: 0,
            micro_break_every: 0,
            micro_break_min: 0,
            micro_break_max: 0,
            last: now,
            window_start: now,
            count: 0,
            req_count: 0,
        }),
{
    RateLimiter::new_ex(now, 0, 1_000_000, 0, 0, 0, 0, 0, Some(0), SECOND)
}

/// The way of a worker: whether its client is the one with the proxy, and on which path it
/// pauses.
#[derive(Debug, Clone, Copy, PartialEq, Eq)]
pub struct Exit {
    pub proxy_client: bool,
    pub use_proxy: bool,
}

/// The way of a worker: with two ways every second worker takes the proxy, else all take the one
/// there is.
pub open spec fn exit_of(worker: int, dual: bool, has_proxy: bool) -> Exit {
    if dual {
        Exit { proxy_client: worker % 2 == 0 && has_proxy, use_proxy: worker % 2 == 0 }
    } else {
        Exit { proxy_client: has_proxy, use_proxy: has_proxy }
    }
}

/// The way of the worker of a number. With two ways every other worker takes the proxy; else all
/// take it where there is one.
pub fn worker_exit(worker: usize, dual: bool, has_proxy: bool) -> (r: Exit)
    ensures
        r == exit_of(worker as int, dual, has_proxy),
{
    if dual {
        if worker % 2 == 0 {
            Exit { proxy_client: has_proxy, use_proxy: true }
        } else {
            Exit { proxy_client: false, use_proxy: false }
        }
    } else {
        Exit { proxy_client: has_proxy, use_proxy: has_proxy }
    }
}

/// What the log says of a stock that failed.
pub open spec fn failed_text(use_proxy: bool, code: Seq<char>, error: Seq<char>) -> Seq<char> {
    "["@ + (if use_proxy {
        "代理"@
    } else {
        "直连"@
    }) + "] 股票 "@ + code + " 抓取失败: "@ + error
}

fn failed_line(use_proxy: bool, code: &str, error: &str) -> (r: String)
    ensures
        r@ == failed_text(use_proxy, code@, error@),
{
    let mut s = "[".to_string();
    if use_proxy {
        s.append("代理");
    } else {
        s.append("直连");
    }
    s.append("] 股票 ");
    s.append(code);
    s.append(" 抓取失败: ");
    s.append(error);
    s
}

/// What the log says where the level rose.
pub open spec fn ramp_text(next: int) -> Seq<char> {
    "连续成功，恢复到 "@ + decimal(next as nat) + " 路并发"@
}

fn ramp_line(next: usize) -> (r: String)
    ensures
        r@ == ramp_text(next as int),
{
    let mut s = "连续成功，恢复到 ".to_string();
    s.append(&write_usize(next));
    s.append(" 路并发");
    s
}

// ---------------------------------------------------------------- what becomes of a stock

/// How many stocks came, and how many failed.
#[derive(Debug, Clone, Copy, PartialEq, Eq)]
pub struct Tally {
    pub done: usize,
    pub failed: usize,
}

/// How many visits came to something, and how many failed.
pub struct TallyView {
    pub done: nat,
    pub failed: nat,
}

impl View for Tally {
    type V = TallyView;

    open spec fn view(&self) -> TallyView {
        TallyView { done: self.done as nat, failed: self.failed as nat }
    }
}

/// A visit counts once: what it brought is kept, or it failed.
pub open spec fn tallied(tally: TallyView, came: bool) -> TallyView {
    if came {
        TallyView { done: tally.done + 1, ..tally }
    } else {
        TallyView { failed: tally.failed + 1, ..tally }
    }
}

/// A problem with a stock at Baidu.
pub open spec fn baidu_problem(stock: StockRef, kind: Seq<char>, detail: Seq<char>) -> ProblemView {
    problem(kind, stock.code@, stock.name@, detail, page_links(stock.code@, true, false))
}

/// The problems have one more.
pub open spec fn adds_problem(
    after: Seq<ProblemItem>,
    before: Seq<ProblemItem>,
    p: ProblemView,
) -> bool {
    &&& after.len() == before.len() + 1
    &&& after.drop_last() == before
    &&& after.last()@ == p
}

/// Lines with their time in front, behind those before.
pub open spec fn logs_more(
    before: Seq<String>,
    stamp: Seq<char>,
    lines: Seq<Seq<char>>,
) -> Seq<Seq<char>> {
    views(before) + lines.map_values(|l: Seq<char>| stamped(stamp, l))
}

pub open spec fn one_line(line: Option<Seq<char>>) -> Seq<Seq<char>> {
    match line {
        Some(l) => seq![l],
        None => Seq::empty(),
    }
}

pub(crate) fn note_baidu(state: &mut AppState, stamp: &str, stock: &StockRef, kind: &str,
    detail: &str)
    requires
        old(state).wf(),
    ensures
        final(state).wf(),
        *final(state) == (AppState {
            logs: final(state).logs,
            problems: final(state).problems,
            ..*old(state)
        }),
        adds_problem(
            final(state).problems@,
            old(state).problems@,
            baidu_problem(*stock, kind@, detail@),
        ),
        views(final(state).logs@) == views(old(state).logs@).push(
            stamped(stamp@, problem_line(baidu_problem(*stock, kind@, detail@))),
        ),
{
    let sources: [&str; 1] = ["baidu"];
    proof {
        source_names();
        one_source_is_named(sources@, "baidu"@, "em"@);
    }
    state.note_problem(stamp, kind, &stock.code, &stock.name, detail, &sources);
}

/// Takes in a stock that failed: it is logged, noted as a problem and counted. A refusal slows
/// the crawl down, and is logged where the level fell; any other failure ends a row of refusals.
pub fn on_visit_failed(
    state: &mut AppState,
    pace: &mut Pace,
    tally: &mut Tally,
    stock: &StockRef,
    error: &str,
    use_proxy: bool,
    now: u64,
    stamp: &str,
) -> (r: Option<Slowdown>)
    requires
        old(state).wf(),
        old(pace).wf(),
        old(tally).failed < usize::MAX,
        now + 30 * SECOND <= u64::MAX,
        old(pace).consec_403 < usize::MAX,
    ensures
        final(state).wf(),
        final(pace).wf(),
        final(tally)@ == tallied(old(tally)@, false),
        *final(pace) == if tells_refusal(error@) {
            refused(*old(pace), now as int, use_proxy)
        } else {
            Pace { consec_403: 0, ..*old(pace) }
        },
        r == if tells_refusal(error@) {
            Some(slowdown_of(*old(pace)))
        } else {
            None
        },
        *final(state) == (AppState {
            logs: final(state).logs,
            problems: final(state).problems,
            status: if tells_refusal(error@) {
                refused_status(slowdown_of(*old(pace)))
            } else {
                old(state).status
            },
            status_msg: final(state).status_msg,
            consecutive_403: final(pace).consec_403,
            done: final(tally).done,
            failed: final(tally).failed,
            ..*old(state)
        }),
        final(state).status_msg@ == if tells_refusal(error@) {
            refused_message(slowdown_of(*old(pace)))
        } else {
            old(state).status_msg@
        },
        adds_problem(
            final(state).problems@,
            old(state).problems@,
            baidu_problem(*stock, "抓取失败"@, error@),
        ),
        views(final(state).logs@) == logs_more(
            old(state).logs@,
            stamp@,
            seq![
                failed_text(use_proxy, stock.code@, error@),
                problem_line(baidu_problem(*stock, "抓取失败"@, error@)),
            ] + one_line(
                if tells_refusal(error@) {
                    slowdown_text(slowdown_of(*old(pace)))
                } else {
                    None
                },
            ),
        ),
{
    let ghost before = views(state.logs@);
    let line = failed_line(use_proxy, &stock.code, error);
    state.push_log(stamp, &line);
    note_baidu(state, stamp, stock, "抓取失败", error);
    tally.failed = tally.failed + 1;
    let ghost two = views(state.logs@);
    let slowdown = if is_403(error) {
        let s = pace.handle_403(now, use_proxy);
        match slowdown_line(&s) {
            Some(l) => {
                state.push_log(stamp, &l);
            },
            None => {},
        }
        let (status, msg) = refusal_status(&s);
        state.status = status;
        state.status_msg = msg;
        Some(s)
    } else {
        pace.note_failure();
        None
    };
    state.consecutive_403 = pace.consec_403;
    state.done = tally.done;
    state.failed = tally.failed;
    proof {
        let lines = seq![
            failed_text(use_proxy, stock.code@, error@),
            problem_line(baidu_problem(*stock, "抓取失败"@, error@)),
        ] + one_line(
            if tells_refusal(error@) {
                slowdown_text(slowdown_of(*old(pace)))
            } else {
                None
            },
        );
        assert(views(state.logs@) =~= logs_more(old(state).logs@, stamp@, lines));
    }
    slowdown
}

/// What is noted of a stock of which nothing came.
pub const EMPTY_VISIT: &'static str = "本次未拿到数据（不是确认源站无数据）";

/// Takes in a stock that came: one without an analysis is noted as a problem before it is
/// written.
pub fn on_visit_came(state: &mut AppState, stock: &StockRef, has_analysis: bool, stamp: &str)
    requires
        old(state).wf(),
    ensures
        final(state).wf(),
        has_analysis ==> *final(state) == *old(state),
        !has_analysis ==> {
            &&& *final(state) == (AppState {
                logs: final(state).logs,
                problems: final(state).problems,
                ..*old(state)
            })
            &&& adds_problem(
                final(state).problems@,
                old(state).problems@,
                baidu_problem(*stock, "未拿到数据"@, EMPTY_VISIT@),
            )
            &&& views(final(state).logs@) == logs_more(
                old(state).logs@,
                stamp@,
                seq![problem_line(baidu_problem(*stock, "未拿到数据"@, EMPTY_VISIT@))],
            )
        },
{
    if !has_analysis {
        note_baidu(state, stamp, stock, "未拿到数据", EMPTY_VISIT);
        assert(views(state.logs@) =~= logs_more(
            old(state).logs@,
            stamp@,
            seq![problem_line(baidu_problem(*stock, "未拿到数据"@, EMPTY_VISIT@))],
        ));
    }
}

/// Takes in a stock that could not be written.
pub fn on_save_failed(
    state: &mut AppState,
    pace: &Pace,
    tally: &mut Tally,
    stock: &StockRef,
    error: &str,
    stamp: &str,
)
    requires
        old(state).wf(),
        old(tally).failed < usize::MAX,
    ensures
        final(state).wf(),
        final(tally)@ == tallied(old(tally)@, false),
        *final(state) == (AppState {
            logs: final(state).logs,
            problems: final(state).problems,
            consecutive_403: pace.consec_403,
            done: final(tally).done,
            failed: final(tally).failed,
            ..*old(state)
        }),
        adds_problem(
            final(state).problems@,
            old(state).problems@,
            baidu_problem(*stock, "落库失败"@, "保存失败: "@ + error@),
        ),
        views(final(state).logs@) == logs_more(
            old(state).logs@,
            stamp@,
            seq![problem_line(baidu_problem(*stock, "落库失败"@, "保存失败: "@ + error@))],
        ),
{
    let mut detail = "保存失败: ".to_string();
    detail.append(error);
    note_baidu(state, stamp, stock, "落库失败", &detail);
    assert(views(state.logs@) =~= logs_more(
        old(state).logs@,
        stamp@,
        seq![problem_line(baidu_problem(*stock, "落库失败"@, "保存失败: "@ + error@))],
    ));
    tally.failed = tally.failed + 1;
    state.consecutive_403 = pace.consec_403;
    state.done = tally.done;
    state.failed = tally.failed;
}

/// Takes in a stock that was written: it is counted, and where the level rises with it that is
/// logged, and a crawl that cooled down runs again.
pub fn on_visit_saved(state: &mut AppState, pace: &mut Pace, tally: &mut Tally, stamp: &str)
    requires
        old(state).wf(),
        old(pace).wf(),
        old(pace).consec_ok < usize::MAX,
        old(tally).done < usize::MAX,
    ensures
        final(state).wf(),
        final(pace).wf(),
        final(tally)@ == tallied(old(tally)@, true),
        *final(pace) == after_success(*old(pace)),
        *final(state) == (AppState {
            logs: final(state).logs,
            status: if rises(*old(pace)) && old(state).status == CrawlStatus::Cooling {
                CrawlStatus::Running
            } else {
                old(state).status
            },
            status_msg: final(state).status_msg,
            consecutive_403: 0,
            done: final(tally).done,
            failed: final(tally).failed,
            ..*old(state)
        }),
        final(state).status_msg@ == if rises(*old(pace)) {
            decimal(faster(old(pace).max_inflight as int) as nat) + "路并发"@
        } else {
            old(state).status_msg@
        },
        views(final(state).logs@) == logs_more(
            old(state).logs@,
            stamp@,
            one_line(
                if rises(*old(pace)) {
                    Some(ramp_text(faster(old(pace).max_inflight as int)))
                } else {
                    None
                },
            ),
        ),
{
    tally.done = tally.done + 1;
    match pace.note_success() {
        Some(next) => {
            let line = ramp_line(next);
            state.push_log(stamp, &line);
            let mut msg = write_usize(next);
            msg.append("路并发");
            state.status_msg = msg;
            if state.status == CrawlStatus::Cooling {
                state.status = CrawlStatus::Running;
            }
        },
        None => {},
    }
    state.consecutive_403 = pace.consec_403;
    state.done = tally.done;
    state.failed = tally.failed;
    assert(views(state.logs@) =~= logs_more(
        old(state).logs@,
        stamp@,
        one_line(
            if rises(*old(pace)) {
                Some(ramp_text(faster(old(pace).max_inflight as int)))
            } else {
                None
            },
        ),
    ));
}

/// What the log says of a stock that lacks data.
pub open spec fn lack_line(stock: StockRef, detail: Seq<char>) -> Seq<char> {
    "⚠ [完整性] "@ + stock.code@ + " ("@ + stock.name@ + ") "@ + detail
}

/// Takes in what the database has of a stock that was written. One that lacks as much as the
/// threshold or more goes onto the list to look into, and is logged and noted as a problem.
pub fn on_reviewed(
    state: &mut AppState,
    list: &mut CheckList,
    stock: &StockRef,
    found: Completeness,
    threshold: usize,
    max_tries: i64,
    stamp: &str,
)
    requires
        old(state).wf(),
    ensures
        final(state).wf(),
        final(list).trade_date == old(list).trade_date,
        final(list).updated_at == old(list).updated_at,
        found.missing().len() < threshold ==> {
            &&& *final(state) == *old(state)
            &&& final(list).items == old(list).items
        },
        found.missing().len() >= threshold ==> {
            let detail = lack_text(found.missing());
            &&& exists|item: CheckItem|
                {
                    &&& #[trigger] with_item(old(list).items@, item) == final(list).items@
                    &&& lacks(
                        item,
                        stock.code@,
                        stock.name@,
                        found.missing(),
                        tries_of(old(list).items@, stock.code@),
                        last_try_of(old(list).items@, stock.code@),
                        max_tries as int,
                    )
                }
            &&& *final(state) == (AppState {
                logs: final(state).logs,
                problems: final(state).problems,
                ..*old(state)
            })
            &&& adds_problem(
                final(state).problems@,
                old(state).problems@,
                baidu_problem(*stock, "数据不完整"@, detail),
            )
            &&& views(final(state).logs@) == logs_more(
                old(state).logs@,
                stamp@,
                seq![
                    lack_line(*stock, detail),
                    problem_line(baidu_problem(*stock, "数据不完整"@, detail)),
                ],
            )
        },
{
    match list.review(&stock.code, &stock.name, found, threshold, max_tries) {
        Some(detail) => {
            let mut line = "⚠ [完整性] ".to_string();
            line.append(&stock.code);
            line.append(" (");
            line.append(&stock.name);
            line.append(") ");
            line.append(&detail);
            state.push_log(stamp, &line);
            note_baidu(state, stamp, stock, "数据不完整", &detail);
            assert(views(state.logs@) =~= logs_more(
                old(state).logs@,
                stamp@,
                seq![
                    lack_line(*stock, detail@),
                    problem_line(baidu_problem(*stock, "数据不完整"@, detail@)),
                ],
            ));
        },
        None => {},
    }
}

/// Takes in that it could not be found out what the database has of a stock.
pub fn on_review_failed(state: &mut AppState, stock: &StockRef, error: &str, stamp: &str)
    requires
        old(state).wf(),
    ensures
        final(state).wf(),
        *final(state) == (AppState {
            logs: final(state).logs,
            problems: final(state).problems,
            ..*old(state)
        }),
        adds_problem(
            final(state).problems@,
            old(state).problems@,
            baidu_problem(*stock, "数据不完整"@, "完整性检查失败: "@ + error@),
        ),
        views(final(state).logs@) == logs_more(
            old(state).logs@,
            stamp@,
            seq![problem_line(baidu_problem(*stock, "数据不完整"@, "完整性检查失败: "@ + error@))],
        ),
{
    let mut detail = "完整性检查失败: ".to_string();
    detail.append(error);
    note_baidu(state, stamp, stock, "数据不完整", &detail);
    assert(views(state.logs@) =~= logs_more(
        old(state).logs@,
        stamp@,
        seq![problem_line(baidu_problem(*stock, "数据不完整"@, "完整性检查失败: "@ + error@))],
    ));
}

/// The status once the wait is over.
pub open spec fn status_after_wait(status: CrawlStatus, stopped: bool) -> CrawlStatus {
    if stopped {
        status
    } else {
        CrawlStatus::Running
    }
}

/// Takes in that a new cookie was asked for and the wait is over: the refusals are shown as they
/// now count, and the crawl runs again at the lowest level, unless it was stopped.
pub fn on_refreshed(
    state: &mut AppState,
    pace: &mut Pace,
    got: bool,
    long_cool: bool,
    stopped: bool,
)
    requires
        old(pace).wf(),
    ensures
        final(pace).wf(),
        *final(pace) == after_refresh(*old(pace), got, long_cool),
        *final(state) == (AppState {
            status: status_after_wait(old(state).status, stopped),
            status_msg: final(state).status_msg,
            consecutive_403: final(pace).consec_403,
            ..*old(state)
        }),
        final(state).status_msg@ == if stopped {
            old(state).status_msg@
        } else {
            "1路（403后）"@
        },
{
    pace.refreshed(got, long_cool);
    state.consecutive_403 = pace.consec_403;
    if !stopped {
        state.status = CrawlStatus::Running;
        state.status_msg = "1路（403后）".to_string();
    }
}

// ---------------------------------------------------------------- stocks

/// The stocks of a crawl: the first so many where there is a limit, else all.
pub open spec fn targets_of(codes: Seq<StockRef>, limit: Option<usize>) -> Seq<StockRef> {
    match limit {
        Some(n) if n < codes.len() => codes.take(n as int),
        _ => codes,
    }
}

/// The stocks of a run: all, or the first so many.
pub fn pick_targets(codes: &Vec<StockRef>, limit: Option<usize>) -> (r: Vec<StockRef>)
    ensures
        r@ == targets_of(codes@, limit),
{
    let n: usize = match limit {
        Some(n) => if n < codes.len() {
            n
        } else {
            codes.len()
        },
        None => codes.len(),
    };
    let mut out: Vec<StockRef> = Vec::new();
    let mut i: usize = 0;
    assert(out@ =~= codes@.take(0));
    while i < n
        invariant
            i <= n <= codes@.len(),
            out@ == codes@.take(i as int),
        decreases n - i,
    {
        let stock = StockRef { code: codes[i].code.clone(), name: codes[i].name.clone() };
        out.push(stock);
        i += 1;
        assert(out@ =~= codes@.take(i as int));
    }
    assert(codes@.take(codes@.len() as int) =~= codes@);
    out
}

/// The stocks to ask for, and how many were skipped.
#[derive(Debug, Clone, PartialEq, Eq)]
pub struct TodoList {
    pub todo: Vec<StockRef>,
    pub skipped: usize,
}

/// The stocks to visit, and how many are left out.
pub struct TodoView {
    pub todo: Seq<StockRef>,
    pub skipped: nat,
}

impl View for TodoList {
    type V = TodoView;

    open spec fn view(&self) -> TodoView {
        TodoView { todo: self.todo@, skipped: self.skipped as nat }
    }
}

/// A stock is left out, or comes last among those to visit.
pub open spec fn considered(list: TodoView, stock: StockRef, skip: bool) -> TodoView {
    if skip {
        TodoView { skipped: list.skipped + 1, ..list }
    } else {
        TodoView { todo: list.todo.push(stock), ..list }
    }
}

impl TodoList {
    pub fn new() -> (r: TodoList)
        ensures
            r@ == (TodoView { todo: Seq::empty(), skipped: 0 }),
    {
        TodoList { todo: Vec::new(), skipped: 0 }
    }

    /// Takes a stock in, or skips it for a reason; gives a line for the log where it is left
    /// alone after too many shells.
    pub fn consider(&mut self, stock: StockRef, skip: Option<&str>) -> (r: Option<String>)
        requires
            old(self).skipped < usize::MAX,
        ensures
            final(self)@ == considered(old(self)@, stock, skip is Some),
            text_view(r) == match skip {
                Some(why) => if why@ == "empty_cooldown"@ {
                    Some(stock.code@ + " 空壳冷却跳过"@)
                } else {
                    None
                },
                None => None,
            },
    {
        match skip {
            None => {
                self.todo.push(stock);
                None
            },
            Some(why) => {
                self.skipped = self.skipped + 1;
                if same(why, "empty_cooldown") {
                    let mut s = stock.code.clone();
                    s.append(" 空壳冷却跳过");
                    Some(s)
                } else {
                    None
                }
            },
        }
    }
}

/// What is to be visited after targets, each of which is left out or not.
pub open spec fn considered_all(list: TodoView, targets: Seq<(StockRef, bool)>) -> TodoView
    decreases targets.len(),
{
    if targets.len() == 0 {
        list
    } else {
        let last = targets.last();
        considered(considered_all(list, targets.drop_last()), last.0, last.1)
    }
}

/// The tally after visits, each of which came to something or failed.
pub open spec fn tallied_all(tally: TallyView, visits: Seq<bool>) -> TallyView
    decreases visits.len(),
{
    if visits.len() == 0 {
        tally
    } else {
        tallied(tallied_all(tally, visits.drop_last()), visits.last())
    }
}

proof fn visits_are_counted(tally: TallyView, visits: Seq<bool>)
    ensures
        tallied_all(tally, visits).done + tallied_all(tally, visits).failed == tally.done
            + tally.failed + visits.len(),
    decreases visits.len(),
{
    if visits.len() > 0 {
        visits_are_counted(tally, visits.drop_last());
    }
}

proof fn targets_are_counted(list: TodoView, targets: Seq<(StockRef, bool)>)
    ensures
        considered_all(list, targets).todo.len() + considered_all(list, targets).skipped
            == list.todo.len() + list.skipped + targets.len(),
        considered_all(list, targets).todo == list.todo + targets.filter(
            |t: (StockRef, bool)| !t.1,
        ).map_values(|t: (StockRef, bool)| t.0),
    decreases targets.len(),
{
    reveal(Seq::filter);
    if targets.len() > 0 {
        targets_are_counted(list, targets.drop_last());
    }
    assert(considered_all(list, targets).todo =~= list.todo + targets.filter(
        |t: (StockRef, bool)| !t.1,
    ).map_values(|t: (StockRef, bool)| t.0));
}

/// A crawl visits the targets that it does not leave out, in their order. However its visits
/// end, what it left out, what came and what failed add up to its targets, but for those that a
/// stop kept it from visiting; to all of its targets where it visited them all.
pub proof fn every_target_is_accounted_for(targets: Seq<(StockRef, bool)>, visits: Seq<bool>)
    requires
        visits.len() <= considered_all(
            TodoView { todo: Seq::empty(), skipped: 0 },
            targets,
        ).todo.len(),
    ensures
        ({
            let list = considered_all(TodoView { todo: Seq::empty(), skipped: 0 }, targets);
            let tally = tallied_all(TallyView { done: 0, failed: 0 }, visits);
            &&& list.todo == targets.filter(|t: (StockRef, bool)| !t.1).map_values(
                |t: (StockRef, bool)| t.0,
            )
            &&& list.skipped + tally.done + tally.failed == targets.len() - (list.todo.len()
                - visits.len())
            &&& visits.len() == list.todo.len() ==> list.skipped + tally.done + tally.failed
                == targets.len()
        }),
{
    let none = TodoView { todo: Seq::empty(), skipped: 0 };
    targets_are_counted(none, targets);
    visits_are_counted(TallyView { done: 0, failed: 0 }, visits);
    assert(considered_all(none, targets).todo =~= targets.filter(
        |t: (StockRef, bool)| !t.1,
    ).map_values(|t: (StockRef, bool)| t.0));
}

/// The status line while the crawl runs.
pub fn running_message(ways: &str) -> (r: String)
    ensures
        r@ == decimal(MAX_WORKERS as nat) + "路并发 "@ + ways@,
{
    let mut s = write_usize(MAX_WORKERS);
    s.append("路并发 ");
    s.append(ways);
    s
}

/// The first line of the crawl.
pub fn start_line(todo: usize, skipped: usize, ways: &str) -> (r: String)
    ensures
        r@ == "开始并发抓取："@ + decimal(MAX_WORKERS as nat) + "路，待抓 "@ + decimal(todo as nat)
            + " 已跳过 "@ + decimal(skipped as nat) + "。"@ + ways@,
{
    let mut s = "开始并发抓取：".to_string();
    s.append(&write_usize(MAX_WORKERS));
    s.append("路，待抓 ");
    s.append(&write_usize(todo));
    s.append(" 已跳过 ");
    s.append(&write_usize(skipped));
    s.append("。");
    s.append(ways);
    s
}

/// The crawl begins: all stocks that it set out with, those it leaves out, and how it goes out.
pub fn on_crawl_started(state: &mut AppState, total: usize, skipped: usize, ways: &str)
    ensures
        *final(state) == (AppState {
            total,
            skipped,
            status: CrawlStatus::Running,
            status_msg: final(state).status_msg,
            ..*old(state)
        }),
        final(state).status_msg@ == decimal(MAX_WORKERS as nat) + "路并发 "@ + ways@,
{
    state.total = total;
    state.skipped = skipped;
    state.enter(CrawlStatus::Running, running_message(ways));
}

/// A visit goes on to a request, or is over.
pub fn on_request(state: &mut AppState, next: Option<Endpoint>)
    ensures
        *final(state) == (AppState { current_endpoint: final(state).current_endpoint,
            ..*old(state) }),
        final(state).current_endpoint@ == match next {
            Some(e) => label_of_request(e),
            None => "完成"@,
        },
{
    match next {
        Some(e) => state.show_endpoint(endpoint_label(e)),
        None => state.show_endpoint("完成".to_string()),
    }
}

/// What is told of a failure that is not of the network.
pub const SOURCE_HINT: &'static str = "未拿到不等于源站确认无数据。请打开源站，看页面上有没有对应内容、是否和本次结果一致。";

/// The notice of a failure, with the links to check it by.
pub fn ask_notice(code: &str, name: &str, detail: &str, sources: &[&str]) -> (r: ErrorNotice)
    ensures
        r@.kind == kind_of(detail@),
        r@.code == code@,
        r@.name == name@,
        r@.detail == detail@,
        r@.hint == if kind_of(detail@) == "网络错误"@ {
            NETWORK_HINT@
        } else {
            SOURCE_HINT@
        },
        r@.links == all_links(code@, names(sources@, "baidu"@), names(sources@, "em"@)),
{
    let kind = classify_kind(detail);
    let hint = if same(&kind, "网络错误") {
        network_hint().to_string()
    } else {
        SOURCE_HINT.to_string()
    };
    ErrorNotice {
        kind,
        code: code.to_string(),
        name: name.to_string(),
        detail: detail.to_string(),
        hint,
        links: source_verify_links(code, sources),
    }
}

/// The notice where the database does not open.
pub fn db_open_notice(error: &str) -> (r: ErrorNotice)
    ensures
        r@.kind == "落库失败"@,
        r@.code.len() == 0,
        r@.name == "数据库"@,
        r@.detail == "打开数据库失败: "@ + error@,
        r@.hint == "检查 exe 旁的 market_data.db 路径是否可写，磁盘是否满。"@,
        r@.links.len() == 0,
{
    let mut detail = "打开数据库失败: ".to_string();
    detail.append(error);
    ErrorNotice {
        kind: "落库失败".to_string(),
        code: String::new(),
        name: "数据库".to_string(),
        detail,
        hint: "检查 exe 旁的 market_data.db 路径是否可写，磁盘是否满。".to_string(),
        links: Vec::new(),
    }
}

/// The status after a start that failed was answered.
pub fn status_after_failed_start(ack: UserAck) -> (r: CrawlStatus)
    ensures
        r == if ack == UserAck::Stop {
            CrawlStatus::Stopped
        } else {
            CrawlStatus::Error
        },
{
    match ack {
        UserAck::Stop => CrawlStatus::Stopped,
        _ => CrawlStatus::Error,
    }
}

/// A crawl could not start, and the user answered.
pub fn on_failed_start(state: &mut AppState, ack: UserAck, message: &str)
    ensures
        final(state).stands_at(
            *old(state),
            if ack == UserAck::Stop {
                CrawlStatus::Stopped
            } else {
                CrawlStatus::Error
            },
            message@,
        ),
{
    state.enter(status_after_failed_start(ack), message.to_string());
}

pub open spec fn finished_text(done: nat, skipped: nat, failed: nat) -> Seq<char> {
    "完成: 新增 "@ + decimal(done) + " 跳过 "@ + decimal(skipped) + " 失败 "@ + decimal(failed)
}

/// Status and status line at the end: an error and a stop stay, anything else is done.
pub fn finished(status: CrawlStatus, done: usize, skipped: usize, failed: usize) -> (r: Option<
    (CrawlStatus, String),
>)
    ensures
        status == CrawlStatus::Error || status == CrawlStatus::Stopped ==> r is None,
        status != CrawlStatus::Error && status != CrawlStatus::Stopped ==> {
            &&& r matches Some(end)
            &&& end.0 == CrawlStatus::Done
            &&& end.1@ == finished_text(done as nat, skipped as nat, failed as nat)
        },
{
    if status == CrawlStatus::Error || status == CrawlStatus::Stopped {
        return None;
    }
    let mut s = "完成: 新增 ".to_string();
    s.append(&write_usize(done));
    s.append(" 跳过 ");
    s.append(&write_usize(skipped));
    s.append(" 失败 ");
    s.append(&write_usize(failed));
    Some((CrawlStatus::Done, s))
}

/// The crawl is over: done, unless it failed or was stopped.
pub fn on_crawl_ended(state: &mut AppState, done: usize, skipped: usize, failed: usize)
    ensures
        if old(state).status == CrawlStatus::Error || old(state).status == CrawlStatus::Stopped {
            *final(state) == *old(state)
        } else {
            final(state).stands_at(
                *old(state),
                CrawlStatus::Done,
                finished_text(done as nat, skipped as nat, failed as nat),
            )
        },
{
    match finished(state.status, done, skipped, failed) {
        Some((status, message)) => state.enter(status, message),
        None => {},
    }
}

/// The last line of the crawl.
pub fn end_line(done: usize, skipped: usize, failed: usize) -> (r: String)
    ensures
        r@ == "===== 全市场抓取结束 新增 "@ + decimal(done as nat) + " 跳过 "@ + decimal(
            skipped as nat,
        ) + " 失败 "@ + decimal(failed as nat) + " ====="@,
{
    let mut s = "===== 全市场抓取结束 新增 ".to_string();
    s.append(&write_usize(done));
    s.append(" 跳过 ");
    s.append(&write_usize(skipped));
    s.append(" 失败 ");
    s.append(&write_usize(failed));
    s.append(" =====");
    s
}

/// The line of the log for the list of stocks to look into.
pub fn checklist_line(abnormal: usize, path: &str) -> (r: String)
    ensures
        r@ == "待核查清单已更新: 异常 "@ + decimal(abnormal as nat) + " 支 -> "@ + path@,
{
    let mut s = "待核查清单已更新: 异常 ".to_string();
    s.append(&write_usize(abnormal));
    s.append(" 支 -> ");
    s.append(path);
    s
}

/// A refusal takes the crawl from sixteen or eight stocks at a time to four, and from four to one.
/// It pauses for eight seconds, for twenty at the lowest level, and the path that was refused for
/// thirty; the other path keeps its own pause. The count of successes begins anew.
pub proof fn a_refused_path_rests(p: Pace, now: int, use_proxy: bool)
    requires
        p.wf(),
        0 <= now,
        now + 30_000_000_000 <= u64::MAX,
        p.consec_403 < usize::MAX,
    ensures
        ({
            let q = refused(p, now, use_proxy);
            &&& p.max_inflight == 16 || p.max_inflight == 8 ==> q.max_inflight == 4
            &&& p.max_inflight == 4 || p.max_inflight == 1 ==> q.max_inflight == 1
            &&& q.pause_until == now + if q.max_inflight == 1 {
                20_000_000_000int
            } else {
                8_000_000_000int
            }
            &&& paused_until(q, use_proxy) == now + 30_000_000_000
            &&& use_proxy ==> q.direct_pause == p.direct_pause
            &&& !use_proxy ==> q.proxy_pause == p.proxy_pause
            &&& paused_until(q, !use_proxy) >= q.pause_until
            &&& q.consec_ok == 0
            &&& q.consec_403 == p.consec_403 + 1
            &&& q.inflight == p.inflight
            &&& slowdown_of(p).from == p.max_inflight
            &&& slowdown_of(p).to == q.max_inflight
            &&& now + slowdown_of(p).pause * 1_000_000_000 == q.pause_until
        }),
{
}

/// Every twenty-fourth success in a row takes the crawl one level up, from one stock at a time to
/// four, to eight, to sixteen; no other success does, and each ends a row of refusals.
pub proof fn successes_in_a_row_speed_up(p: Pace)
    requires
        p.wf(),
        p.consec_ok < 24,
    ensures
        ({
            let q = after_success(p);
            &&& q.consec_403 == 0
            &&& p.consec_ok < 23 ==> q.max_inflight == p.max_inflight && q.consec_ok == p.consec_ok
                + 1
            &&& p.consec_ok == 23 && p.max_inflight == 1 ==> q.max_inflight == 4 && q.consec_ok == 0
            &&& p.consec_ok == 23 && p.max_inflight == 4 ==> q.max_inflight == 8 && q.consec_ok == 0
            &&& p.consec_ok == 23 && p.max_inflight == 8 ==> q.max_inflight == 16 && q.consec_ok
                == 0
            &&& p.max_inflight == 16 ==> q.max_inflight == 16
            &&& q.pause_until == p.pause_until && q.proxy_pause == p.proxy_pause
                && q.direct_pause == p.direct_pause && q.cooldown_rounds == p.cooldown_rounds
        }),
{
}

/// The wait after a try for a new cookie is five seconds where it came; else ten minutes after
/// eight refusals in a row and twenty seconds before. A cookie, or the long wait, ends the row.
pub proof fn a_new_cookie_shortens_the_wait(p: Pace, got: bool, long_cool: bool)
    ensures
        pause_after_refresh(true, long_cool) == 5,
        pause_after_refresh(false, true) == 600,
        pause_after_refresh(false, false) == 20,
        !after_refresh(p, got, long_cool).refreshing,
        got || long_cool ==> after_refresh(p, got, long_cool).consec_403 == 0,
        !got && !long_cool ==> after_refresh(p, got, long_cool).consec_403 == p.consec_403,
        after_refresh(p, got, long_cool).max_inflight == p.max_inflight,
{
}

/// With no round used, the second to the seventh refusal in a row at the lowest level ask for a
/// cookie and a short wait, the eighth for the long one; after twelve rounds the next gives up.
pub proof fn refusals_ask_for_a_cookie(p: Pace)
    requires
        p.max_inflight == 1,
        !p.refreshing,
    ensures
        p.consec_403 == 0 ==> slowdown_of(p).next == AfterRefusal::GoOn,
        1 <= p.consec_403 < 7 && p.cooldown_rounds < 12 ==> slowdown_of(p).next
            == (AfterRefusal::Refresh { long_cool: false }),
        p.consec_403 >= 7 && p.cooldown_rounds < 12 ==> slowdown_of(p).next
            == (AfterRefusal::Refresh { long_cool: true }),
        p.consec_403 >= 1 && p.cooldown_rounds >= 12 ==> slowdown_of(p).next
            == AfterRefusal::GiveUp,
{
}

/// A slot is granted outside the pauses alone, and while fewer stocks are asked for than the level
/// allows; whoever has to wait sleeps no longer than the pause lasts and a fifth of a second at
/// most. A slot that is given back leaves the pace as it was.
pub proof fn slots_are_few_and_paused(
    before: Pace,
    after: Pace,
    now: u64,
    use_proxy: bool,
    serial_interval: u64,
    r: Slot,
)
    requires
        before.wf(),
        slot_given(before, after, now, use_proxy, serial_interval, r),
    ensures
        r is Granted <==> now >= before.pause_until && (use_proxy ==> now >= before.proxy_pause)
            && (
        !use_proxy ==> now >= before.direct_pause) && before.inflight < before.max_inflight,
        r is Granted ==> after.inflight == before.inflight + 1 && after.inflight
            <= after.max_inflight && slot_back(after) == before,
        r matches Slot::Granted(sleep) ==> sleep == if before.max_inflight == 1 {
            serial_interval
        } else {
            0
        },
        r is Wait ==> after == before,
        r matches Slot::Wait(nap) ==> nap <= 200_000_000,
        r matches Slot::Wait(nap) ==> now < paused_until(before, use_proxy) ==> now + nap
            <= paused_until(before, use_proxy) && nap > 0,
{
}

/// With two ways the workers take turns between them, and no worker without a proxy uses one; with
/// one way all workers take it.
pub proof fn workers_take_turns(worker: int, has_proxy: bool)
    ensures
        exit_of(0, true, has_proxy).use_proxy,
        exit_of(worker, true, has_proxy).use_proxy != exit_of(worker + 1, true,
            has_proxy).use_proxy,
        exit_of(worker, true, true).proxy_client == exit_of(worker, true, true).use_proxy,
        !exit_of(worker, true, false).proxy_client && !exit_of(worker, false, false).proxy_client,
        exit_of(worker, false, has_proxy).use_proxy == has_proxy,
        exit_of(worker, false, true).proxy_client,
{
}

/// A crawl takes the stocks of the list from the first on, as many as the limit allows.
pub proof fn a_limit_takes_the_first(codes: Seq<StockRef>, limit: Option<usize>, i: int)
    ensures
        limit is None ==> targets_of(codes, limit) == codes,
        limit matches Some(n) ==> targets_of(codes, limit).len() == least(n as int,
            codes.len() as int),
        0 <= i < targets_of(codes, limit).len() ==> targets_of(codes, limit)[i] == codes[i],
{
}

/// The numbers by which the pace goes: up to sixteen stocks at a time, one level up after
/// twenty-four successes, the long pause of ten minutes after eight refusals, twelve rounds of
/// these.
pub proof fn the_numbers_of_the_pace()
    ensures
        MAX_WORKERS == 16,
        RAMP_OK == 24,
        CONSEC_403_THRESHOLD == 8,
        COOLDOWN_SEC == 10 * 60,
        MAX_COOLDOWNS == 12,
        MAX_NAP * 5 == SECOND,
        SHORT_NAP * 50 == SECOND,
        SECOND == 1_000_000_000,
{
}

} // verus!
