//! Requests to the Baidu endpoints: addresses, headers, what to do with a reply, and what the
//! documents say.

use vstd::prelude::*;

use crate::json::{
    a_lookup_finds_the_entry, as_array, as_loose_real, as_loose_text, as_text, field, field_in,
    get_in, has_entry, loose_real_in, loose_text_in, parse_json, parsed, target, text_in, text_view,
    Json,
};
use crate::models::{FundFlow, RealSum, Scores, StockResult, SupportResistance, Vote};
use crate::number::{read_real, real_view, strict_real, Real};
use crate::text::{contains, decimal, holds, pair_views, push_pair, same, stands_at, write_u64};

verus! {

pub const API_HOST: &'static str = "https://finance.pae.baidu.com";

pub const PAGE_HOST: &'static str = "https://finance.baidu.com";

// ---------------------------------------------------------------- addresses

/// The address of the score endpoint.
pub fn build_analysis_url(code: &str) -> (r: String)
    ensures
        r@ == API_HOST@ + "/vapi/v1/analysis?code="@ + code@ + "&market=ab&financeType=stock"@,
{
    let mut s = API_HOST.to_string();
    s.append("/vapi/v1/analysis?code=");
    s.append(code);
    s.append("&market=ab&financeType=stock");
    s
}

/// The address of the support and resistance endpoint for a cycle (`long` or `short`).
pub fn build_kline_url(code: &str, cycle: &str) -> (r: String)
    ensures
        r@ == API_HOST@ + "/sapi/v1/get_analyse?code="@ + code@
            + "&market=ab&financeType=stock&cycle="@ + cycle@,
{
    let mut s = API_HOST.to_string();
    s.append("/sapi/v1/get_analyse?code=");
    s.append(code);
    s.append("&market=ab&financeType=stock&cycle=");
    s.append(cycle);
    s
}

/// The address of the fund flow endpoint.
pub fn build_fundflow_url(code: &str) -> (r: String)
    ensures
        r@ == API_HOST@ + "/vapi/v1/fundflow?finance_type=stock&code="@ + code@
            + "&market=ab&fund_flow_type="@,
{
    let mut s = API_HOST.to_string();
    s.append("/vapi/v1/fundflow?finance_type=stock&code=");
    s.append(code);
    s.append("&market=ab&fund_flow_type=");
    s
}

/// The address of the vote endpoint.
pub fn build_vote_url(code: &str) -> (r: String)
    ensures
        r@ == API_HOST@ + "/vapi/v1/stockvoterecords?code="@ + code@
            + "&market=ab&finance_type=stock"@,
{
    let mut s = API_HOST.to_string();
    s.append("/vapi/v1/stockvoterecords?code=");
    s.append(code);
    s.append("&market=ab&finance_type=stock");
    s
}

/// The analysis page of a stock, from which the requests seem to come.
pub fn build_page_referer(code: &str) -> (r: String)
    ensures
        r@ == PAGE_HOST@ + "/ai-tech-analysi/stock/ab-"@ + code@,
{
    let mut s = PAGE_HOST.to_string();
    s.append("/ai-tech-analysi/stock/ab-");
    s.append(code);
    s
}

/// A byte that a percent-encoded text keeps: a letter, a digit, or one of `-_.~`.
pub open spec fn is_plain_byte(b: u8) -> bool {
    ||| 0x30 <= b <= 0x39
    ||| 0x41 <= b <= 0x5a
    ||| 0x61 <= b <= 0x7a
    ||| b == 0x2d
    ||| b == 0x5f
    ||| b == 0x2e
    ||| b == 0x7e
}

pub open spec fn hex_char(d: int) -> char {
    if d < 10 {
        (48 + d) as char
    } else {
        (55 + d) as char
    }
}

/// Each byte as it is where it is plain, else a percent sign and two hexadecimal digits.
pub open spec fn percent_encoded(bytes: Seq<u8>) -> Seq<char>
    decreases bytes.len(),
{
    if bytes.len() == 0 {
        Seq::empty()
    } else {
        let b = bytes.last();
        let head = percent_encoded(bytes.drop_last());
        if is_plain_byte(b) {
            head.push(b as char)
        } else {
            head + seq!['%', hex_char(b as int / 16), hex_char(b as int % 16)]
        }
    }
}

/// Calls `urlencoding::encode`: the UTF-8 bytes of the text, of which every byte but letters,
/// digits and `-_.~` is written as a percent sign and two hexadecimal digits in capitals.
#[verifier::external_body]
pub(crate) fn percent_encode(text: &str) -> (r: String)
    ensures
        r@ == percent_encoded(vstd::utf8::encode_utf8(text@)),
{
    urlencoding::encode(text).into_owned()
}

/// The page of a stock with a tab open.
pub fn build_tab_referer(code: &str, tab: &str) -> (r: String)
    ensures
        r@ == PAGE_HOST@ + "/stock/ab-"@ + code@ + "?mainTab="@ + percent_encoded(
            vstd::utf8::encode_utf8(tab@),
        ),
{
    let mut s = PAGE_HOST.to_string();
    s.append("/stock/ab-");
    s.append(code);
    s.append("?mainTab=");
    let encoded = percent_encode(tab);
    s.append(&encoded);
    s
}

// ---------------------------------------------------------------- headers

/// A browser: its user agent and the client hints that go with it. Safari sends no hints, so
/// its `sec_ch_ua` is empty.
#[derive(Debug, Clone, Copy, PartialEq, Eq)]
pub struct UaProfile {
    pub ua: &'static str,
    pub sec_ch_ua: &'static str,
    pub platform: &'static str,
}

/// User agent, hint and platform of the four browsers.
pub open spec fn browser(k: int) -> (Seq<char>, Seq<char>, Seq<char>) {
    if k == 0 {
        (
            "Mozilla/5.0 (Windows NT 10.0; Win64; x64) AppleWebKit/537.36 (KHTML, like Gecko) Chrome/120.0.0.0 Safari/537.36"@,
            "\"Chromium\";v=\"120\", \"Google Chrome\";v=\"120\", \"Not?A_Brand\";v=\"24\""@,
            "\"Windows\""@,
        )
    } else if k == 1 {
        (
            "Mozilla/5.0 (Windows NT 10.0; Win64; x64) AppleWebKit/537.36 (KHTML, like Gecko) Chrome/121.0.0.0 Safari/537.36"@,
            "\"Chromium\";v=\"121\", \"Google Chrome\";v=\"121\", \"Not?A_Brand\";v=\"24\""@,
            "\"Windows\""@,
        )
    } else if k == 2 {
        (
            "Mozilla/5.0 (X11; Linux x86_64) AppleWebKit/537.36 (KHTML, like Gecko) Chrome/121.0.0.0 Safari/537.36"@,
            "\"Chromium\";v=\"121\", \"Google Chrome\";v=\"121\", \"Not?A_Brand\";v=\"24\""@,
            "\"Linux\""@,
        )
    } else {
        (
            "Mozilla/5.0 (Macintosh; Intel Mac OS X 10_15_7) AppleWebKit/605.1.15 (KHTML, like Gecko) Version/17.0 Safari/605.1.15"@,
            ""@,
            "\"macOS\""@,
        )
    }
}

/// The browser that a drawn number stands for.
pub fn ua_profile(draw: usize) -> (r: UaProfile)
    ensures
        (r.ua@, r.sec_ch_ua@, r.platform@) == browser(draw as int % 4),
{
    let k: usize = draw % 4;
    if k == 0 {
        UaProfile {
            ua: "Mozilla/5.0 (Windows NT 10.0; Win64; x64) AppleWebKit/537.36 (KHTML, like Gecko) Chrome/120.0.0.0 Safari/537.36",
            sec_ch_ua:
                "\"Chromium\";v=\"120\", \"Google Chrome\";v=\"120\", \"Not?A_Brand\";v=\"24\"",
            platform: "\"Windows\"",
        }
    } else if k == 1 {
        UaProfile {
            ua: "Mozilla/5.0 (Windows NT 10.0; Win64; x64) AppleWebKit/537.36 (KHTML, like Gecko) Chrome/121.0.0.0 Safari/537.36",
            sec_ch_ua:
                "\"Chromium\";v=\"121\", \"Google Chrome\";v=\"121\", \"Not?A_Brand\";v=\"24\"",
            platform: "\"Windows\"",
        }
    } else if k == 2 {
        UaProfile {
            ua: "Mozilla/5.0 (X11; Linux x86_64) AppleWebKit/537.36 (KHTML, like Gecko) Chrome/121.0.0.0 Safari/537.36",
            sec_ch_ua:
                "\"Chromium\";v=\"121\", \"Google Chrome\";v=\"121\", \"Not?A_Brand\";v=\"24\"",
            platform: "\"Linux\"",
        }
    } else {
        UaProfile {
            ua: "Mozilla/5.0 (Macintosh; Intel Mac OS X 10_15_7) AppleWebKit/605.1.15 (KHTML, like Gecko) Version/17.0 Safari/605.1.15",
            sec_ch_ua: "",
            platform: "\"macOS\"",
        }
    }
}

/// Calls `rand::random`: any `usize`.
#[verifier::external_body]
fn draw_usize() -> usize {
    rand::random::<usize>()
}

/// One of the four browsers, by chance.
pub fn random_ua() -> (r: UaProfile)
    ensures
        exists|k: int| 0 <= k < 4 && (r.ua@, r.sec_ch_ua@, r.platform@) == #[trigger] browser(k),
{
    let draw: usize = draw_usize();
    let r = ua_profile(draw);
    assert((r.ua@, r.sec_ch_ua@, r.platform@) == browser(draw as int % 4));
    r
}

/// The headers that every browser sends.
pub open spec fn common_headers(referer: Seq<char>, ua: Seq<char>) -> Seq<(Seq<char>, Seq<char>)> {
    seq![
        ("user-agent"@, ua),
        ("accept"@, "application/json, text/plain, */*"@),
        ("accept-language"@, "zh-CN,zh;q=0.9,en;q=0.8"@),
        ("referer"@, referer),
        ("origin"@, PAGE_HOST@),
        ("x-requested-with"@, "XMLHttpRequest"@),
        ("accept-encoding"@, "gzip, deflate, br"@),
        ("connection"@, "keep-alive"@),
        ("sec-fetch-dest"@, "empty"@),
        ("sec-fetch-mode"@, "cors"@),
        ("sec-fetch-site"@, "cross-site"@),
    ]
}

/// The client hints, where the browser sends them.
pub open spec fn hint_headers(sec_ch_ua: Seq<char>, platform: Seq<char>) -> Seq<
    (Seq<char>, Seq<char>),
> {
    if sec_ch_ua.len() == 0 {
        Seq::empty()
    } else {
        seq![
            ("sec-ch-ua"@, sec_ch_ua),
            ("sec-ch-ua-mobile"@, "?0"@),
            ("sec-ch-ua-platform"@, platform),
        ]
    }
}

/// The cookie, where there is one.
pub open spec fn cookie_headers(cookie: Seq<char>) -> Seq<(Seq<char>, Seq<char>)> {
    if cookie.len() == 0 {
        Seq::empty()
    } else {
        seq![("cookie"@, cookie)]
    }
}

/// The headers of a request to Baidu: those of a browser, and the cookie in use.
pub fn build_headers(referer: &str, p: &UaProfile, cookie: &str) -> (r: Vec<(String, String)>)
    ensures
        pair_views(r@) == common_headers(referer@, p.ua@) + hint_headers(
            p.sec_ch_ua@,
            p.platform@,
        ) + cookie_headers(cookie@),
{
    let mut h: Vec<(String, String)> = Vec::new();
    push_pair(&mut h, "user-agent", p.ua);
    push_pair(&mut h, "accept", "application/json, text/plain, */*");
    push_pair(&mut h, "accept-language", "zh-CN,zh;q=0.9,en;q=0.8");
    push_pair(&mut h, "referer", referer);
    push_pair(&mut h, "origin", PAGE_HOST);
    push_pair(&mut h, "x-requested-with", "XMLHttpRequest");
    push_pair(&mut h, "accept-encoding", "gzip, deflate, br");
    push_pair(&mut h, "connection", "keep-alive");
    push_pair(&mut h, "sec-fetch-dest", "empty");
    push_pair(&mut h, "sec-fetch-mode", "cors");
    push_pair(&mut h, "sec-fetch-site", "cross-site");
    assert(pair_views(h@) =~= common_headers(referer@, p.ua@));
    if !p.sec_ch_ua.is_empty() {
        push_pair(&mut h, "sec-ch-ua", p.sec_ch_ua);
        push_pair(&mut h, "sec-ch-ua-mobile", "?0");
        push_pair(&mut h, "sec-ch-ua-platform", p.platform);
    }
    assert(pair_views(h@) =~= common_headers(referer@, p.ua@) + hint_headers(
        p.sec_ch_ua@,
        p.platform@,
    ));
    if !cookie.is_empty() {
        push_pair(&mut h, "cookie", cookie);
    }
    assert(pair_views(h@) =~= common_headers(referer@, p.ua@) + hint_headers(
        p.sec_ch_ua@,
        p.platform@,
    ) + cookie_headers(cookie@));
    h
}

// ---------------------------------------------------------------- cookies

/// Puts a cookie header in use in place of the one before.
pub fn set_live_cookie_header(slot: &mut String, cookie: &str)
    ensures
        final(slot)@ == cookie@,
{
    *slot = cookie.to_string();
}

/// The `name=value` pairs of the entries that hold a string.
pub open spec fn cookie_pairs(entries: Seq<(String, Json)>) -> Seq<Seq<char>>
    decreases entries.len(),
{
    if entries.len() == 0 {
        Seq::empty()
    } else {
        let head = cookie_pairs(entries.drop_last());
        match entries.last().1 {
            Json::Text(s) => head.push(entries.last().0@ + "="@ + s@),
            _ => head,
        }
    }
}

/// The cookie header that a document of cookies gives: none where it is no object or has no
/// entry that holds a string.
pub open spec fn cookie_header(v: Json) -> Option<Seq<char>> {
    match v {
        Json::Object(entries) => if cookie_pairs(entries@).len() == 0 {
            None
        } else {
            Some(crate::text::joined(cookie_pairs(entries@), "; "@))
        },
        _ => None,
    }
}

fn pairs_of(entries: &Vec<(String, Json)>) -> (r: Vec<String>)
    ensures
        crate::text::views(r@) == cookie_pairs(entries@),
{
    let mut out: Vec<String> = Vec::new();
    let mut i: usize = 0;
    assert(crate::text::views(out@) =~= cookie_pairs(entries@.take(0)));
    while i < entries.len()
        invariant
            i <= entries@.len(),
            crate::text::views(out@) == cookie_pairs(entries@.take(i as int)),
        decreases entries@.len() - i,
    {
        let ghost before = crate::text::views(out@);
        assert(entries@.take(i + 1).drop_last() =~= entries@.take(i as int));
        assert(entries@.take(i + 1).last() == entries@[i as int]);
        match &entries[i].1 {
            Json::Text(s) => {
                let mut pair = entries[i].0.clone();
                pair.append("=");
                pair.append(s);
                let ghost p = pair@;
                out.push(pair);
                assert(crate::text::views(out@) =~= before.push(p));
            },
            _ => {},
        }
        i += 1;
    }
    assert(entries@.take(entries@.len() as int) =~= entries@);
    out
}

/// The cookie header that a document of cookies gives.
pub fn cookies_of(v: &Json) -> (r: Option<String>)
    ensures
        text_view(r) == cookie_header(*v),
{
    match v {
        Json::Object(entries) => {
            let list = pairs_of(entries);
            if list.len() == 0 {
                assert(crate::text::views(list@).len() == 0);
                None
            } else {
                Some(crate::text::join(&list, "; "))
            }
        },
        _ => None,
    }
}

/// The line that says how many cookies a document gives: none where it gives none.
pub open spec fn cookie_count_line(v: Json) -> Option<Seq<char>> {
    match v {
        Json::Object(entries) => if cookie_pairs(entries@).len() == 0 {
            None
        } else {
            Some(
                "已从环境变量加载 "@ + crate::text::decimal(cookie_pairs(entries@).len())
                    + " 个 Cookie"@,
            )
        },
        _ => None,
    }
}

/// The line of the log where the cookies come from the environment.
pub fn cookies_line(v: &Json) -> (r: Option<String>)
    ensures
        text_view(r) == cookie_count_line(*v),
{
    match v {
        Json::Object(entries) => {
            let list = pairs_of(entries);
            assert(crate::text::views(list@).len() == list@.len());
            if list.len() == 0 {
                None
            } else {
                let mut s = "已从环境变量加载 ".to_string();
                s.append(&crate::text::write_usize(list.len()));
                s.append(" 个 Cookie");
                Some(s)
            }
        },
        _ => None,
    }
}

/// The cookie header in the text of a cookie file.
pub fn load_cookies_from_json(text: &str) -> (r: Option<String>)
    ensures
        text_view(r) == match parsed(text@) {
            Ok(v) => cookie_header(v),
            Err(_) => None,
        },
{
    match parse_json(text) {
        Ok(v) => cookies_of(&v),
        Err(_) => None,
    }
}

// ---------------------------------------------------------------- pace

/// The pause where a limit is hit on a limiter made by `new`, in nanoseconds.
pub const DEFAULT_WAIT_CAP: u64 = 15_000_000_000;

/// The window in which requests are counted, where none is given, in nanoseconds.
pub const DEFAULT_WINDOW: u64 = 60_000_000_000;

/// Holds requests apart and counts them by windows. Times and spans are nanoseconds on a clock
/// that never runs backwards.
#[derive(Debug, Clone, PartialEq, Eq)]
pub struct RateLimiter {
    pub min_interval: u64,
    pub max_per_minute: usize,
    pub jitter: u64,
    /// The longest pause at the limit: none for the rest of the window, zero for no pause.
    pub rate_wait_cap: Option<u64>,
    pub rate_window: u64,
    pub interval_jitter_extra: u64,
    pub micro_break_every: usize,
    pub micro_break_min: u64,
    pub micro_break_max: u64,
    pub last: u64,
    pub window_start: u64,
    pub count: usize,
    pub req_count: usize,
}

/// What follows a request: a pause of up to `jitter`, and, where a break is due, one of its
/// least length and up to its span more.
#[derive(Debug, Clone, Copy, PartialEq, Eq)]
pub struct AfterRequest {
    pub jitter: u64,
    pub micro_break: Option<(u64, u64)>,
}

pub open spec fn at_least(a: int, b: int) -> int {
    if a < b {
        b
    } else {
        a
    }
}

pub open spec fn at_most_int(a: int, b: int) -> int {
    if a < b {
        a
    } else {
        b
    }
}

impl RateLimiter {
    /// The state as of an instant: the clock has not run backwards, and no more requests are
    /// counted in the window than were made.
    pub open spec fn fits(self, now: u64) -> bool {
        &&& self.last <= now
        &&& self.window_start <= now
        &&& self.count <= self.req_count
        &&& self.rate_window > 0
        &&& self.count <= at_least(self.max_per_minute as int, 1)
    }

    /// The settings, which no operation changes.
    pub open spec fn same_settings(self, other: RateLimiter) -> bool {
        &&& self.min_interval == other.min_interval
        &&& self.max_per_minute == other.max_per_minute
        &&& self.jitter == other.jitter
        &&& self.rate_wait_cap == other.rate_wait_cap
        &&& self.rate_window == other.rate_window
        &&& self.interval_jitter_extra == other.interval_jitter_extra
        &&& self.micro_break_every == other.micro_break_every
        &&& self.micro_break_min == other.micro_break_min
        &&& self.micro_break_max == other.micro_break_max
    }

    /// How long a request has to wait so that it stands `min_interval` and `extra` behind the one
    /// before.
    pub open spec fn gap_left(self, now: u64, extra: u64) -> int {
        at_least(self.min_interval + extra - (now - self.last), 0)
    }

    /// The state with the window of an instant: a new one where the old one has run out.
    pub open spec fn in_window(self, now: u64) -> RateLimiter {
        if now - self.window_start >= self.rate_window {
            RateLimiter { window_start: now, count: 0, ..self }
        } else {
            self
        }
    }

    /// The pause that is due where the window is used up: the rest of it, or the longest that is
    /// allowed.
    pub open spec fn limit_pause(self, now: u64) -> Option<u64> {
        if self.count < self.max_per_minute {
            None
        } else {
            let rest = self.window_start + self.rate_window - now;
            Some(
                match self.rate_wait_cap {
                    Some(cap) => at_most_int(rest, cap as int),
                    None => rest,
                } as u64,
            )
        }
    }

    /// The state after a request.
    pub open spec fn with_request(self, now: u64) -> RateLimiter {
        RateLimiter {
            last: now,
            count: (self.count + 1) as usize,
            req_count: (self.req_count + 1) as usize,
            ..self
        }
    }

    /// The break that follows the next request: its least length and how much longer it may be.
    pub open spec fn break_due(self) -> Option<(u64, u64)> {
        if self.micro_break_every > 0 && (self.req_count + 1) % self.micro_break_every as int == 0 {
            Some(
                (
                    self.micro_break_min,
                    at_least(self.micro_break_max - self.micro_break_min, 0) as u64,
                ),
            )
        } else {
            None
        }
    }

    /// A limiter with a window of a minute and a pause of at most fifteen seconds at the limit.
    pub fn new(
        now: u64,
        min_interval: u64,
        max_per_minute: usize,
        jitter: u64,
        interval_jitter_extra: u64,
        micro_break_every: usize,
        micro_break_min: u64,
        micro_break_max: u64,
    ) -> (r: Self)
        ensures
            r.fits(now),
            r == (RateLimiter {
                min_interval,
                max_per_minute,
                jitter,
                rate_wait_cap: Some(DEFAULT_WAIT_CAP),
                rate_window: DEFAULT_WINDOW,
                interval_jitter_extra,
                micro_break_every,
                micro_break_min,
                micro_break_max,
                last: now,
                window_start: now,
                count: 0,
                req_count: 0,
            }),
    {
        Self::new_ex(
            now,
            min_interval,
            max_per_minute,
            jitter,
            interval_jitter_extra,
            micro_break_every,
            micro_break_min,
            micro_break_max,
            Some(DEFAULT_WAIT_CAP),
            DEFAULT_WINDOW,
        )
    }

    /// A limiter with a window of its own (a minute where none is given) and a pause of its own
    /// at the limit.
    pub fn new_ex(
        now: u64,
        min_interval: u64,
        max_per_minute: usize,
        jitter: u64,
        interval_jitter_extra: u64,
        micro_break_every: usize,
        micro_break_min: u64,
        micro_break_max: u64,
        rate_wait_cap: Option<u64>,
        rate_window: u64,
    ) -> (r: Self)
        ensures
            r.fits(now),
            r == (RateLimiter {
                min_interval,
                max_per_minute,
                jitter,
                rate_wait_cap,
                rate_window: if rate_window > 0 {
                    rate_window
                } else {
                    DEFAULT_WINDOW
                },
                interval_jitter_extra,
                micro_break_every,
                micro_break_min,
                micro_break_max,
                last: now,
                window_start: now,
                count: 0,
                req_count: 0,
            }),
    {
        RateLimiter {
            min_interval,
            max_per_minute,
            jitter,
            rate_wait_cap,
            rate_window: if rate_window > 0 {
                rate_window
            } else {
                DEFAULT_WINDOW
            },
            interval_jitter_extra,
            micro_break_every,
            micro_break_min,
            micro_break_max,
            last: now,
            window_start: now,
            count: 0,
            req_count: 0,
        }
    }

    /// How long to sleep so that a request stands `min_interval` and `extra` behind the one
    /// before; `extra` is drawn below `interval_jitter_extra`.
    pub fn interval_sleep(&self, now: u64, extra: u64) -> (r: u64)
        requires
            self.fits(now),
            self.min_interval + extra <= u64::MAX,
        ensures
            r == self.gap_left(now, extra),
    {
        let need: u64 = self.min_interval + extra;
        let elapsed: u64 = now - self.last;
        if elapsed < need {
            need - elapsed
        } else {
            0
        }
    }

    /// Opens a new window where the old one has run out. Gives the pause that is due where the
    /// window is used up, and nothing where a request may go out.
    pub fn window_sleep(&mut self, now: u64) -> (r: Option<u64>)
        requires
            old(self).fits(now),
        ensures
            final(self).fits(now),
            *final(self) == old(self).in_window(now),
            r == final(self).limit_pause(now),
            final(self).same_settings(*old(self)),
            // A pause at the limit is never longer than allowed.
            r matches Some(pause) ==> (final(self).rate_wait_cap matches Some(cap)
                ==> pause <= cap),
    {
        if now - self.window_start >= self.rate_window {
            self.window_start = now;
            self.count = 0;
        }
        if self.count >= self.max_per_minute {
            let rest: u64 = self.rate_window - (now - self.window_start);
            match self.rate_wait_cap {
                Some(cap) => if rest < cap {
                    Some(rest)
                } else {
                    Some(cap)
                },
                None => Some(rest),
            }
        } else {
            None
        }
    }

    /// Opens a new window after the pause at the limit.
    pub fn reopen(&mut self, now: u64)
        requires
            old(self).fits(now),
        ensures
            final(self).fits(now),
            *final(self) == (RateLimiter { window_start: now, count: 0, ..*old(self) }),
    {
        self.window_start = now;
        self.count = 0;
    }

    /// Counts the request that goes out now, and says which pauses follow it.
    pub fn note_request(&mut self, now: u64) -> (r: AfterRequest)
        requires
            old(self).fits(now),
            old(self).count < at_least(old(self).max_per_minute as int, 1),
            old(self).req_count < usize::MAX,
        ensures
            final(self).fits(now),
            *final(self) == old(self).with_request(now),
            r.jitter == old(self).jitter,
            r.micro_break == old(self).break_due(),
    {
        self.last = now;
        self.count = self.count + 1;
        self.req_count = self.req_count + 1;
        let micro_break = if self.micro_break_every > 0 && self.req_count % self.micro_break_every
            == 0 {
            if self.micro_break_max < self.micro_break_min {
                Some((self.micro_break_min, 0))
            } else {
                Some((self.micro_break_min, self.micro_break_max - self.micro_break_min))
            }
        } else {
            None
        };
        AfterRequest { jitter: self.jitter, micro_break }
    }
}

/// A request that goes out after the sleep that `interval_sleep` asks for stands at least
/// `min_interval` behind the request before, and one that slept stands exactly as far behind it.
pub proof fn requests_stand_apart(limiter: RateLimiter, now: u64, extra: u64, sent: u64)
    requires
        limiter.fits(now),
        limiter.min_interval + extra <= u64::MAX,
        sent >= now + limiter.gap_left(now, extra),
    ensures
        sent - limiter.last >= limiter.min_interval + extra,
        limiter.gap_left(now, extra) > 0 ==> now + limiter.gap_left(now, extra) - limiter.last
            == limiter.min_interval + extra,
{
}

/// The states after requests at instants of one window.
pub open spec fn after_requests(limiter: RateLimiter, instants: Seq<u64>) -> RateLimiter
    decreases instants.len(),
{
    if instants.len() == 0 {
        limiter
    } else {
        let before = after_requests(limiter, instants.drop_last());
        before.in_window(instants.last()).with_request(instants.last())
    }
}

proof fn a_window_counts(limiter: RateLimiter, instants: Seq<u64>)
    requires
        limiter.count == 0,
        limiter.req_count + instants.len() <= usize::MAX,
        forall|i: int|
            0 <= i < instants.len() ==> #[trigger] instants[i] - limiter.window_start
                < limiter.rate_window,
    ensures
        after_requests(limiter, instants).count == instants.len(),
        after_requests(limiter, instants).req_count == limiter.req_count + instants.len(),
        after_requests(limiter, instants).window_start == limiter.window_start,
        after_requests(limiter, instants).same_settings(limiter),
        instants.len() > 0 ==> after_requests(limiter, instants).last == instants.last(),
    decreases instants.len(),
{
    if instants.len() > 0 {
        let head = instants.drop_last();
        assert forall|i: int| 0 <= i < head.len() implies #[trigger] head[i] - limiter.window_start
            < limiter.rate_window by {
            assert(head[i] == instants[i]);
        }
        a_window_counts(limiter, head);
        assert(instants.last() == instants[instants.len() - 1]);
    }
}

/// A window lets through as many requests as the limit says. The next one has to wait for its end,
/// or for as long as a pause may last, and then finds a new window.
pub proof fn a_window_lets_its_number_through(limiter: RateLimiter, instants: Seq<u64>, now: u64)
    requires
        limiter.count == 0,
        limiter.window_start <= now < limiter.window_start + limiter.rate_window,
        limiter.req_count + instants.len() <= usize::MAX,
        forall|i: int|
            0 <= i < instants.len() ==> #[trigger] instants[i] - limiter.window_start
                < limiter.rate_window,
    ensures
        ({
            let l = after_requests(limiter, instants).in_window(now);
            let end = limiter.window_start + limiter.rate_window;
            &&& instants.len() < limiter.max_per_minute ==> l.limit_pause(now) is None
            &&& instants.len() >= limiter.max_per_minute ==> {
                &&& l.limit_pause(now) matches Some(pause)
                &&& limiter.rate_wait_cap is None ==> now + pause == end
                &&& limiter.rate_wait_cap matches Some(cap) ==> pause <= cap && now + pause <= end
                    && (pause == cap || now + pause == end)
            }
            &&& forall|later: u64|
                later >= end && limiter.max_per_minute > 0 ==> (#[trigger] l.in_window(
                    later,
                )).limit_pause(later) is None
        }),
{
    a_window_counts(limiter, instants);
}

/// A break follows each request whose number is a multiple of the setting, and no other; it lasts
/// between its least and its greatest length.
pub proof fn breaks_follow_every_so_many(limiter: RateLimiter)
    requires
        limiter.micro_break_every > 0,
        limiter.req_count < usize::MAX,
    ensures
        limiter.break_due() is Some <==> exists|k: int|
            limiter.req_count + 1 == #[trigger] (k * limiter.micro_break_every as int),
        limiter.break_due() matches Some(b) ==> b.0 == limiter.micro_break_min && (
        limiter.micro_break_min <= limiter.micro_break_max ==> b.0 + b.1
            == limiter.micro_break_max),
        limiter.break_due() matches Some(b) ==> (limiter.micro_break_max < limiter.micro_break_min
            ==> b.1 == 0),
{
    let n = limiter.req_count + 1;
    let d = limiter.micro_break_every as int;
    let q = n / d;
    assert(n == q * d + n % d) by (nonlinear_arith)
        requires
            d > 0,
            q == n / d,
    ;
    if n % d == 0 {
        assert(n == q * d);
    }
    assert forall|k: int| n == #[trigger] (k * d) implies n % d == 0 by {
        assert((k * d) % d == 0) by (nonlinear_arith)
            requires
                d > 0,
        ;
    }
}

// ---------------------------------------------------------------- replies

/// How long to wait before the next try.
#[derive(Debug, Clone, PartialEq, Eq)]
pub enum Wait {
    /// The seconds that the server asks for.
    Asked(Real),
    /// Two to this power in seconds, and up to a second more.
    Backoff(u32),
    /// Three seconds and up to five more.
    Challenge,
    /// Not at all.
    Nothing,
}

/// What to do next with a request.
#[derive(Debug, PartialEq, Eq)]
pub enum FetchStep {
    /// The status is good: read the body.
    ReadBody,
    Done(Json),
    Retry { error: String, wait: Wait },
    Fail(String),
}

/// The wait after a failed try: it doubles with each.
pub open spec fn backoff_after(attempt: u32) -> Wait {
    Wait::Backoff((attempt - 1) as u32)
}

/// The wait that a `Retry-After` header asks for: two seconds where it holds no number.
pub open spec fn asked_seconds(header: Option<Seq<char>>) -> Seq<char> {
    match header {
        Some(s) => match strict_real(s) {
            Some(t) => t,
            None => "2"@,
        },
        None => "2"@,
    }
}

fn asked_wait(retry_after: &Option<String>) -> (r: Real)
    ensures
        r@ == asked_seconds(text_view(*retry_after)),
{
    match retry_after {
        Some(s) => match read_real(s) {
            Some(t) => t,
            None => Real { text: "2".to_string() },
        },
        None => Real { text: "2".to_string() },
    }
}

/// What the status line of a reply asks for: a retry where it says that there are too many
/// requests or that the server failed, the body where it says success, and an end otherwise.
/// `reason` is the status as the transport words it.
pub open spec fn status_asks(
    r: FetchStep,
    attempt: u32,
    status: int,
    reason: Seq<char>,
    retry_after: Option<Seq<char>>,
) -> bool {
    if status == 429 {
        &&& r matches FetchStep::Retry { error, wait: Wait::Asked(seconds) }
        &&& error@ == "HTTP 429 限流"@
        &&& seconds@ == asked_seconds(retry_after)
    } else if 500 <= status <= 599 {
        &&& r matches FetchStep::Retry { error, wait }
        &&& error@ == "HTTP "@ + reason
        &&& wait == backoff_after(attempt)
    } else if 200 <= status <= 299 {
        r == FetchStep::ReadBody
    } else {
        &&& r matches FetchStep::Fail(error)
        &&& error@ == "HTTP "@ + decimal(status as nat)
    }
}

/// What the status line of a reply asks for.
pub fn on_status(attempt: u32, status: u16, reason: &str, retry_after: &Option<String>) -> (r:
    FetchStep)
    requires
        attempt >= 1,
    ensures
        status_asks(r, attempt, status as int, reason@, text_view(*retry_after)),
{
    if status == 429 {
        let wait = asked_wait(retry_after);
        return FetchStep::Retry { error: "HTTP 429 限流".to_string(), wait: Wait::Asked(wait) };
    }
    if status >= 500 && status <= 599 {
        let mut error = "HTTP ".to_string();
        error.append(reason);
        return FetchStep::Retry { error, wait: Wait::Backoff(attempt - 1) };
    }
    if status >= 200 && status <= 299 {
        return FetchStep::ReadBody;
    }
    let mut error = "HTTP ".to_string();
    error.append(&write_u64(status as u64));
    FetchStep::Fail(error)
}

/// A page that asks the visitor to prove to be human.
pub open spec fn is_challenge(body: Seq<char>) -> bool {
    ||| holds(body, "验证码"@)
    ||| holds(body, "安全验证"@)
    ||| holds(body, "请完成"@)
    ||| holds(body, "captcha"@)
    ||| holds(body, "Captcha"@)
    ||| holds(body, "Verification"@)
}

/// The text of a result code: empty where it is neither a string nor a number.
pub open spec fn code_text(code: Json) -> Seq<char> {
    match as_loose_text(Some(code)) {
        Some(s) => s,
        None => Seq::empty(),
    }
}

/// What a document asks for: an end with its result code where that is not `0`.
pub open spec fn document_asks(
    r: FetchStep,
    attempt: u32,
    document: Result<Json, Seq<char>>,
) -> bool {
    match document {
        Err(e) => {
            &&& r matches FetchStep::Retry { error, wait }
            &&& error@ == "JSON 解析失败: "@ + e
            &&& wait == backoff_after(attempt)
        },
        Ok(v) => match field(v, "ResultCode"@) {
            Some(code) if code_text(code) != "0"@ => {
                &&& r matches FetchStep::Fail(error)
                &&& error@ == "API 业务错误 ResultCode="@ + code_text(code)
            },
            _ => r == FetchStep::Done(v),
        },
    }
}

/// What a document asks for: an end with its result code where that is not `0`.
pub fn on_document(attempt: u32, document: Result<Json, String>) -> (r: FetchStep)
    requires
        attempt >= 1,
    ensures
        document matches Err(e) ==> document_asks(r, attempt, Err(e@)),
        document matches Ok(v) ==> document_asks(r, attempt, Ok(v)),
{
    match document {
        Err(e) => {
            let mut error = "JSON 解析失败: ".to_string();
            error.append(&e);
            FetchStep::Retry { error, wait: Wait::Backoff(attempt - 1) }
        },
        Ok(v) => {
            let refused = match v.get("ResultCode") {
                Some(code) => {
                    let text = match loose_text_in(Some(code)) {
                        Some(s) => s,
                        None => String::new(),
                    };
                    if same(&text, "0") {
                        None
                    } else {
                        Some(text)
                    }
                },
                None => None,
            };
            match refused {
                Some(text) => {
                    let mut error = "API 业务错误 ResultCode=".to_string();
                    error.append(&text);
                    FetchStep::Fail(error)
                },
                None => FetchStep::Done(v),
            }
        },
    }
}

/// What the body of a reply asks for: a retry where it could not be read or asks for a proof
/// of being human, else what its document asks for.
pub open spec fn body_asks(r: FetchStep, attempt: u32, body: Result<Seq<char>, Seq<char>>) -> bool {
    match body {
        Err(e) => {
            &&& r matches FetchStep::Retry { error, wait }
            &&& error@ == "读取响应失败: "@ + e
            &&& wait == backoff_after(attempt)
        },
        Ok(text) => if is_challenge(text) {
            &&& r matches FetchStep::Retry { error, wait }
            &&& error@ == "命中反爬验证页(CHALLENGE)"@
            &&& wait == Wait::Challenge
        } else {
            document_asks(r, attempt, parsed(text))
        },
    }
}

/// What the body of a reply asks for.
pub fn on_body(attempt: u32, body: Result<String, String>) -> (r: FetchStep)
    requires
        attempt >= 1,
    ensures
        body matches Err(e) ==> body_asks(r, attempt, Err(e@)),
        body matches Ok(text) ==> body_asks(r, attempt, Ok(text@)),
{
    match body {
        Err(e) => {
            let mut error = "读取响应失败: ".to_string();
            error.append(&e);
            FetchStep::Retry { error, wait: Wait::Backoff(attempt - 1) }
        },
        Ok(text) => {
            if contains(&text, "验证码") || contains(&text, "安全验证") || contains(
                &text,
                "请完成",
            ) || contains(&text, "captcha") || contains(&text, "Captcha") || contains(
                &text,
                "Verification",
            ) {
                return FetchStep::Retry {
                    error: "命中反爬验证页(CHALLENGE)".to_string(),
                    wait: Wait::Challenge,
                };
            }
            on_document(attempt, parse_json(&text))
        },
    }
}

/// What a request that brought no reply asks for.
pub fn on_no_reply(attempt: u32, message: &str) -> (r: FetchStep)
    requires
        attempt >= 1,
    ensures
        r matches FetchStep::Retry { error, wait } && error@ == "网络错误: "@ + message@ && wait
            == backoff_after(attempt),
{
    let mut error = "网络错误: ".to_string();
    error.append(message);
    FetchStep::Retry { error, wait: Wait::Backoff(attempt - 1) }
}

/// The error after the last try.
pub open spec fn given_up(tries: nat, last_err: Seq<char>) -> Seq<char> {
    "抓取失败，已重试 "@ + decimal(tries) + " 次: "@ + last_err
}

/// The error after the last try.
pub fn gave_up(max_retries: u32, last_err: &str) -> (r: String)
    ensures
        r@ == given_up(max_retries as nat, last_err@),
{
    let mut s = "抓取失败，已重试 ".to_string();
    s.append(&write_u64(max_retries as u64));
    s.append(" 次: ");
    s.append(last_err);
    s
}

/// The tries at one request.
#[derive(Debug, Clone, PartialEq, Eq)]
pub struct Tries {
    pub max_retries: u32,
    pub made: u32,
    pub last_err: String,
}

/// Where the tries stand after a step.
#[derive(Debug, PartialEq, Eq)]
pub enum Fetched {
    /// Read the body of the reply.
    ReadBody,
    /// Wait, and make the next try if there is one.
    Again(Wait),
    Done(Json),
    Failed(String),
}

/// A try is begun: the next number, or none once all are made.
pub open spec fn begun(before: Tries, after: Tries, r: Option<u32>) -> bool {
    &&& after.max_retries == before.max_retries
    &&& after.last_err == before.last_err
    &&& if before.made < before.max_retries {
        after.made == before.made + 1 && r == Some(after.made)
    } else {
        after.made == before.made && r is None
    }
}

/// A step is taken in: a failed try leaves its error behind.
pub open spec fn settled(before: Tries, after: Tries, step: FetchStep, r: Fetched) -> bool {
    &&& after.max_retries == before.max_retries
    &&& after.made == before.made
    &&& match step {
        FetchStep::Retry { error, wait } => after.last_err == error && r == Fetched::Again(wait),
        FetchStep::ReadBody => after.last_err == before.last_err && r == Fetched::ReadBody,
        FetchStep::Done(v) => after.last_err == before.last_err && r == Fetched::Done(v),
        FetchStep::Fail(e) => after.last_err == before.last_err && r == Fetched::Failed(e),
    }
}

impl Tries {
    /// No more tries than allowed.
    pub open spec fn within(self) -> bool {
        self.made <= self.max_retries
    }

    pub fn new(max_retries: u32) -> (r: Self)
        ensures
            r.within(),
            r.max_retries == max_retries,
            r.made == 0,
            r.last_err@ == Seq::<char>::empty(),
    {
        Tries { max_retries, made: 0, last_err: String::new() }
    }

    /// Begins a try and gives its number, from one on; none once all are made.
    pub fn begin(&mut self) -> (r: Option<u32>)
        requires
            old(self).within(),
        ensures
            final(self).within(),
            begun(*old(self), *final(self), r),
    {
        if self.made < self.max_retries {
            self.made = self.made + 1;
            Some(self.made)
        } else {
            None
        }
    }

    /// Takes in a step: a failed try leaves its error behind.
    pub fn settle(&mut self, step: FetchStep) -> (r: Fetched)
        requires
            old(self).within(),
        ensures
            final(self).within(),
            settled(*old(self), *final(self), step, r),
    {
        match step {
            FetchStep::Retry { error, wait } => {
                self.last_err = error;
                Fetched::Again(wait)
            },
            FetchStep::ReadBody => Fetched::ReadBody,
            FetchStep::Done(v) => Fetched::Done(v),
            FetchStep::Fail(e) => Fetched::Failed(e),
        }
    }
}

// ---------------------------------------------------------------- documents

/// The payload of a reply: its `Result`, null where there is none.
pub open spec fn payload(data: Json) -> Json {
    match field(data, "Result"@) {
        Some(v) => v,
        None => Json::Null,
    }
}

/// The payload of a reply.
pub fn result_of(data: &Json) -> (r: &Json)
    ensures
        *r == payload(*data),
{
    match data.get("Result") {
        Some(v) => v,
        None => &Json::Null,
    }
}

/// The first item of an array.
pub open spec fn first_item(v: Option<Json>) -> Option<Json> {
    match as_array(v) {
        Some(items) => if items.len() == 0 {
            None
        } else {
            Some(items[0])
        },
        None => None,
    }
}

fn first_in<'a>(v: Option<&'a Json>) -> (r: Option<&'a Json>)
    ensures
        target(r) == first_item(target(v)),
{
    match v {
        Some(Json::Array(items)) => if items.len() == 0 {
            None
        } else {
            Some(&items[0])
        },
        _ => None,
    }
}

/// The name of a stock: from the document, else as the caller knows it, else from the first
/// technical item.
pub open spec fn analysis_name(result: Json, stock_name: Seq<char>) -> Option<Seq<char>> {
    match as_loose_text(field_in(field(result, "synthesisScore"@), "stockName"@)) {
        Some(n) => Some(n),
        None => if stock_name.len() > 0 {
            Some(stock_name)
        } else {
            as_loose_text(
                field_in(
                    first_item(
                        field_in(
                            field_in(field(result, "technologyScore"@), "increase"@),
                            "items"@,
                        ),
                    ),
                    "text"@,
                ),
            )
        },
    }
}

/// The scores that an analysis holds.
pub open spec fn scores_of(s: Scores, result: Json) -> bool {
    let syn = field(result, "synthesisScore"@);
    &&& text_view(s.synthesis_rating) == as_loose_text(field_in(syn, "rating"@))
    &&& real_view(s.technology) == as_loose_real(
        field_in(field(result, "technologyScore"@), "score"@),
    )
    &&& real_view(s.capital) == as_loose_real(field_in(field(result, "capitalScore"@), "score"@))
    &&& real_view(s.market) == as_loose_real(field_in(field(result, "marketScore"@), "score"@))
    &&& real_view(s.finance) == as_loose_real(field_in(field(result, "financeScore"@), "score"@))
    &&& text_view(s.is_new) == as_loose_text(field(result, "isNew"@))
    &&& text_view(s.update_time) == as_loose_text(field_in(syn, "updateTime"@))
}

/// A result that holds an analysis and nothing else.
pub open spec fn analysis_of(r: StockResult, result: Json, stock_name: Seq<char>) -> bool {
    &&& text_view(r.name) == analysis_name(result, stock_name)
    &&& scores_of(r.scores, result)
    &&& r.support@.len() == 0
    &&& r.fund_flow is None
    &&& r.vote is None
}

/// Name and scores out of an analysis.
pub fn parse_analysis(result: &Json, stock_name: &str) -> (r: StockResult)
    ensures
        analysis_of(r, *result, stock_name@),
{
    let syn = result.get("synthesisScore");
    let tech = result.get("technologyScore");
    let name = match loose_text_in(get_in(syn, "stockName")) {
        Some(n) => Some(n),
        None => if !stock_name.is_empty() {
            Some(stock_name.to_string())
        } else {
            loose_text_in(get_in(first_in(get_in(get_in(tech, "increase"), "items")), "text"))
        },
    };
    StockResult {
        name,
        scores: Scores {
            synthesis_rating: loose_text_in(get_in(syn, "rating")),
            technology: loose_real_in(get_in(tech, "score")),
            capital: loose_real_in(get_in(result.get("capitalScore"), "score")),
            market: loose_real_in(get_in(result.get("marketScore"), "score")),
            finance: loose_real_in(get_in(result.get("financeScore"), "score")),
            is_new: loose_text_in(result.get("isNew")),
            update_time: loose_text_in(get_in(syn, "updateTime")),
        },
        support: Vec::new(),
        fund_flow: None,
        vote: None,
    }
}

pub open spec fn or_empty(s: Option<Seq<char>>) -> Seq<char> {
    match s {
        Some(t) => t,
        None => Seq::empty(),
    }
}

/// Name and value of a rank, where there is one and it has either.
pub open spec fn rank_text(rank: Option<Json>) -> Option<Seq<char>> {
    let name = or_empty(as_loose_text(field_in(rank, "name"@)));
    let value = or_empty(as_loose_text(field_in(rank, "rankvalue"@)));
    if rank is None || (name.len() == 0 && value.len() == 0) {
        None
    } else {
        Some(name + " "@ + value)
    }
}

/// A document of levels says something where it has a support, a resistance or a rating.
pub open spec fn has_levels(result: Json) -> bool {
    let li = field(result, "levelInfo"@);
    ||| as_loose_text(field_in(li, "supportLevel"@)) is Some
    ||| as_loose_text(field_in(li, "resistanceLevel"@)) is Some
    ||| as_loose_text(field_in(field(result, "rating"@), "text"@)) is Some
}

/// The support and resistance that a document holds for a cycle.
pub open spec fn levels_of(r: SupportResistance, result: Json, cycle: Seq<char>) -> bool {
    let li = field(result, "levelInfo"@);
    let rt = field(result, "rating"@);
    let rk = field(result, "rank"@);
    &&& r.cycle@ == cycle
    &&& text_view(r.support_level) == as_loose_text(field_in(li, "supportLevel"@))
    &&& text_view(r.resistance_level) == as_loose_text(field_in(li, "resistanceLevel"@))
    &&& text_view(r.level_desc) == as_loose_text(field_in(li, "desc"@))
    &&& text_view(r.rating_text) == as_loose_text(field_in(rt, "text"@))
    &&& text_view(r.rating_level) == as_loose_text(field_in(rt, "level"@))
    &&& text_view(r.rating_status) == as_loose_text(field_in(rt, "status"@))
    &&& text_view(r.bullish_events) == as_loose_text(field_in(rt, "bullish"@))
    &&& text_view(r.bearish_events) == as_loose_text(field_in(rt, "bearish"@))
    &&& text_view(r.rank_str) == rank_text(rk)
    &&& text_view(r.industry_name) == as_loose_text(field_in(rk, "industryName"@))
}

fn unwrap_text(s: Option<String>) -> (r: String)
    ensures
        r@ == or_empty(text_view(s)),
{
    match s {
        Some(t) => t,
        None => String::new(),
    }
}

fn rank_in(rank: Option<&Json>) -> (r: Option<String>)
    ensures
        text_view(r) == rank_text(target(rank)),
{
    if rank.is_none() {
        return None;
    }
    let name = unwrap_text(loose_text_in(get_in(rank, "name")));
    let value = unwrap_text(loose_text_in(get_in(rank, "rankvalue")));
    if name.as_str().is_empty() && value.as_str().is_empty() {
        None
    } else {
        let mut s = name;
        s.append(" ");
        s.append(&value);
        Some(s)
    }
}

/// Support and resistance for a cycle, where the document says something of them.
pub fn parse_kline(result: &Json, cycle: &str) -> (r: Option<SupportResistance>)
    ensures
        r is Some <==> has_levels(*result),
        r matches Some(sr) ==> levels_of(sr, *result, cycle@),
{
    let li = result.get("levelInfo");
    let rt = result.get("rating");
    let rk = result.get("rank");
    let support_level = loose_text_in(get_in(li, "supportLevel"));
    let resistance_level = loose_text_in(get_in(li, "resistanceLevel"));
    let rating_text = loose_text_in(get_in(rt, "text"));
    if support_level.is_none() && resistance_level.is_none() && rating_text.is_none() {
        return None;
    }
    Some(
        SupportResistance {
            cycle: cycle.to_string(),
            support_level,
            resistance_level,
            level_desc: loose_text_in(get_in(li, "desc")),
            rating_text,
            rating_level: loose_text_in(get_in(rt, "level")),
            rating_status: loose_text_in(get_in(rt, "status")),
            bullish_events: loose_text_in(get_in(rt, "bullish")),
            bearish_events: loose_text_in(get_in(rt, "bearish")),
            rank_str: rank_in(rk),
            industry_name: loose_text_in(get_in(rk, "industryName")),
        },
    )
}

/// A sum by the texts of its terms: one or two.
pub open spec fn terms(sum: Option<RealSum>) -> Seq<Seq<char>> {
    match sum {
        None => Seq::empty(),
        Some(RealSum::One(a)) => seq![a@],
        Some(RealSum::Two(a, b)) => seq![a@, b@],
    }
}

/// A number as a list of at most one.
pub open spec fn term(r: Option<Seq<char>>) -> Seq<Seq<char>> {
    match r {
        None => Seq::empty(),
        Some(t) => seq![t],
    }
}

/// The group of orders of a size, and its net turnover and rate.
pub open spec fn net_of(spread: Option<Json>, group: Seq<char>) -> Option<Seq<char>> {
    as_loose_real(field_in(field_in(spread, group), "netTurnover"@))
}

pub open spec fn rate_of(spread: Option<Json>, group: Seq<char>) -> Option<Seq<char>> {
    as_loose_text(field_in(field_in(spread, group), "turnoverInRate"@))
}

/// The fund flow that a spread holds. The main flow is what there is of the two largest groups.
pub open spec fn flow_of(r: FundFlow, spread: Option<Json>) -> bool {
    &&& real_view(r.super_net) == net_of(spread, "superGrp"@)
    &&& real_view(r.large_net) == net_of(spread, "largeGrp"@)
    &&& real_view(r.medium_net) == net_of(spread, "mediumGrp"@)
    &&& real_view(r.little_net) == net_of(spread, "littleGrp"@)
    &&& text_view(r.super_rate) == rate_of(spread, "superGrp"@)
    &&& text_view(r.large_rate) == rate_of(spread, "largeGrp"@)
    &&& text_view(r.medium_rate) == rate_of(spread, "mediumGrp"@)
    &&& text_view(r.little_rate) == rate_of(spread, "littleGrp"@)
    &&& terms(r.main_net) == term(net_of(spread, "superGrp"@)) + term(net_of(spread, "largeGrp"@))
}

fn main_net_of(super_net: &Option<Real>, large_net: &Option<Real>) -> (r: Option<RealSum>)
    ensures
        terms(r) == term(real_view(*super_net)) + term(real_view(*large_net)),
{
    let sum = match (super_net, large_net) {
        (Some(a), Some(b)) => Some(RealSum::Two(a.copy(), b.copy())),
        (Some(a), None) => Some(RealSum::One(a.copy())),
        (None, Some(b)) => Some(RealSum::One(b.copy())),
        (None, None) => None,
    };
    assert(terms(sum) =~= term(real_view(*super_net)) + term(real_view(*large_net)));
    sum
}

/// The spread of a document of fund flow, by groups of orders.
pub open spec fn spread_of(content: Json) -> Option<Json> {
    field_in(field(content, "fundFlowSpread"@), "result"@)
}

/// The fund flow, where the document has a spread with a result.
pub fn parse_fundflow(content: &Json) -> (r: Option<FundFlow>)
    ensures
        r is Some <==> spread_of(*content) is Some,
        r matches Some(f) ==> flow_of(f, spread_of(*content)),
{
    let spread = get_in(content.get("fundFlowSpread"), "result");
    if spread.is_none() {
        return None;
    }
    let super_net = loose_real_in(get_in(get_in(spread, "superGrp"), "netTurnover"));
    let large_net = loose_real_in(get_in(get_in(spread, "largeGrp"), "netTurnover"));
    let main_net = main_net_of(&super_net, &large_net);
    Some(
        FundFlow {
            super_net,
            large_net,
            medium_net: loose_real_in(get_in(get_in(spread, "mediumGrp"), "netTurnover")),
            little_net: loose_real_in(get_in(get_in(spread, "littleGrp"), "netTurnover")),
            super_rate: loose_text_in(get_in(get_in(spread, "superGrp"), "turnoverInRate")),
            large_rate: loose_text_in(get_in(get_in(spread, "largeGrp"), "turnoverInRate")),
            medium_rate: loose_text_in(get_in(get_in(spread, "mediumGrp"), "turnoverInRate")),
            little_rate: loose_text_in(get_in(get_in(spread, "littleGrp"), "turnoverInRate")),
            main_net,
        },
    )
}

/// A period with the title of the current week.
pub open spec fn is_week(period: Json) -> bool {
    as_text(field(period, "title"@)) == Some("本周"@)
}

/// The last period of the current week.
pub open spec fn week(periods: Seq<Json>) -> Option<Json>
    decreases periods.len(),
{
    if periods.len() == 0 {
        None
    } else if is_week(periods.last()) {
        Some(periods.last())
    } else {
        week(periods.drop_last())
    }
}

/// The current week in the records of votes.
pub open spec fn week_in(records: Option<Json>) -> Option<Json> {
    match as_array(field_in(records, "voteRes"@)) {
        Some(periods) => week(periods),
        None => None,
    }
}

/// The votes that a document holds.
pub open spec fn vote_of(r: Vote, root: Json) -> bool {
    let wk = week_in(field(root, "voteRecords"@));
    &&& text_view(r.vote_up) == as_loose_text(field(root, "voteUp"@))
    &&& text_view(r.vote_down) == as_loose_text(field(root, "voteDown"@))
    &&& text_view(r.total_num) == as_loose_text(field(root, "totalNum"@))
    &&& text_view(r.vote_up_rate) == as_loose_text(field(root, "voteUpRate"@))
    &&& text_view(r.vote_down_rate) == as_loose_text(field(root, "voteDownRate"@))
    &&& text_view(r.week_up) == as_loose_text(field_in(wk, "voteUp"@))
    &&& text_view(r.week_down) == as_loose_text(field_in(wk, "voteDown"@))
    &&& text_view(r.week_rate) == as_loose_text(field_in(wk, "voteUpRate"@))
}

fn find_week<'a>(periods: &'a Vec<Json>) -> (r: Option<&'a Json>)
    ensures
        target(r) == week(periods@),
{
    let mut i: usize = periods.len();
    assert(periods@.take(i as int) =~= periods@);
    while i > 0
        invariant
            i <= periods@.len(),
            week(periods@.take(i as int)) == week(periods@),
        decreases i,
    {
        i -= 1;
        assert(periods@.take(i + 1).drop_last() =~= periods@.take(i as int));
        assert(periods@.take(i + 1).last() == periods@[i as int]);
        match text_in(periods[i].get("title")) {
            Some(title) => if same(&title, "本周") {
                return Some(&periods[i]);
            },
            None => {},
        }
    }
    None
}

/// There are records of votes.
pub open spec fn has_votes(root: Json) -> bool {
    field(root, "voteRecords"@) is Some
}

/// The votes, where the document has records of them.
pub fn parse_vote(root: &Json) -> (r: Option<Vote>)
    ensures
        r is Some <==> has_votes(*root),
        r matches Some(v) ==> vote_of(v, *root),
{
    let records = root.get("voteRecords");
    if records.is_none() {
        return None;
    }
    let wk = match get_in(records, "voteRes") {
        Some(Json::Array(periods)) => find_week(periods),
        _ => None,
    };
    Some(
        Vote {
            vote_up: loose_text_in(root.get("voteUp")),
            vote_down: loose_text_in(root.get("voteDown")),
            total_num: loose_text_in(root.get("totalNum")),
            vote_up_rate: loose_text_in(root.get("voteUpRate")),
            vote_down_rate: loose_text_in(root.get("voteDownRate")),
            week_up: loose_text_in(get_in(wk, "voteUp")),
            week_down: loose_text_in(get_in(wk, "voteDown")),
            week_rate: loose_text_in(get_in(wk, "voteUpRate")),
        },
    )
}

// ---------------------------------------------------------------- one stock

/// The five requests that a stock takes, in their order.
#[derive(Debug, Clone, Copy, PartialEq, Eq)]
pub enum Endpoint {
    Analysis,
    LongLevels,
    ShortLevels,
    FundFlow,
    Vote,
}

/// The cycle that a request for levels names.
pub open spec fn cycle_text(e: Endpoint) -> Seq<char> {
    match e {
        Endpoint::LongLevels => "long"@,
        Endpoint::ShortLevels => "short"@,
        _ => ""@,
    }
}

fn cycle_of(e: Endpoint) -> (r: &'static str)
    ensures
        r@ == cycle_text(e),
{
    match e {
        Endpoint::LongLevels => "long",
        Endpoint::ShortLevels => "short",
        _ => "",
    }
}

/// How a request is shown while it runs.
pub open spec fn label_of_request(e: Endpoint) -> Seq<char> {
    match e {
        Endpoint::Analysis => "评分"@,
        Endpoint::LongLevels => "支撑阻力("@ + "long"@ + ")"@,
        Endpoint::ShortLevels => "支撑阻力("@ + "short"@ + ")"@,
        Endpoint::FundFlow => "资金流向"@,
        Endpoint::Vote => "投票"@,
    }
}

/// How a request is shown while it runs.
pub fn endpoint_label(e: Endpoint) -> (r: String)
    ensures
        r@ == label_of_request(e),
{
    match e {
        Endpoint::Analysis => "评分".to_string(),
        Endpoint::FundFlow => "资金流向".to_string(),
        Endpoint::Vote => "投票".to_string(),
        _ => {
            let mut s = "支撑阻力(".to_string();
            s.append(cycle_of(e));
            s.append(")");
            s
        },
    }
}

/// The address of a request.
pub open spec fn request_address(e: Endpoint, code: Seq<char>) -> Seq<char> {
    match e {
        Endpoint::Analysis => API_HOST@ + "/vapi/v1/analysis?code="@ + code
            + "&market=ab&financeType=stock"@,
        Endpoint::LongLevels | Endpoint::ShortLevels => API_HOST@ + "/sapi/v1/get_analyse?code="@
            + code + "&market=ab&financeType=stock&cycle="@ + cycle_text(e),
        Endpoint::FundFlow => API_HOST@ + "/vapi/v1/fundflow?finance_type=stock&code="@ + code
            + "&market=ab&fund_flow_type="@,
        Endpoint::Vote => API_HOST@ + "/vapi/v1/stockvoterecords?code="@ + code
            + "&market=ab&finance_type=stock"@,
    }
}

/// The address of a request.
pub fn endpoint_url(e: Endpoint, code: &str) -> (r: String)
    ensures
        r@ == request_address(e, code@),
{
    match e {
        Endpoint::Analysis => build_analysis_url(code),
        Endpoint::FundFlow => build_fundflow_url(code),
        Endpoint::Vote => build_vote_url(code),
        _ => build_kline_url(code, cycle_of(e)),
    }
}

/// The page from which a request seems to come: the analysis page, or the page of the stock
/// with the tab that shows what is asked for.
pub open spec fn request_origin(e: Endpoint, code: Seq<char>) -> Seq<char> {
    match e {
        Endpoint::FundFlow => PAGE_HOST@ + "/stock/ab-"@ + code + "?mainTab="@ + percent_encoded(
            vstd::utf8::encode_utf8("资金"@),
        ),
        Endpoint::Vote => PAGE_HOST@ + "/stock/ab-"@ + code + "?mainTab="@ + percent_encoded(
            vstd::utf8::encode_utf8("股评"@),
        ),
        _ => PAGE_HOST@ + "/ai-tech-analysi/stock/ab-"@ + code,
    }
}

/// The page from which a request seems to come: the analysis page, or the page of the stock
/// with the tab that shows what is asked for.
pub fn endpoint_referer(e: Endpoint, code: &str) -> (r: String)
    ensures
        r@ == request_origin(e, code@),
{
    match e {
        Endpoint::FundFlow => build_tab_referer(code, "资金"),
        Endpoint::Vote => build_tab_referer(code, "股评"),
        _ => build_page_referer(code),
    }
}

/// The request that follows another.
pub open spec fn following(e: Endpoint) -> Option<Endpoint> {
    match e {
        Endpoint::Analysis => Some(Endpoint::LongLevels),
        Endpoint::LongLevels => Some(Endpoint::ShortLevels),
        Endpoint::ShortLevels => Some(Endpoint::FundFlow),
        Endpoint::FundFlow => Some(Endpoint::Vote),
        Endpoint::Vote => None,
    }
}

/// A visit to a stock: the request that comes next, none once all are made, and what the
/// replies so far have brought.
#[derive(Debug)]
pub struct Visit {
    pub next: Option<Endpoint>,
    pub result: StockResult,
}

/// The content of a fund flow reply: that of the inner payload where there is one.
pub open spec fn flow_content(data: Json) -> Json {
    let root = payload(data);
    let inner = match field(root, "Result"@) {
        Some(v) => v,
        None => root,
    };
    match field(inner, "content"@) {
        Some(v) => v,
        None => Json::Null,
    }
}

fn flow_content_of(data: &Json) -> (r: &Json)
    ensures
        *r == flow_content(*data),
{
    let root = result_of(data);
    let inner = match root.get("Result") {
        Some(v) => v,
        None => root,
    };
    match inner.get("content") {
        Some(v) => v,
        None => &Json::Null,
    }
}

/// All parts but the supports, the fund flow and the votes.
pub open spec fn same_analysis(a: StockResult, b: StockResult) -> bool {
    a.name == b.name && a.scores == b.scores
}

/// What a reply to a request for levels adds to those before.
pub open spec fn adds_levels(
    after: Seq<SupportResistance>,
    before: Seq<SupportResistance>,
    reply: Result<Json, String>,
    cycle: Seq<char>,
) -> bool {
    match reply {
        Ok(data) if has_levels(payload(data)) => {
            &&& after.len() == before.len() + 1
            &&& after.drop_last() == before
            &&& levels_of(after.last(), payload(data), cycle)
        },
        _ => after == before,
    }
}

/// A request that the server refused, as `on_status` words it.
pub open spec fn is_refused(reply: Result<Json, String>) -> bool {
    reply matches Err(error) && error@ == "HTTP 403"@
}

/// What the reply to a request makes of a visit.
pub open spec fn replied(
    before: Visit,
    after: Visit,
    stock_name: Seq<char>,
    reply: Result<Json, String>,
    r: Result<Option<String>, String>,
) -> bool {
    let e = before.next->0;
    let was = before.result;
    let now = after.result;
    if is_refused(reply) {
        &&& r == Err::<Option<String>, String>(reply->Err_0)
        &&& after == before
    } else {
        match e {
            Endpoint::Analysis => match reply {
                Err(error) => {
                    &&& r == Err::<Option<String>, String>(error)
                    &&& after == before
                },
                Ok(data) => if payload(data) == Json::Null {
                    &&& r matches Err(error)
                    &&& error@ == "分析接口返回空 Result"@
                    &&& after == before
                } else {
                    &&& r matches Ok(None)
                    &&& after.next == following(e)
                    &&& analysis_of(now, payload(data), stock_name)
                },
            },
            Endpoint::LongLevels | Endpoint::ShortLevels => {
                &&& after.next == following(e)
                &&& same_analysis(now, was)
                &&& now.fund_flow == was.fund_flow
                &&& now.vote == was.vote
                &&& adds_levels(now.support@, was.support@, reply, cycle_text(e))
                &&& match reply {
                    Ok(_) => r matches Ok(None),
                    Err(error) => {
                        &&& r matches Ok(Some(line))
                        &&& line@ == "  支撑阻力("@ + cycle_text(e) + ") 失败: "@ + error@
                    },
                }
            },
            Endpoint::FundFlow => {
                &&& r matches Ok(None)
                &&& after.next == following(e)
                &&& same_analysis(now, was)
                &&& now.support == was.support
                &&& now.vote == was.vote
                &&& match reply {
                    Err(_) => now.fund_flow == was.fund_flow,
                    Ok(data) => {
                        let spread = spread_of(flow_content(data));
                        &&& now.fund_flow is Some <==> spread is Some
                        &&& now.fund_flow matches Some(f) ==> flow_of(f, spread)
                    },
                }
            },
            Endpoint::Vote => {
                &&& r matches Ok(None)
                &&& after.next == following(e)
                &&& same_analysis(now, was)
                &&& now.support == was.support
                &&& now.fund_flow == was.fund_flow
                &&& match reply {
                    Err(_) => now.vote == was.vote,
                    Ok(data) => {
                        &&& now.vote is Some <==> has_votes(payload(data))
                        &&& now.vote matches Some(v) ==> vote_of(v, payload(data))
                    },
                }
            },
        }
    }
}

impl Visit {
    /// Nothing is asked yet.
    pub fn new() -> (r: Visit)
        ensures
            r.next == Some(Endpoint::Analysis),
            r.result.name is None,
            r.result.scores == (Scores {
                synthesis_rating: None,
                technology: None,
                capital: None,
                market: None,
                finance: None,
                is_new: None,
                update_time: None,
            }),
            r.result.support@.len() == 0,
            r.result.fund_flow is None,
            r.result.vote is None,
    {
        Visit {
            next: Some(Endpoint::Analysis),
            result: StockResult {
                name: None,
                scores: Scores {
                    synthesis_rating: None,
                    technology: None,
                    capital: None,
                    market: None,
                    finance: None,
                    is_new: None,
                    update_time: None,
                },
                support: Vec::new(),
                fund_flow: None,
                vote: None,
            },
        }
    }

    /// Takes in the reply to the next request. The visit fails where a request is refused, and
    /// where the analysis fails or has no payload; any other failure does no harm. Gives a line
    /// for the log where the request for levels failed.
    pub fn take_reply(&mut self, stock_name: &str, reply: Result<Json, String>) -> (r: Result<
        Option<String>,
        String,
    >)
        requires
            old(self).next is Some,
        ensures
            replied(*old(self), *final(self), stock_name@, reply, r),
    {
        let refused = match &reply {
            Err(error) => same(error, "HTTP 403"),
            Ok(_) => false,
        };
        if refused {
            return match reply {
                Err(error) => Err(error),
                Ok(_) => Ok(None),
            };
        }
        match self.next {
            Some(Endpoint::Analysis) => match reply {
                Err(error) => Err(error),
                Ok(data) => {
                    let result = result_of(&data);
                    if result.is_null() {
                        return Err("分析接口返回空 Result".to_string());
                    }
                    self.result = parse_analysis(result, stock_name);
                    self.next = Some(Endpoint::LongLevels);
                    Ok(None)
                },
            },
            Some(Endpoint::LongLevels) => {
                self.next = Some(Endpoint::ShortLevels);
                Ok(self.take_levels(Endpoint::LongLevels, reply))
            },
            Some(Endpoint::ShortLevels) => {
                self.next = Some(Endpoint::FundFlow);
                Ok(self.take_levels(Endpoint::ShortLevels, reply))
            },
            Some(Endpoint::FundFlow) => {
                match reply {
                    Ok(data) => {
                        self.result.fund_flow = parse_fundflow(flow_content_of(&data));
                    },
                    Err(_) => {},
                }
                self.next = Some(Endpoint::Vote);
                Ok(None)
            },
            _ => {
                match reply {
                    Ok(data) => {
                        self.result.vote = parse_vote(result_of(&data));
                    },
                    Err(_) => {},
                }
                self.next = None;
                Ok(None)
            },
        }
    }

    fn take_levels(&mut self, e: Endpoint, reply: Result<Json, String>) -> (r: Option<String>)
        ensures
            final(self).next == old(self).next,
            same_analysis(final(self).result, old(self).result),
            final(self).result.fund_flow == old(self).result.fund_flow,
            final(self).result.vote == old(self).result.vote,
            adds_levels(
                final(self).result.support@,
                old(self).result.support@,
                reply,
                cycle_text(e),
            ),
            match reply {
                Ok(_) => r is None,
                Err(error) => r matches Some(line) && line@ == "  支撑阻力("@ + cycle_text(e)
                    + ") 失败: "@ + error@,
            },
    {
        match reply {
            Ok(data) => {
                match parse_kline(result_of(&data), cycle_of(e)) {
                    Some(sr) => {
                        self.result.support.push(sr);
                        assert(self.result.support@.drop_last() =~= old(self).result.support@);
                    },
                    None => {},
                }
                None
            },
            Err(error) => {
                let mut line = "  支撑阻力(".to_string();
                line.append(cycle_of(e));
                line.append(") 失败: ");
                line.append(&error);
                Some(line)
            },
        }
    }
}

// ---------------------------------------------------------------- laws of a visit

/// A visit makes five requests: the analysis, the long and the short levels, the fund flow and the
/// votes, one behind the other, and then no more.
pub proof fn a_visit_makes_five_requests()
    ensures
        following(Endpoint::Analysis) == Some(Endpoint::LongLevels),
        following(Endpoint::LongLevels) == Some(Endpoint::ShortLevels),
        following(Endpoint::ShortLevels) == Some(Endpoint::FundFlow),
        following(Endpoint::FundFlow) == Some(Endpoint::Vote),
        following(Endpoint::Vote) is None,
        cycle_text(Endpoint::LongLevels) == "long"@,
        cycle_text(Endpoint::ShortLevels) == "short"@,
{
}

/// A refused request ends the visit with its error and nothing else changed. No other failure does,
/// but that of the analysis, or an analysis without a payload.
pub proof fn only_a_refusal_or_the_analysis_ends_a_visit(
    before: Visit,
    after: Visit,
    stock_name: Seq<char>,
    reply: Result<Json, String>,
    r: Result<Option<String>, String>,
)
    requires
        before.next is Some,
        replied(before, after, stock_name, reply, r),
    ensures
        reply matches Err(error) && error@ == "HTTP 403"@ ==> r == Err::<Option<String>, String>(
            reply->Err_0,
        ) && after == before,
        before.next == Some(Endpoint::Analysis) && reply is Err ==> r == Err::<
            Option<String>,
            String,
        >(reply->Err_0) && after == before,
        before.next == Some(Endpoint::Analysis) && reply is Ok ==> (r is Ok
            <==> payload(reply->Ok_0)
            != Json::Null),
        before.next != Some(Endpoint::Analysis) && !(reply matches Err(error) && error@
            == "HTTP 403"@) ==> r is Ok,
        r is Ok ==> after.next == following(before.next->0),
        r is Err ==> after == before,
{
}

/// The reply to a request changes the part of the visit that was asked for, and no other part. A
/// reply that failed leaves that part too as it was.
pub proof fn a_reply_changes_its_part_alone(
    before: Visit,
    after: Visit,
    stock_name: Seq<char>,
    reply: Result<Json, String>,
    r: Result<Option<String>, String>,
)
    requires
        before.next is Some,
        before.next != Some(Endpoint::Analysis),
        replied(before, after, stock_name, reply, r),
    ensures
        after.result.name == before.result.name && after.result.scores == before.result.scores,
        before.next != Some(Endpoint::LongLevels) && before.next != Some(Endpoint::ShortLevels)
            ==> after.result.support@ == before.result.support@,
        before.next != Some(Endpoint::FundFlow) ==> after.result.fund_flow
            == before.result.fund_flow,
        before.next != Some(Endpoint::Vote) ==> after.result.vote == before.result.vote,
        reply is Err ==> after.result.support@ == before.result.support@ && after.result.fund_flow
            == before.result.fund_flow && after.result.vote == before.result.vote,
{
}

/// What a good reply brings: the analysis of its payload; the levels of the cycle that was asked
/// for, behind those that were there; the fund flow of its content; the votes of its payload.
pub proof fn a_reply_brings_what_was_asked_for(
    before: Visit,
    after: Visit,
    stock_name: Seq<char>,
    data: Json,
    r: Result<Option<String>, String>,
)
    requires
        replied(before, after, stock_name, Ok(data), r),
    ensures
        before.next == Some(Endpoint::Analysis) && r is Ok ==> analysis_of(
            after.result,
            payload(data),
            stock_name,
        ),
        before.next == Some(Endpoint::LongLevels) && has_levels(payload(data)) ==> {
            &&& after.result.support@.len() == before.result.support@.len() + 1
            &&& after.result.support@.drop_last() == before.result.support@
            &&& levels_of(after.result.support@.last(), payload(data), "long"@)
        },
        before.next == Some(Endpoint::ShortLevels) && has_levels(payload(data)) ==> {
            &&& after.result.support@.len() == before.result.support@.len() + 1
            &&& after.result.support@.drop_last() == before.result.support@
            &&& levels_of(after.result.support@.last(), payload(data), "short"@)
        },
        (before.next == Some(Endpoint::LongLevels) || before.next == Some(Endpoint::ShortLevels))
            && !has_levels(payload(data)) ==> after.result.support@ == before.result.support@,
        before.next == Some(Endpoint::FundFlow) ==> (after.result.fund_flow is Some <==> spread_of(
            flow_content(data),
        ) is Some) && (after.result.fund_flow matches Some(f) ==> flow_of(
            f,
            spread_of(flow_content(data)),
        )),
        before.next == Some(Endpoint::Vote) ==> (after.result.vote is Some <==> has_votes(
            payload(data),
        )) && (after.result.vote matches Some(v) ==> vote_of(v, payload(data))),
{
}

/// The words before and behind the code of the stock in the address of a request.
pub open spec fn around(e: Endpoint) -> (Seq<char>, Seq<char>) {
    match e {
        Endpoint::Analysis => (
            "https://finance.pae.baidu.com/vapi/v1/analysis?code="@,
            "&market=ab&financeType=stock"@,
        ),
        Endpoint::LongLevels => (
            "https://finance.pae.baidu.com/sapi/v1/get_analyse?code="@,
            "&market=ab&financeType=stock&cycle=long"@,
        ),
        Endpoint::ShortLevels => (
            "https://finance.pae.baidu.com/sapi/v1/get_analyse?code="@,
            "&market=ab&financeType=stock&cycle=short"@,
        ),
        Endpoint::FundFlow => (
            "https://finance.pae.baidu.com/vapi/v1/fundflow?finance_type=stock&code="@,
            "&market=ab&fund_flow_type="@,
        ),
        Endpoint::Vote => (
            "https://finance.pae.baidu.com/vapi/v1/stockvoterecords?code="@,
            "&market=ab&finance_type=stock"@,
        ),
    }
}

/// Each request asks the address of its kind for the one stock, and comes from a page of that
/// stock: the levels come from the analysis page, the flow and the votes from the tabs that show
/// them.
pub proof fn requests_ask_for_the_stock(e: Endpoint, code: Seq<char>)
    ensures
        request_address(e, code) == around(e).0 + code + around(e).1,
        e == Endpoint::Analysis || e == Endpoint::LongLevels || e == Endpoint::ShortLevels
            ==> request_origin(e, code) == PAGE_HOST@ + "/ai-tech-analysi/stock/ab-"@ + code,
        e == Endpoint::FundFlow ==> request_origin(e, code) == PAGE_HOST@ + "/stock/ab-"@ + code
            + "?mainTab="@ + percent_encoded(vstd::utf8::encode_utf8("资金"@)),
        e == Endpoint::Vote ==> request_origin(e, code) == PAGE_HOST@ + "/stock/ab-"@ + code
            + "?mainTab="@ + percent_encoded(vstd::utf8::encode_utf8("股评"@)),
{
    reveal_strlit("https://finance.pae.baidu.com");
    reveal_strlit("/vapi/v1/analysis?code=");
    reveal_strlit("/sapi/v1/get_analyse?code=");
    reveal_strlit("/vapi/v1/fundflow?finance_type=stock&code=");
    reveal_strlit("/vapi/v1/stockvoterecords?code=");
    reveal_strlit("&market=ab&financeType=stock&cycle=");
    reveal_strlit("long");
    reveal_strlit("short");
    reveal_strlit("https://finance.pae.baidu.com/vapi/v1/analysis?code=");
    reveal_strlit("https://finance.pae.baidu.com/sapi/v1/get_analyse?code=");
    reveal_strlit("&market=ab&financeType=stock&cycle=long");
    reveal_strlit("&market=ab&financeType=stock&cycle=short");
    reveal_strlit("https://finance.pae.baidu.com/vapi/v1/fundflow?finance_type=stock&code=");
    reveal_strlit("https://finance.pae.baidu.com/vapi/v1/stockvoterecords?code=");
    assert(request_address(e, code) =~= around(e).0 + code + around(e).1);
}

// ---------------------------------------------------------------- laws of requests

/// The wait before the next try doubles with each: two to the power of the tries before.
pub proof fn waits_double(attempt: u32)
    requires
        attempt >= 1,
    ensures
        backoff_after(attempt) == Wait::Backoff((attempt - 1) as u32),
        backoff_after(1) == Wait::Backoff(0),
{
}

/// A server that names a number of seconds gets them, another two.
pub proof fn a_named_wait_is_kept(header: Seq<char>)
    ensures
        asked_seconds(None) == "2"@,
        strict_real(header) is Some ==> asked_seconds(Some(header)) == header,
        strict_real(header) is None ==> asked_seconds(Some(header)) == "2"@,
{
}

/// One more entry that holds a string puts its name and value behind the cookies before it; one
/// that holds anything else changes nothing.
pub proof fn cookies_add_up(
    entries: Vec<(String, Json)>,
    more: Vec<(String, Json)>,
    key: String,
    item: Json,
)
    requires
        more@ == entries@.push((key, item)),
    ensures
        item is Text && cookie_header(Json::Object(entries)) is None ==> cookie_header(
            Json::Object(more),
        ) == Some(key@ + "="@ + (item->Text_0)@),
        item is Text && cookie_header(Json::Object(entries)) is Some ==> cookie_header(
            Json::Object(more),
        ) == Some(
            (cookie_header(Json::Object(entries))->0) + "; "@ + (key@ + "="@ + (item->Text_0)@),
        ),
        item !is Text ==> cookie_header(Json::Object(more)) == cookie_header(Json::Object(entries)),
{
    assert(more@.drop_last() =~= entries@);
    let before = cookie_pairs(entries@);
    let after = cookie_pairs(more@);
    if item is Text {
        assert(after.drop_last() =~= before);
        assert(after == before.push(key@ + "="@ + (item->Text_0)@));
        assert(before.len() == 0 ==> crate::text::joined(after, "; "@) == after[0]);
        assert(before.len() > 0 ==> crate::text::joined(after, "; "@) == crate::text::joined(
            before,
            "; "@,
        ) + "; "@ + after.last());
    }
}

/// A request says where it seems to come from and by which browser, and sends a cookie where there
/// is one.
pub proof fn requests_name_their_origin(referer: Seq<char>, ua: Seq<char>, cookie: Seq<char>)
    ensures
        common_headers(referer, ua).contains(("referer"@, referer)),
        common_headers(referer, ua).contains(("user-agent"@, ua)),
        cookie.len() > 0 ==> cookie_headers(cookie) == seq![("cookie"@, cookie)],
        cookie.len() == 0 ==> cookie_headers(cookie).len() == 0,
{
    let h = common_headers(referer, ua);
    assert(h[3] == ("referer"@, referer));
    assert(h[0] == ("user-agent"@, ua));
}

/// A browser tells the same of itself in all that it sends: the system in its platform, and the
/// version in its hint, where it sends one.
pub proof fn browsers_agree_with_themselves()
    ensures
        holds(browser(0).0, "Windows NT"@) && holds(browser(0).0, "Chrome/120.0.0.0"@),
        browser(0).2 == "\"Windows\""@,
        holds(browser(0).1, "\"Google Chrome\";v=\"120\""@),
        holds(browser(1).0, "Windows NT"@) && holds(browser(1).0, "Chrome/121.0.0.0"@),
        browser(1).2 == "\"Windows\""@,
        holds(browser(1).1, "\"Google Chrome\";v=\"121\""@),
        holds(browser(2).0, "Linux"@) && holds(browser(2).0, "Chrome/121.0.0.0"@),
        browser(2).2 == "\"Linux\""@,
        holds(browser(2).1, "\"Google Chrome\";v=\"121\""@),
        holds(browser(3).0, "Macintosh"@) && holds(browser(3).0, "Version/17.0"@),
        browser(3).2 == "\"macOS\""@,
        browser(3).1.len() == 0,
{
    reveal_strlit("Mozilla/5.0 (Windows NT 10.0; Win64; x64) AppleWebKit/537.36 (KHTML, like Gecko) Chrome/120.0.0.0 Safari/537.36");
    reveal_strlit("Windows NT");
    reveal_strlit("Chrome/120.0.0.0");
    reveal_strlit("\"Chromium\";v=\"120\", \"Google Chrome\";v=\"120\", \"Not?A_Brand\";v=\"24\"");
    reveal_strlit("\"Google Chrome\";v=\"120\"");
    reveal_strlit("Mozilla/5.0 (Windows NT 10.0; Win64; x64) AppleWebKit/537.36 (KHTML, like Gecko) Chrome/121.0.0.0 Safari/537.36");
    reveal_strlit("Chrome/121.0.0.0");
    reveal_strlit("\"Chromium\";v=\"121\", \"Google Chrome\";v=\"121\", \"Not?A_Brand\";v=\"24\"");
    reveal_strlit("\"Google Chrome\";v=\"121\"");
    reveal_strlit("Mozilla/5.0 (X11; Linux x86_64) AppleWebKit/537.36 (KHTML, like Gecko) Chrome/121.0.0.0 Safari/537.36");
    reveal_strlit("Linux");
    reveal_strlit("Mozilla/5.0 (Macintosh; Intel Mac OS X 10_15_7) AppleWebKit/605.1.15 (KHTML, like Gecko) Version/17.0 Safari/605.1.15");
    reveal_strlit("Macintosh");
    reveal_strlit("Version/17.0");
    reveal_strlit("");
    assert(browser(0).0.subrange(13, 23) =~= "Windows NT"@);
    assert(stands_at(browser(0).0, "Windows NT"@, 13));
    assert(browser(0).0.subrange(81, 97) =~= "Chrome/120.0.0.0"@);
    assert(stands_at(browser(0).0, "Chrome/120.0.0.0"@, 81));
    assert(browser(0).1.subrange(20, 43) =~= "\"Google Chrome\";v=\"120\""@);
    assert(stands_at(browser(0).1, "\"Google Chrome\";v=\"120\""@, 20));
    assert(browser(1).0.subrange(13, 23) =~= "Windows NT"@);
    assert(stands_at(browser(1).0, "Windows NT"@, 13));
    assert(browser(1).0.subrange(81, 97) =~= "Chrome/121.0.0.0"@);
    assert(stands_at(browser(1).0, "Chrome/121.0.0.0"@, 81));
    assert(browser(1).1.subrange(20, 43) =~= "\"Google Chrome\";v=\"121\""@);
    assert(stands_at(browser(1).1, "\"Google Chrome\";v=\"121\""@, 20));
    assert(browser(2).0.subrange(18, 23) =~= "Linux"@);
    assert(stands_at(browser(2).0, "Linux"@, 18));
    assert(browser(2).0.subrange(71, 87) =~= "Chrome/121.0.0.0"@);
    assert(stands_at(browser(2).0, "Chrome/121.0.0.0"@, 71));
    assert(browser(2).1.subrange(20, 43) =~= "\"Google Chrome\";v=\"121\""@);
    assert(stands_at(browser(2).1, "\"Google Chrome\";v=\"121\""@, 20));
    assert(browser(3).0.subrange(13, 22) =~= "Macintosh"@);
    assert(stands_at(browser(3).0, "Macintosh"@, 13));
    assert(browser(3).0.subrange(89, 101) =~= "Version/17.0"@);
    assert(stands_at(browser(3).0, "Version/17.0"@, 89));
}

/// A page with any of six words asks the visitor to prove to be human; a page without them does
/// not.
pub proof fn words_tell_a_challenge(body: Seq<char>)
    ensures
        holds(body, "验证码"@) || holds(body, "安全验证"@) || holds(body, "请完成"@) ==> is_challenge(
            body,
        ),
        holds(body, "captcha"@) || holds(body, "Captcha"@) || holds(body, "Verification"@)
            ==> is_challenge(body),
        is_challenge(body) ==> holds(body, "验证"@) || holds(body, "请完成"@) || holds(body, "aptcha"@)
            || holds(body, "Verification"@),
{
    reveal_strlit("验证码");
    reveal_strlit("安全验证");
    reveal_strlit("验证");
    reveal_strlit("captcha");
    reveal_strlit("Captcha");
    reveal_strlit("aptcha");
    inner_words_stand("验证码"@, "验证"@, 0, body);
    inner_words_stand("安全验证"@, "验证"@, 2, body);
    inner_words_stand("captcha"@, "aptcha"@, 1, body);
    inner_words_stand("Captcha"@, "aptcha"@, 1, body);
}

proof fn inner_words_stand(word: Seq<char>, inner: Seq<char>, at: int, body: Seq<char>)
    requires
        0 <= at <= word.len() - inner.len(),
        word.subrange(at, at + inner.len()) =~= inner,
    ensures
        holds(body, word) ==> holds(body, inner),
{
    if holds(body, word) {
        let k = choose|k: int| #[trigger] stands_at(body, word, k);
        assert(body.subrange(k + at, k + at + inner.len()) =~= body.subrange(
            k,
            k + word.len(),
        ).subrange(at, at + inner.len()));
        assert(stands_at(body, inner, k + at));
    }
}

/// Of the statuses only one that tells of too many requests, or of a server that failed, lets a
/// request be made again; only success lets the body be read; any other ends the request at once,
/// with the status in its error.
pub proof fn only_passing_failures_are_tried_again(
    r: FetchStep,
    attempt: u32,
    status: int,
    reason: Seq<char>,
    retry_after: Option<Seq<char>>,
)
    requires
        attempt >= 1,
        100 <= status < 1000,
        status_asks(r, attempt, status, reason, retry_after),
    ensures
        r is Retry <==> status == 429 || status / 100 == 5,
        r is ReadBody <==> status / 100 == 2,
        r is Fail <==> status != 429 && status / 100 != 5 && status / 100 != 2,
        r matches FetchStep::Fail(error) ==> error@ == "HTTP "@ + decimal(status as nat),
        status == 429 ==> (r matches FetchStep::Retry { error, wait: Wait::Asked(seconds) } && (
        retry_after is None ==> seconds@ == "2"@) && (retry_after matches Some(header)
            ==> strict_real(header) is Some ==> seconds@ == header)),
        status / 100 == 5 ==> (r matches FetchStep::Retry { error, wait: Wait::Backoff(power) }
            && power == attempt - 1),
{
}

/// A document is taken where its result code is the text or the number zero, or where it has none;
/// another code ends the request.
pub proof fn a_result_code_ends_a_request(r: FetchStep, attempt: u32, v: Json)
    requires
        document_asks(r, attempt, Ok(v)),
    ensures
        (forall|code: Json| !#[trigger] has_entry(v, "ResultCode"@, code)) ==> r
            == FetchStep::Done(v),
        forall|code: Json|
            #![trigger has_entry(v, "ResultCode"@, code)]
            has_entry(v, "ResultCode"@, code) ==> (r == FetchStep::Done(v) <==> as_loose_text(
                Some(code),
            ) == Some("0"@)) && (r is Done || r is Fail),
{
    reveal_strlit("0");
    assert("0"@.len() == 1);
    match field(v, "ResultCode"@) {
        Some(code) => {
            a_lookup_finds_the_entry(v, "ResultCode"@, code);
        },
        None => {},
    }
    assert forall|code: Json| #[trigger] has_entry(v, "ResultCode"@, code) implies field(
        v,
        "ResultCode"@,
    ) == Some(code) by {
        a_lookup_finds_the_entry(v, "ResultCode"@, code);
    }
}

/// A body that cannot be read, or that is no document, and a page that asks for a proof of being
/// human let the request be made again; only a document settles it.
pub proof fn only_documents_settle_a_request(
    r: FetchStep,
    attempt: u32,
    body: Result<Seq<char>, Seq<char>>,
)
    requires
        body_asks(r, attempt, body),
    ensures
        body is Err ==> r is Retry,
        body matches Ok(text) && is_challenge(text) ==> (r matches FetchStep::Retry { error, wait }
            && wait == Wait::Challenge),
        body matches Ok(text) ==> !is_challenge(text) ==> document_asks(r, attempt, parsed(text)),
        body matches Ok(text) && !is_challenge(text) && parsed(text) is Err ==> r is Retry,
        r is Done || r is Fail ==> (body matches Ok(text) && parsed(text) is Ok),
        r is Retry || r is Done || r is Fail,
{
}

/// Tries are numbered from one on, as many as are allowed, and then there is none. Between them
/// only a failed try leaves its error.
pub proof fn tries_are_numbered(
    before: Tries,
    after: Tries,
    r: Option<u32>,
    step: FetchStep,
    end: Tries,
    fetched: Fetched,
)
    requires
        before.within(),
        begun(before, after, r),
        settled(after, end, step, fetched),
    ensures
        r is Some <==> before.made < before.max_retries,
        r matches Some(n) ==> 1 <= n <= before.max_retries && n == before.made + 1 && end.made == n,
        r is None ==> end.made == before.max_retries,
        step matches FetchStep::Retry { error, wait } ==> end.last_err == error && fetched
            == Fetched::Again(wait),
        step !is Retry ==> end.last_err == before.last_err && fetched !is Again,
        step matches FetchStep::Done(v) ==> fetched == Fetched::Done(v),
        step matches FetchStep::Fail(e) ==> fetched == Fetched::Failed(e),
        step is ReadBody ==> fetched is ReadBody,
{
}

/// A browser that sends hints sends three: its name, that it is no phone, and its platform; one
/// without hints sends none of them. Requests have names to be shown by.
pub proof fn hints_come_together(sec_ch_ua: Seq<char>, platform: Seq<char>)
    ensures
        sec_ch_ua.len() == 0 ==> hint_headers(sec_ch_ua, platform).len() == 0,
        sec_ch_ua.len() > 0 ==> hint_headers(sec_ch_ua, platform) == seq![
            ("sec-ch-ua"@, sec_ch_ua),
            ("sec-ch-ua-mobile"@, "?0"@),
            ("sec-ch-ua-platform"@, platform),
        ],
        label_of_request(Endpoint::Analysis) == "评分"@,
        label_of_request(Endpoint::LongLevels) == "支撑阻力(long)"@,
        label_of_request(Endpoint::ShortLevels) == "支撑阻力(short)"@,
        label_of_request(Endpoint::FundFlow) == "资金流向"@,
        label_of_request(Endpoint::Vote) == "投票"@,
{
    reveal_strlit("支撑阻力(");
    reveal_strlit("long");
    reveal_strlit("short");
    reveal_strlit(")");
    reveal_strlit("支撑阻力(long)");
    reveal_strlit("支撑阻力(short)");
    assert(label_of_request(Endpoint::LongLevels) =~= "支撑阻力(long)"@);
    assert(label_of_request(Endpoint::ShortLevels) =~= "支撑阻力(short)"@);
}

/// A limiter counts by the minute and pauses for at most a quarter of one, where nothing else is
/// given.
pub proof fn the_numbers_of_the_limiter()
    ensures
        DEFAULT_WINDOW == 60 * 1_000_000_000,
        DEFAULT_WAIT_CAP * 4 == DEFAULT_WINDOW,
{
}

} // verus!
