//! Sending the database to a Telegram chat.

use vstd::prelude::*;

use crate::json::{a_lookup_finds_the_entry, field, has_entry, parse_json, parsed, Json};
use crate::number::{
    fifty_three_bits_are_held, held, held_by_bits, nearest, nearest_whole,
    the_nearest_is_half_off_at_most,
};
use crate::state::{join_path, path_of};
use crate::text::{decimal, first_chars, take_chars, trim, trimmed, write_u64};

verus! {

/// The largest file that is sent, in bytes.
pub const TG_DOC_LIMIT: u64 = 51_380_224;

#[derive(Debug, Clone, Default, PartialEq, Eq)]
pub struct TelegramCfg {
    pub bot_token: String,
    pub chat_id: String,
}

/// The file that keeps token and chat.
pub fn cfg_path(workspace: &str) -> (r: String)
    ensures
        r@ == path_of(workspace@, "telegram.json"@),
{
    join_path(workspace, "telegram.json")
}

/// Token and chat without white space around them, or what to tell where one is missing.
pub fn target(cfg: &TelegramCfg) -> (r: Result<TelegramCfg, String>)
    ensures
        trimmed(cfg.bot_token@).len() > 0 && trimmed(cfg.chat_id@).len() > 0 ==> {
            &&& r matches Ok(t)
            &&& t.bot_token@ == trimmed(cfg.bot_token@)
            &&& t.chat_id@ == trimmed(cfg.chat_id@)
        },
        trimmed(cfg.bot_token@).len() == 0 || trimmed(cfg.chat_id@).len() == 0 ==> {
            &&& r matches Err(e)
            &&& e@ == "请先填 Bot Token 和 Chat ID（点「怎么发」看步骤）"@
        },
{
    let bot_token = trim(&cfg.bot_token);
    let chat_id = trim(&cfg.chat_id);
    if bot_token.as_str().is_empty() || chat_id.as_str().is_empty() {
        return Err("请先填 Bot Token 和 Chat ID（点「怎么发」看步骤）".to_string());
    }
    Ok(TelegramCfg { bot_token, chat_id })
}

/// What to tell where there is no database.
pub fn no_database(db_path: &str) -> (r: String)
    ensures
        r@ == "找不到数据库: "@ + db_path@,
{
    let mut s = "找不到数据库: ".to_string();
    s.append(db_path);
    s
}

/// The bytes of a megabyte.
pub const MEGABYTE: u64 = 1_048_576;

/// The tenths of a megabyte nearest to a size.
pub open spec fn tenths(size: int) -> int {
    nearest(held(size) * 10, MEGABYTE as int)
}

/// A size in megabytes with one decimal.
pub open spec fn megabytes(size: int) -> Seq<char> {
    decimal((tenths(size) / 10) as nat) + "."@ + decimal((tenths(size) % 10) as nat)
}

/// A size in megabytes with one decimal.
pub fn mb_text(size: u64) -> (r: String)
    ensures
        r@ == megabytes(size as int),
{
    let n: u128 = nearest_whole(held_by_bits(size) * 10, MEGABYTE as u128);
    assert(n == tenths(size as int));
    let mut s = write_u64((n / 10) as u64);
    s.append(".");
    s.append(&write_u64((n % 10) as u64));
    s
}

/// Whether a file may be sent; what to tell where it is too large.
pub fn fits_limit(size: u64) -> (r: Result<(), String>)
    ensures
        size <= TG_DOC_LIMIT ==> r is Ok,
        size > TG_DOC_LIMIT ==> (r matches Err(e) && e@ == "压缩后仍超过 Telegram 50MB 限制（"@
            + megabytes(size as int) + " MB）。请用 U 盘或微信文件传输助手拷贝原库。"@),
{
    if size > TG_DOC_LIMIT {
        let mut s = "压缩后仍超过 Telegram 50MB 限制（".to_string();
        s.append(&mb_text(size));
        s.append(" MB）。请用 U 盘或微信文件传输助手拷贝原库。");
        Err(s)
    } else {
        Ok(())
    }
}

/// The line of the log with the size of the file.
pub fn size_line(size: u64) -> (r: String)
    ensures
        r@ == "压缩后 "@ + megabytes(size as int) + " MB"@,
{
    let mut s = "压缩后 ".to_string();
    s.append(&mb_text(size));
    s.append(" MB");
    s
}

/// The address to which the file is sent.
pub fn send_url(token: &str) -> (r: String)
    ensures
        r@ == "https://api.telegram.org/bot"@ + token@ + "/sendDocument"@,
{
    let mut s = "https://api.telegram.org/bot".to_string();
    s.append(token);
    s.append("/sendDocument");
    s
}

/// The caption of the file.
pub fn caption(stamp: &str, size: u64) -> (r: String)
    ensures
        r@ == "MarketPulse 数据库 "@ + stamp@ + "\n"@ + megabytes(size as int) + " MB gzip"@,
{
    let mut s = "MarketPulse 数据库 ".to_string();
    s.append(stamp);
    s.append("\n");
    s.append(&mb_text(size));
    s.append(" MB gzip");
    s
}

/// A document that says that the file was taken.
pub open spec fn says_ok(document: Result<Json, Seq<char>>) -> bool {
    match document {
        Ok(v) => field(v, "ok"@) == Some(Json::Bool(true)),
        Err(_) => false,
    }
}

/// Whether a reply with a document is a success; `body` is its text.
pub fn judge_document(document: Result<Json, String>, body: &str) -> (r: Result<(), String>)
    ensures
        r is Ok <==> (document matches Ok(v) && field(v, "ok"@) == Some(Json::Bool(true))),
        r matches Err(e) ==> e@ == "Telegram 拒绝: "@ + first_chars(body@, 300),
{
    let taken = match document {
        Ok(v) => match v.get("ok") {
            Some(Json::Bool(b)) => *b,
            _ => false,
        },
        Err(_) => false,
    };
    if taken {
        Ok(())
    } else {
        let mut s = "Telegram 拒绝: ".to_string();
        s.append(&take_chars(body, 300));
        Err(s)
    }
}

/// Whether a reply is a success: its status says so, and so does its document. `reason` is the
/// status as the transport words it.
pub fn judge_reply(status: u16, reason: &str, body: &str) -> (r: Result<(), String>)
    ensures
        200 <= status <= 299 ==> {
            &&& r is Ok <==> says_ok(parsed(body@))
            &&& r matches Err(e) ==> e@ == "Telegram 拒绝: "@ + first_chars(body@, 300)
        },
        !(200 <= status <= 299) ==> (r matches Err(e) && e@ == "Telegram HTTP "@ + reason@ + ": "@
            + first_chars(body@, 300)),
{
    if !(status >= 200 && status <= 299) {
        let mut s = "Telegram HTTP ".to_string();
        s.append(reason);
        s.append(": ");
        s.append(&take_chars(body, 300));
        return Err(s);
    }
    judge_document(parse_json(body), body)
}

/// How to send the database, step by step.
pub const HELP: &'static str =
    "Telegram 是目前能直接从本程序发文件的免费通道（官方 Bot API）。百度网盘/蓝奏云没有可用的免费开放接口，本程序不会去登那些网盘。\n\n操作步骤：\n1) 手机打开 Telegram，搜 BotFather，发 /newbot，按提示拿到 Bot Token\n2) 搜自己刚建的 bot，点开始，给它发一句「你好」\n3) 浏览器打开：https://api.telegram.org/bot<你的Token>/getUpdates\n4) 在返回的 JSON 里找 chat.id（一串数字），填到本页 Chat ID\n5) Token 和 Chat ID 填好后点「发送数据库」\n6) 国内直连 Telegram 常被拦：先开 VPN，左侧联网方式选「走系统代理」再发\n7) 压缩后超过 50MB 发不出去，请用 U 盘或微信文件传输助手拷贝 market_data.db";

/// How to send the database, step by step.
pub fn help_text() -> (r: &'static str)
    ensures
        r@ == HELP@,
{
    HELP
}

/// A size is shown to the nearest tenth of a megabyte: a whole number, a point and one digit.
pub proof fn sizes_are_shown_to_a_tenth(size: int)
    requires
        0 <= size < 0x20_0000_0000_0000,
    ensures
        -1_048_576 <= 2 * (tenths(size) * 1_048_576 - 10 * size) <= 1_048_576,
        exists|whole: nat, digit: nat|
            {
                &&& digit < 10
                &&& whole * 10 + digit == tenths(size)
                &&& megabytes(size) == #[trigger] decimal(whole) + "."@ + #[trigger] decimal(digit)
            },
{
    fifty_three_bits_are_held(size);
    the_nearest_is_half_off_at_most(size * 10, 1_048_576);
    assert(tenths(size) >= 0);
    let whole: nat = (tenths(size) / 10) as nat;
    let digit: nat = (tenths(size) % 10) as nat;
    assert(whole * 10 + digit == tenths(size));
    assert(megabytes(size) == decimal(whole) + "."@ + decimal(digit));
}

/// A reply is a success only where it says `ok` with the value true.
pub proof fn only_true_is_ok(v: Json)
    ensures
        says_ok(Ok(v)) <==> has_entry(v, "ok"@, Json::Bool(true)),
{
    a_lookup_finds_the_entry(v, "ok"@, Json::Bool(true));
}

/// A file may hold forty-nine megabytes of two to the twenty bytes.
pub proof fn the_limit_is_below_fifty_megabytes()
    ensures
        TG_DOC_LIMIT == 49 * MEGABYTE,
        MEGABYTE == 1024 * 1024,
{
}

} // verus!
