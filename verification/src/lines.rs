//! What the lines of the log tell, each number behind its word.

use vstd::prelude::*;

use crate::checklist::{lack_text, quoted_list, retry_line};
use crate::crawler::{failed_text, finished_text, logs_more, slowdown_text, Slowdown};
use crate::em_crawler::{ends_text, final_text, page_text, rows_of, Pager, PassTally};
use crate::json::Json;
use crate::progress::{problem_text, problems_text};
use crate::rescrape::round_text;
use crate::state::{asking_line, muted_line, problem_line, NoticeView, ProblemView};
use crate::text::{decimal, decimal_int, holds, stands_at, views};

verus! {

/// A word stands between what is before it and what is behind it.
proof fn it_stands(before: Seq<char>, word: Seq<char>, after: Seq<char>)
    ensures
        holds(before + word + after, word),
{
    let all = before + word + after;
    let at = before.len() as int;
    assert(all.subrange(at, at + word.len()) =~= word);
    assert(stands_at(all, word, at));
}

/// The line at the end of a crawl tells how many stocks came, were skipped and failed, each number
/// behind its word.
pub proof fn the_end_tells_the_counts(done: nat, skipped: nat, failed: nat)
    ensures
        holds(finished_text(done, skipped, failed), "完成: 新增 "@ + decimal(done)),
        holds(finished_text(done, skipped, failed), " 跳过 "@ + decimal(skipped)),
        holds(finished_text(done, skipped, failed), " 失败 "@ + decimal(failed)),
{
    it_stands(Seq::<char>::empty(), "完成: 新增 "@ + decimal(done), " 跳过 "@ + decimal(skipped) + " 失败 "@
        + decimal(failed));
    assert((Seq::<char>::empty()) + ("完成: 新增 "@ + decimal(done)) + (" 跳过 "@ + decimal(skipped)
        + " 失败 "@ + decimal(failed)) =~= finished_text(done, skipped, failed));
    it_stands("完成: 新增 "@ + decimal(done), " 跳过 "@ + decimal(skipped), " 失败 "@ + decimal(failed));
    assert(("完成: 新增 "@ + decimal(done)) + (" 跳过 "@ + decimal(skipped)) + (" 失败 "@ + decimal(failed))
        =~= finished_text(done, skipped, failed));
    it_stands("完成: 新增 "@ + decimal(done) + " 跳过 "@ + decimal(skipped), " 失败 "@ + decimal(failed),
        Seq::<char>::empty());
    assert(("完成: 新增 "@ + decimal(done) + " 跳过 "@ + decimal(skipped)) + (" 失败 "@ + decimal(failed))
        + (Seq::<char>::empty()) =~= finished_text(done, skipped, failed));
}

/// The line at the end of the reports tells how many stocks they brought, how many were skipped,
/// and how many came and failed of those that were asked for by themselves.
pub proof fn the_end_of_reports_tells_the_counts(done: nat, skipped: nat, tally: PassTally)
    ensures
        holds(final_text(done, skipped, tally), "东财完成: 批量"@ + decimal(done)),
        holds(final_text(done, skipped, tally), " 跳过"@ + decimal(skipped)),
        holds(final_text(done, skipped, tally), " 估值成功"@ + decimal(tally.val_done as nat)),
        holds(final_text(done, skipped, tally), " 仍失败"@ + decimal(tally.val_fail as nat)),
{
    it_stands(Seq::<char>::empty(), "东财完成: 批量"@ + decimal(done), " 跳过"@ + decimal(skipped)
        + " 估值成功"@ + decimal(tally.val_done as nat) + " 仍失败"@ + decimal(tally.val_fail as nat));
    assert((Seq::<char>::empty()) + ("东财完成: 批量"@ + decimal(done)) + (" 跳过"@ + decimal(skipped)
        + " 估值成功"@ + decimal(tally.val_done as nat) + " 仍失败"@ + decimal(tally.val_fail as nat))
        =~= final_text(done, skipped, tally));
    it_stands("东财完成: 批量"@ + decimal(done), " 跳过"@ + decimal(skipped), " 估值成功"@
        + decimal(tally.val_done as nat) + " 仍失败"@ + decimal(tally.val_fail as nat));
    assert(("东财完成: 批量"@ + decimal(done)) + (" 跳过"@ + decimal(skipped)) + (" 估值成功"@
        + decimal(tally.val_done as nat) + " 仍失败"@ + decimal(tally.val_fail as nat))
        =~= final_text(done, skipped, tally));
    it_stands("东财完成: 批量"@ + decimal(done) + " 跳过"@ + decimal(skipped), " 估值成功"@
        + decimal(tally.val_done as nat), " 仍失败"@ + decimal(tally.val_fail as nat));
    assert(("东财完成: 批量"@ + decimal(done) + " 跳过"@ + decimal(skipped)) + (" 估值成功"@
        + decimal(tally.val_done as nat)) + (" 仍失败"@ + decimal(tally.val_fail as nat))
        =~= final_text(done, skipped, tally));
    it_stands("东财完成: 批量"@ + decimal(done) + " 跳过"@ + decimal(skipped) + " 估值成功"@
        + decimal(tally.val_done as nat), " 仍失败"@ + decimal(tally.val_fail as nat),
        Seq::<char>::empty());
    assert(("东财完成: 批量"@ + decimal(done) + " 跳过"@ + decimal(skipped) + " 估值成功"@
        + decimal(tally.val_done as nat)) + (" 仍失败"@ + decimal(tally.val_fail as nat))
        + (Seq::<char>::empty()) =~= final_text(done, skipped, tally));
}

/// The line on a fall of the level tells from where, to where, and how long the pause is.
pub proof fn a_fall_is_told(s: Slowdown)
    requires
        s.to < s.from,
    ensures
        holds((slowdown_text(s)->0), "遇 403，并发从 "@ + decimal(s.from as nat)),
        holds((slowdown_text(s)->0), " 路降到 "@ + decimal(s.to as nat)),
        holds((slowdown_text(s)->0), " 路，暂停 "@ + decimal(s.pause as nat) + "s"@),
        slowdown_text(s) is Some,
{
    it_stands(Seq::<char>::empty(), "遇 403，并发从 "@ + decimal(s.from as nat), " 路降到 "@
        + decimal(s.to as nat) + " 路，暂停 "@ + decimal(s.pause as nat) + "s"@);
    assert((Seq::<char>::empty()) + ("遇 403，并发从 "@ + decimal(s.from as nat)) + (" 路降到 "@
        + decimal(s.to as nat) + " 路，暂停 "@ + decimal(s.pause as nat) + "s"@)
        =~= (slowdown_text(s)->0));
    it_stands("遇 403，并发从 "@ + decimal(s.from as nat), " 路降到 "@ + decimal(s.to as nat), " 路，暂停 "@
        + decimal(s.pause as nat) + "s"@);
    assert(("遇 403，并发从 "@ + decimal(s.from as nat)) + (" 路降到 "@ + decimal(s.to as nat)) + (" 路，暂停 "@
        + decimal(s.pause as nat) + "s"@) =~= (slowdown_text(s)->0));
    it_stands("遇 403，并发从 "@ + decimal(s.from as nat) + " 路降到 "@ + decimal(s.to as nat), " 路，暂停 "@
        + decimal(s.pause as nat) + "s"@, Seq::<char>::empty());
    assert(("遇 403，并发从 "@ + decimal(s.from as nat) + " 路降到 "@ + decimal(s.to as nat)) + (" 路，暂停 "@
        + decimal(s.pause as nat) + "s"@) + (Seq::<char>::empty()) =~= (slowdown_text(s)->0));
}

/// The line of a failed visit tells the stock, the error, and the way by which it was asked for.
pub proof fn a_failure_is_told(code: Seq<char>, error: Seq<char>)
    ensures
        holds(failed_text(true, code, error), "["@ + "代理"@),
        holds(failed_text(true, code, error), "] 股票 "@ + code),
        holds(failed_text(true, code, error), " 抓取失败: "@ + error),
{
    it_stands(Seq::<char>::empty(), "["@ + "代理"@, "] 股票 "@ + code + " 抓取失败: "@ + error);
    assert((Seq::<char>::empty()) + ("["@ + "代理"@) + ("] 股票 "@ + code + " 抓取失败: "@ + error)
        =~= failed_text(true, code, error));
    it_stands("["@ + "代理"@, "] 股票 "@ + code, " 抓取失败: "@ + error);
    assert(("["@ + "代理"@) + ("] 股票 "@ + code) + (" 抓取失败: "@ + error) =~= failed_text(true, code,
        error));
    it_stands("["@ + "代理"@ + "] 股票 "@ + code, " 抓取失败: "@ + error, Seq::<char>::empty());
    assert(("["@ + "代理"@ + "] 股票 "@ + code) + (" 抓取失败: "@ + error) + (Seq::<char>::empty())
        =~= failed_text(true, code, error));
}

/// The line of a round tells its number, how many there may be, and how many stocks are due.
pub proof fn a_round_is_told(round: int, max: int, due: int)
    ensures
        holds(round_text(round, max, due), "[rescrape] 第 "@ + decimal(round as nat)),
        holds(round_text(round, max, due), "/"@ + decimal(max as nat)),
        holds(round_text(round, max, due), " 次回填，待处理 "@ + decimal(due as nat)),
{
    it_stands(Seq::<char>::empty(), "[rescrape] 第 "@ + decimal(round as nat), "/"@
        + decimal(max as nat) + " 次回填，待处理 "@ + decimal(due as nat) + " 支"@);
    assert((Seq::<char>::empty()) + ("[rescrape] 第 "@ + decimal(round as nat)) + ("/"@
        + decimal(max as nat) + " 次回填，待处理 "@ + decimal(due as nat) + " 支"@) =~= round_text(round,
        max, due));
    it_stands("[rescrape] 第 "@ + decimal(round as nat), "/"@ + decimal(max as nat), " 次回填，待处理 "@
        + decimal(due as nat) + " 支"@);
    assert(("[rescrape] 第 "@ + decimal(round as nat)) + ("/"@ + decimal(max as nat)) + (" 次回填，待处理 "@
        + decimal(due as nat) + " 支"@) =~= round_text(round, max, due));
    it_stands("[rescrape] 第 "@ + decimal(round as nat) + "/"@ + decimal(max as nat), " 次回填，待处理 "@
        + decimal(due as nat), " 支"@);
    assert(("[rescrape] 第 "@ + decimal(round as nat) + "/"@ + decimal(max as nat)) + (" 次回填，待处理 "@
        + decimal(due as nat)) + (" 支"@) =~= round_text(round, max, due));
}

/// The line of a stock that was asked for again and still lacks something tells what, and how often
/// it was tried.
pub proof fn a_lack_that_stays_is_told(code: Seq<char>, missing: Seq<Seq<char>>, tries: int)
    requires
        missing.len() > 0,
    ensures
        holds(retry_line(code, missing, tries), "[rescrape] ✗ "@ + code),
        holds(retry_line(code, missing, tries), " 仍缺 "@ + decimal(missing.len())),
        holds(retry_line(code, missing, tries), " 项: "@ + quoted_list(missing)),
        holds(retry_line(code, missing, tries), " (tries="@ + decimal_int(tries) + ")"@),
{
    it_stands(Seq::<char>::empty(), "[rescrape] ✗ "@ + code, " 仍缺 "@ + decimal(missing.len())
        + " 项: "@ + quoted_list(missing) + " (tries="@ + decimal_int(tries) + ")"@);
    assert((Seq::<char>::empty()) + ("[rescrape] ✗ "@ + code) + (" 仍缺 "@ + decimal(missing.len())
        + " 项: "@ + quoted_list(missing) + " (tries="@ + decimal_int(tries) + ")"@)
        =~= retry_line(code, missing, tries));
    it_stands("[rescrape] ✗ "@ + code, " 仍缺 "@ + decimal(missing.len()), " 项: "@
        + quoted_list(missing) + " (tries="@ + decimal_int(tries) + ")"@);
    assert(("[rescrape] ✗ "@ + code) + (" 仍缺 "@ + decimal(missing.len())) + (" 项: "@
        + quoted_list(missing) + " (tries="@ + decimal_int(tries) + ")"@) =~= retry_line(code,
        missing, tries));
    it_stands("[rescrape] ✗ "@ + code + " 仍缺 "@ + decimal(missing.len()), " 项: "@
        + quoted_list(missing), " (tries="@ + decimal_int(tries) + ")"@);
    assert(("[rescrape] ✗ "@ + code + " 仍缺 "@ + decimal(missing.len())) + (" 项: "@
        + quoted_list(missing)) + (" (tries="@ + decimal_int(tries) + ")"@) =~= retry_line(code,
        missing, tries));
    it_stands("[rescrape] ✗ "@ + code + " 仍缺 "@ + decimal(missing.len()) + " 项: "@
        + quoted_list(missing), " (tries="@ + decimal_int(tries) + ")"@, Seq::<char>::empty());
    assert(("[rescrape] ✗ "@ + code + " 仍缺 "@ + decimal(missing.len()) + " 项: "@
        + quoted_list(missing)) + (" (tries="@ + decimal_int(tries) + ")"@) + (Seq::<char>::empty())
        =~= retry_line(code, missing, tries));
}

/// The detail of a lack tells how many tables lack the stock and which.
pub proof fn a_lack_is_told(missing: Seq<Seq<char>>)
    ensures
        holds(lack_text(missing), "完整性缺 "@ + decimal(missing.len())),
        holds(lack_text(missing), " 项: "@ + quoted_list(missing)),
{
    it_stands(Seq::<char>::empty(), "完整性缺 "@ + decimal(missing.len()), " 项: "@
        + quoted_list(missing));
    assert((Seq::<char>::empty()) + ("完整性缺 "@ + decimal(missing.len())) + (" 项: "@
        + quoted_list(missing)) =~= lack_text(missing));
    it_stands("完整性缺 "@ + decimal(missing.len()), " 项: "@ + quoted_list(missing),
        Seq::<char>::empty());
    assert(("完整性缺 "@ + decimal(missing.len())) + (" 项: "@ + quoted_list(missing))
        + (Seq::<char>::empty()) =~= lack_text(missing));
}

/// The line at the end of a report tells which one and how many rows it has.
pub proof fn the_end_of_a_report_is_told(label: Seq<char>, rows: nat)
    ensures
        holds(ends_text(label, rows), label + " 完成，共 "@),
        holds(ends_text(label, rows), " 完成，共 "@ + decimal(rows) + " 条"@),
{
    it_stands(Seq::<char>::empty(), label + " 完成，共 "@, decimal(rows) + " 条"@);
    assert((Seq::<char>::empty()) + (label + " 完成，共 "@) + (decimal(rows) + " 条"@)
        =~= ends_text(label, rows));
    it_stands(label, " 完成，共 "@ + decimal(rows) + " 条"@, Seq::<char>::empty());
    assert((label) + (" 完成，共 "@ + decimal(rows) + " 条"@) + (Seq::<char>::empty())
        =~= ends_text(label, rows));
}

/// A problem tells its kind, the stock, the detail and the page to look at.
pub proof fn a_problem_is_written(p: ProblemView)
    ensures
        holds(problem_text(p), "["@ + p.kind + "] "@ + p.code),
        holds(problem_text(p), " "@ + p.name),
        holds(problem_text(p), " — "@ + p.detail),
        holds(problem_text(p), "\n"@ + p.page_url),
{
    it_stands(Seq::<char>::empty(), "["@ + p.kind + "] "@ + p.code, " "@ + p.name + " — "@
        + p.detail + "\n"@ + p.page_url + "\n\n"@);
    assert((Seq::<char>::empty()) + ("["@ + p.kind + "] "@ + p.code) + (" "@ + p.name + " — "@
        + p.detail + "\n"@ + p.page_url + "\n\n"@) =~= problem_text(p));
    it_stands("["@ + p.kind + "] "@ + p.code, " "@ + p.name, " — "@ + p.detail + "\n"@ + p.page_url
        + "\n\n"@);
    assert(("["@ + p.kind + "] "@ + p.code) + (" "@ + p.name) + (" — "@ + p.detail + "\n"@
        + p.page_url + "\n\n"@) =~= problem_text(p));
    it_stands("["@ + p.kind + "] "@ + p.code + " "@ + p.name, " — "@ + p.detail, "\n"@ + p.page_url
        + "\n\n"@);
    assert(("["@ + p.kind + "] "@ + p.code + " "@ + p.name) + (" — "@ + p.detail) + ("\n"@
        + p.page_url + "\n\n"@) =~= problem_text(p));
    it_stands("["@ + p.kind + "] "@ + p.code + " "@ + p.name + " — "@ + p.detail, "\n"@
        + p.page_url, "\n\n"@);
    assert(("["@ + p.kind + "] "@ + p.code + " "@ + p.name + " — "@ + p.detail) + ("\n"@
        + p.page_url) + ("\n\n"@) =~= problem_text(p));
}

/// The line of a failure that waits for an answer tells its kind, the stock and the detail.
pub proof fn a_waiting_failure_is_told(n: NoticeView)
    ensures
        holds(asking_line(n), "⚠ 需确认: ["@ + n.kind + "] "@ + n.code),
        holds(asking_line(n), " "@ + n.name),
        holds(asking_line(n), " — "@ + n.detail),
{
    it_stands(Seq::<char>::empty(), "⚠ 需确认: ["@ + n.kind + "] "@ + n.code, " "@ + n.name + " — "@
        + n.detail);
    assert((Seq::<char>::empty()) + ("⚠ 需确认: ["@ + n.kind + "] "@ + n.code) + (" "@ + n.name
        + " — "@ + n.detail) =~= asking_line(n));
    it_stands("⚠ 需确认: ["@ + n.kind + "] "@ + n.code, " "@ + n.name, " — "@ + n.detail);
    assert(("⚠ 需确认: ["@ + n.kind + "] "@ + n.code) + (" "@ + n.name) + (" — "@ + n.detail)
        =~= asking_line(n));
    it_stands("⚠ 需确认: ["@ + n.kind + "] "@ + n.code + " "@ + n.name, " — "@ + n.detail,
        Seq::<char>::empty());
    assert(("⚠ 需确认: ["@ + n.kind + "] "@ + n.code + " "@ + n.name) + (" — "@ + n.detail)
        + (Seq::<char>::empty()) =~= asking_line(n));
}

/// The line of a failure of a muted kind tells its kind, the stock and the detail.
pub proof fn a_muted_failure_is_told(n: NoticeView)
    ensures
        holds(muted_line(n), "[同类已确认不再问] "@ + n.kind + " "@ + n.code),
        holds(muted_line(n), " "@ + n.name + " "@ + n.detail),
{
    it_stands(Seq::<char>::empty(), "[同类已确认不再问] "@ + n.kind + " "@ + n.code, " "@ + n.name + " "@
        + n.detail);
    assert((Seq::<char>::empty()) + ("[同类已确认不再问] "@ + n.kind + " "@ + n.code) + (" "@ + n.name
        + " "@ + n.detail) =~= muted_line(n));
    it_stands("[同类已确认不再问] "@ + n.kind + " "@ + n.code, " "@ + n.name + " "@ + n.detail,
        Seq::<char>::empty());
    assert(("[同类已确认不再问] "@ + n.kind + " "@ + n.code) + (" "@ + n.name + " "@ + n.detail)
        + (Seq::<char>::empty()) =~= muted_line(n));
}

/// The line of a page tells its number, the rows on it and the rows so far.
pub proof fn a_page_is_told(p: Pager, label: Seq<char>, reply: Json)
    requires
        rows_of(reply).len() > 0,
        !p.again,
    ensures
        holds((page_text(p, label, Ok(reply))->0), label + " 第 "@ + decimal(p.page as nat)),
        holds((page_text(p, label, Ok(reply))->0), " 页 +"@ + decimal(rows_of(reply).len())),
        holds((page_text(p, label, Ok(reply))->0), "，累计 "@ + decimal(p.rows@.len()
            + rows_of(reply).len())),
        page_text(p, label, Ok(reply)) is Some,
{
    it_stands(Seq::<char>::empty(), label + " 第 "@ + decimal(p.page as nat), " 页 +"@
        + decimal(rows_of(reply).len()) + "，累计 "@ + decimal(p.rows@.len() + rows_of(reply).len()));
    assert((Seq::<char>::empty()) + (label + " 第 "@ + decimal(p.page as nat)) + (" 页 +"@
        + decimal(rows_of(reply).len()) + "，累计 "@ + decimal(p.rows@.len() + rows_of(reply).len()))
        =~= (page_text(p, label, Ok(reply))->0));
    it_stands(label + " 第 "@ + decimal(p.page as nat), " 页 +"@ + decimal(rows_of(reply).len()),
        "，累计 "@ + decimal(p.rows@.len() + rows_of(reply).len()));
    assert((label + " 第 "@ + decimal(p.page as nat)) + (" 页 +"@ + decimal(rows_of(reply).len()))
        + ("，累计 "@ + decimal(p.rows@.len() + rows_of(reply).len())) =~= (page_text(p, label,
        Ok(reply))->0));
    it_stands(label + " 第 "@ + decimal(p.page as nat) + " 页 +"@ + decimal(rows_of(reply).len()),
        "，累计 "@ + decimal(p.rows@.len() + rows_of(reply).len()), Seq::<char>::empty());
    assert((label + " 第 "@ + decimal(p.page as nat) + " 页 +"@ + decimal(rows_of(reply).len()))
        + ("，累计 "@ + decimal(p.rows@.len() + rows_of(reply).len())) + (Seq::<char>::empty())
        =~= (page_text(p, label, Ok(reply))->0));
}

/// The way of a visit is told: a proxy, or none.
pub proof fn the_way_is_told(code: Seq<char>, error: Seq<char>)
    ensures
        holds(failed_text(false, code, error), "["@ + "直连"@),
        holds(failed_text(false, code, error), "] 股票 "@ + code),
        holds(failed_text(false, code, error), " 抓取失败: "@ + error),
{
    let none = Seq::<char>::empty();
    let text = failed_text(false, code, error);
    it_stands(none, "["@ + "直连"@, "] 股票 "@ + code + " 抓取失败: "@ + error);
    assert(none + ("["@ + "直连"@) + ("] 股票 "@ + code + " 抓取失败: "@ + error) =~= text);
    it_stands("["@ + "直连"@, "] 股票 "@ + code, " 抓取失败: "@ + error);
    assert(("["@ + "直连"@) + ("] 股票 "@ + code) + (" 抓取失败: "@ + error) =~= text);
    it_stands("["@ + "直连"@ + "] 股票 "@ + code, " 抓取失败: "@ + error, none);
    assert(("["@ + "直连"@ + "] 股票 "@ + code) + (" 抓取失败: "@ + error) + none =~= text);
}

/// The log keeps what it had and gets each line behind it, in order, with the time in front.
pub proof fn the_log_grows_at_its_end(before: Seq<String>, stamp: Seq<char>, lines: Seq<Seq<char>>)
    ensures
        logs_more(before, stamp, lines).len() == before.len() + lines.len(),
        forall|i: int|
            #![trigger before[i]]
            0 <= i < before.len() ==> logs_more(before, stamp, lines)[i] == before[i]@,
        forall|i: int|
            #![trigger lines[i]]
            0 <= i < lines.len() ==> logs_more(before, stamp, lines)[before.len() + i] == "["@
                + stamp
                + "] "@ + lines[i],
{
    assert forall|i: int| #![trigger before[i]] 0 <= i < before.len() implies logs_more(
        before,
        stamp,
        lines,
    )[i] == before[i]@ by {
        assert(views(before)[i] == before[i]@);
    }
}

/// Every problem of the list is written, in order.
pub proof fn problems_are_written_in_order(list: Seq<ProblemView>, p: ProblemView)
    ensures
        problems_text(list.push(p)) == problems_text(list) + problem_text(p),
        problems_text(Seq::empty()).len() == 0,
{
    assert(list.push(p).drop_last() =~= list);
}

/// The line of a problem names the page to look at, where there is one.
pub proof fn a_problem_names_its_page(p: ProblemView)
    ensures
        holds(problem_line(p), "⚠ ["@ + p.kind + "] "@ + p.code + " "@ + p.name + " — "@
            + p.detail),
        p.page_url.len() > 0 ==> holds(problem_line(p), "  网页: "@ + p.page_url),
{
    let none = Seq::<char>::empty();
    let line = "⚠ ["@ + p.kind + "] "@ + p.code + " "@ + p.name + " — "@ + p.detail;
    let page = "  网页: "@ + p.page_url;
    if p.page_url.len() > 0 {
        it_stands(none, line, page);
        assert(none + line + page =~= problem_line(p));
        it_stands(line, page, none);
        assert(line + page + none =~= problem_line(p));
    } else {
        it_stands(none, line, none);
        assert(none + line + none =~= problem_line(p));
    }
}

} // verus!
