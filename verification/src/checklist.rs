//! The list of stocks to look into: which data they lack, and how often that was tried.

use vstd::prelude::*;

use crate::db::Completeness;
use crate::json::{copy_text, text_view};
use crate::text::{decimal, decimal_int, joined, same, views, write_i64, write_usize};

verus! {

#[derive(Debug, Clone, Copy, PartialEq, Eq, Structural)]
pub enum CheckStatus {
    Pending,
    /// Tried as often as allowed.
    Exhausted,
    Resolved,
}

#[derive(Debug, Clone, PartialEq, Eq)]
pub struct CheckItem {
    pub code: String,
    pub name: String,
    pub missing: Vec<String>,
    pub missing_count: usize,
    pub tries: i64,
    pub last_try: Option<String>,
    pub status: CheckStatus,
}

#[derive(Debug, Clone, Default, PartialEq, Eq)]
pub struct CheckList {
    pub trade_date: String,
    pub updated_at: String,
    pub items: Vec<CheckItem>,
}

/// Where the first item of a stock stands, from a place on.
pub open spec fn place_from(items: Seq<CheckItem>, from: int, code: Seq<char>) -> Option<int>
    decreases items.len() - from,
{
    if from < 0 || from >= items.len() {
        None
    } else if items[from].code@ == code {
        Some(from)
    } else {
        place_from(items, from + 1, code)
    }
}

/// Where the first item of a stock stands.
pub open spec fn place(items: Seq<CheckItem>, code: Seq<char>) -> Option<int> {
    place_from(items, 0, code)
}

/// No stock stands in the list twice.
pub open spec fn distinct(items: Seq<CheckItem>) -> bool {
    forall|i: int, j: int|
        0 <= i < j < items.len() ==> (#[trigger] items[i]).code@ != (#[trigger] items[j]).code@
}

proof fn place_is_first(items: Seq<CheckItem>, from: int, code: Seq<char>)
    requires
        0 <= from,
    ensures
        match place_from(items, from, code) {
            Some(i) => {
                &&& from <= i < items.len()
                &&& items[i].code@ == code
                &&& forall|j: int| from <= j < i ==> (#[trigger] items[j]).code@ != code
            },
            None => forall|j: int| from <= j < items.len() ==> (#[trigger] items[j]).code@ != code,
        },
    decreases items.len() - from,
{
    if from < items.len() && items[from].code@ != code {
        place_is_first(items, from + 1, code);
    }
}

/// A list with an item put in: in the place of the first one of its stock, else at the end.
pub open spec fn with_item(items: Seq<CheckItem>, item: CheckItem) -> Seq<CheckItem> {
    match place(items, item.code@) {
        Some(i) => items.update(i, item),
        None => items.push(item),
    }
}

/// Putting an item in keeps every other stock as it was, and no stock comes to stand twice.
pub proof fn upsert_keeps_stocks_distinct(items: Seq<CheckItem>, item: CheckItem)
    requires
        distinct(items),
    ensures
        distinct(with_item(items, item)),
        place(with_item(items, item), item.code@) matches Some(i) && with_item(items, item)[i]
            == item,
        forall|i: int|
            0 <= i < items.len() && (#[trigger] items[i]).code@ != item.code@ ==> with_item(
                items,
                item,
            )[i] == items[i],
{
    let after = with_item(items, item);
    place_is_first(items, 0, item.code@);
    place_is_first(after, 0, item.code@);
    match place(items, item.code@) {
        Some(i) => {
            assert(after[i] == item);
            assert forall|a: int, b: int| 0 <= a < b < after.len() implies (#[trigger]
            after[a]).code@ != (#[trigger] after[b]).code@ by {
                if a == i {
                    assert(items[b].code@ != items[i].code@);
                } else if b == i {
                    assert(items[a].code@ != items[i].code@);
                } else {
                    assert(items[a].code@ != items[b].code@);
                }
            }
        },
        None => {
            assert(after[items.len() as int] == item);
            assert forall|a: int, b: int| 0 <= a < b < after.len() implies (#[trigger]
            after[a]).code@ != (#[trigger] after[b]).code@ by {
                if b == items.len() {
                    assert(items[a].code@ != item.code@);
                } else {
                    assert(items[a].code@ != items[b].code@);
                }
            }
        },
    }
    let at = place(after, item.code@);
    assert(at is Some);
}

/// A stock that still lacks data and may be tried again.
pub open spec fn is_due(item: CheckItem, max_tries: int, threshold: int) -> bool {
    &&& item.status == CheckStatus::Pending
    &&& item.tries < max_tries
    &&& item.missing_count >= threshold
}

/// A stock that lacks at least so many kinds of data.
pub open spec fn is_abnormal(item: CheckItem, threshold: int) -> bool {
    item.missing_count >= threshold
}

/// A stock that is pending and still lacks at least so many kinds of data.
pub open spec fn is_waiting(item: CheckItem, threshold: int) -> bool {
    item.status == CheckStatus::Pending && item.missing_count >= threshold
}

/// A stock that lacks at least so many kinds of data, and is not resolved.
pub open spec fn is_left(item: CheckItem, threshold: int) -> bool {
    item.missing_count >= threshold && item.status != CheckStatus::Resolved
}

pub open spec fn due_items(items: Seq<CheckItem>, max_tries: int, threshold: int) -> Seq<
    CheckItem,
> {
    items.filter(|i: CheckItem| is_due(i, max_tries, threshold))
}

pub open spec fn codes_of(items: Seq<CheckItem>) -> Seq<Seq<char>> {
    items.map_values(|i: CheckItem| i.code@)
}

/// How often the stock was tried: never where it is not in the list.
pub open spec fn tries_of(items: Seq<CheckItem>, code: Seq<char>) -> int {
    match place(items, code) {
        Some(i) => items[i].tries as int,
        None => 0,
    }
}

/// When the stock was last tried.
pub open spec fn last_try_of(items: Seq<CheckItem>, code: Seq<char>) -> Option<Seq<char>> {
    match place(items, code) {
        Some(i) => text_view(items[i].last_try),
        None => None,
    }
}

/// Pending, or exhausted once it was tried as often as allowed.
pub open spec fn open_status(tries: int, max_tries: int) -> CheckStatus {
    if tries >= max_tries {
        CheckStatus::Exhausted
    } else {
        CheckStatus::Pending
    }
}

/// An item for a stock that lacks data.
pub open spec fn lacks(
    item: CheckItem,
    code: Seq<char>,
    name: Seq<char>,
    missing: Seq<Seq<char>>,
    tries: int,
    last_try: Option<Seq<char>>,
    max_tries: int,
) -> bool {
    &&& item.code@ == code
    &&& item.name@ == name
    &&& views(item.missing@) == missing
    &&& item.missing_count == missing.len()
    &&& item.tries == tries
    &&& text_view(item.last_try) == last_try
    &&& item.status == open_status(tries, max_tries)
}

/// Texts between quotes, with commas between and brackets around. The names of tables hold
/// nothing that would have to be escaped.
pub open spec fn quoted_list(list: Seq<Seq<char>>) -> Seq<char> {
    "["@ + quoted(list) + "]"@
}

pub open spec fn quoted(list: Seq<Seq<char>>) -> Seq<char>
    decreases list.len(),
{
    if list.len() == 0 {
        Seq::empty()
    } else if list.len() == 1 {
        "\""@ + list[0] + "\""@
    } else {
        quoted(list.drop_last()) + ", \""@ + list.last() + "\""@
    }
}

fn write_quoted(list: &Vec<String>) -> (r: String)
    ensures
        r@ == quoted_list(views(list@)),
{
    let mut s = "[".to_string();
    let mut i: usize = 0;
    let ghost all = views(list@);
    assert(s@ =~= "["@ + quoted(all.take(0)));
    while i < list.len()
        invariant
            i <= list@.len(),
            all == views(list@),
            s@ == "["@ + quoted(all.take(i as int)),
        decreases list@.len() - i,
    {
        let ghost before = s@;
        if i > 0 {
            s.append(", ");
        }
        s.append("\"");
        s.append(&list[i]);
        s.append("\"");
        proof {
            assert(all.take(i + 1).drop_last() =~= all.take(i as int));
            assert(all.take(i + 1).last() == list@[i as int]@);
            if i > 0 {
                reveal_strlit(", ");
                reveal_strlit("\"");
                reveal_strlit(", \"");
                assert(", "@ + "\""@ =~= ", \""@);
                assert(s@ =~= before + (", "@ + "\""@) + all[i as int] + "\""@);
                assert(s@ =~= "["@ + (quoted(all.take(i as int)) + ", \""@ + all[i as int]
                    + "\""@));
            } else {
                assert(s@ =~= "["@ + ("\""@ + all[i as int] + "\""@));
            }
        }
        i += 1;
    }
    assert(all.take(i as int) =~= all);
    s.append("]");
    s
}

/// What a stock lacks, in words.
pub open spec fn lack_text(missing: Seq<Seq<char>>) -> Seq<char> {
    "完整性缺 "@ + decimal(missing.len()) + " 项: "@ + quoted_list(missing)
}

fn write_lack(missing: &Vec<String>) -> (r: String)
    ensures
        r@ == lack_text(views(missing@)),
{
    let mut s = "完整性缺 ".to_string();
    s.append(&write_usize(missing.len()));
    s.append(" 项: ");
    s.append(&write_quoted(missing));
    s
}

/// What trying a stock again does to its item.
pub open spec fn retried(
    after: CheckItem,
    before: CheckItem,
    missing: Seq<Seq<char>>,
    stamp: Seq<char>,
    max_tries: int,
) -> bool {
    &&& after.code == before.code
    &&& after.name == before.name
    &&& after.tries == before.tries + 1
    &&& text_view(after.last_try) == Some(stamp)
    &&& views(after.missing@) == missing
    &&& after.missing_count == missing.len()
    &&& after.status == if missing.len() == 0 {
        CheckStatus::Resolved
    } else {
        open_status(before.tries + 1, max_tries)
    }
}

/// What is said of a stock that was tried again.
pub open spec fn retry_line(code: Seq<char>, missing: Seq<Seq<char>>, tries: int) -> Seq<char> {
    if missing.len() == 0 {
        "[rescrape] ✓ "@ + code + " 已补齐"@
    } else {
        "[rescrape] ✗ "@ + code + " 仍缺 "@ + decimal(missing.len()) + " 项: "@ + quoted_list(
            missing,
        ) + " (tries="@ + decimal_int(tries) + ")"@
    }
}

impl CheckList {
    fn find(&self, code: &str) -> (r: Option<usize>)
        ensures
            match r {
                Some(i) => place(self.items@, code@) == Some(i as int) && i < self.items@.len(),
                None => place(self.items@, code@) is None,
            },
    {
        let mut i: usize = 0;
        while i < self.items.len()
            invariant
                i <= self.items@.len(),
                place(self.items@, code@) == place_from(self.items@, i as int, code@),
            decreases self.items@.len() - i,
        {
            if same(&self.items[i].code, code) {
                return Some(i);
            }
            i += 1;
        }
        None
    }

    /// Puts an item in: in the place of the one of its stock, else at the end.
    pub fn upsert(&mut self, item: CheckItem)
        ensures
            final(self).items@ == with_item(old(self).items@, item),
            final(self).trade_date == old(self).trade_date,
            final(self).updated_at == old(self).updated_at,
    {
        match self.find(&item.code) {
            Some(i) => {
                self.items.set(i, item);
            },
            None => {
                self.items.push(item);
            },
        }
    }

    /// Says which batch the list is of, and when it was written.
    pub fn date(&mut self, trade_date: String, updated_at: String)
        ensures
            *final(self) == (CheckList { trade_date, updated_at, ..*old(self) }),
    {
        self.trade_date = trade_date;
        self.updated_at = updated_at;
    }

    /// Notes what a stock lacks, where that is as much as the threshold or more, and gives it in
    /// words. How often it was tried stays as it was.
    pub fn review(
        &mut self,
        code: &str,
        name: &str,
        found: Completeness,
        threshold: usize,
        max_tries: i64,
    ) -> (r: Option<String>)
        ensures
            final(self).trade_date == old(self).trade_date,
            final(self).updated_at == old(self).updated_at,
            found.missing().len() < threshold ==> r is None && final(self).items
                == old(self).items,
            found.missing().len() >= threshold ==> {
                &&& r matches Some(detail)
                &&& detail@ == lack_text(found.missing())
                &&& exists|item: CheckItem|
                    {
                        &&& #[trigger] with_item(old(self).items@, item) == final(self).items@
                        &&& lacks(
                            item,
                            code@,
                            name@,
                            found.missing(),
                            tries_of(old(self).items@, code@),
                            last_try_of(old(self).items@, code@),
                            max_tries as int,
                        )
                    }
            },
    {
        let missing = found.missing_vec();
        let n: usize = missing.len();
        assert(n == views(missing@).len());
        if n < threshold {
            return None;
        }
        let detail = write_lack(&missing);
        let (tries, last_try): (i64, Option<String>) = match self.find(code) {
            Some(i) => (self.items[i].tries, copy_text(&self.items[i].last_try)),
            None => (0, None),
        };
        let item = CheckItem {
            code: code.to_string(),
            name: name.to_string(),
            missing,
            missing_count: n,
            tries,
            last_try,
            status: if tries >= max_tries {
                CheckStatus::Exhausted
            } else {
                CheckStatus::Pending
            },
        };
        let ghost it = item;
        self.upsert(item);
        assert(with_item(old(self).items@, it) == self.items@);
        Some(detail)
    }

    /// The codes of the stocks to try again, in the order of the list.
    pub fn due_codes(&self, max_tries: i64, threshold: usize) -> (r: Vec<String>)
        ensures
            views(r@) == codes_of(due_items(self.items@, max_tries as int, threshold as int)),
    {
        let mut out: Vec<String> = Vec::new();
        let mut i: usize = 0;
        let ghost all = self.items@;
        proof {
            reveal(Seq::filter);
        }
        assert(views(out@) =~= codes_of(
            due_items(all.take(0), max_tries as int, threshold as int),
        ));
        while i < self.items.len()
            invariant
                i <= self.items@.len(),
                all == self.items@,
                views(out@) == codes_of(
                    due_items(all.take(i as int), max_tries as int, threshold as int),
                ),
            decreases self.items@.len() - i,
        {
            let ghost before = due_items(all.take(i as int), max_tries as int, threshold as int);
            let ghost texts = views(out@);
            proof {
                reveal(Seq::filter);
                assert(all.take(i + 1).drop_last() =~= all.take(i as int));
                assert(all.take(i + 1).last() == all[i as int]);
            }
            let it = &self.items[i];
            if it.status == CheckStatus::Pending && it.tries < max_tries && it.missing_count
                >= threshold {
                out.push(it.code.clone());
                assert(views(out@) =~= texts.push(it.code@));
                assert(codes_of(before.push(all[i as int])) =~= codes_of(before).push(it.code@));
            }
            i += 1;
        }
        assert(all.take(i as int) =~= all);
        out
    }

    /// The name of a stock in the list: empty where it is not there.
    pub fn name_of(&self, code: &str) -> (r: String)
        ensures
            r@ == match place(self.items@, code@) {
                Some(i) => self.items@[i].name@,
                None => Seq::empty(),
            },
    {
        match self.find(code) {
            Some(i) => self.items[i].name.clone(),
            None => String::new(),
        }
    }

    /// Notes that a stock was tried again and what it still lacks: resolved where that is
    /// nothing, exhausted where it was tried as often as allowed.
    pub fn record_retry(
        &mut self,
        code: &str,
        found: Completeness,
        stamp: &str,
        max_tries: i64,
    ) -> (r: Option<String>)
        requires
            tries_of(old(self).items@, code@) < i64::MAX,
        ensures
            final(self).trade_date == old(self).trade_date,
            final(self).updated_at == old(self).updated_at,
            match place(old(self).items@, code@) {
                None => r is None && final(self).items == old(self).items,
                Some(i) => {
                    &&& final(self).items@.len() == old(self).items@.len()
                    &&& forall|j: int|
                        0 <= j < old(self).items@.len() && j != i ==> final(self).items@[j]
                            == old(self).items@[j]
                    &&& retried(
                        final(self).items@[i],
                        old(self).items@[i],
                        found.missing(),
                        stamp@,
                        max_tries as int,
                    )
                    &&& r matches Some(line)
                    &&& line@ == retry_line(
                        code@,
                        found.missing(),
                        tries_of(old(self).items@, code@) + 1,
                    )
                },
            },
    {
        let i: usize = match self.find(code) {
            Some(i) => i,
            None => {
                return None;
            },
        };
        let missing = found.missing_vec();
        let n: usize = missing.len();
        assert(n == views(missing@).len());
        let tries: i64 = self.items[i].tries + 1;
        let status = if n == 0 {
            CheckStatus::Resolved
        } else if tries >= max_tries {
            CheckStatus::Exhausted
        } else {
            CheckStatus::Pending
        };
        let mut line: String;
        if n == 0 {
            line = "[rescrape] ✓ ".to_string();
            line.append(code);
            line.append(" 已补齐");
        } else {
            line = "[rescrape] ✗ ".to_string();
            line.append(code);
            line.append(" 仍缺 ");
            line.append(&write_usize(n));
            line.append(" 项: ");
            line.append(&write_quoted(&missing));
            line.append(" (tries=");
            line.append(&write_i64(tries));
            line.append(")");
        }
        let item = CheckItem {
            code: self.items[i].code.clone(),
            name: self.items[i].name.clone(),
            missing,
            missing_count: n,
            tries,
            last_try: Some(stamp.to_string()),
            status,
        };
        self.items.set(i, item);
        Some(line)
    }

    /// Whether a stock is left that is worth another round.
    pub fn still_pending(&self, threshold: usize) -> (r: bool)
        ensures
            r == exists|i: int|
                0 <= i < self.items@.len() && is_waiting(
                    #[trigger] self.items@[i],
                    threshold as int,
                ),
    {
        let mut i: usize = 0;
        while i < self.items.len()
            invariant
                i <= self.items@.len(),
                forall|j: int|
                    0 <= j < i ==> !is_waiting(#[trigger] self.items@[j], threshold as int),
            decreases self.items@.len() - i,
        {
            if self.items[i].status == CheckStatus::Pending && self.items[i].missing_count
                >= threshold {
                assert(is_waiting(self.items@[i as int], threshold as int));
                return true;
            }
            i += 1;
        }
        false
    }

    /// How many stocks lack at least so many kinds of data.
    pub fn abnormal_count(&self, threshold: usize) -> (r: usize)
        ensures
            r == self.items@.filter(|i: CheckItem| is_abnormal(i, threshold as int)).len(),
    {
        let mut n: usize = 0;
        let mut i: usize = 0;
        let ghost all = self.items@;
        let ghost pick = |i: CheckItem| is_abnormal(i, threshold as int);
        proof {
            reveal(Seq::filter);
        }
        assert(all.take(0).filter(pick).len() == 0);
        while i < self.items.len()
            invariant
                i <= self.items@.len(),
                all == self.items@,
                pick == (|i: CheckItem| is_abnormal(i, threshold as int)),
                n <= i,
                n == all.take(i as int).filter(pick).len(),
            decreases self.items@.len() - i,
        {
            proof {
                reveal(Seq::filter);
                assert(all.take(i + 1).drop_last() =~= all.take(i as int));
                assert(all.take(i + 1).last() == all[i as int]);
            }
            if self.items[i].missing_count >= threshold {
                n += 1;
            }
            i += 1;
        }
        assert(all.take(i as int) =~= all);
        n
    }

    /// How many stocks lack at least so many kinds of data and are not resolved.
    pub fn remaining_count(&self, threshold: usize) -> (r: usize)
        ensures
            r == self.items@.filter(|i: CheckItem| is_left(i, threshold as int)).len(),
    {
        let mut n: usize = 0;
        let mut i: usize = 0;
        let ghost all = self.items@;
        let ghost pick = |i: CheckItem| is_left(i, threshold as int);
        proof {
            reveal(Seq::filter);
        }
        assert(all.take(0).filter(pick).len() == 0);
        while i < self.items.len()
            invariant
                i <= self.items@.len(),
                all == self.items@,
                pick == (|i: CheckItem| is_left(i, threshold as int)),
                n <= i,
                n == all.take(i as int).filter(pick).len(),
            decreases self.items@.len() - i,
        {
            proof {
                reveal(Seq::filter);
                assert(all.take(i + 1).drop_last() =~= all.take(i as int));
                assert(all.take(i + 1).last() == all[i as int]);
            }
            if self.items[i].missing_count >= threshold && self.items[i].status
                != CheckStatus::Resolved {
                n += 1;
            }
            i += 1;
        }
        assert(all.take(i as int) =~= all);
        n
    }
}

/// A stock that is due is tried at most as often as allowed, and once it was tried that often it
/// is never due again.
pub proof fn tries_stay_within_the_limit(
    before: CheckItem,
    after: CheckItem,
    missing: Seq<Seq<char>>,
    stamp: Seq<char>,
    max_tries: int,
    threshold: int,
)
    requires
        is_due(before, max_tries, threshold),
        retried(after, before, missing, stamp, max_tries),
    ensures
        after.tries <= max_tries,
        after.tries == max_tries ==> !is_due(after, max_tries, threshold),
        missing.len() == 0 ==> after.status == CheckStatus::Resolved,
{
}

/// A stock is abnormal where it lacks as much as the threshold or more; of these it is left while
/// it is not resolved, waits while it is pending, and is due while it may be tried again.
pub proof fn what_a_stock_counts_as(item: CheckItem, max_tries: int, threshold: int)
    ensures
        is_abnormal(item, threshold) <==> item.missing_count >= threshold,
        is_left(item, threshold) <==> item.missing_count >= threshold && (item.status
            == CheckStatus::Pending || item.status == CheckStatus::Exhausted),
        is_waiting(item, threshold) <==> item.missing_count >= threshold && item.status
            == CheckStatus::Pending,
        is_due(item, max_tries, threshold) <==> item.missing_count >= threshold && item.status
            == CheckStatus::Pending && item.tries < max_tries,
{
}

/// An item of a stock that is pending, was tried less often than allowed and lacks enough.
pub open spec fn may_be_tried(
    item: CheckItem,
    code: Seq<char>,
    max_tries: int,
    threshold: int,
) -> bool {
    &&& item.code@ == code
    &&& item.status == CheckStatus::Pending
    &&& item.tries < max_tries
    &&& item.missing_count >= threshold
}

pub open spec fn some_may_be_tried(
    items: Seq<CheckItem>,
    code: Seq<char>,
    max_tries: int,
    threshold: int,
) -> bool {
    exists|i: int|
        0 <= i < items.len() && may_be_tried(#[trigger] items[i], code, max_tries, threshold)
}

/// The stocks to try again are those that are pending, were tried less often than allowed and lack
/// as much as the threshold or more: all of them and no other.
pub proof fn due_stocks_are_picked(items: Seq<CheckItem>, max_tries: int, threshold: int)
    ensures
        forall|i: int|
            0 <= i < items.len() && (#[trigger] items[i]).status == CheckStatus::Pending
                && items[i].tries < max_tries && items[i].missing_count >= threshold ==> codes_of(
                due_items(items, max_tries, threshold),
            ).contains(items[i].code@),
        forall|k: int|
            0 <= k < codes_of(due_items(items, max_tries, threshold)).len() ==> some_may_be_tried(
                items,
                #[trigger] codes_of(due_items(items, max_tries, threshold))[k],
                max_tries,
                threshold,
            ),
    decreases items.len(),
{
    reveal(Seq::filter);
    if items.len() > 0 {
        let head = items.drop_last();
        let n = items.len() - 1;
        due_stocks_are_picked(head, max_tries, threshold);
        let before = codes_of(due_items(head, max_tries, threshold));
        let all = codes_of(due_items(items, max_tries, threshold));
        let taken = is_due(items[n], max_tries, threshold);
        assert(all =~= if taken {
            before.push(items[n].code@)
        } else {
            before
        });
        assert forall|i: int|
            0 <= i < items.len() && (#[trigger] items[i]).status == CheckStatus::Pending
                && items[i].tries < max_tries && items[i].missing_count
                >= threshold implies all.contains(items[i].code@) by {
            if i < n {
                assert(head[i] == items[i]);
                let k = choose|k: int| 0 <= k < before.len() && before[k] == items[i].code@;
                assert(all[k] == items[i].code@);
            } else {
                assert(all[before.len() as int] == items[n].code@);
            }
        }
        assert forall|k: int| 0 <= k < all.len() implies some_may_be_tried(
            items,
            #[trigger] all[k],
            max_tries,
            threshold,
        ) by {
            if k < before.len() {
                assert(all[k] == before[k]);
                assert(some_may_be_tried(head, before[k], max_tries, threshold));
                let i = choose|i: int|
                    0 <= i < head.len() && may_be_tried(
                        #[trigger] head[i],
                        before[k],
                        max_tries,
                        threshold,
                    );
                assert(items[i] == head[i]);
            } else {
                assert(may_be_tried(items[n], all[k], max_tries, threshold));
            }
        }
    }
}

/// A stock that lacks data is listed with what it lacks and how often it was tried, and with as
/// many tries as allowed or more it is exhausted at once.
pub proof fn a_lack_is_listed(
    item: CheckItem,
    code: Seq<char>,
    name: Seq<char>,
    missing: Seq<Seq<char>>,
    tries: int,
    last_try: Option<Seq<char>>,
    max_tries: int,
)
    requires
        lacks(item, code, name, missing, tries, last_try, max_tries),
    ensures
        item.code@ == code && item.name@ == name,
        views(item.missing@) == missing && item.missing_count == missing.len(),
        item.tries == tries && text_view(item.last_try) == last_try,
        tries >= max_tries ==> item.status == CheckStatus::Exhausted,
        tries < max_tries ==> item.status == CheckStatus::Pending,
{
}

/// A try counts one more on its stock and dates it. The stock is then resolved where it lacks
/// nothing; else it is exhausted with its last try, and pending before.
pub proof fn a_try_is_counted(
    after: CheckItem,
    before: CheckItem,
    missing: Seq<Seq<char>>,
    stamp: Seq<char>,
    max_tries: int,
)
    requires
        retried(after, before, missing, stamp, max_tries),
    ensures
        after.code == before.code && after.name == before.name,
        after.tries == before.tries + 1,
        text_view(after.last_try) == Some(stamp),
        views(after.missing@) == missing && after.missing_count == missing.len(),
        missing.len() == 0 <==> after.status == CheckStatus::Resolved,
        missing.len() > 0 && before.tries + 1 >= max_tries ==> after.status
            == CheckStatus::Exhausted,
        missing.len() > 0 && before.tries + 1 < max_tries ==> after.status == CheckStatus::Pending,
{
}

/// A list of texts is written with quotes around each, commas between and brackets around all.
pub proof fn texts_are_quoted(list: Seq<Seq<char>>)
    ensures
        quoted(list) == joined(list.map_values(|w: Seq<char>| "\""@ + w + "\""@), ", "@),
        quoted_list(list) == "["@ + joined(
            list.map_values(|w: Seq<char>| "\""@ + w + "\""@),
            ", "@,
        ) + "]"@,
    decreases list.len(),
{
    let texts = list.map_values(|w: Seq<char>| "\""@ + w + "\""@);
    reveal_strlit(", \"");
    reveal_strlit(", ");
    reveal_strlit("\"");
    if list.len() > 0 {
        texts_are_quoted(list.drop_last());
        assert(texts.drop_last() =~= list.drop_last().map_values(
            |w: Seq<char>| "\""@ + w + "\""@,
        ));
        assert(quoted(list) =~= joined(texts, ", "@));
    }
}

/// The tries on record of a stock are those of its item; a stock that is not on the list was never
/// tried.
pub proof fn tries_are_those_of_the_item(items: Seq<CheckItem>, i: int)
    requires
        distinct(items),
        0 <= i < items.len(),
    ensures
        tries_of(items, items[i].code@) == items[i].tries,
        last_try_of(items, items[i].code@) == text_view(items[i].last_try),
        forall|code: Seq<char>|
            #![trigger tries_of(items, code)]
            (forall|j: int| 0 <= j < items.len() ==> (#[trigger] items[j]).code@ != code)
                ==> tries_of(
                items,
                code,
            ) == 0 && last_try_of(items, code) is None,
{
    place_is_first(items, 0, items[i].code@);
    assert forall|code: Seq<char>|
        #![trigger tries_of(items, code)]
        (forall|j: int| 0 <= j < items.len() ==> (#[trigger] items[j]).code@ != code) implies
            tries_of(
        items,
        code,
    ) == 0 && last_try_of(items, code) is None by {
        place_is_first(items, 0, code);
    }
}

} // verus!
