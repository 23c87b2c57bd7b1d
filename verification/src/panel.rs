//! The part of the window that shows one stock, or the whole market ranked by one number.

use vstd::prelude::*;

use crate::lookup::StockSnapshot;
use crate::models::StockRef;
use crate::text::{decimal, same, write_usize};

verus! {

/// A stock in a ranking.
#[derive(Debug, Clone, PartialEq, Eq)]
pub struct RankRow {
    pub rank: usize,
    pub code: String,
    pub name: String,
    pub value_text: String,
}

/// The market ranked by one number.
#[derive(Debug, Clone, PartialEq, Eq)]
pub struct RankBoard {
    pub spec_id: String,
    pub label: String,
    pub ascending: bool,
    pub rows: Vec<RankRow>,
}

/// The rank of the first row of a stock.
pub open spec fn rank_of(rows: Seq<RankRow>, code: Seq<char>) -> Option<usize>
    decreases rows.len(),
{
    if rows.len() == 0 {
        None
    } else if rows[0].code@ == code {
        Some(rows[0].rank)
    } else {
        rank_of(rows.drop_first(), code)
    }
}

impl RankBoard {
    /// The rank of a stock, where it is ranked.
    pub fn origin_rank(&self, code: &str) -> (r: Option<usize>)
        ensures
            r == rank_of(self.rows@, code@),
    {
        let mut i: usize = 0;
        assert(self.rows@.skip(0) =~= self.rows@);
        while i < self.rows.len()
            invariant
                i <= self.rows@.len(),
                rank_of(self.rows@, code@) == rank_of(self.rows@.skip(i as int), code@),
            decreases self.rows@.len() - i,
        {
            let ghost rest = self.rows@.skip(i as int);
            assert(rest[0] == self.rows@[i as int]);
            assert(rest.drop_first() =~= self.rows@.skip(i + 1));
            if same(&self.rows[i].code, code) {
                return Some(self.rows[i].rank);
            }
            i += 1;
        }
        None
    }

    /// What is said above the ranking.
    pub fn summary(&self, origin: &str) -> (r: String)
        ensures
            r@ == (if self.ascending {
                "正序（从小到大）"@
            } else {
                "倒序（从大到小）"@
            }) + " · 已抓取 "@ + decimal(self.rows@.len())
                + " 支有此数值。点一行查看该股，返回回到 "@ + origin@ + "。"@,
    {
        let mut s = if self.ascending {
            "正序（从小到大）".to_string()
        } else {
            "倒序（从大到小）".to_string()
        };
        s.append(" · 已抓取 ");
        s.append(&write_usize(self.rows.len()));
        s.append(" 支有此数值。点一行查看该股，返回回到 ");
        s.append(origin);
        s.append("。");
        s
    }

    /// What is said of the stock that was looked up: its rank, or that it is not ranked; nothing
    /// where none was looked up.
    pub fn origin_line(&self, code: &str, label: &str) -> (r: Option<String>)
        ensures
            crate::json::text_view(r) == match rank_of(self.rows@, code@) {
                Some(rank) => Some(
                    label@ + " 当前第 "@ + decimal(rank as nat) + " / "@ + decimal(
                        self.rows@.len(),
                    ),
                ),
                None => if code@.len() > 0 {
                    Some(label@ + " 这一项没有可比较数值，不在列表里"@)
                } else {
                    None
                },
            },
    {
        let mut s = label.to_string();
        match self.origin_rank(code) {
            Some(rank) => {
                s.append(" 当前第 ");
                s.append(&write_usize(rank));
                s.append(" / ");
                s.append(&write_usize(self.rows.len()));
                Some(s)
            },
            None => if code.is_empty() {
                None
            } else {
                s.append(" 这一项没有可比较数值，不在列表里");
                Some(s)
            },
        }
    }
}

/// The mark beside a number: not ranked by, ranked from the smallest, or from the largest.
pub open spec fn sort_mark(current: Option<(Seq<char>, bool)>, id: Seq<char>) -> Seq<char> {
    match current {
        Some((spec_id, ascending)) if spec_id == id => if ascending {
            "正"@
        } else {
            "倒"@
        },
        _ => "排"@,
    }
}

/// By what a board ranks, and in which order.
pub open spec fn ranked_by(board: Option<RankBoard>) -> Option<(Seq<char>, bool)> {
    match board {
        Some(b) => Some((b.spec_id@, b.ascending)),
        None => None,
    }
}

#[derive(Debug, Clone, Copy, PartialEq, Eq, Structural)]
pub enum LookupPage {
    Detail,
    Rank,
}

/// What to do when a ranking is asked for.
#[derive(Debug, Clone, PartialEq, Eq)]
pub enum RankRequest {
    /// Nothing: the panel shows what it has.
    Nothing,
    /// Rank the market by a number, from the smallest or from the largest.
    Rank { spec_id: String, ascending: bool },
}

/// The panel. A stock that was looked up stays while others are opened from a ranking, so that
/// the way back leads to it.
#[derive(Debug, Clone, PartialEq, Eq)]
pub struct LookupPanel {
    /// The text in the field.
    pub lookup_code: String,
    /// The stock that was looked up.
    pub origin: Option<StockSnapshot>,
    /// The stock that was opened from a ranking, in its place.
    pub jumped: Option<StockSnapshot>,
    pub lookup_err: String,
    pub rank_err: String,
    pub page: LookupPage,
    pub rank: Option<RankBoard>,
}

/// The order in which a number is asked to rank: the other one where it is clicked again, as it
/// is where the board is only opened, and from the smallest otherwise.
pub open spec fn asked_order(current: Option<(Seq<char>, bool)>, id: Seq<char>,
    toggle: bool) -> bool {
    match current {
        Some((spec_id, ascending)) if spec_id == id => if toggle {
            !ascending
        } else {
            ascending
        },
        _ => true,
    }
}

/// The board that is there is the one that is asked for.
pub open spec fn is_shown(current: Option<(Seq<char>, bool)>, id: Seq<char>) -> bool {
    current matches Some(c) && c.0 == id
}

/// Where the panel stands: the stock that was looked up, the stock that is shown, and the page.
pub struct Way {
    pub origin: Option<StockSnapshot>,
    pub shown: Option<StockSnapshot>,
    pub page: LookupPage,
}

/// Where the panel stands after a stock was opened from a ranking, or could not be.
pub open spec fn after_jump(w: Way, found: Result<StockSnapshot, String>) -> Way {
    Way {
        shown: match found {
            Ok(s) => Some(s),
            Err(_) => w.shown,
        },
        page: LookupPage::Detail,
        ..w
    }
}

/// Where the panel stands after the way back was taken.
pub open spec fn after_back(w: Way) -> Way {
    Way {
        shown: match w.origin {
            Some(s) => Some(s),
            None => w.shown,
        },
        page: LookupPage::Detail,
        ..w
    }
}

/// There is a way back from a ranking, and from another stock than the one that was looked up.
pub open spec fn has_way_back(w: Way) -> bool {
    w.page == LookupPage::Rank || match (w.shown, w.origin) {
        (Some(a), Some(b)) => a.code@ != b.code@,
        _ => false,
    }
}

impl LookupPanel {
    pub open spec fn way(self) -> Way {
        Way { origin: self.origin, shown: self.shown(), page: self.page }
    }

    pub fn new() -> (r: LookupPanel)
        ensures
            r.lookup_code@.len() == 0,
            r.origin is None,
            r.jumped is None,
            r.lookup_err@.len() == 0,
            r.rank_err@.len() == 0,
            r.page == LookupPage::Detail,
            r.rank is None,
    {
        LookupPanel {
            lookup_code: String::new(),
            origin: None,
            jumped: None,
            lookup_err: String::new(),
            rank_err: String::new(),
            page: LookupPage::Detail,
            rank: None,
        }
    }

    /// The stock that is shown.
    pub open spec fn shown(self) -> Option<StockSnapshot> {
        match self.jumped {
            Some(s) => Some(s),
            None => self.origin,
        }
    }

    /// The stock that is shown.
    pub fn current(&self) -> (r: Option<&StockSnapshot>)
        ensures
            match r {
                Some(s) => self.shown() == Some(*s),
                None => self.shown() is None,
            },
    {
        match &self.jumped {
            Some(s) => Some(s),
            None => match &self.origin {
                Some(s) => Some(s),
                None => None,
            },
        }
    }

    /// Takes in what was looked up: the way back leads to it from now on, and the ranking is
    /// gone. A failure leaves no stock.
    pub fn queried(&mut self, found: Result<StockSnapshot, String>)
        ensures
            final(self).lookup_code == old(self).lookup_code,
            final(self).page == LookupPage::Detail,
            final(self).rank_err@.len() == 0,
            match found {
                Ok(s) => {
                    &&& final(self).origin == Some(s)
                    &&& final(self).shown() == Some(s)
                    &&& final(self).rank is None
                    &&& final(self).lookup_err@.len() == 0
                },
                Err(e) => {
                    &&& final(self).origin is None
                    &&& final(self).shown() is None
                    &&& final(self).rank == old(self).rank
                    &&& final(self).lookup_err == e
                },
            },
    {
        self.rank_err = String::new();
        self.page = LookupPage::Detail;
        self.jumped = None;
        match found {
            Ok(s) => {
                self.origin = Some(s);
                self.rank = None;
                self.lookup_err = String::new();
            },
            Err(e) => {
                self.origin = None;
                self.lookup_err = e;
            },
        }
    }

    /// Takes in a stock that was opened from the ranking: it is shown, and the way back stays. A
    /// failure leaves the stock that was shown.
    pub fn jumped_to(&mut self, found: Result<StockSnapshot, String>)
        ensures
            final(self).way() == after_jump(old(self).way(), found),
            final(self).lookup_code == old(self).lookup_code,
            final(self).rank == old(self).rank,
            final(self).rank_err@.len() == 0,
            match found {
                Ok(_) => final(self).lookup_err@.len() == 0,
                Err(e) => final(self).lookup_err == e,
            },
    {
        self.rank_err = String::new();
        self.page = LookupPage::Detail;
        match found {
            Ok(s) => {
                self.jumped = Some(s);
                self.lookup_err = String::new();
            },
            Err(e) => {
                self.lookup_err = e;
            },
        }
    }

    /// Goes back to the stock that was looked up, where there is one.
    pub fn back_to_origin(&mut self)
        ensures
            final(self).way() == after_back(old(self).way()),
            final(self).rank == old(self).rank,
            final(self).rank_err@.len() == 0,
            final(self).lookup_err == old(self).lookup_err,
            match old(self).origin {
                Some(s) => final(self).lookup_code@ == s.code@,
                None => final(self).lookup_code == old(self).lookup_code,
            },
    {
        self.page = LookupPage::Detail;
        self.rank_err = String::new();
        match &self.origin {
            Some(s) => {
                self.lookup_code = s.code.clone();
                self.jumped = None;
            },
            None => {},
        }
    }

    /// The stock to which the way back leads, in words.
    pub fn origin_label(&self) -> (r: String)
        ensures
            r@ == match self.origin {
                Some(s) => if s.name@.len() > 0 {
                    s.code@ + " "@ + s.name@
                } else {
                    s.code@
                },
                None => "原先个股"@,
            },
    {
        match &self.origin {
            Some(s) => {
                let mut t = s.code.clone();
                if !s.name.as_str().is_empty() {
                    t.append(" ");
                    t.append(&s.name);
                }
                t
            },
            None => "原先个股".to_string(),
        }
    }

    /// Whether there is a way back.
    pub fn needs_lookup_back(&self) -> (r: bool)
        ensures
            r == has_way_back(self.way()),
    {
        if self.page == LookupPage::Rank {
            return true;
        }
        match (self.current(), &self.origin) {
            (Some(a), Some(b)) => !same(&a.code, &b.code),
            _ => false,
        }
    }

    /// Takes in a ranking.
    pub fn ranked(&mut self, board: Result<RankBoard, String>)
        ensures
            final(self).lookup_code == old(self).lookup_code,
            final(self).origin == old(self).origin,
            final(self).jumped == old(self).jumped,
            final(self).lookup_err == old(self).lookup_err,
            match board {
                Ok(b) => {
                    &&& final(self).rank == Some(b)
                    &&& final(self).page == LookupPage::Rank
                    &&& final(self).rank_err@.len() == 0
                },
                Err(e) => {
                    &&& final(self).rank == old(self).rank
                    &&& final(self).page == old(self).page
                    &&& final(self).rank_err == e
                },
            },
    {
        match board {
            Ok(b) => {
                self.rank = Some(b);
                self.page = LookupPage::Rank;
                self.rank_err = String::new();
            },
            Err(e) => {
                self.rank_err = e;
            },
        }
    }

    /// Asks for a ranking by a number. Where the number is clicked, the order turns round; where
    /// the board is only opened and is there, it is shown as it is.
    pub fn run_rank(&mut self, spec_id: &str, toggle: bool) -> (r: RankRequest)
        ensures
            *final(self) == (LookupPanel { page: final(self).page, ..*old(self) }),
            !toggle && is_shown(ranked_by(old(self).rank), spec_id@) ==> {
                &&& r == RankRequest::Nothing
                &&& final(self).page == LookupPage::Rank
            },
            toggle || !is_shown(ranked_by(old(self).rank), spec_id@) ==> {
                &&& final(self).page == old(self).page
                &&& r matches RankRequest::Rank { spec_id: id, ascending }
                &&& id@ == spec_id@
                &&& ascending == asked_order(ranked_by(old(self).rank), spec_id@, toggle)
            },
    {
        let same_order = match &self.rank {
            Some(b) => if same(&b.spec_id, spec_id) {
                Some(b.ascending)
            } else {
                None
            },
            None => None,
        };
        match same_order {
            Some(ascending) => if toggle {
                RankRequest::Rank { spec_id: spec_id.to_string(), ascending: !ascending }
            } else {
                self.page = LookupPage::Rank;
                RankRequest::Nothing
            },
            None => RankRequest::Rank { spec_id: spec_id.to_string(), ascending: true },
        }
    }

    /// Opens the ranking: the one that is there, else one by the number that the stock offers.
    pub fn open_rank(&mut self, offered: Option<String>) -> (r: RankRequest)
        ensures
            final(self).lookup_code == old(self).lookup_code,
            final(self).origin == old(self).origin,
            final(self).jumped == old(self).jumped,
            final(self).rank == old(self).rank,
            final(self).lookup_err == old(self).lookup_err,
            old(self).shown() is None ==> {
                &&& r == RankRequest::Nothing
                &&& final(self).page == LookupPage::Detail
                &&& final(self).rank_err@ == "请先查询一只股票，再点排名"@
            },
            old(self).shown() is Some ==> match (old(self).rank, offered) {
                (Some(_), _) => {
                    &&& r == RankRequest::Nothing
                    &&& final(self).page == LookupPage::Rank
                    &&& final(self).rank_err == old(self).rank_err
                },
                (None, Some(id)) => {
                    &&& r matches RankRequest::Rank { spec_id, ascending }
                    &&& spec_id@ == id@
                    &&& ascending
                    &&& final(self).page == old(self).page
                    &&& final(self).rank_err == old(self).rank_err
                },
                (None, None) => {
                    &&& r == RankRequest::Nothing
                    &&& final(self).page == old(self).page
                    &&& final(self).rank_err@ == "当前个股没有可排序的数值字段"@
                },
            },
    {
        if self.current().is_none() {
            self.rank_err = "请先查询一只股票，再点排名".to_string();
            self.page = LookupPage::Detail;
            return RankRequest::Nothing;
        }
        let there = match &self.rank {
            Some(b) => Some(b.spec_id.clone()),
            None => None,
        };
        match there {
            Some(id) => self.run_rank(&id, false),
            None => match offered {
                Some(id) => self.run_rank(&id, false),
                None => {
                    self.rank_err = "当前个股没有可排序的数值字段".to_string();
                    RankRequest::Nothing
                },
            },
        }
    }

    /// The mark beside a number.
    pub fn sort_mark_text(&self, id: &str) -> (r: &'static str)
        ensures
            r@ == sort_mark(ranked_by(self.rank), id@),
    {
        match &self.rank {
            Some(b) => if same(&b.spec_id, id) {
                if b.ascending {
                    "正"
                } else {
                    "倒"
                }
            } else {
                "排"
            },
            None => "排",
        }
    }
}

/// Where the panel stands after stocks were opened from a ranking, one after another.
pub open spec fn after_jumps(w: Way, found: Seq<Result<StockSnapshot, String>>) -> Way
    decreases found.len(),
{
    if found.len() == 0 {
        w
    } else {
        after_jump(after_jumps(w, found.drop_last()), found.last())
    }
}

proof fn jumps_keep_the_origin(w: Way, found: Seq<Result<StockSnapshot, String>>)
    ensures
        after_jumps(w, found).origin == w.origin,
    decreases found.len(),
{
    if found.len() > 0 {
        jumps_keep_the_origin(w, found.drop_last());
    }
}

/// However many stocks were opened from a ranking, the way back leads to the stock that was
/// looked up, and there it ends.
pub proof fn the_way_back_leads_to_the_origin(w: Way, found: Seq<Result<StockSnapshot, String>>)
    requires
        w.origin is Some,
    ensures
        after_back(after_jumps(w, found)).shown == w.origin,
        !has_way_back(after_back(after_jumps(w, found))),
{
    jumps_keep_the_origin(w, found);
}

/// The first stock of a list with a code.
pub open spec fn listed_name(codes: Seq<StockRef>, code: Seq<char>) -> Option<Seq<char>>
    decreases codes.len(),
{
    if codes.len() == 0 {
        None
    } else if codes[0].code@ == code {
        Some(codes[0].name@)
    } else {
        listed_name(codes.drop_first(), code)
    }
}

/// Gives a snapshot without a name the one that the list of stocks has.
pub fn fill_snap_name(snap: &mut StockSnapshot, codes: &Vec<StockRef>)
    ensures
        final(snap).name@ == if old(snap).name@.len() == 0 {
            match listed_name(codes@, old(snap).code@) {
                Some(n) => n,
                None => old(snap).name@,
            }
        } else {
            old(snap).name@
        },
        *final(snap) == (StockSnapshot { name: final(snap).name, ..*old(snap) }),
{
    if !snap.name.as_str().is_empty() {
        return;
    }
    let mut i: usize = 0;
    assert(codes@.skip(0) =~= codes@);
    while i < codes.len()
        invariant
            i <= codes@.len(),
            *snap == *old(snap),
            old(snap).name@.len() == 0,
            listed_name(codes@, old(snap).code@) == listed_name(
                codes@.skip(i as int),
                old(snap).code@,
            ),
        decreases codes@.len() - i,
    {
        let ghost rest = codes@.skip(i as int);
        assert(rest[0] == codes@[i as int]);
        assert(rest.drop_first() =~= codes@.skip(i + 1));
        if same(&codes[i].code, &snap.code) {
            snap.name = codes[i].name.clone();
            return;
        }
        i += 1;
    }
}

/// The rank of a stock is that of its first row; a stock without a row has none. So is the name
/// that a list gives it.
pub proof fn the_first_row_ranks_a_stock(
    rows: Seq<RankRow>,
    list: Seq<StockRef>,
    code: Seq<char>,
    i: int,
)
    ensures
        0 <= i < rows.len() && rows[i].code@ == code && (forall|j: int|
            0 <= j < i ==> (#[trigger] rows[j]).code@ != code) ==> rank_of(rows, code) == Some(
            rows[i].rank,
        ),
        (forall|j: int| 0 <= j < rows.len() ==> (#[trigger] rows[j]).code@ != code) ==> rank_of(
            rows,
            code,
        ) is None,
        0 <= i < list.len() && list[i].code@ == code && (forall|j: int|
            0 <= j < i ==> (#[trigger] list[j]).code@ != code) ==> listed_name(list, code) == Some(
            list[i].name@,
        ),
        (forall|j: int| 0 <= j < list.len() ==> (#[trigger] list[j]).code@ != code) ==> listed_name(
            list,
            code,
        ) is None,
    decreases rows.len() + list.len(),
{
    if rows.len() > 0 {
        the_first_row_ranks_a_stock(rows.drop_first(), Seq::empty(), code, i - 1);
    }
    if list.len() > 0 {
        the_first_row_ranks_a_stock(Seq::empty(), list.drop_first(), code, i - 1);
    }
}

/// A number that is clicked again is ranked the other way round, and twice again as before; another
/// one begins with the smallest. Its mark shows the order.
pub proof fn a_second_click_turns_the_order(id: Seq<char>, other: Seq<char>, ascending: bool)
    requires
        id != other,
    ensures
        asked_order(None, id, true),
        asked_order(Some((other, ascending)), id, true),
        asked_order(Some((id, ascending)), id, true) == !ascending,
        asked_order(Some((id, ascending)), id, false) == ascending,
        sort_mark(None, id) == "排"@,
        sort_mark(Some((other, ascending)), id) == "排"@,
        sort_mark(Some((id, true)), id) == "正"@,
        sort_mark(Some((id, false)), id) == "倒"@,
{
}

/// A stock that is opened from a ranking is shown on its own page, and so is one to which the way
/// back leads; one that could not be opened leaves the stock that was shown. Neither changes the
/// stock that was looked up.
pub proof fn a_jump_shows_its_stock(w: Way, found: Result<StockSnapshot, String>)
    ensures
        after_jump(w, found).page == LookupPage::Detail,
        after_jump(w, found).origin == w.origin,
        found matches Ok(s) ==> after_jump(w, found).shown == Some(s),
        found is Err ==> after_jump(w, found).shown == w.shown,
        after_back(w).page == LookupPage::Detail,
        after_back(w).origin == w.origin,
        w.origin is Some ==> after_back(w).shown == w.origin,
        w.origin is None ==> after_back(w).shown == w.shown,
        found matches Ok(s) ==> (w.origin matches Some(o) ==> (has_way_back(after_jump(w, found))
            <==> s.code@ != o.code@)),
        has_way_back(Way { page: LookupPage::Rank, ..w }),
{
}

/// The panel shows the stock that was opened last, else the one that was looked up, and the board
/// that it has where that ranks by the number that is asked for.
pub proof fn the_panel_shows_the_last_stock(p: LookupPanel, id: Seq<char>)
    ensures
        p.jumped is Some ==> p.way().shown == p.jumped,
        p.jumped is None ==> p.way().shown == p.origin,
        p.way().origin == p.origin && p.way().page == p.page,
        is_shown(ranked_by(p.rank), id) <==> (p.rank matches Some(b) && b.spec_id@ == id),
        p.rank matches Some(b) ==> ranked_by(p.rank) == Some((b.spec_id@, b.ascending)),
{
}

} // verus!
