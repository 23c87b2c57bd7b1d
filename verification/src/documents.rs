//! What the documents of Baidu say of a stock, entry by entry.

use vstd::prelude::*;

use crate::http::{
    analysis_of, flow_content, flow_of, has_levels, has_votes, levels_of, payload, spread_of, terms,
    vote_of,
};
use crate::json::{
    a_lookup_finds_the_entry, agree_but, as_loose_text, at_path, field, field_in, has_entry,
    keys_lead_on, one_key, other_keys_stay, readings_follow_the_keys, reads_number, reads_text,
    says, text_view, three_keys, two_keys, Json,
};
use crate::models::{FundFlow, RealSum, StockResult, SupportResistance, Vote};
use crate::number::real_view;

verus! {

/// Keys, up to three of them, lead on one by one.
pub proof fn keys_open(doc: Json, path: Seq<Seq<char>>)
    requires
        1 <= path.len() <= 3,
    ensures
        path.len() == 1 ==> at_path(Some(doc), path) == field(doc, path[0]),
        path.len() == 2 ==> at_path(Some(doc), path) == field_in(field(doc, path[0]), path[1]),
        path.len() == 3 ==> at_path(Some(doc), path) == field_in(
            field_in(field(doc, path[0]), path[1]),
            path[2],
        ),
{
    reveal_with_fuel(at_path, 4);
}

/// An analysis is read entry by entry: each score from the entry of its name, the rating and the
/// day from the synthesis.
pub proof fn an_analysis_is_read(res: StockResult, doc: Json, stock_name: Seq<char>)
    requires
        analysis_of(res, doc, stock_name),
    ensures
        reads_text(doc, two_keys("synthesisScore"@, "rating"@),
            text_view(res.scores.synthesis_rating)),
        reads_number(doc, two_keys("technologyScore"@, "score"@), real_view(res.scores.technology)),
        reads_number(doc, two_keys("capitalScore"@, "score"@), real_view(res.scores.capital)),
        reads_number(doc, two_keys("marketScore"@, "score"@), real_view(res.scores.market)),
        reads_number(doc, two_keys("financeScore"@, "score"@), real_view(res.scores.finance)),
        reads_text(doc, one_key("isNew"@), text_view(res.scores.is_new)),
        reads_text(doc, two_keys("synthesisScore"@, "updateTime"@),
            text_view(res.scores.update_time)),
{
    keys_open(doc, two_keys("synthesisScore"@, "rating"@));
    readings_follow_the_keys(doc, two_keys("synthesisScore"@, "rating"@));
    keys_open(doc, two_keys("technologyScore"@, "score"@));
    readings_follow_the_keys(doc, two_keys("technologyScore"@, "score"@));
    keys_open(doc, two_keys("capitalScore"@, "score"@));
    readings_follow_the_keys(doc, two_keys("capitalScore"@, "score"@));
    keys_open(doc, two_keys("marketScore"@, "score"@));
    readings_follow_the_keys(doc, two_keys("marketScore"@, "score"@));
    keys_open(doc, two_keys("financeScore"@, "score"@));
    readings_follow_the_keys(doc, two_keys("financeScore"@, "score"@));
    keys_open(doc, one_key("isNew"@));
    readings_follow_the_keys(doc, one_key("isNew"@));
    keys_open(doc, two_keys("synthesisScore"@, "updateTime"@));
    readings_follow_the_keys(doc, two_keys("synthesisScore"@, "updateTime"@));
}

/// The name of a stock comes from the synthesis; where that has none, from the caller; where
/// the caller knows none, from the first of the items that speak for the technical score.
pub proof fn a_name_is_read(res: StockResult, doc: Json, stock_name: Seq<char>)
    requires
        analysis_of(res, doc, stock_name),
    ensures
        forall|s: String| #[trigger]
            says(doc, two_keys("synthesisScore"@, "stockName"@), Json::Text(s))
                ==> text_view(res.name)
                == Some(s@),
        (forall|item: Json| !#[trigger] says(doc, two_keys("synthesisScore"@, "stockName"@), item))
            && stock_name.len() > 0 ==> text_view(res.name) == Some(stock_name),
        (forall|item: Json| !#[trigger] says(doc, two_keys("synthesisScore"@, "stockName"@), item))
            && stock_name.len() == 0 ==> (forall|list: Vec<Json>, s: String|
            list@.len() > 0 && #[trigger] says(
                doc,
                three_keys("technologyScore"@, "increase"@, "items"@),
                Json::Array(list),
            ) && #[trigger] has_entry(list@[0], "text"@, Json::Text(s)) ==> text_view(res.name)
                == Some(s@)),
{
    let path = two_keys("synthesisScore"@, "stockName"@);
    let items = three_keys("technologyScore"@, "increase"@, "items"@);
    keys_open(doc, path);
    keys_open(doc, items);
    assert forall|item: Json| #[trigger] says(doc, path, item) <==> at_path(Some(doc), path)
        == Some(item) by {
        keys_lead_on(doc, path, item);
    }
    assert forall|item: Json| #[trigger] says(doc, items, item) <==> at_path(Some(doc), items)
        == Some(item) by {
        keys_lead_on(doc, items, item);
    }
    match at_path(Some(doc), path) {
        Some(item) => {
            assert(says(doc, path, item));
        },
        None => {},
    }
    assert forall|list: Vec<Json>, s: String|
        list@.len() > 0 && #[trigger] says(doc, items, Json::Array(list)) && #[trigger] has_entry(
            list@[0],
            "text"@,
            Json::Text(s),
        ) && at_path(Some(doc), path) is None && stock_name.len() == 0 implies text_view(res.name)
        == Some(s@) by {
        a_lookup_finds_the_entry(list@[0], "text"@, Json::Text(s));
    }
}

/// A change of one entry of an analysis changes what is read from that entry and nothing else: of
/// the market score alone, the market score alone.
pub proof fn scores_do_not_mix(
    a: Json,
    b: Json,
    key: Seq<char>,
    first: StockResult,
    second: StockResult,
    stock_name: Seq<char>,
)
    requires
        agree_but(a, b, key),
        analysis_of(first, a, stock_name),
        analysis_of(second, b, stock_name),
    ensures
        key != "synthesisScore"@ ==> text_view(first.scores.synthesis_rating)
            == text_view(second.scores.synthesis_rating),
        key != "technologyScore"@ ==> real_view(first.scores.technology)
            == real_view(second.scores.technology),
        key != "capitalScore"@ ==> real_view(first.scores.capital)
            == real_view(second.scores.capital),
        key != "marketScore"@ ==> real_view(first.scores.market) == real_view(second.scores.market),
        key != "financeScore"@ ==> real_view(first.scores.finance)
            == real_view(second.scores.finance),
        key != "isNew"@ ==> text_view(first.scores.is_new) == text_view(second.scores.is_new),
        key != "synthesisScore"@ ==> text_view(first.scores.update_time)
            == text_view(second.scores.update_time),
        key != "synthesisScore"@ && key != "technologyScore"@ ==> text_view(first.name)
            == text_view(second.name),
{
    if key != "synthesisScore"@ {
        other_keys_stay(a, b, key, "synthesisScore"@);
    }
    if key != "technologyScore"@ {
        other_keys_stay(a, b, key, "technologyScore"@);
    }
    if key != "capitalScore"@ {
        other_keys_stay(a, b, key, "capitalScore"@);
    }
    if key != "marketScore"@ {
        other_keys_stay(a, b, key, "marketScore"@);
    }
    if key != "financeScore"@ {
        other_keys_stay(a, b, key, "financeScore"@);
    }
    if key != "isNew"@ {
        other_keys_stay(a, b, key, "isNew"@);
    }
}

/// Support and resistance are read entry by entry, under the cycle that was asked for.
pub proof fn levels_are_read(res: SupportResistance, doc: Json, cycle: Seq<char>)
    requires
        levels_of(res, doc, cycle),
    ensures
        res.cycle@ == cycle,
        reads_text(doc, two_keys("levelInfo"@, "supportLevel"@), text_view(res.support_level)),
        reads_text(doc, two_keys("levelInfo"@, "resistanceLevel"@),
            text_view(res.resistance_level)),
        reads_text(doc, two_keys("levelInfo"@, "desc"@), text_view(res.level_desc)),
        reads_text(doc, two_keys("rating"@, "text"@), text_view(res.rating_text)),
        reads_text(doc, two_keys("rating"@, "level"@), text_view(res.rating_level)),
        reads_text(doc, two_keys("rating"@, "status"@), text_view(res.rating_status)),
        reads_text(doc, two_keys("rating"@, "bullish"@), text_view(res.bullish_events)),
        reads_text(doc, two_keys("rating"@, "bearish"@), text_view(res.bearish_events)),
        reads_text(doc, two_keys("rank"@, "industryName"@), text_view(res.industry_name)),
        forall|name: String, value: String| #[trigger]
            says(doc, two_keys("rank"@, "name"@), Json::Text(name)) && #[trigger] says(
                doc,
                two_keys("rank"@, "rankvalue"@),
                Json::Text(value),
            ) && name@.len() > 0 ==> text_view(res.rank_str) == Some(name@ + " "@ + value@),
        (forall|item: Json| !#[trigger] says(doc, one_key("rank"@), item)) ==> res.rank_str is None,
{
    keys_open(doc, two_keys("levelInfo"@, "supportLevel"@));
    readings_follow_the_keys(doc, two_keys("levelInfo"@, "supportLevel"@));
    keys_open(doc, two_keys("levelInfo"@, "resistanceLevel"@));
    readings_follow_the_keys(doc, two_keys("levelInfo"@, "resistanceLevel"@));
    keys_open(doc, two_keys("levelInfo"@, "desc"@));
    readings_follow_the_keys(doc, two_keys("levelInfo"@, "desc"@));
    keys_open(doc, two_keys("rating"@, "text"@));
    readings_follow_the_keys(doc, two_keys("rating"@, "text"@));
    keys_open(doc, two_keys("rating"@, "level"@));
    readings_follow_the_keys(doc, two_keys("rating"@, "level"@));
    keys_open(doc, two_keys("rating"@, "status"@));
    readings_follow_the_keys(doc, two_keys("rating"@, "status"@));
    keys_open(doc, two_keys("rating"@, "bullish"@));
    readings_follow_the_keys(doc, two_keys("rating"@, "bullish"@));
    keys_open(doc, two_keys("rating"@, "bearish"@));
    readings_follow_the_keys(doc, two_keys("rating"@, "bearish"@));
    keys_open(doc, two_keys("rank"@, "industryName"@));
    readings_follow_the_keys(doc, two_keys("rank"@, "industryName"@));
    let name_path = two_keys("rank"@, "name"@);
    let value_path = two_keys("rank"@, "rankvalue"@);
    keys_open(doc, name_path);
    keys_open(doc, value_path);
    keys_open(doc, one_key("rank"@));
    assert forall|name: String, value: String| #[trigger]
        says(doc, name_path, Json::Text(name)) && #[trigger] says(
            doc,
            value_path,
            Json::Text(value),
        ) && name@.len() > 0 implies text_view(res.rank_str) == Some(name@ + " "@ + value@) by {
        keys_lead_on(doc, name_path, Json::Text(name));
        keys_lead_on(doc, value_path, Json::Text(value));
    }
    match field(doc, "rank"@) {
        Some(item) => {
            keys_lead_on(doc, one_key("rank"@), item);
            assert(says(doc, one_key("rank"@), item));
        },
        None => {},
    }
}

/// There are levels exactly where a support, a resistance or a rating in words is read.
pub proof fn levels_are_found(doc: Json, support: Option<Seq<char>>, resistance: Option<Seq<char>>,
    rating: Option<Seq<char>>)
    requires
        reads_text(doc, two_keys("levelInfo"@, "supportLevel"@), support),
        reads_text(doc, two_keys("levelInfo"@, "resistanceLevel"@), resistance),
        reads_text(doc, two_keys("rating"@, "text"@), rating),
    ensures
        has_levels(doc) <==> support is Some || resistance is Some || rating is Some,
{
    one_reading(doc, two_keys("levelInfo"@, "supportLevel"@), support);
    one_reading(doc, two_keys("levelInfo"@, "resistanceLevel"@), resistance);
    one_reading(doc, two_keys("rating"@, "text"@), rating);
    keys_open(doc, two_keys("levelInfo"@, "supportLevel"@));
    keys_open(doc, two_keys("levelInfo"@, "resistanceLevel"@));
    keys_open(doc, two_keys("rating"@, "text"@));
}

proof fn one_reading(doc: Json, path: Seq<Seq<char>>, text: Option<Seq<char>>)
    requires
        reads_text(doc, path, text),
    ensures
        text == as_loose_text(at_path(Some(doc), path)),
{
    assert forall|item: Json| #[trigger] says(doc, path, item) <==> at_path(Some(doc), path)
        == Some(item) by {
        keys_lead_on(doc, path, item);
    }
    match at_path(Some(doc), path) {
        Some(item) => {
            assert(says(doc, path, item));
        },
        None => {},
    }
}

/// The fund flow is read group by group of orders: net amount and share of the very large, the
/// large, the medium and the little ones. The main flow is that of the very large and the large
/// ones together, or of the one of the two that there is.
pub proof fn a_flow_is_read(res: FundFlow, spread: Json)
    requires
        flow_of(res, Some(spread)),
    ensures
        reads_number(spread, two_keys("superGrp"@, "netTurnover"@), real_view(res.super_net)),
        reads_number(spread, two_keys("largeGrp"@, "netTurnover"@), real_view(res.large_net)),
        reads_number(spread, two_keys("mediumGrp"@, "netTurnover"@), real_view(res.medium_net)),
        reads_number(spread, two_keys("littleGrp"@, "netTurnover"@), real_view(res.little_net)),
        reads_text(spread, two_keys("superGrp"@, "turnoverInRate"@), text_view(res.super_rate)),
        reads_text(spread, two_keys("largeGrp"@, "turnoverInRate"@), text_view(res.large_rate)),
        reads_text(spread, two_keys("mediumGrp"@, "turnoverInRate"@), text_view(res.medium_rate)),
        reads_text(spread, two_keys("littleGrp"@, "turnoverInRate"@), text_view(res.little_rate)),
        match (res.super_net, res.large_net) {
            (Some(a), Some(b)) => res.main_net matches Some(RealSum::Two(x, y)) && x@ == a@ && y@
                == b@,
            (Some(a), None) => res.main_net matches Some(RealSum::One(x)) && x@ == a@,
            (None, Some(b)) => res.main_net matches Some(RealSum::One(x)) && x@ == b@,
            (None, None) => res.main_net is None,
        },
{
    keys_open(spread, two_keys("superGrp"@, "netTurnover"@));
    readings_follow_the_keys(spread, two_keys("superGrp"@, "netTurnover"@));
    keys_open(spread, two_keys("largeGrp"@, "netTurnover"@));
    readings_follow_the_keys(spread, two_keys("largeGrp"@, "netTurnover"@));
    keys_open(spread, two_keys("mediumGrp"@, "netTurnover"@));
    readings_follow_the_keys(spread, two_keys("mediumGrp"@, "netTurnover"@));
    keys_open(spread, two_keys("littleGrp"@, "netTurnover"@));
    readings_follow_the_keys(spread, two_keys("littleGrp"@, "netTurnover"@));
    keys_open(spread, two_keys("superGrp"@, "turnoverInRate"@));
    readings_follow_the_keys(spread, two_keys("superGrp"@, "turnoverInRate"@));
    keys_open(spread, two_keys("largeGrp"@, "turnoverInRate"@));
    readings_follow_the_keys(spread, two_keys("largeGrp"@, "turnoverInRate"@));
    keys_open(spread, two_keys("mediumGrp"@, "turnoverInRate"@));
    readings_follow_the_keys(spread, two_keys("mediumGrp"@, "turnoverInRate"@));
    keys_open(spread, two_keys("littleGrp"@, "turnoverInRate"@));
    readings_follow_the_keys(spread, two_keys("littleGrp"@, "turnoverInRate"@));
    let both = terms(res.main_net);
    match (res.super_net, res.large_net) {
        (Some(a), Some(b)) => {
            assert(both.len() == 2 && both[0] == a@ && both[1] == b@);
        },
        (Some(a), None) => {
            assert(both.len() == 1 && both[0] == a@);
        },
        (None, Some(b)) => {
            assert(both.len() == 1 && both[0] == b@);
        },
        (None, None) => {
            assert(both.len() == 0);
        },
    }
}

/// A change of one group of orders changes net amount and share of that group, and of the others
/// nothing; the main flow changes with the very large and the large ones alone.
pub proof fn groups_do_not_mix(a: Json, b: Json, key: Seq<char>, first: FundFlow, second: FundFlow)
    requires
        agree_but(a, b, key),
        flow_of(first, Some(a)),
        flow_of(second, Some(b)),
    ensures
        key != "superGrp"@ ==> real_view(first.super_net) == real_view(second.super_net),
        key != "largeGrp"@ ==> real_view(first.large_net) == real_view(second.large_net),
        key != "mediumGrp"@ ==> real_view(first.medium_net) == real_view(second.medium_net),
        key != "littleGrp"@ ==> real_view(first.little_net) == real_view(second.little_net),
        key != "superGrp"@ ==> text_view(first.super_rate) == text_view(second.super_rate),
        key != "largeGrp"@ ==> text_view(first.large_rate) == text_view(second.large_rate),
        key != "mediumGrp"@ ==> text_view(first.medium_rate) == text_view(second.medium_rate),
        key != "littleGrp"@ ==> text_view(first.little_rate) == text_view(second.little_rate),
        key != "superGrp"@ && key != "largeGrp"@ ==> terms(first.main_net) == terms(
            second.main_net,
        ),
{
    if key != "superGrp"@ {
        other_keys_stay(a, b, key, "superGrp"@);
    }
    if key != "largeGrp"@ {
        other_keys_stay(a, b, key, "largeGrp"@);
    }
    if key != "mediumGrp"@ {
        other_keys_stay(a, b, key, "mediumGrp"@);
    }
    if key != "littleGrp"@ {
        other_keys_stay(a, b, key, "littleGrp"@);
    }
}

/// Votes are read entry by entry, those of the week from the last of the periods under the title
/// of the week; without such a period there are none of the week.
pub proof fn votes_are_read(res: Vote, doc: Json)
    requires
        vote_of(res, doc),
    ensures
        reads_text(doc, one_key("voteUp"@), text_view(res.vote_up)),
        reads_text(doc, one_key("voteDown"@), text_view(res.vote_down)),
        reads_text(doc, one_key("totalNum"@), text_view(res.total_num)),
        reads_text(doc, one_key("voteUpRate"@), text_view(res.vote_up_rate)),
        reads_text(doc, one_key("voteDownRate"@), text_view(res.vote_down_rate)),
        forall|list: Vec<Json>, i: int|
            says(doc, two_keys("voteRecords"@, "voteRes"@), Json::Array(list)) && is_last_week(
                list@,
                i,
            ) ==> {
                &&& #[trigger] reads_text(list@[i], one_key("voteUp"@), text_view(res.week_up))
                &&& reads_text(list@[i], one_key("voteDown"@), text_view(res.week_down))
                &&& reads_text(list@[i], one_key("voteUpRate"@), text_view(res.week_rate))
            },
        (forall|list: Vec<Json>, i: int|
            !(#[trigger] says(doc, two_keys("voteRecords"@, "voteRes"@), Json::Array(list))
                && #[trigger] is_last_week(list@, i))) ==> res.week_up is None && res.week_down
            is None && res.week_rate is None,
{
    keys_open(doc, one_key("voteUp"@));
    readings_follow_the_keys(doc, one_key("voteUp"@));
    keys_open(doc, one_key("voteDown"@));
    readings_follow_the_keys(doc, one_key("voteDown"@));
    keys_open(doc, one_key("totalNum"@));
    readings_follow_the_keys(doc, one_key("totalNum"@));
    keys_open(doc, one_key("voteUpRate"@));
    readings_follow_the_keys(doc, one_key("voteUpRate"@));
    keys_open(doc, one_key("voteDownRate"@));
    readings_follow_the_keys(doc, one_key("voteDownRate"@));
    let path = two_keys("voteRecords"@, "voteRes"@);
    keys_open(doc, path);
    assert forall|list: Vec<Json>, i: int|
        says(doc, path, Json::Array(list)) && is_last_week(list@, i) implies {
        &&& #[trigger] reads_text(list@[i], one_key("voteUp"@), text_view(res.week_up))
        &&& reads_text(list@[i], one_key("voteDown"@), text_view(res.week_down))
        &&& reads_text(list@[i], one_key("voteUpRate"@), text_view(res.week_rate))
    } by {
        keys_lead_on(doc, path, Json::Array(list));
        the_last_week_is_found(list@);
        the_last_week_is_one(list@, i);
        keys_open(list@[i], one_key("voteUp"@));
        keys_open(list@[i], one_key("voteDown"@));
        keys_open(list@[i], one_key("voteUpRate"@));
        readings_follow_the_keys(list@[i], one_key("voteUp"@));
        readings_follow_the_keys(list@[i], one_key("voteDown"@));
        readings_follow_the_keys(list@[i], one_key("voteUpRate"@));
    }
    match at_path(Some(doc), path) {
        Some(Json::Array(list)) => {
            keys_lead_on(doc, path, Json::Array(list));
            the_last_week_is_found(list@);
            assert(says(doc, path, Json::Array(list)));
        },
        _ => {},
    }
}

/// A period under the title of the week, with none behind it.
pub open spec fn is_last_week(periods: Seq<Json>, i: int) -> bool {
    &&& 0 <= i < periods.len()
    &&& titled_week(periods[i])
    &&& forall|j: int| i < j < periods.len() ==> !titled_week(#[trigger] periods[j])
}

/// A document whose title is that of the week.
pub open spec fn titled_week(period: Json) -> bool {
    exists|s: String| #[trigger] has_entry(period, "title"@, Json::Text(s)) && s@ == "本周"@
}

proof fn the_last_week_is_one(periods: Seq<Json>, i: int)
    requires
        is_last_week(periods, i),
    ensures
        forall|k: int| #[trigger] is_last_week(periods, k) ==> k == i,
{
}

proof fn titles_are_read(period: Json)
    ensures
        titled_week(period) <==> crate::http::is_week(period),
{
    match field(period, "title"@) {
        Some(Json::Text(s)) => {
            a_lookup_finds_the_entry(period, "title"@, Json::Text(s));
            assert(has_entry(period, "title"@, Json::Text(s)));
        },
        _ => {},
    }
    assert forall|s: String| #[trigger] has_entry(period, "title"@, Json::Text(s)) implies field(
        period,
        "title"@,
    ) == Some(Json::Text(s)) by {
        a_lookup_finds_the_entry(period, "title"@, Json::Text(s));
    }
}

proof fn the_last_week_is_found(periods: Seq<Json>)
    ensures
        match crate::http::week(periods) {
            Some(p) => exists|i: int| #[trigger] is_last_week(periods, i) && periods[i] == p,
            None => forall|i: int| !#[trigger] is_last_week(periods, i),
        },
    decreases periods.len(),
{
    if periods.len() > 0 {
        let head = periods.drop_last();
        let n = periods.len() - 1;
        the_last_week_is_found(head);
        titles_are_read(periods[n]);
        if crate::http::is_week(periods[n]) {
            assert(is_last_week(periods, n));
        } else {
            match crate::http::week(head) {
                Some(p) => {
                    let i = choose|i: int| #[trigger] is_last_week(head, i) && head[i] == p;
                    assert(periods[i] == head[i]);
                    assert forall|j: int| i < j < periods.len() implies !titled_week(
                        #[trigger] periods[j],
                    ) by {
                        if j < n {
                            assert(head[j] == periods[j]);
                        }
                    }
                    assert(is_last_week(periods, i));
                },
                None => {
                    assert forall|i: int| !#[trigger] is_last_week(periods, i) by {
                        if is_last_week(periods, i) {
                            assert(i < n);
                            assert(head[i] == periods[i]);
                            assert forall|j: int| i < j < head.len() implies !titled_week(
                                #[trigger] head[j],
                            ) by {
                                assert(head[j] == periods[j]);
                            }
                            assert(is_last_week(head, i));
                        }
                    }
                },
            }
        }
    }
}

/// What is read of a reply stands under its result.
pub proof fn a_reply_is_read_under_its_result(data: Json, path: Seq<Seq<char>>, item: Json)
    requires
        path.len() > 0,
    ensures
        says(payload(data), path, item) <==> says(data, one_key("Result"@) + path, item),
{
    let whole = one_key("Result"@) + path;
    assert(whole.drop_first() =~= path);
    keys_lead_on(data, whole, item);
    keys_lead_on(payload(data), path, item);
    if field(data, "Result"@) is None {
        assert(at_path(Some(Json::Null), path) == at_path(None, path.drop_first()));
        assert(at_path(None, path) == at_path(None, path.drop_first()));
    }
}

/// What is read of a reply with a fund flow stands under the content of its result, or of the
/// result in its result where there is one.
pub proof fn a_flow_is_read_under_its_content(data: Json, path: Seq<Seq<char>>, item: Json)
    requires
        path.len() > 0,
    ensures
        (exists|inner: Json| #[trigger] says(data, two_keys("Result"@, "Result"@), inner))
            ==> (says(
            flow_content(data),
            path,
            item,
        ) <==> says(data, three_keys("Result"@, "Result"@, "content"@) + path, item)),
        (forall|inner: Json| !#[trigger] says(data, two_keys("Result"@, "Result"@), inner))
            ==> (says(
            flow_content(data),
            path,
            item,
        ) <==> says(data, two_keys("Result"@, "content"@) + path, item)),
{
    let twice = two_keys("Result"@, "Result"@);
    keys_open(data, twice);
    assert forall|inner: Json| #[trigger] says(data, twice, inner) <==> at_path(Some(data), twice)
        == Some(inner) by {
        keys_lead_on(data, twice, inner);
    }
    match at_path(Some(data), twice) {
        Some(inner) => {
            assert(says(data, twice, inner));
        },
        None => {},
    }
    let long = three_keys("Result"@, "Result"@, "content"@) + path;
    let short = two_keys("Result"@, "content"@) + path;
    keys_lead_on(data, long, item);
    keys_lead_on(data, short, item);
    keys_lead_on(flow_content(data), path, item);
    assert(long.drop_first() =~= two_keys("Result"@, "content"@) + path);
    assert(short.drop_first() =~= one_key("content"@) + path);
    assert((one_key("content"@) + path).drop_first() =~= path);
    reveal_with_fuel(at_path, 4);
    if field_in(Some(data), "Result"@) is None || flow_content(data) == Json::Null {
        assert(at_path(Some(Json::Null), path) == at_path(None, path.drop_first()));
        assert(at_path(None, path) == at_path(None, path.drop_first()));
    }
}

/// A document has a fund flow where its spread has a result, and votes where it has records of
/// them.
pub proof fn flows_and_votes_are_found(doc: Json, item: Json)
    ensures
        spread_of(doc) == Some(item) <==> says(doc, two_keys("fundFlowSpread"@, "result"@), item),
        has_votes(doc) <==> exists|records: Json| #[trigger] has_entry(doc, "voteRecords"@,
            records),
{
    let path = two_keys("fundFlowSpread"@, "result"@);
    keys_open(doc, path);
    keys_lead_on(doc, path, item);
    match field(doc, "voteRecords"@) {
        Some(records) => {
            a_lookup_finds_the_entry(doc, "voteRecords"@, records);
        },
        None => {
            assert forall|records: Json| !#[trigger] has_entry(doc, "voteRecords"@, records) by {
                a_lookup_finds_the_entry(doc, "voteRecords"@, records);
            }
        },
    }
}

} // verus!
