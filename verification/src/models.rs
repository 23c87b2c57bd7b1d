//! What the four Baidu endpoints say of one stock.

use vstd::prelude::*;

use crate::number::Real;

verus! {

#[derive(Debug, Clone, Default, PartialEq, Eq)]
pub struct StockRef {
    pub code: String,
    pub name: String,
}

#[derive(Debug, Clone, Default, PartialEq, Eq)]
pub struct Scores {
    pub synthesis_rating: Option<String>,
    pub technology: Option<Real>,
    pub capital: Option<Real>,
    pub market: Option<Real>,
    pub finance: Option<Real>,
    pub is_new: Option<String>,
    pub update_time: Option<String>,
}

#[derive(Debug, Clone, Default, PartialEq, Eq)]
pub struct SupportResistance {
    pub cycle: String,
    pub support_level: Option<String>,
    pub resistance_level: Option<String>,
    pub level_desc: Option<String>,
    pub rating_text: Option<String>,
    pub rating_level: Option<String>,
    pub rating_status: Option<String>,
    pub bullish_events: Option<String>,
    pub bearish_events: Option<String>,
    pub rank_str: Option<String>,
    pub industry_name: Option<String>,
}

/// One number, or the sum of two.
#[derive(Debug, Clone, PartialEq, Eq)]
pub enum RealSum {
    One(Real),
    Two(Real, Real),
}

#[derive(Debug, Clone, Default, PartialEq, Eq)]
pub struct FundFlow {
    pub super_net: Option<Real>,
    pub large_net: Option<Real>,
    pub medium_net: Option<Real>,
    pub little_net: Option<Real>,
    pub super_rate: Option<String>,
    pub large_rate: Option<String>,
    pub medium_rate: Option<String>,
    pub little_rate: Option<String>,
    /// Very large and large orders together.
    pub main_net: Option<RealSum>,
}

#[derive(Debug, Clone, Default, PartialEq, Eq)]
pub struct Vote {
    pub vote_up: Option<String>,
    pub vote_down: Option<String>,
    pub total_num: Option<String>,
    pub vote_up_rate: Option<String>,
    pub vote_down_rate: Option<String>,
    pub week_up: Option<String>,
    pub week_down: Option<String>,
    pub week_rate: Option<String>,
}

#[derive(Debug, Clone, Default, PartialEq, Eq)]
pub struct StockResult {
    pub name: Option<String>,
    pub scores: Scores,
    pub support: Vec<SupportResistance>,
    pub fund_flow: Option<FundFlow>,
    pub vote: Option<Vote>,
}

} // verus!
