//! Daily exchange rates over a range of dates: which days count, how one
//! day's rate is looked up, and how the retrieved rates are summed up.

pub mod cache;
pub mod date;
pub mod json;
pub mod laws;
pub mod overview;
pub mod provider;
pub mod rate;
pub mod types;
pub mod utils;
