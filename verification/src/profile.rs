//! The player profile record fetched from the statistics service, modelled
//! with plain values so that the rendering logic over it can be verified.
//!
//! The remote service reports accuracy and performance rating as
//! floating-point percentages; the record stores each of them already rounded
//! to hundredths (the value times 100, rounded to the nearest integer), since
//! the only thing the rendering logic ever does with them is format them with
//! exactly two digits after the decimal point.

use vstd::prelude::*;

verus! {

/// A player's global and country ranks for one game mode.
#[derive(Debug)]
pub struct Ranks {
    pub global: u64,
    pub country: u64,
    pub total_hits: u64,
}

/// A player's statistics for one game mode (a 4-key or 7-key ruleset).
///
/// `overall_accuracy_hundredths` and `overall_performance_rating_hundredths`
/// hold the corresponding percentage and rating in hundredths: a stored value
/// of 8746 renders as "87.46".
#[derive(Debug)]
pub struct Stats {
    pub ranks: Ranks,
    pub total_score: u64,
    pub ranked_score: u64,
    pub overall_accuracy_hundredths: u64,
    pub overall_performance_rating_hundredths: u64,
    pub play_count: u64,
    pub fail_count: u64,
    pub max_combo: u64,
    pub total_marvelous: u64,
    pub total_perfect: u64,
    pub total_great: u64,
    pub total_good: u64,
    pub total_okay: u64,
    pub total_miss: u64,
    pub count_grade_x: u64,
    pub count_grade_ss: u64,
    pub count_grade_s: u64,
    pub count_grade_a: u64,
    pub count_grade_b: u64,
    pub count_grade_c: u64,
    pub count_grade_d: u64,
}

/// A player's miscellaneous information.
#[derive(Debug)]
pub struct UserMiscInformation {
    pub discord: Option<String>,
    pub default_mode: u64,
}

/// One fetched snapshot of a player's public statistics.
#[derive(Debug)]
pub struct User {
    pub id: u64,
    pub steam_id: String,
    pub username: String,
    pub time_registered: String,
    pub allowed: bool,
    pub privileges: u64,
    pub usergroups: u64,
    pub mute_end_time: String,
    pub latest_activity: String,
    pub country: String,
    pub avatar_url: String,
    pub twitter: Option<String>,
    pub title: Option<String>,
    pub twitch_username: Option<String>,
    pub donator_end_time: String,
    pub discord_id: Option<String>,
    pub misc_information: Option<UserMiscInformation>,
    pub clan_id: Option<u64>,
    pub clan_leave_time: String,
    pub clan_status: Option<String>,
    pub stats_keys4: Stats,
    pub stats_keys7: Stats,
}

} // verus!
