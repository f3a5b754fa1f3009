//! The key resolver: maps a substitution key name and a profile record to
//! the rendered string value, deterministically and totally. Unknown keys
//! resolve to the empty string, so rendering never fails.

use vstd::prelude::*;
use crate::profile::User;
use crate::text::{dec_str, fixed2_str, str_eq, u64_to_string, hundredths_to_string};

verus! {

/// Whether `key` is one of the fixed set of recognized substitution keys.
pub open spec fn is_known_key(key: Seq<char>) -> bool {
    ||| key == "username"@
    ||| key == "country"@
    ||| key == "4k_rank"@
    ||| key == "4k_rank_country"@
    ||| key == "4k_total_score"@
    ||| key == "4k_ranked_score"@
    ||| key == "4k_accuracy"@
    ||| key == "4k_performance_rating"@
    ||| key == "4k_play_count"@
    ||| key == "4k_fail_count"@
    ||| key == "4k_max_combo"@
    ||| key == "7k_rank"@
    ||| key == "7k_rank_country"@
    ||| key == "7k_total_score"@
    ||| key == "7k_ranked_score"@
    ||| key == "7k_accuracy"@
    ||| key == "7k_performance_rating"@
    ||| key == "7k_play_count"@
    ||| key == "7k_fail_count"@
    ||| key == "7k_max_combo"@
}

/// The value a substitution key denotes on a profile record: the named
/// field's decimal rendering (two fixed decimals for accuracy and
/// performance rating), and the empty string for any unrecognized key.
pub open spec fn resolve_key(key: Seq<char>, u: User) -> Seq<char> {
    if key == "username"@ {
        u.username@
    } else if key == "country"@ {
        u.country@
    } else if key == "4k_rank"@ {
        dec_str(u.stats_keys4.ranks.global as nat)
    } else if key == "4k_rank_country"@ {
        dec_str(u.stats_keys4.ranks.country as nat)
    } else if key == "4k_total_score"@ {
        dec_str(u.stats_keys4.total_score as nat)
    } else if key == "4k_ranked_score"@ {
        dec_str(u.stats_keys4.ranked_score as nat)
    } else if key == "4k_accuracy"@ {
        fixed2_str(u.stats_keys4.overall_accuracy_hundredths as nat)
    } else if key == "4k_performance_rating"@ {
        fixed2_str(u.stats_keys4.overall_performance_rating_hundredths as nat)
    } else if key == "4k_play_count"@ {
        dec_str(u.stats_keys4.play_count as nat)
    } else if key == "4k_fail_count"@ {
        dec_str(u.stats_keys4.fail_count as nat)
    } else if key == "4k_max_combo"@ {
        dec_str(u.stats_keys4.max_combo as nat)
    } else if key == "7k_rank"@ {
        dec_str(u.stats_keys7.ranks.global as nat)
    } else if key == "7k_rank_country"@ {
        dec_str(u.stats_keys7.ranks.country as nat)
    } else if key == "7k_total_score"@ {
        dec_str(u.stats_keys7.total_score as nat)
    } else if key == "7k_ranked_score"@ {
        dec_str(u.stats_keys7.ranked_score as nat)
    } else if key == "7k_accuracy"@ {
        fixed2_str(u.stats_keys7.overall_accuracy_hundredths as nat)
    } else if key == "7k_performance_rating"@ {
        fixed2_str(u.stats_keys7.overall_performance_rating_hundredths as nat)
    } else if key == "7k_play_count"@ {
        dec_str(u.stats_keys7.play_count as nat)
    } else if key == "7k_fail_count"@ {
        dec_str(u.stats_keys7.fail_count as nat)
    } else if key == "7k_max_combo"@ {
        dec_str(u.stats_keys7.max_combo as nat)
    } else {
        Seq::<char>::empty()
    }
}

/// Any key outside the recognized set resolves to the empty string, for
/// every profile record.
pub proof fn lemma_unknown_key_resolves_empty(key: Seq<char>, u: User)
    requires
        !is_known_key(key),
    ensures
        resolve_key(key, u) == Seq::<char>::empty(),
{
}

/// Takes a substitution key and a profile record, and returns the value the
/// key stands for; an unrecognized key yields the empty string.
pub fn map_key_to_user_value(key: &str, user: &User) -> (r: String)
    ensures
        r@ == resolve_key(key@, *user),
{
    if str_eq(key, "username") {
        user.username.clone()
    } else if str_eq(key, "country") {
        user.country.clone()
    } else if str_eq(key, "4k_rank") {
        u64_to_string(user.stats_keys4.ranks.global)
    } else if str_eq(key, "4k_rank_country") {
        u64_to_string(user.stats_keys4.ranks.country)
    } else if str_eq(key, "4k_total_score") {
        u64_to_string(user.stats_keys4.total_score)
    } else if str_eq(key, "4k_ranked_score") {
        u64_to_string(user.stats_keys4.ranked_score)
    } else if str_eq(key, "4k_accuracy") {
        hundredths_to_string(user.stats_keys4.overall_accuracy_hundredths)
    } else if str_eq(key, "4k_performance_rating") {
        hundredths_to_string(user.stats_keys4.overall_performance_rating_hundredths)
    } else if str_eq(key, "4k_play_count") {
        u64_to_string(user.stats_keys4.play_count)
    } else if str_eq(key, "4k_fail_count") {
        u64_to_string(user.stats_keys4.fail_count)
    } else if str_eq(key, "4k_max_combo") {
        u64_to_string(user.stats_keys4.max_combo)
    } else if str_eq(key, "7k_rank") {
        u64_to_string(user.stats_keys7.ranks.global)
    } else if str_eq(key, "7k_rank_country") {
        u64_to_string(user.stats_keys7.ranks.country)
    } else if str_eq(key, "7k_total_score") {
        u64_to_string(user.stats_keys7.total_score)
    } else if str_eq(key, "7k_ranked_score") {
        u64_to_string(user.stats_keys7.ranked_score)
    } else if str_eq(key, "7k_accuracy") {
        hundredths_to_string(user.stats_keys7.overall_accuracy_hundredths)
    } else if str_eq(key, "7k_performance_rating") {
        hundredths_to_string(user.stats_keys7.overall_performance_rating_hundredths)
    } else if str_eq(key, "7k_play_count") {
        u64_to_string(user.stats_keys7.play_count)
    } else if str_eq(key, "7k_fail_count") {
        u64_to_string(user.stats_keys7.fail_count)
    } else if str_eq(key, "7k_max_combo") {
        u64_to_string(user.stats_keys7.max_combo)
    } else {
        String::new()
    }
}

} // verus!
