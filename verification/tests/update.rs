use quaver_bio::profile::{Ranks, Stats, User};
use quaver_bio::publish::ProfileRequest;
use quaver_bio::update::{Action, Config, Event, Phase, Transition};
use quaver_bio::update::step;
use quaver_bio::BIO_CHAR_LIMIT;

fn zero_stats(global: u64) -> Stats {
    Stats {
        ranks: Ranks { global, country: 0, total_hits: 0 },
        total_score: 0,
        ranked_score: 0,
        overall_accuracy_hundredths: 0,
        overall_performance_rating_hundredths: 0,
        play_count: 0,
        fail_count: 0,
        max_combo: 0,
        total_marvelous: 0,
        total_perfect: 0,
        total_great: 0,
        total_good: 0,
        total_okay: 0,
        total_miss: 0,
        count_grade_x: 0,
        count_grade_ss: 0,
        count_grade_s: 0,
        count_grade_a: 0,
        count_grade_b: 0,
        count_grade_c: 0,
        count_grade_d: 0,
    }
}

fn sample_user_update() -> User {
    User {
        id: 1,
        steam_id: String::new(),
        username: String::from("Player1"),
        time_registered: String::new(),
        allowed: true,
        privileges: 0,
        usergroups: 0,
        mute_end_time: String::new(),
        latest_activity: String::new(),
        country: String::from("US"),
        avatar_url: String::new(),
        twitter: None,
        title: None,
        twitch_username: None,
        donator_end_time: String::new(),
        discord_id: None,
        misc_information: None,
        clan_id: None,
        clan_leave_time: String::new(),
        clan_status: None,
        stats_keys4: zero_stats(42),
        stats_keys7: zero_stats(9),
    }
}

fn sample_config(schema: &str) -> Config {
    Config { quaver_user_id: 5, bio_schema: String::from(schema), update_interval: 1800 }
}

#[test]
fn default_config_has_documented_values() {
    let c = Config::default();
    assert_eq!(c.quaver_user_id, 0);
    assert_eq!(c.bio_schema, "Hello, {username}! Your 4K rank is {4k_rank}.");
    assert_eq!(c.update_interval, 1800);
}

#[test]
fn default_profile_request_sets_no_field() {
    let r = ProfileRequest::default();
    assert!(r.bio.is_none());
    assert!(r.accent_color.is_none());
    assert!(r.pronouns.is_none());
    assert!(r.profile_effect.is_none());
}

#[test]
fn first_iteration_fetches_without_delay() {
    let cfg = sample_config("hi");
    let t = step(&cfg, Phase::Starting, Event::Begin);
    assert!(matches!(t.next, Phase::Fetching));
    assert!(matches!(t.action, Action::Fetch { user_id: 5 }));
}

#[test]
fn waiting_tick_starts_a_fetch() {
    let cfg = sample_config("hi");
    let t = step(&cfg, Phase::Waiting, Event::IntervalElapsed);
    assert!(matches!(t.next, Phase::Fetching));
    assert!(matches!(t.action, Action::Fetch { user_id: 5 }));
}

#[test]
fn successful_iteration_publishes_exactly_the_rendered_bio() {
    let cfg = sample_config("Hello, {username}! Your 4K rank is {4k_rank}.");
    let user = sample_user_update();
    let mut publishes: u32 = 0;

    let t = step(&cfg, Phase::Starting, Event::Begin);
    assert!(matches!(t.next, Phase::Fetching));
    if matches!(t.action, Action::Publish { .. }) {
        publishes += 1;
    }

    let t = step(&cfg, t.next, Event::FetchSucceeded { user });
    assert!(matches!(t.next, Phase::Rendering { .. }));
    assert!(matches!(t.action, Action::Proceed));

    let t = step(&cfg, t.next, Event::Advance);
    match &t.next {
        Phase::Validating { bio } => {
            assert_eq!(bio, "Hello, Player1! Your 4K rank is 42.");
        }
        other => panic!("expected Validating, got {other:?}"),
    }
    assert!(matches!(t.action, Action::Proceed));

    let t = step(&cfg, t.next, Event::Advance);
    assert!(matches!(t.next, Phase::Publishing { .. }));
    match &t.action {
        Action::Publish { request } => {
            publishes += 1;
            assert_eq!(request.bio.as_deref(), Some("Hello, Player1! Your 4K rank is 42."));
            assert!(request.accent_color.is_none());
            assert!(request.pronouns.is_none());
            assert!(request.profile_effect.is_none());
        }
        other => panic!("expected Publish, got {other:?}"),
    }

    let t = step(&cfg, t.next, Event::PublishSucceeded);
    assert!(matches!(t.next, Phase::Waiting));
    assert!(matches!(t.action, Action::Sleep { seconds: 1800 }));
    if matches!(t.action, Action::Publish { .. }) {
        publishes += 1;
    }

    assert_eq!(publishes, 1);
}

#[test]
fn fetch_failure_skips_publishing_and_waits_for_next_tick() {
    let cfg = sample_config("Hello, {username}!");
    let t = step(&cfg, Phase::Starting, Event::Begin);
    let t = step(&cfg, t.next, Event::FetchFailed);
    assert!(matches!(t.next, Phase::Waiting));
    assert!(matches!(t.action, Action::Sleep { seconds: 1800 }));
    // the loop proceeds: the next tick starts a fresh fetch
    let t = step(&cfg, t.next, Event::IntervalElapsed);
    assert!(matches!(t.next, Phase::Fetching));
    assert!(matches!(t.action, Action::Fetch { user_id: 5 }));
}

#[test]
fn bio_of_exactly_the_limit_publishes() {
    let cfg = sample_config("");
    let bio = "a".repeat(BIO_CHAR_LIMIT);
    let t = step(&cfg, Phase::Validating { bio: bio.clone() }, Event::Advance);
    assert!(matches!(t.next, Phase::Publishing { .. }));
    match &t.action {
        Action::Publish { request } => assert_eq!(request.bio.as_deref(), Some(bio.as_str())),
        other => panic!("expected Publish, got {other:?}"),
    }
}

#[test]
fn bio_one_over_the_limit_aborts_the_iteration() {
    let cfg = sample_config("");
    let bio = "a".repeat(BIO_CHAR_LIMIT + 1);
    let t = step(&cfg, Phase::Validating { bio }, Event::Advance);
    assert!(matches!(t.next, Phase::Waiting));
    assert!(matches!(t.action, Action::Sleep { seconds: 1800 }));
}

#[test]
fn limit_counts_characters_not_bytes() {
    let cfg = sample_config("");
    // 190 two-byte characters: within the limit by character count
    let bio = "é".repeat(BIO_CHAR_LIMIT);
    assert!(bio.len() > BIO_CHAR_LIMIT);
    let t = step(&cfg, Phase::Validating { bio }, Event::Advance);
    assert!(matches!(t.next, Phase::Publishing { .. }));
    assert!(matches!(t.action, Action::Publish { .. }));
    // 191 two-byte characters: one character over
    let over = "é".repeat(BIO_CHAR_LIMIT + 1);
    let t: Transition = step(&cfg, Phase::Validating { bio: over }, Event::Advance);
    assert!(matches!(t.next, Phase::Waiting));
    assert!(matches!(t.action, Action::Sleep { .. }));
}

#[test]
fn over_long_rendered_bio_is_caught_after_rendering() {
    let schema = "x".repeat(BIO_CHAR_LIMIT + 1);
    let cfg = sample_config(&schema);
    let user = sample_user_update();
    let t = step(&cfg, Phase::Fetching, Event::FetchSucceeded { user });
    let t = step(&cfg, t.next, Event::Advance);
    assert!(matches!(t.next, Phase::Validating { .. }));
    let t = step(&cfg, t.next, Event::Advance);
    assert!(matches!(t.next, Phase::Waiting));
    assert!(matches!(t.action, Action::Sleep { seconds: 1800 }));
}
