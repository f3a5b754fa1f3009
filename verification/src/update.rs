//! The update loop as a pure state machine. One iteration walks the phases
//! Starting or Waiting, Fetching, Rendering, Validating, Publishing and back
//! to Waiting; every failure abandons only the current iteration and returns
//! the machine to Waiting, so no single iteration's failure can stop the
//! loop. The caller performs the returned action (sleep, fetch, publish) and
//! feeds the resulting event back in.

use vstd::prelude::*;
use crate::profile::User;
use crate::publish::ProfileRequest;
use crate::render::{render_bio, render_spec};
use crate::BIO_CHAR_LIMIT;

verus! {

/// The runtime configuration, constructed once at startup.
#[derive(Debug)]
pub struct Config {
    /// The id of the player whose statistics are fetched.
    pub quaver_user_id: u64,
    /// The schema string the bio is rendered from.
    pub bio_schema: String,
    /// The update interval in seconds.
    pub update_interval: u64,
}

impl Default for Config {
    /// The configuration written on first run: a sample schema and a
    /// thirty-minute interval.
    fn default() -> (c: Config)
        ensures
            c.quaver_user_id == 0,
            c.bio_schema@ == "Hello, {username}! Your 4K rank is {4k_rank}."@,
            c.update_interval == 1800,
    {
        Config {
            quaver_user_id: 0,
            bio_schema: String::from_str("Hello, {username}! Your 4K rank is {4k_rank}."),
            update_interval: 1800,
        }
    }
}

/// Where the loop stands within one iteration.
#[derive(Debug)]
pub enum Phase {
    /// No iteration has run yet; the first one starts without a delay.
    Starting,
    /// Sleeping until the next iteration is due.
    Waiting,
    /// A fetch of the profile record is in flight.
    Fetching,
    /// A record arrived and the bio is about to be rendered from it.
    Rendering { user: User },
    /// The rendered bio awaits the character-count check.
    Validating { bio: String },
    /// A publish of the validated bio is in flight.
    Publishing { bio: String },
}

/// What the world reports back to the machine.
#[derive(Debug)]
pub enum Event {
    /// The process has started.
    Begin,
    /// The configured interval has elapsed.
    IntervalElapsed,
    /// The fetch returned a profile record.
    FetchSucceeded { user: User },
    /// The fetch failed (transport, status, or parse failure).
    FetchFailed,
    /// No outside work was pending; the machine proceeds on its own.
    Advance,
    /// The publish was accepted.
    PublishSucceeded,
    /// The publish failed (transport failure or error status).
    PublishFailed,
}

/// What the caller must do next.
#[derive(Debug)]
pub enum Action {
    /// Nothing: feed `Event::Advance` back in.
    Proceed,
    /// Sleep for this many seconds, then report `Event::IntervalElapsed`.
    Sleep { seconds: u64 },
    /// Fetch the profile record of this player, then report the outcome.
    Fetch { user_id: u64 },
    /// Send this partial profile update, then report the outcome.
    Publish { request: ProfileRequest },
}

/// One transition of the machine: the next phase, and the action the caller
/// performs before the next event.
#[derive(Debug)]
pub struct Transition {
    pub next: Phase,
    pub action: Action,
}

/// Whether `event` is one the machine can receive in `phase`.
pub open spec fn event_fits(phase: Phase, event: Event) -> bool {
    match (phase, event) {
        (Phase::Starting, Event::Begin) => true,
        (Phase::Waiting, Event::IntervalElapsed) => true,
        (Phase::Fetching, Event::FetchSucceeded { .. }) => true,
        (Phase::Fetching, Event::FetchFailed) => true,
        (Phase::Rendering { .. }, Event::Advance) => true,
        (Phase::Validating { .. }, Event::Advance) => true,
        (Phase::Publishing { .. }, Event::PublishSucceeded) => true,
        (Phase::Publishing { .. }, Event::PublishFailed) => true,
        _ => false,
    }
}

/// Every phase accepts some event: the machine has no terminal state.
pub proof fn lemma_no_terminal_phase(phase: Phase)
    ensures
        exists|event: Event| event_fits(phase, event),
{
    match phase {
        Phase::Starting => {
            assert(event_fits(phase, Event::Begin));
        },
        Phase::Waiting => {
            assert(event_fits(phase, Event::IntervalElapsed));
        },
        Phase::Fetching => {
            assert(event_fits(phase, Event::FetchFailed));
        },
        Phase::Rendering { .. } => {
            assert(event_fits(phase, Event::Advance));
        },
        Phase::Validating { .. } => {
            assert(event_fits(phase, Event::Advance));
        },
        Phase::Publishing { .. } => {
            assert(event_fits(phase, Event::PublishSucceeded));
        },
    }
}

/// Performs one transition of the update loop.
///
/// An iteration starts with a fetch (immediately from `Starting`, after the
/// interval from `Waiting`). A fetched record is rendered against the
/// configured schema, the rendered bio is published only when its character
/// count is within `BIO_CHAR_LIMIT`, and every failure — fetch failure, an
/// over-long bio, publish failure — returns the machine to `Waiting` for the
/// next tick, never publishing and never stopping the loop.
pub fn step(config: &Config, phase: Phase, event: Event) -> (t: Transition)
    requires
        event_fits(phase, event),
    ensures
        // an iteration begins with a fetch of the configured player
        (phase is Starting || phase is Waiting) ==> (t.next is Fetching && t.action
            == (Action::Fetch { user_id: config.quaver_user_id })),
        // a fetch failure abandons the iteration: back to Waiting, no publish
        (phase is Fetching && event is FetchFailed) ==> (t.next is Waiting && t.action
            == (Action::Sleep { seconds: config.update_interval })),
        // a fetched record moves on to rendering, unchanged
        event matches Event::FetchSucceeded { user } ==> (t.next == (Phase::Rendering {
            user,
        }) && t.action is Proceed),
        // rendering applies the template renderer to the configured schema
        phase matches Phase::Rendering { user } ==> (t.next matches Phase::Validating { bio }
            && bio@ == render_spec(config.bio_schema@, user) && t.action is Proceed),
        // a bio within the character limit is published, with no other field set
        phase matches Phase::Validating { bio } ==> ({
            &&& bio@.len() <= BIO_CHAR_LIMIT ==> ({
                &&& t.next matches Phase::Publishing { bio: b } && b@ == bio@
                &&& t.action matches Action::Publish { request } && ({
                    &&& request.bio matches Some(sent) && sent@ == bio@
                    &&& request.accent_color is None
                    &&& request.pronouns is None
                    &&& request.profile_effect is None
                })
            })
            // a bio over the character limit abandons the iteration
            &&& bio@.len() > BIO_CHAR_LIMIT ==> (t.next is Waiting && t.action == (Action::Sleep {
                seconds: config.update_interval,
            }))
        }),
        // after a publish, successful or not, the machine waits for the next tick
        phase is Publishing ==> (t.next is Waiting && t.action == (Action::Sleep {
            seconds: config.update_interval,
        })),
        // a publish is ever requested only for a validated bio within the limit
        t.action matches Action::Publish { request } ==> ({
            &&& phase matches Phase::Validating { bio } && ({
                &&& bio@.len() <= BIO_CHAR_LIMIT
                &&& request.bio matches Some(sent) && sent@ == bio@
            })
        }),
{
    match (phase, event) {
        (Phase::Starting, Event::Begin) => Transition {
            next: Phase::Fetching,
            action: Action::Fetch { user_id: config.quaver_user_id },
        },
        (Phase::Waiting, Event::IntervalElapsed) => Transition {
            next: Phase::Fetching,
            action: Action::Fetch { user_id: config.quaver_user_id },
        },
        (Phase::Fetching, Event::FetchSucceeded { user }) => Transition {
            next: Phase::Rendering { user },
            action: Action::Proceed,
        },
        (Phase::Fetching, Event::FetchFailed) => Transition {
            next: Phase::Waiting,
            action: Action::Sleep { seconds: config.update_interval },
        },
        (Phase::Rendering { user }, Event::Advance) => {
            let bio = render_bio(config.bio_schema.as_str(), &user);
            Transition { next: Phase::Validating { bio }, action: Action::Proceed }
        },
        (Phase::Validating { bio }, Event::Advance) => {
            let count = bio.as_str().unicode_len();
            if count <= BIO_CHAR_LIMIT {
                let request = ProfileRequest {
                    bio: Some(bio.clone()),
                    accent_color: None,
                    pronouns: None,
                    profile_effect: None,
                };
                Transition {
                    next: Phase::Publishing { bio },
                    action: Action::Publish { request },
                }
            } else {
                Transition {
                    next: Phase::Waiting,
                    action: Action::Sleep { seconds: config.update_interval },
                }
            }
        },
        (Phase::Publishing { .. }, Event::PublishSucceeded) => Transition {
            next: Phase::Waiting,
            action: Action::Sleep { seconds: config.update_interval },
        },
        (Phase::Publishing { .. }, Event::PublishFailed) => Transition {
            next: Phase::Waiting,
            action: Action::Sleep { seconds: config.update_interval },
        },
        _ => unreached(),
    }
}

} // verus!
