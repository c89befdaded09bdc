//! Health monitoring: uptime, restart attempt tracking and the auto-restart
//! decision.
//!
//! The time of day is read by the caller and handed in as `now`; process
//! metrics (CPU and memory) are measured by the caller too.
use vstd::prelude::*;
use crate::clock::{Timestamp, MAX_TIMESTAMP_SECS, MIN_TIMESTAMP_SECS};
use crate::name_map::NameMap;

verus! {

/// Length of the restart-attempt window, in seconds (5 minutes).
pub const RESTART_WINDOW_SECS: u64 = 300;

/// Time after which restart attempts are reset (5 minutes of stable running).
pub const STABLE_DURATION_SECS: u64 = 300;

/// The longest span, in seconds, that time can be stepped back by here; the
/// calendar of the time arithmetic does not reach further back.
pub const MAX_LOOKBACK_SECS: u64 = 8_000_000_000_000;

/// Restart attempt tracking for a profile.
#[derive(Clone, Copy, Debug)]
pub struct RestartAttempt {
    /// When the restart was attempted.
    pub timestamp: Timestamp,
    /// Whether the restart was successful.
    pub success: bool,
}

/// `now` stepped back by `secs` seconds.
pub open spec fn step_back(now: Timestamp, secs: u64) -> Timestamp {
    Timestamp { secs: (now.secs - secs) as i64, nanos: now.nanos }
}

/// The attempts made strictly after `cutoff`, in order.
pub open spec fn attempts_after(attempts: Seq<RestartAttempt>, cutoff: Timestamp) -> Seq<RestartAttempt> {
    attempts.filter(|a: RestartAttempt| a.timestamp.total_nanos() > cutoff.total_nanos())
}

/// Seconds of uptime from `started_at` to `now`: the whole seconds elapsed,
/// and 0 when `now` is not after `started_at`.
pub open spec fn uptime_secs(started_at: Timestamp, now: Timestamp) -> int {
    let d = now.total_nanos() - started_at.total_nanos();
    if d <= 0 {
        0
    } else {
        d / 1_000_000_000
    }
}

/// Calculates uptime in seconds from a started_at timestamp (see
/// [`uptime_secs`]).
pub fn calculate_uptime_seconds(started_at: &Timestamp, now: &Timestamp) -> (s: u64)
    requires
        started_at.wf(),
        now.wf(),
    ensures
        s == uptime_secs(*started_at, *now),
{
    let a: i128 = started_at.secs as i128 * 1_000_000_000 + started_at.nanos as i128;
    let b: i128 = now.secs as i128 * 1_000_000_000 + now.nanos as i128;
    let d: i128 = b - a;
    if d <= 0 {
        0
    } else {
        let q: i128 = d / 1_000_000_000;
        assert(q <= u64::MAX) by (nonlinear_arith)
            requires
                q == d / 1_000_000_000,
                0 < d <= 2 * 300_000_000_000i128 * 1_000_000_000 + 1_000_000_000,
        ;
        q as u64
    }
}

/// Tracks restart attempts for auto-restart functionality.
pub struct RestartTracker {
    /// Per profile name, the restart attempts made, oldest first.
    attempts: NameMap<Vec<RestartAttempt>>,
}

impl RestartTracker {
    /// The recorded attempts of each profile, oldest first.
    pub closed spec fn attempts_of(&self) -> Map<Seq<char>, Seq<RestartAttempt>> {
        self.attempts.view_map().map_values(|v: Vec<RestartAttempt>| v@)
    }

    /// The recorded attempts of a profile (none when none were recorded).
    pub open spec fn attempts_for(&self, name: Seq<char>) -> Seq<RestartAttempt> {
        if self.attempts_of().contains_key(name) {
            self.attempts_of()[name]
        } else {
            seq![]
        }
    }

    /// The number of attempts of a profile within the restart window before
    /// `now`.
    pub open spec fn recent_count(&self, name: Seq<char>, now: Timestamp) -> nat {
        attempts_after(self.attempts_for(name), step_back(now, RESTART_WINDOW_SECS)).len()
    }

    /// The underlying map is well formed.
    pub closed spec fn wf(&self) -> bool {
        self.attempts.wf()
    }

    /// A tracker with no attempts.
    pub fn new() -> (t: Self)
        ensures
            t.wf(),
            t.attempts_of() == Map::<Seq<char>, Seq<RestartAttempt>>::empty(),
    {
        let t = RestartTracker { attempts: NameMap::new() };
        assert(t.attempts_of() =~= Map::<Seq<char>, Seq<RestartAttempt>>::empty());
        t
    }

    /// Records a restart attempt for a profile, made at `now`.
    pub fn record_attempt(&mut self, profile_name: &str, success: bool, now: Timestamp)
        requires
            old(self).wf(),
        ensures
            final(self).wf(),
            final(self).attempts_of() == old(self).attempts_of().insert(
                profile_name@,
                old(self).attempts_for(profile_name@).push(RestartAttempt { timestamp: now, success }),
            ),
    {
        let ghost before = self.attempts_for(profile_name@);
        let mut list = match self.attempts.remove(profile_name) {
            Some(v) => v,
            None => Vec::new(),
        };
        assert(list@ == before);
        list.push(RestartAttempt { timestamp: now, success });
        self.attempts.insert(String::from_str(profile_name), list);
        assert(self.attempts_of() =~= old(self).attempts_of().insert(
            profile_name@,
            before.push(RestartAttempt { timestamp: now, success }),
        ));
    }

    /// Gets the number of restart attempts for a profile in the last 5
    /// minutes before `now`, cut to 32 bits.
    pub fn get_attempt_count(&self, profile_name: &str, now: Timestamp) -> (n: u32)
        requires
            self.wf(),
            now.wf(),
        ensures
            n as int == self.recent_count(profile_name@, now) % 0x1_0000_0000,
    {
        let cutoff = Timestamp { secs: now.secs - 300, nanos: now.nanos };
        match self.attempts.get(profile_name) {
            None => {
                assert(attempts_after(seq![], cutoff).len() == 0) by {
                    reveal(Seq::filter);
                }
                0
            },
            Some(list) => {
                let c = count_after(list, &cutoff);
                let c64: u64 = c as u64;
                let n: u32 = #[verifier::truncate] (c64 as u32);
                assert(n == c64 % 0x1_0000_0000) by (bit_vector)
                    requires
                        n == c64 as u32,
                ;
                n
            },
        }
    }

    /// Whether a restart is allowed: fewer attempts in the last 5 minutes
    /// than `max_attempts`.
    pub fn should_allow_restart(&self, profile_name: &str, max_attempts: u32, now: Timestamp) -> (r: bool)
        requires
            self.wf(),
            now.wf(),
        ensures
            r == (self.recent_count(profile_name@, now) % 0x1_0000_0000 < max_attempts),
    {
        self.get_attempt_count(profile_name, now) < max_attempts
    }

    /// Drops the attempts older than 5 minutes before `now`, and the profiles
    /// left without attempts.
    pub fn cleanup_old_attempts(&mut self, now: Timestamp)
        requires
            old(self).wf(),
            now.wf(),
        ensures
            final(self).wf(),
            forall|k: Seq<char>|
                #[trigger] final(self).attempts_of().contains_key(k) <==> old(self).attempts_of().contains_key(k)
                    && attempts_after(old(self).attempts_of()[k], step_back(now, RESTART_WINDOW_SECS)).len() > 0,
            forall|k: Seq<char>|
                #[trigger] final(self).attempts_of().contains_key(k) ==> final(self).attempts_of()[k]
                    == attempts_after(old(self).attempts_of()[k], step_back(now, RESTART_WINDOW_SECS)),
    {
        let cutoff = Timestamp { secs: now.secs - 300, nanos: now.nanos };
        let names = self.attempts.keys();
        let ghost orig = self.attempts_of();
        proof {
            self.attempts.lemma_names();
            assert forall|j: int| 0 <= j < names@.len() implies #[trigger] names@[j]@ == self.attempts.names()[j] by {
                assert(names@.map_values(|s: String| s@)[j] == names@[j]@);
            }
            assert forall|k: Seq<char>| orig.contains_key(k) <==> exists|j: int| 0 <= j < names@.len() && #[trigger] names@[j]@ == k by {
                if orig.contains_key(k) {
                    assert(self.attempts.names().contains(k));
                    let j = choose|j: int| 0 <= j < self.attempts.names().len() && self.attempts.names()[j] == k;
                    assert(names@[j]@ == k);
                }
                if exists|j: int| 0 <= j < names@.len() && #[trigger] names@[j]@ == k {
                    let j = choose|j: int| 0 <= j < names@.len() && #[trigger] names@[j]@ == k;
                    assert(self.attempts.names()[j] == k);
                    assert(self.attempts.names().contains(k));
                }
            }
            assert forall|j: int| 0 <= j < names@.len() implies self.attempts_of().contains_key(#[trigger] names@[j]@) by {
                assert(self.attempts.names()[j] == names@[j]@);
                assert(self.attempts.names().contains(names@[j]@));
            }
        }
        let mut i: usize = 0;
        while i < names.len()
            invariant
                self.wf(),
                i <= names@.len(),
                cutoff == step_back(now, RESTART_WINDOW_SECS),
                forall|j: int, l: int| 0 <= j < l < names@.len() ==> names@[j]@ != names@[l]@,
                forall|k: Seq<char>| orig.contains_key(k) <==> exists|j: int| 0 <= j < names@.len() && #[trigger] names@[j]@ == k,
                forall|k: Seq<char>|
                    #[trigger] self.attempts_of().contains_key(k) ==> orig.contains_key(k),
                forall|j: int| 0 <= j < i ==> {
                    let k = #[trigger] names@[j]@;
                    &&& self.attempts_of().contains_key(k) <==> attempts_after(orig[k], cutoff).len() > 0
                    &&& self.attempts_of().contains_key(k) ==> self.attempts_of()[k] == attempts_after(orig[k], cutoff)
                },
                forall|j: int| i <= j < names@.len() ==> {
                    let k = #[trigger] names@[j]@;
                    &&& self.attempts_of().contains_key(k)
                    &&& self.attempts_of()[k] == orig[k]
                },
            decreases names.len() - i,
        {
            let name = &names[i];
            let ghost key = name@;
            let ghost prev = self.attempts_of();
            assert(names@[i as int]@ == key);
            let list = match self.attempts.remove(name.as_str()) {
                Some(v) => v,
                None => {
                    assert(false);
                    Vec::new()
                },
            };
            let kept = keep_after(&list, &cutoff);
            let ghost kept_view = kept@;
            if kept.len() > 0 {
                self.attempts.insert(name.clone(), kept);
                assert(self.attempts_of() =~= prev.remove(key).insert(key, kept_view));
            } else {
                assert(self.attempts_of() =~= prev.remove(key));
            }
            proof {
                assert(orig.contains_key(key));
                assert forall|j: int| 0 <= j < names@.len() && j != i implies names@[j]@ != key by {
                    if j < i {
                    } else {
                    }
                }
            }
            i = i + 1;
        }
        proof {
            assert forall|k: Seq<char>| #[trigger] self.attempts_of().contains_key(k) <==> orig.contains_key(k)
                && attempts_after(orig[k], cutoff).len() > 0 by {
                if orig.contains_key(k) {
                    let j = choose|j: int| 0 <= j < names@.len() && #[trigger] names@[j]@ == k;
                    assert(names@[j]@ == k);
                }
            }
            assert forall|k: Seq<char>| #[trigger] self.attempts_of().contains_key(k) implies self.attempts_of()[k]
                == attempts_after(orig[k], cutoff) by {
                let j = choose|j: int| 0 <= j < names@.len() && #[trigger] names@[j]@ == k;
                assert(names@[j]@ == k);
            }
        }
    }

    /// Resets restart attempts for a profile after a stable running period:
    /// keeps only its attempts made within `stable_duration_secs` before
    /// `now`. A profile without attempts is left as it is.
    pub fn reset_if_stable(&mut self, profile_name: &str, stable_duration_secs: u64, now: Timestamp)
        requires
            old(self).wf(),
            now.wf(),
            stable_duration_secs <= MAX_LOOKBACK_SECS,
        ensures
            final(self).wf(),
            old(self).attempts_of().contains_key(profile_name@) ==> final(self).attempts_of()
                == old(self).attempts_of().insert(
                profile_name@,
                attempts_after(
                    old(self).attempts_of()[profile_name@],
                    step_back(now, stable_duration_secs),
                ),
            ),
            !old(self).attempts_of().contains_key(profile_name@) ==> final(self).attempts_of()
                == old(self).attempts_of(),
    {
        let cutoff = Timestamp { secs: now.secs - stable_duration_secs as i64, nanos: now.nanos };
        match self.attempts.remove(profile_name) {
            Some(list) => {
                let kept = keep_after(&list, &cutoff);
                self.attempts.insert(String::from_str(profile_name), kept);
                assert(self.attempts_of() =~= old(self).attempts_of().insert(
                    profile_name@,
                    attempts_after(old(self).attempts_of()[profile_name@], cutoff),
                ));
            },
            None => {
                assert(self.attempts_of() =~= old(self).attempts_of());
            },
        }
    }
}

/// Counts the attempts made strictly after `cutoff`.
fn count_after(list: &Vec<RestartAttempt>, cutoff: &Timestamp) -> (n: usize)
    ensures
        n == attempts_after(list@, *cutoff).len(),
{
    let kept = keep_after(list, cutoff);
    kept.len()
}

/// The attempts made strictly after `cutoff`, in order.
fn keep_after(list: &Vec<RestartAttempt>, cutoff: &Timestamp) -> (r: Vec<RestartAttempt>)
    ensures
        r@ == attempts_after(list@, *cutoff),
{
    let mut r: Vec<RestartAttempt> = Vec::new();
    let mut i: usize = 0;
    while i < list.len()
        invariant
            i <= list@.len(),
            r@ == attempts_after(list@.take(i as int), *cutoff),
        decreases list.len() - i,
    {
        let a = list[i];
        proof {
            reveal(Seq::filter);
            assert(list@.take(i + 1).drop_last() =~= list@.take(i as int));
            assert(list@.take(i + 1).last() == a);
        }
        if after(&a.timestamp, cutoff) {
            r.push(a);
        }
        i = i + 1;
    }
    assert(list@.take(i as int) =~= list@);
    r
}

/// Whether `t` lies strictly after `cutoff`.
fn after(t: &Timestamp, cutoff: &Timestamp) -> (r: bool)
    ensures
        r == (t.total_nanos() > cutoff.total_nanos()),
{
    let a: i128 = t.secs as i128 * 1_000_000_000 + t.nanos as i128;
    let b: i128 = cutoff.secs as i128 * 1_000_000_000 + cutoff.nanos as i128;
    a > b
}

/// What to do about a crashed server.
#[derive(Clone, Copy, Debug, PartialEq, Eq, Structural)]
pub enum RestartDecision {
    /// Auto-restart is off for the profile.
    Disabled,
    /// The profile used up its restart attempts for the last 5 minutes.
    Exhausted,
    /// Restart it after the configured delay.
    Restart,
}

/// Decides whether a crashed server is restarted: not when auto-restart is
/// off; not when the profile made `max_restart_attempts` attempts or more in
/// the last 5 minutes before `now`; else it is.
pub fn decide_auto_restart(
    tracker: &RestartTracker,
    profile_name: &str,
    auto_restart_on_crash: bool,
    max_restart_attempts: u32,
    now: Timestamp,
) -> (d: RestartDecision)
    requires
        tracker.wf(),
        now.wf(),
    ensures
        !auto_restart_on_crash ==> d == RestartDecision::Disabled,
        auto_restart_on_crash ==> (d == RestartDecision::Restart <==> tracker.recent_count(profile_name@, now)
            % 0x1_0000_0000 < max_restart_attempts),
        auto_restart_on_crash ==> d != RestartDecision::Disabled,
{
    if !auto_restart_on_crash {
        return RestartDecision::Disabled;
    }
    if !tracker.should_allow_restart(profile_name, max_restart_attempts, now) {
        return RestartDecision::Exhausted;
    }
    RestartDecision::Restart
}

/// Whether a server has run long enough for its restart attempts to be
/// reset: more than [`STABLE_DURATION_SECS`] of uptime.
pub fn stable_for_reset(uptime_seconds: u64) -> (r: bool)
    ensures
        r == (uptime_seconds > STABLE_DURATION_SECS),
{
    uptime_seconds > STABLE_DURATION_SECS
}

/// The whole-number figures of a server's health.
#[derive(Clone, Copy, Debug)]
pub struct HealthFigures {
    /// Memory usage in megabytes.
    pub memory_mb: u64,
    /// Current number of players.
    pub player_count: u32,
    /// Maximum number of players, from the profile.
    pub max_players: u32,
    /// Server uptime in seconds.
    pub uptime_seconds: u64,
}

/// The maximum number of players reported when the profile cannot be read.
pub const DEFAULT_MAX_PLAYERS: u32 = 70;

/// The whole-number health figures of a server: memory in whole megabytes,
/// the number of players of its last player list (0 without one, cut to 32
/// bits), the maximum players of its profile (the default when the profile
/// could not be read), and its uptime when its process was found (else 0).
pub fn health_figures(
    memory_bytes: u64,
    players: Option<usize>,
    profile_max_players: Option<u32>,
    process_found: bool,
    started_at: Timestamp,
    now: Timestamp,
) -> (h: HealthFigures)
    requires
        started_at.wf(),
        now.wf(),
    ensures
        h.memory_mb == memory_bytes / 1_048_576u64,
        h.player_count as int == match players {
            Some(n) => (n as int) % 0x1_0000_0000,
            None => 0,
        },
        h.max_players == match profile_max_players {
            Some(m) => m,
            None => DEFAULT_MAX_PLAYERS,
        },
        h.uptime_seconds == (if process_found { uptime_secs(started_at, now) } else { 0 }),
{
    let player_count: u32 = match players {
        Some(n) => {
            let n64: u64 = n as u64;
            let c: u32 = #[verifier::truncate] (n64 as u32);
            assert(c == n64 % 0x1_0000_0000) by (bit_vector)
                requires
                    c == n64 as u32,
            ;
            c
        },
        None => 0,
    };
    let uptime_seconds = if process_found {
        calculate_uptime_seconds(&started_at, &now)
    } else {
        0
    };
    HealthFigures {
        memory_mb: memory_bytes / (1024 * 1024),
        player_count,
        max_players: match profile_max_players {
            Some(m) => m,
            None => DEFAULT_MAX_PLAYERS,
        },
        uptime_seconds,
    }
}

/// An attempt made at `now` is counted at `now`: recording it raises the
/// number of attempts within the restart window before `now` by exactly one.
pub proof fn law_recorded_attempt_counts(attempts: Seq<RestartAttempt>, now: Timestamp, success: bool)
    requires
        now.wf(),
    ensures
        attempts_after(
            attempts.push(RestartAttempt { timestamp: now, success }),
            step_back(now, RESTART_WINDOW_SECS),
        ).len() == attempts_after(attempts, step_back(now, RESTART_WINDOW_SECS)).len() + 1,
{
    reveal(Seq::filter);
    let pushed = attempts.push(RestartAttempt { timestamp: now, success });
    assert(pushed.drop_last() =~= attempts);
    assert(now.total_nanos() > step_back(now, RESTART_WINDOW_SECS).total_nanos());
}

/// Cleaning up at `now` changes no count at `now`: keeping the attempts
/// after a cutoff twice keeps the same ones as keeping them once, and a
/// profile dropped for having none left counts none.
pub proof fn law_cleanup_keeps_counts(attempts: Seq<RestartAttempt>, cutoff: Timestamp)
    ensures
        attempts_after(attempts_after(attempts, cutoff), cutoff) == attempts_after(attempts, cutoff),
        attempts_after(Seq::<RestartAttempt>::empty(), cutoff).len() == 0,
    decreases attempts.len(),
{
    reveal(Seq::filter);
    if attempts.len() > 0 {
        law_cleanup_keeps_counts(attempts.drop_last(), cutoff);
        let inner = attempts_after(attempts.drop_last(), cutoff);
        if attempts.last().timestamp.total_nanos() > cutoff.total_nanos() {
            assert(inner.push(attempts.last()).drop_last() =~= inner);
        }
    }
}

} // verus!
