//! Keyed countdown timers and the functional semantics of checking them.
//!
//! A timer is elapsed once strictly more than its duration has passed since
//! it was started. Checking is deliberately destructive: a repeating timer
//! that has elapsed restarts from the moment of the check, a one-shot timer
//! that has elapsed is removed from the registry by the check itself. The
//! spec functions here pin that behaviour down over a sequence of timers;
//! the world's registry operations are specified against them.

use vstd::prelude::*;

verus! {

/// Identifies one timer in the registry.
#[derive(Clone, Copy, PartialEq, Eq, Structural, Debug)]
pub struct TimerKey {
    pub id: u64,
}

impl TimerKey {
    /// Builds a key from its number.
    pub fn new(id: u64) -> (r: Self)
        ensures
            r.id == id,
    {
        TimerKey { id }
    }
}

/// The unchanging part of a timer: its key, duration and repetition flag.
#[derive(Clone, Copy, PartialEq, Eq, Structural, Debug)]
pub struct TimerData {
    pub key: TimerKey,
    /// How long the timer runs, in milliseconds.
    pub duration: u64,
    /// Whether the timer restarts after elapsing instead of being consumed.
    pub repeat: bool,
}

impl TimerData {
    /// Builds the descriptor.
    pub fn new(key: TimerKey, duration: u64, repeat: bool) -> (r: Self)
        ensures
            r == (TimerData { key, duration, repeat }),
    {
        TimerData { key, duration, repeat }
    }

    /// The timer's key.
    pub fn key(&self) -> (r: TimerKey)
        ensures
            r == self.key,
    {
        self.key
    }

    /// The timer's duration in milliseconds.
    pub fn duration(&self) -> (r: u64)
        ensures
            r == self.duration,
    {
        self.duration
    }

    /// Whether the timer repeats.
    pub fn is_repeat(&self) -> (r: bool)
        ensures
            r == self.repeat,
    {
        self.repeat
    }
}

/// A running timer: its descriptor and the moment it was started.
#[derive(Clone, Copy, PartialEq, Eq, Structural, Debug)]
pub struct Timer {
    pub data: TimerData,
    /// The moment the current run began, in milliseconds.
    pub started_at: u64,
}

impl Timer {
    /// Starts a timer at the given moment.
    pub fn new(key: TimerKey, duration: u64, repeat: bool, now: u64) -> (r: Self)
        ensures
            r.data == (TimerData { key, duration, repeat }),
            r.started_at == now,
    {
        Timer { data: TimerData::new(key, duration, repeat), started_at: now }
    }

    /// Whether strictly more than the duration has passed since the start.
    pub open spec fn elapsed_spec(self, now: u64) -> bool {
        now > self.started_at && now - self.started_at > self.data.duration
    }

    /// Checks whether the timer has elapsed at the given moment.
    pub fn elapsed(&self, now: u64) -> (r: bool)
        ensures
            r == self.elapsed_spec(now),
    {
        now > self.started_at && now - self.started_at > self.data.duration
    }

    /// Restarts the timer at the given moment.
    pub fn reset(&mut self, now: u64)
        ensures
            final(self).data == old(self).data,
            final(self).started_at == now,
    {
        self.started_at = now;
    }
}

/// The position of the first timer with the given key, or `-1` if none.
pub open spec fn timer_index(timers: Seq<Timer>, key: TimerKey) -> int
    decreases timers.len(),
{
    if timers.len() == 0 {
        -1
    } else if timers[0].data.key == key {
        0
    } else {
        let rest = timer_index(timers.drop_first(), key);
        if rest < 0 {
            -1
        } else {
            rest + 1
        }
    }
}

/// What a destructive elapse check on the registry answers: `None` for an
/// unknown key, otherwise whether the timer has elapsed.
pub open spec fn check_result(timers: Seq<Timer>, key: TimerKey, now: u64) -> Option<bool> {
    let i = timer_index(timers, key);
    if i < 0 {
        None
    } else {
        Some(timers[i].elapsed_spec(now))
    }
}

/// What the registry holds after a destructive elapse check: unchanged if
/// the key is unknown or the timer has not elapsed; the timer restarted at
/// `now` if it repeats; the timer removed if it does not.
pub open spec fn timers_after_check(timers: Seq<Timer>, key: TimerKey, now: u64) -> Seq<Timer> {
    let i = timer_index(timers, key);
    if i < 0 {
        timers
    } else if !timers[i].elapsed_spec(now) {
        timers
    } else if timers[i].data.repeat {
        timers.update(i, Timer { data: timers[i].data, started_at: now })
    } else {
        timers.remove(i)
    }
}

/// No two timers in the registry share a key.
pub open spec fn unique_timer_keys(timers: Seq<Timer>) -> bool {
    forall|i: int, j: int|
        0 <= i < timers.len() && 0 <= j < timers.len() && i != j ==> timers[i].data.key
            != timers[j].data.key
}

/// `timer_index` finds the first timer with the key, and fails exactly when
/// no timer has it.
pub proof fn lemma_timer_index(timers: Seq<Timer>, key: TimerKey)
    ensures
        -1 <= timer_index(timers, key) < timers.len(),
        timer_index(timers, key) >= 0 ==> timers[timer_index(timers, key)].data.key == key,
        timer_index(timers, key) < 0 <==> (forall|j: int|
            0 <= j < timers.len() ==> timers[j].data.key != key),
    decreases timers.len(),
{
    if timers.len() > 0 && timers[0].data.key != key {
        lemma_timer_index(timers.drop_first(), key);
        assert forall|j: int|
            0 <= j < timers.len() && timer_index(timers, key) < 0 implies timers[j].data.key
            != key by {
            if j > 0 {
                assert(timers.drop_first()[j - 1] == timers[j]);
            }
        }
    }
}

/// Timer elapse idempotence, one-shot half: the first destructive check of
/// a one-shot timer after it has elapsed answers `Some(true)` and purges the
/// key, so any later check of the same key answers `None`.
pub proof fn lemma_one_shot_check_consumes(
    timers: Seq<Timer>,
    key: TimerKey,
    now1: u64,
    now2: u64,
)
    requires
        unique_timer_keys(timers),
        timer_index(timers, key) >= 0,
        !timers[timer_index(timers, key)].data.repeat,
        timers[timer_index(timers, key)].elapsed_spec(now1),
    ensures
        check_result(timers, key, now1) == Some(true),
        check_result(timers_after_check(timers, key, now1), key, now2) is None,
{
    let i = timer_index(timers, key);
    lemma_timer_index(timers, key);
    let rest = timers.remove(i);
    assert(timers_after_check(timers, key, now1) == rest);
    assert forall|j: int| 0 <= j < rest.len() implies rest[j].data.key != key by {
        if j < i {
            assert(rest[j] == timers[j]);
        } else {
            assert(rest[j] == timers[j + 1]);
        }
    }
    lemma_timer_index(rest, key);
}

/// Timer elapse idempotence, repeating half: a destructive check of a
/// repeating timer that has elapsed answers `Some(true)` and restarts it at
/// the moment of the check, so two further checks made no more than the
/// duration later both answer `Some(false)`.
pub proof fn lemma_repeat_check_restarts(
    timers: Seq<Timer>,
    key: TimerKey,
    now1: u64,
    now2: u64,
    now3: u64,
)
    requires
        unique_timer_keys(timers),
        timer_index(timers, key) >= 0,
        timers[timer_index(timers, key)].data.repeat,
        timers[timer_index(timers, key)].elapsed_spec(now1),
        now2 <= now1 + timers[timer_index(timers, key)].data.duration,
        now3 <= now1 + timers[timer_index(timers, key)].data.duration,
    ensures
        check_result(timers, key, now1) == Some(true),
        ({
            let after = timers_after_check(timers, key, now1);
            &&& check_result(after, key, now2) == Some(false)
            &&& timers_after_check(after, key, now2) == after
            &&& check_result(after, key, now3) == Some(false)
        }),
{
    let i = timer_index(timers, key);
    lemma_timer_index(timers, key);
    let restarted = Timer { data: timers[i].data, started_at: now1 };
    let after = timers.update(i, restarted);
    assert(timers_after_check(timers, key, now1) == after);
    assert forall|j: int| 0 <= j < i implies after[j].data.key != key by {
        assert(after[j] == timers[j]);
    }
    lemma_timer_index_prefix_match(after, key, i);
    assert(timer_index(after, key) == i);
    assert(!after[i].elapsed_spec(now2));
    assert(!after[i].elapsed_spec(now3));
}

/// If position `i` holds the key and no earlier position does, the index is `i`.
pub proof fn lemma_timer_index_prefix_match(timers: Seq<Timer>, key: TimerKey, i: int)
    requires
        0 <= i < timers.len(),
        timers[i].data.key == key,
        forall|j: int| 0 <= j < i ==> timers[j].data.key != key,
    ensures
        timer_index(timers, key) == i,
    decreases i,
{
    if i > 0 {
        lemma_timer_index_prefix_match(timers.drop_first(), key, i - 1);
    }
}

} // verus!
