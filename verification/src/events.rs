//! Triggers, handlers and the laws of the dispatch pass.
//!
//! An event couples a boolean trigger over world state with a handler and a
//! continuation flag. Handlers are plain data: a tagged union of every unit
//! of world-mutating logic the game registers, interpreted by
//! `World::run_handler`. The `retain_mask` function at the bottom is the
//! functional core of the dispatch pass: which events survive a pass, given
//! which of them fired.

use vstd::prelude::*;
use crate::timer::TimerKey;

verus! {

/// One step of a popup series: what to show and for how long.
pub struct Popup {
    pub message: String,
    /// How long the popup stays, in milliseconds.
    pub duration: u64,
}

impl Popup {
    /// Builds a popup step.
    pub fn new(message: String, duration: u64) -> (r: Self)
        ensures
            r.message == message,
            r.duration == duration,
    {
        Popup { message, duration }
    }
}

/// The boolean predicates over world state that decide whether an event's
/// handler runs this tick. Evaluating `TimerElapsed` and `Signal` is
/// deliberately destructive: it consumes the elapsed or signaled state, and
/// that is how one-shot timer and signal events disarm themselves.
pub enum WorldEventTrigger {
    /// True every tick.
    Always,
    /// True only before the first tick has completed.
    GameStarted,
    /// True once the player has traveled at least this far; not
    /// self-resetting, so it stays true from then on.
    Traveled(u16),
    /// True when the keyed timer has elapsed; checking consumes a one-shot
    /// timer and restarts a repeating one.
    TimerElapsed(TimerKey),
    /// True while a drawing with the key is registered.
    DrawingExists(u64),
    /// True when the keyed signal has been sent; checking clears it.
    Signal(u64),
}

impl WorldEventTrigger {
    /// The trigger that fires when the keyed timer elapses.
    pub fn timer_elapsed(timer_key: TimerKey) -> (r: Self)
        ensures
            r == WorldEventTrigger::TimerElapsed(timer_key),
    {
        WorldEventTrigger::TimerElapsed(timer_key)
    }
}

/// Every unit of world-mutating logic an event can run, as data.
pub enum WorldHandler {
    /// Does nothing.
    LeaveAlone,
    /// Kills the player when it leaves the river or runs out of fuel.
    UpdatePlayerStatus,
    /// Purges dead entities and resolves player and bullet collisions.
    UpdateEntitiesStatus,
    /// Advances the river map one line.
    UpdateMap,
    /// Probabilistically spawns a fuel and an enemy at the top line.
    CreateRandomEntities,
    /// Moves every entity one line down and culls those past the bottom.
    MoveEntities,
    /// Moves every bullet two lines up and culls spent ones.
    MoveBullets,
    /// Burns one unit of fuel.
    BurnFuel,
    /// Counts one line of distance traveled.
    Travel,
    /// Awards a fixed score.
    AddScore(u16),
    /// Advances the elapsed-seconds counter.
    IncrementElapsedTime,
    /// Sends the keyed signal.
    SendSignal(u64),
    /// Clears the keyed drawing, then runs the follow-up handler; the
    /// dismissal step of a temporary popup.
    ClearDrawingThen { key: u64, then: Box<WorldHandler> },
    /// Shows the next popup of a series, or sends the series' end signal
    /// when none is left.
    AdvancePopupSeries { popups: Vec<Popup>, signal: u64 },
    /// Begins a scripted stage: narrows the river, announces it, and sets a
    /// timer for the stage's end.
    StageStart { timer_key: TimerKey },
    /// Ends a scripted stage: restarts the stage timer, raises the enemy
    /// spawn probability and restores the river mode.
    StageEnd { timer_key: TimerKey },
    /// Runs the opening script: freezes spawning, fixes the river and shows
    /// the welcome popup series.
    WarmupStart,
    /// Closes the opening script: restores spawning and the river mode and
    /// starts the periodic score bonus.
    WarmupRestore,
}

/// A registered event: run the handler whenever the trigger holds, and keep
/// the registration afterward only if `is_continues` is set.
pub struct WorldEvent {
    pub trigger: WorldEventTrigger,
    pub is_continues: bool,
    pub handler: WorldHandler,
}

impl WorldEvent {
    /// Builds an event registration.
    pub fn new(trigger: WorldEventTrigger, is_continues: bool, handler: WorldHandler) -> (r: Self)
        ensures
            r.trigger == trigger,
            r.is_continues == is_continues,
            r.handler == handler,
    {
        WorldEvent { trigger, is_continues, handler }
    }
}

/// Whether an event survives a pass in which it fired or not: an event is
/// dropped exactly when it fired and does not continue.
pub open spec fn event_kept(e: WorldEvent, fired: bool) -> bool {
    !fired || e.is_continues
}

/// The active list after one dispatch pass: the events of `events`, in
/// order, minus those that fired and do not continue.
pub open spec fn retain_mask(events: Seq<WorldEvent>, fired: Seq<bool>) -> Seq<WorldEvent>
    decreases events.len(),
{
    if events.len() == 0 {
        Seq::empty()
    } else if event_kept(events[0], fired[0]) {
        seq![events[0]] + retain_mask(events.drop_first(), fired.drop_first())
    } else {
        retain_mask(events.drop_first(), fired.drop_first())
    }
}

/// `retain_mask` grown by one processed event at the end.
pub proof fn lemma_retain_mask_snoc(events: Seq<WorldEvent>, fired: Seq<bool>, e: WorldEvent, f: bool)
    requires
        events.len() == fired.len(),
    ensures
        retain_mask(events.push(e), fired.push(f)) == if event_kept(e, f) {
            retain_mask(events, fired).push(e)
        } else {
            retain_mask(events, fired)
        },
    decreases events.len(),
{
    let es = events.push(e);
    let fs = fired.push(f);
    if events.len() == 0 {
        assert(es[0] == e);
        assert(fs[0] == f);
        assert(es.drop_first() =~= Seq::<WorldEvent>::empty());
        assert(fs.drop_first() =~= Seq::<bool>::empty());
        assert(retain_mask(Seq::<WorldEvent>::empty(), Seq::<bool>::empty())
            == Seq::<WorldEvent>::empty());
        if event_kept(e, f) {
            assert(retain_mask(es, fs) =~= retain_mask(events, fired).push(e));
        } else {
            assert(retain_mask(es, fs) =~= retain_mask(events, fired));
        }
    } else {
        assert(es[0] == events[0]);
        assert(fs[0] == fired[0]);
        assert(es.drop_first() =~= events.drop_first().push(e));
        assert(fs.drop_first() =~= fired.drop_first().push(f));
        lemma_retain_mask_snoc(events.drop_first(), fired.drop_first(), e, f);
        if event_kept(e, f) {
            assert(retain_mask(es, fs) =~= retain_mask(events, fired).push(e));
        } else {
            assert(retain_mask(es, fs) =~= retain_mask(events, fired));
        }
    }
}

/// Event continuation law, persistence half: an event whose trigger did not
/// fire survives the pass. In particular a `continues` event stays in the
/// active set across every tick where its trigger is false.
pub proof fn lemma_unfired_event_kept(events: Seq<WorldEvent>, fired: Seq<bool>, i: int)
    requires
        events.len() == fired.len(),
        0 <= i < events.len(),
        event_kept(events[i], fired[i]),
    ensures
        retain_mask(events, fired).contains(events[i]),
    decreases events.len(),
{
    if i == 0 {
        assert(retain_mask(events, fired)[0] == events[0]);
    } else {
        lemma_unfired_event_kept(events.drop_first(), fired.drop_first(), i - 1);
        let sub = retain_mask(events.drop_first(), fired.drop_first());
        let j = choose|j: int| 0 <= j < sub.len() && sub[j] == events[i];
        if event_kept(events[0], fired[0]) {
            assert(retain_mask(events, fired)[j + 1] == events[i]);
        }
    }
}

/// Event continuation law, one-shot half: if every occurrence of an event
/// in the list fired and the event does not continue, it is gone from the
/// active set after the pass — a non-continuing event fires at most once.
pub proof fn lemma_fired_one_shot_dropped(events: Seq<WorldEvent>, fired: Seq<bool>, e: WorldEvent)
    requires
        events.len() == fired.len(),
        !e.is_continues,
        forall|i: int| 0 <= i < events.len() && events[i] == e ==> fired[i],
    ensures
        !retain_mask(events, fired).contains(e),
    decreases events.len(),
{
    if events.len() > 0 {
        assert forall|i: int|
            0 <= i < events.drop_first().len() && events.drop_first()[i] == e implies fired.drop_first()[i] by {
            assert(events.drop_first()[i] == events[i + 1]);
        }
        lemma_fired_one_shot_dropped(events.drop_first(), fired.drop_first(), e);
        if event_kept(events[0], fired[0]) {
            let r = retain_mask(events, fired);
            let sub = retain_mask(events.drop_first(), fired.drop_first());
            assert(events[0] != e);
            assert forall|j: int| 0 <= j < r.len() implies r[j] != e by {
                if j > 0 {
                    assert(r[j] == sub[j - 1]);
                    if sub[j - 1] == e {
                        assert(sub.contains(e));
                    }
                }
            }
        }
    }
}

/// Deferred-add law, containment half: the pass only ever keeps events that
/// were in the active list when it began; nothing enters the active set
/// during a pass.
pub proof fn lemma_retain_mask_subset(events: Seq<WorldEvent>, fired: Seq<bool>, e: WorldEvent)
    requires
        retain_mask(events, fired).contains(e),
    ensures
        events.contains(e),
    decreases events.len(),
{
    if events.len() > 0 {
        let r = retain_mask(events, fired);
        let sub = retain_mask(events.drop_first(), fired.drop_first());
        let j = choose|j: int| 0 <= j < r.len() && r[j] == e;
        if event_kept(events[0], fired[0]) {
            if j == 0 {
                assert(events[0] == e);
            } else {
                assert(sub[j - 1] == e);
                assert(sub.contains(e));
                lemma_retain_mask_subset(events.drop_first(), fired.drop_first(), e);
                let k = choose|k: int|
                    0 <= k < events.drop_first().len() && events.drop_first()[k] == e;
                assert(events[k + 1] == e);
            }
        } else {
            assert(sub.contains(e));
            lemma_retain_mask_subset(events.drop_first(), fired.drop_first(), e);
            let k = choose|k: int|
                0 <= k < events.drop_first().len() && events.drop_first()[k] == e;
            assert(events[k + 1] == e);
        }
    }
}

} // verus!
