//! The hover trigger at the left screen edge: when the cursor rests in the
//! trigger zone long enough, the first panel opens.
//!
//! The application polls the trigger at a fixed period and hands each poll
//! to [`HoverTrigger::tick`] as a [`Tick`]: whether the trigger window still
//! exists, whether the cursor is in its zone, and the time of the poll on a
//! monotonic clock, in nanoseconds.
use vstd::prelude::*;

verus! {

/// How long the cursor must rest in the zone before the trigger fires:
/// two seconds, in nanoseconds.
pub const HOVER_DELAY_NS: u64 = 2_000_000_000;

/// Period at which the application polls the trigger, in milliseconds.
pub const POLL_PERIOD_MS: u64 = 100;

/// One poll of the trigger.
#[derive(Clone, Copy, PartialEq, Eq, Structural, Debug)]
pub struct Tick {
    pub trigger_alive: bool,
    pub cursor_in_zone: bool,
    pub now: u64,
}

/// Whether a hover that began at `start` has lasted long enough at `now`
/// (a clock reading earlier than `start` counts as no time at all).
pub open spec fn hovered_long_enough(start: u64, now: u64) -> bool {
    now >= start && now - start >= HOVER_DELAY_NS
}

/// One poll: the new hover start, and whether the trigger fires.
///
/// A poll while the trigger window is gone changes nothing. Otherwise a
/// cursor outside the zone cancels the hover; a cursor inside the zone
/// starts a hover if none is running, and fires (ending the hover) once the
/// running hover has lasted [`HOVER_DELAY_NS`].
pub open spec fn spec_tick(start: Option<u64>, t: Tick) -> (Option<u64>, bool) {
    if !t.trigger_alive {
        (start, false)
    } else if t.cursor_in_zone {
        match start {
            None => (Some(t.now), false),
            Some(s) => if hovered_long_enough(s, t.now) {
                (None, true)
            } else {
                (start, false)
            },
        }
    } else {
        (None, false)
    }
}

/// The hover start after a sequence of polls.
pub open spec fn run_ticks(start: Option<u64>, ticks: Seq<Tick>) -> Option<u64>
    decreases ticks.len(),
{
    if ticks.len() == 0 {
        start
    } else {
        spec_tick(run_ticks(start, ticks.drop_last()), ticks.last()).0
    }
}

/// Whether, starting from an idle trigger, the trigger fires at poll `k`.
pub open spec fn fires_at(ticks: Seq<Tick>, k: int) -> bool {
    spec_tick(run_ticks(None, ticks.take(k)), ticks[k]).1
}

/// Poll `i` began a hover that has lasted, uninterrupted, up to poll `n`
/// (exclusive): the cursor was in the zone at every poll in between at
/// which the trigger window existed.
pub open spec fn hover_began_at(ticks: Seq<Tick>, i: int, n: int) -> bool {
    &&& 0 <= i < n <= ticks.len()
    &&& ticks[i].trigger_alive
    &&& ticks[i].cursor_in_zone
    &&& forall|j: int| i < j < n ==> (#[trigger] ticks[j]).trigger_alive ==> ticks[j].cursor_in_zone
}

/// The state of the hover trigger.
pub struct HoverTrigger {
    hover_start: Option<u64>,
}

impl HoverTrigger {
    /// When the running hover began, if one is running.
    pub closed spec fn started_at(self) -> Option<u64> {
        self.hover_start
    }

    /// An idle trigger.
    pub fn new() -> (t: HoverTrigger)
        ensures
            t.started_at() is None,
    {
        HoverTrigger { hover_start: None }
    }

    /// Handles one poll; returns whether the trigger fires, in which case the
    /// first panel is to be opened.
    pub fn tick(&mut self, t: Tick) -> (fired: bool)
        ensures
            (final(self).started_at(), fired) == spec_tick(old(self).started_at(), t),
            fired ==> (t.trigger_alive && t.cursor_in_zone && old(self).started_at() is Some
                && t.now >= old(self).started_at()->Some_0 && t.now - old(self).started_at()->Some_0
                >= HOVER_DELAY_NS && final(self).started_at() is None),
            !t.trigger_alive ==> !fired && final(self).started_at() == old(self).started_at(),
    {
        if !t.trigger_alive {
            return false;
        }
        if t.cursor_in_zone {
            match self.hover_start {
                None => {
                    self.hover_start = Some(t.now);
                    false
                },
                Some(s) => {
                    if t.now >= s && t.now - s >= HOVER_DELAY_NS {
                        self.hover_start = None;
                        true
                    } else {
                        false
                    }
                },
            }
        } else {
            self.hover_start = None;
            false
        }
    }
}

/// What one poll does, in terms of the poll and the running hover: no
/// window, no change; cursor out, the hover is cancelled; cursor in with no
/// hover, one starts now; cursor in with a hover running, the trigger fires
/// and goes idle exactly when the hover has lasted two seconds.
pub proof fn lemma_tick_outcome(start: Option<u64>, t: Tick)
    ensures
        !t.trigger_alive ==> spec_tick(start, t) == (start, false),
        t.trigger_alive && !t.cursor_in_zone ==> spec_tick(start, t) == (None::<u64>, false),
        t.trigger_alive && t.cursor_in_zone && start is None ==> spec_tick(start, t) == (
            Some(t.now),
            false,
        ),
        t.trigger_alive && t.cursor_in_zone && start is Some ==> spec_tick(start, t) == (
            if t.now >= start->Some_0 && t.now - start->Some_0 >= 2_000_000_000 {
                (None::<u64>, true)
            } else {
                (start, false)
            }
        ),
{
}

proof fn lemma_running_hover(ticks: Seq<Tick>, n: int)
    requires
        0 <= n <= ticks.len(),
    ensures
        run_ticks(None, ticks.take(n)) matches Some(s) ==> exists|i: int|
            hover_began_at(ticks, i, n) && (#[trigger] ticks[i]).now == s,
    decreases n,
{
    if n > 0 {
        let prefix = ticks.take(n);
        assert(prefix.drop_last() =~= ticks.take(n - 1));
        assert(prefix.last() == ticks[n - 1]);
        lemma_running_hover(ticks, n - 1);
        let prev = run_ticks(None, ticks.take(n - 1));
        let t = ticks[n - 1];
        if let Some(s) = run_ticks(None, prefix) {
            if !t.trigger_alive || (t.cursor_in_zone && prev is Some) {
                let i = choose|i: int| hover_began_at(ticks, i, n - 1) && #[trigger] ticks[i].now == s;
                assert(hover_began_at(ticks, i, n));
            } else {
                assert(hover_began_at(ticks, n - 1, n));
            }
        }
    }
}

/// The trigger never fires unless the cursor has rested in the zone for at
/// least [`HOVER_DELAY_NS`]: whenever it fires at poll `k`, some earlier
/// poll `i`, at least that long before, began a hover that no poll up to
/// `k` interrupted.
pub proof fn lemma_fires_only_after_dwell(ticks: Seq<Tick>, k: int)
    requires
        0 <= k < ticks.len(),
        fires_at(ticks, k),
    ensures
        exists|i: int|
            #![trigger ticks[i]]
            hover_began_at(ticks, i, k + 1) && i < k && ticks[k].now >= ticks[i].now && ticks[k].now
                - ticks[i].now >= HOVER_DELAY_NS,
{
    lemma_running_hover(ticks, k);
    let s = run_ticks(None, ticks.take(k))->Some_0;
    let i = choose|i: int| hover_began_at(ticks, i, k) && #[trigger] ticks[i].now == s;
    assert(hover_began_at(ticks, i, k + 1));
}

/// After firing, the trigger is idle again: it cannot fire at the next poll.
pub proof fn lemma_no_fire_twice_in_a_row(ticks: Seq<Tick>, k: int)
    requires
        0 <= k,
        k + 1 < ticks.len(),
        fires_at(ticks, k),
    ensures
        !fires_at(ticks, k + 1),
{
    let prefix = ticks.take(k + 1);
    assert(prefix.drop_last() =~= ticks.take(k));
    assert(prefix.last() == ticks[k]);
}

} // verus!
