use vstd::prelude::*;
use crate::config::Config;
use vstd::arithmetic::div_mod::lemma_fundamental_div_mod;
use vstd::arithmetic::div_mod::lemma_fundamental_div_mod_converse_mod;
use vstd::arithmetic::div_mod::lemma_mod_bound;

verus! {

/// Number of ticks between two hardware read-backs in non-lazy mode
/// (a read-back happens once the counter has reached this value).
pub const READ_PERIOD_TICKS: u32 = 10;

/// Sentinel cached value meaning "true hardware level not yet known".
pub const UNKNOWN_BRIGHTNESS: i32 = -1;

/// Mutable state owned by the decision engine, updated once per tick.
#[derive(Clone, Copy, Debug, PartialEq, Eq, Structural)]
pub struct EngineState {
    /// Brightness level the engine currently wants applied.
    pub target: i32,
    /// Last hardware level the engine knows of: its own last write, or the
    /// last read-back; `UNKNOWN_BRIGHTNESS` before either has happened.
    pub cached: i32,
    /// Counter of ticks since the last hardware read-back.
    pub ticks: u32,
}

/// Everything one tick of the loop learns from outside the engine: whether
/// any activity signal was pending, the whole seconds elapsed since the last
/// activity, and what a hardware read-back would return this tick (consulted
/// only on ticks where a read-back is due).
#[derive(Clone, Copy, Debug)]
pub struct TickInput {
    pub activity: bool,
    pub elapsed_secs: u64,
    pub hw_level: i32,
}

/// What the decision phase of a tick asks of the surrounding loop.
#[derive(Clone, Copy, Debug)]
pub struct Decision {
    /// Insert the extra wake delay before issuing any write this tick.
    pub wake_delay: bool,
    /// Reset the last-activity timestamp to now.
    pub reset_activity: bool,
}

/// The target brightness decided by one tick: full level on activity, off at
/// the timeout, the dim level 1 in the second half of the timeout window
/// (only if dimming is enabled, the full level exceeds 1 and the hardware was
/// last known above 1), otherwise unchanged.
pub open spec fn spec_decide(cfg: Config, target: i32, cached: i32, activity: bool, elapsed_secs: u64) -> i32 {
    if activity {
        cfg.brightness
    } else if elapsed_secs >= cfg.timeout {
        0i32
    } else if cfg.dim && cfg.brightness > 1 && cached > 1 && elapsed_secs >= cfg.timeout / 2 {
        1i32
    } else {
        target
    }
}

/// Whether an activity tick must insert the extra wake delay: only when the
/// light was, as far as the engine knows, fully off (or never observed).
pub open spec fn spec_wake_delay(cached: i32, activity: bool) -> bool {
    activity && cached <= 0
}

/// Whether a hardware read-back is due this tick.
pub open spec fn spec_read_due(cfg: Config, ticks: u32) -> bool {
    !cfg.lazy && ticks >= READ_PERIOD_TICKS
}

/// The read-back counter after one tick: untouched in lazy mode, reset on a
/// read-back tick, incremented otherwise.
pub open spec fn spec_next_ticks(cfg: Config, ticks: u32) -> u32 {
    if cfg.lazy {
        ticks
    } else if ticks >= READ_PERIOD_TICKS {
        0u32
    } else {
        (ticks + 1) as u32
    }
}

/// The cached hardware level after the read-back phase of one tick.
pub open spec fn spec_cached_after_read(cfg: Config, s: EngineState, inp: TickInput) -> i32 {
    if spec_read_due(cfg, s.ticks) {
        inp.hw_level
    } else {
        s.cached
    }
}

/// The write one tick issues to the hardware service: the newly decided
/// target exactly when it differs from the cached level, nothing otherwise.
pub open spec fn spec_tick_write(cfg: Config, s: EngineState, inp: TickInput) -> Option<i32> {
    let t = spec_decide(cfg, s.target, s.cached, inp.activity, inp.elapsed_secs);
    let c = spec_cached_after_read(cfg, s, inp);
    if t != c {
        Some(t)
    } else {
        None
    }
}

/// One whole tick of the decision loop: decide the target from the timers,
/// absorb a hardware read-back if one is due, then apply the target if it
/// differs from the cached level.
pub open spec fn spec_tick(cfg: Config, s: EngineState, inp: TickInput) -> EngineState {
    let t = spec_decide(cfg, s.target, s.cached, inp.activity, inp.elapsed_secs);
    let c = spec_cached_after_read(cfg, s, inp);
    EngineState {
        target: t,
        cached: if t != c { t } else { c },
        ticks: spec_next_ticks(cfg, s.ticks),
    }
}

/// The engine state after running a whole sequence of ticks from `s`.
pub open spec fn run(cfg: Config, s: EngineState, inputs: Seq<TickInput>) -> EngineState
    decreases inputs.len(),
{
    if inputs.len() == 0 {
        s
    } else {
        spec_tick(cfg, run(cfg, s, inputs.drop_last()), inputs.last())
    }
}

impl EngineState {
    /// The state at loop start: nothing wanted yet, hardware level unknown,
    /// read-back counter at zero.
    pub fn new() -> (s: EngineState)
        ensures
            s.target == 0,
            s.cached == UNKNOWN_BRIGHTNESS,
            s.ticks == 0,
    {
        EngineState { target: 0, cached: UNKNOWN_BRIGHTNESS, ticks: 0 }
    }

    /// Decision phase of one tick: updates the target from the activity flag
    /// and the elapsed time, and says whether the loop must insert the wake
    /// delay and reset its activity timestamp.
    pub fn decide(&mut self, cfg: &Config, activity: bool, elapsed_secs: u64) -> (r: Decision)
        ensures
            final(self).target == spec_decide(*cfg, old(self).target, old(self).cached, activity, elapsed_secs),
            final(self).cached == old(self).cached,
            final(self).ticks == old(self).ticks,
            r.wake_delay == spec_wake_delay(old(self).cached, activity),
            r.reset_activity == activity,
    {
        let mut wake_delay = false;
        if activity {
            self.target = cfg.brightness;
            if self.cached <= 0 {
                wake_delay = true;
            }
        } else if elapsed_secs >= cfg.timeout {
            self.target = 0;
        } else if cfg.dim && cfg.brightness > 1 && self.cached > 1 && elapsed_secs >= cfg.timeout / 2 {
            self.target = 1;
        }
        Decision { wake_delay, reset_activity: activity }
    }

    /// Read-back scheduling phase: says whether the loop must query the true
    /// hardware level this tick, and advances the counter. In lazy mode a
    /// read-back is never due and the counter never moves.
    pub fn read_due(&mut self, cfg: &Config) -> (due: bool)
        ensures
            due == spec_read_due(*cfg, old(self).ticks),
            final(self).ticks == spec_next_ticks(*cfg, old(self).ticks),
            final(self).target == old(self).target,
            final(self).cached == old(self).cached,
    {
        if cfg.lazy {
            false
        } else if self.ticks >= READ_PERIOD_TICKS {
            self.ticks = 0;
            true
        } else {
            self.ticks = self.ticks + 1;
            false
        }
    }

    /// Absorbs one hardware read-back: the cache takes the level the service
    /// reported, and the caller learns whether it differed (worth logging).
    pub fn observe(&mut self, actual: i32) -> (changed: bool)
        ensures
            changed == (actual != old(self).cached),
            final(self).cached == actual,
            final(self).target == old(self).target,
            final(self).ticks == old(self).ticks,
    {
        let changed = actual != self.cached;
        self.cached = actual;
        changed
    }

    /// Idempotent write suppression: yields the level the loop must now write
    /// to the hardware service exactly when the target differs from the
    /// cached level, and accounts the cache as updated on that write.
    pub fn pending_write(&mut self) -> (w: Option<i32>)
        ensures
            w is Some <==> old(self).target != old(self).cached,
            w is Some ==> w == Some::<i32>(old(self).target) && final(self).cached == old(self).target,
            w is None ==> final(self).cached == old(self).cached,
            final(self).target == old(self).target,
            final(self).ticks == old(self).ticks,
    {
        if self.target != self.cached {
            self.cached = self.target;
            Some(self.target)
        } else {
            None
        }
    }
}

/// If no activity signal is ever observed and the elapsed time has reached
/// the timeout on every tick, the target brightness is 0 after the first
/// tick and stays 0 from then on.
pub proof fn lemma_idle_converges_off(cfg: Config, s: EngineState, inputs: Seq<TickInput>, i: int)
    requires
        forall|j: int| 0 <= j < i ==> !(#[trigger] inputs[j]).activity && inputs[j].elapsed_secs >= cfg.timeout,
        1 <= i <= inputs.len(),
    ensures
        run(cfg, s, inputs.take(i)).target == 0,
{
    let pref = inputs.take(i);
    assert(pref.last() == inputs[i - 1]);
    assert(run(cfg, s, pref) == spec_tick(cfg, run(cfg, s, pref.drop_last()), inputs[i - 1]));
}

/// With dimming enabled, a full level above 1 and a hardware level last known
/// above 1, an idle tick whose elapsed time has crossed half the timeout but
/// not yet the timeout sets the target to the dim level 1: the target passes
/// through 1 on its way to 0.
pub proof fn lemma_dim_stage_precedes_off(cfg: Config, s: EngineState, inp: TickInput)
    requires
        cfg.dim,
        cfg.brightness > 1,
        s.cached > 1,
        !inp.activity,
        cfg.timeout / 2 <= inp.elapsed_secs < cfg.timeout,
    ensures
        spec_tick(cfg, s, inp).target == 1,
{
}

/// A write to the hardware service is issued on a tick if and only if the
/// newly decided target differs from the cached level (after any read-back
/// this tick); the write is then exactly the new target, and the cache holds
/// the written level afterwards.
pub proof fn lemma_write_iff_target_differs(cfg: Config, s: EngineState, inp: TickInput)
    ensures
        spec_tick_write(cfg, s, inp) is Some <==> spec_decide(cfg, s.target, s.cached, inp.activity, inp.elapsed_secs)
            != spec_cached_after_read(cfg, s, inp),
        spec_tick_write(cfg, s, inp) is Some ==> spec_tick_write(cfg, s, inp)
            == Some(spec_decide(cfg, s.target, s.cached, inp.activity, inp.elapsed_secs))
            && spec_tick(cfg, s, inp).cached == spec_tick(cfg, s, inp).target,
        spec_tick_write(cfg, s, inp) is None ==> spec_tick(cfg, s, inp).cached == spec_cached_after_read(cfg, s, inp),
{
}

/// No redundant writes: when the tick's computed target already equals the
/// cached/applied level and the hardware has not drifted from it, the tick
/// issues no write and leaves the cached level alone — a constant target
/// costs no hardware traffic, however many ticks pass.
pub proof fn lemma_no_redundant_writes(cfg: Config, s: EngineState, inp: TickInput)
    requires
        spec_decide(cfg, s.target, s.cached, inp.activity, inp.elapsed_secs) == s.cached,
        inp.hw_level == s.cached,
    ensures
        spec_tick_write(cfg, s, inp) is None,
        spec_tick(cfg, s, inp).cached == s.cached,
{
}

/// An activity tick inserts the extra wake delay if and only if the cached
/// hardware level was fully off or still unknown; the tick's target is the
/// configured full brightness either way.
pub proof fn lemma_wake_delay_iff_was_off(cfg: Config, s: EngineState, inp: TickInput)
    requires
        inp.activity,
    ensures
        spec_wake_delay(s.cached, inp.activity) <==> s.cached <= 0,
        spec_tick(cfg, s, inp).target == cfg.brightness,
{
}

/// In lazy mode the hardware read-back path is never taken, whatever the
/// tick counter holds.
pub proof fn lemma_lazy_never_reads(cfg: Config, ticks: u32)
    requires
        cfg.lazy,
    ensures
        !spec_read_due(cfg, ticks),
{
}

/// In non-lazy mode the read-back counter after `i` ticks from a counter
/// value at most `READ_PERIOD_TICKS` is `(ticks + i)` modulo
/// `READ_PERIOD_TICKS + 1`, whatever activity or timers the ticks saw: the
/// read-back cadence depends on the tick count alone.
pub proof fn lemma_read_cadence(cfg: Config, s: EngineState, inputs: Seq<TickInput>, i: int)
    requires
        !cfg.lazy,
        s.ticks <= READ_PERIOD_TICKS,
        0 <= i <= inputs.len(),
    ensures
        run(cfg, s, inputs.take(i)).ticks == (s.ticks + i) % (READ_PERIOD_TICKS + 1),
    decreases i,
{
    let m = READ_PERIOD_TICKS as int + 1;
    if i == 0 {
        assert(inputs.take(0) =~= Seq::<TickInput>::empty());
        lemma_fundamental_div_mod_converse_mod(s.ticks as int, m, 0, s.ticks as int);
    } else {
        lemma_read_cadence(cfg, s, inputs, i - 1);
        let pref = inputs.take(i);
        assert(pref.drop_last() =~= inputs.take(i - 1));
        let prev = run(cfg, s, inputs.take(i - 1));
        assert(run(cfg, s, pref) == spec_tick(cfg, prev, pref.last()));
        let x = s.ticks as int + i - 1;
        let q = x / m;
        lemma_fundamental_div_mod(x, m);
        lemma_mod_bound(x, m);
        if prev.ticks >= READ_PERIOD_TICKS {
            assert(x % m == m - 1);
            assert(x + 1 == (q + 1) * m + 0) by (nonlinear_arith)
                requires
                    x == m * q + x % m,
                    x % m == m - 1,
            ;
            lemma_fundamental_div_mod_converse_mod(x + 1, m, q + 1, 0);
        } else {
            assert(x + 1 == q * m + (x % m + 1)) by (nonlinear_arith)
                requires
                    x == m * q + x % m,
            ;
            lemma_fundamental_div_mod_converse_mod(x + 1, m, q, x % m + 1);
        }
    }
}

/// In non-lazy mode, tick `j` (counting from 0) performs a hardware
/// read-back exactly when the counter stands at `READ_PERIOD_TICKS` before
/// it, which happens on a fixed periodic cadence independent of activity.
pub proof fn lemma_read_tick_index(cfg: Config, s: EngineState, inputs: Seq<TickInput>, j: int)
    requires
        !cfg.lazy,
        s.ticks <= READ_PERIOD_TICKS,
        0 <= j < inputs.len(),
    ensures
        spec_read_due(cfg, run(cfg, s, inputs.take(j)).ticks)
            <==> (s.ticks + j) % (READ_PERIOD_TICKS + 1) == READ_PERIOD_TICKS,
{
    lemma_read_cadence(cfg, s, inputs, j);
}

} // verus!
