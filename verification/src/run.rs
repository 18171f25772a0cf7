//! Laws over whole runs of the click worker: what a sequence of observations
//! makes of the worker's state and of the shared state its thread publishes.

use vstd::prelude::*;
use crate::config::{BindMode, mode_from_code};
use crate::engine::{hotkey_engaged, toggle_after_poll};
use crate::engine::{
    clamped_cps, law_period_fits_rate, next_state, period_of, still_active, Effect, LiveUpdate,
    Observation, Phase, SharedView, WorkerAction, WorkerView, CLOCK_LIMIT_NANOS,
};

verus! {

/// The worker's state after it has taken the first `k` observations of `obs`.
pub open spec fn state_after(w: WorkerView, obs: Seq<Observation>, k: nat) -> WorkerView
    decreases k,
{
    if k == 0 {
        w
    } else {
        next_state(state_after(w, obs, (k - 1) as nat), obs[k - 1]).0
    }
}

/// The action of the worker's step on observation `k` of `obs`.
pub open spec fn action_at(w: WorkerView, obs: Seq<Observation>, k: nat) -> WorkerAction {
    next_state(state_after(w, obs, k), obs[k as int]).1
}

/// The number of clicks among the steps `lo..hi` of a run.
pub open spec fn clicks_in(w: WorkerView, obs: Seq<Observation>, lo: nat, hi: nat) -> nat
    decreases hi,
{
    if hi <= lo {
        0
    } else {
        clicks_in(w, obs, lo, (hi - 1) as nat) + if action_at(w, obs, (hi - 1) as nat).effect == Effect::Click {
            1nat
        } else {
            0nat
        }
    }
}

/// Whether one of the first `k` steps of a run left the loop.
pub open spec fn exited_within(w: WorkerView, obs: Seq<Observation>, k: nat) -> bool
    decreases k,
{
    if k == 0 {
        false
    } else {
        exited_within(w, obs, (k - 1) as nat) || action_at(w, obs, (k - 1) as nat).effect == Effect::Exit
    }
}

/// Every observation of the run lies within the clock's range.
pub open spec fn clock_in_range(obs: Seq<Observation>) -> bool {
    forall|k: int| 0 <= k < obs.len() ==> #[trigger] obs[k].now <= CLOCK_LIMIT_NANOS
}

/// A step keeps the worker well-formed.
pub proof fn lemma_step_wf(w: WorkerView, o: Observation)
    requires
        w.wf(),
        o.now <= CLOCK_LIMIT_NANOS,
    ensures
        next_state(w, o).0.wf(),
{
    law_period_fits_rate(clamped_cps(o.target_cps));
}

/// Every state of a run is well-formed.
pub proof fn lemma_run_wf(w: WorkerView, obs: Seq<Observation>, k: nat)
    requires
        w.wf(),
        clock_in_range(obs),
        k <= obs.len(),
    ensures
        state_after(w, obs, k).wf(),
    decreases k,
{
    if k > 0 {
        lemma_run_wf(w, obs, (k - 1) as nat);
        lemma_step_wf(state_after(w, obs, (k - 1) as nat), obs[k - 1]);
    }
}

// ---------------------------------------------------------------------------
// The shared state over a run.

/// The shared state after the worker's thread has performed `a`: it stores
/// `active` and the live rate where they are given (a rate by the thread's
/// own arithmetic `rate`), counts a click in the total (wrapping as an atomic
/// addition does), and clears `worker_alive` on exit. Nothing else is written.
pub open spec fn publish(s: SharedView, a: WorkerAction, rate: spec_fn(u32, u64) -> u32) -> SharedView {
    SharedView {
        active: match a.active {
            Some(active) => active,
            None => s.active,
        },
        live_cps_x10: match a.live {
            Some(LiveUpdate::Zero) => 0,
            Some(LiveUpdate::Rate { clicks, elapsed_nanos }) => rate(clicks, elapsed_nanos),
            None => s.live_cps_x10,
        },
        total_clicks: if a.effect == Effect::Click {
            if s.total_clicks == u64::MAX { 0 } else { (s.total_clicks + 1) as u64 }
        } else {
            s.total_clicks
        },
        worker_alive: if a.effect == Effect::Exit { false } else { s.worker_alive },
        ..s
    }
}

/// The shared state after the thread has performed the first `k` actions of a
/// run.
pub open spec fn shared_after(
    s: SharedView,
    w: WorkerView,
    obs: Seq<Observation>,
    k: nat,
    rate: spec_fn(u32, u64) -> u32,
) -> SharedView
    decreases k,
{
    if k == 0 {
        s
    } else {
        publish(shared_after(s, w, obs, (k - 1) as nat, rate), action_at(w, obs, (k - 1) as nat), rate)
    }
}

/// Over any run the worker writes only its outputs: the settings and the stop
/// request stay as the window left them, the click total grows by exactly the
/// number of clicks sent (modulo 2^64), and `worker_alive` keeps its value
/// until the worker leaves its loop, when it becomes false.
pub proof fn law_worker_writes_only_outputs(
    s: SharedView,
    w: WorkerView,
    obs: Seq<Observation>,
    k: nat,
    rate: spec_fn(u32, u64) -> u32,
)
    requires
        k <= obs.len(),
    ensures
        ({
            let after = shared_after(s, w, obs, k, rate);
            &&& after.target_cps == s.target_cps
            &&& after.mode == s.mode
            &&& after.bind_vk == s.bind_vk
            &&& after.manual_active == s.manual_active
            &&& after.shutdown == s.shutdown
            &&& after.total_clicks as int == (s.total_clicks + clicks_in(w, obs, 0, k)) % 0x1_0000_0000_0000_0000
            &&& after.worker_alive == (s.worker_alive && !exited_within(w, obs, k))
        }),
    decreases k,
{
    if k > 0 {
        law_worker_writes_only_outputs(s, w, obs, (k - 1) as nat, rate);
        let before = shared_after(s, w, obs, (k - 1) as nat, rate);
        let c = clicks_in(w, obs, 0, (k - 1) as nat);
        assert(before.total_clicks as int == (s.total_clicks + c) % 0x1_0000_0000_0000_0000);
        if action_at(w, obs, (k - 1) as nat).effect == Effect::Click {
            assert((s.total_clicks + c + 1) % 0x1_0000_0000_0000_0000 == (if before.total_clicks == u64::MAX {
                0
            } else {
                before.total_clicks + 1
            })) by (nonlinear_arith)
                requires
                    before.total_clicks as int == (s.total_clicks + c) % 0x1_0000_0000_0000_0000,
                    before.total_clicks <= u64::MAX,
                    c >= 0,
            ;
        }
    }
}

/// One step keeps the shared `active` flag true while the worker waits for a
/// deadline or has just clicked.
proof fn lemma_active_step(sh: SharedView, st: WorkerView, o: Observation, rate: spec_fn(u32, u64) -> u32)
    requires
        held_period(st) is Some ==> sh.active,
    ensures
        ({
            let (n, a) = next_state(st, o);
            &&& held_period(n) is Some ==> publish(sh, a, rate).active
            &&& a.effect == Effect::Click ==> publish(sh, a, rate).active
        }),
{
}

/// Over any run, a click is sent only while the shared state shows the
/// clicker as active: the worker publishes `active` as true when it starts
/// waiting for a deadline and publishes nothing else until it clicks or the
/// wait ends.
pub proof fn law_clicks_only_while_shown_active(
    s: SharedView,
    w: WorkerView,
    obs: Seq<Observation>,
    k: nat,
    rate: spec_fn(u32, u64) -> u32,
)
    requires
        k < obs.len(),
        held_period(w) is Some ==> s.active,
    ensures
        held_period(state_after(w, obs, k)) is Some ==> shared_after(s, w, obs, k, rate).active,
        action_at(w, obs, k).effect == Effect::Click ==> shared_after(s, w, obs, k + 1, rate).active,
    decreases k,
{
    if k > 0 {
        law_clicks_only_while_shown_active(s, w, obs, (k - 1) as nat, rate);
        lemma_active_step(
            shared_after(s, w, obs, (k - 1) as nat, rate),
            state_after(w, obs, (k - 1) as nat),
            obs[k - 1],
            rate,
        );
    }
    lemma_active_step(shared_after(s, w, obs, k, rate), state_after(w, obs, k), obs[k as int], rate);
}

// ---------------------------------------------------------------------------
// The hotkey over a run.

/// Whether the worker's step on `o` reaches its loop head and so polls the
/// hotkey: always from the loop head, after an idle sleep and after a click;
/// from a wait only when the wait is cut short because the clicker went off
/// (in the spin stretch, only before the deadline); never on a stop request.
pub open spec fn polls(st: WorkerView, o: Observation) -> bool {
    !o.shutdown && match st.phase {
        Phase::Top => true,
        Phase::Idle => true,
        Phase::Clicked { .. } => true,
        Phase::Coarse { .. } => !still_active(st, o),
        Phase::Spin { .. } => o.now < st.next_deadline && !still_active(st, o),
        Phase::Done => false,
    }
}

/// The key state that the last poll among the first `k` steps saw (the
/// worker's remembered key state if none polled).
pub open spec fn last_polled_key(w: WorkerView, obs: Seq<Observation>, k: nat) -> bool
    decreases k,
{
    if k == 0 {
        w.prev_bind_down
    } else if polls(state_after(w, obs, (k - 1) as nat), obs[k - 1]) {
        obs[k - 1].bind_down
    } else {
        last_polled_key(w, obs, (k - 1) as nat)
    }
}

/// The number of presses among the first `k` steps: polls that see the key
/// down where the poll before saw it up.
pub open spec fn presses(w: WorkerView, obs: Seq<Observation>, k: nat) -> nat
    decreases k,
{
    if k == 0 {
        0
    } else {
        presses(w, obs, (k - 1) as nat) + if polls(state_after(w, obs, (k - 1) as nat), obs[k - 1])
            && obs[k - 1].bind_down && !last_polled_key(w, obs, (k - 1) as nat) {
            1nat
        } else {
            0nat
        }
    }
}

/// One step in `Toggle` mode: a poll remembers the key state, flips the
/// toggle exactly on a press and publishes `active` from the manual switch and
/// the toggle; any other step leaves both as they were.
pub proof fn lemma_toggle_step(st: WorkerView, o: Observation)
    requires
        mode_from_code(o.mode) == BindMode::Toggle,
    ensures
        ({
            let (n, a) = next_state(st, o);
            &&& polls(st, o) ==> {
                &&& n.prev_bind_down == o.bind_down
                &&& n.hotkey_toggle_active == (st.hotkey_toggle_active != (o.bind_down && !st.prev_bind_down))
                &&& a.active == Some(o.manual_active || n.hotkey_toggle_active)
            }
            &&& !polls(st, o) ==> n.prev_bind_down == st.prev_bind_down
                && n.hotkey_toggle_active == st.hotkey_toggle_active
        }),
{
}

/// In `Toggle` mode the toggle is the parity of the presses: after any number
/// of steps it equals its start value flipped once per press, the remembered
/// key state is the one the last poll saw, and every poll publishes `active`
/// as the manual switch or the toggle.
#[verifier::spinoff_prover]
#[verifier::rlimit(40)]
pub proof fn law_toggle_is_press_parity(w: WorkerView, obs: Seq<Observation>, k: nat)
    requires
        k <= obs.len(),
        forall|i: int| 0 <= i < obs.len() ==> mode_from_code(#[trigger] obs[i].mode) == BindMode::Toggle,
    ensures
        state_after(w, obs, k).prev_bind_down == last_polled_key(w, obs, k),
        state_after(w, obs, k).hotkey_toggle_active == (w.hotkey_toggle_active != (presses(w, obs, k) % 2 == 1)),
        k < obs.len() && polls(state_after(w, obs, k), obs[k as int]) ==> action_at(w, obs, k).active == Some(
            obs[k as int].manual_active || state_after(w, obs, k + 1).hotkey_toggle_active,
        ),
    decreases k,
{
    if k > 0 {
        law_toggle_is_press_parity(w, obs, (k - 1) as nat);
        lemma_toggle_step(state_after(w, obs, (k - 1) as nat), obs[k - 1]);
    }
    if k < obs.len() {
        lemma_toggle_step(state_after(w, obs, k), obs[k as int]);
        assert(state_after(w, obs, k + 1) == next_state(state_after(w, obs, k), obs[k as int]).0);
    }
}

// ---------------------------------------------------------------------------
// The click rate over a run.

/// The click period that a waiting or clicking worker holds, if any.
pub open spec fn held_period(st: WorkerView) -> Option<u64> {
    match st.phase {
        Phase::Coarse { period } => Some(period),
        Phase::Spin { period } => Some(period),
        Phase::Clicked { period } => Some(period),
        _ => None,
    }
}

/// Whether the worker's step on `o` keeps clicking: no stop request, and the
/// clicker is on at the check the step makes. From the loop head (also after
/// an idle sleep or a click) that is the check after polling the hotkey; in a
/// coarse wait, the check of the wait; in the spin stretch, the check made
/// before the deadline (a deadline that has come fires at once).
#[verifier::opaque]
pub open spec fn stays_active(st: WorkerView, o: Observation) -> bool {
    !o.shutdown && match st.phase {
        Phase::Coarse { .. } => still_active(st, o),
        Phase::Spin { .. } => o.now >= st.next_deadline || still_active(st, o),
        _ => {
            let mode = mode_from_code(o.mode);
            o.manual_active || hotkey_engaged(
                mode,
                toggle_after_poll(mode, st.hotkey_toggle_active, st.prev_bind_down, o.bind_down),
                o.bind_down,
            )
        },
    }
}

/// A run in which the clicker stays on without interruption, by the manual
/// switch or by the hotkey: every step keeps clicking, the target rate stays
/// at `target`, and the clock stays in range and never goes back.
pub open spec fn steady(w: WorkerView, obs: Seq<Observation>, target: u32) -> bool {
    &&& forall|k: int| 0 <= k < obs.len() ==> {
        &&& (#[trigger] obs[k]).target_cps == target
        &&& obs[k].now <= CLOCK_LIMIT_NANOS
        &&& stays_active(state_after(w, obs, k as nat), obs[k])
    }
    &&& forall|k: int| 0 <= k < obs.len() - 1 ==> (#[trigger] obs[k]).now <= obs[k + 1].now
}

/// The worker at the start of a steady run at `target`: well-formed, and any
/// period it holds is that of the target.
pub open spec fn steady_start(w: WorkerView, target: u32) -> bool {
    &&& w.wf()
    &&& held_period(w) is None || held_period(w) == Some(period_of(clamped_cps(target)))
}

/// One step of a steady run: the deadline never moves earlier; a click comes
/// at or after the deadline and moves it on by at least a period; right after
/// a click there is no click, and the deadline lies after now.
pub proof fn lemma_steady_step(st: WorkerView, o: Observation, target: u32)
    requires
        steady_start(st, target),
        o.now <= CLOCK_LIMIT_NANOS,
        stays_active(st, o),
        o.target_cps == target,
    ensures
        ({
            let (n, a) = next_state(st, o);
            let p = period_of(clamped_cps(target));
            &&& steady_start(n, target)
            &&& n.next_deadline >= st.next_deadline
            &&& a.effect == Effect::Click ==> {
                &&& o.now >= st.next_deadline
                &&& n.next_deadline >= st.next_deadline + p
                &&& n.phase == (Phase::Clicked { period: p })
            }
            &&& st.phase is Clicked ==> a.effect != Effect::Click && n.next_deadline > o.now
        }),
{
    reveal(stays_active);
    law_period_fits_rate(clamped_cps(target));
    lemma_step_wf(st, o);
}

/// Every state of a steady run is a steady start.
pub proof fn lemma_steady_run(w: WorkerView, obs: Seq<Observation>, target: u32, k: nat)
    requires
        steady_start(w, target),
        steady(w, obs, target),
        k <= obs.len(),
    ensures
        steady_start(state_after(w, obs, k), target),
    decreases k,
{
    if k > 0 {
        lemma_steady_run(w, obs, target, (k - 1) as nat);
        lemma_steady_step(state_after(w, obs, (k - 1) as nat), obs[k - 1], target);
    }
}

/// One step of a steady run, in terms of the run: the deadline never moves
/// earlier; a click comes at or after the deadline and moves it on by at least
/// a period; right after a click there is no click, and the deadline lies
/// after that step's clock reading.
proof fn lemma_steady_progress(w: WorkerView, obs: Seq<Observation>, target: u32, k: nat)
    requires
        steady_start(w, target),
        steady(w, obs, target),
        k < obs.len(),
    ensures
        ({
            let st = state_after(w, obs, k);
            let n = state_after(w, obs, k + 1);
            let a = action_at(w, obs, k);
            let p = period_of(clamped_cps(target));
            &&& n.next_deadline >= st.next_deadline
            &&& a.effect == Effect::Click ==> {
                &&& obs[k as int].now >= st.next_deadline
                &&& n.next_deadline >= st.next_deadline + p
                &&& n.phase is Clicked
            }
            &&& st.phase is Clicked ==> a.effect != Effect::Click && n.next_deadline > obs[k as int].now
        }),
{
    lemma_steady_run(w, obs, target, k);
    lemma_steady_step(state_after(w, obs, k), obs[k as int], target);
    assert(state_after(w, obs, k + 1) == next_state(state_after(w, obs, k), obs[k as int]).0);
}

/// From the second step after a click on, the deadline lies more than one
/// period per later click beyond the moment of that click.
proof fn lemma_deadline_after_clicks(w: WorkerView, obs: Seq<Observation>, target: u32, i: nat, s: nat)
    requires
        steady_start(w, target),
        steady(w, obs, target),
        i + 2 <= s <= obs.len(),
        action_at(w, obs, i).effect == Effect::Click,
    ensures
        state_after(w, obs, s).next_deadline > obs[i as int].now + clicks_in(w, obs, i + 1, s) * period_of(
            clamped_cps(target),
        ),
    decreases s,
{
    let p = period_of(clamped_cps(target));
    let prev = (s - 1) as nat;
    lemma_steady_progress(w, obs, target, prev);
    if s == i + 2 {
        lemma_steady_progress(w, obs, target, i);
        assert(obs[i as int].now <= obs[i + 1int].now);
        assert(clicks_in(w, obs, i + 1, i + 1) == 0);
    } else {
        lemma_deadline_after_clicks(w, obs, target, i, prev);
        let k = clicks_in(w, obs, i + 1, prev);
        if action_at(w, obs, prev).effect == Effect::Click {
            assert((k + 1) * p == k * p + p) by (nonlinear_arith);
        }
    }
}

/// The number of clicks among the steps `lo..hi` splits at any step between.
pub proof fn lemma_clicks_split(w: WorkerView, obs: Seq<Observation>, lo: nat, mid: nat, hi: nat)
    requires
        lo <= mid <= hi,
    ensures
        clicks_in(w, obs, lo, hi) == clicks_in(w, obs, lo, mid) + clicks_in(w, obs, mid, hi),
    decreases hi,
{
    if hi > mid {
        lemma_clicks_split(w, obs, lo, mid, (hi - 1) as nat);
    }
}

/// While the clicker stays on (by the manual switch or the hotkey) at a fixed
/// target with period `p`, two clicks
/// with `k` clicks between them lie more than `k` periods apart: each click
/// comes at or after its deadline, and each deadline after the first click
/// lies beyond that click by at least one period per click since. A worker
/// that falls behind therefore never bursts to catch up.
pub proof fn law_click_spacing(w: WorkerView, obs: Seq<Observation>, target: u32, i: nat, j: nat)
    requires
        steady_start(w, target),
        steady(w, obs, target),
        i < j < obs.len(),
        action_at(w, obs, i).effect == Effect::Click,
        action_at(w, obs, j).effect == Effect::Click,
    ensures
        obs[j as int].now > obs[i as int].now + clicks_in(w, obs, i + 1, j) * period_of(clamped_cps(target)),
{
    lemma_steady_progress(w, obs, target, i);
    lemma_steady_progress(w, obs, target, i + 1);
    if j > i + 1 {
        lemma_deadline_after_clicks(w, obs, target, i, j);
        lemma_steady_progress(w, obs, target, j);
    }
}

/// While the clicker stays on (by the manual switch or the hotkey) at a fixed
/// target with period `p`, the clicks
/// sent within any stretch of time `t` (from the first click in it, at or
/// after `a`, to the last, at or before `a + t`) number fewer than `t / p + 2`.
pub proof fn law_clicks_per_interval(w: WorkerView, obs: Seq<Observation>, target: u32, i: nat, j: nat, a: int, t: int)
    requires
        steady_start(w, target),
        steady(w, obs, target),
        i <= j < obs.len(),
        action_at(w, obs, i).effect == Effect::Click,
        action_at(w, obs, j).effect == Effect::Click,
        a <= obs[i as int].now,
        obs[j as int].now <= a + t,
    ensures
        clicks_in(w, obs, i, j + 1) * period_of(clamped_cps(target)) < t + 2 * period_of(clamped_cps(target)),
{
    let p = period_of(clamped_cps(target));
    law_period_fits_rate(clamped_cps(target));
    if i == j {
        assert(clicks_in(w, obs, i, i) == 0);
        assert(clicks_in(w, obs, i, j + 1) == 1);
        assert(obs[i as int].now <= a + t);
    } else {
        law_click_spacing(w, obs, target, i, j);
        let k = clicks_in(w, obs, i + 1, j);
        lemma_clicks_split(w, obs, i, i + 1, j + 1);
        lemma_clicks_split(w, obs, i + 1, j, j + 1);
        assert(clicks_in(w, obs, i, i) == 0);
        assert(clicks_in(w, obs, i, i + 1) == 1);
        assert(clicks_in(w, obs, j, j) == 0);
        assert(clicks_in(w, obs, j, j + 1) == 1);
        assert(clicks_in(w, obs, i, j + 1) == k + 2);
        assert((k + 2) * p == k * p + 2 * p) by (nonlinear_arith);
    }
}

} // verus!
