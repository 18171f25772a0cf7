//! The live-rate windows over a run of the click worker: each handover hands
//! over the clicks sent since the one before.

use vstd::prelude::*;
use crate::engine::{next_state, Effect, LiveUpdate, Observation, WorkerAction, WorkerView};
use crate::run::{action_at, exited_within, state_after};

verus! {

/// Whether a step hands a finished live-rate window to the thread (a live
/// value to publish on a step that does not leave the loop).
pub open spec fn hands_over(a: WorkerAction) -> bool {
    a.live is Some && a.effect != Effect::Exit
}

/// The clicks sent in the current live-rate window after the first `k` steps:
/// those since the last step that handed a window over (a click on that step
/// itself belongs to the new window), on top of the start state's count when
/// no step has handed one over yet.
pub open spec fn window_count(w: WorkerView, obs: Seq<Observation>, k: nat) -> nat
    decreases k,
{
    if k == 0 {
        w.window_clicks as nat
    } else {
        let j = (k - 1) as nat;
        let a = action_at(w, obs, j);
        (if hands_over(a) { 0 } else { window_count(w, obs, j) }) + if a.effect == Effect::Click {
            1nat
        } else {
            0nat
        }
    }
}

/// A count capped at the largest `u32`.
pub open spec fn capped(n: nat) -> u32 {
    if n > u32::MAX { u32::MAX } else { n as u32 }
}

/// One step, for the live-rate window: a handover hands over the clicks
/// counted so far (zero as `Zero`) and starts the new window with just this
/// step's click, if any; otherwise this step's click is added to the count.
pub proof fn lemma_window_step(st: WorkerView, o: Observation, n_before: nat)
    requires
        st.window_clicks == capped(n_before),
    ensures
        ({
            let (n, a) = next_state(st, o);
            let click: nat = if a.effect == Effect::Click { 1 } else { 0 };
            &&& hands_over(a) ==> {
                &&& n_before == 0 ==> a.live == Some(LiveUpdate::Zero)
                &&& n_before > 0 ==> a.live is Some && a.live->Some_0 is Rate
                    && a.live->Some_0->clicks == capped(n_before)
                &&& n.window_clicks == capped(click)
            }
            &&& a.effect != Effect::Exit && !hands_over(a) ==> n.window_clicks == capped(n_before + click)
        }),
{
}

/// The live rate counts each window's clicks from scratch: until the worker
/// leaves its loop, the count it holds is the number of clicks sent since the
/// last handover (capped at the largest `u32`), and every handover hands over
/// exactly that number of clicks, as `Zero` when there were none.
#[verifier::spinoff_prover]
#[verifier::rlimit(40)]
pub proof fn law_live_window_counts_clicks_since_handover(w: WorkerView, obs: Seq<Observation>, k: nat)
    requires
        k <= obs.len(),
        !exited_within(w, obs, k),
    ensures
        state_after(w, obs, k).window_clicks == capped(window_count(w, obs, k)),
        k < obs.len() && hands_over(action_at(w, obs, k)) ==> {
            &&& window_count(w, obs, k) == 0 ==> action_at(w, obs, k).live == Some(LiveUpdate::Zero)
            &&& window_count(w, obs, k) > 0 ==> action_at(w, obs, k).live is Some
                && action_at(w, obs, k).live->Some_0 is Rate
                && action_at(w, obs, k).live->Some_0->clicks == capped(window_count(w, obs, k))
        },
    decreases k,
{
    if k > 0 {
        let j = (k - 1) as nat;
        law_live_window_counts_clicks_since_handover(w, obs, j);
        lemma_window_step(state_after(w, obs, j), obs[j as int], window_count(w, obs, j));
    }
    if k < obs.len() {
        lemma_window_step(state_after(w, obs, k), obs[k as int], window_count(w, obs, k));
    }
}

} // verus!
