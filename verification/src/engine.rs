//! The click engine: the shared state that the window and the worker exchange,
//! and the worker's scheduling decisions as a state machine. The worker thread
//! (in the application) reads the inputs into an [`Observation`], hands it to
//! [`Worker::step`], performs the [`WorkerAction`] it gets back and observes
//! again.

use vstd::prelude::*;
use crate::config::{AppConfig, BindMode, mode_code, mode_from_code};

verus! {

/// The highest click rate the engine runs at.
pub const MAX_CPS: u32 = 1000;

/// Nanoseconds in one second.
pub const NANOS_PER_SEC: u64 = 1_000_000_000;

/// The shortest click period, that of `MAX_CPS`.
pub const MIN_PERIOD_NANOS: u64 = 1_000_000;

/// Within this distance of a deadline the worker spins instead of sleeping.
pub const SPIN_THRESHOLD_NANOS: u64 = 220_000;

/// The longest single coarse sleep while waiting for a deadline.
pub const MAX_COARSE_SLICE_NANOS: u64 = 2_000_000;

/// How long the worker sleeps between polls while it is not clicking.
pub const IDLE_SLEEP_NANOS: u64 = 2_000_000;

/// The live rate is measured over windows at least this long.
pub const LIVE_WINDOW_NANOS: u64 = 300_000_000;

/// Clock readings (nanoseconds since the worker started) stay below this
/// bound, so that a deadline plus a period always fits in a `u64`.
pub const CLOCK_LIMIT_NANOS: u64 = 4_611_686_018_427_387_904;

/// A target rate brought into `1..=MAX_CPS`.
pub open spec fn clamped_cps(cps: u32) -> u32 {
    if cps < 1 {
        1
    } else if cps > MAX_CPS {
        MAX_CPS
    } else {
        cps
    }
}

/// The time between two clicks at `cps` clicks per second, in whole
/// nanoseconds (a rate of zero counts as one).
pub open spec fn period_of(cps: u32) -> u64 {
    if cps == 0 {
        NANOS_PER_SEC
    } else {
        (NANOS_PER_SEC / (cps as u64)) as u64
    }
}

pub fn clamp_cps(cps: u32) -> (clamped: u32)
    ensures
        clamped == clamped_cps(cps),
        1 <= clamped <= MAX_CPS,
        1 <= cps <= MAX_CPS ==> clamped == cps,
{
    if cps < 1 {
        1
    } else if cps > MAX_CPS {
        MAX_CPS
    } else {
        cps
    }
}

pub fn cps_to_period(cps: u32) -> (period: u64)
    ensures
        period == period_of(cps),
{
    if cps == 0 {
        NANOS_PER_SEC
    } else {
        NANOS_PER_SEC / (cps as u64)
    }
}

/// For every rate the engine runs at, the period is the whole number of
/// nanoseconds that `cps` clicks fit into one second: `cps` periods take at
/// most a second, and one more period would not fit.
pub proof fn law_period_fits_rate(cps: u32)
    requires
        1 <= cps <= MAX_CPS,
    ensures
        MIN_PERIOD_NANOS <= period_of(cps) <= NANOS_PER_SEC,
        period_of(cps) * cps <= NANOS_PER_SEC,
        NANOS_PER_SEC < (period_of(cps) + 1) * cps,
{
    let p: u64 = period_of(cps);
    assert(p == NANOS_PER_SEC / (cps as u64));
    assert(p * cps <= NANOS_PER_SEC && NANOS_PER_SEC < (p + 1) * cps) by (nonlinear_arith)
        requires
            p == 1_000_000_000u64 / (cps as u64),
            1 <= cps,
    ;
    assert(MIN_PERIOD_NANOS <= p) by (nonlinear_arith)
        requires
            p == 1_000_000_000u64 / (cps as u64),
            1 <= cps <= 1000,
    ;
    assert(p <= NANOS_PER_SEC) by (nonlinear_arith)
        requires
            p == 1_000_000_000u64 / (cps as u64),
            1 <= cps,
    ;
}

/// The values that the window and the click worker share, as one snapshot. The
/// worker reads the settings (`target_cps`, `mode`, `bind_vk`,
/// `manual_active`) and publishes `active`, `live_cps_x10`, `total_clicks` and
/// `worker_alive`; the window requests the worker's end with `shutdown`. The
/// running application keeps these values in atomics that start from `new`.
#[derive(Clone, Copy, Debug)]
pub struct SharedState {
    pub target_cps: u32,
    pub mode: u8,
    pub bind_vk: u16,
    pub manual_active: bool,
    pub active: bool,
    pub live_cps_x10: u32,
    pub total_clicks: u64,
    pub worker_alive: bool,
    pub shutdown: bool,
}

/// The values of a [`SharedState`], as the contracts speak of them.
pub struct SharedView {
    pub target_cps: u32,
    pub mode: u8,
    pub bind_vk: u16,
    pub manual_active: bool,
    pub active: bool,
    pub live_cps_x10: u32,
    pub total_clicks: u64,
    pub worker_alive: bool,
    pub shutdown: bool,
}

impl View for SharedState {
    type V = SharedView;

    open spec fn view(&self) -> SharedView {
        SharedView {
            target_cps: self.target_cps,
            mode: self.mode,
            bind_vk: self.bind_vk,
            manual_active: self.manual_active,
            active: self.active,
            live_cps_x10: self.live_cps_x10,
            total_clicks: self.total_clicks,
            worker_alive: self.worker_alive,
            shutdown: self.shutdown,
        }
    }
}

/// The shared state that a configuration starts the engine with: its settings
/// (the rate brought into `1..=MAX_CPS`, the mode by its code), nothing
/// published yet, and no stop requested.
pub open spec fn initial_shared(config: AppConfig) -> SharedView {
    SharedView {
        target_cps: clamped_cps(config.target_cps),
        mode: mode_code(config.mode),
        bind_vk: config.bind_vk,
        manual_active: config.manual_active,
        active: false,
        live_cps_x10: 0,
        total_clicks: 0,
        worker_alive: false,
        shutdown: false,
    }
}

impl SharedState {
    pub fn new(config: &AppConfig) -> (state: SharedState)
        ensures
            state@ == initial_shared(*config),
            1 <= config.target_cps <= MAX_CPS ==> state.target_cps == config.target_cps,
            config.target_cps < 1 ==> state.target_cps == 1,
            config.target_cps > MAX_CPS ==> state.target_cps == MAX_CPS,
            mode_from_code(state.mode) == config.mode,
            state.bind_vk == config.bind_vk,
            state.manual_active == config.manual_active,
    {
        SharedState {
            target_cps: clamp_cps(config.target_cps),
            mode: config.mode.as_u8(),
            bind_vk: config.bind_vk,
            manual_active: config.manual_active,
            active: false,
            live_cps_x10: 0,
            total_clicks: 0,
            worker_alive: false,
            shutdown: false,
        }
    }

    /// Asks the worker to stop; nothing else changes.
    pub fn shutdown(&mut self)
        ensures
            final(self)@ == (SharedView { shutdown: true, ..old(self)@ }),
    {
        self.shutdown = true;
    }

    pub fn is_shutdown(&self) -> (requested: bool)
        ensures
            requested == self@.shutdown,
    {
        self.shutdown
    }
}

/// What the worker publishes as its live rate, in tenths of a click per
/// second. The rate itself is floating-point arithmetic that the worker's
/// thread does; the worker hands it the window it is measured over.
#[derive(Clone, Copy, Debug, PartialEq, Eq, Structural)]
pub enum LiveUpdate {
    /// Publish zero: the window held no clicks, or the worker stopped.
    Zero,
    /// Publish the rate of `clicks` clicks (at least one) over `elapsed_nanos`
    /// nanoseconds (at least a window's length).
    Rate { clicks: u32, elapsed_nanos: u64 },
}

/// Whether the hotkey keeps the clicker on: in `Toggle` mode the toggled
/// state, in `Hold` mode whether the key is down.
pub open spec fn hotkey_engaged(mode: BindMode, toggle_active: bool, bind_down: bool) -> bool {
    match mode {
        BindMode::Toggle => toggle_active,
        BindMode::Hold => bind_down,
    }
}

/// The toggled state after one poll of the key: in `Toggle` mode it flips on
/// each press (the key down now and up at the previous poll); in `Hold` mode it
/// does not change.
pub open spec fn toggle_after_poll(mode: BindMode, toggle_active: bool, prev_down: bool, bind_down: bool) -> bool {
    match mode {
        BindMode::Toggle => if bind_down && !prev_down {
            !toggle_active
        } else {
            toggle_active
        },
        BindMode::Hold => toggle_active,
    }
}

pub fn hotkey_active(mode: BindMode, toggle_active: bool, bind_down: bool) -> (engaged: bool)
    ensures
        engaged == hotkey_engaged(mode, toggle_active, bind_down),
{
    match mode {
        BindMode::Toggle => toggle_active,
        BindMode::Hold => bind_down,
    }
}

pub fn poll_toggle(mode: BindMode, toggle_active: bool, prev_down: bool, bind_down: bool) -> (toggled: bool)
    ensures
        toggled == toggle_after_poll(mode, toggle_active, prev_down, bind_down),
        mode == BindMode::Toggle ==> toggled == (toggle_active != (bind_down && !prev_down)),
        mode == BindMode::Hold ==> toggled == toggle_active,
{
    match mode {
        BindMode::Toggle => if bind_down && !prev_down {
            !toggle_active
        } else {
            toggle_active
        },
        BindMode::Hold => toggle_active,
    }
}

/// The deadline to wait for: when the worker has fallen more than a period
/// behind, it starts afresh from now instead of catching up.
pub open spec fn resynced_deadline(deadline: u64, period: u64, now: u64) -> u64 {
    if deadline + period < now {
        now
    } else {
        deadline
    }
}

/// The deadline after a click was sent: the scheduled one (the previous
/// deadline plus a period), unless that has already passed by the time the
/// click went out; then one period from now.
pub open spec fn caught_up_deadline(scheduled: u64, period: u64, now: u64) -> u64 {
    if scheduled <= now {
        (now + period) as u64
    } else {
        scheduled
    }
}

/// The length of one coarse sleep while `remaining` nanoseconds are left to
/// the deadline: up to the start of the spin stretch, but no longer than a
/// slice.
pub open spec fn coarse_slice(remaining: u64) -> u64 {
    if remaining - SPIN_THRESHOLD_NANOS <= MAX_COARSE_SLICE_NANOS {
        (remaining - SPIN_THRESHOLD_NANOS) as u64
    } else {
        MAX_COARSE_SLICE_NANOS
    }
}

/// Resynchronizes the deadline. It never moves earlier, and afterwards it is at
/// most one period behind `now`.
pub fn resync_deadline(deadline: u64, period: u64, now: u64) -> (resynced: u64)
    requires
        deadline + period <= u64::MAX,
    ensures
        resynced == resynced_deadline(deadline, period, now),
        resynced >= deadline,
        resynced + period >= now,
{
    if deadline + period < now {
        now
    } else {
        deadline
    }
}

/// The deadline after a click. It is never earlier than the scheduled one, and
/// it lies after the moment `now` at which the click was done: the worker
/// never fires a burst of clicks to catch up.
pub fn deadline_after_click(scheduled: u64, period: u64, now: u64) -> (next: u64)
    requires
        now + period <= u64::MAX,
        period > 0,
    ensures
        next == caught_up_deadline(scheduled, period, now),
        next >= scheduled,
        next > now,
{
    if scheduled <= now {
        now + period
    } else {
        scheduled
    }
}

/// The length of the next coarse sleep. It is positive, no longer than a
/// slice, and ends at least the spin stretch before the deadline.
pub fn coarse_sleep_nanos(remaining: u64) -> (nanos: u64)
    requires
        remaining > SPIN_THRESHOLD_NANOS,
    ensures
        nanos == coarse_slice(remaining),
        0 < nanos <= MAX_COARSE_SLICE_NANOS,
        nanos + SPIN_THRESHOLD_NANOS <= remaining,
{
    let beyond_spin: u64 = remaining - SPIN_THRESHOLD_NANOS;
    if beyond_spin <= MAX_COARSE_SLICE_NANOS {
        beyond_spin
    } else {
        MAX_COARSE_SLICE_NANOS
    }
}

/// What the worker reads at one moment: the stop request and settings from the
/// shared state, whether the hotkey is down, and the clock (nanoseconds since
/// the worker started).
#[derive(Clone, Copy, Debug)]
pub struct Observation {
    pub shutdown: bool,
    pub target_cps: u32,
    pub mode: u8,
    pub manual_active: bool,
    pub bind_down: bool,
    pub now: u64,
}

/// Where the worker stands in its loop.
#[derive(Clone, Copy, Debug, PartialEq, Eq, Structural)]
pub enum Phase {
    /// At the head of the loop.
    Top,
    /// Slept while inactive; the live rate is due, then the loop head.
    Idle,
    /// Waiting for the deadline with coarse sleeps, clicking every `period`.
    Coarse { period: u64 },
    /// Spinning through the last stretch before the deadline.
    Spin { period: u64 },
    /// A click was just sent.
    Clicked { period: u64 },
    /// The worker has stopped.
    Done,
}

/// The outside work that the worker does next, after which it observes again.
#[derive(Clone, Copy, Debug, PartialEq, Eq, Structural)]
pub enum Effect {
    /// Sleep for `nanos` nanoseconds.
    Sleep { nanos: u64 },
    /// Spin once (a processor hint, no sleep).
    Spin,
    /// Send one left click and count it in the shared total.
    Click,
    /// Leave the loop: mark the worker as no longer alive.
    Exit,
}

/// What the worker asks its thread to do after a step: publish `active` and
/// the live rate where they are given, then perform `effect`.
#[derive(Clone, Copy, Debug, PartialEq, Eq)]
pub struct WorkerAction {
    pub active: Option<bool>,
    pub live: Option<LiveUpdate>,
    pub effect: Effect,
}

/// The click worker's own state between observations.
#[derive(Debug)]
pub struct Worker {
    phase: Phase,
    hotkey_toggle_active: bool,
    prev_bind_down: bool,
    next_deadline: u64,
    window_start: u64,
    window_clicks: u32,
}

/// The state of a [`Worker`], as the contracts speak of it.
pub struct WorkerView {
    pub phase: Phase,
    pub hotkey_toggle_active: bool,
    pub prev_bind_down: bool,
    pub next_deadline: u64,
    pub window_start: u64,
    pub window_clicks: u32,
}

impl View for Worker {
    type V = WorkerView;

    closed spec fn view(&self) -> WorkerView {
        WorkerView {
            phase: self.phase,
            hotkey_toggle_active: self.hotkey_toggle_active,
            prev_bind_down: self.prev_bind_down,
            next_deadline: self.next_deadline,
            window_start: self.window_start,
            window_clicks: self.window_clicks,
        }
    }
}

/// A click period that the engine can run at.
pub open spec fn valid_period(period: u64) -> bool {
    MIN_PERIOD_NANOS <= period <= NANOS_PER_SEC
}

impl WorkerView {
    /// The deadline stays within a period of the clock's range, and a waiting
    /// or clicking worker holds a valid period.
    pub open spec fn wf(self) -> bool {
        &&& self.next_deadline <= CLOCK_LIMIT_NANOS + NANOS_PER_SEC
        &&& match self.phase {
            Phase::Coarse { period } => valid_period(period),
            Phase::Spin { period } => valid_period(period),
            Phase::Clicked { period } => valid_period(period),
            _ => true,
        }
    }
}

/// A worker that starts at `now`: at the loop head, hotkey off, the first
/// deadline and the first live-rate window starting now.
pub open spec fn start_state(now: u64) -> WorkerView {
    WorkerView {
        phase: Phase::Top,
        hotkey_toggle_active: false,
        prev_bind_down: false,
        next_deadline: now,
        window_start: now,
        window_clicks: 0,
    }
}

/// Whether the worker is still meant to click, by what it observed.
pub open spec fn still_active(w: WorkerView, o: Observation) -> bool {
    o.manual_active || hotkey_engaged(mode_from_code(o.mode), w.hotkey_toggle_active, o.bind_down)
}

pub open spec fn elapsed_since(start: u64, now: u64) -> u64 {
    if now >= start {
        (now - start) as u64
    } else {
        0
    }
}

/// The live rate over a finished window: zero without clicks, else the rate
/// of its clicks over its length.
pub open spec fn window_update(clicks: u32, elapsed: u64) -> LiveUpdate {
    if clicks == 0 {
        LiveUpdate::Zero
    } else {
        LiveUpdate::Rate { clicks, elapsed_nanos: elapsed }
    }
}

/// After a poll of the live rate at `now`: once a window of at least
/// `LIVE_WINDOW_NANOS` has passed, the window is handed over for publishing
/// and a new window starts.
pub open spec fn after_live(w: WorkerView, now: u64) -> (WorkerView, Option<LiveUpdate>) {
    let elapsed = elapsed_since(w.window_start, now);
    if elapsed >= LIVE_WINDOW_NANOS {
        (
            WorkerView { window_start: now, window_clicks: 0, ..w },
            Some(window_update(w.window_clicks, elapsed)),
        )
    } else {
        (w, None)
    }
}

pub open spec fn make_action(active: Option<bool>, live: Option<LiveUpdate>, effect: Effect) -> WorkerAction {
    WorkerAction { active, live, effect }
}

/// A click fires: the next deadline is one period on, and the click counts in
/// the live-rate window (which saturates).
pub open spec fn after_fire(w: WorkerView, period: u64, active: Option<bool>, live: Option<LiveUpdate>) -> (WorkerView, WorkerAction) {
    (
        WorkerView {
            phase: Phase::Clicked { period },
            next_deadline: (w.next_deadline + period) as u64,
            window_clicks: if w.window_clicks < u32::MAX { (w.window_clicks + 1) as u32 } else { u32::MAX },
            ..w
        },
        make_action(active, live, Effect::Click),
    )
}

/// One look at the clock while the worker is still meant to click: fire when
/// the deadline has come, spin when it is within the spin stretch, else sleep
/// coarsely.
pub open spec fn after_wait_check(w: WorkerView, o: Observation, period: u64, active: Option<bool>, live: Option<LiveUpdate>) -> (WorkerView, WorkerAction) {
    if o.now >= w.next_deadline {
        after_fire(w, period, active, live)
    } else if w.next_deadline - o.now <= SPIN_THRESHOLD_NANOS {
        (WorkerView { phase: Phase::Spin { period }, ..w }, make_action(active, live, Effect::Spin))
    } else {
        (
            WorkerView { phase: Phase::Coarse { period }, ..w },
            make_action(active, live, Effect::Sleep { nanos: coarse_slice((w.next_deadline - o.now) as u64) }),
        )
    }
}

/// The loop head: stop when asked to; else poll the hotkey, publish whether
/// the clicker is active, and either start waiting for the (resynchronized)
/// deadline or sleep idly with the deadline reset to now.
pub open spec fn after_top(w: WorkerView, o: Observation, live: Option<LiveUpdate>) -> (WorkerView, WorkerAction) {
    if o.shutdown {
        (WorkerView { phase: Phase::Done, ..w }, make_action(Some(false), Some(LiveUpdate::Zero), Effect::Exit))
    } else {
        let mode = mode_from_code(o.mode);
        let toggle = toggle_after_poll(mode, w.hotkey_toggle_active, w.prev_bind_down, o.bind_down);
        let polled = WorkerView { hotkey_toggle_active: toggle, prev_bind_down: o.bind_down, ..w };
        if o.manual_active || hotkey_engaged(mode, toggle, o.bind_down) {
            let period: u64 = period_of(clamped_cps(o.target_cps));
            let resynced = WorkerView {
                next_deadline: resynced_deadline(polled.next_deadline, period, o.now),
                ..polled
            };
            after_wait_check(resynced, o, period, Some(true), live)
        } else {
            (
                WorkerView { phase: Phase::Idle, next_deadline: o.now, ..polled },
                make_action(Some(false), live, Effect::Sleep { nanos: IDLE_SLEEP_NANOS }),
            )
        }
    }
}

/// The wait was cut short (stop requested or no longer active): the deadline
/// is reset to now, the live rate is polled, and the loop head follows.
pub open spec fn after_abort(w: WorkerView, o: Observation) -> (WorkerView, WorkerAction) {
    let reset = WorkerView { next_deadline: o.now, ..w };
    let (polled, live) = after_live(reset, o.now);
    after_top(polled, o, live)
}

/// One step of the worker: from its state and what it observes, its next
/// state and the action for its thread.
pub open spec fn next_state(w: WorkerView, o: Observation) -> (WorkerView, WorkerAction) {
    match w.phase {
        Phase::Top => after_top(w, o, None),
        Phase::Idle => {
            let (polled, live) = after_live(w, o.now);
            after_top(polled, o, live)
        },
        Phase::Clicked { period } => {
            let caught_up = WorkerView {
                next_deadline: caught_up_deadline(w.next_deadline, period, o.now),
                ..w
            };
            let (polled, live) = after_live(caught_up, o.now);
            after_top(polled, o, live)
        },
        Phase::Coarse { period } => if o.shutdown || !still_active(w, o) {
            after_abort(w, o)
        } else {
            after_wait_check(w, o, period, None, None)
        },
        Phase::Spin { period } => if o.now >= w.next_deadline {
            after_fire(w, period, None, None)
        } else if o.shutdown || !still_active(w, o) {
            after_abort(w, o)
        } else {
            (w, make_action(None, None, Effect::Spin))
        },
        Phase::Done => (w, make_action(None, None, Effect::Exit)),
    }
}

impl Worker {
    pub fn new(now: u64) -> (worker: Worker)
        requires
            now <= CLOCK_LIMIT_NANOS,
        ensures
            worker@ == start_state(now),
            worker@.wf(),
    {
        Worker {
            phase: Phase::Top,
            hotkey_toggle_active: false,
            prev_bind_down: false,
            next_deadline: now,
            window_start: now,
            window_clicks: 0,
        }
    }

    fn poll_live(&mut self, now: u64) -> (live: Option<LiveUpdate>)
        ensures
            (final(self)@, live) == after_live(old(self)@, now),
    {
        let elapsed: u64 = if now >= self.window_start {
            now - self.window_start
        } else {
            0
        };
        if elapsed >= LIVE_WINDOW_NANOS {
            let update = if self.window_clicks == 0 {
                LiveUpdate::Zero
            } else {
                LiveUpdate::Rate { clicks: self.window_clicks, elapsed_nanos: elapsed }
            };
            self.window_start = now;
            self.window_clicks = 0;
            Some(update)
        } else {
            None
        }
    }

    fn fire(&mut self, period: u64, active: Option<bool>, live: Option<LiveUpdate>) -> (action: WorkerAction)
        requires
            old(self)@.next_deadline <= CLOCK_LIMIT_NANOS,
            valid_period(period),
        ensures
            (final(self)@, action) == after_fire(old(self)@, period, active, live),
            final(self)@.wf(),
    {
        self.phase = Phase::Clicked { period };
        self.next_deadline = self.next_deadline + period;
        self.window_clicks = self.window_clicks.saturating_add(1);
        WorkerAction { active, live, effect: Effect::Click }
    }

    fn wait_check(&mut self, obs: &Observation, period: u64, active: Option<bool>, live: Option<LiveUpdate>) -> (action: WorkerAction)
        requires
            old(self)@.wf(),
            obs.now <= CLOCK_LIMIT_NANOS,
            valid_period(period),
        ensures
            (final(self)@, action) == after_wait_check(old(self)@, *obs, period, active, live),
            final(self)@.wf(),
    {
        if obs.now >= self.next_deadline {
            return self.fire(period, active, live);
        }
        let remaining: u64 = self.next_deadline - obs.now;
        if remaining <= SPIN_THRESHOLD_NANOS {
            self.phase = Phase::Spin { period };
            WorkerAction { active, live, effect: Effect::Spin }
        } else {
            let nanos: u64 = coarse_sleep_nanos(remaining);
            self.phase = Phase::Coarse { period };
            WorkerAction { active, live, effect: Effect::Sleep { nanos } }
        }
    }

    fn top(&mut self, obs: &Observation, live: Option<LiveUpdate>) -> (action: WorkerAction)
        requires
            old(self)@.wf(),
            obs.now <= CLOCK_LIMIT_NANOS,
        ensures
            (final(self)@, action) == after_top(old(self)@, *obs, live),
            final(self)@.wf(),
    {
        if obs.shutdown {
            self.phase = Phase::Done;
            return WorkerAction { active: Some(false), live: Some(LiveUpdate::Zero), effect: Effect::Exit };
        }
        let mode = BindMode::from_u8(obs.mode);
        let toggle = poll_toggle(mode, self.hotkey_toggle_active, self.prev_bind_down, obs.bind_down);
        self.hotkey_toggle_active = toggle;
        self.prev_bind_down = obs.bind_down;
        if obs.manual_active || hotkey_active(mode, toggle, obs.bind_down) {
            let cps: u32 = clamp_cps(obs.target_cps);
            let period: u64 = cps_to_period(cps);
            proof {
                law_period_fits_rate(cps);
            }
            self.next_deadline = resync_deadline(self.next_deadline, period, obs.now);
            self.wait_check(obs, period, Some(true), live)
        } else {
            self.next_deadline = obs.now;
            self.phase = Phase::Idle;
            WorkerAction {
                active: Some(false),
                live,
                effect: Effect::Sleep { nanos: IDLE_SLEEP_NANOS },
            }
        }
    }

    fn abort(&mut self, obs: &Observation) -> (action: WorkerAction)
        requires
            old(self)@.wf(),
            obs.now <= CLOCK_LIMIT_NANOS,
        ensures
            (final(self)@, action) == after_abort(old(self)@, *obs),
            final(self)@.wf(),
    {
        self.next_deadline = obs.now;
        let live = self.poll_live(obs.now);
        self.top(obs, live)
    }

    /// Whether the worker is still meant to click, by what it observed.
    fn still_active(&self, obs: &Observation) -> (active: bool)
        ensures
            active == still_active(self@, *obs),
    {
        obs.manual_active || hotkey_active(BindMode::from_u8(obs.mode), self.hotkey_toggle_active, obs.bind_down)
    }

    /// One step of the worker's loop: takes what the thread observed and
    /// returns what it must do next.
    pub fn step(&mut self, obs: &Observation) -> (action: WorkerAction)
        requires
            old(self)@.wf(),
            obs.now <= CLOCK_LIMIT_NANOS,
        ensures
            (final(self)@, action) == next_state(old(self)@, *obs),
            final(self)@.wf(),
    {
        match self.phase {
            Phase::Top => self.top(obs, None),
            Phase::Idle => {
                let live = self.poll_live(obs.now);
                self.top(obs, live)
            },
            Phase::Clicked { period } => {
                self.next_deadline = deadline_after_click(self.next_deadline, period, obs.now);
                let live = self.poll_live(obs.now);
                self.top(obs, live)
            },
            Phase::Coarse { period } => {
                if obs.shutdown || !self.still_active(obs) {
                    self.abort(obs)
                } else {
                    self.wait_check(obs, period, None, None)
                }
            },
            Phase::Spin { period } => {
                if obs.now >= self.next_deadline {
                    self.fire(period, None, None)
                } else if obs.shutdown || !self.still_active(obs) {
                    self.abort(obs)
                } else {
                    WorkerAction { active: None, live: None, effect: Effect::Spin }
                }
            },
            Phase::Done => WorkerAction { active: None, live: None, effect: Effect::Exit },
        }
    }
}

/// A click is only sent once its deadline has come: the new deadline is the
/// fired one plus the period, and the fired one is not after `now`. Outside the
/// spin stretch, the click also needs the same observation to show no stop
/// request and the clicker still on (in the spin stretch that check was made by
/// the observation before, and a deadline that has come fires at once).
pub proof fn law_click_only_when_due(w: WorkerView, o: Observation)
    requires
        w.wf(),
        o.now <= CLOCK_LIMIT_NANOS,
    ensures
        ({
            let (n, a) = next_state(w, o);
            a.effect == Effect::Click ==> {
                &&& n.phase is Clicked
                &&& valid_period(n.phase->Clicked_period)
                &&& n.next_deadline <= o.now + n.phase->Clicked_period
                &&& !(w.phase is Spin) ==> !o.shutdown && still_active(n, o)
            }
        }),
{
    law_period_fits_rate(clamped_cps(o.target_cps));
}

/// A stop request is honored at the next observation: the worker stops, and
/// unless it had already stopped it publishes that it is inactive with a live
/// rate of zero. (A worker in the spin stretch whose deadline has come sends
/// that click first and stops at the observation after.)
pub proof fn law_shutdown_stops_worker(w: WorkerView, o: Observation)
    requires
        w.wf(),
        o.now <= CLOCK_LIMIT_NANOS,
        o.shutdown,
        !(w.phase is Spin && o.now >= w.next_deadline),
    ensures
        ({
            let (n, a) = next_state(w, o);
            &&& n.phase == Phase::Done
            &&& a.effect == Effect::Exit
            &&& w.phase != Phase::Done ==> a.active == Some(false) && a.live == Some(LiveUpdate::Zero)
        }),
{
}

/// A stopped worker stays stopped and does nothing more.
pub proof fn law_done_is_final(w: WorkerView, o: Observation)
    requires
        w.phase == Phase::Done,
    ensures
        next_state(w, o) == (w, make_action(None, None, Effect::Exit)),
{
}

/// After a click the worker never clicks again at the next observation: the
/// deadline it waits for next lies after the moment it observed the click
/// done, and it is no earlier than the one scheduled at the click (the fired
/// deadline plus a period), so a worker that fell behind resynchronizes
/// instead of sending a burst, and deadlines are at least a period apart.
pub proof fn law_no_burst_after_click(w: WorkerView, o: Observation)
    requires
        w.wf(),
        o.now <= CLOCK_LIMIT_NANOS,
        w.phase is Clicked,
    ensures
        ({
            let (n, a) = next_state(w, o);
            &&& a.effect != Effect::Click
            &&& (n.phase is Coarse || n.phase is Spin) ==> n.next_deadline > o.now && n.next_deadline >= w.next_deadline
        }),
{
    law_period_fits_rate(clamped_cps(o.target_cps));
}

/// While inactive (no stop request, manual switch off, hotkey off after this
/// poll), the worker at its loop head publishes that it is inactive, resets
/// the deadline to now and sleeps for the idle interval.
pub proof fn law_idle_while_inactive(w: WorkerView, o: Observation)
    requires
        w.wf(),
        o.now <= CLOCK_LIMIT_NANOS,
        w.phase == Phase::Top || w.phase == Phase::Idle || w.phase is Clicked,
        !o.shutdown,
        !o.manual_active,
        !hotkey_engaged(
            mode_from_code(o.mode),
            toggle_after_poll(mode_from_code(o.mode), w.hotkey_toggle_active, w.prev_bind_down, o.bind_down),
            o.bind_down,
        ),
    ensures
        ({
            let (n, a) = next_state(w, o);
            &&& n.phase == Phase::Idle
            &&& n.next_deadline == o.now
            &&& a.active == Some(false)
            &&& a.effect == (Effect::Sleep { nanos: IDLE_SLEEP_NANOS })
        }),
{
}

/// The wait is hybrid: a coarse sleep is positive, at most one slice long, and
/// ends at least the spin stretch before the deadline; spinning only happens
/// before the deadline.
pub proof fn law_wait_is_hybrid(w: WorkerView, o: Observation)
    requires
        w.wf(),
        o.now <= CLOCK_LIMIT_NANOS,
    ensures
        ({
            let (n, a) = next_state(w, o);
            &&& n.phase is Coarse ==> {
                &&& a.effect is Sleep
                &&& 0 < a.effect->nanos <= MAX_COARSE_SLICE_NANOS
                &&& o.now + a.effect->nanos + SPIN_THRESHOLD_NANOS <= n.next_deadline
            }
            &&& a.effect == Effect::Spin ==> n.phase is Spin && o.now < n.next_deadline
        }),
{
}

/// At the loop head the hotkey is polled: the previous key state becomes the
/// observed one, and in `Toggle` mode the toggled state flips exactly on a
/// press while in `Hold` mode it does not change.
pub proof fn law_hotkey_poll(w: WorkerView, o: Observation)
    requires
        w.wf(),
        o.now <= CLOCK_LIMIT_NANOS,
        w.phase == Phase::Top,
        !o.shutdown,
    ensures
        ({
            let (n, a) = next_state(w, o);
            &&& n.prev_bind_down == o.bind_down
            &&& mode_from_code(o.mode) == BindMode::Toggle ==> n.hotkey_toggle_active == (w.hotkey_toggle_active != (o.bind_down && !w.prev_bind_down))
            &&& mode_from_code(o.mode) == BindMode::Hold ==> n.hotkey_toggle_active == w.hotkey_toggle_active
            &&& a.active == Some(o.manual_active || hotkey_engaged(mode_from_code(o.mode), n.hotkey_toggle_active, o.bind_down))
        }),
{
}

/// Whether a key is held down, from the state word the system reports for it:
/// the highest bit is set while the key is down.
pub fn key_down_from_state(state: i16) -> (down: bool)
    ensures
        down == (state < 0),
{
    let bits: u16 = state as u16;
    assert(((bits & 0x8000u16) != 0u16) == (state < 0)) by (bit_vector)
        requires
            bits == state as u16,
    ;
    (bits & 0x8000) != 0
}

/// The due time that arms the high-resolution timer for a sleep of `nanos`
/// nanoseconds: relative (negative), in units of 100 nanoseconds. A sleep
/// shorter than one unit is skipped (`None`).
pub fn relative_due_time(nanos: u64) -> (due: Option<i64>)
    ensures
        nanos < 100 ==> due is None,
        nanos >= 100 ==> due == Some((-((nanos / 100) as int)) as i64),
{
    let intervals: i64 = (nanos / 100) as i64;
    if intervals <= 0 {
        None
    } else {
        Some(-intervals)
    }
}

/// After a sleep or a click the live rate is polled: once at least a window's
/// worth of time has passed since the window started, the window (its clicks
/// and its length, or zero when it held none) is handed to the thread to
/// publish and a new window starts at this observation; before that, nothing
/// is published.
pub proof fn law_live_rate_per_window(w: WorkerView, o: Observation)
    requires
        w.wf(),
        o.now <= CLOCK_LIMIT_NANOS,
        w.phase == Phase::Idle || w.phase is Clicked,
        !o.shutdown,
    ensures
        ({
            let (n, a) = next_state(w, o);
            let elapsed = elapsed_since(w.window_start, o.now);
            &&& elapsed >= LIVE_WINDOW_NANOS ==> a.live == Some(window_update(w.window_clicks, elapsed))
                && n.window_start == o.now
            &&& elapsed < LIVE_WINDOW_NANOS ==> a.live is None && n.window_start == w.window_start
        }),
{
}

/// The engine starts from the window's settings: the target as configured
/// when it lies in `1..=MAX_CPS` (else the nearest end), the mode that its
/// code decodes to, the same hotkey and manual switch, and nothing published.
pub proof fn law_initial_shared_keeps_settings(config: AppConfig)
    ensures
        1 <= config.target_cps <= MAX_CPS ==> initial_shared(config).target_cps == config.target_cps,
        config.target_cps == 0 ==> initial_shared(config).target_cps == 1,
        config.target_cps > MAX_CPS ==> initial_shared(config).target_cps == MAX_CPS,
        mode_from_code(initial_shared(config).mode) == config.mode,
        initial_shared(config).bind_vk == config.bind_vk,
        initial_shared(config).manual_active == config.manual_active,
        !initial_shared(config).active && initial_shared(config).live_cps_x10 == 0,
        initial_shared(config).total_clicks == 0 && !initial_shared(config).worker_alive,
        !initial_shared(config).shutdown,
{
}

} // verus!
