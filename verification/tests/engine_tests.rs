use imclicker_v2::config::{AppConfig, BindMode};
use imclicker_v2::engine::{
    clamp_cps, coarse_sleep_nanos, cps_to_period, deadline_after_click, hotkey_active, key_down_from_state,
    poll_toggle, relative_due_time, resync_deadline, Effect, LiveUpdate, Observation, SharedState, Worker,
    WorkerAction,
};

const MS: u64 = 1_000_000;

fn obs(now: u64) -> Observation {
    Observation { shutdown: false, target_cps: 1000, mode: 0, manual_active: true, bind_down: false, now }
}

fn action(active: Option<bool>, live: Option<LiveUpdate>, effect: Effect) -> WorkerAction {
    WorkerAction { active, live, effect }
}

#[test]
fn clamping_and_periods() {
    assert_eq!(clamp_cps(0), 1);
    assert_eq!(clamp_cps(1), 1);
    assert_eq!(clamp_cps(120), 120);
    assert_eq!(clamp_cps(1000), 1000);
    assert_eq!(clamp_cps(5000), 1000);
    assert_eq!(cps_to_period(1000), 1_000_000);
    assert_eq!(cps_to_period(120), 8_333_333);
    assert_eq!(cps_to_period(1), 1_000_000_000);
    assert_eq!(cps_to_period(0), 1_000_000_000);
    for cps in 1..=1000u32 {
        let period = cps_to_period(cps) as u128;
        assert!(period * cps as u128 <= 1_000_000_000);
        assert!((period + 1) * cps as u128 > 1_000_000_000);
    }
}

#[test]
fn deadline_helpers() {
    assert_eq!(resync_deadline(100, 10, 105), 100);
    assert_eq!(resync_deadline(100, 10, 110), 100);
    assert_eq!(resync_deadline(100, 10, 111), 111);
    assert_eq!(deadline_after_click(1_000, 500, 900), 1_000);
    assert_eq!(deadline_after_click(1_000, 500, 1_000), 1_500);
    assert_eq!(deadline_after_click(1_000, 500, 7_000), 7_500);
    assert_eq!(coarse_sleep_nanos(220_001), 1);
    assert_eq!(coarse_sleep_nanos(1_000_000), 780_000);
    assert_eq!(coarse_sleep_nanos(2_220_000), 2_000_000);
    assert_eq!(coarse_sleep_nanos(50_000_000), 2_000_000);
}

#[test]
fn hotkey_logic() {
    assert!(hotkey_active(BindMode::Toggle, true, false));
    assert!(!hotkey_active(BindMode::Toggle, false, true));
    assert!(hotkey_active(BindMode::Hold, false, true));
    assert!(!hotkey_active(BindMode::Hold, true, false));
    assert!(poll_toggle(BindMode::Toggle, false, false, true));
    assert!(!poll_toggle(BindMode::Toggle, true, false, true));
    assert!(!poll_toggle(BindMode::Toggle, false, true, true));
    assert!(poll_toggle(BindMode::Toggle, true, true, false));
    assert!(!poll_toggle(BindMode::Hold, false, false, true));
}

#[test]
fn key_state_and_timer_due_time() {
    assert!(key_down_from_state(i16::MIN));
    assert!(key_down_from_state(-1));
    assert!(!key_down_from_state(0));
    assert!(!key_down_from_state(1));
    assert!(!key_down_from_state(i16::MAX));
    assert_eq!(relative_due_time(0), None);
    assert_eq!(relative_due_time(99), None);
    assert_eq!(relative_due_time(100), Some(-1));
    assert_eq!(relative_due_time(2_000_000), Some(-20_000));
    assert_eq!(relative_due_time(u64::MAX), Some(-((u64::MAX / 100) as i64)));
}

#[test]
fn shared_state_from_config() {
    let config = AppConfig { target_cps: 5000, mode: BindMode::Hold, bind_vk: 0x20, manual_active: true };
    let mut shared = SharedState::new(&config);
    assert_eq!(shared.target_cps, 1000);
    assert_eq!(shared.mode, 1);
    assert_eq!(shared.bind_vk, 0x20);
    assert!(shared.manual_active);
    assert!(!shared.active);
    assert_eq!(shared.live_cps_x10, 0);
    assert_eq!(shared.total_clicks, 0);
    assert!(!shared.worker_alive);
    assert!(!shared.is_shutdown());

    let low = SharedState::new(&AppConfig { target_cps: 0, mode: BindMode::Toggle, bind_vk: 0x41, manual_active: false });
    assert_eq!(low.target_cps, 1);
    assert_eq!(low.mode, 0);
    assert_eq!(low.bind_vk, 0x41);
    assert!(!low.manual_active);

    shared.shutdown();
    assert!(shared.is_shutdown());
    assert_eq!(shared.target_cps, 1000);
    assert_eq!(shared.mode, 1);
}

#[test]
fn worker_clicks_on_schedule() {
    let mut worker = Worker::new(0);
    // Due at once: the first click fires.
    assert_eq!(worker.step(&obs(0)), action(Some(true), None, Effect::Click));
    // Next deadline 1 ms on: a coarse sleep that stops at the spin stretch.
    assert_eq!(worker.step(&obs(10_000)), action(Some(true), None, Effect::Sleep { nanos: 770_000 }));
    // Within the spin stretch: spin.
    assert_eq!(worker.step(&obs(780_000)), action(None, None, Effect::Spin));
    assert_eq!(worker.step(&obs(999_999)), action(None, None, Effect::Spin));
    // The deadline has come: the next click.
    assert_eq!(worker.step(&obs(1_000_000)), action(None, None, Effect::Click));
}

#[test]
fn worker_no_burst_after_falling_behind() {
    let mut worker = Worker::new(0);
    assert_eq!(worker.step(&obs(0)), action(Some(true), None, Effect::Click));
    // The click took 5 s: the worker waits a full period instead of catching up.
    let next = worker.step(&obs(5_000 * MS));
    assert_ne!(next.effect, Effect::Click);
    assert_eq!(next.active, Some(true));
    assert_eq!(next.effect, Effect::Sleep { nanos: 780_000 });
    // The live rate over that 5 s window is due: 1 click in 5 s.
    assert_eq!(next.live, Some(LiveUpdate::Rate { clicks: 1, elapsed_nanos: 5_000 * MS }));
}

#[test]
fn worker_idles_when_inactive() {
    let mut worker = Worker::new(0);
    let idle = Observation { manual_active: false, ..obs(3) };
    assert_eq!(worker.step(&idle), action(Some(false), None, Effect::Sleep { nanos: 2 * MS }));
    assert_eq!(
        worker.step(&Observation { now: 2 * MS + 3, ..idle }),
        action(Some(false), None, Effect::Sleep { nanos: 2 * MS })
    );
    // After a window of 300 ms without clicks, a live rate of zero is published.
    assert_eq!(
        worker.step(&Observation { now: 400 * MS, ..idle }),
        action(Some(false), Some(LiveUpdate::Zero), Effect::Sleep { nanos: 2 * MS })
    );
}

#[test]
fn worker_stops_on_shutdown() {
    let mut worker = Worker::new(0);
    assert_eq!(worker.step(&obs(0)), action(Some(true), None, Effect::Click));
    let stop = Observation { shutdown: true, ..obs(10) };
    assert_eq!(worker.step(&stop), action(Some(false), Some(LiveUpdate::Zero), Effect::Exit));
    assert_eq!(worker.step(&obs(20)), action(None, None, Effect::Exit));
}

#[test]
fn worker_stops_while_waiting() {
    let mut worker = Worker::new(0);
    assert_eq!(worker.step(&obs(0)), action(Some(true), None, Effect::Click));
    assert_eq!(worker.step(&obs(10_000)), action(Some(true), None, Effect::Sleep { nanos: 770_000 }));
    let stop = Observation { shutdown: true, ..obs(500_000) };
    assert_eq!(worker.step(&stop), action(Some(false), Some(LiveUpdate::Zero), Effect::Exit));
}

#[test]
fn spin_fires_a_due_click_before_seeing_the_stop() {
    let mut worker = Worker::new(0);
    assert_eq!(worker.step(&obs(0)), action(Some(true), None, Effect::Click));
    assert_eq!(worker.step(&obs(900_000)), action(Some(true), None, Effect::Spin));
    let stop = Observation { shutdown: true, ..obs(1_000_000) };
    assert_eq!(worker.step(&stop), action(None, None, Effect::Click));
    assert_eq!(worker.step(&stop), action(Some(false), Some(LiveUpdate::Zero), Effect::Exit));
}

#[test]
fn worker_toggle_hotkey() {
    let mut worker = Worker::new(0);
    let base = Observation { manual_active: false, mode: 0, ..obs(0) };
    // Key up: inactive.
    assert_eq!(worker.step(&base), action(Some(false), None, Effect::Sleep { nanos: 2 * MS }));
    // Press: toggled on, clicks at once.
    let pressed = Observation { bind_down: true, now: 2 * MS, ..base };
    assert_eq!(worker.step(&pressed), action(Some(true), None, Effect::Click));
    // Still held at the next loop head: stays on, waits for the next deadline.
    let held = Observation { bind_down: true, now: 2 * MS + 10_000, ..base };
    assert_eq!(worker.step(&held), action(Some(true), None, Effect::Sleep { nanos: 770_000 }));
    // Released while waiting: still on (toggle mode).
    let released = Observation { bind_down: false, now: 2 * MS + 500_000, ..base };
    assert_eq!(worker.step(&released), action(None, None, Effect::Sleep { nanos: 280_000 }));
}

#[test]
fn worker_hold_hotkey_stops_on_release() {
    let mut worker = Worker::new(0);
    let held = Observation { manual_active: false, mode: 1, bind_down: true, ..obs(0) };
    assert_eq!(worker.step(&held), action(Some(true), None, Effect::Click));
    let waiting = Observation { now: 10_000, ..held };
    assert_eq!(worker.step(&waiting), action(Some(true), None, Effect::Sleep { nanos: 770_000 }));
    // Released during the wait: the wait is cut short and the worker idles.
    let released = Observation { bind_down: false, now: 400_000, ..held };
    assert_eq!(worker.step(&released), action(Some(false), None, Effect::Sleep { nanos: 2 * MS }));
}

#[test]
fn worker_rate_follows_target() {
    let mut worker = Worker::new(0);
    let slow = Observation { target_cps: 10, ..obs(0) };
    assert_eq!(worker.step(&slow), action(Some(true), None, Effect::Click));
    // 10 cps: next deadline 100 ms on, coarse slices of 2 ms.
    assert_eq!(
        worker.step(&Observation { now: 1, ..slow }),
        action(Some(true), None, Effect::Sleep { nanos: 2 * MS })
    );
    // Target 0 is clamped to 1 click per second; the live rate over the first
    // window (one click in almost a second) is due.
    let mut worker = Worker::new(0);
    let zero = Observation { target_cps: 0, ..obs(0) };
    assert_eq!(worker.step(&zero), action(Some(true), None, Effect::Click));
    assert_eq!(
        worker.step(&Observation { now: 999_000 * 1000 - 220_000 - 5, ..zero }),
        action(Some(true), Some(LiveUpdate::Rate { clicks: 1, elapsed_nanos: 998_779_995 }), Effect::Sleep { nanos: 1_000_005 })
    );
}

#[test]
fn worker_hands_over_each_window() {
    // 239 clicks, one per millisecond, then the window closes at 305.92 ms
    // (whose rate, 7812.4999... tenths, the thread rounds in floating point).
    let mut worker = Worker::new(0);
    assert_eq!(worker.step(&obs(0)), action(Some(true), None, Effect::Click));
    for k in 1..239u64 {
        assert_eq!(worker.step(&obs(k * MS - 1)), action(Some(true), None, Effect::Spin));
        assert_eq!(worker.step(&obs(k * MS)), action(None, None, Effect::Click));
    }
    let closing = worker.step(&obs(305_920_000));
    assert_eq!(closing.live, Some(LiveUpdate::Rate { clicks: 239, elapsed_nanos: 305_920_000 }));
    assert_ne!(closing.effect, Effect::Click);
}

#[test]
fn toggle_follows_press_parity() {
    // Toggle mode, manual switch off. A step that publishes `active` is a poll
    // of the hotkey; the published value must be the parity of the presses
    // (key down at a poll after a poll that saw it up) so far.
    let mut worker = Worker::new(0);
    let keys = [false, true, true, false, true, false, false, true, true, true, false, true, false, false];
    let mut presses = 0u32;
    let mut last_polled = false;
    let mut polls = 0;
    for round in 0..3u64 {
        for (k, down) in keys.iter().enumerate() {
            let now = (round * keys.len() as u64 + k as u64) * 700_000;
            let o = Observation { manual_active: false, bind_down: *down, now, ..obs(0) };
            let a = worker.step(&o);
            if let Some(active) = a.active {
                polls += 1;
                if *down && !last_polled {
                    presses += 1;
                }
                last_polled = *down;
                assert_eq!(active, presses % 2 == 1);
            }
        }
    }
    assert!(polls > 20);
    assert!(presses >= 6);
}

#[test]
fn clicks_in_an_interval_are_bounded() {
    // Observations every 50 µs for 100 ms at 1000 clicks per second.
    let mut worker = Worker::new(0);
    let mut click_times = Vec::new();
    let mut now = 0u64;
    while now <= 100 * MS {
        if worker.step(&obs(now)).effect == Effect::Click {
            click_times.push(now);
        }
        now += 50_000;
    }
    let period = 1_000_000u64;
    for (i, &first) in click_times.iter().enumerate() {
        for (j, &last) in click_times.iter().enumerate().skip(i + 1) {
            let between = (j - i - 1) as u64;
            assert!(last > first + between * period);
        }
    }
    // Any stretch of 10 ms holds fewer than 10 + 2 clicks.
    for &start in &click_times {
        let inside = click_times.iter().filter(|&&t| t >= start && t <= start + 10 * MS).count() as u64;
        assert!(inside * period < 10 * MS + 2 * period);
    }
    assert!(click_times.len() >= 90);
}

#[test]
fn clicks_only_while_shown_active() {
    // Hold mode with the key going up and down: the shared `active` flag, as
    // the thread stores it, is true at every click, and the click total counts
    // every click once.
    let mut worker = Worker::new(0);
    let mut shown_active = false;
    let mut total = 0u64;
    let mut clicks = 0u64;
    for k in 0..5_000u64 {
        let down = (k / 37) % 3 != 0;
        let o = Observation { manual_active: false, mode: 1, bind_down: down, now: k * 130_000, ..obs(0) };
        let a = worker.step(&o);
        if let Some(active) = a.active {
            shown_active = active;
        }
        if a.effect == Effect::Click {
            assert!(shown_active);
            total = total.wrapping_add(1);
            clicks += 1;
        }
    }
    assert_eq!(total, clicks);
    assert!(clicks > 100);
}

#[test]
fn clicks_by_hotkey_are_spaced_too() {
    // Hold mode with the key held and the manual switch off, 500 clicks per
    // second, observed every 30 µs for 60 ms.
    let mut worker = Worker::new(0);
    let mut click_times = Vec::new();
    let mut now = 0u64;
    while now <= 60 * MS {
        let o = Observation { manual_active: false, mode: 1, bind_down: true, target_cps: 500, ..obs(now) };
        if worker.step(&o).effect == Effect::Click {
            click_times.push(now);
        }
        now += 30_000;
    }
    let period = 2_000_000u64;
    for (i, &first) in click_times.iter().enumerate() {
        for (j, &last) in click_times.iter().enumerate().skip(i + 1) {
            assert!(last > first + (j - i - 1) as u64 * period);
        }
    }
    assert!(click_times.len() >= 28);
}
