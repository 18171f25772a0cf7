//! The persisted configuration of the clicker and its bind mode.

use vstd::prelude::*;

verus! {

/// How the hotkey drives the clicker: `Toggle` flips clicking on each press,
/// `Hold` clicks only while the key is held down.
#[derive(Clone, Copy, Debug, PartialEq, Eq, Structural)]
pub enum BindMode {
    Toggle,
    Hold,
}

/// The number that stands for a bind mode in the engine's shared state.
pub open spec fn mode_code(mode: BindMode) -> u8 {
    match mode {
        BindMode::Toggle => 0,
        BindMode::Hold => 1,
    }
}

/// The bind mode that a stored number stands for: `1` is `Hold`, every other
/// number is `Toggle`.
pub open spec fn mode_from_code(value: u8) -> BindMode {
    if value == 1 {
        BindMode::Hold
    } else {
        BindMode::Toggle
    }
}

impl Default for BindMode {
    fn default() -> (mode: Self)
        ensures
            mode == BindMode::Toggle,
    {
        BindMode::Toggle
    }
}

impl BindMode {
    pub fn as_u8(self) -> (code: u8)
        ensures
            code == mode_code(self),
    {
        match self {
            BindMode::Toggle => 0,
            BindMode::Hold => 1,
        }
    }

    pub fn from_u8(value: u8) -> (mode: BindMode)
        ensures
            mode == mode_from_code(value),
    {
        match value {
            1 => BindMode::Hold,
            _ => BindMode::Toggle,
        }
    }

    pub fn label(self) -> (text: &'static str)
        ensures
            self == BindMode::Toggle ==> text@ == "Toggle"@,
            self == BindMode::Hold ==> text@ == "Hold"@,
    {
        match self {
            BindMode::Toggle => "Toggle",
            BindMode::Hold => "Hold",
        }
    }
}

/// Decoding the number that `as_u8` gives back yields the same mode.
pub proof fn law_mode_code_round_trip(mode: BindMode)
    ensures
        mode_from_code(mode_code(mode)) == mode,
{
}

/// Encoding a decoded number gives the number back when it is a valid code
/// (`0` or `1`), and `0` (the code of `Toggle`) for every other number.
pub proof fn law_mode_decode_encode(value: u8)
    ensures
        mode_code(mode_from_code(value)) == (if value == 1 { 1u8 } else { 0u8 }),
        value <= 1 ==> mode_code(mode_from_code(value)) == value,
{
}

/// Target clicks per second of a fresh configuration.
pub const DEFAULT_TARGET_CPS: u32 = 120;

/// Virtual-key code of the default hotkey, the `Y` key.
pub const DEFAULT_BIND_VK: u16 = 89;

/// The highest target the window's `+` button reaches.
pub const MAX_TARGET_CPS: u32 = 1000;

/// The settings that the window edits and that are saved between runs.
#[derive(Clone, Copy, Debug, PartialEq, Eq, Structural)]
pub struct AppConfig {
    pub target_cps: u32,
    pub mode: BindMode,
    pub bind_vk: u16,
    pub manual_active: bool,
}

/// The configuration used when none was saved or the saved one is unreadable.
pub open spec fn default_config() -> AppConfig {
    AppConfig {
        target_cps: DEFAULT_TARGET_CPS,
        mode: BindMode::Toggle,
        bind_vk: DEFAULT_BIND_VK,
        manual_active: false,
    }
}

impl Default for AppConfig {
    fn default() -> (config: Self)
        ensures
            config == default_config(),
    {
        AppConfig {
            target_cps: DEFAULT_TARGET_CPS,
            mode: BindMode::Toggle,
            bind_vk: DEFAULT_BIND_VK,
            manual_active: false,
        }
    }
}

/// The target after one press of `+`: one more, but never above the maximum.
pub open spec fn incremented_target(target: u32) -> u32 {
    if target + 1 <= MAX_TARGET_CPS {
        (target + 1) as u32
    } else {
        MAX_TARGET_CPS
    }
}

/// The target after one press of `-`: one less, but never below one.
pub open spec fn decremented_target(target: u32) -> u32 {
    if target <= 2 {
        1
    } else {
        (target - 1) as u32
    }
}

impl AppConfig {
    /// Raises the target by one, up to the maximum.
    pub fn increment_target(&mut self)
        ensures
            final(self).target_cps == incremented_target(old(self).target_cps),
            final(self).mode == old(self).mode,
            final(self).bind_vk == old(self).bind_vk,
            final(self).manual_active == old(self).manual_active,
    {
        let raised: u32 = self.target_cps.saturating_add(1);
        self.target_cps = if raised <= MAX_TARGET_CPS {
            raised
        } else {
            MAX_TARGET_CPS
        };
    }

    /// Lowers the target by one, but not below one.
    pub fn decrement_target(&mut self)
        ensures
            final(self).target_cps == decremented_target(old(self).target_cps),
            final(self).mode == old(self).mode,
            final(self).bind_vk == old(self).bind_vk,
            final(self).manual_active == old(self).manual_active,
    {
        let lowered: u32 = self.target_cps.saturating_sub(1);
        self.target_cps = if lowered >= 1 {
            lowered
        } else {
            1
        };
    }

    /// Flips the manual on/off switch.
    pub fn toggle_manual(&mut self)
        ensures
            final(self).manual_active == !old(self).manual_active,
            final(self).target_cps == old(self).target_cps,
            final(self).mode == old(self).mode,
            final(self).bind_vk == old(self).bind_vk,
    {
        self.manual_active = !self.manual_active;
    }
}

/// The configuration to start with, given what was read back from disk: the
/// saved configuration when there is one that could be read, else the default.
pub fn config_or_default(loaded: Option<AppConfig>) -> (config: AppConfig)
    ensures
        loaded is Some ==> config == loaded->Some_0,
        loaded is None ==> config == default_config(),
{
    match loaded {
        Some(config) => config,
        None => AppConfig::default(),
    }
}

/// One press of `-` undoes one press of `+` for every target below the maximum.
pub proof fn law_decrement_undoes_increment(target: u32)
    requires
        1 <= target < MAX_TARGET_CPS,
    ensures
        decremented_target(incremented_target(target)) == target,
{
}

/// The buttons keep the target within `1..=MAX_TARGET_CPS`: `+` never goes
/// above the maximum and `-` never below one, and both keep a target that
/// already lies in that range inside it.
pub proof fn law_buttons_keep_target_in_range(target: u32)
    ensures
        incremented_target(target) <= MAX_TARGET_CPS,
        1 <= decremented_target(target),
        1 <= target <= MAX_TARGET_CPS ==> 1 <= incremented_target(target),
        1 <= target <= MAX_TARGET_CPS ==> decremented_target(target) <= MAX_TARGET_CPS,
{
}

/// Saving is attempted at most once per this interval.
pub const SAVE_INTERVAL_NANOS: u64 = 150_000_000;

/// Limits how often the window writes the configuration to disk.
#[derive(Clone, Copy, Debug)]
pub struct SaveThrottle {
    /// When the last save was attempted (nanoseconds on the window's clock);
    /// `None` before the first one.
    pub last_attempt: Option<u64>,
}

/// Whether a save may be attempted at `now`: always at first, afterwards once
/// the interval has passed since the last attempt (a clock that went back
/// counts as no time passed).
pub open spec fn save_due(last_attempt: Option<u64>, now: u64) -> bool {
    match last_attempt {
        None => true,
        Some(last) => now >= last && now - last >= SAVE_INTERVAL_NANOS,
    }
}

impl SaveThrottle {
    pub fn new() -> (throttle: SaveThrottle)
        ensures
            throttle.last_attempt is None,
    {
        SaveThrottle { last_attempt: None }
    }

    /// Decides whether to save now; when it does, the attempt is recorded.
    /// Two attempts it allows are always at least the interval apart.
    pub fn try_begin(&mut self, now: u64) -> (due: bool)
        ensures
            due == save_due(old(self).last_attempt, now),
            due ==> final(self).last_attempt == Some(now),
            !due ==> final(self).last_attempt == old(self).last_attempt,
            due && old(self).last_attempt is Some ==> now - old(self).last_attempt->Some_0 >= SAVE_INTERVAL_NANOS,
    {
        let due = match self.last_attempt {
            None => true,
            Some(last) => now >= last && now - last >= SAVE_INTERVAL_NANOS,
        };
        if due {
            self.last_attempt = Some(now);
        }
        due
    }
}

} // verus!
