//! Single press or double tap: when a press of the global shortcut starts an upload.
use vstd::prelude::*;

verus! {

/// The longest gap, in milliseconds, between two presses that counts as a double tap.
pub const DOUBLE_TAP_WINDOW_MS: u64 = 400;

/// The gap from `p` to `now`, zero when `now` is earlier (as `Instant::duration_since`).
pub open spec fn gap(p: u64, now: u64) -> int {
    if now >= p {
        now - p
    } else {
        0
    }
}

/// A press fires when the previous press is at most `window` earlier; firing clears the
/// stored press, otherwise this press is stored.
pub open spec fn should_fire_spec(prev: Option<u64>, now: u64, window: u64) -> (bool, Option<u64>) {
    match prev {
        Some(p) => if gap(p, now) <= window {
            (true, None)
        } else {
            (false, Some(now))
        },
        None => (false, Some(now)),
    }
}

/// Decide whether a press should fire the upload and what the new `last_press` state is.
///
/// * `prev` — time of the previous press, if any.
/// * `now` — time of the current press.
/// * `window` — max gap between two presses that counts as a double tap.
///
/// All three in the same unit (the application uses milliseconds of a monotonic clock).
pub fn should_fire(prev: Option<u64>, now: u64, window: u64) -> (r: (bool, Option<u64>))
    ensures
        r == should_fire_spec(prev, now, window),
{
    match prev {
        Some(p) => {
            let gap: u64 = if now >= p {
                now - p
            } else {
                0
            };
            if gap <= window {
                (true, None)
            } else {
                (false, Some(now))
            }
        },
        None => (false, Some(now)),
    }
}

/// What a press of the shortcut does: with the configuration unreadable (`double_tap` is
/// `None`) or double tap off, every press fires and the stored press is left as it was; with
/// double tap on, `should_fire` decides within `DOUBLE_TAP_WINDOW_MS`.
pub open spec fn on_press_spec(double_tap: Option<bool>, prev: Option<u64>, now: u64) -> (
    bool,
    Option<u64>,
) {
    match double_tap {
        Some(true) => should_fire_spec(prev, now, DOUBLE_TAP_WINDOW_MS),
        _ => (true, prev),
    }
}

/// Decide a press of the global shortcut; returns whether to upload and the press to store.
pub fn on_shortcut_press(double_tap: Option<bool>, prev: Option<u64>, now: u64) -> (r: (
    bool,
    Option<u64>,
))
    ensures
        r == on_press_spec(double_tap, prev, now),
{
    match double_tap {
        Some(true) => should_fire(prev, now, DOUBLE_TAP_WINDOW_MS),
        _ => (true, prev),
    }
}

/// A first press only arms; a second press within the window fires and disarms; a press
/// after that arms again.
pub proof fn lemma_double_tap(t0: u64, t1: u64, t2: u64, window: u64)
    requires
        t0 <= t1,
        t1 - t0 <= window,
    ensures
        should_fire_spec(None, t0, window) == (false, Some(t0)),
        should_fire_spec(Some(t0), t1, window) == (true, None::<u64>),
        should_fire_spec(should_fire_spec(Some(t0), t1, window).1, t2, window) == (false, Some(t2)),
{
}

/// Presses further apart than the window never fire: each one re-arms.
pub proof fn lemma_slow_presses_rearm(t0: u64, t1: u64, window: u64)
    requires
        t0 <= t1,
        t1 - t0 > window,
    ensures
        should_fire_spec(Some(t0), t1, window) == (false, Some(t1)),
{
}

} // verus!
