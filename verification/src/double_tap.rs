//! Detector for a double tap of the Control key, which toggles the overlay.
//! Times are milliseconds on a monotonic clock chosen by the caller.

use vstd::prelude::*;

verus! {

/// The window of the overlay's Control double tap, in milliseconds.
pub const DOUBLE_TAP_WINDOW_MS: u64 = 300;

/// Progress of the detector.
#[derive(Debug, Clone, Copy, PartialEq, Eq, Structural)]
pub enum TapState {
    Idle,
    FirstTapSeen { tap_time_ms: u64 },
    Triggered,
}

/// Detects two presses of the same key within a time window.
pub struct DoubleTapDetector {
    state: TapState,
    window_ms: u64,
}

/// The state after a press at `now` with window `window`, and whether that
/// press completed a double tap. Only press-to-press timing counts; a clock
/// that runs backwards counts as no elapsed time.
pub open spec fn key_down_step(state: TapState, window: u64, now: u64) -> (TapState, bool) {
    match state {
        TapState::Idle => (TapState::FirstTapSeen { tap_time_ms: now }, false),
        TapState::FirstTapSeen { tap_time_ms } => {
            let elapsed = if now >= tap_time_ms {
                now - tap_time_ms
            } else {
                0
            };
            if elapsed <= window {
                (TapState::Triggered, true)
            } else {
                (TapState::FirstTapSeen { tap_time_ms: now }, false)
            }
        },
        TapState::Triggered => (TapState::Triggered, false),
    }
}

impl DoubleTapDetector {
    pub closed spec fn state(&self) -> TapState {
        self.state
    }

    pub closed spec fn window(&self) -> u64 {
        self.window_ms
    }

    /// A detector in the idle state whose second press must come within
    /// `window_ms` milliseconds of the first.
    pub fn new(window_ms: u64) -> (d: DoubleTapDetector)
        ensures
            d.state() == TapState::Idle,
            d.window() == window_ms,
    {
        DoubleTapDetector { state: TapState::Idle, window_ms }
    }

    /// Record a press at `now_ms`; true exactly when it completes a double tap.
    pub fn key_down(&mut self, now_ms: u64) -> (completed: bool)
        ensures
            (final(self).state(), completed) == key_down_step(old(self).state(), old(self).window(), now_ms),
            final(self).window() == old(self).window(),
    {
        match self.state {
            TapState::Idle => {
                self.state = TapState::FirstTapSeen { tap_time_ms: now_ms };
                false
            },
            TapState::FirstTapSeen { tap_time_ms } => {
                let elapsed = now_ms.saturating_sub(tap_time_ms);
                if elapsed <= self.window_ms {
                    self.state = TapState::Triggered;
                    true
                } else {
                    self.state = TapState::FirstTapSeen { tap_time_ms: now_ms };
                    false
                }
            },
            TapState::Triggered => false,
        }
    }

    /// Releases do not matter: only press-to-press timing counts.
    pub fn key_up(&mut self, now_ms: u64)
        ensures
            final(self).state() == old(self).state(),
            final(self).window() == old(self).window(),
    {
    }

    /// Any other key cancels detection.
    pub fn other_key_pressed(&mut self)
        ensures
            final(self).state() == TapState::Idle,
            final(self).window() == old(self).window(),
    {
        self.state = TapState::Idle;
    }

    /// Whether a double tap has been detected and not yet consumed.
    pub fn is_triggered(&self) -> (b: bool)
        ensures
            b == (self.state() is Triggered),
    {
        matches!(self.state, TapState::Triggered)
    }

    /// Reset to idle after the overlay has been toggled.
    pub fn consume(&mut self)
        ensures
            final(self).state() == TapState::Idle,
            final(self).window() == old(self).window(),
    {
        self.state = TapState::Idle;
    }
}

/// Two presses complete a double tap exactly when the second comes within
/// the window after the first, starting from idle.
pub proof fn lemma_two_presses(window: u64, t0: u64, t1: u64)
    ensures
        !key_down_step(TapState::Idle, window, t0).1,
        key_down_step(key_down_step(TapState::Idle, window, t0).0, window, t1).1 <==> (
        if t1 >= t0 {
            t1 - t0 <= window
        } else {
            true
        }),
{
}

/// Once triggered, further presses report nothing until the trigger is
/// consumed (or cancelled by another key).
pub proof fn lemma_triggered_is_sticky(window: u64, now: u64)
    ensures
        key_down_step(TapState::Triggered, window, now) == (TapState::Triggered, false),
{
}

/// One call made on a detector, as far as its state is concerned
/// (`is_triggered` changes nothing and is left out).
pub enum TapCall {
    KeyDown { now_ms: u64 },
    KeyUp { now_ms: u64 },
    OtherKey,
    Consume,
}

/// The state after one call, as the methods' contracts give it.
pub open spec fn tap_call_step(state: TapState, window: u64, call: TapCall) -> TapState {
    match call {
        TapCall::KeyDown { now_ms } => key_down_step(state, window, now_ms).0,
        TapCall::KeyUp { .. } => state,
        TapCall::OtherKey => TapState::Idle,
        TapCall::Consume => TapState::Idle,
    }
}

/// The state after a whole sequence of calls, made in order from `start`.
pub open spec fn tap_after(start: TapState, window: u64, calls: Seq<TapCall>) -> TapState
    decreases calls.len(),
{
    if calls.len() == 0 {
        start
    } else {
        tap_call_step(tap_after(start, window, calls.drop_last()), window, calls.last())
    }
}

/// Whether call `i` of the sequence is a press that reported a completed
/// double tap.
pub open spec fn press_completed(start: TapState, window: u64, calls: Seq<TapCall>, i: int) -> bool {
    match calls[i] {
        TapCall::KeyDown { now_ms } => key_down_step(
            tap_after(start, window, calls.take(i)),
            window,
            now_ms,
        ).1,
        _ => false,
    }
}

/// Whether a call cancels detection.
pub open spec fn is_reset(call: TapCall) -> bool {
    call is OtherKey || call is Consume
}

/// Over any sequence of calls on a fresh detector, it reports a trigger
/// exactly when some press returned true and no `other_key_pressed` or
/// `consume` came after that press; releases change nothing.
pub proof fn lemma_triggered_iff_unconsumed_completion(window: u64, calls: Seq<TapCall>)
    ensures
        (tap_after(TapState::Idle, window, calls) is Triggered) <==> (exists|i: int|
            0 <= i < calls.len() && #[trigger] press_completed(TapState::Idle, window, calls, i)
                && forall|j: int| i < j < calls.len() ==> !is_reset(#[trigger] calls[j])),
    decreases calls.len(),
{
    let n = calls.len() as int;
    if n == 0 {
        return;
    }
    let prefix = calls.drop_last();
    lemma_triggered_iff_unconsumed_completion(window, prefix);
    let prev = tap_after(TapState::Idle, window, prefix);
    assert(calls.take(n - 1) =~= prefix);
    assert forall|i: int| 0 <= i < n - 1 implies press_completed(TapState::Idle, window, calls, i)
        == press_completed(TapState::Idle, window, prefix, i) by {
        assert(calls.take(i) =~= prefix.take(i));
        assert(calls[i] == prefix[i]);
    }
    let last = calls.last();
    if prev is Triggered {
        let i = choose|i: int|
            0 <= i < prefix.len() && #[trigger] press_completed(TapState::Idle, window, prefix, i)
                && forall|j: int| i < j < prefix.len() ==> !is_reset(#[trigger] prefix[j]);
        if !is_reset(last) {
            assert(press_completed(TapState::Idle, window, calls, i));
            assert forall|j: int| i < j < n implies !is_reset(#[trigger] calls[j]) by {
                if j < n - 1 {
                    assert(calls[j] == prefix[j]);
                }
            }
        }
    } else {
        assert forall|i: int| 0 <= i < n - 1 && #[trigger] press_completed(TapState::Idle, window, calls, i)
            implies exists|j: int| i < j < n && is_reset(#[trigger] calls[j]) by {
            assert(press_completed(TapState::Idle, window, prefix, i));
            let j = choose|j: int| i < j < prefix.len() && is_reset(#[trigger] prefix[j]);
            assert(calls[j] == prefix[j]);
        }
        if press_completed(TapState::Idle, window, calls, n - 1) {
            assert(tap_after(TapState::Idle, window, calls) is Triggered);
        } else {
            assert(!(tap_after(TapState::Idle, window, calls) is Triggered));
        }
    }
}

} // verus!
