//! Decides when the next background refresh is due: after a fixed interval
//! since the last fetch, or once the viewport has kept a new size for a quiet
//! period, or at once when a refresh has been forced.

use vstd::prelude::*;

verus! {

/// Default interval between two refreshes, in milliseconds.
pub const DEFAULT_TICK_INTERVAL_MS: u64 = 60_000;

/// Default quiet period after a resize, in milliseconds.
pub const DEFAULT_RESIZE_DEBOUNCE_MS: u64 = 1_500;

/// Default time that the event loop waits for input, in milliseconds.
pub const DEFAULT_INPUT_POLL_MS: u64 = 200;

/// Size of the viewport in character cells.
#[derive(Debug, Clone, Copy, PartialEq, Eq, Structural)]
pub struct Viewport {
    pub width: u16,
    pub height: u16,
}

/// The timing state of a scheduler. Times are milliseconds on the clock of
/// the event loop.
pub struct SchedulerModel {
    /// Interval after which a refresh is due again.
    pub tick_interval: nat,
    /// Time for which a new size must stay unchanged before it counts.
    pub debounce: nat,
    /// Time of the last recorded fetch.
    pub last_fetch_at: nat,
    /// Viewport size that the last recorded fetch was made for.
    pub fetch_size: Viewport,
    /// Viewport size seen at the last resize event.
    pub observed_size: Viewport,
    /// Time at which the observed size last changed.
    pub size_changed_at: nat,
    /// Whether a refresh has been forced and not yet recorded.
    pub forced: bool,
}

impl SchedulerModel {
    /// The state of a scheduler started at `now` with a viewport of `size`:
    /// the first refresh is due at once.
    pub open spec fn started(
        tick_interval: nat,
        debounce: nat,
        now: nat,
        size: Viewport,
    ) -> SchedulerModel {
        SchedulerModel {
            tick_interval,
            debounce,
            last_fetch_at: now,
            fetch_size: size,
            observed_size: size,
            size_changed_at: now,
            forced: true,
        }
    }

    /// The interval since the last fetch has passed.
    pub open spec fn tick_due(self, now: nat) -> bool {
        now >= self.last_fetch_at + self.tick_interval
    }

    /// The viewport differs from the one of the last fetch and has kept its
    /// size for the quiet period.
    pub open spec fn resize_due(self, now: nat, size: Viewport) -> bool {
        &&& size != self.fetch_size
        &&& size == self.observed_size
        &&& now >= self.size_changed_at + self.debounce
    }

    /// A refresh should be issued now.
    pub open spec fn due(self, now: nat, size: Viewport) -> bool {
        self.forced || self.tick_due(now) || self.resize_due(now, size)
    }

    /// The state after a fetch made at `now` for a viewport of `size`.
    pub open spec fn after_fetch(self, now: nat, size: Viewport) -> SchedulerModel {
        SchedulerModel { last_fetch_at: now, fetch_size: size, forced: false, ..self }
    }

    /// The state after the viewport was seen with `size` at `now`: a size
    /// that differs from the one seen before restarts the quiet period.
    pub open spec fn after_resize(self, now: nat, size: Viewport) -> SchedulerModel {
        if size != self.observed_size {
            SchedulerModel { observed_size: size, size_changed_at: now, ..self }
        } else {
            self
        }
    }

    /// The state after a refresh was forced.
    pub open spec fn after_force(self) -> SchedulerModel {
        SchedulerModel { forced: true, ..self }
    }

    /// Whole seconds until the next refresh by interval: none while a forced
    /// refresh is due at once, otherwise the time until the interval since
    /// the last fetch has passed. A clock that reads earlier than the last
    /// fetch counts as no time passed.
    pub open spec fn countdown(self, now: nat) -> nat {
        if self.forced {
            0
        } else if now < self.last_fetch_at {
            self.tick_interval / 1000
        } else if now - self.last_fetch_at >= self.tick_interval {
            0
        } else {
            ((self.tick_interval - (now - self.last_fetch_at)) / 1000) as nat
        }
    }
}

/// The refresh scheduler. Its timing state is read and changed through its
/// methods only.
#[derive(Debug, Clone, Copy)]
pub struct RefreshScheduler {
    tick_interval_ms: u64,
    debounce_ms: u64,
    last_fetch_at: u64,
    fetch_size: Viewport,
    observed_size: Viewport,
    size_changed_at: u64,
    forced: bool,
}

impl View for RefreshScheduler {
    type V = SchedulerModel;

    closed spec fn view(&self) -> SchedulerModel {
        SchedulerModel {
            tick_interval: self.tick_interval_ms as nat,
            debounce: self.debounce_ms as nat,
            last_fetch_at: self.last_fetch_at as nat,
            fetch_size: self.fetch_size,
            observed_size: self.observed_size,
            size_changed_at: self.size_changed_at as nat,
            forced: self.forced,
        }
    }
}

impl RefreshScheduler {
    /// A scheduler started at `now` with a viewport of `size`. The first
    /// refresh is due at once.
    pub fn new(tick_interval_ms: u64, debounce_ms: u64, now: u64, size: Viewport) -> (scheduler:
        RefreshScheduler)
        ensures
            scheduler@ == SchedulerModel::started(
                tick_interval_ms as nat,
                debounce_ms as nat,
                now as nat,
                size,
            ),
    {
        RefreshScheduler {
            tick_interval_ms,
            debounce_ms,
            last_fetch_at: now,
            fetch_size: size,
            observed_size: size,
            size_changed_at: now,
            forced: true,
        }
    }

    /// Decides whether a refresh should be issued now.
    pub fn is_due(&self, now: u64, size: Viewport) -> (due: bool)
        ensures
            due == self@.due(now as nat, size),
    {
        if self.forced {
            return true;
        }
        if now >= self.last_fetch_at && now - self.last_fetch_at >= self.tick_interval_ms {
            return true;
        }
        let resized = size.width != self.fetch_size.width || size.height != self.fetch_size.height;
        let settled = size.width == self.observed_size.width && size.height
            == self.observed_size.height;
        resized && settled && now >= self.size_changed_at && now - self.size_changed_at
            >= self.debounce_ms
    }

    /// Records a fetch made at `now` for a viewport of `size`: the interval
    /// starts anew, the size is remembered, and a forced refresh is done.
    pub fn record_fetch(&mut self, now: u64, size: Viewport)
        ensures
            final(self)@ == old(self)@.after_fetch(now as nat, size),
    {
        self.last_fetch_at = now;
        self.fetch_size = size;
        self.forced = false;
    }

    /// Records that the viewport was seen with `size` at `now`.
    pub fn record_resize(&mut self, now: u64, size: Viewport)
        ensures
            final(self)@ == old(self)@.after_resize(now as nat, size),
    {
        if size.width != self.observed_size.width || size.height != self.observed_size.height {
            self.observed_size = size;
            self.size_changed_at = now;
        }
    }

    /// Forces the next refresh to be due at once.
    pub fn force(&mut self)
        ensures
            final(self)@ == old(self)@.after_force(),
    {
        self.forced = true;
    }

    /// Whole seconds until the next refresh by interval.
    pub fn seconds_until_tick(&self, now: u64) -> (seconds: u64)
        ensures
            seconds == self@.countdown(now as nat),
    {
        if self.forced {
            0
        } else if now < self.last_fetch_at {
            self.tick_interval_ms / 1000
        } else if now - self.last_fetch_at >= self.tick_interval_ms {
            0
        } else {
            (self.tick_interval_ms - (now - self.last_fetch_at)) / 1000
        }
    }
}

/// After a fetch, and with the viewport unchanged, a refresh is due exactly
/// from the moment at which the tick interval has passed.
pub proof fn lemma_due_after_tick_interval(
    before: SchedulerModel,
    fetched_at: nat,
    size: Viewport,
    now: nat,
)
    ensures
        before.after_fetch(fetched_at, size).due(now, size) <==> now >= fetched_at
            + before.tick_interval,
{
}

/// A resize to a new size restarts the quiet period: whatever happened
/// before, the resize makes no refresh due until the debounce time has passed
/// since this latest change, and from then on it does for the new size,
/// provided that size differs from the one of the last fetch.
pub proof fn lemma_resize_restarts_debounce(
    before: SchedulerModel,
    resized_at: nat,
    size: Viewport,
    now: nat,
    current: Viewport,
)
    requires
        size != before.observed_size,
    ensures
        now < resized_at + before.debounce ==> !before.after_resize(resized_at, size).resize_due(
            now,
            current,
        ),
        now >= resized_at + before.debounce && size != before.fetch_size ==> before.after_resize(
            resized_at,
            size,
        ).resize_due(now, size),
{
}

/// Of two resizes in a row, each to a size other than the one before, only
/// the second counts: no refresh becomes due by resize before the debounce
/// time has passed since the second.
pub proof fn lemma_second_resize_restarts_debounce(
    before: SchedulerModel,
    first_at: nat,
    first_size: Viewport,
    second_at: nat,
    second_size: Viewport,
    now: nat,
    current: Viewport,
)
    requires
        first_size != second_size,
        now < second_at + before.debounce,
    ensures
        !before.after_resize(first_at, first_size).after_resize(second_at, second_size).resize_due(
            now,
            current,
        ),
{
}

/// The countdown reads zero exactly when a refresh is due by force or by
/// interval, as long as the clock has not gone back behind the last fetch.
pub proof fn lemma_countdown_zero_when_due(state: SchedulerModel, now: nat)
    requires
        now >= state.last_fetch_at,
    ensures
        state.forced || state.tick_due(now) ==> state.countdown(now) == 0,
        state.countdown(now) == 0 ==> state.forced || now + 1000 > state.last_fetch_at
            + state.tick_interval,
{
}

/// Seeing the viewport again with the size it already had leaves the quiet
/// period running.
pub proof fn lemma_same_size_keeps_debounce(before: SchedulerModel, now: nat)
    ensures
        before.after_resize(now, before.observed_size) == before,
{
}

} // verus!
