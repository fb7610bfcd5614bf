use vstd::prelude::*;

use crate::ime::ImeMode;

verus! {

/// How long the indicator fades in, in nanoseconds (120 ms).
pub const FADE_IN_NANOS: u64 = 120_000_000;

/// How long the indicator stays fully shown between the fades, in nanoseconds (1.5 s).
pub const VISIBLE_NANOS: u64 = 1_500_000_000;

/// How long the indicator fades out, in nanoseconds (200 ms).
pub const FADE_OUT_NANOS: u64 = 200_000_000;

/// The display lifecycle. Times are nanoseconds on the clock of the `App` that holds the phase.
#[derive(Debug, Clone, Copy, PartialEq, Eq, Structural)]
pub enum Phase {
    Hidden,
    FadeIn { start: u64 },
    Visible { until: u64 },
    FadeOut { start: u64 },
}

/// What a tick asks the overlay to draw. The two fading variants carry the time spent
/// in the fade so far, which is always shorter than the fade; the caller maps it onto
/// its easing curve (ease-out over `FADE_IN_NANOS`, ease-in over `FADE_OUT_NANOS`).
#[derive(Debug, Clone, Copy, PartialEq, Eq, Structural)]
pub enum Opacity {
    /// Nothing to draw.
    Hidden,
    /// Fading in; opacity is `ease_out(elapsed / FADE_IN_NANOS)`.
    FadingIn { elapsed: u64 },
    /// Fully opaque.
    Opaque,
    /// Fading out; opacity is `1 - ease_in(elapsed / FADE_OUT_NANOS)`.
    FadingOut { elapsed: u64 },
}

/// `now - start`, or 0 when `start` lies after `now`.
pub open spec fn elapsed_since(now: u64, start: u64) -> u64 {
    if now >= start {
        (now - start) as u64
    } else {
        0
    }
}

/// `now + span`, or `u64::MAX` when that does not fit.
pub open spec fn later_by(now: u64, span: u64) -> u64 {
    if now + span <= u64::MAX {
        (now + span) as u64
    } else {
        u64::MAX
    }
}

/// One step of the lifecycle at time `now`: the next phase and what to draw.
pub open spec fn spec_tick(phase: Phase, now: u64) -> (Phase, Opacity) {
    match phase {
        Phase::Hidden => (Phase::Hidden, Opacity::Hidden),
        Phase::FadeIn { start } => {
            let elapsed = elapsed_since(now, start);
            if elapsed >= FADE_IN_NANOS {
                (Phase::Visible { until: later_by(now, VISIBLE_NANOS) }, Opacity::Opaque)
            } else {
                (phase, Opacity::FadingIn { elapsed })
            }
        },
        Phase::Visible { until } => {
            if now >= until {
                (Phase::FadeOut { start: now }, Opacity::Opaque)
            } else {
                (phase, Opacity::Opaque)
            }
        },
        Phase::FadeOut { start } => {
            let elapsed = elapsed_since(now, start);
            if elapsed >= FADE_OUT_NANOS {
                (Phase::Hidden, Opacity::Hidden)
            } else {
                (phase, Opacity::FadingOut { elapsed })
            }
        },
    }
}

/// The phase after a key press that keeps the indicator on screen at time `now`:
/// a hidden or fading-out indicator fades in again, a fully shown one has its
/// shown time restarted, one that is fading in goes on fading in.
pub open spec fn spec_key_activity(phase: Phase, now: u64) -> Phase {
    match phase {
        Phase::Hidden => Phase::FadeIn { start: now },
        Phase::FadeIn { start } => phase,
        Phase::Visible { until } => Phase::Visible { until: later_by(now, VISIBLE_NANOS) },
        Phase::FadeOut { start } => Phase::FadeIn { start: now },
    }
}

/// The position of a phase along the display lifecycle, which runs
/// fade-in, fully shown, fade-out, hidden.
pub open spec fn phase_rank(phase: Phase) -> int {
    match phase {
        Phase::FadeIn { .. } => 0,
        Phase::Visible { .. } => 1,
        Phase::FadeOut { .. } => 2,
        Phase::Hidden => 3,
    }
}

/// A hidden indicator stays hidden and draws nothing, whenever it is ticked.
pub proof fn lemma_hidden_stays_hidden(now: u64)
    ensures
        spec_tick(Phase::Hidden, now) == (Phase::Hidden, Opacity::Hidden),
{
}

/// A tick draws nothing exactly when it leaves the indicator hidden.
pub proof fn lemma_nothing_drawn_iff_hidden(phase: Phase, now: u64)
    ensures
        (spec_tick(phase, now).1 is Hidden) <==> (spec_tick(phase, now).0 is Hidden),
{
}

/// The time reported for a fade is always shorter than that fade, so the fraction
/// of the fade that has passed lies in [0, 1).
pub proof fn lemma_fade_progress_within_fade(phase: Phase, now: u64)
    ensures
        spec_tick(phase, now).1 matches Opacity::FadingIn { elapsed } ==> elapsed < FADE_IN_NANOS,
        spec_tick(phase, now).1 matches Opacity::FadingOut { elapsed } ==> elapsed < FADE_OUT_NANOS,
{
}

/// A tick never moves the lifecycle backwards and moves it at most one phase forward.
pub proof fn lemma_tick_moves_at_most_one_phase(phase: Phase, now: u64)
    ensures
        phase_rank(spec_tick(phase, now).0) == phase_rank(phase)
            || phase_rank(spec_tick(phase, now).0) == phase_rank(phase) + 1,
{
}

/// Before the fade-in has lasted `FADE_IN_NANOS` the indicator keeps fading in.
pub proof fn lemma_fading_in_until_done(start: u64, now: u64)
    requires
        start <= now,
        now < start + FADE_IN_NANOS,
    ensures
        spec_tick(Phase::FadeIn { start }, now) == (
        Phase::FadeIn { start },
        Opacity::FadingIn { elapsed: (now - start) as u64 },
        ),
{
}

/// A fully shown indicator stays fully shown until its deadline.
pub proof fn lemma_shown_until_deadline(until: u64, now: u64)
    requires
        now < until,
    ensures
        spec_tick(Phase::Visible { until }, now) == (Phase::Visible { until }, Opacity::Opaque),
{
}

/// Before the fade-out has lasted `FADE_OUT_NANOS` the indicator keeps fading out.
pub proof fn lemma_fading_out_until_done(start: u64, now: u64)
    requires
        start <= now,
        now < start + FADE_OUT_NANOS,
    ensures
        spec_tick(Phase::FadeOut { start }, now) == (
        Phase::FadeOut { start },
        Opacity::FadingOut { elapsed: (now - start) as u64 },
        ),
{
}

/// A display runs its whole course: fading in from `start`, a tick at `t1` after the
/// fade-in shows it fully until `t1 + VISIBLE_NANOS`, a tick at `t2` after that starts
/// the fade-out, and a tick at `t3` after the fade-out hides it and draws nothing.
pub proof fn lemma_display_runs_its_course(start: u64, t1: u64, t2: u64, t3: u64)
    requires
        start + FADE_IN_NANOS <= t1,
        t1 + VISIBLE_NANOS <= t2,
        t2 + FADE_OUT_NANOS <= t3,
    ensures
        spec_tick(Phase::FadeIn { start }, t1) == (
        Phase::Visible { until: (t1 + VISIBLE_NANOS) as u64 },
        Opacity::Opaque,
        ),
        spec_tick(Phase::Visible { until: (t1 + VISIBLE_NANOS) as u64 }, t2) == (
        Phase::FadeOut { start: t2 },
        Opacity::Opaque,
        ),
        spec_tick(Phase::FadeOut { start: t2 }, t3) == (Phase::Hidden, Opacity::Hidden),
{
}

/// A key press that keeps the indicator on screen never leaves it hidden, and never
/// shortens a full display.
pub proof fn lemma_key_activity_shows(phase: Phase, now: u64)
    ensures
        !(spec_key_activity(phase, now) is Hidden),
        phase is Visible ==> spec_key_activity(phase, now) is Visible,
        phase is FadeIn ==> spec_key_activity(phase, now) == phase,
{
}

/// What a key press at `now` does to each phase: a hidden or fading-out indicator
/// starts fading in at `now`; a fully shown one is shown `VISIBLE_NANOS` from `now`,
/// whatever its deadline was (the end of the clock when that does not fit); one that
/// is fading in keeps fading in from where it started.
pub proof fn lemma_key_activity_restarts(start: u64, until: u64, now: u64)
    ensures
        spec_key_activity(Phase::Hidden, now) == (Phase::FadeIn { start: now }),
        spec_key_activity(Phase::FadeOut { start }, now) == (Phase::FadeIn { start: now }),
        spec_key_activity(Phase::FadeIn { start }, now) == (Phase::FadeIn { start }),
        now + VISIBLE_NANOS <= u64::MAX ==> spec_key_activity(Phase::Visible { until }, now) == (
        Phase::Visible { until: (now + 1_500_000_000) as u64 }),
        now + VISIBLE_NANOS > u64::MAX ==> spec_key_activity(Phase::Visible { until }, now) == (
        Phase::Visible { until: u64::MAX }),
{
}

/// What a tick at `now` does, phase by phase, in milliseconds of the design: a
/// fade-in that has run 120 ms ends, showing the indicator fully for 1.5 s from
/// `now`; before that it reports how long it has run; a full display ends at its
/// deadline and starts fading out at `now`; a fade-out that has run 200 ms hides the
/// indicator, before that it reports how long it has run; hidden stays hidden.
pub proof fn lemma_tick_steps(start: u64, until: u64, now: u64)
    ensures
        start <= now && now - start >= 120_000_000 && now + 1_500_000_000 <= u64::MAX
            ==> spec_tick(Phase::FadeIn { start }, now) == (
        Phase::Visible { until: (now + 1_500_000_000) as u64 },
        Opacity::Opaque,
        ),
        start <= now && now - start < 120_000_000 ==> spec_tick(Phase::FadeIn { start }, now) == (
        Phase::FadeIn { start },
        Opacity::FadingIn { elapsed: (now - start) as u64 },
        ),
        now >= until ==> spec_tick(Phase::Visible { until }, now) == (
        Phase::FadeOut { start: now },
        Opacity::Opaque,
        ),
        now < until ==> spec_tick(Phase::Visible { until }, now) == (
        Phase::Visible { until },
        Opacity::Opaque,
        ),
        start <= now && now - start >= 200_000_000 ==> spec_tick(Phase::FadeOut { start }, now) == (
        Phase::Hidden,
        Opacity::Hidden,
        ),
        start <= now && now - start < 200_000_000 ==> spec_tick(Phase::FadeOut { start }, now) == (
        Phase::FadeOut { start },
        Opacity::FadingOut { elapsed: (now - start) as u64 },
        ),
        spec_tick(Phase::Hidden, now) == (Phase::Hidden, Opacity::Hidden),
{
}

/// How long a whole display lasts when nothing interrupts it: fade-in, full display
/// and fade-out (1.82 s).
pub open spec fn display_nanos() -> int {
    FADE_IN_NANOS + VISIBLE_NANOS + FADE_OUT_NANOS
}

/// The phase after ticking `phase` at each of `times` in turn.
pub open spec fn run_ticks(phase: Phase, times: Seq<u64>) -> Phase
    decreases times.len(),
{
    if times.len() == 0 {
        phase
    } else {
        spec_tick(run_ticks(phase, times.drop_last()), times.last()).0
    }
}

/// What the tick at `times[k]` draws, when `phase` is ticked at each of `times` in turn.
pub open spec fn tick_output(phase: Phase, times: Seq<u64>, k: int) -> Opacity {
    spec_tick(run_ticks(phase, times.take(k)), times[k]).1
}

/// Ticks that follow a mode change at `start`: the first comes at most `gap` after it,
/// each later one at most `gap` after the one before, none goes back in time, and
/// none is so late that the end of a full display no longer fits in the clock.
pub open spec fn ticks_spaced(start: u64, times: Seq<u64>, gap: u64) -> bool {
    &&& times.len() > 0 ==> start <= times[0] <= start + gap
    &&& forall|i: int| 1 <= i < times.len() ==> times[i - 1] <= #[trigger] times[i] <= times[i - 1] + gap
    &&& forall|i: int| 0 <= i < times.len() ==> #[trigger] times[i] + VISIBLE_NANOS <= u64::MAX
}

/// Where a display that started at `start` can be after a tick at `now`, when ticks
/// come at most `gap` apart.
pub open spec fn display_progress(start: u64, gap: u64, phase: Phase, now: u64) -> bool {
    match phase {
        Phase::FadeIn { start: s } => s == start && now < start + FADE_IN_NANOS,
        Phase::Visible { until } => now < until && until <= start + FADE_IN_NANOS + VISIBLE_NANOS
            + gap,
        Phase::FadeOut { start: s } => s <= now && now < s + FADE_OUT_NANOS && s <= start
            + FADE_IN_NANOS + VISIBLE_NANOS + 2 * gap,
        Phase::Hidden => true,
    }
}

proof fn lemma_run_ticks_step(phase: Phase, times: Seq<u64>, k: int)
    requires
        0 <= k < times.len(),
    ensures
        run_ticks(phase, times.take(k + 1)) == spec_tick(run_ticks(phase, times.take(k)), times[k]).0,
{
    assert(times.take(k + 1).drop_last() =~= times.take(k));
}

proof fn lemma_display_progress(start: u64, times: Seq<u64>, gap: u64, k: int)
    requires
        ticks_spaced(start, times, gap),
        0 <= k < times.len(),
    ensures
        display_progress(start, gap, run_ticks(Phase::FadeIn { start }, times.take(k + 1)), times[k]),
    decreases k,
{
    lemma_run_ticks_step(Phase::FadeIn { start }, times, k);
    if k == 0 {
        assert(times.take(0) =~= Seq::<u64>::empty());
    } else {
        lemma_display_progress(start, times, gap, k - 1);
        assert(times[k - 1] <= times[k] <= times[k - 1] + gap);
    }
}

/// A display ends on its own: after a mode change at `start`, with ticks at most `gap`
/// apart, every tick at or after `start + 1.82 s + 2 * gap` draws nothing and leaves
/// the indicator hidden.
pub proof fn lemma_display_ends(start: u64, times: Seq<u64>, gap: u64, k: int)
    requires
        ticks_spaced(start, times, gap),
        0 <= k < times.len(),
        times[k] >= start + display_nanos() + 2 * gap,
    ensures
        run_ticks(Phase::FadeIn { start }, times.take(k + 1)) is Hidden,
        tick_output(Phase::FadeIn { start }, times, k) is Hidden,
{
    lemma_run_ticks_step(Phase::FadeIn { start }, times, k);
    if k == 0 {
        assert(times.take(0) =~= Seq::<u64>::empty());
    } else {
        lemma_display_progress(start, times, gap, k - 1);
        assert(times[k - 1] <= times[k] <= times[k - 1] + gap);
    }
}

proof fn lemma_tick_in_window(start: u64, times: Seq<u64>, gap: u64, bound: int, i: int)
    requires
        ticks_spaced(start, times, gap),
        0 <= i < times.len(),
        bound >= start,
    ensures
        times[i] < bound || exists|k: int|
            0 <= k <= i && bound <= #[trigger] times[k] <= bound + gap,
    decreases i,
{
    if i > 0 {
        lemma_tick_in_window(start, times, gap, bound, i - 1);
        assert(times[i - 1] <= times[i] <= times[i - 1] + gap);
        if times[i] >= bound && times[i - 1] < bound {
            assert(bound <= times[i] <= bound + gap);
        }
    }
}

/// A display ends in time: after a mode change at `start`, with ticks at most `gap`
/// apart that go on until `start + 1.82 s + 3 * gap`, some tick no later than that
/// draws nothing and leaves the indicator hidden, and so does every tick after it.
/// `App::on_mode_changed` starts the fade-in at the app's clock reading and each
/// `App::tick` steps at a reading no earlier than the one before, so the readings of
/// an app are such times whenever they come at most `gap` apart.
pub proof fn lemma_display_ends_in_time(start: u64, times: Seq<u64>, gap: u64)
    requires
        ticks_spaced(start, times, gap),
        times.len() > 0,
        times.last() >= start + display_nanos() + 3 * gap,
    ensures
        exists|k: int|
            0 <= k < times.len() && #[trigger] times[k] <= start + display_nanos() + 3 * gap
                && tick_output(Phase::FadeIn { start }, times, k) is Hidden && run_ticks(
                Phase::FadeIn { start },
                times.take(k + 1),
            ) is Hidden && forall|j: int|
                k <= j < times.len() ==> (#[trigger] tick_output(Phase::FadeIn { start }, times, j) is Hidden
                    && run_ticks(Phase::FadeIn { start }, times.take(j + 1)) is Hidden),
{
    let bound = start + display_nanos() + 2 * gap;
    let n = times.len() - 1;
    lemma_tick_in_window(start, times, gap, bound, n);
    let k = choose|k: int| 0 <= k <= n && bound <= #[trigger] times[k] <= bound + gap;
    lemma_display_ends(start, times, gap, k);
    assert forall|j: int| k <= j < times.len() implies (#[trigger] tick_output(
        Phase::FadeIn { start },
        times,
        j,
    ) is Hidden && run_ticks(Phase::FadeIn { start }, times.take(j + 1)) is Hidden) by {
        lemma_times_ordered(start, times, gap, k, j);
        lemma_display_ends(start, times, gap, j);
    }
}

proof fn lemma_times_ordered(start: u64, times: Seq<u64>, gap: u64, i: int, j: int)
    requires
        ticks_spaced(start, times, gap),
        0 <= i <= j < times.len(),
    ensures
        times[i] <= times[j],
    decreases j - i,
{
    if i < j {
        lemma_times_ordered(start, times, gap, i, j - 1);
        assert(times[j - 1] <= times[j]);
    }
}

/// Where the overlay is drawn, fully transparent, when nothing is to be seen.
pub const OFFSCREEN: (i32, i32) = (-10_000, -10_000);

/// What a fade-timer tick draws.
#[derive(Debug, Clone, Copy, PartialEq, Eq, Structural)]
pub enum Frame {
    /// Nothing is shown: stop the fade timer and draw the overlay fully transparent at
    /// `OFFSCREEN`.
    Clear { mode: ImeMode },
    /// Draw `mode` with its upper left corner at (`x`, `y`) and the given opacity.
    Draw { x: i32, y: i32, mode: ImeMode, opacity: Opacity },
}

/// The frame that a tick gives for an indicator showing `mode` at `anchor`.
pub open spec fn spec_frame(shown: Opacity, anchor: (i32, i32), mode: ImeMode) -> Frame {
    if shown is Hidden {
        Frame::Clear { mode }
    } else {
        Frame::Draw { x: anchor.0, y: anchor.1, mode, opacity: shown }
    }
}

/// `std::time::Instant`, held as the origin of an `App`'s clock.
#[verifier::external_type_specification]
#[verifier::external_body]
pub struct ExInstant(std::time::Instant);

/// `std::time::Instant::now`. Nothing is stated of the instant it returns.
#[verifier::external_body]
fn instant_now() -> std::time::Instant {
    std::time::Instant::now()
}

/// `std::time::Instant::elapsed`. The time that has passed depends on the clock, so
/// nothing is stated of the duration it returns.
#[verifier::external_body]
fn instant_elapsed(origin: &std::time::Instant) -> std::time::Duration {
    origin.elapsed()
}

/// `std::time::Duration::as_nanos`. The duration is opaque here, so nothing is
/// stated of the count it returns.
#[verifier::external_body]
fn duration_as_nanos(span: &std::time::Duration) -> u128 {
    span.as_nanos()
}

/// A nanosecond count as a `u64`: the count itself when it fits, `u64::MAX` otherwise.
pub open spec fn spec_saturating_nanos(nanos: u128) -> u64 {
    if nanos <= u64::MAX {
        nanos as u64
    } else {
        u64::MAX
    }
}

/// A nanosecond count as a `u64`: the count itself when it fits, `u64::MAX` otherwise.
pub fn saturating_nanos(nanos: u128) -> (count: u64)
    ensures
        count == spec_saturating_nanos(nanos),
{
    if nanos > 0xffff_ffff_ffff_ffffu128 {
        u64::MAX
    } else {
        nanos as u64
    }
}

/// The clock reading that follows `previous` when the clock shows `nanos` nanoseconds:
/// the count as a `u64` (saturating), or `previous` when that would go back.
pub fn next_reading(previous: u64, nanos: u128) -> (now: u64)
    ensures
        now == (if spec_saturating_nanos(nanos) < previous {
            previous
        } else {
            spec_saturating_nanos(nanos)
        }),
        now >= previous,
{
    let count = saturating_nanos(nanos);
    if count < previous {
        previous
    } else {
        count
    }
}

/// The state of the indicator: the mode it shows, the mode shown before, where it
/// stands on screen and how far it is through its display lifecycle.
pub struct App {
    pub last_mode: Option<ImeMode>,
    pub current_mode: ImeMode,
    pub phase: Phase,
    pub anchor: (i32, i32),
    /// The origin of the times in `phase`.
    pub clock: std::time::Instant,
    /// The latest reading of the clock, in nanoseconds since `clock`; each reading that
    /// `now` takes is at least the one before.
    pub reading: u64,
}

impl App {
    /// An indicator that shows `Alpha`, has shown nothing before, stands at (0, 0) and is hidden.
    pub fn new() -> (app: Self)
        ensures
            app.last_mode == None::<ImeMode>,
            app.current_mode == ImeMode::Alpha,
            app.phase == Phase::Hidden,
            app.anchor == (0i32, 0i32),
            app.reading == 0,
    {
        App {
            last_mode: None,
            current_mode: ImeMode::Alpha,
            phase: Phase::Hidden,
            anchor: (0, 0),
            clock: instant_now(),
            reading: 0,
        }
    }

    /// The indicator right after start-up: it shows the mode that was read, or
    /// `Alpha` when none could be read, counts that mode as the one shown before too,
    /// and fades in at `anchor` to show that it is running.
    pub fn launch(read: Option<ImeMode>, anchor: (i32, i32)) -> (app: Self)
        ensures
            app.current_mode == (match read {
                Some(mode) => mode,
                None => ImeMode::Alpha,
            }),
            app.last_mode == Some(app.current_mode),
            app.anchor == anchor,
            app.phase == (Phase::FadeIn { start: app.reading }),
    {
        let initial = match read {
            Some(mode) => mode,
            None => ImeMode::Alpha,
        };
        let mut app = App::new();
        app.current_mode = initial;
        app.last_mode = Some(initial);
        app.on_mode_changed(initial, anchor);
        app
    }

    /// Reads the clock: `next_reading` of the reading before and the nanoseconds since
    /// this app was made, which replaces the reading before.
    pub fn now(&mut self) -> (now: u64)
        ensures
            now >= old(self).reading,
            final(self).reading == now,
            final(self).phase == old(self).phase,
            final(self).last_mode == old(self).last_mode,
            final(self).current_mode == old(self).current_mode,
            final(self).anchor == old(self).anchor,
            final(self).clock == old(self).clock,
    {
        let now = next_reading(self.reading, duration_as_nanos(&instant_elapsed(&self.clock)));
        self.reading = now;
        now
    }

    /// The mode changed to `new_mode` at time `now`: remember the mode shown so far,
    /// show the new one at `anchor` and start fading in.
    pub fn on_mode_changed_at(&mut self, new_mode: ImeMode, anchor: (i32, i32), now: u64)
        ensures
            final(self).last_mode == Some(old(self).current_mode),
            final(self).current_mode == new_mode,
            final(self).anchor == anchor,
            final(self).clock == old(self).clock,
            final(self).reading == old(self).reading,
            final(self).phase == (Phase::FadeIn { start: now }),
    {
        self.last_mode = Some(self.current_mode);
        self.current_mode = new_mode;
        self.anchor = anchor;
        self.phase = Phase::FadeIn { start: now };
    }

    /// The mode changed to `new_mode`: as `on_mode_changed_at`, at the present time.
    pub fn on_mode_changed(&mut self, new_mode: ImeMode, anchor: (i32, i32))
        ensures
            final(self).last_mode == Some(old(self).current_mode),
            final(self).current_mode == new_mode,
            final(self).anchor == anchor,
            final(self).clock == old(self).clock,
            final(self).reading >= old(self).reading,
            final(self).phase == (Phase::FadeIn { start: final(self).reading }),
    {
        let now = self.now();
        self.on_mode_changed_at(new_mode, anchor, now);
    }

    /// Advances the lifecycle to time `now` and says what to draw.
    pub fn tick_at(&mut self, now: u64) -> (shown: Opacity)
        ensures
            (final(self).phase, shown) == spec_tick(old(self).phase, now),
            final(self).last_mode == old(self).last_mode,
            final(self).current_mode == old(self).current_mode,
            final(self).anchor == old(self).anchor,
            final(self).clock == old(self).clock,
            final(self).reading == old(self).reading,
    {
        match self.phase {
            Phase::Hidden => Opacity::Hidden,
            Phase::FadeIn { start } => {
                let elapsed = now.saturating_sub(start);
                if elapsed >= FADE_IN_NANOS {
                    self.phase = Phase::Visible { until: now.saturating_add(VISIBLE_NANOS) };
                    Opacity::Opaque
                } else {
                    Opacity::FadingIn { elapsed }
                }
            },
            Phase::Visible { until } => {
                if now >= until {
                    self.phase = Phase::FadeOut { start: now };
                }
                Opacity::Opaque
            },
            Phase::FadeOut { start } => {
                let elapsed = now.saturating_sub(start);
                if elapsed >= FADE_OUT_NANOS {
                    self.phase = Phase::Hidden;
                    Opacity::Hidden
                } else {
                    Opacity::FadingOut { elapsed }
                }
            },
        }
    }

    /// Advances the lifecycle to the present time and says what to draw.
    pub fn tick(&mut self) -> (shown: Opacity)
        ensures
            (final(self).phase, shown) == spec_tick(old(self).phase, final(self).reading),
            final(self).reading >= old(self).reading,
            final(self).last_mode == old(self).last_mode,
            final(self).current_mode == old(self).current_mode,
            final(self).anchor == old(self).anchor,
            final(self).clock == old(self).clock,
    {
        let now = self.now();
        self.tick_at(now)
    }

    /// Advances the lifecycle to time `now` and says what the overlay shows.
    pub fn frame_at(&mut self, now: u64) -> (frame: Frame)
        ensures
            final(self).phase == spec_tick(old(self).phase, now).0,
            frame == spec_frame(spec_tick(old(self).phase, now).1, old(self).anchor, old(self).current_mode),
            (frame is Clear) == (final(self).phase is Hidden),
            final(self).last_mode == old(self).last_mode,
            final(self).current_mode == old(self).current_mode,
            final(self).anchor == old(self).anchor,
            final(self).clock == old(self).clock,
            final(self).reading == old(self).reading,
    {
        let shown = self.tick_at(now);
        proof {
            lemma_nothing_drawn_iff_hidden(old(self).phase, now);
        }
        match shown {
            Opacity::Hidden => Frame::Clear { mode: self.current_mode },
            _ => Frame::Draw { x: self.anchor.0, y: self.anchor.1, mode: self.current_mode, opacity: shown },
        }
    }

    /// Advances the lifecycle to the present time and says what the overlay shows.
    pub fn frame(&mut self) -> (frame: Frame)
        ensures
            final(self).phase == spec_tick(old(self).phase, final(self).reading).0,
            frame == spec_frame(
                spec_tick(old(self).phase, final(self).reading).1,
                old(self).anchor,
                old(self).current_mode,
            ),
            (frame is Clear) == (final(self).phase is Hidden),
            final(self).reading >= old(self).reading,
            final(self).last_mode == old(self).last_mode,
            final(self).current_mode == old(self).current_mode,
            final(self).anchor == old(self).anchor,
            final(self).clock == old(self).clock,
    {
        let now = self.now();
        self.frame_at(now)
    }

    /// A key press that keeps the indicator on screen, at time `now`; the modes and
    /// the anchor stay as they are.
    pub fn on_key_activity_at(&mut self, now: u64)
        ensures
            final(self).phase == spec_key_activity(old(self).phase, now),
            old(self).phase is Visible && now + VISIBLE_NANOS <= u64::MAX ==> final(self).phase == (
            Phase::Visible { until: (now + VISIBLE_NANOS) as u64 }),
            (old(self).phase is Hidden || old(self).phase is FadeOut) ==> final(self).phase == (
            Phase::FadeIn { start: now }),
            old(self).phase is FadeIn ==> final(self).phase == old(self).phase,
            final(self).last_mode == old(self).last_mode,
            final(self).current_mode == old(self).current_mode,
            final(self).anchor == old(self).anchor,
            final(self).clock == old(self).clock,
            final(self).reading == old(self).reading,
    {
        match self.phase {
            Phase::Hidden => {
                self.phase = Phase::FadeIn { start: now };
            },
            Phase::FadeIn { .. } => {},
            Phase::Visible { .. } => {
                self.phase = Phase::Visible { until: now.saturating_add(VISIBLE_NANOS) };
            },
            Phase::FadeOut { .. } => {
                self.phase = Phase::FadeIn { start: now };
            },
        }
    }

    /// A key press that keeps the indicator on screen, at the present time.
    pub fn on_key_activity(&mut self)
        ensures
            final(self).phase == spec_key_activity(old(self).phase, final(self).reading),
            final(self).reading >= old(self).reading,
            !(final(self).phase is Hidden),
            final(self).last_mode == old(self).last_mode,
            final(self).current_mode == old(self).current_mode,
            final(self).anchor == old(self).anchor,
            final(self).clock == old(self).clock,
    {
        let now = self.now();
        self.on_key_activity_at(now);
    }

    /// Whether nothing is on screen.
    pub fn is_hidden(&self) -> (hidden: bool)
        ensures
            hidden == (self.phase is Hidden),
    {
        matches!(self.phase, Phase::Hidden)
    }

    /// Whether the indicator is on screen: fading in, fully shown or fading out.
    pub fn is_visible(&self) -> (visible: bool)
        ensures
            visible == !(self.phase is Hidden),
    {
        !matches!(self.phase, Phase::Hidden)
    }

    /// Whether a key press should look up the caret again before it shows the
    /// indicator: when nothing is on screen or the indicator is fading out.
    pub fn needs_anchor_refresh(&self) -> (refresh: bool)
        ensures
            refresh == (self.phase is Hidden || self.phase is FadeOut),
    {
        matches!(self.phase, Phase::Hidden) || matches!(self.phase, Phase::FadeOut { .. })
    }

    /// While the indicator is on screen it follows the caret: moves it to `anchor`
    /// when it is visible, leaves it where it is when it is hidden.
    pub fn follow_caret(&mut self, anchor: (i32, i32))
        ensures
            final(self).anchor == (if old(self).phase is Hidden {
                old(self).anchor
            } else {
                anchor
            }),
            final(self).phase == old(self).phase,
            final(self).last_mode == old(self).last_mode,
            final(self).current_mode == old(self).current_mode,
            final(self).clock == old(self).clock,
            final(self).reading == old(self).reading,
    {
        if self.is_visible() {
            self.anchor = anchor;
        }
    }

    /// An IME key that left the mode as it was, at time `now`: when the indicator is
    /// hidden or fading out it moves to the caret looked up again (`refreshed`, where
    /// one could be had) before it is shown again; in every case the key keeps it on
    /// screen as `on_key_activity_at` does.
    pub fn on_key_activity_with_at(&mut self, refreshed: Option<(i32, i32)>, now: u64)
        ensures
            final(self).anchor == (match refreshed {
                Some(anchor) => if old(self).phase is Hidden || old(self).phase is FadeOut {
                    anchor
                } else {
                    old(self).anchor
                },
                None => old(self).anchor,
            }),
            final(self).phase == spec_key_activity(old(self).phase, now),
            final(self).last_mode == old(self).last_mode,
            final(self).current_mode == old(self).current_mode,
            final(self).clock == old(self).clock,
            final(self).reading == old(self).reading,
    {
        if let Some(anchor) = refreshed {
            if self.needs_anchor_refresh() {
                self.set_anchor(anchor);
            }
        }
        self.on_key_activity_at(now);
    }

    /// As `on_key_activity_with_at`, at the present time.
    pub fn on_key_activity_with(&mut self, refreshed: Option<(i32, i32)>)
        ensures
            final(self).anchor == (match refreshed {
                Some(anchor) => if old(self).phase is Hidden || old(self).phase is FadeOut {
                    anchor
                } else {
                    old(self).anchor
                },
                None => old(self).anchor,
            }),
            final(self).phase == spec_key_activity(old(self).phase, final(self).reading),
            final(self).reading >= old(self).reading,
            !(final(self).phase is Hidden),
            final(self).last_mode == old(self).last_mode,
            final(self).current_mode == old(self).current_mode,
            final(self).clock == old(self).clock,
    {
        let now = self.now();
        self.on_key_activity_with_at(refreshed, now);
    }

    /// Moves the indicator to `anchor`.
    pub fn set_anchor(&mut self, anchor: (i32, i32))
        ensures
            final(self).anchor == anchor,
            final(self).clock == old(self).clock,
            final(self).reading == old(self).reading,
            final(self).phase == old(self).phase,
            final(self).last_mode == old(self).last_mode,
            final(self).current_mode == old(self).current_mode,
    {
        self.anchor = anchor;
    }
}

} // verus!
