use vstd::prelude::*;
use crate::floatbits::FloatBits;
use crate::settings::AimSettings;

verus! {

/// Where a calibration attempt stands. An attempt runs
/// `Idle -> FocusingTarget -> Sampling -> Reconciling -> FocusingOverlay -> Idle`,
/// except that a failed focus transfer to the target aborts it straight
/// back to `Idle` with nothing sampled and nothing written.
#[derive(Clone, Copy, Debug, PartialEq, Eq, Structural)]
pub enum Phase {
    Idle,
    FocusingTarget,
    Sampling,
    Reconciling,
    FocusingOverlay,
}

/// What the caller must do next. The machine itself performs no OS call
/// and runs no sampler: it hands each action to the surrounding
/// application and is told the outcome.
#[derive(Clone, Copy, Debug, PartialEq, Eq, Structural)]
pub enum Action {
    /// Transfer the OS input focus to the named target window.
    FocusTarget(u64),
    /// Run the external sampling routine against the target application.
    RunSampler,
    /// Transfer the OS input focus back to the named overlay window.
    FocusOverlay(u64),
}

/// The recoverable failures of an attempt.
#[derive(Clone, Copy, Debug, PartialEq, Eq, Structural)]
pub enum CalibrationError {
    /// The focus transfer to the target window failed; the attempt was
    /// aborted before sampling and nothing was written.
    FocusTransferFailed,
    /// The focus transfer back to the overlay failed after the attempt
    /// had already committed its result; reported, never retried.
    FocusRestoreFailed,
}

/// One step of an attempt, as the machine sees it: the user request and
/// the outcomes the application hands back.
#[derive(Clone, Copy, Debug, PartialEq, Eq, Structural)]
pub enum Event {
    /// The user asked to calibrate.
    Start,
    /// Outcome of the focus transfer to the target window.
    TargetFocus(bool),
    /// The sampling routine returned this ratio (possibly NaN).
    Sample(FloatBits),
    /// The machine validates and commits the sampled ratio.
    Reconcile,
    /// Outcome of the focus transfer back to the overlay window.
    OverlayFocus(bool),
}

/// The calibration controller. It holds no window handle and touches the
/// settings tree in exactly one place: the reconcile step writes the
/// sanitized sampled ratio into `angle_per_pixel`.
#[derive(Clone, Copy, Debug, PartialEq, Eq, Structural)]
pub struct Calibrator {
    pub phase: Phase,
    /// The sampled ratio awaiting reconciliation; meaningful only in
    /// `Reconciling`.
    pub pending: FloatBits,
}

impl Calibrator {
    /// Which event the machine accepts in its current phase.
    pub open spec fn accepts(self, e: Event) -> bool {
        match e {
            Event::Start => self.phase == Phase::Idle,
            Event::TargetFocus(_) => self.phase == Phase::FocusingTarget,
            Event::Sample(_) => self.phase == Phase::Sampling,
            Event::Reconcile => self.phase == Phase::Reconciling,
            Event::OverlayFocus(_) => self.phase == Phase::FocusingOverlay,
        }
    }

    /// The controller after one accepted event.
    pub open spec fn step(self, e: Event) -> Calibrator {
        match e {
            Event::Start => Calibrator { phase: Phase::FocusingTarget, ..self },
            Event::TargetFocus(ok) => if ok {
                Calibrator { phase: Phase::Sampling, ..self }
            } else {
                Calibrator { phase: Phase::Idle, ..self }
            },
            Event::Sample(v) => Calibrator { phase: Phase::Reconciling, pending: v },
            Event::Reconcile => Calibrator { phase: Phase::FocusingOverlay, ..self },
            Event::OverlayFocus(_) => Calibrator { phase: Phase::Idle, ..self },
        }
    }

    /// The stored ratio after one event: only an accepted reconcile step
    /// writes it, and what it writes is the sanitized pending sample.
    pub open spec fn step_angle(self, angle: FloatBits, e: Event) -> FloatBits {
        if e == Event::Reconcile && self.phase == Phase::Reconciling {
            self.pending.spec_sanitized()
        } else {
            angle
        }
    }

    pub fn new() -> (r: Calibrator)
        ensures
            r.phase == Phase::Idle,
    {
        Calibrator { phase: Phase::Idle, pending: FloatBits::zero() }
    }

    /// The user asked to calibrate. The caller must know a valid target
    /// window; the returned action names it.
    pub fn start(&mut self, target_window: u64) -> (a: Action)
        requires
            old(self).phase == Phase::Idle,
            target_window != 0,
        ensures
            *final(self) == old(self).step(Event::Start),
            a == Action::FocusTarget(target_window),
    {
        self.phase = Phase::FocusingTarget;
        Action::FocusTarget(target_window)
    }

    /// Outcome of the focus transfer to the target. On success the
    /// attempt proceeds to sampling; on failure it aborts back to `Idle`
    /// — the error is propagated and no later step of the attempt runs.
    pub fn on_target_focus(&mut self, ok: bool) -> (r: Result<Action, CalibrationError>)
        requires
            old(self).phase == Phase::FocusingTarget,
        ensures
            *final(self) == old(self).step(Event::TargetFocus(ok)),
            ok ==> r == Ok::<Action, CalibrationError>(Action::RunSampler),
            !ok ==> r == Err::<Action, CalibrationError>(CalibrationError::FocusTransferFailed),
    {
        if ok {
            self.phase = Phase::Sampling;
            Ok(Action::RunSampler)
        } else {
            self.phase = Phase::Idle;
            Err(CalibrationError::FocusTransferFailed)
        }
    }

    /// The sampling routine returned. Whatever came back — NaN included —
    /// is held for reconciliation; nothing is committed yet.
    pub fn on_sample(&mut self, value: FloatBits)
        requires
            old(self).phase == Phase::Sampling,
        ensures
            *final(self) == old(self).step(Event::Sample(value)),
    {
        self.phase = Phase::Reconciling;
        self.pending = value;
    }

    /// Validates and commits the sampled ratio — NaN collapses to the
    /// zero sentinel, anything else is stored verbatim — and asks,
    /// unconditionally, for the focus transfer back to the overlay. No
    /// other field of the tree is touched.
    pub fn reconcile(&mut self, aim: &mut AimSettings, overlay_window: u64) -> (a: Action)
        requires
            old(self).phase == Phase::Reconciling,
        ensures
            *final(self) == old(self).step(Event::Reconcile),
            final(aim).angle_per_pixel == old(self).step_angle(old(aim).angle_per_pixel, Event::Reconcile),
            final(aim).angle_per_pixel == old(self).pending.spec_sanitized(),
            !final(aim).angle_per_pixel.spec_is_nan(),
            final(aim).players == old(aim).players,
            final(aim).creeps == old(aim).creeps,
            final(aim).soul_color == old(aim).soul_color,
            a == Action::FocusOverlay(overlay_window),
    {
        aim.store_angle_per_pixel(self.pending);
        self.phase = Phase::FocusingOverlay;
        Action::FocusOverlay(overlay_window)
    }

    /// Outcome of the focus transfer back to the overlay. The attempt is
    /// over either way; a failure is reported but does not re-open it.
    pub fn on_overlay_focus(&mut self, ok: bool) -> (r: Result<(), CalibrationError>)
        requires
            old(self).phase == Phase::FocusingOverlay,
        ensures
            *final(self) == old(self).step(Event::OverlayFocus(ok)),
            ok ==> r == Ok::<(), CalibrationError>(()),
            !ok ==> r == Err::<(), CalibrationError>(CalibrationError::FocusRestoreFailed),
    {
        self.phase = Phase::Idle;
        if ok {
            Ok(())
        } else {
            Err(CalibrationError::FocusRestoreFailed)
        }
    }
}

/// The controller after a run of events.
pub open spec fn run_ctl(c: Calibrator, t: Seq<Event>) -> Calibrator
    decreases t.len(),
{
    if t.len() == 0 {
        c
    } else {
        run_ctl(c.step(t[0]), t.drop_first())
    }
}

/// The stored ratio after a run of events.
pub open spec fn run_angle(c: Calibrator, angle: FloatBits, t: Seq<Event>) -> FloatBits
    decreases t.len(),
{
    if t.len() == 0 {
        angle
    } else {
        run_angle(c.step(t[0]), c.step_angle(angle, t[0]), t.drop_first())
    }
}

/// Whether every event of the run is accepted in the phase it meets.
pub open spec fn valid_from(c: Calibrator, t: Seq<Event>) -> bool
    decreases t.len(),
{
    t.len() == 0 || (c.accepts(t[0]) && valid_from(c.step(t[0]), t.drop_first()))
}

/// How many times the run enters `Sampling`, i.e. how many times the
/// sampling routine is invoked.
pub open spec fn count_sampler_entries(t: Seq<Event>) -> nat
    decreases t.len(),
{
    if t.len() == 0 {
        0
    } else {
        (if t[0] == Event::TargetFocus(true) { 1nat } else { 0nat }) + count_sampler_entries(
            t.drop_first(),
        )
    }
}

/// How many focus-transfer-to-overlay requests the run issues: the
/// reconcile step, and it alone, issues exactly one.
pub open spec fn count_restore_requests(t: Seq<Event>) -> nat
    decreases t.len(),
{
    if t.len() == 0 {
        0
    } else {
        (if t[0] == Event::Reconcile { 1nat } else { 0nat }) + count_restore_requests(
            t.drop_first(),
        )
    }
}

/// A restore request is owed exactly while an attempt stands between
/// entering `Sampling` and leaving `Reconciling`.
pub open spec fn owed_restore(p: Phase) -> nat {
    match p {
        Phase::Sampling => 1,
        Phase::Reconciling => 1,
        _ => 0,
    }
}

/// A run without a reconcile step never changes the stored ratio.
pub proof fn lemma_angle_untouched_without_reconcile(c: Calibrator, angle: FloatBits, t: Seq<Event>)
    requires
        forall|i: int| 0 <= i < t.len() ==> t[i] != Event::Reconcile,
    ensures
        run_angle(c, angle, t) == angle,
    decreases t.len(),
{
    if t.len() > 0 {
        assert(t[0] != Event::Reconcile);
        assert(forall|i: int|
            0 <= i < t.drop_first().len() ==> t.drop_first()[i] == t[i + 1]
                && t.drop_first()[i] != Event::Reconcile);
        lemma_angle_untouched_without_reconcile(c.step(t[0]), angle, t.drop_first());
    }
}

/// Law (aborted attempt changes nothing): an attempt whose focus
/// transfer to the target fails runs `Start` then `TargetFocus(false)`
/// and nothing more; the machine is back in `Idle`, the stored ratio is
/// bit-identical to what it was, the sampler was never invoked, and no
/// restore request was issued.
pub proof fn lemma_failed_focus_preserves_angle(c: Calibrator, angle: FloatBits)
    requires
        c.phase == Phase::Idle,
    ensures
        valid_from(c, seq![Event::Start, Event::TargetFocus(false)]),
        run_ctl(c, seq![Event::Start, Event::TargetFocus(false)]).phase == Phase::Idle,
        run_angle(c, angle, seq![Event::Start, Event::TargetFocus(false)]) == angle,
        count_sampler_entries(seq![Event::Start, Event::TargetFocus(false)]) == 0,
        count_restore_requests(seq![Event::Start, Event::TargetFocus(false)]) == 0,
{
    let t = seq![Event::Start, Event::TargetFocus(false)];
    let t1 = t.drop_first();
    assert(t1 =~= seq![Event::TargetFocus(false)]);
    let t2 = t1.drop_first();
    assert(t2 =~= Seq::<Event>::empty());
    let c1 = c.step(t[0]);
    let c2 = c1.step(t1[0]);
    assert(valid_from(c2, t2));
    assert(valid_from(c1, t1));
    assert(valid_from(c, t));
    assert(run_ctl(c2, t2) == c2);
    assert(run_ctl(c1, t1) == run_ctl(c2, t2));
    assert(run_ctl(c, t) == run_ctl(c1, t1));
    assert(count_sampler_entries(t2) == 0);
    assert(count_sampler_entries(t1) == 0);
    assert(count_sampler_entries(t) == 0);
    assert(count_restore_requests(t2) == 0);
    assert(count_restore_requests(t1) == 0);
    assert(count_restore_requests(t) == 0);
    lemma_angle_untouched_without_reconcile(c, angle, t);
}

/// Law (completed attempt commits the sanitized sample): an attempt
/// whose focus transfer succeeds runs through sampling, reconciliation
/// and the focus restore, and ends back in `Idle` with the stored ratio
/// equal to the sanitized sample — the zero sentinel for a NaN, the
/// sample verbatim otherwise — whatever the restore outcome. The sampler
/// ran once and exactly one restore request was issued.
pub proof fn lemma_completed_attempt_commits_sanitized_sample(
    c: Calibrator,
    angle: FloatBits,
    v: FloatBits,
    restore_ok: bool,
)
    requires
        c.phase == Phase::Idle,
    ensures
        ({
            let t = seq![
                Event::Start,
                Event::TargetFocus(true),
                Event::Sample(v),
                Event::Reconcile,
                Event::OverlayFocus(restore_ok),
            ];
            &&& valid_from(c, t)
            &&& run_ctl(c, t).phase == Phase::Idle
            &&& run_angle(c, angle, t) == v.spec_sanitized()
            &&& count_sampler_entries(t) == 1
            &&& count_restore_requests(t) == 1
        }),
{
    let t = seq![
        Event::Start,
        Event::TargetFocus(true),
        Event::Sample(v),
        Event::Reconcile,
        Event::OverlayFocus(restore_ok),
    ];
    let t1 = t.drop_first();
    assert(t1 =~= seq![
        Event::TargetFocus(true),
        Event::Sample(v),
        Event::Reconcile,
        Event::OverlayFocus(restore_ok),
    ]);
    let t2 = t1.drop_first();
    assert(t2 =~= seq![Event::Sample(v), Event::Reconcile, Event::OverlayFocus(restore_ok)]);
    let t3 = t2.drop_first();
    assert(t3 =~= seq![Event::Reconcile, Event::OverlayFocus(restore_ok)]);
    let t4 = t3.drop_first();
    assert(t4 =~= seq![Event::OverlayFocus(restore_ok)]);
    let t5 = t4.drop_first();
    assert(t5 =~= Seq::<Event>::empty());
    let c1 = c.step(t[0]);
    let c2 = c1.step(t1[0]);
    let c3 = c2.step(t2[0]);
    let c4 = c3.step(t3[0]);
    let c5 = c4.step(t4[0]);
    assert(valid_from(c5, t5));
    assert(valid_from(c4, t4));
    assert(valid_from(c3, t3));
    assert(valid_from(c2, t2));
    assert(valid_from(c1, t1));
    assert(valid_from(c, t));
    assert(run_ctl(c4, t4) == run_ctl(c5, t5));
    assert(run_ctl(c3, t3) == run_ctl(c4, t4));
    assert(run_ctl(c2, t2) == run_ctl(c3, t3));
    assert(run_ctl(c1, t1) == run_ctl(c2, t2));
    assert(run_ctl(c, t) == run_ctl(c1, t1));
    assert(c3.pending == v);
    let committed = v.spec_sanitized();
    assert(run_angle(c5, committed, t5) == committed);
    assert(run_angle(c4, committed, t4) == committed);
    assert(run_angle(c3, angle, t3) == run_angle(c4, committed, t4));
    assert(run_angle(c2, angle, t2) == run_angle(c3, angle, t3));
    assert(run_angle(c1, angle, t1) == run_angle(c2, angle, t2));
    assert(run_angle(c, angle, t) == run_angle(c1, angle, t1));
    assert(count_sampler_entries(t5) == 0);
    assert(count_sampler_entries(t4) == 0);
    assert(count_sampler_entries(t3) == 0);
    assert(count_sampler_entries(t2) == 0);
    assert(count_sampler_entries(t1) == 1);
    assert(count_sampler_entries(t) == 1);
    assert(count_restore_requests(t5) == 0);
    assert(count_restore_requests(t4) == 0);
    assert(count_restore_requests(t3) == 1);
    assert(count_restore_requests(t2) == 1);
    assert(count_restore_requests(t1) == 1);
    assert(count_restore_requests(t) == 1);
}

/// Balance of restore requests over any accepted run: the requests
/// issued so far plus the one still owed by an attempt standing between
/// `Sampling` and `Reconciling` equal the sampler entries.
pub proof fn lemma_restore_balance(c: Calibrator, t: Seq<Event>)
    requires
        valid_from(c, t),
    ensures
        count_restore_requests(t) + owed_restore(run_ctl(c, t).phase) == count_sampler_entries(t)
            + owed_restore(c.phase),
    decreases t.len(),
{
    if t.len() > 0 {
        lemma_restore_balance(c.step(t[0]), t.drop_first());
    }
}

/// Law (restore follows sampling, exactly once): over any accepted run
/// that starts and ends in `Idle`, the machine issues exactly one focus
/// restore request per attempt that entered sampling, and none for an
/// attempt that did not. The request is issued by the reconcile step
/// alone, which the machine accepts only after the sample outcome has
/// arrived, so each restore comes after its sampling completed.
pub proof fn lemma_restore_exactly_once_per_sampling(c: Calibrator, t: Seq<Event>)
    requires
        valid_from(c, t),
        c.phase == Phase::Idle,
        run_ctl(c, t).phase == Phase::Idle,
    ensures
        count_restore_requests(t) == count_sampler_entries(t),
{
    lemma_restore_balance(c, t);
}

/// Law (restores come after sampling): in any accepted run that does not
/// begin mid-reconciliation, every reconcile step — the one step that
/// issues a restore request — stands after a delivered sample outcome.
pub proof fn lemma_reconcile_follows_sample(c: Calibrator, t: Seq<Event>, i: int)
    requires
        valid_from(c, t),
        c.phase != Phase::Reconciling,
        0 <= i < t.len(),
        t[i] == Event::Reconcile,
    ensures
        exists|j: int| 0 <= j < i && t[j] is Sample,
    decreases t.len(),
{
    if i == 0 {
        assert(c.accepts(Event::Reconcile));
        assert(false);
    } else {
        let c1 = c.step(t[0]);
        if t[0] is Sample {
            assert(t[0] is Sample && 0 <= 0 < i);
        } else {
            assert(c1.phase != Phase::Reconciling);
            lemma_reconcile_follows_sample(c1, t.drop_first(), i - 1);
            let j1 = choose|j: int| 0 <= j < i - 1 && t.drop_first()[j] is Sample;
            assert(t[j1 + 1] == t.drop_first()[j1]);
            assert(0 <= j1 + 1 < i && t[j1 + 1] is Sample);
        }
    }
}

} // verus!
