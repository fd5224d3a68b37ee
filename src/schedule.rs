//! The timers that drive polling: one per enabled source kind, firing at
//! once and then at its own cadence, plus a fixed animation clock. This
//! module decides which timers a (re)start brings up; running them is left
//! to the caller's runtime.
use crate::sources::{kind_of, token_of, Source, SourceKind};
use vstd::prelude::*;

verus! {

/// Milliseconds between two animation frames.
pub const ANIMATION_PERIOD_MS: u64 = 700;

/// Cadence of a local repository's timer, in seconds.
pub const LOCAL_INTERVAL_SECS: u32 = 3;

/// Cadence of a hosted source's timer with an access token, in seconds.
pub const TOKEN_INTERVAL_SECS: u32 = 5;

/// Cadence of a hosted source's timer without an access token, in seconds.
pub const ANONYMOUS_INTERVAL_SECS: u32 = 60;

/// Control events injected into the merged stream.
#[derive(Debug, Clone, Copy, PartialEq, Eq, Structural)]
pub enum AppEvent {
    /// Quit the application.
    Quit,
}

/// What the merged stream carries, as far as the controller reads it.
#[derive(Debug, Clone, Copy, PartialEq, Eq, Structural)]
pub enum Event {
    /// Time to poll sources of this kind.
    Tick(SourceKind),
    /// Time to show the next animation frame.
    AnimationTick,
    /// A key was pressed or released.
    Key(KeyInput),
    /// An injected control event.
    App(AppEvent),
}

/// The keys the controller reacts to; any other key is `Other`.
#[derive(Debug, Clone, Copy, PartialEq, Eq, Structural)]
pub enum KeyCode {
    Up,
    Down,
    Esc,
    Char(char),
    Other,
}

/// A key event: the key, whether Control was the only modifier held, and
/// whether it was a press (rather than a repeat or a release).
#[derive(Debug, Clone, Copy, PartialEq, Eq, Structural)]
pub struct KeyInput {
    pub code: KeyCode,
    pub control_only: bool,
    pub press: bool,
}

/// The cadence, in seconds, of each source kind's timer; `None` means that
/// kind gets no timer.
#[derive(Debug, Clone, Copy, PartialEq, Eq, Structural, Default)]
pub struct IntervalSecs {
    pub git: Option<u32>,
    pub github: Option<u32>,
    pub gitlab: Option<u32>,
    pub codeberg: Option<u32>,
    pub forgejo: Option<u32>,
}

/// The cadence configured for kind `k`.
pub open spec fn interval_of(c: IntervalSecs, k: SourceKind) -> Option<u32> {
    match k {
        SourceKind::Git => c.git,
        SourceKind::GitHub => c.github,
        SourceKind::GitLab => c.gitlab,
        SourceKind::Codeberg => c.codeberg,
        SourceKind::Forgejo => c.forgejo,
    }
}

impl IntervalSecs {
    /// Every configured cadence is at least one second.
    pub open spec fn wf(self) -> bool {
        forall|k: SourceKind| (#[trigger] interval_of(self, k) matches Some(s) ==> s > 0)
    }
}

/// One timer: the event it sends, at once and then every `period_ms`.
#[derive(Debug, Clone, Copy, PartialEq, Eq, Structural)]
pub struct TimerSpec {
    pub event: Event,
    pub period_ms: u64,
}

/// The timer of kind `k` under `c`, where `c` gives it one.
pub open spec fn kind_timer(c: IntervalSecs, k: SourceKind) -> Seq<TimerSpec> {
    match interval_of(c, k) {
        Some(s) => seq![TimerSpec { event: Event::Tick(k), period_ms: (s * 1000) as u64 }],
        None => Seq::empty(),
    }
}

/// The timers a start brings up: the animation clock, then one timer per
/// enabled kind.
pub open spec fn plan_of(c: IntervalSecs) -> Seq<TimerSpec> {
    seq![TimerSpec { event: Event::AnimationTick, period_ms: ANIMATION_PERIOD_MS }]
        + kind_timer(c, SourceKind::Git) + kind_timer(c, SourceKind::GitHub) + kind_timer(
        c,
        SourceKind::GitLab,
    ) + kind_timer(c, SourceKind::Codeberg) + kind_timer(c, SourceKind::Forgejo)
}

fn push_kind_timer(plan: &mut Vec<TimerSpec>, k: SourceKind, secs: Option<u32>)
    ensures
        final(plan)@ == old(plan)@ + match secs {
            Some(s) => seq![TimerSpec { event: Event::Tick(k), period_ms: (s * 1000) as u64 }],
            None => Seq::<TimerSpec>::empty(),
        },
{
    match secs {
        Some(s) => {
            plan.push(TimerSpec { event: Event::Tick(k), period_ms: s as u64 * 1000 });
        },
        None => {
            assert(plan@ + Seq::<TimerSpec>::empty() =~= plan@);
        },
    }
}

/// The timers that a start or a restart under `c` brings up.
pub fn timer_plan(c: &IntervalSecs) -> (r: Vec<TimerSpec>)
    ensures
        r@ == plan_of(*c),
{
    let mut plan: Vec<TimerSpec> = Vec::new();
    plan.push(TimerSpec { event: Event::AnimationTick, period_ms: ANIMATION_PERIOD_MS });
    push_kind_timer(&mut plan, SourceKind::Git, c.git);
    push_kind_timer(&mut plan, SourceKind::GitHub, c.github);
    push_kind_timer(&mut plan, SourceKind::GitLab, c.gitlab);
    push_kind_timer(&mut plan, SourceKind::Codeberg, c.codeberg);
    push_kind_timer(&mut plan, SourceKind::Forgejo, c.forgejo);
    assert(plan@ =~= plan_of(*c));
    plan
}

/// The first source of kind `k` at or after position `i`.
pub open spec fn first_of_kind_from(s: Seq<Source>, k: SourceKind, i: int) -> Option<Source>
    decreases s.len() - i,
{
    if i < 0 || i >= s.len() {
        None
    } else if kind_of(s[i]) == k {
        Some(s[i])
    } else {
        first_of_kind_from(s, k, i + 1)
    }
}

/// The cadence for kind `k`, judged by the first source of that kind: a
/// local repository polls every three seconds, a hosted source every five
/// with an access token and every sixty without; no source, no timer.
pub open spec fn cadence_for(s: Seq<Source>, k: SourceKind) -> Option<u32> {
    match first_of_kind_from(s, k, 0) {
        None => None,
        Some(src) => if k == SourceKind::Git {
            Some(LOCAL_INTERVAL_SECS)
        } else if token_of(src) is Some {
            Some(TOKEN_INTERVAL_SECS)
        } else {
            Some(ANONYMOUS_INTERVAL_SECS)
        },
    }
}

pub open spec fn intervals_spec(s: Seq<Source>) -> IntervalSecs {
    IntervalSecs {
        git: cadence_for(s, SourceKind::Git),
        github: cadence_for(s, SourceKind::GitHub),
        gitlab: cadence_for(s, SourceKind::GitLab),
        codeberg: cadence_for(s, SourceKind::Codeberg),
        forgejo: cadence_for(s, SourceKind::Forgejo),
    }
}

fn cadence_of_kind(sources: &Vec<Source>, k: SourceKind) -> (r: Option<u32>)
    ensures
        r == cadence_for(sources@, k),
{
    let mut i: usize = 0;
    while i < sources.len()
        invariant
            i <= sources@.len(),
            first_of_kind_from(sources@, k, 0) == first_of_kind_from(sources@, k, i as int),
        decreases sources@.len() - i,
    {
        let src = &sources[i];
        if src.kind() == k {
            if k == SourceKind::Git {
                return Some(LOCAL_INTERVAL_SECS);
            } else if src.has_token() {
                return Some(TOKEN_INTERVAL_SECS);
            } else {
                return Some(ANONYMOUS_INTERVAL_SECS);
            }
        }
        i = i + 1;
    }
    None
}

/// The timer cadences for a list of sources.
pub fn intervals_for(sources: &Vec<Source>) -> (r: IntervalSecs)
    ensures
        r == intervals_spec(sources@),
        r.wf(),
{
    IntervalSecs {
        git: cadence_of_kind(sources, SourceKind::Git),
        github: cadence_of_kind(sources, SourceKind::GitHub),
        gitlab: cadence_of_kind(sources, SourceKind::GitLab),
        codeberg: cadence_of_kind(sources, SourceKind::Codeberg),
        forgejo: cadence_of_kind(sources, SourceKind::Forgejo),
    }
}

/// The cadences the scheduler was built with; every start and restart
/// brings up the timers of the same plan.
#[derive(Debug, Clone, Copy)]
pub struct PollSchedule {
    pub intervals: IntervalSecs,
}

impl PollSchedule {
    pub fn new(intervals: IntervalSecs) -> (r: PollSchedule)
        requires
            intervals.wf(),
        ensures
            r.intervals == intervals,
    {
        PollSchedule { intervals }
    }

    /// The timers to bring up, replacing every running one, on a start or a
    /// restart. The cadences do not change.
    pub fn restart(&self) -> (r: Vec<TimerSpec>)
        ensures
            r@ == plan_of(self.intervals),
    {
        timer_plan(&self.intervals)
    }
}

/// How often a timer of period `period` fires within the first `w`
/// milliseconds after it starts: at once, then after each full period.
pub open spec fn firings_within(period: int, w: int) -> int {
    if w <= 0 || period <= 0 {
        0
    } else {
        (w - 1) / period + 1
    }
}

/// How many `e` events the timers of `plan` send within `w` milliseconds of
/// being started.
pub open spec fn ticks_within(plan: Seq<TimerSpec>, e: Event, w: int) -> int
    decreases plan.len(),
{
    if plan.len() == 0 {
        0
    } else {
        ticks_within(plan.drop_last(), e, w) + if plan.last().event == e {
            firings_within(plan.last().period_ms as int, w)
        } else {
            0
        }
    }
}

proof fn lemma_ticks_within_concat(a: Seq<TimerSpec>, b: Seq<TimerSpec>, e: Event, w: int)
    ensures
        ticks_within(a + b, e, w) == ticks_within(a, e, w) + ticks_within(b, e, w),
    decreases b.len(),
{
    if b.len() == 0 {
        assert(a + b =~= a);
    } else {
        assert((a + b).drop_last() =~= a + b.drop_last());
        lemma_ticks_within_concat(a, b.drop_last(), e, w);
    }
}

proof fn lemma_kind_timer_ticks(c: IntervalSecs, k: SourceKind, e: Event, w: int)
    requires
        c.wf(),
        0 < w,
        forall|j: SourceKind| #[trigger] interval_of(c, j) matches Some(s) ==> w <= s * 1000,
    ensures
        ticks_within(kind_timer(c, k), e, w) == if e == Event::Tick(k) && interval_of(c, k) is Some {
            1int
        } else {
            0int
        },
{
    reveal_with_fuel(ticks_within, 2);
    if let Some(s) = interval_of(c, k) {
        let t = kind_timer(c, k);
        assert(t.drop_last() =~= Seq::<TimerSpec>::empty());
        assert(w <= s * 1000);
        assert(0 < s);
        assert(t.last().period_ms as int == s * 1000);
        assert((w - 1) / (s * 1000) == 0) by (nonlinear_arith)
            requires
                0 < w <= s * 1000,
        ;
    }
}

/// After a restart, a window that is not empty and is no longer than any
/// configured period sees exactly one tick of each enabled kind (the
/// immediate one) and none of a kind without a timer; over two restarts in
/// a row, with such a window after each, every enabled kind ticks exactly
/// twice, once per restart.
pub proof fn restart_ticks_once_per_kind(c: IntervalSecs, w: int, k: SourceKind)
    requires
        c.wf(),
        0 < w,
        forall|j: SourceKind| #[trigger] interval_of(c, j) matches Some(s) ==> w <= s * 1000,
    ensures
        ticks_within(plan_of(c), Event::Tick(k), w) == if interval_of(c, k) is Some {
            1int
        } else {
            0int
        },
        ticks_within(plan_of(c), Event::Tick(k), w) + ticks_within(plan_of(c), Event::Tick(k), w)
            == if interval_of(c, k) is Some {
            2int
        } else {
            0int
        },
{
    let e = Event::Tick(k);
    let anim = seq![TimerSpec { event: Event::AnimationTick, period_ms: ANIMATION_PERIOD_MS }];
    let g = kind_timer(c, SourceKind::Git);
    let h = kind_timer(c, SourceKind::GitHub);
    let l = kind_timer(c, SourceKind::GitLab);
    let b = kind_timer(c, SourceKind::Codeberg);
    let f = kind_timer(c, SourceKind::Forgejo);
    assert(anim.drop_last() =~= Seq::<TimerSpec>::empty());
    reveal_with_fuel(ticks_within, 2);
    assert(ticks_within(anim, e, w) == 0);
    lemma_ticks_within_concat(anim, g, e, w);
    lemma_ticks_within_concat(anim + g, h, e, w);
    lemma_ticks_within_concat(anim + g + h, l, e, w);
    lemma_ticks_within_concat(anim + g + h + l, b, e, w);
    lemma_ticks_within_concat(anim + g + h + l + b, f, e, w);
    lemma_kind_timer_ticks(c, SourceKind::Git, e, w);
    lemma_kind_timer_ticks(c, SourceKind::GitHub, e, w);
    lemma_kind_timer_ticks(c, SourceKind::GitLab, e, w);
    lemma_kind_timer_ticks(c, SourceKind::Codeberg, e, w);
    lemma_kind_timer_ticks(c, SourceKind::Forgejo, e, w);
}

} // verus!
