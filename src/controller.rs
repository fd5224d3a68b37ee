//! The application controller: which source is selected, how alive it
//! looks, and what each event of the merged stream leads to.
use crate::calendar::Timestamp;
use crate::liveness::{classify, classify_spec, clock_now, ActivityFromTheFuture, Happiness, JudgeError};
use crate::schedule::{AppEvent, Event, KeyCode, KeyInput};
use crate::sources::{kind_of, Source, SourceKind};
use vstd::prelude::*;

verus! {

/// What the caller has to do after the controller handled an event.
#[derive(Debug, Clone, Copy, PartialEq, Eq, Structural)]
pub enum Action {
    /// Nothing.
    Nothing,
    /// Fetch the latest activity of the source at this index and hand the
    /// outcome back.
    Fetch(usize),
    /// Replace every running timer by a fresh set.
    Restart,
    /// Put this control event on the merged stream.
    Send(AppEvent),
}

/// The fetch task itself failed (rather than finding no activity).
#[derive(Debug, Clone, Copy, PartialEq, Eq, Structural)]
pub struct FetchFailed;

/// The controller's state.
#[derive(Debug)]
pub struct App {
    /// Is the application running?
    pub running: bool,
    /// How alive the selected source looks.
    pub happiness: Happiness,
    /// The sources to watch.
    pub sources: Vec<Source>,
    /// The index of the selected source.
    pub selected: usize,
    /// Which animation frame to show.
    pub animation: usize,
}

/// The index after `i` among `len`, wrapping to the first.
pub open spec fn next_index(i: int, len: int) -> int {
    (i + 1) % len
}

/// The index before `i` among `len`, wrapping to the last.
pub open spec fn previous_index(i: int, len: int) -> int {
    if i == 0 {
        len - 1
    } else {
        i - 1
    }
}

/// The frame counter after one more frame, wrapping to zero.
pub open spec fn next_frame(a: usize) -> usize {
    if a == usize::MAX {
        0
    } else {
        (a + 1) as usize
    }
}

/// The action a key leads to, and whether it moves the selection (`1`
/// forward, `-1` back, `0` not).
pub open spec fn key_effect(key: KeyInput) -> (Action, int) {
    match key.code {
        KeyCode::Esc | KeyCode::Char('q') => (Action::Send(AppEvent::Quit), 0),
        KeyCode::Char('c') if key.control_only => (Action::Send(AppEvent::Quit), 0),
        KeyCode::Char('C') if key.control_only => (Action::Send(AppEvent::Quit), 0),
        KeyCode::Down if key.press => (Action::Restart, 1),
        KeyCode::Up if key.press => (Action::Restart, -1),
        _ => (Action::Nothing, 0),
    }
}

impl App {
    /// At least one source, and the selected index names one of them.
    pub open spec fn wf(&self) -> bool {
        0 < self.sources@.len() && self.selected < self.sources@.len()
    }

    /// A running controller over `sources`, with the first selected and its
    /// liveness not yet known.
    pub fn new(sources: Vec<Source>) -> (r: App)
        requires
            sources@.len() > 0,
        ensures
            r.wf(),
            r.running,
            r.happiness == Happiness::Undecided,
            r.sources@ == sources@,
            r.selected == 0,
            r.animation == 0,
    {
        App { running: true, happiness: Happiness::Undecided, sources, selected: 0, animation: 0 }
    }

    /// Stops the run loop.
    pub fn quit(&mut self)
        ensures
            !final(self).running,
            final(self).happiness == old(self).happiness,
            final(self).sources@ == old(self).sources@,
            final(self).selected == old(self).selected,
            final(self).animation == old(self).animation,
    {
        self.running = false;
    }

    /// Handles a key: quit keys ask for a quit event, Down and Up (when
    /// pressed) move the selection with wraparound, forget the liveness and
    /// ask for a restart of the timers.
    pub fn handle_key_events(&mut self, key: KeyInput) -> (r: Action)
        requires
            old(self).wf(),
        ensures
            final(self).wf(),
            r == key_effect(key).0,
            final(self).sources@ == old(self).sources@,
            final(self).running == old(self).running,
            final(self).animation == old(self).animation,
            key_effect(key).1 == 0 ==> final(self).selected == old(self).selected
                && final(self).happiness == old(self).happiness,
            key_effect(key).1 == 1 ==> final(self).selected == next_index(
                old(self).selected as int,
                old(self).sources@.len() as int,
            ) && final(self).happiness == Happiness::Undecided,
            key_effect(key).1 == -1 ==> final(self).selected == previous_index(
                old(self).selected as int,
                old(self).sources@.len() as int,
            ) && final(self).happiness == Happiness::Undecided,
    {
        let quit = match key.code {
            KeyCode::Esc => true,
            KeyCode::Char(c) => c == 'q' || ((c == 'c' || c == 'C') && key.control_only),
            _ => false,
        };
        if quit {
            return Action::Send(AppEvent::Quit);
        }
        if !key.press {
            return Action::Nothing;
        }
        match key.code {
            KeyCode::Down => {
                assert(self.selected < self.sources.len());
                self.happiness = Happiness::Undecided;
                self.selected = (self.selected + 1) % self.sources.len();
                Action::Restart
            },
            KeyCode::Up => {
                self.happiness = Happiness::Undecided;
                self.selected = if self.selected == 0 {
                    self.sources.len() - 1
                } else {
                    self.selected - 1
                };
                Action::Restart
            },
            _ => Action::Nothing,
        }
    }

    /// Handles one event of the merged stream.
    pub fn handle_event(&mut self, event: Event) -> (r: Action)
        requires
            old(self).wf(),
        ensures
            final(self).wf(),
            final(self).sources@ == old(self).sources@,
            match event {
                Event::Tick(k) => {
                    &&& r == (if kind_of(old(self).sources@[old(self).selected as int]) == k {
                        Action::Fetch(old(self).selected)
                    } else {
                        Action::Nothing
                    })
                    &&& final(self).selected == old(self).selected
                    &&& final(self).happiness == old(self).happiness
                    &&& final(self).running == old(self).running
                    &&& final(self).animation == old(self).animation
                },
                Event::AnimationTick => {
                    &&& r == Action::Nothing
                    &&& final(self).selected == old(self).selected
                    &&& final(self).happiness == old(self).happiness
                    &&& final(self).running == old(self).running
                    &&& final(self).animation == next_frame(old(self).animation)
                },
                Event::Key(key) => {
                    &&& r == key_effect(key).0
                    &&& final(self).running == old(self).running
                    &&& final(self).animation == old(self).animation
                    &&& key_effect(key).1 == 0 ==> final(self).selected == old(self).selected
                        && final(self).happiness == old(self).happiness
                    &&& key_effect(key).1 == 1 ==> final(self).selected == next_index(
                        old(self).selected as int,
                        old(self).sources@.len() as int,
                    ) && final(self).happiness == Happiness::Undecided
                    &&& key_effect(key).1 == -1 ==> final(self).selected == previous_index(
                        old(self).selected as int,
                        old(self).sources@.len() as int,
                    ) && final(self).happiness == Happiness::Undecided
                },
                Event::App(AppEvent::Quit) => {
                    &&& r == Action::Nothing
                    &&& !final(self).running
                    &&& final(self).selected == old(self).selected
                    &&& final(self).happiness == old(self).happiness
                    &&& final(self).animation == old(self).animation
                },
            },
    {
        match event {
            Event::Tick(k) => {
                if self.sources[self.selected].kind() == k {
                    Action::Fetch(self.selected)
                } else {
                    Action::Nothing
                }
            },
            Event::AnimationTick => {
                self.animation = self.animation.wrapping_add(1);
                Action::Nothing
            },
            Event::Key(key) => self.handle_key_events(key),
            Event::App(AppEvent::Quit) => {
                self.quit();
                Action::Nothing
            },
        }
    }

    /// Takes the outcome of a fetch, judged at instant `now`: a failed fetch
    /// task stops the run loop, as does activity later than `now` (which is
    /// returned as the error); otherwise the liveness is replaced by the
    /// judgement.
    pub fn handle_last_activity_at(
        &mut self,
        now: Timestamp,
        outcome: Result<Option<Timestamp>, FetchFailed>,
    ) -> (r: Result<(), ActivityFromTheFuture>)
        ensures
            final(self).sources@ == old(self).sources@,
            final(self).selected == old(self).selected,
            final(self).animation == old(self).animation,
            match outcome {
                Err(_) => r is Ok && !final(self).running && final(self).happiness == old(
                    self,
                ).happiness,
                Ok(last) => match classify_spec(now as int, last) {
                    Ok(h) => r is Ok && final(self).happiness == h && final(self).running == old(
                        self,
                    ).running,
                    Err(e) => r == Err::<(), ActivityFromTheFuture>(e) && !final(self).running
                        && final(self).happiness == old(self).happiness,
                },
            },
    {
        match outcome {
            Err(_) => {
                self.running = false;
                Ok(())
            },
            Ok(last) => match classify(now, last) {
                Ok(h) => {
                    self.happiness = h;
                    Ok(())
                },
                Err(e) => {
                    self.running = false;
                    Err(e)
                },
            },
        }
    }

    /// Takes the outcome of a fetch, judged against the clock as it reads
    /// now. A clock that cannot be read stops the run loop too.
    pub fn handle_last_activity(&mut self, outcome: Result<Option<Timestamp>, FetchFailed>) -> (r:
        Result<(), JudgeError>)
        ensures
            final(self).sources@ == old(self).sources@,
            final(self).selected == old(self).selected,
            final(self).animation == old(self).animation,
            outcome is Err ==> r is Ok && !final(self).running && final(self).happiness == old(
                self,
            ).happiness,
            outcome == Ok::<Option<Timestamp>, FetchFailed>(None) ==> r is Ok && final(self).happiness
                == Happiness::Undecided && final(self).running == old(self).running,
            outcome matches Ok(Some(t)) ==> (r == Err::<(), JudgeError>(JudgeError::ClockUnreadable)
                && !final(self).running && final(self).happiness == old(self).happiness) || exists|
                now: Timestamp,
            |
                match #[trigger] classify_spec(now as int, Some(t)) {
                    Ok(h) => r is Ok && final(self).happiness == h && final(self).running == old(
                        self,
                    ).running,
                    Err(e) => r == Err::<(), JudgeError>(JudgeError::FromTheFuture(e))
                        && !final(self).running && final(self).happiness == old(self).happiness,
                },
    {
        match outcome {
            Ok(Some(_)) => match clock_now() {
                None => {
                    self.running = false;
                    Err(JudgeError::ClockUnreadable)
                },
                Some(now) => {
                    let judged = self.handle_last_activity_at(now, outcome);
                    match judged {
                        Ok(()) => Ok(()),
                        Err(e) => Err(JudgeError::FromTheFuture(e)),
                    }
                },
            },
            _ => {
                let judged = self.handle_last_activity_at(0, outcome);
                match judged {
                    Ok(()) => Ok(()),
                    Err(e) => Err(JudgeError::FromTheFuture(e)),
                }
            },
        }
    }

    /// Animation ticks only advance the frame counter.
    pub fn animation_tick(&mut self)
        ensures
            final(self).animation == next_frame(old(self).animation),
            final(self).running == old(self).running,
            final(self).happiness == old(self).happiness,
            final(self).sources@ == old(self).sources@,
            final(self).selected == old(self).selected,
    {
        self.animation = self.animation.wrapping_add(1);
    }
}

/// Navigation wraps around: from the first source "previous" selects the
/// last, from the last "next" selects the first, and both stay in range.
pub proof fn navigation_wraps(i: int, len: int)
    requires
        0 <= i < len,
    ensures
        previous_index(0, len) == len - 1,
        next_index(len - 1, len) == 0,
        0 <= next_index(i, len) < len,
        0 <= previous_index(i, len) < len,
{
    assert(len % len == 0 && 0 <= (i + 1) % len < len) by (nonlinear_arith)
        requires
            0 <= i < len,
    ;
}

} // verus!
