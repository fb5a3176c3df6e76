//! The event clock: two timers of fixed period, one for logic and one for
//! drawing, merged with the keyboard into one ordered stream.
//!
//! The caller reads the time and polls the keyboard; the clock decides, step
//! by step, whether a timer fires or the keyboard is polled, and for how
//! long. Between two timer events the keyboard is always polled once, and no
//! poll outlasts a deadline, so neither source holds up the other. Times are
//! counted in milliseconds from a start that the caller chooses.

use crate::action::{Event, Key};
use vstd::prelude::*;

verus! {

/// What one poll of the keyboard brought.
#[derive(Clone, Copy, Debug, PartialEq, Eq, Structural)]
pub enum Polled {
    /// A key was pressed.
    Key(Key),
    /// Something else happened, such as a resize.
    Other,
    /// The wait ran out.
    Quiet,
    /// Reading failed this once.
    Failed,
    /// The input is gone for good, or a shutdown was asked for.
    Closed,
}

/// The event that a poll puts on the stream, if any.
pub open spec fn polled_event(polled: Polled) -> Option<Event> {
    match polled {
        Polled::Key(key) => Some(Event::Key(key)),
        Polled::Other => Some(Event::Other),
        Polled::Quiet => None,
        Polled::Failed => Some(Event::Error),
        Polled::Closed => Some(Event::Quit),
    }
}

/// Turns what a poll brought into an event of the stream.
pub fn input_event(polled: Polled) -> (event: Option<Event>)
    ensures
        event == polled_event(polled),
{
    match polled {
        Polled::Key(key) => Some(Event::Key(key)),
        Polled::Other => Some(Event::Other),
        Polled::Quiet => None,
        Polled::Failed => Some(Event::Error),
        Polled::Closed => Some(Event::Quit),
    }
}

/// The time left from `now` until `deadline`: zero once it has passed.
pub open spec fn remaining(deadline: u64, now: u64) -> u64 {
    if deadline > now {
        (deadline - now) as u64
    } else {
        0
    }
}

/// `time` moved on by `interval`, held at the largest time there is.
pub open spec fn later(time: u64, interval: u64) -> u64 {
    if time + interval > u64::MAX {
        u64::MAX
    } else {
        (time + interval) as u64
    }
}

/// The deadline that follows `deadline` once its timer has fired at `now`:
/// one period after the old deadline, or, where that has passed already, one
/// period after `now`. Missed periods are skipped, not made up for.
pub open spec fn rearmed(deadline: u64, interval: u64, now: u64) -> u64 {
    if later(deadline, interval) > now {
        later(deadline, interval)
    } else {
        later(now, interval)
    }
}

/// What the caller does next.
#[derive(Clone, Copy, Debug, PartialEq, Eq, Structural)]
pub enum Step {
    /// Put this timer event on the stream.
    Emit(Event),
    /// Poll the keyboard, waiting no longer than this.
    Poll(u64),
}

/// What a `Clock` stands for: its two periods, its two deadlines, and whether
/// the keyboard has been polled since the last timer event.
pub struct ClockView {
    pub tick_interval: u64,
    pub frame_interval: u64,
    pub next_tick: u64,
    pub next_frame: u64,
    pub polled: bool,
}

impl ClockView {
    /// A clock started at `now`: each timer first fires one period later.
    pub open spec fn started(tick_interval: u64, frame_interval: u64, now: u64) -> ClockView {
        ClockView {
            tick_interval,
            frame_interval,
            next_tick: later(now, tick_interval),
            next_frame: later(now, frame_interval),
            polled: false,
        }
    }

    /// Both periods are positive.
    pub open spec fn wf(self) -> bool {
        self.tick_interval > 0 && self.frame_interval > 0
    }

    /// How long a poll that starts at `now` may wait: until the nearer of the
    /// two deadlines.
    pub open spec fn wait(self, now: u64) -> u64 {
        if remaining(self.next_tick, now) <= remaining(self.next_frame, now) {
            remaining(self.next_tick, now)
        } else {
            remaining(self.next_frame, now)
        }
    }

    /// The timer event that is due at `now`. Where both timers are due the one
    /// with the earlier deadline goes first, and the tick where they are equal.
    pub open spec fn due(self, now: u64) -> Option<Event> {
        if self.next_tick <= now && (self.next_tick <= self.next_frame || self.next_frame > now) {
            Some(Event::Tick)
        } else if self.next_frame <= now {
            Some(Event::Render)
        } else {
            None
        }
    }

    /// The clock after the event that is due at `now` has been taken: that
    /// timer is armed again, the other is untouched.
    pub open spec fn fired(self, now: u64) -> ClockView {
        match self.due(now) {
            Some(Event::Tick) => ClockView {
                next_tick: rearmed(self.next_tick, self.tick_interval, now),
                ..self
            },
            Some(Event::Render) => ClockView {
                next_frame: rearmed(self.next_frame, self.frame_interval, now),
                ..self
            },
            _ => self,
        }
    }

    /// Whether the step at `now` is a timer event: one is due, and the
    /// keyboard has had its turn since the last.
    pub open spec fn emits(self, now: u64) -> bool {
        self.polled && self.due(now) is Some
    }

    /// The step at `now`.
    pub open spec fn step(self, now: u64) -> Step {
        if self.emits(now) {
            Step::Emit(self.due(now)->0)
        } else {
            Step::Poll(self.wait(now))
        }
    }

    /// The clock after the step at `now`.
    pub open spec fn stepped(self, now: u64) -> ClockView {
        if self.emits(now) {
            ClockView { polled: false, ..self.fired(now) }
        } else {
            ClockView { polled: true, ..self }
        }
    }
}

/// The two timers.
pub struct Clock {
    tick_interval: u64,
    frame_interval: u64,
    next_tick: u64,
    next_frame: u64,
    polled: bool,
}

impl View for Clock {
    type V = ClockView;

    closed spec fn view(&self) -> ClockView {
        ClockView {
            tick_interval: self.tick_interval,
            frame_interval: self.frame_interval,
            next_tick: self.next_tick,
            next_frame: self.next_frame,
            polled: self.polled,
        }
    }
}

impl Clock {
    /// What holds of every `Clock` that the program holds.
    #[verifier::type_invariant]
    pub closed spec fn inv(self) -> bool {
        self@.wf()
    }

    /// Every `Clock` that the program holds has positive periods.
    pub proof fn lemma_inv_is_wf(self)
        requires
            self.inv(),
        ensures
            self@.wf(),
    {
    }

    /// A clock started at `now`, or nothing where a period is zero.
    pub fn new(tick_interval: u64, frame_interval: u64, now: u64) -> (clock: Option<Clock>)
        ensures
            clock is Some <==> tick_interval > 0 && frame_interval > 0,
            clock matches Some(started) ==> started@ == ClockView::started(
                tick_interval,
                frame_interval,
                now,
            ) && started@.wf(),
    {
        if tick_interval == 0 || frame_interval == 0 {
            None
        } else {
            Some(
                Clock {
                    tick_interval,
                    frame_interval,
                    next_tick: now.saturating_add(tick_interval),
                    next_frame: now.saturating_add(frame_interval),
                    polled: false,
                },
            )
        }
    }

    /// How long a poll of the keyboard that starts at `now` may wait, so that
    /// neither timer is late because of it.
    pub fn poll_timeout(&self, now: u64) -> (wait: u64)
        ensures
            wait == self@.wait(now),
            wait <= remaining(self@.next_tick, now),
            wait <= remaining(self@.next_frame, now),
    {
        let tick = if self.next_tick > now {
            self.next_tick - now
        } else {
            0
        };
        let frame = if self.next_frame > now {
            self.next_frame - now
        } else {
            0
        };
        if tick <= frame {
            tick
        } else {
            frame
        }
    }

    /// Decides the step at `now`: a timer event, where one is due and the
    /// keyboard has been polled since the last, and else a poll.
    pub fn next_step(&mut self, now: u64) -> (step: Step)
        ensures
            step == old(self)@.step(now),
            final(self)@ == old(self)@.stepped(now),
            final(self)@.wf(),
    {
        proof {
            use_type_invariant(&*self);
        }
        let tick_due = self.next_tick <= now;
        let frame_due = self.next_frame <= now;
        if !self.polled || !(tick_due || frame_due) {
            let wait = self.poll_timeout(now);
            self.polled = true;
            Step::Poll(wait)
        } else if tick_due && (self.next_tick <= self.next_frame || !frame_due) {
            let next = rearm(self.next_tick, self.tick_interval, now);
            *self = Clock { next_tick: next, polled: false, ..*self };
            Step::Emit(Event::Tick)
        } else {
            let next = rearm(self.next_frame, self.frame_interval, now);
            *self = Clock { next_frame: next, polled: false, ..*self };
            Step::Emit(Event::Render)
        }
    }
}

fn rearm(deadline: u64, interval: u64, now: u64) -> (next: u64)
    ensures
        next == rearmed(deadline, interval, now),
{
    let nominal = deadline.saturating_add(interval);
    if nominal > now {
        nominal
    } else {
        now.saturating_add(interval)
    }
}

/// The keyboard is not starved: a timer event is never followed by another
/// timer event, whatever the time; the step after it is a poll.
pub proof fn lemma_poll_follows_timer(clock: ClockView, now: u64, then: u64)
    requires
        clock.step(now) is Emit,
    ensures
        clock.stepped(now).step(then) is Poll,
{
}

/// The timers are not starved: once the keyboard has been polled, the step at
/// a time at which a deadline has been reached is the event of the timer that
/// is due, the one with the earlier deadline first.
pub proof fn lemma_timer_follows_poll(clock: ClockView, now: u64, then: u64)
    requires
        clock.step(now) is Poll,
        clock.stepped(now).next_tick <= then || clock.stepped(now).next_frame <= then,
    ensures
        clock.stepped(now) == (ClockView { polled: true, ..clock }),
        clock.stepped(now).step(then) is Emit,
        clock.stepped(now).step(then) == Step::Emit(clock.due(then)->0),
{
}

/// A poll does not outlast a deadline: one that starts at `now`, before both
/// deadlines, may wait exactly until the nearer of them. Once a deadline has
/// been reached a poll does not wait at all.
pub proof fn lemma_wait_ends_in_time(clock: ClockView, now: u64)
    ensures
        clock.due(now) is Some ==> clock.wait(now) == 0,
        clock.due(now) is None ==> now + clock.wait(now) <= clock.next_tick,
        clock.due(now) is None ==> now + clock.wait(now) <= clock.next_frame,
        clock.due(now) is None ==> now + clock.wait(now) == clock.next_tick || now + clock.wait(now)
            == clock.next_frame,
{
}

/// No timer is passed over: whenever a deadline has been reached an event is
/// due, and the timer that did not fire keeps its deadline.
pub proof fn lemma_due_is_not_dropped(clock: ClockView, now: u64)
    ensures
        clock.next_tick <= now || clock.next_frame <= now <==> clock.due(now) is Some,
        clock.due(now) == Some(Event::Tick) ==> clock.fired(now).next_frame == clock.next_frame,
        clock.due(now) == Some(Event::Render) ==> clock.fired(now).next_tick == clock.next_tick,
        clock.due(now) is None ==> clock.fired(now) == clock,
{
}

/// A timer that has fired is not due again at the same instant: its new
/// deadline lies after `now`, unless time itself has run out. No deadline
/// ever moves back.
pub proof fn lemma_fired_moves_on(clock: ClockView, now: u64)
    requires
        clock.wf(),
        now < u64::MAX,
    ensures
        clock.fired(now).wf(),
        clock.due(now) == Some(Event::Tick) ==> clock.fired(now).next_tick > now,
        clock.due(now) == Some(Event::Render) ==> clock.fired(now).next_frame > now,
        clock.fired(now).next_tick >= clock.next_tick,
        clock.fired(now).next_frame >= clock.next_frame,
{
}

} // verus!
