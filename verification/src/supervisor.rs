//! The task supervisor's record of the background tasks, and the timer's
//! decisions.
//!
//! The supervisor owns one cancellation token and the handle of every task
//! that was started with a copy of it. Tearing down hands all of them out as
//! the steps to take, in their order: the signal on the token first, then
//! the wait for every task. None is left behind.

use vstd::prelude::*;

verus! {

/// The record of the background tasks: the cancellation token that they
/// share and their handles, in the order in which they were started.
pub struct TaskGuard<T, H> {
    notify: T,
    handles: Vec<H>,
}

/// One step of stopping the tasks.
#[derive(Debug, PartialEq)]
pub enum TeardownStep<T, H> {
    /// Signal the token: every task that watches it ends its sleep or wait.
    Signal(T),
    /// Wait until the task of the handle has ended.
    Wait(H),
}

/// The steps that stop the tasks of the handles, in the order in which they
/// are taken: the signal on the token comes first, and the wait for each
/// task follows, oldest task first. No task is waited for before the signal
/// is given, and every task is waited for.
pub open spec fn teardown_steps<T, H>(token: T, handles: Seq<H>) -> Seq<TeardownStep<T, H>> {
    Seq::new(
        handles.len() + 1,
        |i: int|
            if i == 0 {
                TeardownStep::Signal(token)
            } else {
                TeardownStep::Wait(handles[i - 1])
            },
    )
}

impl<T: Clone, H> TaskGuard<T, H> {
    /// The token that the tasks share.
    pub closed spec fn token(self) -> T {
        self.notify
    }

    /// The handles of the tasks that run and have not been handed out for
    /// teardown, oldest first.
    pub closed spec fn tasks(self) -> Seq<H> {
        self.handles@
    }

    /// A supervisor without tasks.
    pub fn new(notify: T) -> (guard: Self)
        ensures
            guard.token() == notify,
            guard.tasks() == Seq::<H>::empty(),
    {
        TaskGuard { notify, handles: Vec::new() }
    }

    /// Starts a task with a copy of the token and keeps its handle.
    pub fn spawn<F>(&mut self, f: F) where F: FnOnce(T) -> H
        requires
            forall|token: T|
                #![trigger f.requires((token,))]
                cloned(old(self).token(), token) ==> f.requires((token,)),
        ensures
            final(self).token() == old(self).token(),
            exists|token: T, handle: H|
                cloned(old(self).token(), token) && f.ensures((token,), handle)
                    && final(self).tasks() == old(self).tasks().push(handle),
    {
        let notify = self.notify.clone();
        let handle = f(notify);
        self.handles.push(handle);
    }

    /// How many tasks are kept.
    pub fn len(&self) -> (count: usize)
        ensures
            count == self.tasks().len(),
    {
        self.handles.len()
    }

    /// Gives the steps that stop the tasks, in order: the signal on a copy of
    /// the token, then the wait for every handle, oldest first. The
    /// supervisor keeps no handle, so a second teardown signals again and
    /// finds nothing to wait for.
    pub fn shutdown(&mut self) -> (steps: Vec<TeardownStep<T, H>>)
        ensures
            exists|token: T|
                cloned(old(self).token(), token) && steps@ == teardown_steps(
                    token,
                    old(self).tasks(),
                ),
            final(self).token() == old(self).token(),
            final(self).tasks() == Seq::<H>::empty(),
    {
        let mut handles: Vec<H> = Vec::new();
        handles.append(&mut self.handles);
        let token = self.notify.clone();
        let ghost signalled = token;
        let ghost tasks = handles@;
        let mut steps: Vec<TeardownStep<T, H>> = Vec::new();
        steps.push(TeardownStep::Signal(token));
        assert(steps@ =~= teardown_steps(signalled, tasks.take(0)));
        for handle in waited: handles
            invariant
                cloned(self.notify, signalled),
                self.handles@ == Seq::<H>::empty(),
                waited.seq() == tasks,
                steps@ == teardown_steps(signalled, tasks.take(waited.index() as int)),
        {
            steps.push(TeardownStep::Wait(handle));
            assert(steps@ =~= teardown_steps(signalled, tasks.take(waited.index() + 1)));
        }
        assert(tasks.take(tasks.len() as int) =~= tasks);
        assert(cloned(old(self).token(), signalled));
        steps
    }
}

/// In a teardown the signal is the first step and the only signal; every
/// step behind it waits for one task, and every task is waited for once, in
/// the order in which the tasks were started. So no wait begins before the
/// tasks were told to stop, and when the last step is done no task runs.
pub proof fn signal_precedes_every_wait<T, H>(token: T, handles: Seq<H>)
    ensures
        teardown_steps(token, handles).len() == handles.len() + 1,
        teardown_steps(token, handles)[0] == TeardownStep::<T, H>::Signal(token),
        forall|i: int|
            0 < i <= handles.len() ==> #[trigger] teardown_steps(token, handles)[i]
                == TeardownStep::<T, H>::Wait(handles[i - 1]),
{
}

/// Seconds in a minute.
pub const SECONDS_PER_MINUTE: u64 = 60;

/// How a sleep of the timer ended. The timer never sleeps without also
/// waiting for the other two.
#[derive(Clone, Copy, Debug, PartialEq, Eq, Structural)]
pub enum Wake {
    /// The interval has passed.
    Elapsed,
    /// The controller set a new interval, in minutes.
    Restarted { minutes: u32 },
    /// The supervisor signalled the cancellation token.
    Cancelled,
}

/// What the timer does next.
#[derive(Clone, Copy, Debug, PartialEq, Eq, Structural)]
pub enum TimerStep {
    /// Put a timer message on the intake channel if `emit` holds, then sleep
    /// for the seconds given.
    Sleep { emit: bool, seconds: u64 },
    /// End the task.
    Stop,
}

/// The periodic timer: its interval in minutes, at least one.
#[derive(Debug, PartialEq)]
pub struct Timer {
    minutes: u32,
}

/// The interval after a sleep has ended: a new interval of at least a minute
/// replaces the old one, and nothing else changes it.
pub open spec fn interval_after(minutes: u32, wake: Wake) -> u32 {
    match wake {
        Wake::Restarted { minutes: new } if new > 0 => new,
        _ => minutes,
    }
}

/// What the timer does after a sleep has ended. When the interval has passed
/// it emits and sleeps again; with a new interval it sleeps anew without
/// emitting; cancelled, it stops.
pub open spec fn timer_step(minutes: u32, wake: Wake) -> TimerStep {
    match wake {
        Wake::Cancelled => TimerStep::Stop,
        Wake::Elapsed => TimerStep::Sleep { emit: true, seconds: (minutes * 60) as u64 },
        Wake::Restarted { .. } => TimerStep::Sleep {
            emit: false,
            seconds: (interval_after(minutes, wake) * 60) as u64,
        },
    }
}

impl Timer {
    #[verifier::type_invariant]
    spec fn positive(self) -> bool {
        self.minutes > 0
    }

    /// The interval in minutes.
    pub closed spec fn interval(self) -> u32 {
        self.minutes
    }

    /// A timer with the interval, unless the interval is zero.
    pub fn new(minutes: u32) -> (timer: Option<Timer>)
        ensures
            minutes == 0 ==> timer is None,
            minutes > 0 ==> timer is Some && timer->0.interval() == minutes,
    {
        if minutes == 0 {
            None
        } else {
            Some(Timer { minutes })
        }
    }

    /// The length of one sleep, in seconds.
    pub fn sleep_seconds(&self) -> (seconds: u64)
        ensures
            seconds == self.interval() * 60,
            seconds >= 60,
    {
        proof {
            use_type_invariant(self);
        }
        let minutes: u64 = self.minutes.into();
        minutes * SECONDS_PER_MINUTE
    }

    /// Decides what follows a sleep.
    pub fn wake(&mut self, wake: Wake) -> (step: TimerStep)
        ensures
            final(self).interval() == interval_after(old(self).interval(), wake),
            step == timer_step(old(self).interval(), wake),
    {
        match wake {
            Wake::Cancelled => TimerStep::Stop,
            Wake::Elapsed => TimerStep::Sleep { emit: true, seconds: self.sleep_seconds() },
            Wake::Restarted { minutes } => {
                if minutes > 0 {
                    self.minutes = minutes;
                }
                TimerStep::Sleep { emit: false, seconds: self.sleep_seconds() }
            },
        }
    }
}

/// A cancelled timer stops whatever its interval, and a timer that goes on
/// sleeps for at least a minute: it neither outlives the teardown nor spins.
pub proof fn timer_stops_or_sleeps(minutes: u32, wake: Wake)
    requires
        minutes > 0,
    ensures
        wake == Wake::Cancelled <==> timer_step(minutes, wake) == TimerStep::Stop,
        timer_step(minutes, wake) matches TimerStep::Sleep { seconds, .. } ==> seconds >= 60,
        interval_after(minutes, wake) > 0,
{
}

} // verus!
