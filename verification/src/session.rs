//! The supervisor of one synchronization session.
//!
//! A session races its jobs: the first job to settle ends it. Every other job
//! is then told to stop, one after the other, and the session resolves to the
//! outcome of the job that settled first. The session itself performs no
//! work: its host launches the jobs, awaits them, and reports what happened as
//! events; the session answers each event with the next thing to do.

use vstd::prelude::*;

verus! {

/// What a session knows of one of its jobs.
#[derive(Clone, Copy, Debug, PartialEq, Eq)]
pub enum JobStatus {
    /// Launched; it has neither settled first nor been told to stop.
    Running,
    /// The first job to settle: its outcome is the session's.
    Settled,
    /// Told to stop; its reply is awaited.
    Cancelling,
    /// Told to stop, and its reply was taken, whatever it said.
    Cancelled,
}

/// What the host of a session does next.
#[derive(Clone, Copy, Debug, PartialEq, Eq)]
pub enum Directive {
    /// Wait for the first job to settle, and report it.
    Wait,
    /// Send the cancellation signal to the job with this launch index, await
    /// its reply, and report it.
    Cancel(usize),
    /// The session is over: take its outcome.
    Resolve,
}

/// What came back from a job that was told to stop.
#[derive(Debug, PartialEq, Eq)]
pub enum CancelReply<E> {
    /// The job confirmed that it stopped.
    Acknowledged,
    /// The cancellation itself failed.
    Failed,
    /// The job had settled on its own before the signal took effect.
    Settled(Result<(), E>),
}

/// What the host reports to a session.
#[derive(Debug, PartialEq, Eq)]
pub enum SessionEvent<E> {
    /// A job settled, with success or with a failure.
    JobSettled { job: usize, outcome: Result<(), E> },
    /// A job that was told to stop replied.
    CancelReplied { job: usize, reply: CancelReply<E> },
}

/// The job that settled first, with its outcome.
pub struct Settlement<E> {
    pub job: nat,
    pub outcome: Result<(), E>,
}

/// The mathematical state of a session.
pub struct SessionView<E> {
    /// How many jobs were launched. Jobs are named by their launch index.
    pub jobs: nat,
    /// The job that settled first, with its outcome.
    pub settled: Option<Settlement<E>>,
    /// How many of the other jobs have replied to their cancellation.
    pub stopped: nat,
}

impl<E> SessionView<E> {
    /// The state right after `jobs` jobs were launched.
    pub open spec fn launch(jobs: nat) -> Self {
        SessionView { jobs, settled: None, stopped: 0 }
    }

    /// Whether the state is one that a session can be in: it has a job, the
    /// job that settled first is one of its jobs, and no job has replied to a
    /// cancellation before a job settled, nor more jobs than there are others.
    pub open spec fn wf(self) -> bool {
        &&& self.jobs >= 1
        &&& match self.settled {
            None => self.stopped == 0,
            Some(first) => first.job < self.jobs && self.stopped < self.jobs,
        }
    }

    /// No job has settled yet.
    pub open spec fn racing(self) -> bool {
        self.settled is None
    }

    /// A job has settled and some other job has not replied to its
    /// cancellation yet.
    pub open spec fn cancelling(self) -> bool {
        self.settled is Some && self.stopped + 1 < self.jobs
    }

    /// A job has settled and every other job has replied to its cancellation.
    pub open spec fn resolved(self) -> bool {
        self.settled is Some && self.stopped + 1 >= self.jobs
    }

    /// The job that is told to stop in place `position` once `winner` has
    /// settled: the jobs go in launch order, but the job launched last takes
    /// the place of the winner.
    pub open spec fn cancelled_at(jobs: nat, winner: nat, position: nat) -> nat {
        if position == winner {
            (jobs - 1) as nat
        } else {
            position
        }
    }

    /// The place of `job` among the jobs that are told to stop once `winner`
    /// has settled.
    pub open spec fn place_of(jobs: nat, winner: nat, job: nat) -> nat {
        if job + 1 == jobs {
            winner
        } else {
            job
        }
    }

    /// The job that is being told to stop.
    pub open spec fn target(self) -> nat
        recommends
            self.cancelling(),
    {
        Self::cancelled_at(self.jobs, self.settled->0.job, self.stopped)
    }

    /// What the host does next in this state.
    pub open spec fn directive(self) -> Directive {
        if self.racing() {
            Directive::Wait
        } else if self.cancelling() {
            Directive::Cancel(self.target() as usize)
        } else {
            Directive::Resolve
        }
    }

    /// What the session knows of `job`.
    pub open spec fn status(self, job: nat) -> JobStatus
        recommends
            job < self.jobs,
    {
        match self.settled {
            None => JobStatus::Running,
            Some(first) => {
                let place = Self::place_of(self.jobs, first.job, job);
                if job == first.job {
                    JobStatus::Settled
                } else if place < self.stopped {
                    JobStatus::Cancelled
                } else if place == self.stopped {
                    JobStatus::Cancelling
                } else {
                    JobStatus::Running
                }
            },
        }
    }

    /// What the session resolves to: the outcome of the job that settled
    /// first, once every other job has replied to its cancellation.
    pub open spec fn outcome(self) -> Option<Result<(), E>> {
        if self.resolved() {
            Some(self.settled->0.outcome)
        } else {
            None
        }
    }

    /// The state after `event`.
    ///
    /// The first job reported as settled wins. Any later report of a settled
    /// job changes nothing. A reply counts only when it comes from the job
    /// that is being told to stop, and it counts whatever it says.
    pub open spec fn step(self, event: SessionEvent<E>) -> Self {
        match event {
            SessionEvent::JobSettled { job, outcome } => {
                if self.racing() && job < self.jobs {
                    SessionView { settled: Some(Settlement { job: job as nat, outcome }), ..self }
                } else {
                    self
                }
            },
            SessionEvent::CancelReplied { job, reply } => {
                if self.cancelling() && job == self.target() {
                    SessionView { stopped: self.stopped + 1, ..self }
                } else {
                    self
                }
            },
        }
    }

    /// The state after each of `events` in turn.
    pub open spec fn run(self, events: Seq<SessionEvent<E>>) -> Self
        decreases events.len(),
    {
        if events.len() == 0 {
            self
        } else {
            self.run(events.drop_last()).step(events.last())
        }
    }
}

impl<E> SessionView<E> {
    /// Whether `event` reports the settling of one of `jobs` jobs.
    pub open spec fn reports_settling(jobs: nat, event: SessionEvent<E>) -> bool {
        event matches SessionEvent::JobSettled { job, .. } && job < jobs
    }

    /// An event leaves a well-formed state well-formed.
    pub proof fn lemma_step_keeps_wf(self, event: SessionEvent<E>)
        requires
            self.wf(),
        ensures
            self.step(event).wf(),
            self.step(event).jobs == self.jobs,
    {
    }

    /// Any sequence of events leaves a well-formed state well-formed.
    pub proof fn lemma_run_keeps_wf(self, events: Seq<SessionEvent<E>>)
        requires
            self.wf(),
        ensures
            self.run(events).wf(),
            self.run(events).jobs == self.jobs,
        decreases events.len(),
    {
        if events.len() > 0 {
            self.lemma_run_keeps_wf(events.drop_last());
            self.run(events.drop_last()).lemma_step_keeps_wf(events.last());
        }
    }

    /// A session starts clean, whatever sessions came before it: every job is
    /// running, none was told to stop, and the host is to wait.
    pub proof fn lemma_launch_is_clean(jobs: nat)
        requires
            jobs >= 1,
        ensures
            Self::launch(jobs).wf(),
            Self::launch(jobs).directive() == Directive::Wait,
            Self::launch(jobs).outcome() is None,
            forall|job: nat| #[trigger] Self::launch(jobs).status(job) == JobStatus::Running,
    {
    }

    /// A session of one job resolves as soon as that job settles, to that
    /// job's outcome, and tells no job to stop.
    pub proof fn lemma_single_job_resolves_at_once(outcome: Result<(), E>)
        ensures
            ({
                let after = Self::launch(1).step(SessionEvent::JobSettled { job: 0, outcome });
                &&& after.directive() == Directive::Resolve
                &&& after.outcome() == Some(outcome)
                &&& after.status(0) == JobStatus::Settled
            }),
    {
    }

    /// The jobs that are told to stop are the jobs other than the winner, each
    /// of them in one place.
    pub proof fn lemma_every_other_job_has_a_place(jobs: nat, winner: nat, job: nat)
        requires
            winner < jobs,
            job < jobs,
            job != winner,
        ensures
            Self::place_of(jobs, winner, job) + 1 < jobs,
            Self::cancelled_at(jobs, winner, Self::place_of(jobs, winner, job)) == job,
    {
    }

    /// Each place holds a job other than the winner, and no two places hold
    /// the same job.
    pub proof fn lemma_every_place_has_another_job(jobs: nat, winner: nat, position: nat)
        requires
            winner < jobs,
            position + 1 < jobs,
        ensures
            Self::cancelled_at(jobs, winner, position) < jobs,
            Self::cancelled_at(jobs, winner, position) != winner,
            Self::place_of(jobs, winner, Self::cancelled_at(jobs, winner, position)) == position,
    {
    }

    /// Once a job has settled, no event changes which job that was nor what
    /// its outcome was: what another job reports later is never taken.
    pub proof fn lemma_first_settlement_stands(self, events: Seq<SessionEvent<E>>)
        requires
            self.settled is Some,
        ensures
            self.run(events).settled == self.settled,
        decreases events.len(),
    {
        if events.len() > 0 {
            self.lemma_first_settlement_stands(events.drop_last());
        }
    }

    /// Events that report no settling of a job leave a new session as it was.
    pub proof fn lemma_nothing_happens_before_a_job_settles(
        jobs: nat,
        events: Seq<SessionEvent<E>>,
    )
        requires
            forall|i: int|
                0 <= i < events.len() ==> !Self::reports_settling(jobs, #[trigger] events[i]),
        ensures
            Self::launch(jobs).run(events) == Self::launch(jobs),
        decreases events.len(),
    {
        if events.len() > 0 {
            Self::lemma_nothing_happens_before_a_job_settles(jobs, events.drop_last());
        }
    }

    /// The session's settlement is the first settling of a job that is
    /// reported to it, whatever is reported before and after.
    pub proof fn lemma_first_report_wins(
        jobs: nat,
        events: Seq<SessionEvent<E>>,
        at: int,
        job: usize,
        outcome: Result<(), E>,
    )
        requires
            0 <= at < events.len(),
            events[at] == (SessionEvent::JobSettled { job, outcome }),
            job < jobs,
            forall|i: int| 0 <= i < at ==> !Self::reports_settling(jobs, #[trigger] events[i]),
        ensures
            Self::launch(jobs).run(events).settled == Some(
                Settlement { job: job as nat, outcome },
            ),
        decreases events.len(),
    {
        let before = events.drop_last();
        if at == events.len() - 1 {
            Self::lemma_nothing_happens_before_a_job_settles(jobs, before);
        } else {
            Self::lemma_first_report_wins(jobs, before, at, job, outcome);
        }
    }

    /// A session resolves only when every job other than the winner has been
    /// told to stop and has replied.
    pub proof fn lemma_resolved_after_every_other_job_stopped(self, job: nat)
        requires
            self.wf(),
            self.resolved(),
            job < self.jobs,
        ensures
            self.status(job) == if job == self.settled->0.job {
                JobStatus::Settled
            } else {
                JobStatus::Cancelled
            },
    {
    }

    /// While a session is not resolved after a job settled, exactly one job is
    /// being told to stop: the one that the directive names.
    pub proof fn lemma_one_job_is_told_to_stop_at_a_time(self, job: nat)
        requires
            self.wf(),
            self.cancelling(),
            job < self.jobs,
        ensures
            self.directive() == Directive::Cancel(self.target() as usize),
            self.target() < self.jobs,
            self.status(job) == JobStatus::Cancelling <==> job == self.target(),
    {
    }

    /// An event moves a job at most one stage on: a running job settles or is
    /// told to stop, a job that is told to stop has replied. A job never comes
    /// to have replied without having been told to stop, and the winner and
    /// the jobs that replied stay as they are.
    pub proof fn lemma_status_moves_one_stage(self, event: SessionEvent<E>, job: nat)
        requires
            self.wf(),
            job < self.jobs,
        ensures
            ({
                let before = self.status(job);
                let after = self.step(event).status(job);
                ||| after == before
                ||| before == JobStatus::Running && after == JobStatus::Settled
                ||| before == JobStatus::Running && after == JobStatus::Cancelling
                ||| before == JobStatus::Cancelling && after == JobStatus::Cancelled
            }),
    {
    }
}

/// One synchronization session over a fixed number of jobs.
#[derive(Debug)]
pub struct SyncSession<E> {
    jobs: usize,
    settled: Option<(usize, Result<(), E>)>,
    stopped: usize,
}

impl<E> View for SyncSession<E> {
    type V = SessionView<E>;

    closed spec fn view(&self) -> SessionView<E> {
        SessionView {
            jobs: self.jobs as nat,
            settled: match self.settled {
                None => None,
                Some((winner, outcome)) => Some(Settlement { job: winner as nat, outcome }),
            },
            stopped: self.stopped as nat,
        }
    }
}

impl<E> SyncSession<E> {
    #[verifier::type_invariant]
    spec fn inv(self) -> bool {
        self@.wf()
    }

    /// Starts a session over `jobs` jobs that were just launched.
    pub fn launch(jobs: usize) -> (session: Self)
        requires
            jobs >= 1,
        ensures
            session@ == SessionView::<E>::launch(jobs as nat),
    {
        SyncSession { jobs, settled: None, stopped: 0 }
    }

    /// Takes one event and says what to do next.
    pub fn step(&mut self, event: SessionEvent<E>) -> (directive: Directive)
        ensures
            final(self)@ == old(self)@.step(event),
            final(self)@.wf(),
            directive == final(self)@.directive(),
    {
        proof {
            use_type_invariant(&*self);
        }
        match event {
            SessionEvent::JobSettled { job, outcome } => {
                if self.settled.is_none() && job < self.jobs {
                    self.settled = Some((job, outcome));
                }
            },
            SessionEvent::CancelReplied { job, reply: _ } => {
                match self.target() {
                    Some(target) => {
                        if target == job {
                            self.stopped = self.stopped + 1;
                        }
                    },
                    None => {},
                }
            },
        }
        self.directive()
    }

    /// What the host does next.
    pub fn directive(&self) -> (directive: Directive)
        ensures
            self@.wf(),
            directive == self@.directive(),
    {
        proof {
            use_type_invariant(self);
        }
        if self.settled.is_none() {
            Directive::Wait
        } else {
            match self.target() {
                Some(target) => Directive::Cancel(target),
                None => Directive::Resolve,
            }
        }
    }

    /// The number of jobs of the session.
    pub fn jobs(&self) -> (jobs: usize)
        ensures
            jobs == self@.jobs,
            jobs >= 1,
    {
        proof {
            use_type_invariant(self);
        }
        self.jobs
    }

    /// The job that settled first, if one has.
    pub fn winner(&self) -> (winner: Option<usize>)
        ensures
            match winner {
                Some(job) => self@.settled is Some && job == self@.settled->0.job,
                None => self@.settled is None,
            },
    {
        match &self.settled {
            Some((job, _)) => Some(*job),
            None => None,
        }
    }

    /// What the session knows of `job`; `None` where the session has no such
    /// job.
    pub fn status(&self, job: usize) -> (status: Option<JobStatus>)
        ensures
            status == if job < self@.jobs {
                Some(self@.status(job as nat))
            } else {
                None
            },
    {
        proof {
            use_type_invariant(self);
        }
        if job >= self.jobs {
            return None;
        }
        match &self.settled {
            None => Some(JobStatus::Running),
            Some((winner, _)) => {
                let place: usize = if job == self.jobs - 1 {
                    *winner
                } else {
                    job
                };
                if job == *winner {
                    Some(JobStatus::Settled)
                } else if place < self.stopped {
                    Some(JobStatus::Cancelled)
                } else if place == self.stopped {
                    Some(JobStatus::Cancelling)
                } else {
                    Some(JobStatus::Running)
                }
            },
        }
    }

    /// Whether the session is over.
    pub fn is_resolved(&self) -> (resolved: bool)
        ensures
            resolved == self@.resolved(),
    {
        proof {
            use_type_invariant(self);
        }
        self.settled.is_some() && self.stopped >= self.jobs - 1
    }

    /// Ends the session and hands out what it resolved to: the outcome of the
    /// job that settled first, or `None` while the session is not over.
    pub fn into_outcome(self) -> (outcome: Option<Result<(), E>>)
        ensures
            outcome == self@.outcome(),
    {
        proof {
            use_type_invariant(&self);
        }
        let over = self.stopped >= self.jobs - 1;
        match self.settled {
            Some((_, outcome)) => {
                if over {
                    Some(outcome)
                } else {
                    None
                }
            },
            None => None,
        }
    }

    /// The job that is being told to stop, if the session is at that point.
    fn target(&self) -> (target: Option<usize>)
        ensures
            match target {
                Some(job) => self@.cancelling() && job == self@.target(),
                None => !self@.cancelling(),
            },
    {
        proof {
            use_type_invariant(self);
        }
        match &self.settled {
            Some((winner, _)) => {
                if self.stopped < self.jobs - 1 {
                    if self.stopped == *winner {
                        Some(self.jobs - 1)
                    } else {
                        Some(self.stopped)
                    }
                } else {
                    None
                }
            },
            None => None,
        }
    }
}

} // verus!
