//! The build scheduler: one pass over the discovered documents, between the
//! two lifecycle hooks, with a bound on how many documents are in work at
//! once.
//!
//! The scheduler is a state machine. The caller tells it what has happened
//! and is told what to do next; it starts no thread and no process itself.
use crate::config::{effective_workers, pool_size, InvalidTextPolicy};
use crate::error::FatalError;
use crate::job::{job_views, BuildJob, JobStatus, JobView};
use crate::plugin::HookMode;
use vstd::prelude::*;

verus! {

/// Where a run stands.
#[derive(Clone, Copy, PartialEq, Eq, Structural, Debug)]
pub enum Phase {
    /// Nothing has been started.
    Idle,
    /// The `init` hook is being started in the background.
    LifecycleInit,
    /// The input pattern is being resolved to documents.
    Discovery,
    /// Documents are being built.
    Building,
    /// Every document is built; the `postinit` hook is running.
    LifecyclePostinit,
    /// The `postinit` hook is over; the `init` hook is being waited for.
    Joining,
    /// The run is over and went well.
    Done,
    /// The run was ended by a failure.
    Failed,
}

/// What the caller reports to the scheduler.
#[derive(Clone, Debug)]
pub enum Event {
    /// The run begins.
    Begin,
    /// The `init` hook has been started and runs in the background.
    InitStarted,
    /// The input pattern resolved to these documents.
    Discovered(Vec<BuildJob>),
    /// The input pattern could not be resolved.
    DiscoveryFailed,
    /// The job last handed out has been given to a worker.
    JobStarted,
    /// A job that was in work is over, its page written or left out.
    JobFinished,
    /// A job that was in work ended the run.
    JobFailed(FatalError),
    /// The `postinit` hook is over; the index is that of a plugin that could
    /// not be started, if there was one.
    PostinitFinished(Option<usize>),
    /// The `init` hook is over; the index is that of a plugin that could not
    /// be started, if there was one. That there was one may be reported as
    /// soon as it is known; that there was none, when the hook is waited for.
    InitJoined(Option<usize>),
}

/// What the scheduler tells the caller to do next.
#[derive(Clone, Copy, PartialEq, Eq, Structural, Debug)]
pub enum Action {
    /// Start the `init` hook without waiting for it, then report
    /// `InitStarted`.
    StartInit,
    /// Resolve the input pattern, then report `Discovered` or
    /// `DiscoveryFailed`.
    Discover,
    /// Give the job at this index to a worker, then report `JobStarted`.
    StartJob(usize),
    /// Wait until a job in work is over, then report `JobFinished` or
    /// `JobFailed`.
    AwaitJob,
    /// Run the `postinit` hook to its end, then report `PostinitFinished`.
    RunPostinit,
    /// Wait for the `init` hook to end, then report `InitJoined`.
    JoinInit,
    /// Exit with status zero.
    Finish,
    /// Exit with the status of this failure.
    Abort(FatalError),
    /// The event does not belong to the phase that the run is in. Nothing
    /// has changed.
    Rejected,
}

/// An [`Event`] as plain values.
pub enum EventView {
    Begin,
    InitStarted,
    Discovered(Seq<JobView>),
    DiscoveryFailed,
    JobStarted,
    JobFinished,
    JobFailed(FatalError),
    PostinitFinished(Option<usize>),
    InitJoined(Option<usize>),
}

impl View for Event {
    type V = EventView;

    open spec fn view(&self) -> EventView {
        match self {
            Event::Begin => EventView::Begin,
            Event::InitStarted => EventView::InitStarted,
            Event::Discovered(jobs) => EventView::Discovered(job_views(jobs@)),
            Event::DiscoveryFailed => EventView::DiscoveryFailed,
            Event::JobStarted => EventView::JobStarted,
            Event::JobFinished => EventView::JobFinished,
            Event::JobFailed(error) => EventView::JobFailed(*error),
            Event::PostinitFinished(plugin) => EventView::PostinitFinished(*plugin),
            Event::InitJoined(plugin) => EventView::InitJoined(*plugin),
        }
    }
}

/// The state of a run, as plain values.
pub struct SchedulerView {
    pub phase: Phase,
    /// The size of the worker pool.
    pub workers: nat,
    /// The discovered documents.
    pub jobs: Seq<JobView>,
    /// How many jobs have been handed out; they are the first of the list.
    pub started: nat,
    /// How many of the jobs handed out are over.
    pub finished: nat,
    /// The failure that ended the run, once one has.
    pub failure: Option<FatalError>,
}

impl SchedulerView {
    /// How many jobs are in work: handed out and not yet over.
    pub open spec fn in_flight(self) -> int {
        self.started - self.finished
    }

    /// What holds of every state that a run can reach: the pool is not
    /// empty, the jobs can be counted in a `usize`, no more jobs are in work
    /// than the pool has workers, no job is known before discovery, and once
    /// the `postinit` hook has begun every discovered job is over.
    pub open spec fn wf(self) -> bool {
        &&& self.workers >= 1
        &&& self.finished <= self.started <= self.jobs.len() <= usize::MAX
        &&& self.in_flight() <= self.workers
        &&& (self.phase is Idle || self.phase is LifecycleInit || self.phase is Discovery)
            ==> self.jobs.len() == 0
        &&& (self.phase is LifecyclePostinit || self.phase is Joining || self.phase is Done)
            ==> self.finished == self.jobs.len()
        &&& self.phase is Failed ==> self.failure is Some
    }

    /// The state that a run begins in.
    pub open spec fn initial(workers: nat) -> SchedulerView {
        SchedulerView {
            phase: Phase::Idle,
            workers,
            jobs: Seq::empty(),
            started: 0,
            finished: 0,
            failure: None,
        }
    }

    /// The state after the failure `error`.
    pub open spec fn failed(self, error: FatalError) -> SchedulerView {
        SchedulerView { phase: Phase::Failed, failure: Some(error), ..self }
    }

    /// The decision taken while documents are being built: hand out the next
    /// job if one is left and a worker is free; else wait if a job is in
    /// work; else, every job being over, go on to the `postinit` hook.
    pub open spec fn dispatch(self) -> (SchedulerView, Action) {
        if self.started < self.jobs.len() && self.in_flight() < self.workers {
            (
                SchedulerView { started: self.started + 1, ..self },
                Action::StartJob(self.started as usize),
            )
        } else if self.in_flight() > 0 {
            (self, Action::AwaitJob)
        } else {
            (SchedulerView { phase: Phase::LifecyclePostinit, ..self }, Action::RunPostinit)
        }
    }

    /// The state after `event` and the action that it calls for. An event
    /// that does not belong to the phase changes nothing and is rejected, and
    /// so is a discovery of more documents than a `usize` can count. That a
    /// plugin of the `init` hook could not be started ends the run in
    /// whatever phase it becomes known, once the hook has been started.
    pub open spec fn step(self, event: EventView) -> (SchedulerView, Action) {
        match (self.phase, event) {
            (Phase::Idle, EventView::Begin) => (
                SchedulerView { phase: Phase::LifecycleInit, ..self },
                Action::StartInit,
            ),
            (Phase::LifecycleInit, EventView::InitStarted) => (
                SchedulerView { phase: Phase::Discovery, ..self },
                Action::Discover,
            ),
            (Phase::Discovery, EventView::Discovered(jobs)) => if jobs.len() <= usize::MAX {
                (SchedulerView { phase: Phase::Building, jobs, ..self }).dispatch()
            } else {
                (self, Action::Rejected)
            },
            (Phase::Discovery, EventView::DiscoveryFailed) => (
                self.failed(FatalError::GlobInvalid),
                Action::Abort(FatalError::GlobInvalid),
            ),
            (Phase::Building, EventView::JobStarted) => self.dispatch(),
            (Phase::Building, EventView::JobFinished) => if self.in_flight() > 0 {
                (SchedulerView { finished: self.finished + 1, ..self }).dispatch()
            } else {
                (self, Action::Rejected)
            },
            (Phase::Building, EventView::JobFailed(error)) => if self.in_flight() > 0 {
                (self.failed(error), Action::Abort(error))
            } else {
                (self, Action::Rejected)
            },
            (Phase::LifecyclePostinit, EventView::PostinitFinished(unavailable)) => match unavailable {
                Some(plugin) => (
                    self.failed(FatalError::PluginUnavailable { mode: HookMode::Broadcast, plugin }),
                    Action::Abort(
                        FatalError::PluginUnavailable { mode: HookMode::Broadcast, plugin },
                    ),
                ),
                None => (SchedulerView { phase: Phase::Joining, ..self }, Action::JoinInit),
            },
            (Phase::Joining, EventView::InitJoined(unavailable)) => match unavailable {
                Some(plugin) => (
                    self.failed(FatalError::PluginUnavailable { mode: HookMode::Broadcast, plugin }),
                    Action::Abort(
                        FatalError::PluginUnavailable { mode: HookMode::Broadcast, plugin },
                    ),
                ),
                None => (SchedulerView { phase: Phase::Done, ..self }, Action::Finish),
            },
            (Phase::Discovery, EventView::InitJoined(Some(plugin)))
            | (Phase::Building, EventView::InitJoined(Some(plugin)))
            | (Phase::LifecyclePostinit, EventView::InitJoined(Some(plugin))) => (
                self.failed(FatalError::PluginUnavailable { mode: HookMode::Broadcast, plugin }),
                Action::Abort(FatalError::PluginUnavailable { mode: HookMode::Broadcast, plugin }),
            ),
            _ => (self, Action::Rejected),
        }
    }

    /// The state after `events`, reported in this order.
    pub open spec fn after(self, events: Seq<EventView>) -> SchedulerView
        decreases events.len(),
    {
        if events.len() == 0 {
            self
        } else {
            self.after(events.drop_last()).step(events.last()).0
        }
    }
}

/// Whatever is reported to a scheduler from the beginning of a run, and in
/// whatever order, the state it is in is well formed. So at no moment of
/// any run are more jobs in work than the pool has workers.
pub proof fn lemma_bound_holds_throughout(workers: nat, events: Seq<EventView>)
    requires
        workers >= 1,
    ensures
        SchedulerView::initial(workers).after(events).wf(),
        SchedulerView::initial(workers).after(events).workers == workers,
        SchedulerView::initial(workers).after(events).in_flight() <= workers,
    decreases events.len(),
{
    if events.len() > 0 {
        lemma_bound_holds_throughout(workers, events.drop_last());
        lemma_step_keeps_wf(
            SchedulerView::initial(workers).after(events.drop_last()),
            events.last(),
        );
    }
}

/// In any run, the `postinit` hook is called for only once every discovered
/// document has been handed out and is over.
pub proof fn lemma_postinit_ends_every_run_of_jobs(
    workers: nat,
    events: Seq<EventView>,
    event: EventView,
)
    requires
        workers >= 1,
    ensures
        ({
            let (state, action) = SchedulerView::initial(workers).after(events).step(event);
            action is RunPostinit ==> state.finished == state.jobs.len() && state.in_flight() == 0
        }),
{
    lemma_bound_holds_throughout(workers, events);
    lemma_postinit_follows_every_job(SchedulerView::initial(workers).after(events), event);
}

/// In any run, nothing is looked for or built before the `init` hook has
/// been called for: a run that has left its first phase has been told to
/// begin, and a job is handed out only in such a run.
pub proof fn lemma_init_precedes_every_job(workers: nat, events: Seq<EventView>, event: EventView)
    ensures
        !(SchedulerView::initial(workers).after(events).phase is Idle) ==> exists|i: int|
            0 <= i < events.len() && #[trigger] events[i] == EventView::Begin,
        SchedulerView::initial(workers).after(events).step(event).1 is StartJob ==> exists|i: int|
            0 <= i < events.len() && #[trigger] events[i] == EventView::Begin,
    decreases events.len(),
{
    if events.len() > 0 {
        let head = events.drop_last();
        lemma_init_precedes_every_job(workers, head, events.last());
        let before = SchedulerView::initial(workers).after(head);
        if !(SchedulerView::initial(workers).after(events).phase is Idle) {
            if before.phase is Idle {
                assert(events[events.len() - 1] == EventView::Begin);
            } else {
                let i = choose|i: int| 0 <= i < head.len() && #[trigger] head[i] == EventView::Begin;
                assert(events[i] == EventView::Begin);
            }
        }
    }
}

/// No step leads out of the states that a run can reach. In particular the
/// number of jobs in work never exceeds the size of the pool, whatever the
/// caller reports and in whatever order.
pub proof fn lemma_step_keeps_wf(state: SchedulerView, event: EventView)
    requires
        state.wf(),
    ensures
        state.step(event).0.wf(),
        state.step(event).0.in_flight() <= state.workers,
        state.step(event).0.workers == state.workers,
{
}

/// A job is handed out only while documents are being built, only if fewer
/// jobs are in work than the pool has workers, and the jobs are handed out
/// one by one in the order of discovery.
pub proof fn lemma_jobs_start_below_the_bound(state: SchedulerView, event: EventView)
    requires
        state.wf(),
    ensures
        state.step(event).1 matches Action::StartJob(index) ==> {
            &&& state.step(event).0.phase is Building
            &&& state.step(event).0.in_flight() <= state.workers
            &&& state.step(event).0.started == index + 1
            &&& index < state.step(event).0.jobs.len()
            &&& state.phase is Building ==> index == state.started
            &&& state.phase is Discovery ==> index == 0
        },
{
}

/// The `postinit` hook begins only when every discovered document has been
/// handed out and is over, and from then on no job is in work.
pub proof fn lemma_postinit_follows_every_job(state: SchedulerView, event: EventView)
    requires
        state.wf(),
    ensures
        state.step(event).1 is RunPostinit ==> {
            &&& state.step(event).0.phase is LifecyclePostinit
            &&& state.step(event).0.finished == state.step(event).0.jobs.len()
            &&& state.step(event).0.in_flight() == 0
        },
        (state.phase is LifecyclePostinit || state.phase is Joining || state.phase is Done) ==> {
            &&& !(state.step(event).1 is StartJob)
            &&& state.step(event).0.finished == state.step(event).0.jobs.len()
        },
{
}

/// The `init` hook is started before any document is looked for, and so
/// before any job: the first accepted event of a run is `Begin`, and it
/// calls for `StartInit`.
pub proof fn lemma_init_comes_first(workers: nat, event: EventView)
    ensures
        ({
            let (after, action) = SchedulerView::initial(workers).step(event);
            &&& action is StartInit || action is Rejected
            &&& action is StartInit <==> event is Begin
            &&& action is Rejected ==> after == SchedulerView::initial(workers)
        }),
{
}

/// A plugin of the `init` hook that could not be started ends the run as
/// soon as it is reported, in every phase from discovery to the wait for
/// the hook: no further job is handed out and no hook is called for.
pub proof fn lemma_init_failure_ends_the_run(state: SchedulerView, plugin: usize)
    requires
        state.phase is Discovery || state.phase is Building || state.phase is LifecyclePostinit
            || state.phase is Joining,
    ensures
        state.step(EventView::InitJoined(Some(plugin))) == (
            state.failed(FatalError::PluginUnavailable { mode: HookMode::Broadcast, plugin }),
            Action::Abort(FatalError::PluginUnavailable { mode: HookMode::Broadcast, plugin }),
        ),
{
}

/// A run ends well only by way of waiting for the `init` hook: `Finish` is
/// called for by `InitJoined` alone, in the phase that waits for it.
pub proof fn lemma_finish_follows_join(state: SchedulerView, event: EventView)
    ensures
        state.step(event).1 is Finish ==> state.phase is Joining && event == EventView::InitJoined(
            None,
        ) && state.step(event).0.phase is Done,
        state.phase is Done || state.phase is Failed ==> state.step(event) == (
            state,
            Action::Rejected,
        ),
{
}

/// The scheduler of one run.
pub struct Scheduler {
    phase: Phase,
    workers: usize,
    jobs: Vec<BuildJob>,
    started: usize,
    finished: usize,
    failure: Option<FatalError>,
}

impl View for Scheduler {
    type V = SchedulerView;

    closed spec fn view(&self) -> SchedulerView {
        SchedulerView {
            phase: self.phase,
            workers: self.workers as nat,
            jobs: job_views(self.jobs@),
            started: self.started as nat,
            finished: self.finished as nat,
            failure: self.failure,
        }
    }
}

impl Scheduler {
    #[verifier::type_invariant]
    spec fn inv(self) -> bool {
        self@.wf()
    }

    /// A scheduler for a run that has not begun, with a pool of
    /// [`pool_size`] workers.
    pub fn new(configured_workers: Option<usize>, host_parallelism: usize) -> (scheduler: Scheduler)
        ensures
            scheduler@ == SchedulerView::initial(
                pool_size(configured_workers, host_parallelism) as nat,
            ),
            scheduler@.wf(),
    {
        let scheduler = Scheduler {
            phase: Phase::Idle,
            workers: effective_workers(configured_workers, host_parallelism),
            jobs: Vec::new(),
            started: 0,
            finished: 0,
            failure: None,
        };
        assert(scheduler@.jobs =~= Seq::<JobView>::empty());
        scheduler
    }

    /// The phase that the run is in.
    pub fn phase(&self) -> (phase: Phase)
        ensures
            phase == self@.phase,
    {
        self.phase
    }

    /// The size of the worker pool.
    pub fn workers(&self) -> (workers: usize)
        ensures
            workers == self@.workers,
            workers >= 1,
    {
        proof {
            use_type_invariant(self);
        }
        self.workers
    }

    /// How many jobs are in work. It is never more than the pool has
    /// workers.
    pub fn in_flight(&self) -> (count: usize)
        ensures
            count == self@.in_flight(),
            count <= self@.workers,
    {
        proof {
            use_type_invariant(self);
        }
        self.started - self.finished
    }

    /// How many documents were discovered.
    pub fn job_count(&self) -> (count: usize)
        ensures
            count == self@.jobs.len(),
    {
        self.jobs.len()
    }

    /// How many jobs are over.
    pub fn finished(&self) -> (count: usize)
        ensures
            count == self@.finished,
            count <= self@.jobs.len(),
    {
        proof {
            use_type_invariant(self);
        }
        self.finished
    }

    /// The job at `index` of the discovered documents, if there is one.
    pub fn job(&self, index: usize) -> (job: Option<&BuildJob>)
        ensures
            job is Some <==> index < self@.jobs.len(),
            job matches Some(found) ==> found@ == self@.jobs[index as int],
    {
        if index < self.jobs.len() {
            Some(&self.jobs[index])
        } else {
            None
        }
    }

    /// The failure that ended the run, once one has.
    pub fn failure(&self) -> (failure: Option<FatalError>)
        ensures
            failure == self@.failure,
    {
        self.failure
    }

    fn fail(&mut self, error: FatalError) -> (action: Action)
        ensures
            final(self)@ == old(self)@.failed(error),
            action == Action::Abort(error),
    {
        proof {
            use_type_invariant(&*self);
        }
        self.failure = Some(error);
        self.phase = Phase::Failed;
        Action::Abort(error)
    }

    fn dispatch(&mut self) -> (action: Action)
        requires
            old(self)@.phase is Building,
        ensures
            (final(self)@, action) == old(self)@.dispatch(),
    {
        proof {
            use_type_invariant(&*self);
        }
        if self.started < self.jobs.len() && self.started - self.finished < self.workers {
            let index = self.started;
            self.started = index + 1;
            Action::StartJob(index)
        } else if self.started - self.finished > 0 {
            Action::AwaitJob
        } else {
            self.phase = Phase::LifecyclePostinit;
            Action::RunPostinit
        }
    }

    /// Takes in `event` and says what to do next, as [`SchedulerView::step`]
    /// lays down.
    pub fn step(&mut self, event: Event) -> (action: Action)
        ensures
            (final(self)@, action) == old(self)@.step(event@),
            final(self)@.wf(),
            final(self)@.in_flight() <= final(self)@.workers,
    {
        proof {
            use_type_invariant(&*self);
            lemma_step_keeps_wf(self@, event@);
        }
        match event {
            Event::Begin => {
                if let Phase::Idle = self.phase {
                    self.phase = Phase::LifecycleInit;
                    Action::StartInit
                } else {
                    Action::Rejected
                }
            },
            Event::InitStarted => {
                if let Phase::LifecycleInit = self.phase {
                    self.phase = Phase::Discovery;
                    Action::Discover
                } else {
                    Action::Rejected
                }
            },
            Event::Discovered(jobs) => {
                if let Phase::Discovery = self.phase {
                    assert(job_views(jobs@).len() == jobs.len());
                    self.phase = Phase::Building;
                    self.jobs = jobs;
                    self.dispatch()
                } else {
                    Action::Rejected
                }
            },
            Event::DiscoveryFailed => {
                if let Phase::Discovery = self.phase {
                    self.fail(FatalError::GlobInvalid)
                } else {
                    Action::Rejected
                }
            },
            Event::JobStarted => {
                if let Phase::Building = self.phase {
                    self.dispatch()
                } else {
                    Action::Rejected
                }
            },
            Event::JobFinished => {
                if let Phase::Building = self.phase {
                    if self.started - self.finished > 0 {
                        self.finished = self.finished + 1;
                        self.dispatch()
                    } else {
                        Action::Rejected
                    }
                } else {
                    Action::Rejected
                }
            },
            Event::JobFailed(error) => {
                if let Phase::Building = self.phase {
                    if self.started - self.finished > 0 {
                        self.fail(error)
                    } else {
                        Action::Rejected
                    }
                } else {
                    Action::Rejected
                }
            },
            Event::PostinitFinished(unavailable) => {
                if let Phase::LifecyclePostinit = self.phase {
                    match unavailable {
                        Some(plugin) => self.fail(
                            FatalError::PluginUnavailable { mode: HookMode::Broadcast, plugin },
                        ),
                        None => {
                            self.phase = Phase::Joining;
                            Action::JoinInit
                        },
                    }
                } else {
                    Action::Rejected
                }
            },
            Event::InitJoined(unavailable) => {
                match (self.phase, unavailable) {
                    (Phase::Joining, None) => {
                        self.phase = Phase::Done;
                        Action::Finish
                    },
                    (Phase::Joining, Some(plugin))
                    | (Phase::Discovery, Some(plugin))
                    | (Phase::Building, Some(plugin))
                    | (Phase::LifecyclePostinit, Some(plugin)) => self.fail(
                        FatalError::PluginUnavailable { mode: HookMode::Broadcast, plugin },
                    ),
                    _ => Action::Rejected,
                }
            },
        }
    }
}

/// What is to be done with a job that has run.
#[derive(Clone, Copy, PartialEq, Eq, Structural, Debug)]
pub enum JobVerdict {
    /// Write the page to the job's output path.
    Write,
    /// Leave the document out and warn about it.
    Skip,
    /// End the run with this failure.
    Fail(FatalError),
}

/// The verdict on the job at index `job` that ended with `status`: a built
/// page is written; a plugin that could not be started ends the run; text
/// that is not UTF-8 ends the run or leaves the document out, as the policy
/// has it.
pub open spec fn verdict_of(job: usize, status: JobStatus, policy: InvalidTextPolicy) -> JobVerdict {
    match status {
        JobStatus::Built => JobVerdict::Write,
        JobStatus::InvalidText => match policy {
            InvalidTextPolicy::SkipFile => JobVerdict::Skip,
            InvalidTextPolicy::AbortRun => JobVerdict::Fail(FatalError::InvalidText { job }),
        },
        JobStatus::PluginUnavailable { plugin, .. } => JobVerdict::Fail(
            FatalError::PluginUnavailable { mode: HookMode::Chain, plugin },
        ),
    }
}

pub fn job_verdict(job: usize, status: JobStatus, policy: InvalidTextPolicy) -> (verdict: JobVerdict)
    ensures
        verdict == verdict_of(job, status, policy),
{
    match status {
        JobStatus::Built => JobVerdict::Write,
        JobStatus::InvalidText => match policy {
            InvalidTextPolicy::SkipFile => JobVerdict::Skip,
            InvalidTextPolicy::AbortRun => JobVerdict::Fail(FatalError::InvalidText { job }),
        },
        JobStatus::PluginUnavailable { plugin, .. } => JobVerdict::Fail(
            FatalError::PluginUnavailable { mode: HookMode::Chain, plugin },
        ),
    }
}

} // verus!
