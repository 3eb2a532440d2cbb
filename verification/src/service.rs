//! The service that runs an application: launching, stopping and monitoring.
//!
//! Each step says what is to be done with the service manager. The caller does
//! it and hands in what came back.
use vstd::prelude::*;

use crate::application;
use crate::application::{ApplicationConfig, ApplicationContext};
use crate::text;

verus! {

/// Seconds that the job which stops a service may take.
pub const STOP_JOB_TIMEOUT_SECS: u64 = 2;

/// Seconds until a stopped service has to be removed.
pub const UNIT_REMOVED_TIMEOUT_SECS: u64 = 2;

/// What came back from the service manager.
#[derive(Debug)]
pub enum ServiceEvent {
    /// It was done.
    Done,
    /// It could not be done.
    Failed,
    /// The object that was asked for has this path.
    Path(String),
    /// The service is in this state.
    State(String),
    /// A job was removed.
    JobRemoved {
        /// The path of the job.
        path: String,
        /// What it came to.
        result: String,
    },
    /// A service was removed.
    UnitRemoved {
        /// Its name.
        id: String,
    },
    /// Properties of the service changed, to this active state where that is
    /// among them.
    PropertiesChanged {
        /// The interface.
        interface: String,
        /// The active state.
        active_state: Option<String>,
    },
    /// A signal could not be read.
    Unreadable,
    /// No more signals come.
    Closed,
    /// The time is up.
    TimedOut,
}

/// What came back, by its texts.
pub enum Event {
    /// It was done.
    Done,
    /// It could not be done.
    Failed,
    /// The object has this path.
    Path(Seq<char>),
    /// The service is in this state.
    State(Seq<char>),
    /// A job with this path was removed, and came to this.
    JobRemoved(Seq<char>, Seq<char>),
    /// The service of this name was removed.
    UnitRemoved(Seq<char>),
    /// Properties of this interface changed, to this active state.
    PropertiesChanged(Seq<char>, Option<Seq<char>>),
    /// A signal could not be read.
    Unreadable,
    /// No more signals come.
    Closed,
    /// The time is up.
    TimedOut,
}

impl View for ServiceEvent {
    type V = Event;

    open spec fn view(&self) -> Event {
        match *self {
            ServiceEvent::Done => Event::Done,
            ServiceEvent::Failed => Event::Failed,
            ServiceEvent::Path(p) => Event::Path(p@),
            ServiceEvent::State(s) => Event::State(s@),
            ServiceEvent::JobRemoved { path, result } => Event::JobRemoved(path@, result@),
            ServiceEvent::UnitRemoved { id } => Event::UnitRemoved(id@),
            ServiceEvent::PropertiesChanged { interface, active_state } => Event::PropertiesChanged(
                interface@,
                match active_state {
                    Some(s) => Some(s@),
                    None => None,
                },
            ),
            ServiceEvent::Unreadable => Event::Unreadable,
            ServiceEvent::Closed => Event::Closed,
            ServiceEvent::TimedOut => Event::TimedOut,
        }
    }
}

/// What is waited for cannot come any more.
pub open spec fn ends_wait(event: Event) -> bool {
    event is Unreadable || event is Closed || event is TimedOut
}

/// What an event means for a job that is waited for: nothing yet, or whether
/// it succeeded.
pub open spec fn job_outcome(job: Seq<char>, event: Event) -> Option<bool> {
    match event {
        Event::JobRemoved(path, result) => if path == job {
            Some(application::job_done(result))
        } else {
            None
        },
        _ => if ends_wait(event) {
            Some(false)
        } else {
            None
        },
    }
}

/// What an event means for a job that is waited for; see [`job_outcome`].
pub fn wait_for_job_signal(job: &str, event: &ServiceEvent) -> (r: Option<bool>)
    ensures
        r == job_outcome(job@, event@),
{
    match event {
        ServiceEvent::JobRemoved { path, result } => {
            let ours = text::same_text(path.as_str(), job);
            application::job_removed(ours, result.as_str())
        },
        ServiceEvent::Unreadable | ServiceEvent::Closed | ServiceEvent::TimedOut => Some(false),
        _ => None,
    }
}

/// How far stopping a service has come.
#[derive(Debug)]
pub enum StopStep {
    /// Ask to be told of removed jobs and services, before anything is removed.
    Subscribe,
    /// Stop the service.
    Stop,
    /// Wait for the job, for [`STOP_JOB_TIMEOUT_SECS`].
    AwaitJob {
        /// The path of the job.
        job: String,
    },
    /// Wait until the service is removed, for [`UNIT_REMOVED_TIMEOUT_SECS`].
    AwaitRemoval,
    /// It is stopped and removed.
    Stopped,
    /// That failed.
    Failed,
}

impl StopStep {
    /// Seconds that this step may take, where it waits for something.
    pub fn timeout_secs(&self) -> (r: Option<u64>)
        ensures
            r == match self@ {
                Stopping::AwaitJob(_) => Some(STOP_JOB_TIMEOUT_SECS),
                Stopping::AwaitRemoval => Some(UNIT_REMOVED_TIMEOUT_SECS),
                _ => None,
            },
    {
        match self {
            StopStep::AwaitJob { .. } => Some(STOP_JOB_TIMEOUT_SECS),
            StopStep::AwaitRemoval => Some(UNIT_REMOVED_TIMEOUT_SECS),
            _ => None,
        }
    }
}

/// How far stopping a service has come, by its texts.
pub enum Stopping {
    /// Ask to be told.
    Subscribe,
    /// Stop the service.
    Stop,
    /// Wait for the job with this path.
    AwaitJob(Seq<char>),
    /// Wait until the service is removed.
    AwaitRemoval,
    /// It is stopped and removed.
    Stopped,
    /// That failed.
    Failed,
}

impl View for StopStep {
    type V = Stopping;

    open spec fn view(&self) -> Stopping {
        match *self {
            StopStep::Subscribe => Stopping::Subscribe,
            StopStep::Stop => Stopping::Stop,
            StopStep::AwaitJob { job } => Stopping::AwaitJob(job@),
            StopStep::AwaitRemoval => Stopping::AwaitRemoval,
            StopStep::Stopped => Stopping::Stopped,
            StopStep::Failed => Stopping::Failed,
        }
    }
}

/// The step that follows an event. An event that answers something else
/// changes nothing.
pub open spec fn after_stop_event(step: Stopping, unit_name: Seq<char>, event: Event) -> Stopping {
    match step {
        Stopping::Subscribe => match event {
            Event::Done => Stopping::Stop,
            Event::Failed => Stopping::Failed,
            _ => step,
        },
        Stopping::Stop => match event {
            Event::Path(job) => Stopping::AwaitJob(job),
            Event::Failed => Stopping::Failed,
            _ => step,
        },
        Stopping::AwaitJob(job) => match job_outcome(job, event) {
            Some(true) => Stopping::AwaitRemoval,
            Some(false) => Stopping::Failed,
            None => step,
        },
        Stopping::AwaitRemoval => if event == Event::UnitRemoved(unit_name) {
            Stopping::Stopped
        } else if ends_wait(event) {
            Stopping::Failed
        } else {
            step
        },
        _ => step,
    }
}

/// Stopping the service `unit_name`, one event further; see
/// [`after_stop_event`].
pub fn stop_unit(step: StopStep, unit_name: &str, event: &ServiceEvent) -> (r: StopStep)
    ensures
        r@ == after_stop_event(step@, unit_name@, event@),
{
    match step {
        StopStep::Subscribe => match event {
            ServiceEvent::Done => StopStep::Stop,
            ServiceEvent::Failed => StopStep::Failed,
            _ => step,
        },
        StopStep::Stop => match event {
            ServiceEvent::Path(job) => StopStep::AwaitJob { job: job.clone() },
            ServiceEvent::Failed => StopStep::Failed,
            _ => step,
        },
        StopStep::AwaitJob { job } => match wait_for_job_signal(job.as_str(), event) {
            Some(true) => StopStep::AwaitRemoval,
            Some(false) => StopStep::Failed,
            None => StopStep::AwaitJob { job },
        },
        StopStep::AwaitRemoval => match event {
            ServiceEvent::UnitRemoved { id } => if text::same_text(id.as_str(), unit_name) {
                StopStep::Stopped
            } else {
                StopStep::AwaitRemoval
            },
            ServiceEvent::Unreadable | ServiceEvent::Closed | ServiceEvent::TimedOut => StopStep::Failed,
            _ => StopStep::AwaitRemoval,
        },
        StopStep::Stopped => StopStep::Stopped,
        StopStep::Failed => StopStep::Failed,
    }
}

/// How far stopping has come after some events.
pub open spec fn stop_run(unit_name: Seq<char>, events: Seq<Event>) -> Stopping
    decreases events.len(),
{
    if events.len() == 0 {
        Stopping::Subscribe
    } else {
        after_stop_event(stop_run(unit_name, events.drop_last()), unit_name, events.last())
    }
}

/// A job was removed after it was done.
pub open spec fn is_job_done(event: Event) -> bool {
    event matches Event::JobRemoved(_, result) && application::job_done(result)
}

/// Where the removal of the service is waited for, a job was done.
proof fn removal_follows_job(unit_name: Seq<char>, events: Seq<Event>)
    requires
        stop_run(unit_name, events) is AwaitRemoval,
    ensures
        exists|i: int| 0 <= i < events.len() && is_job_done(#[trigger] events[i]),
    decreases events.len(),
{
    let before = events.drop_last();
    if stop_run(unit_name, before) is AwaitRemoval {
        removal_follows_job(unit_name, before);
        let i = choose|i: int| 0 <= i < before.len() && is_job_done(#[trigger] before[i]);
        assert(is_job_done(events[i]));
    } else {
        assert(is_job_done(events[events.len() - 1]));
    }
}

/// A service counts as stopped only where a job was done and the service was
/// removed after that.
pub proof fn stopped_means_removed(unit_name: Seq<char>, events: Seq<Event>)
    requires
        stop_run(unit_name, events) is Stopped,
    ensures
        exists|i: int, j: int|
            0 <= i < j < events.len() && is_job_done(#[trigger] events[i]) && #[trigger] events[j]
                == Event::UnitRemoved(unit_name),
    decreases events.len(),
{
    let before = events.drop_last();
    if stop_run(unit_name, before) is Stopped {
        stopped_means_removed(unit_name, before);
        let (i, j) = choose|i: int, j: int|
            0 <= i < j < before.len() && is_job_done(#[trigger] before[i]) && #[trigger] before[j]
                == Event::UnitRemoved(unit_name);
        assert(is_job_done(events[i]) && events[j] == Event::UnitRemoved(unit_name));
    } else {
        removal_follows_job(unit_name, before);
        let i = choose|i: int| 0 <= i < before.len() && is_job_done(#[trigger] before[i]);
        let j = events.len() - 1;
        assert(is_job_done(events[i]) && events[j] == Event::UnitRemoved(unit_name));
    }
}

/// How far a launch has come.
#[derive(Debug)]
pub enum LaunchStep {
    /// Connect to the session bus.
    Connect,
    /// Ask to be told of what changes at all.
    Subscribe,
    /// Stop what an earlier session left, whatever comes of it.
    StopLeftover,
    /// Look for the programs.
    Resolve,
    /// Ask to be told of removed jobs, before the job is there.
    SubscribeJobs,
    /// Start the service.
    Start,
    /// Wait for the job, as long as the application may take.
    AwaitJob {
        /// The path of the job.
        job: String,
    },
    /// Ask for the service.
    GetUnit,
    /// Ask for its state.
    ReadState {
        /// The path of the service.
        unit: String,
    },
    /// Ask to be told of its changes.
    Watch {
        /// The path of the service.
        unit: String,
    },
    /// Wait whether it ends, as long as the application may take.
    AwaitEnd {
        /// The path of the service.
        unit: String,
    },
    /// Stop what was started, whatever comes of it.
    CleanUp,
    /// The launch failed.
    Failed,
    /// The application is up.
    Launched {
        /// The path of its service.
        unit: String,
    },
}

/// How far a launch has come, by its texts.
pub enum Launching {
    /// Connect to the session bus.
    Connect,
    /// Ask to be told of what changes.
    Subscribe,
    /// Stop what an earlier session left.
    StopLeftover,
    /// Look for the programs.
    Resolve,
    /// Ask to be told of removed jobs.
    SubscribeJobs,
    /// Start the service.
    Start,
    /// Wait for the job with this path.
    AwaitJob(Seq<char>),
    /// Ask for the service.
    GetUnit,
    /// Ask for the state of the service with this path.
    ReadState(Seq<char>),
    /// Ask to be told of its changes.
    Watch(Seq<char>),
    /// Wait whether it ends.
    AwaitEnd(Seq<char>),
    /// Stop what was started.
    CleanUp,
    /// The launch failed.
    Failed,
    /// The application is up.
    Launched(Seq<char>),
}

impl View for LaunchStep {
    type V = Launching;

    open spec fn view(&self) -> Launching {
        match *self {
            LaunchStep::Connect => Launching::Connect,
            LaunchStep::Subscribe => Launching::Subscribe,
            LaunchStep::StopLeftover => Launching::StopLeftover,
            LaunchStep::Resolve => Launching::Resolve,
            LaunchStep::SubscribeJobs => Launching::SubscribeJobs,
            LaunchStep::Start => Launching::Start,
            LaunchStep::AwaitJob { job } => Launching::AwaitJob(job@),
            LaunchStep::GetUnit => Launching::GetUnit,
            LaunchStep::ReadState { unit } => Launching::ReadState(unit@),
            LaunchStep::Watch { unit } => Launching::Watch(unit@),
            LaunchStep::AwaitEnd { unit } => Launching::AwaitEnd(unit@),
            LaunchStep::CleanUp => Launching::CleanUp,
            LaunchStep::Failed => Launching::Failed,
            LaunchStep::Launched { unit } => Launching::Launched(unit@),
        }
    }
}

/// The service ended.
pub open spec fn ends_unit(event: Event) -> bool {
    event matches Event::PropertiesChanged(interface, state) && interface
        == application::unit_interface() && state is Some && application::is_terminal(state->0)
}

/// The step that follows an event. An event that answers something else
/// changes nothing.
pub open spec fn after_launch_event(step: Launching, event: Event) -> Launching {
    match step {
        Launching::Connect => match event {
            Event::Done => Launching::Subscribe,
            Event::Failed => Launching::Failed,
            _ => step,
        },
        Launching::Subscribe => match event {
            Event::Done => Launching::StopLeftover,
            Event::Failed => Launching::Failed,
            _ => step,
        },
        Launching::StopLeftover => match event {
            Event::Done | Event::Failed => Launching::Resolve,
            _ => step,
        },
        Launching::Resolve => match event {
            Event::Done => Launching::SubscribeJobs,
            Event::Failed => Launching::CleanUp,
            _ => step,
        },
        Launching::SubscribeJobs => match event {
            Event::Done => Launching::Start,
            Event::Failed => Launching::CleanUp,
            _ => step,
        },
        Launching::Start => match event {
            Event::Path(job) => Launching::AwaitJob(job),
            Event::Failed => Launching::CleanUp,
            _ => step,
        },
        Launching::AwaitJob(job) => match job_outcome(job, event) {
            Some(true) => Launching::GetUnit,
            Some(false) => Launching::CleanUp,
            None => step,
        },
        Launching::GetUnit => match event {
            Event::Path(unit) => Launching::ReadState(unit),
            Event::Failed => Launching::CleanUp,
            _ => step,
        },
        Launching::ReadState(unit) => match event {
            Event::State(state) => if application::is_terminal(state) {
                Launching::CleanUp
            } else {
                Launching::Watch(unit)
            },
            Event::Failed => Launching::CleanUp,
            _ => step,
        },
        Launching::Watch(unit) => match event {
            Event::Done => Launching::AwaitEnd(unit),
            Event::Failed => Launching::CleanUp,
            _ => step,
        },
        Launching::AwaitEnd(unit) => match event {
            Event::Closed | Event::TimedOut => Launching::Launched(unit),
            Event::Unreadable => Launching::CleanUp,
            _ => if ends_unit(event) {
                Launching::CleanUp
            } else {
                step
            },
        },
        Launching::CleanUp => match event {
            Event::Done | Event::Failed => Launching::Failed,
            _ => step,
        },
        _ => step,
    }
}

/// A launch, one event further; see [`after_launch_event`].
pub fn start_transient_service(step: LaunchStep, event: &ServiceEvent) -> (r: LaunchStep)
    ensures
        r@ == after_launch_event(step@, event@),
{
    match step {
        LaunchStep::Connect => match event {
            ServiceEvent::Done => LaunchStep::Subscribe,
            ServiceEvent::Failed => LaunchStep::Failed,
            _ => step,
        },
        LaunchStep::Subscribe => match event {
            ServiceEvent::Done => LaunchStep::StopLeftover,
            ServiceEvent::Failed => LaunchStep::Failed,
            _ => step,
        },
        LaunchStep::StopLeftover => match event {
            ServiceEvent::Done | ServiceEvent::Failed => LaunchStep::Resolve,
            _ => step,
        },
        LaunchStep::Resolve => match event {
            ServiceEvent::Done => LaunchStep::SubscribeJobs,
            ServiceEvent::Failed => LaunchStep::CleanUp,
            _ => step,
        },
        LaunchStep::SubscribeJobs => match event {
            ServiceEvent::Done => LaunchStep::Start,
            ServiceEvent::Failed => LaunchStep::CleanUp,
            _ => step,
        },
        LaunchStep::Start => match event {
            ServiceEvent::Path(job) => LaunchStep::AwaitJob { job: job.clone() },
            ServiceEvent::Failed => LaunchStep::CleanUp,
            _ => step,
        },
        LaunchStep::AwaitJob { job } => match wait_for_job_signal(job.as_str(), event) {
            Some(true) => LaunchStep::GetUnit,
            Some(false) => LaunchStep::CleanUp,
            None => LaunchStep::AwaitJob { job },
        },
        LaunchStep::GetUnit => match event {
            ServiceEvent::Path(unit) => LaunchStep::ReadState { unit: unit.clone() },
            ServiceEvent::Failed => LaunchStep::CleanUp,
            _ => step,
        },
        LaunchStep::ReadState { unit } => match event {
            ServiceEvent::State(state) => match application::terminal_state(state.as_str()) {
                Some(_) => LaunchStep::CleanUp,
                None => LaunchStep::Watch { unit },
            },
            ServiceEvent::Failed => LaunchStep::CleanUp,
            _ => LaunchStep::ReadState { unit },
        },
        LaunchStep::Watch { unit } => match event {
            ServiceEvent::Done => LaunchStep::AwaitEnd { unit },
            ServiceEvent::Failed => LaunchStep::CleanUp,
            _ => LaunchStep::Watch { unit },
        },
        LaunchStep::AwaitEnd { unit } => match event {
            ServiceEvent::Closed | ServiceEvent::TimedOut => LaunchStep::Launched { unit },
            ServiceEvent::Unreadable => LaunchStep::CleanUp,
            ServiceEvent::PropertiesChanged { interface, active_state } => {
                if unit_ended(interface.as_str(), active_state) {
                    LaunchStep::CleanUp
                } else {
                    LaunchStep::AwaitEnd { unit }
                }
            },
            _ => LaunchStep::AwaitEnd { unit },
        },
        LaunchStep::CleanUp => match event {
            ServiceEvent::Done | ServiceEvent::Failed => LaunchStep::Failed,
            _ => step,
        },
        LaunchStep::Failed => LaunchStep::Failed,
        LaunchStep::Launched { unit } => LaunchStep::Launched { unit },
    }
}

/// Whether a change of properties ends the service; see [`ends_unit`].
fn unit_ended(interface: &str, active_state: &Option<String>) -> (r: bool)
    ensures
        r == (interface@ == application::unit_interface() && active_state is Some
            && application::is_terminal(active_state->0@)),
{
    if !text::same_text(interface, "org.freedesktop.systemd1.Unit") {
        return false;
    }
    match active_state {
        None => false,
        Some(s) => application::terminal_state(s.as_str()).is_some(),
    }
}

/// How far a launch has come after some events.
pub open spec fn launch_run(events: Seq<Event>) -> Launching
    decreases events.len(),
{
    if events.len() == 0 {
        Launching::Connect
    } else {
        after_launch_event(launch_run(events.drop_last()), events.last())
    }
}

/// Something may have been started that a failure must not leave behind.
pub open spec fn owes_clean_up(step: Launching) -> bool {
    match step {
        Launching::Resolve
        | Launching::SubscribeJobs
        | Launching::Start
        | Launching::AwaitJob(_)
        | Launching::GetUnit
        | Launching::ReadState(_)
        | Launching::Watch(_)
        | Launching::AwaitEnd(_) => true,
        _ => false,
    }
}

/// A launch that got as far as the service and then failed was cleaned up on
/// the way.
pub proof fn failures_are_cleaned_up(events: Seq<Event>, i: int)
    requires
        0 <= i <= events.len(),
        owes_clean_up(launch_run(events.take(i))),
        launch_run(events) is Failed,
    ensures
        exists|k: int| i < k < events.len() && #[trigger] launch_run(events.take(k)) is CleanUp,
    decreases events.len(),
{
    let n = events.len() as int;
    assert(events.take(n) == events);
    assert(i < n);
    let before = events.drop_last();
    assert(before == events.take(n - 1));
    assert(before.take(i) == events.take(i));
    if launch_run(before) is Failed {
        failures_are_cleaned_up(before, i);
        let k = choose|k: int| i < k < before.len() && #[trigger] launch_run(before.take(k)) is CleanUp;
        assert(before.take(k) == events.take(k));
    } else if launch_run(before) is CleanUp {
        assert(launch_run(events.take(n - 1)) is CleanUp);
        assert(i < n - 1);
    } else {
        owed_until_paid(before, i);
    }
}

/// From where a clean-up is owed a launch goes on to where it is owed, to the
/// clean-up and what follows it, or to an application that is up.
proof fn owed_until_paid(events: Seq<Event>, i: int)
    requires
        0 <= i <= events.len(),
        owes_clean_up(launch_run(events.take(i))),
    ensures
        owes_clean_up(launch_run(events)) || launch_run(events) is CleanUp || launch_run(events) is Failed
            || launch_run(events) is Launched,
    decreases events.len(),
{
    assert(events.take(events.len() as int) == events);
    if i < events.len() {
        let before = events.drop_last();
        assert(before.take(i) == events.take(i));
        owed_until_paid(before, i);
    }
}

/// An application counts as launched only where its job was done and it was
/// seen in a state that is not its end after that.
pub proof fn launched_means_seen_up(events: Seq<Event>)
    requires
        launch_run(events) is Launched,
    ensures
        exists|i: int, j: int|
            0 <= i < j < events.len() && is_job_done(#[trigger] events[i]) && (#[trigger] events[j] matches
                Event::State(s) && !application::is_terminal(s)),
{
    seen_up(events);
}

/// The state of the service was read and is not its end.
pub open spec fn is_watched(step: Launching) -> bool {
    step is Watch || step is AwaitEnd || step is Launched
}

/// The job was done where the service is asked for, and the state was read
/// where it is watched.
proof fn seen_up(events: Seq<Event>)
    ensures
        launch_run(events) is GetUnit || launch_run(events) is ReadState ==> exists|i: int|
            0 <= i < events.len() && is_job_done(#[trigger] events[i]),
        is_watched(launch_run(events)) ==> exists|i: int, j: int|
            0 <= i < j < events.len() && is_job_done(#[trigger] events[i]) && (#[trigger] events[j] matches
                Event::State(s) && !application::is_terminal(s)),
    decreases events.len(),
{
    if events.len() > 0 {
        let before = events.drop_last();
        let last = events.len() - 1;
        seen_up(before);
        let was = launch_run(before);
        let is = launch_run(events);
        if is is GetUnit || is is ReadState {
            if was is AwaitJob {
                assert(is_job_done(events[last]));
            } else {
                let i = choose|i: int| 0 <= i < before.len() && is_job_done(#[trigger] before[i]);
                assert(is_job_done(events[i]));
            }
        }
        if is_watched(is) {
            if is_watched(was) {
                let (i, j) = choose|i: int, j: int|
                    0 <= i < j < before.len() && is_job_done(#[trigger] before[i]) && (
                    #[trigger] before[j] matches Event::State(s) && !application::is_terminal(s));
                assert(is_job_done(events[i]));
                assert(events[j] == before[j]);
            } else {
                let i = choose|i: int| 0 <= i < before.len() && is_job_done(#[trigger] before[i]);
                assert(is_job_done(events[i]));
                assert(events[last] matches Event::State(s) && !application::is_terminal(s));
            }
        }
    }
}

/// A launch that has ended stays as it ended, whatever is still reported.
pub proof fn ended_launches_stay(step: Launching, event: Event)
    requires
        step is Failed || step is Launched,
    ensures
        after_launch_event(step, event) == step,
{
}

/// A launch.
#[derive(Debug)]
pub struct Launch {
    /// How far it has come.
    pub step: LaunchStep,
    /// The name of the service.
    pub unit_name: String,
    /// The program.
    pub program: String,
    /// Its arguments.
    pub args: Vec<String>,
    /// Its environment.
    pub envs: Vec<String>,
    /// Seconds to wait for the job, and then again for an early end.
    pub timeout_secs: u64,
}

/// Begins to launch an application, unless its command is empty or its sound
/// server's socket is in no directory.
pub fn spawn(config: &ApplicationConfig, context: &ApplicationContext) -> (r: Result<Launch, ()>)
    ensures
        match r {
            Ok(launch) => {
                &&& config.command@.len() > 0
                &&& application::parent_of(context.pulse_socket_path@) matches Some(dir)
                    && text::texts(launch.envs@) == context.environment(dir)
                &&& launch.step@ == launch_run(Seq::empty())
                &&& launch.unit_name == context.unit_name
                &&& launch.program == config.command@[0]
                &&& launch.args@ == config.command@.skip(1)
                &&& launch.timeout_secs == config.launch_timeout_secs
            },
            Err(_) => config.command@.len() == 0 || application::parent_of(context.pulse_socket_path@)
                is None,
        },
{
    let (program, args) = match application::program_of(config) {
        Some(command) => command,
        None => return Err(()),
    };
    let envs = match application::make_envs(context) {
        Ok(envs) => envs,
        Err(()) => return Err(()),
    };
    Ok(
        Launch {
            step: LaunchStep::Connect,
            unit_name: context.unit_name.clone(),
            program,
            args,
            envs,
            timeout_secs: config.launch_timeout_secs,
        },
    )
}

/// How far the watch over a running application has come.
#[derive(Debug)]
pub enum MonitorStep {
    /// Ask to be told of removed services.
    SubscribeRemovals,
    /// Ask to be told of changes of the service.
    SubscribeChanges,
    /// Ask for its state.
    ReadState,
    /// Wait for its end.
    Watch,
    /// It ended in this state.
    Ended {
        /// The state.
        state: String,
    },
    /// The watch itself broke.
    Lost,
}

/// How far the watch has come, by its texts.
pub enum Monitoring {
    /// Ask to be told of removed services.
    SubscribeRemovals,
    /// Ask to be told of changes of the service.
    SubscribeChanges,
    /// Ask for its state.
    ReadState,
    /// Wait for its end.
    Watch,
    /// It ended in this state.
    Ended(Seq<char>),
    /// The watch itself broke.
    Lost,
}

impl View for MonitorStep {
    type V = Monitoring;

    open spec fn view(&self) -> Monitoring {
        match *self {
            MonitorStep::SubscribeRemovals => Monitoring::SubscribeRemovals,
            MonitorStep::SubscribeChanges => Monitoring::SubscribeChanges,
            MonitorStep::ReadState => Monitoring::ReadState,
            MonitorStep::Watch => Monitoring::Watch,
            MonitorStep::Ended { state } => Monitoring::Ended(state@),
            MonitorStep::Lost => Monitoring::Lost,
        }
    }
}

/// The step that follows an event. A service that cannot be asked for its state
/// is gone. An event that answers something else changes nothing.
pub open spec fn after_monitor_event(
    step: Monitoring,
    unit_name: Seq<char>,
    event: Event,
) -> Monitoring {
    match step {
        Monitoring::SubscribeRemovals => match event {
            Event::Done => Monitoring::SubscribeChanges,
            Event::Failed => Monitoring::Lost,
            _ => step,
        },
        Monitoring::SubscribeChanges => match event {
            Event::Done => Monitoring::ReadState,
            Event::Failed => Monitoring::Lost,
            _ => step,
        },
        Monitoring::ReadState => match event {
            Event::State(state) => if application::is_terminal(state) {
                Monitoring::Ended(state)
            } else {
                Monitoring::Watch
            },
            Event::Failed => Monitoring::Ended("removed"@),
            _ => step,
        },
        Monitoring::Watch => match event {
            Event::UnitRemoved(id) => if id == unit_name {
                Monitoring::Ended("removed"@)
            } else {
                step
            },
            Event::PropertiesChanged(_, state) => if ends_unit(event) {
                Monitoring::Ended(state->0)
            } else {
                step
            },
            Event::Unreadable | Event::Closed => Monitoring::Lost,
            _ => step,
        },
        _ => step,
    }
}

/// The watch over the service `unit_name`, one event further; see
/// [`after_monitor_event`].
pub fn wait_for_unit_terminal_state(step: MonitorStep, unit_name: &str, event: &ServiceEvent) -> (r:
    MonitorStep)
    ensures
        r@ == after_monitor_event(step@, unit_name@, event@),
{
    match step {
        MonitorStep::SubscribeRemovals => match event {
            ServiceEvent::Done => MonitorStep::SubscribeChanges,
            ServiceEvent::Failed => MonitorStep::Lost,
            _ => step,
        },
        MonitorStep::SubscribeChanges => match event {
            ServiceEvent::Done => MonitorStep::ReadState,
            ServiceEvent::Failed => MonitorStep::Lost,
            _ => step,
        },
        MonitorStep::ReadState => match event {
            ServiceEvent::State(state) => match application::terminal_state(state.as_str()) {
                Some(end) => MonitorStep::Ended { state: end.to_owned() },
                None => MonitorStep::Watch,
            },
            ServiceEvent::Failed => MonitorStep::Ended { state: "removed".to_owned() },
            _ => step,
        },
        MonitorStep::Watch => match event {
            ServiceEvent::UnitRemoved { id } => if text::same_text(id.as_str(), unit_name) {
                MonitorStep::Ended { state: "removed".to_owned() }
            } else {
                MonitorStep::Watch
            },
            ServiceEvent::PropertiesChanged { interface, active_state } => match active_state {
                Some(state) => if unit_ended(interface.as_str(), active_state) {
                    MonitorStep::Ended { state: state.clone() }
                } else {
                    MonitorStep::Watch
                },
                None => MonitorStep::Watch,
            },
            ServiceEvent::Unreadable | ServiceEvent::Closed => MonitorStep::Lost,
            _ => MonitorStep::Watch,
        },
        MonitorStep::Ended { state } => MonitorStep::Ended { state },
        MonitorStep::Lost => MonitorStep::Lost,
    }
}

/// How far the watch has come after some events.
pub open spec fn monitor_run(unit_name: Seq<char>, events: Seq<Event>) -> Monitoring
    decreases events.len(),
{
    if events.len() == 0 {
        Monitoring::SubscribeRemovals
    } else {
        after_monitor_event(monitor_run(unit_name, events.drop_last()), unit_name, events.last())
    }
}

/// An event says that the service ended or is gone.
pub open spec fn says_ended(unit_name: Seq<char>, event: Event) -> bool {
    ||| event matches Event::State(s) && application::is_terminal(s)
    ||| event == Event::UnitRemoved(unit_name)
    ||| event is Failed
    ||| ends_unit(event)
}

/// The watch reports an end only after an event that says so, and then one of
/// three states.
pub proof fn reported_ends_were_seen(unit_name: Seq<char>, events: Seq<Event>)
    requires
        monitor_run(unit_name, events) is Ended,
    ensures
        exists|i: int| 0 <= i < events.len() && says_ended(unit_name, #[trigger] events[i]),
        ({
            let state = monitor_run(unit_name, events)->Ended_0;
            application::is_terminal(state) || state == "removed"@
        }),
    decreases events.len(),
{
    let before = events.drop_last();
    if monitor_run(unit_name, before) is Ended {
        reported_ends_were_seen(unit_name, before);
        let i = choose|i: int| 0 <= i < before.len() && says_ended(unit_name, #[trigger] before[i]);
        assert(says_ended(unit_name, events[i]));
    } else {
        assert(says_ended(unit_name, events[events.len() - 1]));
    }
}

/// Whether the end of the watch stops the session: it does where the
/// application ended, not where the watch itself broke. `None` while the watch
/// goes on.
pub fn end_stops_session(step: &MonitorStep) -> (r: Option<bool>)
    ensures
        r == match step@ {
            Monitoring::Ended(_) => Some(true),
            Monitoring::Lost => Some(false),
            _ => None,
        },
{
    match step {
        MonitorStep::Ended { .. } => Some(true),
        MonitorStep::Lost => Some(false),
        _ => None,
    }
}

/// The step of a launch that follows two events.
pub open spec fn launched_by(step: Launching, first: Event, second: Event) -> Launching {
    after_launch_event(after_launch_event(step, first), second)
}

/// A launch of which all goes well brings the application up: after the
/// connection, the subscription, the attempt to stop what was left over
/// (whatever came of it), the programs, the second subscription, the job's
/// path, the job's end as done, the service's path, a state that is not an end,
/// and the third subscription, it is enough that time passes.
pub proof fn good_launches_come_up(
    leftover: Event,
    job: Seq<char>,
    unit: Seq<char>,
    state: Seq<char>,
    last: Event,
)
    requires
        leftover is Done || leftover is Failed,
        state != "inactive"@ && state != "failed"@,
        last is TimedOut || last is Closed,
    ensures
        ({
            let prepared = after_launch_event(
                launched_by(launched_by(Launching::Connect, Event::Done, Event::Done), leftover, Event::Done),
                Event::Done,
            );
            let started = launched_by(prepared, Event::Path(job), Event::JobRemoved(job, "done"@));
            let seen = launched_by(started, Event::Path(unit), Event::State(state));
            launched_by(seen, Event::Done, last) == Launching::Launched(unit)
        }),
{
}

/// What fails before anything could have been left over ends the launch; what
/// fails after that leads to the clean-up, and so does a service that has ended
/// or a job that was not done.
pub proof fn failures_end_launches(step: Launching, job: Seq<char>, unit: Seq<char>, text: Seq<char>)
    ensures
        after_launch_event(Launching::Connect, Event::Failed) is Failed,
        after_launch_event(Launching::Subscribe, Event::Failed) is Failed,
        step is Resolve || step is SubscribeJobs || step is Start || step is GetUnit || step is ReadState
            || step is Watch ==> after_launch_event(step, Event::Failed) is CleanUp,
        text != "done"@ ==> after_launch_event(
            Launching::AwaitJob(job),
            Event::JobRemoved(job, text),
        ) is CleanUp,
        after_launch_event(Launching::AwaitJob(job), Event::TimedOut) is CleanUp,
        after_launch_event(Launching::AwaitJob(job), Event::Closed) is CleanUp,
        after_launch_event(Launching::AwaitJob(job), Event::Unreadable) is CleanUp,
        text == "inactive"@ || text == "failed"@ ==> {
            &&& after_launch_event(Launching::ReadState(unit), Event::State(text)) is CleanUp
            &&& after_launch_event(
                Launching::AwaitEnd(unit),
                Event::PropertiesChanged("org.freedesktop.systemd1.Unit"@, Some(text)),
            ) is CleanUp
        },
        after_launch_event(Launching::AwaitEnd(unit), Event::Unreadable) is CleanUp,
        after_launch_event(Launching::CleanUp, Event::Done) is Failed,
        after_launch_event(Launching::CleanUp, Event::Failed) is Failed,
{
}

/// News of another job, of other properties or of a state that is not an end
/// do not disturb a launch that waits.
pub proof fn other_news_do_not_matter(
    job: Seq<char>,
    other: Seq<char>,
    unit: Seq<char>,
    interface: Seq<char>,
    state: Option<Seq<char>>,
    result: Seq<char>,
)
    ensures
        other != job ==> after_launch_event(Launching::AwaitJob(job), Event::JobRemoved(other, result))
            == Launching::AwaitJob(job),
        other != job ==> after_stop_event(
            Stopping::AwaitJob(job),
            unit,
            Event::JobRemoved(other, result),
        ) == Stopping::AwaitJob(job),
        other != unit ==> after_stop_event(Stopping::AwaitRemoval, unit, Event::UnitRemoved(other))
            == Stopping::AwaitRemoval,
        other != unit ==> after_monitor_event(Monitoring::Watch, unit, Event::UnitRemoved(other))
            == Monitoring::Watch,
        interface != "org.freedesktop.systemd1.Unit"@ || state is None || (state->0 != "inactive"@
            && state->0 != "failed"@) ==> {
            &&& after_launch_event(
                Launching::AwaitEnd(unit),
                Event::PropertiesChanged(interface, state),
            ) == Launching::AwaitEnd(unit)
            &&& after_monitor_event(
                Monitoring::Watch,
                unit,
                Event::PropertiesChanged(interface, state),
            ) == Monitoring::Watch
        },
{
}

/// A service of which all goes well is stopped: after the subscription, the
/// job's path, the job's end as done, and its removal. What fails on the way,
/// or takes too long, makes the stop fail.
pub proof fn good_stops_succeed(unit: Seq<char>, job: Seq<char>, text: Seq<char>, event: Event)
    ensures
        after_stop_event(
            after_stop_event(
                after_stop_event(
                    after_stop_event(Stopping::Subscribe, unit, Event::Done),
                    unit,
                    Event::Path(job),
                ),
                unit,
                Event::JobRemoved(job, "done"@),
            ),
            unit,
            Event::UnitRemoved(unit),
        ) is Stopped,
        after_stop_event(Stopping::Subscribe, unit, Event::Failed) is Failed,
        after_stop_event(Stopping::Stop, unit, Event::Failed) is Failed,
        text != "done"@ ==> after_stop_event(
            Stopping::AwaitJob(job),
            unit,
            Event::JobRemoved(job, text),
        ) is Failed,
        event is Unreadable || event is Closed || event is TimedOut ==> {
            &&& after_stop_event(Stopping::AwaitJob(job), unit, event) is Failed
            &&& after_stop_event(Stopping::AwaitRemoval, unit, event) is Failed
        },
        after_stop_event(Stopping::Stopped, unit, event) is Stopped,
        after_stop_event(Stopping::Failed, unit, event) is Failed,
{
}

/// The end of a service that is watched is reported, in the state in which it
/// ended: as it was read, as it changed, or as removed; and a watch that cannot
/// go on is lost.
pub proof fn ends_are_reported(unit: Seq<char>, state: Seq<char>, event: Event)
    ensures
        after_monitor_event(
            after_monitor_event(Monitoring::SubscribeRemovals, unit, Event::Done),
            unit,
            Event::Done,
        ) is ReadState,
        after_monitor_event(Monitoring::SubscribeRemovals, unit, Event::Failed) is Lost,
        after_monitor_event(Monitoring::SubscribeChanges, unit, Event::Failed) is Lost,
        after_monitor_event(Monitoring::ReadState, unit, Event::Failed) == Monitoring::Ended("removed"@),
        state == "inactive"@ || state == "failed"@ ==> {
            &&& after_monitor_event(Monitoring::ReadState, unit, Event::State(state))
                == Monitoring::Ended(state)
            &&& after_monitor_event(
                Monitoring::Watch,
                unit,
                Event::PropertiesChanged("org.freedesktop.systemd1.Unit"@, Some(state)),
            ) == Monitoring::Ended(state)
        },
        state != "inactive"@ && state != "failed"@ ==> after_monitor_event(
            Monitoring::ReadState,
            unit,
            Event::State(state),
        ) is Watch,
        after_monitor_event(Monitoring::Watch, unit, Event::UnitRemoved(unit)) == Monitoring::Ended(
            "removed"@,
        ),
        after_monitor_event(Monitoring::Watch, unit, Event::Unreadable) is Lost,
        after_monitor_event(Monitoring::Watch, unit, Event::Closed) is Lost,
        after_monitor_event(Monitoring::Watch, unit, Event::TimedOut) is Watch,
        after_monitor_event(Monitoring::Ended(state), unit, event) == Monitoring::Ended(state),
        after_monitor_event(Monitoring::Lost, unit, event) is Lost,
{
}

} // verus!
