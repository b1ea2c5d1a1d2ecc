use vstd::prelude::*;
use crate::descriptor::{
    connection_info, info_for, lemma_origin_port_round_trip, ConnectionInfo, ConnectionInfoView,
    DescriptorView, RuntimeDescriptor,
};
use crate::discovery::{launch_error, SpawnError, SupervisorError};
use crate::text::{extract_port, origin_port};

verus! {

/// What the launcher should do to make sure a backend runs.
#[derive(Debug, PartialEq, Eq)]
pub enum EnsureStep {
    /// A backend process is already owned: nothing to launch.
    AlreadyRunning,
    /// No backend process is owned: launch one, then record the outcome.
    SpawnNeeded,
}

/// An event reported by the backend process.
pub enum ProcessEvent {
    /// A line the backend wrote to standard output.
    Stdout(String),
    /// A line the backend wrote to standard error.
    Stderr(String),
    /// The process, or the channel that watches it, failed.
    Error(String),
    /// The process exited.
    Terminated,
    /// Anything else the process watcher reports.
    Other,
}

impl ProcessEvent {
    /// Whether the event means the backend is gone.
    pub open spec fn is_terminal(&self) -> bool {
        self is Error || self is Terminated
    }
}

/// What the launcher does to stop the backend.
#[derive(Debug, PartialEq, Eq)]
pub enum ShutdownPlan<H> {
    /// Nothing is known to run: do nothing.
    Nothing,
    /// Ask the backend on `signal_port` (when known) to exit, ignoring the
    /// outcome, then kill `handle` (when present).
    Stop { signal_port: Option<u16>, handle: Option<H> },
}

/// The abstract state of a supervisor.
pub struct SupervisorView<H> {
    /// The owned backend process, if any.
    pub child: Option<H>,
    /// The cached connection info, if any.
    pub info: Option<ConnectionInfoView>,
    /// The data directory, once settled.
    pub data_dir: Option<Seq<char>>,
}

pub open spec fn info_view(o: Option<ConnectionInfo>) -> Option<ConnectionInfoView> {
    match o {
        Some(i) => Some(i@),
        None => None,
    }
}

pub open spec fn text_view(o: Option<String>) -> Option<Seq<char>> {
    match o {
        Some(s) => Some(s@),
        None => None,
    }
}

impl<H> SupervisorView<H> {
    /// Cached info never outlives the process it describes.
    pub open spec fn wf(self) -> bool {
        self.info is Some ==> self.child is Some
    }

    pub open spec fn ensure_decision(self) -> EnsureStep {
        if self.child is Some {
            EnsureStep::AlreadyRunning
        } else {
            EnsureStep::SpawnNeeded
        }
    }

    pub open spec fn after_spawn(self, h: H) -> Self {
        SupervisorView { child: Some(h), ..self }
    }

    /// The process is gone: forget it and what was cached about it together.
    pub open spec fn after_termination(self) -> Self {
        SupervisorView { child: None, info: None, ..self }
    }

    /// Info is cached only while a process is owned to back it.
    pub open spec fn after_complete(self, i: ConnectionInfoView) -> Self {
        if self.child is Some {
            SupervisorView { info: Some(i), ..self }
        } else {
            self
        }
    }

    pub open spec fn shutdown_plan(self) -> ShutdownPlan<H> {
        match self.info {
            None => ShutdownPlan::Nothing,
            Some(i) => ShutdownPlan::Stop { signal_port: origin_port(i.origin), handle: self.child },
        }
    }

    pub open spec fn after_shutdown(self) -> Self {
        if self.info is Some {
            self.after_termination()
        } else {
            self
        }
    }

    /// How many launches `n` serialized ensure requests make, starting here,
    /// when every launch succeeds and yields `h`.
    pub open spec fn spawns_in(self, n: nat, h: H) -> nat
        decreases n,
    {
        if n == 0 {
            0
        } else if self.ensure_decision() == EnsureStep::SpawnNeeded {
            1 + self.after_spawn(h).spawns_in((n - 1) as nat, h)
        } else {
            self.spawns_in((n - 1) as nat, h)
        }
    }
}

/// The launcher's shared record of its backend. Callers serialize every
/// operation on it behind one lock, and hold that lock from `ensure_step`
/// through `record_spawn`.
pub struct Supervisor<H> {
    child: Option<H>,
    info: Option<ConnectionInfo>,
    data_dir: Option<String>,
}

impl<H> View for Supervisor<H> {
    type V = SupervisorView<H>;

    closed spec fn view(&self) -> SupervisorView<H> {
        SupervisorView { child: self.child, info: info_view(self.info), data_dir: text_view(self.data_dir) }
    }
}

impl<H> Supervisor<H> {
    /// A supervisor that owns no process and knows nothing yet.
    pub fn new() -> (r: Self)
        ensures
            r@ == (SupervisorView::<H> { child: None, info: None, data_dir: None }),
            r@.wf(),
    {
        Supervisor { child: None, info: None, data_dir: None }
    }

    /// The cached connection info, if any.
    pub fn cached_info(&self) -> (r: Option<ConnectionInfo>)
        ensures
            info_view(r) == self@.info,
    {
        match &self.info {
            Some(i) => Some(i.duplicate()),
            None => None,
        }
    }

    /// The data directory, if it has been settled.
    pub fn data_dir(&self) -> (r: Option<String>)
        ensures
            text_view(r) == self@.data_dir,
    {
        match &self.data_dir {
            Some(d) => Some(d.clone()),
            None => None,
        }
    }

    /// Settles the data directory on first use and returns the settled one:
    /// later calls keep the first value, whatever they pass.
    pub fn settle_data_dir(&mut self, resolved: String) -> (r: String)
        ensures
            old(self)@.data_dir is Some ==> r@ == old(self)@.data_dir->Some_0 && final(self)@ == old(self)@,
            old(self)@.data_dir is None ==> r@ == resolved@ && final(self)@ == (SupervisorView {
                data_dir: Some(resolved@),
                ..old(self)@
            }),
    {
        match &self.data_dir {
            Some(d) => d.clone(),
            None => {
                let r = resolved.clone();
                self.data_dir = Some(resolved);
                r
            },
        }
    }

    /// Whether a backend must be launched. A launch is needed exactly when no
    /// process is owned.
    pub fn ensure_step(&self) -> (r: EnsureStep)
        ensures
            r == self@.ensure_decision(),
    {
        if self.child.is_some() {
            EnsureStep::AlreadyRunning
        } else {
            EnsureStep::SpawnNeeded
        }
    }

    /// Records the outcome of a launch that `ensure_step` asked for: a started
    /// process becomes the owned one; a failure changes nothing and is
    /// reported as a preparation or a spawn failure, after the step that failed.
    pub fn record_spawn(&mut self, outcome: Result<H, SpawnError>) -> (r: Result<(), SupervisorError>)
        requires
            old(self)@.child is None,
            old(self)@.wf(),
        ensures
            final(self)@.wf(),
            outcome is Ok ==> r is Ok && final(self)@ == old(self)@.after_spawn(outcome->Ok_0),
            outcome is Err ==> r == Err::<(), SupervisorError>(launch_error(outcome->Err_0))
                && final(self)@ == old(self)@,
    {
        match outcome {
            Ok(h) => {
                self.child = Some(h);
                Ok(())
            },
            Err(SpawnError::Prepare(e)) => Err(SupervisorError::PrepareFailure(e)),
            Err(SpawnError::Launch(e)) => Err(SupervisorError::SpawnFailure(e)),
        }
    }

    /// Reacts to an event of the owned process. An error or a termination
    /// drops both the process and the cached info, so that the next request
    /// launches afresh; output changes nothing. Returns whether the state was
    /// cleared.
    pub fn on_event(&mut self, event: &ProcessEvent) -> (r: bool)
        requires
            old(self)@.wf(),
        ensures
            final(self)@.wf(),
            r == event.is_terminal(),
            final(self)@ == if r {
                old(self)@.after_termination()
            } else {
                old(self)@
            },
    {
        match event {
            ProcessEvent::Error(_) | ProcessEvent::Terminated => {
                self.child = None;
                self.info = None;
                true
            },
            _ => false,
        }
    }

    /// Finishes a request once discovery found `desc`: builds the connection
    /// info and caches it, provided the process still runs to back it.
    pub fn complete(&mut self, desc: &RuntimeDescriptor) -> (r: ConnectionInfo)
        requires
            old(self)@.wf(),
        ensures
            final(self)@.wf(),
            r@ == info_for(desc@),
            final(self)@ == old(self)@.after_complete(r@),
    {
        let info = connection_info(desc);
        if self.child.is_some() {
            self.info = Some(info.duplicate());
        }
        info
    }

    /// Starts shutting the backend down. With no cached info this does
    /// nothing. Otherwise it hands out the port to signal, read from the
    /// cached origin, and the owned process to kill, and forgets both the
    /// process and the info, whatever the signal later achieves.
    pub fn shutdown(&mut self) -> (r: ShutdownPlan<H>)
        requires
            old(self)@.wf(),
        ensures
            final(self)@.wf(),
            r == old(self)@.shutdown_plan(),
            final(self)@ == old(self)@.after_shutdown(),
    {
        match &self.info {
            None => ShutdownPlan::Nothing,
            Some(i) => {
                let signal_port = extract_port(i.origin.as_str());
                let handle = self.child.take();
                self.info = None;
                ShutdownPlan::Stop { signal_port, handle }
            },
        }
    }
}

/// Once a process is owned, no number of further ensure requests launches
/// another.
pub proof fn lemma_running_never_spawns<H>(s: SupervisorView<H>, n: nat, h: H)
    requires
        s.child is Some,
    ensures
        s.spawns_in(n, h) == 0,
    decreases n,
{
    if n > 0 {
        lemma_running_never_spawns(s, (n - 1) as nat, h);
    }
}

/// Ensure is idempotent: any number (at least one) of serialized ensure
/// requests made while no process is owned launches exactly one process.
pub proof fn lemma_ensure_spawns_once<H>(s: SupervisorView<H>, n: nat, h: H)
    requires
        s.child is None,
        n >= 1,
    ensures
        s.spawns_in(n, h) == 1,
{
    lemma_running_never_spawns(s.after_spawn(h), (n - 1) as nat, h);
}

/// After an error or termination of the process, nothing cached survives and
/// the next request launches a fresh process (exactly one, however many
/// requests follow) instead of reusing old info.
pub proof fn lemma_termination_forces_fresh_cycle<H>(s: SupervisorView<H>, n: nat, h: H)
    requires
        n >= 1,
    ensures
        s.after_termination().info is None,
        s.after_termination().ensure_decision() == EnsureStep::SpawnNeeded,
        s.after_termination().spawns_in(n, h) == 1,
        s.after_termination().wf(),
{
    lemma_ensure_spawns_once(s.after_termination(), n, h);
}

/// Shutdown with cached info always leaves no owned process, and hands the
/// previously owned one out to be killed, independently of how the graceful
/// request fares.
pub proof fn lemma_shutdown_is_total<H>(s: SupervisorView<H>)
    requires
        s.info is Some,
    ensures
        s.after_shutdown().child is None,
        s.after_shutdown().info is None,
        s.shutdown_plan() is Stop,
        s.shutdown_plan()->Stop_handle == s.child,
{
}

/// Shutdown with nothing cached does nothing and changes nothing.
pub proof fn lemma_shutdown_without_info_is_noop<H>(s: SupervisorView<H>)
    requires
        s.info is None,
    ensures
        s.shutdown_plan() is Nothing,
        s.after_shutdown() == s,
{
}

/// The graceful shutdown request goes to the port of the descriptor whose
/// info was cached.
pub proof fn lemma_shutdown_signals_discovered_port<H>(s: SupervisorView<H>, d: DescriptorView)
    requires
        s.child is Some,
    ensures
        s.after_complete(info_for(d)).shutdown_plan() == (ShutdownPlan::Stop {
            signal_port: Some(d.port),
            handle: s.child,
        }),
{
    lemma_origin_port_round_trip(d.port);
}

} // verus!
