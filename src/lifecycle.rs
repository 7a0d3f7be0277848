//! The embedding lifecycle: Pending, then Running, then Stopped.
//!
//! Every transition consumes the value it starts from. Starting hands the
//! pending payload to the host, which builds the topology and comes back with
//! `started`; stopping hands the running handles to the host, which waits for
//! the arbitration loop and comes back with `stopped`. While the host holds the
//! payload no lifecycle value exists, so a transition cannot be entered twice.
//! A transition asked of the wrong state is refused and the value handed back.
use vstd::prelude::*;

use crate::registry::{ChannelRegistry, ChannelSender};

verus! {

/// Which of the three lifecycle states a value is in.
#[derive(PartialEq, Eq, Structural, Clone, Copy, Debug)]
pub enum Phase {
    Pending,
    Running,
    Stopped,
}

/// Why a lifecycle operation was refused.
#[derive(PartialEq, Eq, Structural, Clone, Copy, Debug)]
pub enum LifecycleError {
    /// The operation needs a running instance and this one has not started.
    NotStarted,
    /// `start` was asked of an instance that is already running.
    AlreadyRunning,
    /// The instance has stopped and cannot be used again.
    AlreadyStopped,
    /// No ingestion channel is registered under the requested endpoint.
    UnknownEndpoint,
    /// Another start or stop of the same instance has not completed yet.
    TransitionInFlight,
}

impl LifecycleError {
    /// A message for the error.
    pub fn message(&self) -> (r: String)
        ensures
            *self == LifecycleError::NotStarted ==> r@ == "not started"@,
            *self == LifecycleError::AlreadyRunning ==> r@ == "already running"@,
            *self == LifecycleError::AlreadyStopped ==> r@ == "already stopped"@,
            *self == LifecycleError::UnknownEndpoint ==> r@ == "unknown endpoint"@,
            *self == LifecycleError::TransitionInFlight ==> r@ == "transition in flight"@,
    {
        match self {
            LifecycleError::NotStarted => String::from_str("not started"),
            LifecycleError::AlreadyRunning => String::from_str("already running"),
            LifecycleError::AlreadyStopped => String::from_str("already stopped"),
            LifecycleError::UnknownEndpoint => String::from_str("unknown endpoint"),
            LifecycleError::TransitionInFlight => String::from_str("transition in flight"),
        }
    }
}

/// An embedded pipeline. `P` is what building the topology needs (its
/// configuration, context and signal subscription); `R` the handles of the
/// running topology (its arbitration task and stop notifier).
pub enum VectorApp<P, R> {
    Pending { config: P },
    Running { registry: ChannelRegistry, handles: R },
    Stopped,
}

impl<P, R> VectorApp<P, R> {
    pub open spec fn phase(&self) -> Phase {
        match self {
            VectorApp::Pending { .. } => Phase::Pending,
            VectorApp::Running { .. } => Phase::Running,
            VectorApp::Stopped => Phase::Stopped,
        }
    }

    /// The error an operation that needs a running instance gets from a
    /// value in another state.
    pub open spec fn not_running_error(&self) -> LifecycleError {
        match self {
            VectorApp::Stopped => LifecycleError::AlreadyStopped,
            _ => LifecycleError::NotStarted,
        }
    }

    /// A pending instance holding what building its topology needs.
    pub fn new(config: P) -> (r: Self)
        ensures
            r == (VectorApp::<P, R>::Pending { config }),
    {
        VectorApp::Pending { config }
    }

    /// The state this instance is in.
    pub fn current_phase(&self) -> (r: Phase)
        ensures
            r == self.phase(),
    {
        match self {
            VectorApp::Pending { .. } => Phase::Pending,
            VectorApp::Running { .. } => Phase::Running,
            VectorApp::Stopped => Phase::Stopped,
        }
    }

    /// Whether this instance is running.
    pub fn is_running(&self) -> (r: bool)
        ensures
            r == (self.phase() == Phase::Running),
    {
        match self {
            VectorApp::Running { .. } => true,
            _ => false,
        }
    }

    /// Begins starting: a pending instance gives up its payload, from which the
    /// host builds the topology. Any other instance is handed back with the
    /// reason.
    pub fn start(self) -> (r: Result<P, (Self, LifecycleError)>)
        ensures
            self matches VectorApp::Pending { config } ==> r == Ok::<P, (Self, LifecycleError)>(
                config,
            ),
            self is Running ==> r == Err::<P, (Self, LifecycleError)>(
                (self, LifecycleError::AlreadyRunning),
            ),
            self is Stopped ==> r == Err::<P, (Self, LifecycleError)>(
                (self, LifecycleError::AlreadyStopped),
            ),
    {
        match self {
            VectorApp::Pending { config } => Ok(config),
            VectorApp::Running { .. } => Err((self, LifecycleError::AlreadyRunning)),
            VectorApp::Stopped => Err((self, LifecycleError::AlreadyStopped)),
        }
    }

    /// Completes starting: the running instance over the built topology's
    /// registry and handles.
    pub fn started(registry: ChannelRegistry, handles: R) -> (r: Self)
        ensures
            r == (VectorApp::<P, R>::Running { registry, handles }),
    {
        VectorApp::Running { registry, handles }
    }

    /// Begins stopping: a running instance gives up the handles the host needs
    /// to notify the arbitration loop and wait for it; its registry is dropped.
    /// Any other instance is handed back with the reason.
    pub fn stop(self) -> (r: Result<R, (Self, LifecycleError)>)
        ensures
            self matches VectorApp::Running { handles, .. } ==> r == Ok::<
                R,
                (Self, LifecycleError),
            >(handles),
            !(self is Running) ==> r == Err::<R, (Self, LifecycleError)>(
                (self, self.not_running_error()),
            ),
    {
        match self {
            VectorApp::Running { handles, .. } => Ok(handles),
            VectorApp::Pending { .. } => Err((self, LifecycleError::NotStarted)),
            VectorApp::Stopped => Err((self, LifecycleError::AlreadyStopped)),
        }
    }

    /// Completes stopping.
    pub fn stopped() -> (r: Self)
        ensures
            r is Stopped,
    {
        VectorApp::Stopped
    }

    /// The sender of the ingestion channel registered under `endpoint`. Only a
    /// running instance has channels; an endpoint without one is unknown.
    pub fn get_sender(&self, endpoint: &str) -> (r: Result<ChannelSender, LifecycleError>)
        ensures
            !(self is Running) ==> r == Err::<ChannelSender, LifecycleError>(
                self.not_running_error(),
            ),
            self matches VectorApp::Running { registry, .. } ==> {
                &&& r is Ok <==> registry.routes().contains_key(endpoint@)
                &&& r matches Ok(s) ==> s.id() == registry.routes()[endpoint@]
                &&& r matches Err(e) ==> e == LifecycleError::UnknownEndpoint
            },
    {
        match self {
            VectorApp::Running { registry, .. } => match registry.get_sender(endpoint) {
                Some(s) => Ok(s),
                None => Err(LifecycleError::UnknownEndpoint),
            },
            VectorApp::Pending { .. } => Err(LifecycleError::NotStarted),
            VectorApp::Stopped => Err(LifecycleError::AlreadyStopped),
        }
    }
}

/// The place a host keeps its instance. A transition takes the instance out
/// for as long as the asynchronous work runs and puts its successor back, so
/// the slot is empty exactly while a start or stop is in flight; a second
/// transition, or a lookup, asked meanwhile is refused rather than waiting.
pub struct EmbeddedVector<P, R> {
    pub app: Option<VectorApp<P, R>>,
}

impl<P, R> EmbeddedVector<P, R> {
    /// A slot holding a pending instance.
    pub fn new(config: P) -> (r: Self)
        ensures
            r.app == Some(VectorApp::<P, R>::Pending { config }),
    {
        EmbeddedVector { app: Some(VectorApp::new(config)) }
    }

    /// Takes the pending payload out to build the topology from. The slot
    /// stays empty until `finish_start`. A refused start leaves the slot as
    /// it was.
    pub fn begin_start(&mut self) -> (r: Result<P, LifecycleError>)
        ensures
            old(self).app is None ==> r == Err::<P, LifecycleError>(
                LifecycleError::TransitionInFlight,
            ) && final(self).app is None,
            old(self).app matches Some(VectorApp::Pending { config }) ==> r == Ok::<
                P,
                LifecycleError,
            >(config) && final(self).app is None,
            old(self).app matches Some(a) && a is Running ==> r == Err::<P, LifecycleError>(
                LifecycleError::AlreadyRunning,
            ) && final(self).app == old(self).app,
            old(self).app matches Some(a) && a is Stopped ==> r == Err::<P, LifecycleError>(
                LifecycleError::AlreadyStopped,
            ) && final(self).app == old(self).app,
    {
        match self.app.take() {
            None => Err(LifecycleError::TransitionInFlight),
            Some(app) => match app.start() {
                Ok(config) => Ok(config),
                Err((app, e)) => {
                    self.app = Some(app);
                    Err(e)
                },
            },
        }
    }

    /// Puts the running instance in the slot a start emptied.
    pub fn finish_start(&mut self, registry: ChannelRegistry, handles: R)
        ensures
            final(self).app == Some(VectorApp::<P, R>::Running { registry, handles }),
    {
        self.app = Some(VectorApp::started(registry, handles));
    }

    /// Takes the running handles out to stop the topology with. The slot
    /// stays empty until `finish_stop`. A refused stop leaves the slot as it
    /// was.
    pub fn begin_stop(&mut self) -> (r: Result<R, LifecycleError>)
        ensures
            old(self).app is None ==> r == Err::<R, LifecycleError>(
                LifecycleError::TransitionInFlight,
            ) && final(self).app is None,
            old(self).app matches Some(VectorApp::Running { handles, .. }) ==> r == Ok::<
                R,
                LifecycleError,
            >(handles) && final(self).app is None,
            old(self).app is Some && !(old(self).app->Some_0 is Running) ==> r == Err::<
                R,
                LifecycleError,
            >(old(self).app->Some_0.not_running_error()) && final(self).app == old(self).app,
    {
        match self.app.take() {
            None => Err(LifecycleError::TransitionInFlight),
            Some(app) => match app.stop() {
                Ok(handles) => Ok(handles),
                Err((app, e)) => {
                    self.app = Some(app);
                    Err(e)
                },
            },
        }
    }

    /// Puts the stopped instance in the slot a stop emptied.
    pub fn finish_stop(&mut self)
        ensures
            final(self).app == Some(VectorApp::<P, R>::Stopped),
    {
        self.app = Some(VectorApp::stopped());
    }

    /// The sender of the ingestion channel registered under `endpoint`, as
    /// the instance in the slot gives it.
    pub fn get_sender(&self, endpoint: &str) -> (r: Result<ChannelSender, LifecycleError>)
        ensures
            self.app is None ==> r == Err::<ChannelSender, LifecycleError>(
                LifecycleError::TransitionInFlight,
            ),
            self.app is Some && !(self.app->Some_0 is Running) ==> r == Err::<
                ChannelSender,
                LifecycleError,
            >(self.app->Some_0.not_running_error()),
            self.app matches Some(VectorApp::Running { registry, .. }) ==> {
                &&& r is Ok <==> registry.routes().contains_key(endpoint@)
                &&& r matches Ok(s) ==> s.id() == registry.routes()[endpoint@]
                &&& r matches Err(e) ==> e == LifecycleError::UnknownEndpoint
            },
    {
        match &self.app {
            None => Err(LifecycleError::TransitionInFlight),
            Some(app) => app.get_sender(endpoint),
        }
    }
}

} // verus!
