//! The reconnect cycle and the handling of process signals.

use vstd::prelude::*;

verus! {

/// How long a failed connection attempt is followed by silence.
pub const BACKOFF_MILLIS: u64 = 5000;

/// Where the manager stands.
#[derive(Clone, Copy, Debug, PartialEq, Eq, Structural)]
pub enum Link {
    /// No connection; an attempt is due.
    Disconnected,
    /// No connection; the delay after a failed attempt runs.
    Waiting,
    /// A connection is being served.
    Connected,
    /// The manager has ended.
    Stopped,
}

/// The state of the connection manager.
#[derive(Clone, Copy, Debug, PartialEq, Eq, Structural)]
pub struct Manager {
    pub link: Link,
    /// Whether shutdown was requested.
    pub stopping: bool,
}

/// What can happen to the manager.
#[derive(Clone, Copy, Debug, PartialEq, Eq, Structural)]
pub enum ManagerEvent {
    ShutdownRequested,
    ConnectSucceeded,
    ConnectFailed,
    BackoffElapsed,
    SessionEnded,
}

/// What the manager does next.
#[derive(Clone, Copy, Debug, PartialEq, Eq, Structural)]
pub enum ManagerAction {
    /// Try to connect, unless shutdown is requested first.
    Connect,
    /// Serve the connection until it ends.
    Serve,
    /// Stay idle for this many milliseconds.
    Sleep(u64),
    /// End.
    Exit,
}

/// The state where the manager goes once it has no connection.
pub open spec fn released(m: Manager) -> Manager {
    if m.stopping {
        Manager { link: Link::Stopped, stopping: true }
    } else {
        Manager { link: Link::Disconnected, stopping: false }
    }
}

/// The state after `event` in state `m`.
pub open spec fn manager_step(m: Manager, event: ManagerEvent) -> Manager {
    match (m.link, event) {
        (Link::Stopped, _) => m,
        (Link::Disconnected, ManagerEvent::ShutdownRequested) => Manager {
            link: Link::Stopped,
            stopping: true,
        },
        (_, ManagerEvent::ShutdownRequested) => Manager { link: m.link, stopping: true },
        (Link::Disconnected, ManagerEvent::ConnectSucceeded) => Manager {
            link: Link::Connected,
            stopping: m.stopping,
        },
        (Link::Disconnected, ManagerEvent::ConnectFailed) => Manager {
            link: Link::Waiting,
            stopping: m.stopping,
        },
        (Link::Waiting, ManagerEvent::BackoffElapsed) => released(m),
        (Link::Connected, ManagerEvent::SessionEnded) => released(m),
        _ => m,
    }
}

/// The action that state `m` asks for.
pub open spec fn manager_action(m: Manager) -> ManagerAction {
    match m.link {
        Link::Disconnected => if m.stopping {
            ManagerAction::Exit
        } else {
            ManagerAction::Connect
        },
        Link::Waiting => ManagerAction::Sleep(BACKOFF_MILLIS),
        Link::Connected => ManagerAction::Serve,
        Link::Stopped => ManagerAction::Exit,
    }
}

/// The state after the events arrived one after another.
pub open spec fn manager_run(m: Manager, events: Seq<ManagerEvent>) -> Manager
    decreases events.len(),
{
    if events.len() == 0 {
        m
    } else {
        manager_run(manager_step(m, events[0]), events.drop_first())
    }
}

impl Manager {
    /// A manager without a connection, about to make its first attempt.
    pub fn new() -> (m: Manager)
        ensures
            m == (Manager { link: Link::Disconnected, stopping: false }),
    {
        Manager { link: Link::Disconnected, stopping: false }
    }

    /// The state that follows `event`.
    pub fn on_event(self, event: ManagerEvent) -> (next: Manager)
        ensures
            next == manager_step(self, event),
    {
        match self.link {
            Link::Stopped => self,
            Link::Disconnected => match event {
                ManagerEvent::ShutdownRequested => Manager { link: Link::Stopped, stopping: true },
                ManagerEvent::ConnectSucceeded => Manager {
                    link: Link::Connected,
                    stopping: self.stopping,
                },
                ManagerEvent::ConnectFailed => Manager {
                    link: Link::Waiting,
                    stopping: self.stopping,
                },
                _ => self,
            },
            Link::Waiting => match event {
                ManagerEvent::ShutdownRequested => Manager { link: Link::Waiting, stopping: true },
                ManagerEvent::BackoffElapsed => self.release(),
                _ => self,
            },
            Link::Connected => match event {
                ManagerEvent::ShutdownRequested => Manager {
                    link: Link::Connected,
                    stopping: true,
                },
                ManagerEvent::SessionEnded => self.release(),
                _ => self,
            },
        }
    }

    fn release(self) -> (next: Manager)
        ensures
            next == released(self),
    {
        if self.stopping {
            Manager { link: Link::Stopped, stopping: true }
        } else {
            Manager { link: Link::Disconnected, stopping: false }
        }
    }

    /// What the manager does next.
    pub fn action(self) -> (action: ManagerAction)
        ensures
            action == manager_action(self),
    {
        match self.link {
            Link::Disconnected => if self.stopping {
                ManagerAction::Exit
            } else {
                ManagerAction::Connect
            },
            Link::Waiting => ManagerAction::Sleep(BACKOFF_MILLIS),
            Link::Connected => ManagerAction::Serve,
            Link::Stopped => ManagerAction::Exit,
        }
    }
}

/// Once shutdown is requested no connection is attempted any more,
/// whatever happens afterwards.
pub proof fn lemma_no_connect_after_shutdown(m: Manager, events: Seq<ManagerEvent>)
    requires
        m.stopping || m.link == Link::Stopped,
    ensures
        manager_action(manager_run(m, events)) != ManagerAction::Connect,
        manager_run(m, events).stopping || manager_run(m, events).link == Link::Stopped,
    decreases events.len(),
{
    if events.len() > 0 {
        lemma_no_connect_after_shutdown(manager_step(m, events[0]), events.drop_first());
    }
}

/// Shutdown requested without a connection ends the manager: at once
/// where an attempt was due, and when the delay has run out where one was
/// running, so within one delay.
pub proof fn lemma_shutdown_while_disconnected(m: Manager)
    requires
        !m.stopping,
        m.link == Link::Disconnected || m.link == Link::Waiting,
    ensures
        ({
            let asked = manager_step(m, ManagerEvent::ShutdownRequested);
            &&& manager_action(asked) != ManagerAction::Connect
            &&& m.link == Link::Disconnected ==> asked.link == Link::Stopped
            &&& m.link == Link::Waiting ==> manager_action(asked) == ManagerAction::Sleep(
                BACKOFF_MILLIS,
            ) && manager_step(asked, ManagerEvent::BackoffElapsed).link == Link::Stopped
        }),
{
}

/// A connection that ends while no shutdown is requested is followed by a
/// new attempt, with no delay between.
pub proof fn lemma_reconnects_after_session(m: Manager)
    requires
        m.link == Link::Connected,
        !m.stopping,
    ensures
        manager_action(manager_step(m, ManagerEvent::SessionEnded)) == ManagerAction::Connect,
{
}

/// At most one connection is served at a time: a connection is only made
/// from the state without one.
pub proof fn lemma_connects_only_when_disconnected(m: Manager, event: ManagerEvent)
    requires
        manager_step(m, event).link == Link::Connected,
    ensures
        m.link == Link::Connected || (m.link == Link::Disconnected && event
            == ManagerEvent::ConnectSucceeded),
{
}

/// The signals that the process takes.
#[derive(Clone, Copy, Debug, PartialEq, Eq, Structural)]
pub enum Signal {
    Interrupt,
    Terminate,
    Alarm,
    Hangup,
    UserDefined1,
    UserDefined2,
}

/// Whether a signal asks the process to end.
pub open spec fn asks_shutdown(signal: Signal) -> bool {
    signal == Signal::Interrupt || signal == Signal::Terminate
}

/// Whether a signal asks the process to end: an interrupt and a
/// termination request do, every other signal is taken and ignored.
pub fn is_shutdown_signal(signal: Signal) -> (shutdown: bool)
    ensures
        shutdown == asks_shutdown(signal),
{
    match signal {
        Signal::Interrupt => true,
        Signal::Terminate => true,
        _ => false,
    }
}

/// Where the shutdown coordinator stands.
#[derive(Clone, Copy, Debug, PartialEq, Eq, Structural)]
pub enum Coordinator {
    /// Signals are awaited.
    Listening,
    /// Shutdown is being published, and the manager's end is awaited.
    Draining,
    /// The process may exit.
    Finished,
}

/// What can happen to the coordinator.
#[derive(Clone, Copy, Debug, PartialEq, Eq, Structural)]
pub enum CoordinatorEvent {
    Signalled(Signal),
    ManagerEnded,
}

/// What the coordinator does next.
#[derive(Clone, Copy, Debug, PartialEq, Eq, Structural)]
pub enum CoordinatorAction {
    /// Wait for the next signal.
    AwaitSignal,
    /// Publish the shutdown request, then wait for the manager to end.
    PublishShutdown,
    /// Exit with success.
    Exit,
}

/// The state after `event` in state `c`.
pub open spec fn coordinator_step(c: Coordinator, event: CoordinatorEvent) -> Coordinator {
    match (c, event) {
        (Coordinator::Listening, CoordinatorEvent::Signalled(signal)) => if asks_shutdown(signal) {
            Coordinator::Draining
        } else {
            Coordinator::Listening
        },
        (Coordinator::Draining, CoordinatorEvent::ManagerEnded) => Coordinator::Finished,
        _ => c,
    }
}

/// The action that state `c` asks for.
pub open spec fn coordinator_action(c: Coordinator) -> CoordinatorAction {
    match c {
        Coordinator::Listening => CoordinatorAction::AwaitSignal,
        Coordinator::Draining => CoordinatorAction::PublishShutdown,
        Coordinator::Finished => CoordinatorAction::Exit,
    }
}

impl Coordinator {
    /// A coordinator that awaits its first signal.
    pub fn new() -> (c: Coordinator)
        ensures
            c == Coordinator::Listening,
    {
        Coordinator::Listening
    }

    /// The state that follows `event`.
    pub fn on_event(self, event: CoordinatorEvent) -> (next: Coordinator)
        ensures
            next == coordinator_step(self, event),
    {
        match self {
            Coordinator::Listening => match event {
                CoordinatorEvent::Signalled(signal) => if is_shutdown_signal(signal) {
                    Coordinator::Draining
                } else {
                    Coordinator::Listening
                },
                CoordinatorEvent::ManagerEnded => self,
            },
            Coordinator::Draining => match event {
                CoordinatorEvent::ManagerEnded => Coordinator::Finished,
                CoordinatorEvent::Signalled(_) => self,
            },
            Coordinator::Finished => self,
        }
    }

    /// What the coordinator does next.
    pub fn action(self) -> (action: CoordinatorAction)
        ensures
            action == coordinator_action(self),
    {
        match self {
            Coordinator::Listening => CoordinatorAction::AwaitSignal,
            Coordinator::Draining => CoordinatorAction::PublishShutdown,
            Coordinator::Finished => CoordinatorAction::Exit,
        }
    }
}

/// Shutdown is published once: the coordinator comes to publish only from
/// listening, on an interrupt or a termination request, and leaves only
/// when the manager has ended. No signal ends the process by itself.
pub proof fn lemma_shutdown_is_published_once(c: Coordinator, event: CoordinatorEvent)
    ensures
        c != Coordinator::Draining && coordinator_step(c, event) == Coordinator::Draining ==> c
            == Coordinator::Listening && event is Signalled && asks_shutdown(event->Signalled_0),
        c == Coordinator::Draining ==> coordinator_step(c, event) == if event is ManagerEnded {
            Coordinator::Finished
        } else {
            Coordinator::Draining
        },
        c != Coordinator::Finished && coordinator_step(c, event) == Coordinator::Finished ==> c
            == Coordinator::Draining && event is ManagerEnded,
{
}

/// Whether the process may run: only with the effective identity of root,
/// as user and as group.
pub fn is_privileged(effective_uid: u32, effective_gid: u32) -> (allowed: bool)
    ensures
        allowed == (effective_uid == 0 && effective_gid == 0),
{
    effective_uid == 0 && effective_gid == 0
}

} // verus!
