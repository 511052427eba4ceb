//! The decisions of the loop that serves one connection.

use vstd::prelude::*;
use crate::proto::{HomeDirectoryInfo, HomeDirectoryModel, TaskRequest};
use crate::resilience::{manager_action, manager_step, Link, Manager, ManagerAction, ManagerEvent};

verus! {

/// What a read from the connection gave.
#[derive(Debug, PartialEq, Eq)]
pub enum Received {
    /// A complete request.
    Request(TaskRequest),
    /// The stream reported an error or bytes that are no request.
    Malformed,
    /// The peer closed the stream.
    Closed,
}

/// What the loop does with what it read.
#[derive(Debug, PartialEq, Eq)]
pub enum Dispatch {
    /// Provision this home directory, then answer.
    Provision(HomeDirectoryInfo),
    /// Give the connection up.
    Stop,
}

/// The work that a read asks for, if any.
pub open spec fn task_of(received: Received) -> Option<HomeDirectoryModel> {
    match received {
        Received::Request(TaskRequest::HomeDirectory(info)) => Some(info@),
        _ => None,
    }
}

/// Decides what follows a read: a home directory request is served, and
/// anything else ends the loop.
pub fn on_received(received: Received) -> (next: Dispatch)
    ensures
        match next {
            Dispatch::Provision(info) => task_of(received) == Some(info@),
            Dispatch::Stop => task_of(received) is None,
        },
{
    match received {
        Received::Request(TaskRequest::HomeDirectory(info)) => Dispatch::Provision(info),
        Received::Malformed => Dispatch::Stop,
        Received::Closed => Dispatch::Stop,
    }
}

/// Whether the loop reads again after an answer: only where the answer
/// was delivered.
pub fn continues_after_send(delivered: bool) -> (again: bool)
    ensures
        again == delivered,
{
    delivered
}

/// A read that gives no request asks for no work, so the loop ends; the
/// manager, unless it was asked to stop, then tries to connect anew.
pub proof fn lemma_undecodable_input_reconnects(received: Received, m: Manager)
    requires
        !(received is Request),
        m.link == Link::Connected,
        !m.stopping,
    ensures
        task_of(received) is None,
        manager_action(manager_step(m, ManagerEvent::SessionEnded)) == ManagerAction::Connect,
{
}

} // verus!
