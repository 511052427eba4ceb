use unix_tasks::dispatch::{continues_after_send, on_received, Dispatch, Received};
use unix_tasks::proto::{response_for, HomeDirectoryInfo, TaskRequest, TaskResponse};
use unix_tasks::resilience::{
    is_privileged, is_shutdown_signal, Coordinator, CoordinatorAction, CoordinatorEvent, Link,
    Manager, ManagerAction, ManagerEvent, Signal, BACKOFF_MILLIS,
};

fn sample_info() -> HomeDirectoryInfo {
    HomeDirectoryInfo { name: String::from("alice"), gid: 1000, aliases: vec![String::from("al")] }
}

#[test]
fn request_is_served() {
    let next = on_received(Received::Request(TaskRequest::HomeDirectory(sample_info())));
    assert_eq!(next, Dispatch::Provision(sample_info()));
}

#[test]
fn malformed_or_closed_stream_stops_the_loop() {
    assert_eq!(on_received(Received::Malformed), Dispatch::Stop);
    assert_eq!(on_received(Received::Closed), Dispatch::Stop);
}

#[test]
fn malformed_message_leads_to_a_new_attempt() {
    let manager = Manager::new().on_event(ManagerEvent::ConnectSucceeded);
    assert_eq!(manager.action(), ManagerAction::Serve);
    assert_eq!(on_received(Received::Malformed), Dispatch::Stop);
    let manager = manager.on_event(ManagerEvent::SessionEnded);
    assert_eq!(manager.link, Link::Disconnected);
    assert_eq!(manager.action(), ManagerAction::Connect);
}

#[test]
fn loop_reads_again_only_after_delivery() {
    assert!(continues_after_send(true));
    assert!(!continues_after_send(false));
}

#[test]
fn outcome_becomes_response() {
    assert_eq!(response_for(Ok(())), TaskResponse::Success);
    assert_eq!(
        response_for(Err(String::from("Unable to set ownership"))),
        TaskResponse::Error(String::from("Unable to set ownership"))
    );
}

#[test]
fn manager_starts_with_an_attempt() {
    let manager = Manager::new();
    assert_eq!(manager.link, Link::Disconnected);
    assert!(!manager.stopping);
    assert_eq!(manager.action(), ManagerAction::Connect);
}

#[test]
fn failed_attempt_waits_five_seconds() {
    let manager = Manager::new().on_event(ManagerEvent::ConnectFailed);
    assert_eq!(manager.link, Link::Waiting);
    assert_eq!(manager.action(), ManagerAction::Sleep(5000));
    assert_eq!(BACKOFF_MILLIS, 5000);
    let manager = manager.on_event(ManagerEvent::BackoffElapsed);
    assert_eq!(manager.action(), ManagerAction::Connect);
}

#[test]
fn shutdown_while_disconnected_stops_at_once() {
    let manager = Manager::new().on_event(ManagerEvent::ShutdownRequested);
    assert_eq!(manager.link, Link::Stopped);
    assert_eq!(manager.action(), ManagerAction::Exit);
    let manager = manager.on_event(ManagerEvent::ConnectSucceeded);
    assert_eq!(manager.link, Link::Stopped);
}

#[test]
fn shutdown_during_backoff_stops_when_it_ends() {
    let manager = Manager::new()
        .on_event(ManagerEvent::ConnectFailed)
        .on_event(ManagerEvent::ShutdownRequested);
    assert_eq!(manager.action(), ManagerAction::Sleep(5000));
    let manager = manager.on_event(ManagerEvent::BackoffElapsed);
    assert_eq!(manager.link, Link::Stopped);
    assert_eq!(manager.action(), ManagerAction::Exit);
}

#[test]
fn shutdown_while_connected_waits_for_the_session() {
    let manager = Manager::new()
        .on_event(ManagerEvent::ConnectSucceeded)
        .on_event(ManagerEvent::ShutdownRequested);
    assert_eq!(manager.link, Link::Connected);
    assert_eq!(manager.action(), ManagerAction::Serve);
    let manager = manager.on_event(ManagerEvent::SessionEnded);
    assert_eq!(manager.link, Link::Stopped);
}

#[test]
fn events_out_of_place_change_nothing() {
    let manager = Manager::new();
    assert_eq!(manager.on_event(ManagerEvent::SessionEnded), manager);
    assert_eq!(manager.on_event(ManagerEvent::BackoffElapsed), manager);
    let connected = manager.on_event(ManagerEvent::ConnectSucceeded);
    assert_eq!(connected.on_event(ManagerEvent::ConnectSucceeded), connected);
    assert_eq!(connected.on_event(ManagerEvent::ConnectFailed), connected);
}

#[test]
fn only_interrupt_and_terminate_shut_down() {
    assert!(is_shutdown_signal(Signal::Interrupt));
    assert!(is_shutdown_signal(Signal::Terminate));
    assert!(!is_shutdown_signal(Signal::Alarm));
    assert!(!is_shutdown_signal(Signal::Hangup));
    assert!(!is_shutdown_signal(Signal::UserDefined1));
    assert!(!is_shutdown_signal(Signal::UserDefined2));
}

#[test]
fn only_root_is_privileged() {
    assert!(is_privileged(0, 0));
    assert!(!is_privileged(0, 1));
    assert!(!is_privileged(1000, 0));
    assert!(!is_privileged(1000, 1000));
}

#[test]
fn ignorable_signals_keep_the_coordinator_listening() {
    let mut c = Coordinator::new();
    for signal in [Signal::Alarm, Signal::Hangup, Signal::UserDefined1, Signal::UserDefined2] {
        c = c.on_event(CoordinatorEvent::Signalled(signal));
        assert_eq!(c, Coordinator::Listening);
        assert_eq!(c.action(), CoordinatorAction::AwaitSignal);
    }
}

#[test]
fn termination_publishes_and_waits_for_the_manager() {
    let c = Coordinator::new().on_event(CoordinatorEvent::Signalled(Signal::Terminate));
    assert_eq!(c.action(), CoordinatorAction::PublishShutdown);
    let again = c.on_event(CoordinatorEvent::Signalled(Signal::Interrupt));
    assert_eq!(again, Coordinator::Draining);
    let done = again.on_event(CoordinatorEvent::ManagerEnded);
    assert_eq!(done, Coordinator::Finished);
    assert_eq!(done.action(), CoordinatorAction::Exit);
}

#[test]
fn manager_end_without_a_signal_changes_nothing() {
    let c = Coordinator::new().on_event(CoordinatorEvent::ManagerEnded);
    assert_eq!(c, Coordinator::Listening);
}
