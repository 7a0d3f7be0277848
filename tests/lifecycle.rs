use bytes::Bytes;
use vector_embed::arbitration::{arbitrate, Arbitration, ShutdownCause, Wakeup};
use vector_embed::ingest::{assemble_batch, EndpointAction, EndpointTask};
use vector_embed::lifecycle::{LifecycleError, Phase, VectorApp};
use vector_embed::registry::ChannelRegistry;

type App = VectorApp<&'static str, u32>;

fn running(endpoints: &[&str]) -> (App, Vec<vector_embed::registry::ChannelReceiver>) {
    let app: App = VectorApp::new("config");
    let config = app.start().ok().expect("pending starts");
    assert_eq!(config, "config");
    let mut reg = ChannelRegistry::new();
    let rxs = endpoints.iter().map(|e| reg.new_channel(e)).collect();
    (VectorApp::started(reg, 7), rxs)
}

#[test]
fn new_instance_is_pending() {
    let app: App = VectorApp::new("config");
    assert_eq!(app.current_phase(), Phase::Pending);
    assert!(!app.is_running());
}

#[test]
fn misuse_is_refused_with_the_instance() {
    let (app, _rxs) = running(&["in"]);
    let (app, err) = app.start().err().unwrap();
    assert_eq!(err, LifecycleError::AlreadyRunning);
    assert!(app.is_running());

    let pending: App = VectorApp::new("config");
    let (pending, err) = pending.stop().err().unwrap();
    assert_eq!(err, LifecycleError::NotStarted);
    assert_eq!(pending.current_phase(), Phase::Pending);

    let stopped: App = VectorApp::stopped();
    let (stopped, err) = stopped.stop().err().unwrap();
    assert_eq!(err, LifecycleError::AlreadyStopped);
    let (_, err) = stopped.start().err().unwrap();
    assert_eq!(err, LifecycleError::AlreadyStopped);
}

#[test]
fn unknown_endpoint_is_reported() {
    let (app, _rxs) = running(&["in"]);
    let err = app.get_sender("nowhere").err().unwrap();
    assert_eq!(err, LifecycleError::UnknownEndpoint);
    assert_eq!(err.message(), "unknown endpoint");
}

#[test]
fn senders_need_a_running_instance() {
    let pending: App = VectorApp::new("config");
    assert_eq!(pending.get_sender("in").err().unwrap(), LifecycleError::NotStarted);
    let stopped: App = VectorApp::stopped();
    assert_eq!(stopped.get_sender("in").err().unwrap(), LifecycleError::AlreadyStopped);
    assert_eq!(LifecycleError::NotStarted.message(), "not started");
    assert_eq!(LifecycleError::AlreadyRunning.message(), "already running");
    assert_eq!(LifecycleError::AlreadyStopped.message(), "already stopped");
}

#[test]
fn single_endpoint_end_to_end() {
    let (app, mut rxs) = running(&["in"]);
    let sender = app.get_sender("in").unwrap();
    sender.sender().try_send(Bytes::from_static(b"b1")).unwrap();
    sender.sender().try_send(Bytes::from_static(b"b2")).unwrap();

    let mut task = EndpointTask::new();
    let mut rx = rxs.remove(0).into_receiver();
    let mut drained = Vec::new();
    while let Ok(payload) = rx.try_recv() {
        drained.push(payload);
    }
    assert_eq!(task.step(false, Some(drained.len())), EndpointAction::Forward);
    let decoded = drained
        .iter()
        .map(|b| String::from_utf8(b.to_vec()).map(|s| vec![s]).map_err(|e| e.to_string()))
        .collect();
    let batch = assemble_batch(decoded);
    assert_eq!(batch.records, vec!["b1", "b2"]);
    assert!(batch.failures.is_empty());
    task.forwarded(batch.records.len());

    let handles = app.stop().ok().unwrap();
    assert_eq!(handles, 7);
    let w = Wakeup::<String> {
        stop_requested: true,
        signal: None,
        crash: None,
        has_sources: true,
        sources_finished: false,
    };
    assert!(matches!(arbitrate(w), Arbitration::Decided(ShutdownCause::Explicit)));
    assert_eq!(task.step(true, None), EndpointAction::Finish);
    assert_eq!(task.processed, 2);
    let app: App = VectorApp::stopped();
    assert_eq!(app.current_phase(), Phase::Stopped);
}

#[test]
fn zero_sources_reach_stopped_unprompted() {
    let (app, _rxs) = running(&[]);
    let w = Wakeup::<String> {
        stop_requested: false,
        signal: None,
        crash: None,
        has_sources: false,
        sources_finished: false,
    };
    assert!(matches!(arbitrate(w), Arbitration::Decided(ShutdownCause::Completed)));
    assert!(app.stop().is_ok());
    let app: App = VectorApp::stopped();
    assert_eq!(app.current_phase(), Phase::Stopped);
}
