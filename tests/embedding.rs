use vector_embed::lifecycle::{EmbeddedVector, LifecycleError, Phase, VectorApp};
use vector_embed::registry::ChannelRegistry;

type Slot = EmbeddedVector<&'static str, u32>;

#[test]
fn start_empties_the_slot_until_it_finishes() {
    let mut slot: Slot = EmbeddedVector::new("config");
    assert_eq!(slot.begin_start(), Ok("config"));
    assert!(slot.app.is_none());
    assert_eq!(slot.begin_start(), Err(LifecycleError::TransitionInFlight));
    assert_eq!(slot.begin_stop(), Err(LifecycleError::TransitionInFlight));
    assert_eq!(slot.get_sender("in").err().unwrap(), LifecycleError::TransitionInFlight);
    assert_eq!(LifecycleError::TransitionInFlight.message(), "transition in flight");

    let mut reg = ChannelRegistry::new();
    let _rx = reg.new_channel("in");
    slot.finish_start(reg, 11);
    assert_eq!(slot.app.as_ref().unwrap().current_phase(), Phase::Running);
    assert_eq!(slot.get_sender("in").unwrap().channel(), 0);
    assert_eq!(slot.get_sender("out").err().unwrap(), LifecycleError::UnknownEndpoint);
}

#[test]
fn refused_transitions_leave_the_slot_alone() {
    let mut slot: Slot = EmbeddedVector::new("config");
    assert_eq!(slot.begin_stop(), Err(LifecycleError::NotStarted));
    assert_eq!(slot.app.as_ref().unwrap().current_phase(), Phase::Pending);

    assert!(slot.begin_start().is_ok());
    slot.finish_start(ChannelRegistry::new(), 3);
    assert_eq!(slot.begin_start(), Err(LifecycleError::AlreadyRunning));
    assert!(slot.app.as_ref().unwrap().is_running());

    assert_eq!(slot.begin_stop(), Ok(3));
    assert!(slot.app.is_none());
    slot.finish_stop();
    assert!(matches!(slot.app, Some(VectorApp::Stopped)));
    assert_eq!(slot.begin_stop(), Err(LifecycleError::AlreadyStopped));
    assert_eq!(slot.begin_start(), Err(LifecycleError::AlreadyStopped));
    assert_eq!(slot.get_sender("in").err().unwrap(), LifecycleError::AlreadyStopped);
}
