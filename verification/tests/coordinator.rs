use easysplash::coordinator::{Coordinator, PipelineStatus};

#[test]
fn pending_request_survives_continuous_updates_until_interruptable() {
    let mut coordinator = Coordinator::new();
    assert!(!coordinator.interruptable);
    assert!(!coordinator.pending);

    // A request against a clip that must play completely stays pending.
    assert!(!coordinator.on_status(PipelineStatus::Continuous));
    assert!(!coordinator.on_interrupt());
    assert!(coordinator.pending);
    assert!(!coordinator.honor_now());

    // More complete clips: still deferred, never dropped.
    assert!(!coordinator.on_status(PipelineStatus::Continuous));
    assert!(coordinator.pending);
    assert!(!coordinator.honor_now());

    // The first interruptable clip honors the request.
    assert!(coordinator.on_status(PipelineStatus::Interruptable));
}

#[test]
fn request_against_interruptable_clip_is_honored_at_once() {
    let mut coordinator = Coordinator::new();
    assert!(!coordinator.on_status(PipelineStatus::Interruptable));
    assert!(coordinator.on_interrupt());
}

#[test]
fn last_status_write_wins() {
    let mut coordinator = Coordinator::new();
    assert!(!coordinator.on_status(PipelineStatus::Interruptable));
    assert!(!coordinator.on_status(PipelineStatus::Continuous));
    assert!(!coordinator.on_interrupt());
    assert!(!coordinator.honor_now());
}
