use ccm::event_loop::{loop_step, LoopAction, LoopEvent, LoopState};
use ccm::state::AsyncAction;

fn tick(now_ms: u64, needs_resubscribe: bool) -> LoopEvent {
    LoopEvent::Tick { now_ms, needs_resubscribe }
}

#[test]
fn queued_work_runs_on_the_next_tick() {
    let s = LoopState::new(0);
    let (s, actions) = loop_step(s, LoopEvent::Queued(AsyncAction::RefreshAll));
    assert!(actions.is_empty());
    assert_eq!(s.pending, Some(AsyncAction::RefreshAll));
    let (s, actions) = loop_step(s, tick(16, false));
    assert_eq!(actions.len(), 2);
    assert!(matches!(actions[0], LoopAction::Execute(AsyncAction::RefreshAll)));
    assert!(matches!(actions[1], LoopAction::Render));
    assert_eq!(s.pending, None);
    let (_, actions) = loop_step(s, tick(32, false));
    assert!(matches!(actions.as_slice(), [LoopAction::Render]));
}

#[test]
fn new_work_flushes_the_waiting_work() {
    let s = LoopState::new(0);
    let (s, _) = loop_step(s, LoopEvent::Queued(AsyncAction::RefreshSessions));
    let (s, actions) =
        loop_step(s, LoopEvent::Queued(AsyncAction::DestroySession { session_id: "s1".to_string() }));
    assert!(matches!(actions.as_slice(), [LoopAction::Execute(AsyncAction::RefreshSessions)]));
    assert_eq!(s.pending, Some(AsyncAction::DestroySession { session_id: "s1".to_string() }));
}

#[test]
fn disconnected_loop_refreshes_and_resubscribes_on_schedule() {
    let s = LoopState::new(1000);
    // Connected: no fallback, however long it has been.
    let (s, actions) = loop_step(s, tick(60_000, false));
    assert!(matches!(actions.as_slice(), [LoopAction::Render]));
    assert_eq!((s.last_refresh_ms, s.last_resubscribe_ms), (1000, 1000));
    // Disconnected, 4.999 s after the start: nothing yet.
    let s = LoopState::new(1000);
    let (s, actions) = loop_step(s, tick(5999, true));
    assert!(matches!(actions.as_slice(), [LoopAction::Render]));
    // 5 s: refresh.
    let (s, actions) = loop_step(s, tick(6000, true));
    assert!(matches!(actions.as_slice(), [LoopAction::RefreshSessions, LoopAction::Render]));
    assert_eq!(s.last_refresh_ms, 6000);
    // 10 s: resubscribe too (the refresh is 5 s old again).
    let (s, actions) = loop_step(s, tick(11_000, true));
    assert!(matches!(
        actions.as_slice(),
        [LoopAction::RefreshSessions, LoopAction::Resubscribe, LoopAction::Render]
    ));
    assert_eq!((s.last_refresh_ms, s.last_resubscribe_ms), (11_000, 11_000));
    // A clock reading earlier than the timers: no time has passed.
    let (_, actions) = loop_step(s, tick(10, true));
    assert!(matches!(actions.as_slice(), [LoopAction::Render]));
}
