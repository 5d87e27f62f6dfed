//! The decisions of the interface's main loop. The loop waits for the next
//! event (a key, daemon news or the render tick), hands it here, and performs
//! the actions that come back: running the queued asynchronous work, the
//! fallback refresh and resubscription while the daemon's event stream is
//! down, and drawing.

use vstd::prelude::*;
use crate::state::AsyncAction;

verus! {

/// How often the sessions are refreshed while the event stream is down (ms).
pub const REFRESH_INTERVAL_MS: u64 = 5000;

/// How often a new subscription is tried while the event stream is down (ms).
pub const RESUBSCRIBE_INTERVAL_MS: u64 = 10000;

/// What the main loop keeps between events.
#[derive(Debug)]
pub struct LoopState {
    /// Work queued for the next tick (at most one)
    pub pending: Option<AsyncAction>,
    /// When the sessions were last refreshed (ms)
    pub last_refresh_ms: u64,
    /// When a resubscription was last tried (ms)
    pub last_resubscribe_ms: u64,
}

/// What the loop hands over.
#[derive(Debug)]
pub enum LoopEvent {
    /// A key or a daemon event asked for this asynchronous work
    Queued(AsyncAction),
    /// The render tick, at `now_ms`; `needs_resubscribe` when the daemon's
    /// event stream is down
    Tick { now_ms: u64, needs_resubscribe: bool },
}

/// What the loop is to do, in order.
#[derive(Debug)]
pub enum LoopAction {
    /// Run this asynchronous work now
    Execute(AsyncAction),
    /// Reload the session list
    RefreshSessions,
    /// Try to subscribe to the daemon's events again
    Resubscribe,
    /// Draw the screen
    Render,
}

/// Whether `interval` has passed since `since` at `now` (no time passes
/// when the clock reads earlier than `since`).
pub open spec fn elapsed(now: u64, since: u64, interval: u64) -> bool {
    now >= since && now - since >= interval
}

/// The state after an event and the actions to take, in order.
pub open spec fn loop_step_spec(s: LoopState, e: LoopEvent) -> (LoopState, Seq<LoopAction>) {
    match e {
        LoopEvent::Queued(a) => {
            let flushed = match s.pending {
                Some(old) => seq![LoopAction::Execute(old)],
                None => seq![],
            };
            (LoopState { pending: Some(a), ..s }, flushed)
        },
        LoopEvent::Tick { now_ms, needs_resubscribe } => {
            let run = match s.pending {
                Some(old) => seq![LoopAction::Execute(old)],
                None => seq![],
            };
            let refresh = needs_resubscribe && elapsed(now_ms, s.last_refresh_ms, REFRESH_INTERVAL_MS);
            let resubscribe = needs_resubscribe && elapsed(
                now_ms,
                s.last_resubscribe_ms,
                RESUBSCRIBE_INTERVAL_MS,
            );
            let after = LoopState {
                pending: None,
                last_refresh_ms: if refresh { now_ms } else { s.last_refresh_ms },
                last_resubscribe_ms: if resubscribe { now_ms } else { s.last_resubscribe_ms },
            };
            let actions = run + (if refresh { seq![LoopAction::RefreshSessions] } else { seq![] }) + (
            if resubscribe { seq![LoopAction::Resubscribe] } else { seq![] }) + seq![LoopAction::Render];
            (after, actions)
        },
    }
}

impl LoopState {
    /// The state the loop starts in at `now_ms`: nothing queued, both timers
    /// started.
    pub fn new(now_ms: u64) -> (r: Self)
        ensures
            r.pending is None,
            r.last_refresh_ms == now_ms,
            r.last_resubscribe_ms == now_ms,
    {
        LoopState { pending: None, last_refresh_ms: now_ms, last_resubscribe_ms: now_ms }
    }
}

fn interval_passed(now: u64, since: u64, interval: u64) -> (r: bool)
    ensures
        r == elapsed(now, since, interval),
{
    now >= since && now - since >= interval
}

/// One turn of the main loop: new work runs what was queued before it and
/// takes its place; the tick runs the queued work, refreshes and resubscribes
/// when due while the event stream is down, and draws.
pub fn loop_step(s: LoopState, e: LoopEvent) -> (r: (LoopState, Vec<LoopAction>))
    ensures
        (r.0, r.1@) == loop_step_spec(s, e),
{
    let ghost s0 = s;
    let ghost e0 = e;
    let mut actions: Vec<LoopAction> = Vec::new();
    match e {
        LoopEvent::Queued(a) => {
            let LoopState { pending, last_refresh_ms, last_resubscribe_ms } = s;
            if let Some(old) = pending {
                actions.push(LoopAction::Execute(old));
            }
            proof {
                assert(actions@ == loop_step_spec(s0, e0).1);
            }
            (LoopState { pending: Some(a), last_refresh_ms, last_resubscribe_ms }, actions)
        },
        LoopEvent::Tick { now_ms, needs_resubscribe } => {
            let LoopState { pending, last_refresh_ms, last_resubscribe_ms } = s;
            if let Some(old) = pending {
                actions.push(LoopAction::Execute(old));
            }
            let ghost run = actions@;
            let refresh = needs_resubscribe && interval_passed(now_ms, last_refresh_ms, REFRESH_INTERVAL_MS);
            let resubscribe = needs_resubscribe && interval_passed(
                now_ms,
                last_resubscribe_ms,
                RESUBSCRIBE_INTERVAL_MS,
            );
            if refresh {
                actions.push(LoopAction::RefreshSessions);
            }
            let ghost with_refresh = actions@;
            if resubscribe {
                actions.push(LoopAction::Resubscribe);
            }
            let ghost with_resubscribe = actions@;
            actions.push(LoopAction::Render);
            proof {
                let spec = loop_step_spec(s0, e0).1;
                assert(with_refresh =~= run + (if refresh { seq![LoopAction::RefreshSessions] } else { seq![] }));
                assert(with_resubscribe =~= with_refresh + (if resubscribe { seq![LoopAction::Resubscribe] } else { seq![] }));
                assert(actions@ =~= with_resubscribe + seq![LoopAction::Render]);
                assert(actions@ =~= spec);
            }
            let after = LoopState {
                pending: None,
                last_refresh_ms: if refresh { now_ms } else { last_refresh_ms },
                last_resubscribe_ms: if resubscribe { now_ms } else { last_resubscribe_ms },
            };
            (after, actions)
        },
    }
}

/// The loop keeps at most one piece of work waiting, and none survives a
/// tick: after a tick nothing is queued, and work queued is always the
/// latest asked for, whatever was queued before.
pub proof fn law_one_pending_action(s: LoopState, a: AsyncAction, now_ms: u64, needs_resubscribe: bool)
    ensures
        loop_step_spec(s, LoopEvent::Queued(a)).0.pending == Some(a),
        loop_step_spec(s, LoopEvent::Tick { now_ms, needs_resubscribe }).0.pending is None,
        loop_step_spec(loop_step_spec(s, LoopEvent::Queued(a)).0, LoopEvent::Tick { now_ms, needs_resubscribe }).1[0]
            == LoopAction::Execute(a),
{
}

} // verus!
