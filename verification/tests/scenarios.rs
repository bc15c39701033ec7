//! End-to-end scenarios for the batching protocol: immediate launch,
//! coalescing, callback rotation, chaining, idle settling, and misuse of
//! `done`.

use atomic_batcher::AppendAction;
use atomic_batcher::Batcher;
use atomic_batcher::DoneAction;
use atomic_batcher::ProtocolError;

#[test]
fn reentrant_appends_chain_without_idle() {
    // Idle batcher: the first append launches [1] synchronously.
    let mut b: Batcher<u64, ()> = Batcher::new();
    let first = match b.append(1) {
        AppendAction::Launched(v) => v,
        AppendAction::Queued => panic!("expected an immediate launch"),
    };
    assert_eq!(first, vec![1]);
    assert!(b.is_running());
    // Inside that run, before done: two more appends are queued.
    assert!(matches!(b.append(2), AppendAction::Queued));
    assert!(matches!(b.append(3), AppendAction::Queued));
    assert!(b.is_running());
    // done launches [2, 3] next, exactly once, with no idle state in between.
    let out = b.done(Ok::<(), &str>(())).unwrap();
    match out.next {
        DoneAction::Launch(v) => assert_eq!(v, vec![2, 3]),
        DoneAction::Idle => panic!("queued work must launch"),
    }
    assert!(b.is_running());
    // Nothing further was queued: the second done settles to idle.
    let out = b.done(Ok::<(), &str>(())).unwrap();
    assert!(matches!(out.next, DoneAction::Idle));
    assert!(out.notify.is_empty());
    assert!(!b.is_running());
}

#[test]
fn callbacks_rotate_across_two_runs() {
    // cb1 rides the immediate launch; cb2 is queued for the follow-up batch.
    let mut b: Batcher<u64, &str> = Batcher::new();
    assert!(matches!(b.appendcb(1, "cb1"), AppendAction::Launched(_)));
    assert!(matches!(b.appendcb(2, "cb2"), AppendAction::Queued));
    // First done: cb1 fires with its result, before [2] launches; cb2 waits.
    let out = b.done(Ok::<(), &str>(())).unwrap();
    assert_eq!(out.notify, vec!["cb1"]);
    assert_eq!(out.result, Ok(()));
    match out.next {
        DoneAction::Launch(v) => assert_eq!(v, vec![2]),
        DoneAction::Idle => panic!("queued work must launch"),
    }
    // Second done: cb2 fires, and the batcher goes idle.
    let out = b.done(Ok::<(), &str>(())).unwrap();
    assert_eq!(out.notify, vec!["cb2"]);
    assert!(matches!(out.next, DoneAction::Idle));
    assert!(!b.is_running());
}

#[test]
fn coalescing_preserves_submission_order() {
    let mut b: Batcher<u64, ()> = Batcher::new();
    assert!(matches!(b.append(0), AppendAction::Launched(_)));
    for v in 1..=5u64 {
        assert!(matches!(b.append(v), AppendAction::Queued));
    }
    let out = b.done(Ok::<(), &str>(())).unwrap();
    match out.next {
        DoneAction::Launch(v) => assert_eq!(v, vec![1, 2, 3, 4, 5]),
        DoneAction::Idle => panic!("queued work must launch"),
    }
}

#[test]
fn error_results_are_forwarded_and_do_not_stop_the_chain() {
    let mut b: Batcher<u64, &str> = Batcher::new();
    assert!(matches!(b.appendcb(1, "cb"), AppendAction::Launched(_)));
    assert!(matches!(b.append(2), AppendAction::Queued));
    // A failed run still notifies its callbacks and still launches the queue.
    let out = b.done(Err::<(), &str>("boom")).unwrap();
    assert_eq!(out.notify, vec!["cb"]);
    assert_eq!(out.result, Err("boom"));
    assert!(matches!(out.next, DoneAction::Launch(_)));
}

#[test]
fn idle_batcher_launches_again_after_settling() {
    let mut b: Batcher<u64, ()> = Batcher::new();
    assert!(matches!(b.append(7), AppendAction::Launched(_)));
    let out = b.done(Ok::<(), &str>(())).unwrap();
    assert!(matches!(out.next, DoneAction::Idle));
    assert!(!b.is_running());
    // The next append launches immediately again.
    match b.append(8) {
        AppendAction::Launched(v) => assert_eq!(v, vec![8]),
        AppendAction::Queued => panic!("an idle batcher must launch at once"),
    }
}

#[test]
fn done_while_idle_is_a_protocol_error() {
    let mut b: Batcher<u64, ()> = Batcher::new();
    assert_eq!(b.done(Ok::<(), &str>(())).unwrap_err(), ProtocolError::DoneWhileIdle);
    // The state is untouched: a normal cycle still works, and a second
    // completion after settling is again refused.
    assert!(matches!(b.append(1), AppendAction::Launched(_)));
    let out = b.done(Ok::<(), &str>(())).unwrap();
    assert!(matches!(out.next, DoneAction::Idle));
    assert_eq!(b.done(Ok::<(), &str>(())).unwrap_err(), ProtocolError::DoneWhileIdle);
}

#[test]
fn queued_callbacks_follow_registration_order() {
    let mut b: Batcher<u64, &str> = Batcher::new();
    assert!(matches!(b.append(0), AppendAction::Launched(_)));
    assert!(matches!(b.appendcb(1, "first"), AppendAction::Queued));
    assert!(matches!(b.append(2), AppendAction::Queued));
    assert!(matches!(b.appendcb(3, "second"), AppendAction::Queued));
    let out = b.done(Ok::<(), &str>(())).unwrap();
    assert!(out.notify.is_empty());
    match out.next {
        DoneAction::Launch(v) => assert_eq!(v, vec![1, 2, 3]),
        DoneAction::Idle => panic!("queued work must launch"),
    }
    let out = b.done(Ok::<(), &str>(())).unwrap();
    assert_eq!(out.notify, vec!["first", "second"]);
    assert!(matches!(out.next, DoneAction::Idle));
}
