use tutorlol::polling::{
    FeedStatus, LiveFeed, PollingController, Publication, TickAction, MAX_FAILURES,
    POLL_INTERVAL_MS,
};
use tutorlol::relay::RelayResult;

fn failure() -> RelayResult {
    RelayResult::Failure("down".to_string())
}

fn success(payload: &str) -> RelayResult {
    RelayResult::Success(payload.to_string())
}

fn tick(controller: &mut PollingController, result: RelayResult) -> Option<Publication> {
    match controller.on_timer() {
        TickAction::Fire { ticket, .. } => Some(controller.on_result(ticket, result)),
        TickAction::Skip | TickAction::Cancel => None,
    }
}

#[test]
fn defaults() {
    assert_eq!(POLL_INTERVAL_MS, 1000);
    assert_eq!(MAX_FAILURES, 10);
    let controller = PollingController::with_defaults(123456);
    assert_eq!(controller.interval_ms(), 1000);
    assert_eq!(controller.max_failures(), 10);
    assert_eq!(controller.game_code(), 123456);
    assert_eq!(controller.failures(), 0);
    assert!(!controller.is_running());
    assert_eq!(controller.status(), FeedStatus::Idle);
    assert_eq!(controller, PollingController::new(1000, 10, 123456));
}

#[test]
fn idle_controller_cancels_the_timer() {
    let mut controller = PollingController::with_defaults(1);
    assert_eq!(controller.on_timer(), TickAction::Cancel);
    assert!(!controller.is_running());
}

#[test]
fn start_is_idempotent() {
    let mut controller = PollingController::with_defaults(1);
    controller.start();
    assert!(controller.is_running());
    assert_eq!(controller.status(), FeedStatus::Live);
    tick(&mut controller, failure());
    tick(&mut controller, failure());
    let before = controller.clone();
    controller.start();
    assert_eq!(controller, before);
    assert_eq!(controller.failures(), 2);
}

#[test]
fn start_resets_the_counter() {
    let mut controller = PollingController::new(1000, 3, 1);
    controller.start();
    for _ in 0..3 {
        tick(&mut controller, failure());
    }
    assert!(!controller.is_running());
    assert_eq!(controller.failures(), 3);
    controller.start();
    assert!(controller.is_running());
    assert_eq!(controller.failures(), 0);
}

#[test]
fn timer_fires_for_the_target_code() {
    let mut controller = PollingController::with_defaults(424242);
    controller.start();
    match controller.on_timer() {
        TickAction::Fire { game_code, .. } => assert_eq!(game_code, 424242),
        other => panic!("{:?}", other),
    }
}

#[test]
fn tick_is_skipped_while_a_call_is_under_way() {
    let mut controller = PollingController::with_defaults(1);
    controller.start();
    let ticket = match controller.on_timer() {
        TickAction::Fire { ticket, .. } => ticket,
        other => panic!("{:?}", other),
    };
    assert_eq!(controller.on_timer(), TickAction::Skip);
    assert_eq!(controller.on_timer(), TickAction::Skip);
    assert_eq!(controller.on_result(ticket, success("p")), Publication::Payload("p".to_string()));
    assert!(matches!(controller.on_timer(), TickAction::Fire { .. }));
}

#[test]
fn success_publishes_the_payload() {
    let mut controller = PollingController::with_defaults(1);
    controller.start();
    assert_eq!(
        tick(&mut controller, success("{\"x\":1}")),
        Some(Publication::Payload("{\"x\":1}".to_string()))
    );
    assert_eq!(controller.failures(), 0);
    assert!(controller.is_running());
}

#[test]
fn failure_publishes_nothing_and_counts() {
    let mut controller = PollingController::with_defaults(1);
    controller.start();
    assert_eq!(tick(&mut controller, failure()), Some(Publication::Unchanged));
    assert_eq!(controller.failures(), 1);
    assert_eq!(tick(&mut controller, failure()), Some(Publication::Unchanged));
    assert_eq!(controller.failures(), 2);
    assert!(controller.is_running());
}

#[test]
fn empty_payload_counts_as_failure() {
    let mut controller = PollingController::with_defaults(1);
    controller.start();
    assert_eq!(tick(&mut controller, success("")), Some(Publication::Unchanged));
    assert_eq!(controller.failures(), 1);
}

#[test]
fn failure_counter_resets_on_success() {
    let mut controller = PollingController::with_defaults(1);
    controller.start();
    for expected in 1..=5 {
        tick(&mut controller, failure());
        assert_eq!(controller.failures(), expected);
    }
    tick(&mut controller, success("ok"));
    assert_eq!(controller.failures(), 0);
    assert!(controller.is_running());
}

#[test]
fn self_stop_after_the_tenth_failure() {
    let mut controller = PollingController::new(1000, 10, 1);
    controller.start();
    let mut calls = 0;
    for firing in 1..=25 {
        if let Some(published) = tick(&mut controller, failure()) {
            calls += 1;
            if firing < 10 {
                assert_eq!(published, Publication::Unchanged);
            } else {
                assert_eq!(published, Publication::Stopped);
            }
        }
        assert_eq!(controller.is_running(), firing < 10);
    }
    assert_eq!(calls, 10);
    assert_eq!(controller.failures(), 10);
    assert!(!controller.is_running());
    assert_eq!(controller.status(), FeedStatus::Stale);
    assert_eq!(controller.on_timer(), TickAction::Cancel);
}

#[test]
fn nine_failures_do_not_stop() {
    let mut controller = PollingController::with_defaults(1);
    controller.start();
    for _ in 0..9 {
        tick(&mut controller, failure());
    }
    assert!(controller.is_running());
    assert_eq!(controller.failures(), 9);
    assert_eq!(controller.status(), FeedStatus::Live);
}

#[test]
fn threshold_of_one_stops_at_the_first_failure() {
    let mut controller = PollingController::new(50, 1, 1);
    controller.start();
    assert_eq!(tick(&mut controller, failure()), Some(Publication::Stopped));
    assert!(!controller.is_running());
    assert_eq!(controller.failures(), 1);
}

#[test]
fn threshold_of_zero_stops_at_the_first_failure() {
    let mut controller = PollingController::new(50, 0, 1);
    controller.start();
    assert_eq!(tick(&mut controller, success("a")), Some(Publication::Payload("a".to_string())));
    assert!(controller.is_running());
    assert_eq!(tick(&mut controller, failure()), Some(Publication::Stopped));
    assert!(!controller.is_running());
    assert_eq!(controller.failures(), 1);
    assert_eq!(controller.status(), FeedStatus::Stale);
}

#[test]
fn stop_is_immediate_and_idempotent() {
    let mut controller = PollingController::with_defaults(1);
    controller.start();
    tick(&mut controller, failure());
    controller.stop();
    assert!(!controller.is_running());
    assert_eq!(controller.status(), FeedStatus::Idle);
    let once = controller.clone();
    controller.stop();
    assert_eq!(controller, once);
    assert_eq!(controller.on_timer(), TickAction::Cancel);
}

#[test]
fn result_after_stop_is_discarded() {
    let mut controller = PollingController::with_defaults(1);
    controller.start();
    let ticket = match controller.on_timer() {
        TickAction::Fire { ticket, .. } => ticket,
        other => panic!("{:?}", other),
    };
    controller.stop();
    let before = controller.clone();
    assert_eq!(controller.on_result(ticket, success("late")), Publication::Discarded);
    assert_eq!(controller.on_result(ticket, failure()), Publication::Discarded);
    assert_eq!(controller, before);
}

#[test]
fn result_without_a_call_is_discarded() {
    let mut controller = PollingController::with_defaults(1);
    controller.start();
    let before = controller.clone();
    assert_eq!(controller.on_result(1, failure()), Publication::Discarded);
    assert_eq!(controller, before);
}

#[test]
fn restart_isolation() {
    let mut controller = PollingController::with_defaults(111111);
    controller.start();
    for _ in 0..5 {
        tick(&mut controller, failure());
    }
    assert_eq!(controller.failures(), 5);
    controller.retarget(222222);
    assert_eq!(controller.failures(), 0);
    assert!(controller.is_running());
    assert_eq!(controller.game_code(), 222222);
    for _ in 0..9 {
        tick(&mut controller, failure());
    }
    assert!(controller.is_running());
    tick(&mut controller, failure());
    assert!(!controller.is_running());
}

#[test]
fn stale_result_of_the_old_target_is_discarded() {
    let mut controller = PollingController::with_defaults(111111);
    controller.start();
    let old_ticket = match controller.on_timer() {
        TickAction::Fire { ticket, .. } => ticket,
        other => panic!("{:?}", other),
    };
    controller.retarget(222222);
    let new_ticket = match controller.on_timer() {
        TickAction::Fire { game_code, ticket } => {
            assert_eq!(game_code, 222222);
            ticket
        }
        other => panic!("{:?}", other),
    };
    assert_ne!(old_ticket, new_ticket);
    assert_eq!(controller.on_result(old_ticket, failure()), Publication::Discarded);
    assert_eq!(controller.failures(), 0);
    assert_eq!(
        controller.on_result(new_ticket, success("fresh")),
        Publication::Payload("fresh".to_string())
    );
}

#[test]
fn retarget_starts_an_idle_controller() {
    let mut controller = PollingController::with_defaults(1);
    controller.retarget(2);
    assert!(controller.is_running());
    assert_eq!(controller.game_code(), 2);
    assert_eq!(controller.failures(), 0);
}

#[test]
fn new_feed_shows_nothing() {
    let feed = LiveFeed::new();
    assert_eq!(feed.payload(), None);
    assert!(!feed.is_stale());
}

#[test]
fn last_payload_stays_on_show_through_failures() {
    let mut controller = PollingController::new(1000, 3, 1);
    let mut feed = LiveFeed::new();
    controller.start();
    feed.absorb(tick(&mut controller, success("first")).unwrap());
    assert_eq!(feed.payload(), Some(&"first".to_string()));
    feed.absorb(tick(&mut controller, failure()).unwrap());
    feed.absorb(tick(&mut controller, failure()).unwrap());
    assert_eq!(feed.payload(), Some(&"first".to_string()));
    assert!(!feed.is_stale());
    feed.absorb(tick(&mut controller, failure()).unwrap());
    assert_eq!(feed.payload(), Some(&"first".to_string()));
    assert!(feed.is_stale());
    assert!(!controller.is_running());
}

#[test]
fn fresh_payload_replaces_the_last_and_clears_the_mark() {
    let mut feed = LiveFeed::new();
    feed.absorb(Publication::Payload("a".to_string()));
    feed.absorb(Publication::Stopped);
    assert!(feed.is_stale());
    feed.absorb(Publication::Payload("b".to_string()));
    assert_eq!(feed.payload(), Some(&"b".to_string()));
    assert!(!feed.is_stale());
}

#[test]
fn discarded_and_unchanged_leave_the_feed_alone() {
    let mut feed = LiveFeed::new();
    feed.absorb(Publication::Payload("a".to_string()));
    let before = feed.clone();
    feed.absorb(Publication::Discarded);
    feed.absorb(Publication::Unchanged);
    assert_eq!(feed, before);
}

#[test]
fn resume_clears_the_stale_mark_only() {
    let mut feed = LiveFeed::new();
    feed.absorb(Publication::Payload("a".to_string()));
    feed.absorb(Publication::Stopped);
    feed.resume();
    assert!(!feed.is_stale());
    assert_eq!(feed.payload(), Some(&"a".to_string()));
}
