use media_prompt::config::RabbitMqConfig;
use media_prompt::error::AppError;
use media_prompt::model::script::TaskMessage;
use media_prompt::mq::consumer::{
    settle, ConsumeAction, ConsumeEvent, ConsumeLoopExit, MqConsumer, RunAction, RunEvent, Session,
    SessionPhase, Settlement, WaitEnd,
};
use media_prompt::mq::producer::MqProducer;

fn config(initial: u64, max: u64) -> RabbitMqConfig {
    RabbitMqConfig {
        uri: "amqp://localhost".to_string(),
        consume_queue: "in".to_string(),
        publish_queue: "out".to_string(),
        prefetch_count: 5,
        reconnect_initial_delay_ms: initial,
        reconnect_max_delay_ms: max,
    }
}

fn failure() -> RunEvent {
    RunEvent::SessionEnded(Err(AppError::RabbitMq("down".to_string())))
}

#[test]
fn reconnect_delays() {
    let c = MqConsumer::new(config(1_000, 30_000));
    let delays: Vec<u64> = (0..8).map(|n| c.reconnect_backoff(n)).collect();
    assert_eq!(delays, vec![1_000, 1_000, 2_000, 4_000, 8_000, 16_000, 30_000, 30_000]);
    let c = MqConsumer::new(config(3, u64::MAX));
    assert_eq!(c.reconnect_backoff(16), 3 << 15);
    assert_eq!(c.reconnect_backoff(17), 3 << 16);
    assert_eq!(c.reconnect_backoff(18), 3 << 16);
    assert_eq!(c.reconnect_backoff(u32::MAX), 3 << 16);
    let c = MqConsumer::new(config(u64::MAX / 2, u64::MAX - 1));
    assert_eq!(c.reconnect_backoff(3), u64::MAX - 1);
}

#[test]
fn failures_lengthen_the_wait() {
    let mut c = MqConsumer::new(config(1_000, 30_000));
    assert_eq!(c.run(RunEvent::SignalRead { shutdown: false }), RunAction::Connect);
    assert_eq!(c.run(failure()), RunAction::Wait { backoff_ms: 1_000 });
    assert_eq!(c.run(RunEvent::Waited(WaitEnd::Elapsed)), RunAction::ReadSignal);
    assert_eq!(c.run(failure()), RunAction::Wait { backoff_ms: 2_000 });
    assert_eq!(c.run(failure()), RunAction::Wait { backoff_ms: 4_000 });
    assert_eq!(c.reconnect_attempt, 3);
}

#[test]
fn a_session_that_ended_starts_over() {
    let mut c = MqConsumer::new(config(1_000, 30_000));
    c.run(failure());
    c.run(failure());
    let ended = RunEvent::SessionEnded(Ok(ConsumeLoopExit::Reconnect("delivery error")));
    assert_eq!(c.run(ended), RunAction::Wait { backoff_ms: 1_000 });
    assert_eq!(c.reconnect_attempt, 1);
    assert_eq!(c.run(failure()), RunAction::Wait { backoff_ms: 2_000 });
}

#[test]
fn the_attempt_count_does_not_overflow() {
    let mut c = MqConsumer::new(config(1_000, 30_000));
    c.reconnect_attempt = u32::MAX;
    assert_eq!(c.run(failure()), RunAction::Wait { backoff_ms: 30_000 });
    assert_eq!(c.reconnect_attempt, u32::MAX);
}

#[test]
fn shutdown_stops_the_consumer() {
    let mut c = MqConsumer::new(config(1_000, 30_000));
    assert_eq!(c.run(RunEvent::SignalRead { shutdown: true }), RunAction::Stop);
    assert_eq!(c.run(RunEvent::SessionEnded(Ok(ConsumeLoopExit::Shutdown))), RunAction::Stop);
    for (closed, shutdown) in [(true, false), (false, true), (true, true)] {
        let end = WaitEnd::SignalChanged { closed, shutdown };
        assert_eq!(c.run(RunEvent::Waited(end)), RunAction::Stop);
        assert!(!MqConsumer::wait_before_reconnect(end));
    }
    let end = WaitEnd::SignalChanged { closed: false, shutdown: false };
    assert_eq!(c.run(RunEvent::Waited(end)), RunAction::ReadSignal);
}

const NACK: Settlement = Settlement::Nack { requeue: false };

fn delivery(tag: u64, task_id: i64) -> ConsumeEvent {
    ConsumeEvent::Delivered { tag, message: Some(TaskMessage { task_id }) }
}

/// A session after events, with what it did at each.
fn session(max_tasks: usize, events: &[ConsumeEvent]) -> (Session, Vec<ConsumeAction>) {
    let mut session = Session::start(max_tasks);
    let mut actions: Vec<ConsumeAction> = Vec::new();
    for event in events {
        assert!(session.awaits(*event), "{event:?} in {session:?}");
        let next = MqConsumer::consume_loop(session, *event);
        session = next.0;
        actions.push(next.1);
    }
    (session, actions)
}

#[test]
fn deliveries_are_answered() {
    assert_eq!(settle(true), Settlement::Ack);
    assert_eq!(settle(false), NACK);
    assert_eq!(
        ConsumeEvent::task_ended(3, &Ok(())),
        ConsumeEvent::TaskEnded { tag: 3, ended_well: true }
    );
    assert_eq!(
        ConsumeEvent::task_ended(3, &Err(AppError::TaskFailed("x".to_string()))),
        ConsumeEvent::TaskEnded { tag: 3, ended_well: false }
    );
}

#[test]
fn broken_messages_are_dropped() {
    let (s, actions) = session(1, &[ConsumeEvent::Delivered { tag: 9, message: None }]);
    assert!(matches!(s.phase(), SessionPhase::Listening));
    assert_eq!(actions, vec![ConsumeAction::Answer { tag: 9, settlement: NACK }]);
}

#[test]
fn messages_run_once_permitted() {
    let message = TaskMessage { task_id: 1234 };
    let (s, actions) = session(2, &[delivery(9, 1234)]);
    assert_eq!(actions, vec![ConsumeAction::Nothing]);
    assert!(matches!(
        s.phase(),
        SessionPhase::AwaitingPermit { tag: 9, message: TaskMessage { task_id: 1234 } }
    ));
    assert_eq!(s.running(), 0);
    let (s, action) = MqConsumer::consume_loop(s, ConsumeEvent::PermitGranted);
    assert!(matches!(s.phase(), SessionPhase::Listening));
    assert_eq!(s.running(), 1);
    assert_eq!(action, ConsumeAction::Spawn { tag: 9, message });
}

#[test]
fn each_task_is_answered_under_its_tag() {
    let events = [
        delivery(1, 10),
        ConsumeEvent::PermitGranted,
        delivery(2, 20),
        ConsumeEvent::PermitGranted,
        ConsumeEvent::Delivered { tag: 3, message: None },
        ConsumeEvent::TaskEnded { tag: 2, ended_well: false },
        delivery(4, 40),
        ConsumeEvent::TaskEnded { tag: 1, ended_well: true },
        ConsumeEvent::PermitGranted,
        ConsumeEvent::TaskLost { tag: 4 },
    ];
    let (s, actions) = session(2, &events);
    assert_eq!(s.running(), 0);
    assert_eq!(
        actions,
        vec![
            ConsumeAction::Nothing,
            ConsumeAction::Spawn { tag: 1, message: TaskMessage { task_id: 10 } },
            ConsumeAction::Nothing,
            ConsumeAction::Spawn { tag: 2, message: TaskMessage { task_id: 20 } },
            ConsumeAction::Answer { tag: 3, settlement: NACK },
            ConsumeAction::Answer { tag: 2, settlement: NACK },
            ConsumeAction::Nothing,
            ConsumeAction::Answer { tag: 1, settlement: Settlement::Ack },
            ConsumeAction::Spawn { tag: 4, message: TaskMessage { task_id: 40 } },
            ConsumeAction::Nothing,
        ]
    );
    assert!(!s.awaits(ConsumeEvent::TaskEnded { tag: 1, ended_well: true }));
}

#[test]
fn no_more_tasks_run_than_may() {
    let (s, _) = session(1, &[delivery(1, 10), ConsumeEvent::PermitGranted, delivery(2, 20)]);
    assert_eq!(s.running(), 1);
    assert!(!s.awaits(ConsumeEvent::PermitGranted));
    let (s, _) =
        MqConsumer::consume_loop(s, ConsumeEvent::TaskEnded { tag: 1, ended_well: true });
    assert!(matches!(s.phase(), SessionPhase::AwaitingPermit { tag: 2, .. }));
    assert!(s.awaits(ConsumeEvent::PermitGranted));
}

#[test]
fn sessions_end_once_their_tasks_have() {
    let stop = ConsumeEvent::SignalChanged { closed: false, shutdown: true };
    let events = [
        delivery(1, 10),
        ConsumeEvent::PermitGranted,
        delivery(2, 20),
        ConsumeEvent::PermitGranted,
        stop,
    ];
    let (s, _) = session(2, &events);
    assert!(matches!(s.phase(), SessionPhase::Draining(ConsumeLoopExit::Shutdown)));
    assert!(!s.awaits(delivery(3, 30)));
    assert!(!s.awaits(stop));
    let (s, action) =
        MqConsumer::consume_loop(s, ConsumeEvent::TaskEnded { tag: 2, ended_well: true });
    assert_eq!(action, ConsumeAction::Answer { tag: 2, settlement: Settlement::Ack });
    assert!(matches!(s.phase(), SessionPhase::Draining(_)));
    let (s, action) =
        MqConsumer::consume_loop(s, ConsumeEvent::TaskEnded { tag: 1, ended_well: false });
    assert_eq!(action, ConsumeAction::Answer { tag: 1, settlement: NACK });
    assert!(matches!(s.phase(), SessionPhase::Left(ConsumeLoopExit::Shutdown)));
}

fn exit(events: &[ConsumeEvent]) -> Option<&'static str> {
    let (s, actions) = session(1, events);
    assert_eq!(actions.last(), Some(&ConsumeAction::Nothing));
    match s.phase() {
        SessionPhase::Left(ConsumeLoopExit::Reconnect(reason)) => Some(reason),
        SessionPhase::Left(ConsumeLoopExit::Shutdown) => None,
        _ => panic!("stayed"),
    }
}

#[test]
fn sessions_end_for_a_reason() {
    assert_eq!(exit(&[ConsumeEvent::DeliveryFailed]), Some("delivery error"));
    assert_eq!(exit(&[ConsumeEvent::StreamEnded]), Some("consumer stream closed"));
    let closed = ConsumeEvent::PermitsClosed { shutdown: false };
    assert_eq!(exit(&[delivery(1, 2), closed]), Some("task semaphore closed"));
    let closed = ConsumeEvent::PermitsClosed { shutdown: true };
    assert_eq!(exit(&[delivery(1, 2), closed]), None);
    assert_eq!(exit(&[ConsumeEvent::SignalChanged { closed: false, shutdown: true }]), None);
    assert_eq!(exit(&[ConsumeEvent::SignalChanged { closed: true, shutdown: false }]), None);
    let nothing = ConsumeEvent::SignalChanged { closed: false, shutdown: false };
    assert!(matches!(session(1, &[nothing]).0.phase(), SessionPhase::Listening));
}

#[test]
fn sessions_await_one_thing_at_a_time() {
    let (s, _) = session(1, &[]);
    assert!(s.awaits(ConsumeEvent::StreamEnded));
    assert!(!s.awaits(ConsumeEvent::PermitGranted));
    assert!(!s.awaits(ConsumeEvent::TaskLost { tag: 1 }));
    let (s, _) = session(1, &[delivery(1, 2)]);
    assert!(s.awaits(ConsumeEvent::PermitGranted));
    assert!(!s.awaits(ConsumeEvent::StreamEnded));
    let (s, _) = session(1, &[ConsumeEvent::StreamEnded]);
    assert!(!s.awaits(ConsumeEvent::StreamEnded));
}

#[test]
fn completion_messages() {
    let producer = MqProducer::new(&config(1, 1));
    let p = producer.publish_completion(1234);
    assert_eq!(p.exchange, "");
    assert_eq!(p.routing_key, "out");
    assert_eq!(p.content_type, "application/json");
    assert_eq!(p.delivery_mode, 2);
    assert_eq!(p.message, TaskMessage { task_id: 1234 });
    assert_eq!(
        MqProducer::serialization_failure("why").message(),
        "Config error: Failed to serialize message: why"
    );
}
