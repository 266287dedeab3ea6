use market_pulse::tasks::{
    task_step, Line, TaskAction, TaskEvent, TaskKind, TaskPhase, REST_MS, SPIN_MS, TICK_PERIOD_MS,
};

fn run(kind: TaskKind, mut phase: TaskPhase, events: &[TaskEvent]) -> (TaskPhase, Vec<TaskAction>) {
    let mut actions = Vec::new();
    for e in events {
        let (p, a) = task_step(kind, phase, *e);
        phase = p;
        actions.push(a);
    }
    (phase, actions)
}

#[test]
fn high_prio_prints_then_ticks() {
    let d = TaskEvent::Done;
    let (phase, actions) = run(TaskKind::HighPrio, TaskPhase::Starting, &[d, d, d, d, d]);
    assert_eq!(phase, TaskPhase::Announcing);
    assert_eq!(
        actions,
        vec![
            TaskAction::Print(Line::HighPrioStarting),
            TaskAction::Print(Line::HighPrioTick),
            TaskAction::AwaitTick,
            TaskAction::Print(Line::HighPrioTick),
            TaskAction::AwaitTick,
        ]
    );
    assert_eq!(TICK_PERIOD_MS, 1000);
}

#[test]
fn low_prio_async_prints_then_ticks() {
    let d = TaskEvent::Done;
    let (_, actions) = run(TaskKind::LowPrioAsync, TaskPhase::Starting, &[d, d, d]);
    assert_eq!(
        actions,
        vec![
            TaskAction::Print(Line::LowPrioStarting),
            TaskAction::Print(Line::LowPrioTick),
            TaskAction::AwaitTick,
        ]
    );
}

#[test]
fn blocking_task_spins_five_seconds_then_sleeps() {
    let d = TaskEvent::Done;
    let events = [
        d,
        d,
        d,
        TaskEvent::Elapsed { millis: 0 },
        TaskEvent::Elapsed { millis: 4999 },
        TaskEvent::Elapsed { millis: 5000 },
        d,
        d,
    ];
    let (phase, actions) = run(TaskKind::LowPrioBlocking, TaskPhase::Starting, &events);
    assert_eq!(phase, TaskPhase::Measuring);
    assert_eq!(
        actions,
        vec![
            TaskAction::Print(Line::BlockingStarting),
            TaskAction::Print(Line::Calculating),
            TaskAction::MarkStart,
            TaskAction::PollElapsed,
            TaskAction::PollElapsed,
            TaskAction::Print(Line::CalculationFinished),
            TaskAction::Sleep { millis: 5000 },
            TaskAction::Print(Line::Calculating),
        ]
    );
    assert_eq!(SPIN_MS, 5000);
    assert_eq!(REST_MS, 5000);
}

#[test]
fn spin_boundary() {
    let k = TaskKind::LowPrioBlocking;
    assert_eq!(task_step(k, TaskPhase::Spinning, TaskEvent::Elapsed { millis: 4999 }).0, TaskPhase::Spinning);
    assert_eq!(task_step(k, TaskPhase::Spinning, TaskEvent::Elapsed { millis: 5000 }).0, TaskPhase::Resting);
    assert_eq!(task_step(k, TaskPhase::Spinning, TaskEvent::Done), (TaskPhase::Spinning, TaskAction::PollElapsed));
}

#[test]
fn line_texts() {
    assert_eq!(Line::HighPrioStarting.text(), "Starting high_prio()");
    assert_eq!(Line::HighPrioTick.text(), "High priority ticks");
    assert_eq!(Line::BlockingStarting.text(), "Starting low-priority task that isn't actually async");
    assert_eq!(Line::Calculating.text(), "Doing some long and complicated calculation");
    assert_eq!(Line::CalculationFinished.text(), "Calculation finished");
    assert_eq!(
        Line::LowPrioStarting.text(),
        "Starting low-priority task that will not be able to run while the blocking task is running"
    );
    assert_eq!(Line::LowPrioTick.text(), "Low priority ticks");
    assert_eq!(Line::SpawningLowPrio.text(), "Spawning low-priority tasks");
}
