//! The three cooperative tasks of the LED board: two that print on every tick of
//! a one-second ticker, and one that blocks its executor with a busy loop.
use vstd::prelude::*;

verus! {

/// Period of the tickers, in milliseconds.
pub const TICK_PERIOD_MS: u64 = 1000;

/// How long the blocking task spins, in milliseconds.
pub const SPIN_MS: u64 = 5000;

/// How long the blocking task sleeps between two calculations, in milliseconds.
pub const REST_MS: u64 = 5000;

/// The three tasks.
#[derive(Clone, Copy, Debug, PartialEq, Eq, Structural)]
pub enum TaskKind {
    /// Prints on every tick, on the high-priority executor.
    HighPrio,
    /// Prints on every tick, on the low-priority executor.
    LowPrioAsync,
    /// Busy-waits, then sleeps, on the low-priority executor.
    LowPrioBlocking,
}

/// Where a task stands.
#[derive(Clone, Copy, Debug, PartialEq, Eq, Structural)]
pub enum TaskPhase {
    /// Not started yet.
    Starting,
    /// About to print the line of a new round.
    Announcing,
    /// A ticking task waits for its ticker.
    Waiting,
    /// The blocking task is about to note when its calculation starts.
    Measuring,
    /// The blocking task busy-waits.
    Spinning,
    /// The blocking task has finished a calculation and is about to sleep.
    Resting,
}

/// What the last piece of outside work reported.
#[derive(Clone, Copy, Debug, PartialEq, Eq, Structural)]
pub enum TaskEvent {
    /// The work was done.
    Done,
    /// Milliseconds elapsed since the blocking task's calculation started.
    Elapsed { millis: u64 },
}

/// The lines that the tasks and the board's start-up print.
#[derive(Clone, Copy, Debug, PartialEq, Eq, Structural)]
pub enum Line {
    HighPrioStarting,
    HighPrioTick,
    BlockingStarting,
    Calculating,
    CalculationFinished,
    LowPrioStarting,
    LowPrioTick,
    SpawningLowPrio,
}

/// The work that a task asks for next.
#[derive(Clone, Copy, Debug, PartialEq, Eq, Structural)]
pub enum TaskAction {
    /// Print a line.
    Print(Line),
    /// Wait for the next tick of the task's ticker (period `TICK_PERIOD_MS`).
    AwaitTick,
    /// Note the current instant as the start of the calculation, and report the time elapsed since.
    MarkStart,
    /// Report the time elapsed since the calculation started.
    PollElapsed,
    /// Sleep for `millis` milliseconds.
    Sleep { millis: u64 },
}

/// The text of a line.
pub open spec fn line_text(line: Line) -> Seq<char> {
    match line {
        Line::HighPrioStarting => "Starting high_prio()"@,
        Line::HighPrioTick => "High priority ticks"@,
        Line::BlockingStarting => "Starting low-priority task that isn't actually async"@,
        Line::Calculating => "Doing some long and complicated calculation"@,
        Line::CalculationFinished => "Calculation finished"@,
        Line::LowPrioStarting => "Starting low-priority task that will not be able to run while the blocking task is running"@,
        Line::LowPrioTick => "Low priority ticks"@,
        Line::SpawningLowPrio => "Spawning low-priority tasks"@,
    }
}

impl Line {
    /// The text of the line.
    pub fn text(self) -> (s: &'static str)
        ensures
            s@ == line_text(self),
    {
        match self {
            Line::HighPrioStarting => "Starting high_prio()",
            Line::HighPrioTick => "High priority ticks",
            Line::BlockingStarting => "Starting low-priority task that isn't actually async",
            Line::Calculating => "Doing some long and complicated calculation",
            Line::CalculationFinished => "Calculation finished",
            Line::LowPrioStarting => "Starting low-priority task that will not be able to run while the blocking task is running",
            Line::LowPrioTick => "Low priority ticks",
            Line::SpawningLowPrio => "Spawning low-priority tasks",
        }
    }
}

/// Whether a task of kind `kind` can be in phase `phase`: a ticking task only starts,
/// announces and waits; the blocking task never waits for a ticker.
pub open spec fn phase_valid(kind: TaskKind, phase: TaskPhase) -> bool {
    match kind {
        TaskKind::LowPrioBlocking => phase != TaskPhase::Waiting,
        _ => phase == TaskPhase::Starting || phase == TaskPhase::Announcing || phase == TaskPhase::Waiting,
    }
}

/// The line a task prints when it starts.
pub open spec fn start_line(kind: TaskKind) -> Line {
    match kind {
        TaskKind::HighPrio => Line::HighPrioStarting,
        TaskKind::LowPrioAsync => Line::LowPrioStarting,
        TaskKind::LowPrioBlocking => Line::BlockingStarting,
    }
}

/// The line a task prints at the start of every round.
pub open spec fn round_line(kind: TaskKind) -> Line {
    match kind {
        TaskKind::HighPrio => Line::HighPrioTick,
        TaskKind::LowPrioAsync => Line::LowPrioTick,
        TaskKind::LowPrioBlocking => Line::Calculating,
    }
}

/// One step of a task of kind `kind`: the next phase and action after `event` in `phase`.
/// Outside the busy loop a report of elapsed time counts as plain completion.
pub open spec fn task_transition(kind: TaskKind, phase: TaskPhase, event: TaskEvent) -> (TaskPhase, TaskAction) {
    match phase {
        TaskPhase::Starting => (TaskPhase::Announcing, TaskAction::Print(start_line(kind))),
        TaskPhase::Announcing => if kind == TaskKind::LowPrioBlocking {
            (TaskPhase::Measuring, TaskAction::Print(round_line(kind)))
        } else {
            (TaskPhase::Waiting, TaskAction::Print(round_line(kind)))
        },
        TaskPhase::Waiting => (TaskPhase::Announcing, TaskAction::AwaitTick),
        TaskPhase::Measuring => (TaskPhase::Spinning, TaskAction::MarkStart),
        TaskPhase::Spinning => match event {
            TaskEvent::Elapsed { millis } => if millis < SPIN_MS {
                (TaskPhase::Spinning, TaskAction::PollElapsed)
            } else {
                (TaskPhase::Resting, TaskAction::Print(Line::CalculationFinished))
            },
            TaskEvent::Done => (TaskPhase::Spinning, TaskAction::PollElapsed),
        },
        TaskPhase::Resting => (TaskPhase::Announcing, TaskAction::Sleep { millis: REST_MS }),
    }
}

/// Decides a task's next phase and action.
pub fn task_step(kind: TaskKind, phase: TaskPhase, event: TaskEvent) -> (res: (TaskPhase, TaskAction))
    requires
        phase_valid(kind, phase),
    ensures
        res == task_transition(kind, phase, event),
        phase_valid(kind, res.0),
{
    let start = match kind {
        TaskKind::HighPrio => Line::HighPrioStarting,
        TaskKind::LowPrioAsync => Line::LowPrioStarting,
        TaskKind::LowPrioBlocking => Line::BlockingStarting,
    };
    let round = match kind {
        TaskKind::HighPrio => Line::HighPrioTick,
        TaskKind::LowPrioAsync => Line::LowPrioTick,
        TaskKind::LowPrioBlocking => Line::Calculating,
    };
    match phase {
        TaskPhase::Starting => (TaskPhase::Announcing, TaskAction::Print(start)),
        TaskPhase::Announcing => {
            let next = match kind {
                TaskKind::LowPrioBlocking => TaskPhase::Measuring,
                _ => TaskPhase::Waiting,
            };
            (next, TaskAction::Print(round))
        },
        TaskPhase::Waiting => (TaskPhase::Announcing, TaskAction::AwaitTick),
        TaskPhase::Measuring => (TaskPhase::Spinning, TaskAction::MarkStart),
        TaskPhase::Spinning => match event {
            TaskEvent::Elapsed { millis } => {
                if millis < SPIN_MS {
                    (TaskPhase::Spinning, TaskAction::PollElapsed)
                } else {
                    (TaskPhase::Resting, TaskAction::Print(Line::CalculationFinished))
                }
            },
            TaskEvent::Done => (TaskPhase::Spinning, TaskAction::PollElapsed),
        },
        TaskPhase::Resting => (TaskPhase::Announcing, TaskAction::Sleep { millis: REST_MS }),
    }
}


/// The phase reached and the actions asked for when `events` arrive one after another
/// at a task of kind `kind` in phase `phase`.
pub open spec fn task_run(kind: TaskKind, phase: TaskPhase, events: Seq<TaskEvent>) -> (TaskPhase, Seq<TaskAction>)
    decreases events.len(),
{
    if events.len() == 0 {
        (phase, Seq::empty())
    } else {
        let (next, action) = task_transition(kind, phase, events[0]);
        let (last, rest) = task_run(kind, next, events.drop_first());
        (last, seq![action] + rest)
    }
}

/// Every step keeps a task in a phase that its kind can be in.
pub proof fn lemma_phase_stays_valid(kind: TaskKind, phase: TaskPhase, events: Seq<TaskEvent>)
    requires
        phase_valid(kind, phase),
    ensures
        phase_valid(kind, task_run(kind, phase, events).0),
    decreases events.len(),
{
    if events.len() > 0 {
        lemma_phase_stays_valid(kind, task_transition(kind, phase, events[0]).0, events.drop_first());
    }
}

/// The busy loop goes on exactly while less than five seconds have elapsed.
pub proof fn lemma_spin_until_elapsed(millis: u64)
    ensures
        task_transition(TaskKind::LowPrioBlocking, TaskPhase::Spinning, TaskEvent::Elapsed { millis }).0
            == TaskPhase::Spinning <==> millis < SPIN_MS,
{
}

/// A ticking task prints its line and then waits for a tick, round after round.
pub proof fn lemma_ticking_round(kind: TaskKind)
    requires
        kind != TaskKind::LowPrioBlocking,
    ensures
        task_run(kind, TaskPhase::Announcing, seq![TaskEvent::Done, TaskEvent::Done]) == (
            TaskPhase::Announcing,
            seq![TaskAction::Print(round_line(kind)), TaskAction::AwaitTick],
        ),
{
    reveal_with_fuel(task_run, 3);
    let e = seq![TaskEvent::Done, TaskEvent::Done];
    assert(e.drop_first() =~= seq![TaskEvent::Done]);
    assert(e.drop_first().drop_first() =~= Seq::<TaskEvent>::empty());
    assert(task_run(kind, TaskPhase::Announcing, e).1 =~= seq![
        TaskAction::Print(round_line(kind)),
        TaskAction::AwaitTick,
    ]);
}

/// A round of the blocking task: announce, note the start, spin until five seconds have
/// elapsed, announce the end, sleep five seconds, and start the next round.
pub proof fn lemma_blocking_round(early: u64, late: u64)
    requires
        early < SPIN_MS <= late,
    ensures
        task_run(
            TaskKind::LowPrioBlocking,
            TaskPhase::Announcing,
            seq![
                TaskEvent::Done,
                TaskEvent::Done,
                TaskEvent::Elapsed { millis: early },
                TaskEvent::Elapsed { millis: late },
                TaskEvent::Done,
            ],
        ) == (
            TaskPhase::Announcing,
            seq![
                TaskAction::Print(Line::Calculating),
                TaskAction::MarkStart,
                TaskAction::PollElapsed,
                TaskAction::Print(Line::CalculationFinished),
                TaskAction::Sleep { millis: REST_MS },
            ],
        ),
{
    reveal_with_fuel(task_run, 6);
    let e = seq![
        TaskEvent::Done,
        TaskEvent::Done,
        TaskEvent::Elapsed { millis: early },
        TaskEvent::Elapsed { millis: late },
        TaskEvent::Done,
    ];
    let e1 = e.drop_first();
    let e2 = e1.drop_first();
    let e3 = e2.drop_first();
    let e4 = e3.drop_first();
    let e5 = e4.drop_first();
    assert(e1 =~= seq![TaskEvent::Done, TaskEvent::Elapsed { millis: early }, TaskEvent::Elapsed { millis: late }, TaskEvent::Done]);
    assert(e2 =~= seq![TaskEvent::Elapsed { millis: early }, TaskEvent::Elapsed { millis: late }, TaskEvent::Done]);
    assert(e3 =~= seq![TaskEvent::Elapsed { millis: late }, TaskEvent::Done]);
    assert(e4 =~= seq![TaskEvent::Done]);
    assert(e5 =~= Seq::<TaskEvent>::empty());
    assert(task_run(TaskKind::LowPrioBlocking, TaskPhase::Announcing, e).1 =~= seq![
        TaskAction::Print(Line::Calculating),
        TaskAction::MarkStart,
        TaskAction::PollElapsed,
        TaskAction::Print(Line::CalculationFinished),
        TaskAction::Sleep { millis: REST_MS },
    ]);
}

} // verus!
