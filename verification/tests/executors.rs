use cortex_ar::interrupt::InterruptError;
use cortex_ar::thread::{RunAction, RunState, THREAD_PENDER};
use cortex_ar::raw::RawExecutor;
use cortex_ar::{Executor, InterruptExecutor, QueueId, SendSpawner, Spawner};

const QUEUE: QueueId = QueueId(0x8000);

#[test]
fn thread_pender_is_no_sgi() {
    assert_eq!(THREAD_PENDER, usize::MAX);
}

#[test]
fn run_inits_once_and_then_polls_and_sleeps_in_turn() {
    let executor = Executor::new(QUEUE);
    let mut state = RunState::Entry;
    let mut actions = vec![];
    for _ in 0..7 {
        let (action, next) = executor.run(state);
        actions.push(action);
        state = next;
    }
    assert_eq!(
        actions,
        vec![
            RunAction::Init(Spawner { queue: QUEUE, context: usize::MAX }),
            RunAction::Poll,
            RunAction::Wfe,
            RunAction::Poll,
            RunAction::Wfe,
            RunAction::Poll,
            RunAction::Wfe,
        ]
    );
}

#[test]
fn new_interrupt_executor_is_not_started() {
    let executor = InterruptExecutor::new(QUEUE);
    assert!(!executor.is_started());
    assert_eq!(executor.try_spawner(), Err(InterruptError::NotStarted));
}

#[test]
fn start_returns_a_spawner_for_the_sgi() {
    for sgi in 0..16u8 {
        let mut executor = InterruptExecutor::new(QUEUE);
        assert_eq!(executor.start(sgi), SendSpawner { queue: QUEUE, context: sgi as usize });
        assert!(executor.is_started());
        assert_eq!(executor.spawner(), SendSpawner { queue: QUEUE, context: sgi as usize });
        assert_eq!(executor.try_spawner(), Ok(SendSpawner { queue: QUEUE, context: sgi as usize }));
        assert_eq!(
            *executor.on_interrupt(),
            RawExecutor { queue: QUEUE, context: sgi as usize }
        );
    }
}

#[test]
fn out_of_range_start_is_refused_and_changes_nothing() {
    let mut executor = InterruptExecutor::new(QUEUE);
    assert_eq!(executor.try_start(16), Err(InterruptError::SgiOutOfRange));
    assert_eq!(executor.try_start(255), Err(InterruptError::SgiOutOfRange));
    assert!(!executor.is_started());
    assert_eq!(executor.try_start(15), Ok(SendSpawner { queue: QUEUE, context: 15 }));
    assert_eq!(executor.try_start(16), Err(InterruptError::SgiOutOfRange));
    assert_eq!(executor.spawner(), SendSpawner { queue: QUEUE, context: 15 });
}

#[test]
fn second_start_is_refused_and_changes_nothing() {
    let mut executor = InterruptExecutor::new(QUEUE);
    assert_eq!(executor.try_start(2), Ok(SendSpawner { queue: QUEUE, context: 2 }));
    assert_eq!(executor.try_start(3), Err(InterruptError::AlreadyStarted));
    assert_eq!(executor.try_start(2), Err(InterruptError::AlreadyStarted));
    assert_eq!(executor.spawner(), SendSpawner { queue: QUEUE, context: 2 });
    assert_eq!(executor.on_interrupt().context, 2);
}

#[test]
fn first_valid_start_of_many_wins() {
    let mut executor = InterruptExecutor::new(QUEUE);
    let answers: Vec<_> = [200, 16, 9, 4, 17, 9].iter().map(|id| executor.try_start(*id)).collect();
    assert_eq!(
        answers,
        vec![
            Err(InterruptError::SgiOutOfRange),
            Err(InterruptError::SgiOutOfRange),
            Ok(SendSpawner { queue: QUEUE, context: 9 }),
            Err(InterruptError::AlreadyStarted),
            Err(InterruptError::SgiOutOfRange),
            Err(InterruptError::AlreadyStarted),
        ]
    );
    assert_eq!(executor.spawner(), SendSpawner { queue: QUEUE, context: 9 });
}

#[test]
fn executors_are_independent() {
    let mut low = InterruptExecutor::new(QueueId(1));
    let mut high = InterruptExecutor::new(QueueId(2));
    low.start(4);
    assert!(!high.is_started());
    assert_eq!(high.try_start(5), Ok(SendSpawner { queue: QueueId(2), context: 5 }));
    assert_eq!(high.try_start(6), Err(InterruptError::AlreadyStarted));
    assert_eq!(low.spawner(), SendSpawner { queue: QueueId(1), context: 4 });
    assert_eq!(high.spawner(), SendSpawner { queue: QueueId(2), context: 5 });
}

#[test]
fn executors_on_one_sgi_keep_their_own_queues() {
    let mut first = InterruptExecutor::new(QueueId(1));
    let mut second = InterruptExecutor::new(QueueId(2));
    let of_first = first.start(7);
    let of_second = second.start(7);
    assert_eq!(of_first, SendSpawner { queue: QueueId(1), context: 7 });
    assert_eq!(of_second, SendSpawner { queue: QueueId(2), context: 7 });
    assert_eq!(first.spawner(), of_first);
    assert_eq!(second.spawner(), of_second);
    assert_eq!(*first.on_interrupt(), RawExecutor { queue: QueueId(1), context: 7 });
    assert_eq!(*second.on_interrupt(), RawExecutor { queue: QueueId(2), context: 7 });
}

#[test]
fn requests_can_be_made_inside_a_critical_section() {
    let mut executor = InterruptExecutor::new(QUEUE);
    let answer = critical_section::with(|_| executor.try_start(6));
    assert_eq!(answer, Ok(SendSpawner { queue: QUEUE, context: 6 }));
    assert!(critical_section::with(|_| executor.is_started()));
}

#[test]
fn refusals_have_messages() {
    assert_eq!(InterruptError::SgiOutOfRange.message(), "SGI interrupt id must be in 0..=15");
    assert_eq!(
        InterruptError::AlreadyStarted.message(),
        "InterruptExecutor::start() called multiple times on the same executor."
    );
    assert_eq!(
        InterruptError::NotStarted.message(),
        "InterruptExecutor::spawner() called on uninitialized executor."
    );
}
