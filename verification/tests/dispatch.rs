use mood::action::Action;
use mood::dispatch::WorkQueue;
use mood::task::Task;

#[derive(Debug, Clone, Copy, PartialEq)]
enum Step {
    First,
    Second,
    Third,
    Note(u8),
}

#[test]
fn task_none_holds_nothing() {
    let task: Task<u8> = Task::none();
    assert!(task.is_none());
    assert!(task.into_inner().is_empty());
}

#[test]
fn task_new_holds_one_message() {
    let task = Task::new(7u8);
    assert!(!task.is_none());
    assert_eq!(task.into_inner(), vec![7]);
}

#[test]
fn task_batch_flattens_in_order() {
    let tasks = vec![
        Task::new(1u8),
        Task::none(),
        Task::batch(vec![Task::new(2), Task::new(3)]),
        Task::new(4),
    ];
    let batch = Task::batch(tasks);
    assert!(!batch.is_none());
    assert_eq!(batch.into_inner(), vec![1, 2, 3, 4]);
}

#[test]
fn task_batch_of_nothing_is_an_empty_batch() {
    let batch: Task<u8> = Task::batch(vec![Task::none(), Task::none()]);
    assert!(!batch.is_none());
    assert!(batch.into_inner().is_empty());
    let batch: Task<u8> = Task::batch(Vec::new());
    assert!(!batch.is_none());
}

#[test]
fn task_map_keeps_order_and_kind() {
    let batch = Task::batch(vec![Task::new(1u8), Task::new(2), Task::new(3)]);
    let mapped = batch.map(|m| u16::from(m) * 100);
    assert_eq!(mapped.into_inner(), vec![100, 200, 300]);
    let none: Task<u8> = Task::none();
    assert!(none.map(|m| u16::from(m)).is_none());
}

#[test]
fn action_constructors() {
    let none: Action<u8, char> = Action::none();
    assert!(none.instruction.is_none());
    assert!(none.message.is_none());

    let only: Action<u8, char> = Action::instruction(5);
    assert_eq!(only.instruction, Some(5));
    assert!(only.message.is_none());

    let message: Action<u8, char> = Action::message('x');
    assert!(message.instruction.is_none());
    assert_eq!(message.message.into_inner(), vec!['x']);

    let both: Action<u8, char> = Action::instruction(1).with_message('a').with_instruction(2);
    assert_eq!(both.instruction, Some(2));
    assert_eq!(both.message.into_inner(), vec!['a']);

    let replaced: Action<u8, char> = Action::message('a').with_message('b');
    assert_eq!(replaced.message.into_inner(), vec!['b']);
}

#[test]
fn action_map_and_map_instruction() {
    let action: Action<u8, char> = Action::instruction(3).with_message('q');
    let mapped = action.map(|c| c.to_ascii_uppercase()).map_instruction(|i| i + 1);
    assert_eq!(mapped.instruction, Some(4));
    assert_eq!(mapped.message.into_inner(), vec!['Q']);

    let none: Action<u8, char> = Action::none();
    let mapped = none.map(|c| c as u32).map_instruction(|i| u16::from(i));
    assert!(mapped.instruction.is_none());
    assert!(mapped.message.is_none());
}

#[test]
fn work_queue_is_first_in_first_out() {
    let mut queue = WorkQueue::new();
    assert!(queue.is_empty());
    assert_eq!(queue.pop(), None::<u8>);
    queue.push(1);
    queue.push(2);
    queue.absorb(Task::batch(vec![Task::new(3), Task::new(4)]));
    queue.absorb(Task::none());
    queue.push(5);
    assert_eq!(queue.len(), 5);
    let mut order = Vec::new();
    while let Some(m) = queue.pop() {
        order.push(m);
    }
    assert_eq!(order, vec![1, 2, 3, 4, 5]);
    assert!(queue.is_empty());
}

#[test]
fn follow_ups_wait_behind_what_waited_before() {
    let mut queue = WorkQueue::new();
    queue.push(Step::First);
    queue.push(Step::Note(9));
    let mut handled = Vec::new();
    while let Some(step) = queue.pop() {
        handled.push(step);
        let follow_ups = match step {
            Step::First => Task::batch(vec![Task::new(Step::Note(1)), Task::new(Step::Note(2))]),
            Step::Note(1) => Task::new(Step::Note(3)),
            _ => Task::none(),
        };
        queue.absorb(follow_ups);
    }
    assert_eq!(
        handled,
        vec![Step::First, Step::Note(9), Step::Note(1), Step::Note(2), Step::Note(3)]
    );
}

#[test]
fn a_chain_of_three_handlers_completes_before_the_screen_is_drawn() {
    let mut counter = 0;
    let mut draws_seen_with_counter = Vec::new();
    let mut queue = WorkQueue::new();

    // One event from outside.
    queue.push(Step::First);
    while let Some(step) = queue.pop() {
        let follow_up = match step {
            Step::First => {
                counter += 1;
                Task::new(Step::Second)
            }
            Step::Second => {
                counter += 1;
                Task::new(Step::Third)
            }
            Step::Third => {
                counter += 1;
                Task::none()
            }
            Step::Note(_) => Task::none(),
        };
        queue.absorb(follow_up);
    }
    // The batch is complete: now the screen is drawn.
    draws_seen_with_counter.push(counter);

    assert_eq!(counter, 3);
    assert_eq!(draws_seen_with_counter, vec![3]);
    assert!(queue.is_empty());
}
