use todo_backend::domain::todo::{Todo, TodoError};
use uuid::Uuid;

fn sample() -> Todo {
    Todo {
        id: Uuid::from_u128(0x1234),
        title: "X".to_string(),
        completed: false,
        created_at: 10,
        updated_at: 25,
    }
}

#[test]
fn new_todo_is_open_and_stamped_once() {
    let id = Uuid::from_u128(7);
    let todo = Todo::new(id, "buy milk".to_string(), 1_700_000_000_000_000).unwrap();
    assert_eq!(
        todo,
        Todo {
            id,
            title: "buy milk".to_string(),
            completed: false,
            created_at: 1_700_000_000_000_000,
            updated_at: 1_700_000_000_000_000,
        }
    );
}

#[test]
fn new_todo_without_title_is_refused() {
    assert_eq!(Todo::new(Uuid::from_u128(7), String::new(), 5), Err(TodoError::Validation));
}

#[test]
fn new_todo_keeps_a_title_of_one_character() {
    let todo = Todo::new(Uuid::from_u128(7), " ".to_string(), -3).unwrap();
    assert_eq!(todo.title, " ");
    assert_eq!(todo.created_at, -3);
    assert_eq!(todo.updated_at, -3);
}

#[test]
fn replacement_carries_title_and_state() {
    let id = Uuid::from_u128(9);
    let todo = Todo::replacement(id, "new title".to_string(), true, 42).unwrap();
    assert_eq!(
        todo,
        Todo { id, title: "new title".to_string(), completed: true, created_at: 42, updated_at: 42 }
    );
    let open = Todo::replacement(id, "new title".to_string(), false, 42).unwrap();
    assert!(!open.completed);
}

#[test]
fn replacement_without_title_is_refused() {
    assert_eq!(
        Todo::replacement(Uuid::from_u128(9), String::new(), true, 42),
        Err(TodoError::Validation)
    );
}

#[test]
fn mark_completed_changes_only_the_state() {
    let done = sample().mark_completed();
    assert_eq!(done, Todo { completed: true, ..sample() });
}

#[test]
fn mark_completed_of_a_completed_todo_changes_nothing() {
    let done = sample().mark_completed();
    assert_eq!(done.clone().mark_completed(), done);
}

#[test]
fn clone_of_a_todo_is_equal_to_it() {
    let todo = sample();
    assert_eq!(todo.clone(), todo);
}

#[test]
fn errors_are_told_apart() {
    assert_ne!(TodoError::Storage, TodoError::NotFound);
    assert_ne!(TodoError::NotFound, TodoError::Validation);
    assert_ne!(TodoError::Validation, TodoError::Storage);
}
