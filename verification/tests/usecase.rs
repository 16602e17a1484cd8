use todo_backend::domain::repository::{RepositoryReply, RepositoryRequest};
use todo_backend::domain::todo::{Todo, TodoError};
use todo_backend::usecase::todo_usecase::{Awaiting, ServiceStep, TodoUsecase};
use uuid::Uuid;

fn service() -> TodoUsecase<()> {
    TodoUsecase::new(())
}

fn sample() -> Todo {
    Todo {
        id: Uuid::from_u128(0xabc),
        title: "X".to_string(),
        completed: false,
        created_at: 100,
        updated_at: 120,
    }
}

#[test]
fn new_usecase_keeps_the_repository() {
    let service = TodoUsecase::new("repository");
    assert_eq!(service.repository, "repository");
    assert_eq!(service.clone().repository, "repository");
}

#[test]
fn get_all_todos_asks_for_all() {
    assert_eq!(
        service().get_all_todos(),
        ServiceStep::Call(RepositoryRequest::FindAll, Awaiting::Relay)
    );
}

#[test]
fn get_todo_by_id_asks_for_the_todo() {
    let id = Uuid::from_u128(4);
    assert_eq!(
        service().get_todo_by_id(id),
        ServiceStep::Call(RepositoryRequest::FindById(id), Awaiting::Relay)
    );
}

#[test]
fn create_todo_with_builds_an_open_todo() {
    let id = Uuid::from_u128(4);
    assert_eq!(
        service().create_todo_with(id, "buy milk".to_string(), 77),
        ServiceStep::Call(
            RepositoryRequest::Create(Todo {
                id,
                title: "buy milk".to_string(),
                completed: false,
                created_at: 77,
                updated_at: 77,
            }),
            Awaiting::Relay
        )
    );
}

#[test]
fn create_todo_with_refuses_an_empty_title() {
    assert_eq!(
        service().create_todo_with(Uuid::from_u128(4), String::new(), 77),
        ServiceStep::Finished(Err(TodoError::Validation))
    );
}

#[test]
fn create_todo_draws_an_identifier_and_reads_the_clock() {
    match service().create_todo("buy milk".to_string()) {
        ServiceStep::Call(RepositoryRequest::Create(todo), Awaiting::Relay) => {
            assert_eq!(todo.title, "buy milk");
            assert!(!todo.completed);
            assert_eq!(todo.created_at, todo.updated_at);
            assert!(todo.created_at > 1_600_000_000_000_000);
            assert_eq!(todo.id.get_version_num(), 4);
        }
        other => panic!("unexpected step {:?}", other),
    }
}

#[test]
fn create_todo_draws_a_new_identifier_each_time() {
    let first = service().create_todo("a".to_string());
    let second = service().create_todo("a".to_string());
    match (first, second) {
        (
            ServiceStep::Call(RepositoryRequest::Create(one), _),
            ServiceStep::Call(RepositoryRequest::Create(two), _),
        ) => {
            assert_ne!(one.id, two.id);
            assert!(one.created_at <= two.created_at);
        }
        other => panic!("unexpected steps {:?}", other),
    }
}

#[test]
fn create_todo_refuses_an_empty_title() {
    assert_eq!(
        service().create_todo(String::new()),
        ServiceStep::Finished(Err(TodoError::Validation))
    );
}

#[test]
fn update_todo_at_carries_title_and_state() {
    let id = Uuid::from_u128(4);
    assert_eq!(
        service().update_todo_at(id, "new title".to_string(), true, 900),
        ServiceStep::Call(
            RepositoryRequest::Update(Todo {
                id,
                title: "new title".to_string(),
                completed: true,
                created_at: 900,
                updated_at: 900,
            }),
            Awaiting::Relay
        )
    );
}

#[test]
fn update_todo_at_refuses_an_empty_title() {
    assert_eq!(
        service().update_todo_at(Uuid::from_u128(4), String::new(), true, 900),
        ServiceStep::Finished(Err(TodoError::Validation))
    );
}

#[test]
fn update_todo_carries_title_and_state() {
    let id = Uuid::from_u128(4);
    match service().update_todo(id, "new title".to_string(), true) {
        ServiceStep::Call(RepositoryRequest::Update(todo), Awaiting::Relay) => {
            assert_eq!(todo.id, id);
            assert_eq!(todo.title, "new title");
            assert!(todo.completed);
            assert_eq!(todo.created_at, todo.updated_at);
        }
        other => panic!("unexpected step {:?}", other),
    }
}

#[test]
fn update_todo_refuses_an_empty_title() {
    assert_eq!(
        service().update_todo(Uuid::from_u128(4), String::new(), false),
        ServiceStep::Finished(Err(TodoError::Validation))
    );
}

#[test]
fn complete_todo_starts_by_reading() {
    let id = Uuid::from_u128(4);
    assert_eq!(
        service().complete_todo(id),
        ServiceStep::Call(RepositoryRequest::FindById(id), Awaiting::CompleteRead)
    );
}

#[test]
fn delete_todo_asks_for_the_removal() {
    let id = Uuid::from_u128(4);
    assert_eq!(
        service().delete_todo(id),
        ServiceStep::Call(RepositoryRequest::Delete(id), Awaiting::Relay)
    );
}

#[test]
fn relayed_outcome_ends_the_use_case_unchanged() {
    let service = service();
    assert_eq!(
        service.resume(Awaiting::Relay, Ok(RepositoryReply::Todos(vec![sample()]))),
        ServiceStep::Finished(Ok(RepositoryReply::Todos(vec![sample()])))
    );
    assert_eq!(
        service.resume(Awaiting::Relay, Ok(RepositoryReply::Found(None))),
        ServiceStep::Finished(Ok(RepositoryReply::Found(None)))
    );
    assert_eq!(
        service.resume(Awaiting::Relay, Ok(RepositoryReply::Deleted)),
        ServiceStep::Finished(Ok(RepositoryReply::Deleted))
    );
    assert_eq!(
        service.resume(Awaiting::Relay, Err(TodoError::NotFound)),
        ServiceStep::Finished(Err(TodoError::NotFound))
    );
    assert_eq!(
        service.resume(Awaiting::Relay, Err(TodoError::Storage)),
        ServiceStep::Finished(Err(TodoError::Storage))
    );
}

#[test]
fn completion_updates_the_todo_read_with_its_own_title() {
    assert_eq!(
        service().resume(Awaiting::CompleteRead, Ok(RepositoryReply::Found(Some(sample())))),
        ServiceStep::Call(
            RepositoryRequest::Update(Todo { completed: true, ..sample() }),
            Awaiting::Relay
        )
    );
}

#[test]
fn completion_of_an_absent_todo_is_not_found() {
    assert_eq!(
        service().resume(Awaiting::CompleteRead, Ok(RepositoryReply::Found(None))),
        ServiceStep::Finished(Err(TodoError::NotFound))
    );
}

#[test]
fn completion_passes_an_error_of_the_read_on() {
    assert_eq!(
        service().resume(Awaiting::CompleteRead, Err(TodoError::Storage)),
        ServiceStep::Finished(Err(TodoError::Storage))
    );
    assert_eq!(
        service().resume(Awaiting::CompleteRead, Err(TodoError::NotFound)),
        ServiceStep::Finished(Err(TodoError::NotFound))
    );
}

#[test]
fn completion_takes_a_reply_of_another_shape_for_a_storage_error() {
    assert_eq!(
        service().resume(Awaiting::CompleteRead, Ok(RepositoryReply::Deleted)),
        ServiceStep::Finished(Err(TodoError::Storage))
    );
    assert_eq!(
        service().resume(Awaiting::CompleteRead, Ok(RepositoryReply::Stored(sample()))),
        ServiceStep::Finished(Err(TodoError::Storage))
    );
    assert_eq!(
        service().resume(Awaiting::CompleteRead, Ok(RepositoryReply::Todos(vec![]))),
        ServiceStep::Finished(Err(TodoError::Storage))
    );
}
