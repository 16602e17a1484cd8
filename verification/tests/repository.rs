use todo_backend::domain::repository::{RepositoryReply, RepositoryRequest};
use todo_backend::domain::todo::{Todo, TodoError};
use todo_backend::infrastructure::statement::{Fetched, Statement};
use todo_backend::infrastructure::todo_repository::{Pending, RepositoryStep, TodoRepositoryImpl};
use uuid::Uuid;

fn sample() -> Todo {
    Todo {
        id: Uuid::from_u128(0xabc),
        title: "buy milk".to_string(),
        completed: false,
        created_at: 100,
        updated_at: 100,
    }
}

fn repository() -> TodoRepositoryImpl<&'static str> {
    TodoRepositoryImpl::new("pool")
}

fn storage_error() -> RepositoryStep {
    RepositoryStep::Finished(Err(TodoError::Storage))
}

#[test]
fn new_repository_keeps_the_pool() {
    let repository = TodoRepositoryImpl::new(41_u8);
    assert_eq!(repository.pool, 41);
    assert_eq!(repository.clone().pool, 41);
}

#[test]
fn find_all_starts_with_the_full_selection() {
    assert_eq!(
        repository().find_all(),
        RepositoryStep::Execute(Statement::SelectAll, Pending::FindAll)
    );
}

#[test]
fn find_by_id_starts_with_the_selection_by_identifier() {
    let id = Uuid::from_u128(3);
    assert_eq!(
        repository().find_by_id(id),
        RepositoryStep::Execute(Statement::SelectById { id }, Pending::FindById)
    );
}

#[test]
fn create_starts_with_the_insertion_and_keeps_the_todo() {
    assert_eq!(
        repository().create(sample()),
        RepositoryStep::Execute(Statement::Insert { todo: sample() }, Pending::Create(sample()))
    );
}

#[test]
fn update_starts_with_the_write_of_title_and_state() {
    let todo = Todo { title: "new title".to_string(), completed: true, ..sample() };
    assert_eq!(
        repository().update(todo),
        RepositoryStep::Execute(
            Statement::Update {
                title: "new title".to_string(),
                completed: true,
                id: Uuid::from_u128(0xabc)
            },
            Pending::UpdateWrite(Uuid::from_u128(0xabc))
        )
    );
}

#[test]
fn delete_starts_with_the_deletion() {
    let id = Uuid::from_u128(3);
    assert_eq!(
        repository().delete(id),
        RepositoryStep::Execute(Statement::Delete { id }, Pending::Delete)
    );
}

#[test]
fn begin_starts_each_request_as_its_method_does() {
    let id = Uuid::from_u128(3);
    let repository = repository();
    assert_eq!(repository.begin(RepositoryRequest::FindAll), repository.find_all());
    assert_eq!(repository.begin(RepositoryRequest::FindById(id)), repository.find_by_id(id));
    assert_eq!(repository.begin(RepositoryRequest::Create(sample())), repository.create(sample()));
    assert_eq!(repository.begin(RepositoryRequest::Update(sample())), repository.update(sample()));
    assert_eq!(repository.begin(RepositoryRequest::Delete(id)), repository.delete(id));
}

#[test]
fn rows_end_the_full_selection() {
    assert_eq!(
        repository().resume(Pending::FindAll, Fetched::Rows(vec![sample()])),
        RepositoryStep::Finished(Ok(RepositoryReply::Todos(vec![sample()])))
    );
}

#[test]
fn no_rows_end_the_full_selection_with_an_empty_list() {
    assert_eq!(
        repository().resume(Pending::FindAll, Fetched::Rows(vec![])),
        RepositoryStep::Finished(Ok(RepositoryReply::Todos(vec![])))
    );
}

#[test]
fn a_row_or_none_ends_the_selection_by_identifier() {
    assert_eq!(
        repository().resume(Pending::FindById, Fetched::Row(Some(sample()))),
        RepositoryStep::Finished(Ok(RepositoryReply::Found(Some(sample()))))
    );
    assert_eq!(
        repository().resume(Pending::FindById, Fetched::Row(None)),
        RepositoryStep::Finished(Ok(RepositoryReply::Found(None)))
    );
}

#[test]
fn insertion_ends_with_the_todo_handed_in() {
    assert_eq!(
        repository().resume(Pending::Create(sample()), Fetched::Done),
        RepositoryStep::Finished(Ok(RepositoryReply::Stored(sample())))
    );
}

#[test]
fn write_of_an_update_is_followed_by_a_read() {
    let id = Uuid::from_u128(8);
    assert_eq!(
        repository().resume(Pending::UpdateWrite(id), Fetched::Done),
        RepositoryStep::Execute(Statement::SelectById { id }, Pending::UpdateRead)
    );
}

#[test]
fn read_after_an_update_ends_with_the_row() {
    let row = Todo { updated_at: 900, ..sample() };
    assert_eq!(
        repository().resume(Pending::UpdateRead, Fetched::Row(Some(row.clone()))),
        RepositoryStep::Finished(Ok(RepositoryReply::Stored(row)))
    );
}

#[test]
fn read_after_an_update_without_a_row_is_not_found() {
    assert_eq!(
        repository().resume(Pending::UpdateRead, Fetched::Row(None)),
        RepositoryStep::Finished(Err(TodoError::NotFound))
    );
}

#[test]
fn deletion_ends_with_success() {
    assert_eq!(
        repository().resume(Pending::Delete, Fetched::Done),
        RepositoryStep::Finished(Ok(RepositoryReply::Deleted))
    );
}

#[test]
fn failure_ends_every_request_with_a_storage_error() {
    let repository = repository();
    assert_eq!(repository.resume(Pending::FindAll, Fetched::Failed), storage_error());
    assert_eq!(repository.resume(Pending::FindById, Fetched::Failed), storage_error());
    assert_eq!(repository.resume(Pending::Create(sample()), Fetched::Failed), storage_error());
    assert_eq!(
        repository.resume(Pending::UpdateWrite(Uuid::from_u128(1)), Fetched::Failed),
        storage_error()
    );
    assert_eq!(repository.resume(Pending::UpdateRead, Fetched::Failed), storage_error());
    assert_eq!(repository.resume(Pending::Delete, Fetched::Failed), storage_error());
}

#[test]
fn answer_of_the_wrong_shape_is_a_storage_error() {
    let repository = repository();
    assert_eq!(repository.resume(Pending::FindAll, Fetched::Row(None)), storage_error());
    assert_eq!(repository.resume(Pending::FindAll, Fetched::Done), storage_error());
    assert_eq!(repository.resume(Pending::FindById, Fetched::Rows(vec![])), storage_error());
    assert_eq!(repository.resume(Pending::FindById, Fetched::Done), storage_error());
    assert_eq!(
        repository.resume(Pending::Create(sample()), Fetched::Row(Some(sample()))),
        storage_error()
    );
    assert_eq!(
        repository.resume(Pending::UpdateWrite(Uuid::from_u128(1)), Fetched::Row(None)),
        storage_error()
    );
    assert_eq!(repository.resume(Pending::UpdateRead, Fetched::Done), storage_error());
    assert_eq!(repository.resume(Pending::UpdateRead, Fetched::Rows(vec![sample()])), storage_error());
    assert_eq!(repository.resume(Pending::Delete, Fetched::Rows(vec![])), storage_error());
}
