use todo_repository::handlers::{
    all_todo, create_todo, delete_todo, find_todo, root, update_todo, Status,
};
use todo_repository::repositories::{CreateTodo, Todo, TodoRepositoryForMemory, UpdateTodo};
use todo_repository::shared::SharedTodoRepository;

fn completed(id: i32, text: &str) -> Todo {
    Todo::new(id, text.to_string()).apply(UpdateTodo::new(None, Some(true)))
}

#[test]
fn should_return_hello_world() {
    let (status, body) = root();
    assert_eq!(status.code(), 200);
    assert_eq!(body, "Hello, World!");
}

#[test]
fn should_created_todo() {
    let expected = Todo::new(1, "should_return_created_todo".to_string());

    let repository = SharedTodoRepository::new();
    let payload = CreateTodo::new("should_return_created_todo".to_string());
    let (status, todo) = repository.create_todo(payload).unwrap();
    assert_eq!(status.code(), 201);
    assert_eq!(expected, todo);
}

#[test]
fn should_find_todo() {
    let expected = Todo::new(1, "should_find_todo".to_string());

    let repository = SharedTodoRepository::new();
    repository.create_todo(CreateTodo::new("should_find_todo".to_string())).unwrap();
    let (status, todo) = repository.find_todo(1).unwrap();
    assert_eq!(status.code(), 200);
    assert_eq!(expected, todo);
}

#[test]
fn should_get_all_todos() {
    let expected = Todo::new(1, "should_get_all_todos".to_string());

    let repository = SharedTodoRepository::new();
    repository.create_todo(CreateTodo::new("should_get_all_todos".to_string())).unwrap();
    let (status, todo) = repository.all_todo();
    assert_eq!(status.code(), 200);
    assert_eq!(vec![expected], todo);
}

#[test]
fn should_update_todo() {
    let expected = Todo::new(1, "should_update_todo".to_string());

    let repository = SharedTodoRepository::new();
    repository.create_todo(CreateTodo::new("before_update_todo".to_string())).unwrap();
    let payload = UpdateTodo::new(Some("should_update_todo".to_string()), Some(false));
    let (status, todo) = repository.update_todo(1, payload).unwrap();
    assert_eq!(status.code(), 200);
    assert_eq!(expected, todo);
}

#[test]
fn should_delete_todo() {
    let repository = SharedTodoRepository::new();
    repository.create_todo(CreateTodo::new("should_find_todo".to_string())).unwrap();
    let status = repository.delete_todo(1);
    assert_eq!(Status::NoContent, status);
    assert_eq!(204, status.code());
}

#[test]
fn a_record_lives_from_post_to_delete() {
    let repository = SharedTodoRepository::new();

    let posted = repository.create_todo(CreateTodo::new("a".to_string()));
    assert_eq!(posted, Ok((Status::Created, Todo::new(1, "a".to_string()))));

    let got = repository.find_todo(1);
    assert_eq!(got, Ok((Status::Success, Todo::new(1, "a".to_string()))));

    let patched = repository.update_todo(1, UpdateTodo::new(None, Some(true)));
    assert_eq!(patched, Ok((Status::Success, completed(1, "a"))));

    assert_eq!(repository.delete_todo(1), Status::NoContent);
    assert_eq!(repository.find_todo(1), Err(Status::NotFound));
    assert_eq!(repository.all_todo(), (Status::Success, vec![]));
}

#[test]
fn status_numbers() {
    assert_eq!(Status::Success.code(), 200);
    assert_eq!(Status::Created.code(), 201);
    assert_eq!(Status::NoContent.code(), 204);
    assert_eq!(Status::NotFound.code(), 404);
    assert_eq!(Status::InsufficientStorage.code(), 507);
}

#[test]
fn create_todo_answers_created_with_the_stored_record() {
    let mut repository = TodoRepositoryForMemory::new();
    let (status, todo) =
        create_todo(&mut repository, CreateTodo::new("first".to_string())).unwrap();
    assert_eq!(status, Status::Created);
    assert_eq!(todo, Todo::new(1, "first".to_string()));
    assert_eq!(find_todo(&repository, 1), Ok((Status::Success, todo)));
}

#[test]
fn find_todo_answers_not_found_for_an_absent_id() {
    let mut repository = TodoRepositoryForMemory::new();
    assert_eq!(find_todo(&repository, 1), Err(Status::NotFound));
    create_todo(&mut repository, CreateTodo::new("first".to_string())).unwrap();
    assert_eq!(find_todo(&repository, 2), Err(Status::NotFound));
    assert_eq!(find_todo(&repository, 0), Err(Status::NotFound));
    assert_eq!(find_todo(&repository, -1), Err(Status::NotFound));
}

#[test]
fn all_todo_answers_an_empty_list_for_an_empty_repository() {
    let repository = TodoRepositoryForMemory::new();
    assert_eq!(all_todo(&repository), (Status::Success, vec![]));
}

#[test]
fn all_todo_lists_every_record_once() {
    let mut repository = TodoRepositoryForMemory::new();
    create_todo(&mut repository, CreateTodo::new("one".to_string())).unwrap();
    create_todo(&mut repository, CreateTodo::new("two".to_string())).unwrap();
    create_todo(&mut repository, CreateTodo::new("three".to_string())).unwrap();
    let (status, mut todos) = all_todo(&repository);
    assert_eq!(status, Status::Success);
    todos.sort_by_key(|todo| todo.id());
    assert_eq!(
        todos,
        vec![
            Todo::new(1, "one".to_string()),
            Todo::new(2, "two".to_string()),
            Todo::new(3, "three".to_string()),
        ]
    );
}

#[test]
fn update_todo_answers_success_not_created() {
    let mut repository = TodoRepositoryForMemory::new();
    create_todo(&mut repository, CreateTodo::new("first".to_string())).unwrap();
    let response = update_todo(&mut repository, 1, UpdateTodo::new(None, Some(true)));
    assert_eq!(response, Ok((Status::Success, completed(1, "first"))));
    assert_eq!(response.unwrap().0.code(), 200);
}

#[test]
fn update_todo_answers_not_found_and_changes_nothing() {
    let mut repository = TodoRepositoryForMemory::new();
    create_todo(&mut repository, CreateTodo::new("first".to_string())).unwrap();
    let response = update_todo(&mut repository, 7, UpdateTodo::new(Some("x".to_string()), None));
    assert_eq!(response, Err(Status::NotFound));
    assert_eq!(all_todo(&repository).1, vec![Todo::new(1, "first".to_string())]);
}

#[test]
fn delete_todo_answers_no_content_then_not_found() {
    let mut repository = TodoRepositoryForMemory::new();
    create_todo(&mut repository, CreateTodo::new("first".to_string())).unwrap();
    assert_eq!(delete_todo(&mut repository, 1), Status::NoContent);
    assert_eq!(delete_todo(&mut repository, 1), Status::NotFound);
    assert_eq!(find_todo(&repository, 1), Err(Status::NotFound));
}

#[test]
fn create_todo_answers_insufficient_storage_when_no_identifier_is_left() {
    let mut repository = TodoRepositoryForMemory::starting_at(i32::MAX);
    let last = create_todo(&mut repository, CreateTodo::new("last".to_string()));
    assert_eq!(last, Ok((Status::Created, Todo::new(i32::MAX, "last".to_string()))));

    let refused = create_todo(&mut repository, CreateTodo::new("one too many".to_string()));
    assert_eq!(refused, Err(Status::InsufficientStorage));
    assert_eq!(
        all_todo(&repository),
        (Status::Success, vec![Todo::new(i32::MAX, "last".to_string())])
    );
}
