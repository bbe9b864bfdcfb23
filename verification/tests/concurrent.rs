use todo_repository::handlers::Status;
use todo_repository::repositories::{CreateTodo, UpdateTodo};
use todo_repository::shared::SharedTodoRepository;
use tokio::runtime::Builder;

#[test]
fn concurrent_creations_get_distinct_identifiers() {
    let runtime = Builder::new_multi_thread().worker_threads(4).build().unwrap();
    let repository = SharedTodoRepository::new();

    let mut workers = Vec::new();
    for _ in 0..4 {
        let handle = repository.clone();
        workers.push(runtime.spawn_blocking(move || {
            let mut ids = Vec::new();
            for _ in 0..250 {
                let (status, todo) = handle.create_todo(CreateTodo::new("x".to_string())).unwrap();
                assert_eq!(status, Status::Created);
                ids.push(todo.id());
            }
            ids
        }));
    }

    let mut ids: Vec<i32> = Vec::new();
    for worker in workers {
        ids.extend(runtime.block_on(worker).unwrap());
    }
    ids.sort();
    assert_eq!(ids, (1..=1000).collect::<Vec<i32>>());
    assert_eq!(repository.all_todo().1.len(), 1000);
}

#[test]
fn concurrent_readers_and_writers_see_whole_records() {
    let runtime = Builder::new_multi_thread().worker_threads(4).build().unwrap();
    let repository = SharedTodoRepository::new();
    repository.create_todo(CreateTodo::new("even".to_string())).unwrap();

    let writer = {
        let handle = repository.clone();
        runtime.spawn_blocking(move || {
            for round in 0..500 {
                let payload = if round % 2 == 0 {
                    UpdateTodo::new(Some("odd".to_string()), Some(true))
                } else {
                    UpdateTodo::new(Some("even".to_string()), Some(false))
                };
                assert!(handle.update_todo(1, payload).is_ok());
            }
        })
    };
    let mut readers = Vec::new();
    for _ in 0..3 {
        let handle = repository.clone();
        readers.push(runtime.spawn_blocking(move || {
            for _ in 0..500 {
                let (status, todo) = handle.find_todo(1).unwrap();
                assert_eq!(status, Status::Success);
                // A reader sees the record before or after a write, never a mix.
                assert_eq!(todo.completed(), todo.text() == "odd");
                let (_, todos) = handle.all_todo();
                assert_eq!(todos.len(), 1);
            }
        }));
    }

    runtime.block_on(writer).unwrap();
    for reader in readers {
        runtime.block_on(reader).unwrap();
    }
    let (_, todo) = repository.find_todo(1).unwrap();
    assert_eq!(todo.text(), "even");
    assert!(!todo.completed());
}
