use task_api::model::TaskModel;
use task_api::schema::{CreateTaskSchema, FilterOptions, UpdateTaskSchema};
use task_api::services::{
    create_task, delete_task_by_id, get_all_tasks, get_task_by_id, health, merge_update,
    page_offset, update_task_by_id, ApiReply,
};
use task_api::store::{StoreError, TaskStore};

fn sample_body(title: &str, content: &str, priority: &str, status: &str) -> CreateTaskSchema {
    CreateTaskSchema {
        title: title.to_string(),
        content: content.to_string(),
        priority: priority.to_string(),
        status: status.to_string(),
    }
}

fn created_task(reply: ApiReply) -> TaskModel {
    match reply {
        ApiReply::Created(t) => t,
        other => panic!("expected a created envelope, got code {}", other.code()),
    }
}

#[test]
fn health_envelope() {
    let r = health();
    assert!(matches!(r, ApiReply::Health));
    assert_eq!(r.code(), 200);
    assert_eq!(r.status_label(), "ok");
    assert_eq!(
        r.message(),
        Some("Health check: API is up and running...".to_string())
    );
}

#[test]
fn create_then_fetch_same_fields() {
    let mut store = TaskStore::new();
    let t = store.insert(&sample_body("A", "B", "low", "todo"));
    assert!(t.created_at <= t.updated_at);
    let fetched = store.get_by_id(t.id).expect("the created task is found");
    assert_eq!(fetched.id, t.id);
    assert_eq!(fetched.title, "A");
    assert_eq!(fetched.content, "B");
    assert_eq!(fetched.priority, "low");
    assert_eq!(fetched.status, "todo");
    assert_eq!(fetched.created_at, t.created_at);
    assert_eq!(fetched.updated_at, t.updated_at);
}

#[test]
fn updates_keep_updated_at_monotone() {
    let mut store = TaskStore::new();
    let t = store.insert(&sample_body("A", "B", "low", "todo"));
    let mut last = t.updated_at;
    let created = t.created_at;
    for status in ["doing", "done", "archived"] {
        let patch = UpdateTaskSchema {
            title: None,
            content: None,
            priority: None,
            status: Some(status.to_string()),
        };
        match update_task_by_id(&mut store, t.id, &patch) {
            ApiReply::Updated(u) => {
                assert!(u.updated_at >= last);
                assert!(u.updated_at >= created);
                assert_eq!(u.created_at, created);
                last = u.updated_at;
            }
            _ => panic!("expected an updated envelope"),
        }
    }
}

#[test]
fn empty_patch_keeps_fields_and_refreshes_updated_at() {
    let mut store = TaskStore::new();
    let t = store.insert(&sample_body("A", "B", "low", "todo"));
    let patch = UpdateTaskSchema {
        title: None,
        content: None,
        priority: None,
        status: None,
    };
    match update_task_by_id(&mut store, t.id, &patch) {
        ApiReply::Updated(u) => {
            assert_eq!(u.title, "A");
            assert_eq!(u.content, "B");
            assert_eq!(u.priority, "low");
            assert_eq!(u.status, "todo");
            assert!(u.updated_at > t.updated_at);
        }
        _ => panic!("expected an updated envelope"),
    }
}

#[test]
fn partial_patch_overwrites_only_given_fields() {
    let mut store = TaskStore::new();
    let t = store.insert(&sample_body("A", "B", "low", "todo"));
    let patch = UpdateTaskSchema {
        title: Some("C".to_string()),
        content: None,
        priority: None,
        status: None,
    };
    match update_task_by_id(&mut store, t.id, &patch) {
        ApiReply::Updated(u) => {
            assert_eq!(u.title, "C");
            assert_eq!(u.content, "B");
            assert_eq!(u.priority, "low");
            assert_eq!(u.status, "todo");
        }
        _ => panic!("expected an updated envelope"),
    }
}

#[test]
fn merge_resolves_each_field_independently() {
    let existing = TaskModel {
        id: 7,
        title: "A".to_string(),
        status: "todo".to_string(),
        priority: "low".to_string(),
        content: "B".to_string(),
        created_at: 1,
        updated_at: 2,
    };
    let patch = UpdateTaskSchema {
        title: None,
        content: Some("C".to_string()),
        priority: Some("high".to_string()),
        status: None,
    };
    let resolved = merge_update(&existing, &patch);
    assert_eq!(resolved.title, "A");
    assert_eq!(resolved.content, "C");
    assert_eq!(resolved.priority, "high");
    assert_eq!(resolved.status, "todo");
}

#[test]
fn three_records_paged_two_then_one() {
    let mut store = TaskStore::new();
    for i in 0..3 {
        store.insert(&sample_body(&format!("t{}", i), "c", "low", "todo"));
    }
    let first = get_all_tasks(
        &store,
        &FilterOptions {
            page: Some(1),
            limit: Some(2),
        },
    );
    match first {
        ApiReply::Listed { result, tasks } => {
            assert_eq!(result, 2);
            assert_eq!(tasks.len(), 2);
            assert_eq!(tasks[0].title, "t0");
            assert_eq!(tasks[1].title, "t1");
        }
        _ => panic!("expected a listed envelope"),
    }
    let second = get_all_tasks(
        &store,
        &FilterOptions {
            page: Some(2),
            limit: Some(2),
        },
    );
    match second {
        ApiReply::Listed { result, tasks } => {
            assert_eq!(result, 1);
            assert_eq!(tasks.len(), 1);
            assert_eq!(tasks[0].title, "t2");
        }
        _ => panic!("expected a listed envelope"),
    }
}

#[test]
fn list_defaults_to_page_one_limit_ten() {
    let mut store = TaskStore::new();
    for i in 0..12 {
        store.insert(&sample_body(&format!("t{}", i), "c", "low", "todo"));
    }
    let r = get_all_tasks(
        &store,
        &FilterOptions {
            page: None,
            limit: None,
        },
    );
    match r {
        ApiReply::Listed { result, tasks } => {
            assert_eq!(result, 10);
            assert_eq!(tasks[0].title, "t0");
            assert_eq!(tasks[9].title, "t9");
        }
        _ => panic!("expected a listed envelope"),
    }
}

#[test]
fn page_zero_is_clamped_to_one() {
    let (limit, offset) = page_offset(&FilterOptions {
        page: Some(0),
        limit: Some(5),
    });
    assert_eq!(limit, 5);
    assert_eq!(offset, 0);
}

#[test]
fn huge_page_saturates_offset() {
    let (limit, offset) = page_offset(&FilterOptions {
        page: Some(usize::MAX),
        limit: Some(usize::MAX),
    });
    assert_eq!(limit, usize::MAX);
    assert_eq!(offset, usize::MAX);
}

#[test]
fn offset_beyond_table_yields_empty_page() {
    let mut store = TaskStore::new();
    store.insert(&sample_body("A", "B", "low", "todo"));
    let r = get_all_tasks(
        &store,
        &FilterOptions {
            page: Some(5),
            limit: Some(10),
        },
    );
    match r {
        ApiReply::Listed { result, tasks } => {
            assert_eq!(result, 0);
            assert!(tasks.is_empty());
        }
        _ => panic!("expected a listed envelope"),
    }
}

#[test]
fn delete_then_fetch_yields_not_found() {
    let mut store = TaskStore::new();
    let t = store.insert(&sample_body("A", "B", "low", "todo"));
    let deleted = store.delete_by_id(t.id).expect("the task is deleted");
    assert_eq!(deleted.id, t.id);
    assert_eq!(deleted.title, "A");
    match store.get_by_id(t.id) {
        Err(StoreError::NotFound) => {}
        _ => panic!("expected NotFound after the delete"),
    }
}

#[test]
fn delete_handler_returns_fixed_message() {
    let mut store = TaskStore::new();
    let t = store.insert(&sample_body("A", "B", "low", "todo"));
    let r = delete_task_by_id(&mut store, t.id);
    assert!(matches!(r, ApiReply::Deleted));
    assert_eq!(r.code(), 200);
    assert_eq!(r.status_label(), "success");
    assert_eq!(r.message(), Some("Task deleted successfully".to_string()));
}

#[test]
fn unknown_id_collapses_to_server_error_on_get_and_delete() {
    let mut store = TaskStore::new();
    let r = get_task_by_id(&store, 99);
    match &r {
        ApiReply::ServerError(m) => assert_eq!(m.as_str(), "Task not found"),
        _ => panic!("expected a server-error envelope"),
    }
    assert_eq!(r.code(), 500);
    assert_eq!(r.status_label(), "error");
    let r = delete_task_by_id(&mut store, 99);
    assert!(matches!(r, ApiReply::ServerError(_)));
    assert_eq!(r.code(), 500);
}

#[test]
fn update_of_unknown_id_yields_not_found_envelope() {
    let mut store = TaskStore::new();
    let patch = UpdateTaskSchema {
        title: None,
        content: None,
        priority: None,
        status: None,
    };
    let r = update_task_by_id(&mut store, 99, &patch);
    assert!(matches!(r, ApiReply::NotFound));
    assert_eq!(r.code(), 404);
    assert_eq!(r.status_label(), "error");
    assert_eq!(r.message(), Some("Task not found".to_string()));
}

#[test]
fn create_then_patch_status_scenario() {
    let mut store = TaskStore::new();
    let r = create_task(&mut store, &sample_body("A", "B", "low", "todo"));
    assert_eq!(r.code(), 200);
    assert_eq!(r.status_label(), "success");
    assert_eq!(r.message(), Some("Task created successfully".to_string()));
    let t = created_task(r);
    assert_eq!(t.title, "A");
    let patch = UpdateTaskSchema {
        title: None,
        content: None,
        priority: None,
        status: Some("done".to_string()),
    };
    let r = update_task_by_id(&mut store, t.id, &patch);
    assert_eq!(r.code(), 200);
    match r {
        ApiReply::Updated(u) => {
            assert_eq!(u.status, "done");
            assert_eq!(u.title, "A");
        }
        _ => panic!("expected an updated envelope"),
    }
}

#[test]
fn fetch_handler_returns_record_envelope() {
    let mut store = TaskStore::new();
    let t = store.insert(&sample_body("A", "B", "low", "todo"));
    let r = get_task_by_id(&store, t.id);
    assert_eq!(r.code(), 200);
    assert_eq!(r.status_label(), "success");
    assert_eq!(r.message(), None);
    match r {
        ApiReply::Fetched(f) => assert_eq!(f.id, t.id),
        _ => panic!("expected a fetched envelope"),
    }
}

#[test]
fn identifiers_are_unique_and_never_reused() {
    let mut store = TaskStore::new();
    let a = store.insert(&sample_body("A", "B", "low", "todo"));
    let b = store.insert(&sample_body("A", "B", "low", "todo"));
    assert_ne!(a.id, b.id);
    store.delete_by_id(a.id).expect("the task is deleted");
    let c = store.insert(&sample_body("A", "B", "low", "todo"));
    assert_ne!(c.id, a.id);
    assert_ne!(c.id, b.id);
}
