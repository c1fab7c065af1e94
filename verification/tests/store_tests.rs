use oi_platform::audit::{AuditTrace, TracePhase};
use oi_platform::store::{default_store_dir, MemoryError, WorkflowStore};
use oi_platform::workflow::{WorkflowKind, WorkflowRecord, WorkflowStatus};

fn empty_json() -> serde_json::Value {
    serde_json::Value::Object(serde_json::Map::new())
}

#[test]
fn law_get_after_save_returns_the_record() {
    let mut store = WorkflowStore::in_memory();
    let mut record = WorkflowRecord::new(WorkflowKind::ContentCrew, "topic".to_string());
    let id = record.id;
    assert!(store.save(record.clone()).is_ok());
    let got = store.get(id).unwrap();
    assert_eq!(got.topic, "topic");
    assert_eq!(got.status, WorkflowStatus::Pending);
    record.start_running();
    store.save(record).unwrap();
    assert_eq!(store.get(id).unwrap().status, WorkflowStatus::Running);
    assert_eq!(store.list().unwrap().len(), 1);
}

#[test]
fn get_of_unknown_workflow_is_not_found() {
    let store = WorkflowStore::in_memory();
    assert_eq!(store.get(42).err(), Some(MemoryError::NotFound(42)));
}

#[test]
fn list_holds_each_saved_workflow_once() {
    let mut store = WorkflowStore::in_memory();
    let a = WorkflowRecord::new(WorkflowKind::ContentCrew, "a".to_string());
    let b = WorkflowRecord::new(WorkflowKind::HiringAnalysis, "b".to_string());
    let (ida, idb) = (a.id, b.id);
    store.save(a.clone()).unwrap();
    store.save(b).unwrap();
    store.save(a).unwrap();
    let all = store.list().unwrap();
    assert_eq!(all.len(), 2);
    assert!(all.iter().any(|r| r.id == ida));
    assert!(all.iter().any(|r| r.id == idb));
}

#[test]
fn law_traces_keep_append_order_per_workflow() {
    let mut store = WorkflowStore::in_memory();
    let audit = AuditTrace::new(None);
    let e1 = audit.record(1, TracePhase::Retrieve, "a", "first", &empty_json(), &empty_json(), empty_json());
    let e2 = audit.record(2, TracePhase::Reason, "b", "other", &empty_json(), &empty_json(), empty_json());
    let e3 = audit.record(1, TracePhase::Generate, "c", "second", &empty_json(), &empty_json(), empty_json());
    store.append_trace(e1).unwrap();
    store.append_trace(e2).unwrap();
    store.append_trace(e3).unwrap();
    let t1 = store.traces(1).unwrap();
    assert_eq!(t1.iter().map(|e| e.action.as_str()).collect::<Vec<_>>(), vec!["first", "second"]);
    assert_eq!(store.traces(2).unwrap().len(), 1);
    assert!(store.traces(3).unwrap().is_empty());
    assert!(store.get(1).is_err());
}

#[test]
fn store_location_under_root() {
    assert_eq!(default_store_dir("/srv/app"), "/srv/app/.oi/workflows.json");
    assert_eq!(default_store_dir("/srv/app/"), "/srv/app/.oi/workflows.json");
    assert_eq!(default_store_dir("."), "./.oi/workflows.json");
    assert_eq!(default_store_dir(""), ".oi/workflows.json");
}
