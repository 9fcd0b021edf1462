use std::cell::Cell;

use sigmanest_server::batch::{batches_on_sheet, copy_batches, Batch};
use sigmanest_server::cache::BatchCache;
use sigmanest_server::error::ServiceError;
use sigmanest_server::lifecycle::{
    on_completion_written, on_update, Ack, LifecycleAction, ProgramState, CREATED,
};
use sigmanest_server::listing::machine_names;
use sigmanest_server::nest::{batches_for_program, resolve_nest, Nest, Sheet};

fn batch(id: &str, sheet: &str) -> Batch {
    Batch {
        id: id.to_string(),
        sheet_name: sheet.to_string(),
        material: "A36".to_string(),
        quantity: 2,
    }
}

fn nest(program: &str, sheet: &str) -> Nest {
    Nest {
        program: program.to_string(),
        sheet: Sheet { sheet_name: sheet.to_string() },
    }
}

fn ids(v: &[Batch]) -> Vec<String> {
    v.iter().map(|b| b.id.clone()).collect()
}

#[test]
fn cache_fetches_once_for_many_readers() {
    let calls = Cell::new(0u32);
    let mut cache = BatchCache::new();
    assert!(!cache.is_loaded());
    let mut seen = Vec::new();
    for _ in 0..5 {
        let got = cache
            .get_or_load(|| {
                calls.set(calls.get() + 1);
                Ok(vec![batch("b1", "S1"), batch("b2", "S2")])
            })
            .unwrap();
        seen.push(ids(&got));
    }
    assert_eq!(calls.get(), 1);
    assert!(cache.is_loaded());
    for s in &seen {
        assert_eq!(s, &vec!["b1".to_string(), "b2".to_string()]);
    }
}

#[test]
fn cache_stays_empty_after_failed_fetch() {
    let calls = Cell::new(0u32);
    let mut cache = BatchCache::new();
    let first = cache.get_or_load(|| {
        calls.set(calls.get() + 1);
        Err(ServiceError::SourceUnavailable)
    });
    assert_eq!(first.unwrap_err(), ServiceError::SourceUnavailable);
    assert!(!cache.is_loaded());
    let second = cache
        .get_or_load(|| {
            calls.set(calls.get() + 1);
            Ok(vec![batch("b9", "S9")])
        })
        .unwrap();
    assert_eq!(ids(&second), vec!["b9".to_string()]);
    assert_eq!(calls.get(), 2);
    let third = cache
        .get_or_load(|| {
            calls.set(calls.get() + 1);
            Ok(Vec::new())
        })
        .unwrap();
    assert_eq!(ids(&third), vec!["b9".to_string()]);
    assert_eq!(calls.get(), 2);
}

#[test]
fn join_keeps_the_two_batches_of_the_sheet_in_order() {
    let cached = vec![batch("first", "S1"), batch("second", "S1"), batch("third", "S2")];
    let r = batches_for_program(&cached, &Ok(nest("N3100", "S1"))).unwrap();
    assert_eq!(ids(&r), vec!["first".to_string(), "second".to_string()]);
    assert!(r.iter().all(|b| b.sheet_name == "S1"));
}

#[test]
fn join_on_a_sheet_with_no_batches_is_empty() {
    let cached = vec![batch("a", "S1"), batch("b", "S2")];
    let r = batches_for_program(&cached, &Ok(nest("N1001", "S3"))).unwrap();
    assert!(r.is_empty());
}

#[test]
fn batches_on_sheet_filters_by_name() {
    let cached = vec![batch("a", "S2"), batch("b", "S1"), batch("c", "S2")];
    let r = batches_on_sheet(&cached, &"S2".to_string());
    assert_eq!(ids(&r), vec!["a".to_string(), "c".to_string()]);
    assert!(batches_on_sheet(&Vec::new(), &"S2".to_string()).is_empty());
}

#[test]
fn copy_batches_keeps_every_field() {
    let cached = vec![batch("a", "S2"), batch("b", "S1")];
    let c = copy_batches(&cached);
    assert_eq!(c.len(), 2);
    assert_eq!(c[1].id, "b");
    assert_eq!(c[1].sheet_name, "S1");
    assert_eq!(c[1].material, "A36");
    assert_eq!(c[1].quantity, 2);
}

#[test]
fn unknown_program_is_not_found() {
    let rows = Ok(vec![nest("N1001", "S1"), nest("N1002", "S2")]);
    let r = resolve_nest(&"does-not-exist".to_string(), rows);
    assert_eq!(r.unwrap_err(), ServiceError::NotFound);
    let empty = resolve_nest(&"does-not-exist".to_string(), Ok(Vec::new()));
    assert_eq!(empty.unwrap_err(), ServiceError::NotFound);
}

#[test]
fn unknown_program_gives_no_batches() {
    let cached = vec![batch("a", "S1"), batch("b", "S1")];
    let resolved = resolve_nest(&"does-not-exist".to_string(), Ok(vec![nest("N1001", "S1")]));
    let r = batches_for_program(&cached, &resolved);
    assert_eq!(r.unwrap_err(), ServiceError::NotFound);
}

#[test]
fn resolve_takes_the_first_row_of_the_program() {
    let rows = Ok(vec![nest("N1001", "S1"), nest("N1002", "S2"), nest("N1002", "S3")]);
    let r = resolve_nest(&"N1002".to_string(), rows).unwrap();
    assert_eq!(r.program, "N1002");
    assert_eq!(r.sheet.sheet_name, "S2");
}

#[test]
fn resolve_passes_a_database_error_on() {
    let r = resolve_nest(&"N1001".to_string(), Err(ServiceError::DatabaseError));
    assert_eq!(r.as_ref().unwrap_err(), &ServiceError::DatabaseError);
    let cached = vec![batch("a", "S1")];
    let joined = batches_for_program(&cached, &r);
    assert_eq!(joined.unwrap_err(), ServiceError::DatabaseError);
}

#[test]
fn failed_completion_write_is_still_acknowledged() {
    let program = "N2007".to_string();
    match on_update(&program, ProgramState::Complete) {
        LifecycleAction::RecordCompletion { program: p } => assert_eq!(p, "N2007"),
        other => panic!("expected a completion write, got {:?}", other),
    }
    let ack = on_completion_written(&Err(ServiceError::DatabaseError));
    assert_eq!(ack, Ack { status: 201, errors_logged: 1 });
    assert_eq!(ack.status, CREATED);
}

#[test]
fn successful_completion_write_logs_no_error() {
    let ack = on_completion_written(&Ok(()));
    assert_eq!(ack, Ack { status: 201, errors_logged: 0 });
}

#[test]
fn repeated_completion_issues_two_writes() {
    let program = "N2007".to_string();
    let mut writes = 0;
    for _ in 0..2 {
        if let LifecycleAction::RecordCompletion { .. } = on_update(&program, ProgramState::Complete) {
            writes += 1;
        }
    }
    assert_eq!(writes, 2);
}

#[test]
fn other_states_only_acknowledge() {
    let program = "N2007".to_string();
    for state in [ProgramState::Initiated, ProgramState::Processing, ProgramState::Cancelled] {
        match on_update(&program, state) {
            LifecycleAction::Respond(ack) => {
                assert_eq!(ack, Ack { status: 201, errors_logged: 0 })
            }
            other => panic!("unexpected action {:?}", other),
        }
    }
}

#[test]
fn empty_machine_list_is_not_an_error() {
    let r = machine_names(Ok(Vec::new())).unwrap();
    assert!(r.is_empty());
}

#[test]
fn machine_names_read_null_as_empty() {
    let r = machine_names(Ok(vec![Some("Laser1".to_string()), None, Some("Plasma".to_string())]))
        .unwrap();
    assert_eq!(r, vec!["Laser1".to_string(), String::new(), "Plasma".to_string()]);
}

#[test]
fn machine_query_failure_is_a_database_error() {
    let r = machine_names(Err(ServiceError::SourceUnavailable));
    assert_eq!(r.unwrap_err(), ServiceError::DatabaseError);
}
