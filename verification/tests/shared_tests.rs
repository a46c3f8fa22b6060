use everything_adapter::error::{EngineError, Error, SdkError};
use everything_adapter::flags::RequestFlags;
use everything_adapter::session::ResultRow;
use everything_adapter::shared::SharedStore;

fn named_row(full_path: &str, file_name: &str) -> ResultRow {
    ResultRow {
        full_path: Some(full_path.to_string()),
        file_name: Some(file_name.to_string()),
    }
}

#[test]
fn end_to_end_search_scenario() {
    let store = SharedStore::new();

    assert_eq!(store.set_search("report.pdf".to_string()), Ok(()));
    let flags = vec![RequestFlags::FileName, RequestFlags::Path];
    assert_eq!(store.set_request_flags(&flags), Ok(()));

    // the engine's report for this execution: two matches
    let page = vec![
        named_row("C:\\work\\report.pdf", "report.pdf"),
        named_row("C:\\old\\report.pdf", "report.pdf"),
    ];
    assert_eq!(store.query(Ok(page)), Ok(()));

    let num = store.get_num_results().unwrap();
    assert_eq!(num, 2);

    let names = store.get_file_name_results().unwrap();
    assert!(names.len() <= num as usize);
    for name in &names {
        assert!(!name.is_empty());
    }
    assert_eq!(names, vec!["report.pdf".to_string(), "report.pdf".to_string()]);
}

#[test]
fn shared_reads_before_any_query_are_empty() {
    let store = SharedStore::new();
    assert_eq!(store.get_num_results(), Ok(0));
    assert_eq!(store.get_full_path_results(), Ok(Vec::new()));
    assert_eq!(
        store.get_result_file_name(0),
        Err(Error::Everything(EngineError::Sdk(SdkError::InvalidIndex)))
    );
}

#[test]
fn shared_engine_error_is_passed_through() {
    let store = SharedStore::new();
    assert_eq!(
        store.query(Err(EngineError::DatabaseTimeout)),
        Err(Error::Everything(EngineError::DatabaseTimeout))
    );
}

#[test]
fn shared_empty_flags_are_rejected() {
    let store = SharedStore::new();
    let empty: Vec<RequestFlags> = Vec::new();
    assert_eq!(
        store.set_request_flags(&empty),
        Err(Error::InvalidRequestFlags)
    );
}

#[test]
fn poisoned_shared_store_rejects_readers_and_writers() {
    let store = SharedStore::new();
    assert_eq!(store.set_search("x".to_string()), Ok(()));
    store.poison();

    assert_eq!(store.set_search("y".to_string()), Err(Error::Poisoned));
    let flags = vec![RequestFlags::FileName];
    assert_eq!(store.set_request_flags(&flags), Err(Error::Poisoned));
    assert_eq!(store.set_sort(3), Err(Error::Poisoned));
    assert_eq!(store.set_result_offset(5), Err(Error::Poisoned));
    assert_eq!(store.set_max_results(5), Err(Error::Poisoned));
    assert_eq!(store.query(Ok(Vec::new())), Err(Error::Poisoned));
    assert_eq!(store.get_num_results(), Err(Error::Poisoned));
    assert_eq!(store.get_full_path_results(), Err(Error::Poisoned));
    assert_eq!(store.get_result_full_path(0), Err(Error::Poisoned));
    assert_eq!(store.get_file_name_results(), Err(Error::Poisoned));
    assert_eq!(store.get_result_file_name(0), Err(Error::Poisoned));
}
