use zkp_explorer::search::classify_query;
use zkp_explorer::search::split_task_query;
use zkp_explorer::search::task_status_options;
use zkp_explorer::search::task_status_selection_from_label;
use zkp_explorer::search::task_type_options;
use zkp_explorer::search::task_type_selection_from_label;
use zkp_explorer::search::task_type_selection_label;
use zkp_explorer::search::QueryClass;
use zkp_explorer::search::SearchState;
use zkp_explorer::task::TaskStatus;
use zkp_explorer::task::TaskType;

const ADDRESS: &str = "0x1234567890abcdef1234567890abcdef12345678";
const MD5: &str = "0123456789abcdef0123456789abcdef";
const OBJECT_ID: &str = "507f1f77bcf86cd799439011";

#[test]
fn query_shapes_classify() {
    assert_eq!(ADDRESS.len(), 42);
    assert_eq!(classify_query(ADDRESS), QueryClass::UserAddress);
    assert_eq!(MD5.len(), 32);
    assert_eq!(classify_query(MD5), QueryClass::Md5);
    assert_eq!(OBJECT_ID.len(), 24);
    assert_eq!(classify_query(OBJECT_ID), QueryClass::TaskId);
}

#[test]
fn other_shapes_apply_no_filter() {
    assert_eq!(classify_query(""), QueryClass::NoFilter);
    assert_eq!(classify_query("0x1234"), QueryClass::NoFilter);
    // 42 characters without the 0x prefix is not an address.
    let not_address = "zz1234567890abcdef1234567890abcdef12345678";
    assert_eq!(not_address.len(), 42);
    assert_eq!(classify_query(not_address), QueryClass::NoFilter);
    // 31 and 33 characters are not a hash.
    assert_eq!(classify_query(&MD5[..31]), QueryClass::NoFilter);
    let mut long = MD5.to_string();
    long.push('0');
    assert_eq!(classify_query(&long), QueryClass::NoFilter);
}

#[test]
fn query_routes_into_one_filter() {
    assert_eq!(
        split_task_query(Some(ADDRESS.to_string())),
        (Some(ADDRESS.to_string()), None, None)
    );
    assert_eq!(
        split_task_query(Some(MD5.to_string())),
        (None, Some(MD5.to_string()), None)
    );
    assert_eq!(
        split_task_query(Some(OBJECT_ID.to_string())),
        (None, None, Some(OBJECT_ID.to_string()))
    );
    assert_eq!(split_task_query(Some("short".to_string())), (None, None, None));
    assert_eq!(split_task_query(None), (None, None, None));
}

#[test]
fn search_state_gates_on_trigger_and_resets_whole() {
    let mut s = SearchState::new();
    assert!(s.effective_inputs().is_none());
    s.set_query(Some(MD5.to_string()));
    // Typing alone does not apply the filters.
    assert!(s.effective_inputs().is_none());
    s.press_search();
    let eff = s.effective_inputs().expect("triggered inputs apply");
    assert_eq!(eff.query, Some(MD5.to_string()));
    // A selector change applies at once.
    let mut s = SearchState::new();
    s.choose_task_type(Some(TaskType::Prove));
    assert!(s.effective_inputs().is_some());
    s.choose_status(Some(TaskStatus::Done));
    // Reset clears all three inputs and the trigger together.
    s.reset();
    assert_eq!(s.inputs.query, None);
    assert_eq!(s.inputs.task_type, None);
    assert_eq!(s.inputs.status, None);
    assert!(!s.trigger);
    assert!(s.effective_inputs().is_none());
}

#[test]
fn selector_options_lead_with_all() {
    assert_eq!(task_type_options(), vec!["All", "Setup", "Reset", "Prove"]);
    let statuses = task_status_options();
    assert_eq!(statuses.len(), 9);
    assert_eq!(statuses[0], "All");
    assert_eq!(statuses[1], "Pending");
    assert_eq!(statuses[8], "Stale");
}

#[test]
fn selector_reads_and_parses() {
    assert_eq!(task_type_selection_label(&None), "All");
    assert_eq!(task_type_selection_label(&Some(TaskType::Setup)), "Setup");
    assert_eq!(task_type_selection_from_label("All"), Some(None));
    assert_eq!(
        task_type_selection_from_label("Prove"),
        Some(Some(TaskType::Prove))
    );
    assert_eq!(task_type_selection_from_label("Bogus"), None);
    assert_eq!(task_status_selection_from_label("All"), Some(None));
    assert_eq!(
        task_status_selection_from_label("Stale"),
        Some(Some(TaskStatus::Stale))
    );
    assert_eq!(task_status_selection_from_label(""), None);
}
