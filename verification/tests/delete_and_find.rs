use charybdis::delete::{on_after_delete, on_before_delete, AfterBefore, DeleteError};
use charybdis::find::{find_first_model_rule, find_model_query_rule, find_model_rule};
use charybdis::migration_unit::{run, MigrationKind, RunOutcome};
use charybdis::schema::{MigrationContext, MigrationObjectType, SchemaSnapshot};

#[test]
fn failed_before_callback_stops_the_delete() {
    assert!(matches!(on_before_delete::<&str>(Ok(())), AfterBefore::Proceed));
    assert!(matches!(on_before_delete(Err("denied")), AfterBefore::Stop("denied")));
}

#[test]
fn after_callback_failure_hides_the_result_of_the_delete() {
    let hidden = on_after_delete::<u32, &str, &str>(Ok(3), Err("audit failed"));
    assert!(matches!(hidden, Err(DeleteError::Callback("audit failed"))));
    let both = on_after_delete::<u32, &str, &str>(Err("timeout"), Err("audit failed"));
    assert!(matches!(both, Err(DeleteError::Callback("audit failed"))));
}

#[test]
fn delete_result_passes_through_when_callbacks_succeed() {
    assert!(matches!(on_after_delete::<u32, &str, &str>(Ok(3), Ok(())), Ok(3)));
    let failed = on_after_delete::<u32, &str, &str>(Err("timeout"), Ok(()));
    assert!(matches!(failed, Err(DeleteError::Query("timeout"))));
}

#[test]
fn find_rules_name_the_helper_and_begin_the_query() {
    let query = find_model_query_rule("user_post", "id, title", "user_posts");
    assert_eq!(query.macro_name, "find_user_post_query");
    assert_eq!(query.query_prefix, "SELECT id, title FROM user_posts WHERE ");
    let all = find_model_rule("user_post", "id, title", "user_posts");
    assert_eq!(all.macro_name, "find_user_post");
    assert_eq!(all.query_prefix, "SELECT id, title FROM user_posts WHERE ");
    let first = find_first_model_rule("user", "id", "users");
    assert_eq!(first.macro_name, "find_first_user");
    assert_eq!(first.query_prefix, "SELECT id FROM users WHERE ");
}

#[test]
fn run_on_a_context_decides_the_whole_run() {
    let target = SchemaSnapshot {
        object_kind: MigrationObjectType::Udt,
        object_name: "address".to_string(),
        fields: vec![],
        partition_key: vec![],
        clustering_key: vec![],
        global_indexes: vec![],
        local_indexes: vec![],
        table_options: vec![],
    };
    match run(MigrationContext { current: None, target, drop_and_replace: false }) {
        RunOutcome::Completed { requests, no_changes } => {
            assert_eq!(requests, vec![MigrationKind::CreateObject]);
            assert!(!no_changes);
        }
        RunOutcome::Aborted { .. } => panic!("a first migration aborted"),
    }
}
