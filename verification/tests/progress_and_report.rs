use charybdis::migration_unit::{
    MigrationAbort, MigrationErrorKind, MigrationKind, MigrationUnit, Remediation,
};
use charybdis::progress::NextAction;
use charybdis::report::{
    assemble_abort_report, assemble_no_changes_report, no_changes_message, no_changes_report,
};
use charybdis::schema::{Column, MigrationContext, MigrationObjectType, SchemaSnapshot};

fn table(fields: &[(&str, &str)], partition_key: &[&str]) -> SchemaSnapshot {
    SchemaSnapshot {
        object_kind: MigrationObjectType::Table,
        object_name: "events".to_string(),
        fields: fields
            .iter()
            .map(|(n, t)| Column { name: n.to_string(), declared_type: t.to_string() })
            .collect(),
        partition_key: partition_key.iter().map(|c| c.to_string()).collect(),
        clustering_key: vec![],
        global_indexes: vec![],
        local_indexes: vec![],
        table_options: vec![],
    }
}

fn unit(current: SchemaSnapshot, target: SchemaSnapshot) -> MigrationUnit {
    MigrationUnit::new(MigrationContext { current: Some(current), target, drop_and_replace: false })
}

#[test]
fn run_hands_out_requests_one_by_one_then_completes() {
    let unit = unit(table(&[("id", "Uuid")], &["id"]), table(&[("id", "Uuid"), ("at", "Int")], &["id"]));
    let mut run = unit.start();
    assert!(matches!(run.next::<String>(Ok(())), NextAction::Execute(MigrationKind::TableOptionsChange)));
    assert!(matches!(run.next::<String>(Ok(())), NextAction::Execute(MigrationKind::FieldAdded)));
    assert!(matches!(run.next::<String>(Ok(())), NextAction::Complete { no_changes: false }));
    assert!(matches!(run.next::<String>(Ok(())), NextAction::Closed));
}

#[test]
fn run_reports_the_abort_after_the_requests_before_it() {
    let unit = unit(table(&[("id", "Uuid")], &["id"]), table(&[("id", "Uuid")], &["id", "at"]));
    let mut run = unit.start();
    assert!(matches!(run.next::<String>(Ok(())), NextAction::Execute(MigrationKind::TableOptionsChange)));
    match run.next::<String>(Ok(())) {
        NextAction::Abort(abort) => {
            assert_eq!(abort.kind, MigrationErrorKind::IllegalPartitionKeyChange);
            assert_eq!(abort.object_name, "events");
        }
        other => panic!("expected an abort, got {:?}", other),
    }
    assert!(matches!(run.next::<String>(Ok(())), NextAction::Closed));
}

#[test]
fn executor_failure_comes_back_unchanged_and_ends_the_run() {
    let unit = unit(table(&[("id", "Uuid")], &["id"]), table(&[("id", "Uuid"), ("at", "Int")], &["id"]));
    let mut run = unit.start();
    assert!(matches!(run.next::<String>(Ok(())), NextAction::Execute(MigrationKind::TableOptionsChange)));
    match run.next(Err("connection reset".to_string())) {
        NextAction::Fail(error) => assert_eq!(error, "connection reset"),
        other => panic!("expected the failure, got {:?}", other),
    }
    assert!(matches!(run.next::<String>(Ok(())), NextAction::Closed));
}

#[test]
fn unchanged_run_completes_with_no_changes() {
    let unit = unit(table(&[("id", "Uuid")], &["id"]), table(&[("id", "Uuid")], &["id"]));
    let mut run = unit.start();
    assert!(matches!(run.next::<u8>(Ok(())), NextAction::Execute(MigrationKind::TableOptionsChange)));
    assert!(matches!(run.next::<u8>(Ok(())), NextAction::Complete { no_changes: true }));
}

fn abort(kind: MigrationErrorKind, object_type: MigrationObjectType) -> MigrationAbort {
    MigrationAbort { kind, object_name: "events".to_string(), object_type, hint: kind.hint() }
}

#[test]
fn object_kinds_have_their_labels() {
    assert_eq!(MigrationObjectType::Udt.to_string(), "UDT");
    assert_eq!(MigrationObjectType::Table.to_string(), "Table");
    assert_eq!(MigrationObjectType::MaterializedView.to_string(), "Materialized View");
}

#[test]
fn abort_messages_name_object_kind_and_rule() {
    let cases = [
        (MigrationErrorKind::IllegalPartitionKeyChange, "Partition key change is not allowed!"),
        (MigrationErrorKind::IllegalClusteringKeyChange, "Clustering key change is not allowed!"),
        (MigrationErrorKind::IllegalUdtFieldRemoval, "UDT fields removal is not allowed!"),
        (
            MigrationErrorKind::IllegalMaterializedViewFieldChange,
            "Materialized view fields change is not allowed!",
        ),
    ];
    for (kind, rule) in cases {
        let text = abort(kind, MigrationObjectType::MaterializedView).message();
        assert_eq!(text, format!("Illegal change in events Materialized View\n{}", rule));
        assert_eq!(kind.rule_text(), rule);
        assert_eq!(kind.hint(), None);
    }
}

#[test]
fn field_type_change_message_tells_how_to_opt_in() {
    let abort = abort(MigrationErrorKind::IllegalFieldTypeChange, MigrationObjectType::Table);
    assert_eq!(
        abort.message(),
        "Illegal change in events Table\nField type change is not allowed. Use `-d` flag to drop and recreate field with new type!"
    );
    assert_eq!(
        Remediation::EnableDropAndReplace.text(),
        "Use `-d` flag to drop and recreate field with new type!"
    );
}

#[test]
fn no_changes_message_names_the_object() {
    assert_eq!(
        no_changes_message("events", MigrationObjectType::Udt),
        "No changes detected in events UDT"
    );
}

#[test]
fn reports_are_laid_out_from_their_pieces() {
    assert_eq!(assemble_abort_report("a", "b", "c", "d"), "\n\na b c\nd\n\n");
    assert_eq!(assemble_no_changes_report("a", "b", "c"), "a b c");
}

#[test]
fn painted_reports_wrap_each_piece_in_its_colour() {
    colored::control::set_override(true);
    let painted = abort(MigrationErrorKind::IllegalPartitionKeyChange, MigrationObjectType::Table)
        .report();
    assert_eq!(
        painted,
        "\n\n\u{1b}[91mIllegal change in\u{1b}[0m \u{1b}[93mevents\u{1b}[0m \u{1b}[95mTable\u{1b}[0m\n\u{1b}[91mPartition key change is not allowed!\u{1b}[0m\n\n"
    );
    let bold = abort(MigrationErrorKind::IllegalUdtFieldRemoval, MigrationObjectType::Udt).report();
    assert_eq!(
        bold,
        "\n\n\u{1b}[91mIllegal change in\u{1b}[0m \u{1b}[93mevents\u{1b}[0m \u{1b}[95mUDT\u{1b}[0m\n\u{1b}[1;91mUDT fields removal is not allowed!\u{1b}[0m\n\n"
    );
    assert_eq!(
        no_changes_report("events", MigrationObjectType::Table),
        "\u{1b}[32mNo changes detected in\u{1b}[0m \u{1b}[93mevents\u{1b}[0m \u{1b}[95mTable\u{1b}[0m"
    );
    colored::control::unset_override();
}

#[test]
fn unpainted_reports_are_the_plain_layout() {
    colored::control::set_override(false);
    let plain = abort(MigrationErrorKind::IllegalClusteringKeyChange, MigrationObjectType::Table)
        .report();
    assert_eq!(plain, "\n\nIllegal change in events Table\nClustering key change is not allowed!\n\n");
    assert_eq!(
        no_changes_report("events", MigrationObjectType::Table),
        "No changes detected in events Table"
    );
    colored::control::unset_override();
}
