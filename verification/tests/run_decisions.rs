use charybdis::migration_unit::{
    MigrationErrorKind, MigrationKind, MigrationUnit, Remediation, RunOutcome,
};
use charybdis::schema::{
    Column, IndexDescriptor, MigrationContext, MigrationObjectType, SchemaSnapshot, TableOption,
};

fn column(name: &str, declared_type: &str) -> Column {
    Column { name: name.to_string(), declared_type: declared_type.to_string() }
}

fn index(name: &str, columns: &[&str]) -> IndexDescriptor {
    IndexDescriptor {
        name: name.to_string(),
        columns: columns.iter().map(|c| c.to_string()).collect(),
    }
}

fn snapshot(kind: MigrationObjectType, fields: &[(&str, &str)]) -> SchemaSnapshot {
    SchemaSnapshot {
        object_kind: kind,
        object_name: "users".to_string(),
        fields: fields.iter().map(|(n, t)| column(n, t)).collect(),
        partition_key: vec!["id".to_string()],
        clustering_key: vec![],
        global_indexes: vec![],
        local_indexes: vec![],
        table_options: vec![TableOption {
            name: "gc_grace_seconds".to_string(),
            value: "86400".to_string(),
        }],
    }
}

fn unit(current: Option<SchemaSnapshot>, target: SchemaSnapshot, flag: bool) -> MigrationUnit {
    MigrationUnit::new(MigrationContext { current, target, drop_and_replace: flag })
}

fn completed(outcome: RunOutcome) -> (Vec<MigrationKind>, bool) {
    match outcome {
        RunOutcome::Completed { requests, no_changes } => (requests, no_changes),
        RunOutcome::Aborted { abort, .. } => panic!("aborted with {:?}", abort.kind),
    }
}

fn aborted(outcome: RunOutcome) -> (Vec<MigrationKind>, MigrationErrorKind) {
    match outcome {
        RunOutcome::Aborted { requests, abort } => {
            assert_eq!(abort.object_name, "users");
            (requests, abort.kind)
        }
        RunOutcome::Completed { requests, .. } => panic!("completed with {:?}", requests),
    }
}

const TABLE: MigrationObjectType = MigrationObjectType::Table;
const UDT: MigrationObjectType = MigrationObjectType::Udt;
const VIEW: MigrationObjectType = MigrationObjectType::MaterializedView;

#[test]
fn first_migration_creates_only_the_object() {
    let (requests, no_changes) =
        completed(unit(None, snapshot(TABLE, &[("id", "Uuid")]), false).run());
    assert_eq!(requests, vec![MigrationKind::CreateObject]);
    assert!(!no_changes);
}

#[test]
fn first_migration_creates_indexes_after_the_object() {
    let mut target = snapshot(TABLE, &[("id", "Uuid"), ("name", "Text")]);
    target.local_indexes.push(index("by_name_local", &["name"]));
    target.global_indexes.push(index("by_name", &["name"]));
    let (requests, _) = completed(unit(None, target, true).run());
    assert_eq!(
        requests,
        vec![
            MigrationKind::CreateObject,
            MigrationKind::GlobalIndexAdded,
            MigrationKind::LocalIndexAdded
        ]
    );
}

#[test]
fn first_migration_with_local_indexes_only() {
    let mut target = snapshot(TABLE, &[("id", "Uuid"), ("name", "Text")]);
    target.local_indexes.push(index("by_name_local", &["name"]));
    let (requests, _) = completed(unit(None, target, false).run());
    assert_eq!(requests, vec![MigrationKind::CreateObject, MigrationKind::LocalIndexAdded]);
}

#[test]
fn added_field_on_table_is_requested_after_table_options() {
    let current = snapshot(TABLE, &[("id", "Uuid"), ("name", "Text")]);
    let target = snapshot(TABLE, &[("id", "Uuid"), ("name", "Text"), ("email", "Text")]);
    let unit = unit(Some(current), target, false);
    let (requests, no_changes) = completed(unit.run());
    assert_eq!(requests, vec![MigrationKind::TableOptionsChange, MigrationKind::FieldAdded]);
    assert!(!no_changes);
    let added: Vec<&str> = unit.diff().new_fields.iter().map(|c| c.name.as_str()).collect();
    assert_eq!(added, vec!["email"]);
    assert!(unit.diff().removed_fields.is_empty());
    assert!(unit.diff().retyped_fields.is_empty());
}

#[test]
fn extended_partition_key_aborts_after_table_options() {
    let current = snapshot(TABLE, &[("id", "Uuid"), ("tenant", "Text")]);
    let mut target = snapshot(TABLE, &[("id", "Uuid"), ("tenant", "Text")]);
    target.partition_key = vec!["id".to_string(), "tenant".to_string()];
    let (requests, kind) = aborted(unit(Some(current), target, true).run());
    assert_eq!(requests, vec![MigrationKind::TableOptionsChange]);
    assert_eq!(kind, MigrationErrorKind::IllegalPartitionKeyChange);
}

#[test]
fn reordered_partition_key_counts_as_change() {
    let mut current = snapshot(VIEW, &[("id", "Uuid"), ("tenant", "Text")]);
    current.partition_key = vec!["tenant".to_string(), "id".to_string()];
    let mut target = snapshot(VIEW, &[("id", "Uuid"), ("tenant", "Text")]);
    target.partition_key = vec!["id".to_string(), "tenant".to_string()];
    let (requests, kind) = aborted(unit(Some(current), target, false).run());
    assert_eq!(requests, vec![MigrationKind::TableOptionsChange]);
    assert_eq!(kind, MigrationErrorKind::IllegalPartitionKeyChange);
}

#[test]
fn changed_clustering_key_aborts() {
    let current = snapshot(TABLE, &[("id", "Uuid"), ("at", "Timestamp")]);
    let mut target = snapshot(TABLE, &[("id", "Uuid"), ("at", "Timestamp")]);
    target.clustering_key = vec!["at".to_string()];
    let (requests, kind) = aborted(unit(Some(current), target, false).run());
    assert_eq!(requests, vec![MigrationKind::TableOptionsChange]);
    assert_eq!(kind, MigrationErrorKind::IllegalClusteringKeyChange);
}

#[test]
fn udt_ignores_key_changes() {
    let current = snapshot(UDT, &[("street", "Text")]);
    let mut target = snapshot(UDT, &[("street", "Text")]);
    target.partition_key = vec![];
    target.clustering_key = vec!["street".to_string()];
    let (requests, no_changes) = completed(unit(Some(current), target, false).run());
    assert_eq!(requests, vec![MigrationKind::TableOptionsChange]);
    assert!(no_changes);
}

#[test]
fn retyped_field_without_opt_in_aborts_with_hint() {
    let current = snapshot(TABLE, &[("id", "Uuid"), ("age", "Int")]);
    let target = snapshot(TABLE, &[("id", "Uuid"), ("age", "BigInt")]);
    match unit(Some(current), target, false).run() {
        RunOutcome::Aborted { requests, abort } => {
            assert_eq!(requests, vec![MigrationKind::TableOptionsChange]);
            assert_eq!(abort.kind, MigrationErrorKind::IllegalFieldTypeChange);
            assert_eq!(abort.object_type, MigrationObjectType::Table);
            assert_eq!(abort.hint, Some(Remediation::EnableDropAndReplace));
        }
        RunOutcome::Completed { .. } => panic!("a retyped field was let through"),
    }
}

#[test]
fn retyped_field_with_opt_in_is_dropped_and_recreated() {
    let current = snapshot(TABLE, &[("id", "Uuid"), ("age", "Int")]);
    let target = snapshot(TABLE, &[("id", "Uuid"), ("age", "BigInt")]);
    let unit = unit(Some(current), target, true);
    let (requests, no_changes) = completed(unit.run());
    assert_eq!(requests, vec![MigrationKind::TableOptionsChange, MigrationKind::FieldTypeChanged]);
    assert!(!no_changes);
    assert_eq!(unit.diff().retyped_fields.len(), 1);
    assert_eq!(unit.diff().retyped_fields[0].name, "age");
    assert_eq!(unit.diff().retyped_fields[0].declared_type, "BigInt");
}

#[test]
fn udt_field_removal_aborts_whatever_the_flag() {
    for flag in [false, true] {
        let current = snapshot(UDT, &[("street", "Text"), ("zip", "Text")]);
        let target = snapshot(UDT, &[("street", "Text")]);
        let (requests, kind) = aborted(unit(Some(current), target, flag).run());
        assert_eq!(requests, vec![MigrationKind::TableOptionsChange]);
        assert_eq!(kind, MigrationErrorKind::IllegalUdtFieldRemoval);
    }
}

#[test]
fn udt_field_retype_aborts_whatever_the_flag() {
    for flag in [false, true] {
        let current = snapshot(UDT, &[("zip", "Int")]);
        let target = snapshot(UDT, &[("zip", "Text")]);
        let (requests, kind) = aborted(unit(Some(current), target, flag).run());
        assert_eq!(requests, vec![MigrationKind::TableOptionsChange]);
        assert_eq!(kind, MigrationErrorKind::IllegalUdtFieldRemoval);
    }
}

#[test]
fn udt_gains_a_field_before_the_removal_is_refused() {
    let current = snapshot(UDT, &[("street", "Text"), ("zip", "Text")]);
    let target = snapshot(UDT, &[("street", "Text"), ("city", "Text")]);
    let (requests, kind) = aborted(unit(Some(current), target, false).run());
    assert_eq!(requests, vec![MigrationKind::TableOptionsChange, MigrationKind::FieldAdded]);
    assert_eq!(kind, MigrationErrorKind::IllegalUdtFieldRemoval);
}

#[test]
fn udt_may_gain_fields() {
    let current = snapshot(UDT, &[("street", "Text")]);
    let target = snapshot(UDT, &[("street", "Text"), ("city", "Text")]);
    let (requests, _) = completed(unit(Some(current), target, false).run());
    assert_eq!(requests, vec![MigrationKind::TableOptionsChange, MigrationKind::FieldAdded]);
}

#[test]
fn materialized_view_refuses_every_field_change() {
    let base = [("id", "Uuid"), ("name", "Text")];
    let changes: [&[(&str, &str)]; 3] = [
        &[("id", "Uuid"), ("name", "Text"), ("email", "Text")],
        &[("id", "Uuid")],
        &[("id", "Uuid"), ("name", "Blob")],
    ];
    for target_fields in changes {
        for flag in [false, true] {
            let run = unit(Some(snapshot(VIEW, &base)), snapshot(VIEW, target_fields), flag).run();
            let (requests, kind) = aborted(run);
            assert_eq!(requests, vec![MigrationKind::TableOptionsChange]);
            assert_eq!(kind, MigrationErrorKind::IllegalMaterializedViewFieldChange);
        }
    }
}

#[test]
fn materialized_view_key_change_comes_before_field_change() {
    let current = snapshot(VIEW, &[("id", "Uuid")]);
    let mut target = snapshot(VIEW, &[("id", "Uuid"), ("name", "Text")]);
    target.partition_key = vec!["name".to_string()];
    let (_, kind) = aborted(unit(Some(current), target, true).run());
    assert_eq!(kind, MigrationErrorKind::IllegalPartitionKeyChange);
}

#[test]
fn unchanged_table_reports_no_changes() {
    let mut current = snapshot(TABLE, &[("id", "Uuid"), ("name", "Text")]);
    current.global_indexes = vec![index("a", &["name"]), index("b", &["id", "name"])];
    let mut target = snapshot(TABLE, &[("name", "Text"), ("id", "Uuid")]);
    target.global_indexes = vec![index("b", &["id", "name"]), index("a", &["name"])];
    for flag in [false, true] {
        let unit = MigrationUnit::new(MigrationContext {
            current: Some(snapshot_copy(&current)),
            target: snapshot_copy(&target),
            drop_and_replace: flag,
        });
        let (requests, no_changes) = completed(unit.run());
        assert_eq!(requests, vec![MigrationKind::TableOptionsChange]);
        assert!(no_changes);
    }
}

fn snapshot_copy(s: &SchemaSnapshot) -> SchemaSnapshot {
    SchemaSnapshot {
        object_kind: s.object_kind,
        object_name: s.object_name.clone(),
        fields: s.fields.iter().map(|c| column(&c.name, &c.declared_type)).collect(),
        partition_key: s.partition_key.clone(),
        clustering_key: s.clustering_key.clone(),
        global_indexes: s
            .global_indexes
            .iter()
            .map(|i| IndexDescriptor { name: i.name.clone(), columns: i.columns.clone() })
            .collect(),
        local_indexes: s
            .local_indexes
            .iter()
            .map(|i| IndexDescriptor { name: i.name.clone(), columns: i.columns.clone() })
            .collect(),
        table_options: vec![],
    }
}

#[test]
fn every_change_on_a_table_is_requested_in_the_fixed_order() {
    let mut current = snapshot(TABLE, &[("id", "Uuid"), ("age", "Int"), ("old", "Text")]);
    current.global_indexes = vec![index("gone", &["old"])];
    current.local_indexes = vec![index("gone_local", &["old"])];
    let mut target = snapshot(TABLE, &[("id", "Uuid"), ("age", "BigInt"), ("new", "Text")]);
    target.global_indexes = vec![index("fresh", &["new"])];
    target.local_indexes = vec![index("fresh_local", &["new"])];
    let unit = unit(Some(current), target, true);
    let (requests, no_changes) = completed(unit.run());
    assert_eq!(
        requests,
        vec![
            MigrationKind::TableOptionsChange,
            MigrationKind::FieldTypeChanged,
            MigrationKind::FieldAdded,
            MigrationKind::FieldRemoved,
            MigrationKind::GlobalIndexAdded,
            MigrationKind::LocalIndexAdded,
            MigrationKind::GlobalIndexRemoved,
            MigrationKind::LocalIndexRemoved,
        ]
    );
    assert!(!no_changes);
    assert_eq!(unit.diff().removed_fields[0].name, "old");
    assert_eq!(unit.diff().new_global_indexes[0].name, "fresh");
    assert_eq!(unit.diff().removed_local_indexes[0].name, "gone_local");
}

#[test]
fn index_identity_is_name_and_columns() {
    let mut current = snapshot(TABLE, &[("id", "Uuid"), ("a", "Text"), ("b", "Text")]);
    current.global_indexes = vec![index("by_ab", &["a", "b"])];
    let mut target = snapshot(TABLE, &[("id", "Uuid"), ("a", "Text"), ("b", "Text")]);
    target.global_indexes = vec![index("by_ab", &["b", "a"])];
    let unit = unit(Some(current), target, false);
    assert!(unit.diff().has_new_global_secondary_indexes());
    assert!(unit.diff().has_removed_global_secondary_indexes());
    assert!(!unit.diff().has_new_local_secondary_indexes());
    let (requests, _) = completed(unit.run());
    assert_eq!(
        requests,
        vec![
            MigrationKind::TableOptionsChange,
            MigrationKind::GlobalIndexAdded,
            MigrationKind::GlobalIndexRemoved
        ]
    );
}

#[test]
fn guards_report_exactly_their_rule() {
    let current = snapshot(TABLE, &[("id", "Uuid")]);
    let mut target = snapshot(TABLE, &[("id", "Uuid")]);
    target.partition_key = vec!["other".to_string()];
    let table = unit(Some(current), target, false);
    assert_eq!(
        table.panic_on_partition_key_change().unwrap_err().kind,
        MigrationErrorKind::IllegalPartitionKeyChange
    );
    assert!(table.panic_on_clustering_key_change().is_ok());
    assert!(table.panic_on_udt_fields_removal().is_ok());
    assert!(table.panic_on_mv_fields_change().is_ok());
    let abort = table.panic_on_field_type_change();
    assert_eq!(abort.kind, MigrationErrorKind::IllegalFieldTypeChange);
    assert_eq!(abort.hint, Some(Remediation::EnableDropAndReplace));

    let view = unit(Some(snapshot(VIEW, &[("id", "Uuid")])), snapshot(VIEW, &[("id", "Uuid")]), true);
    assert_eq!(
        view.panic_on_mv_fields_change().unwrap_err().kind,
        MigrationErrorKind::IllegalMaterializedViewFieldChange
    );
    assert!(view.panic_on_partition_key_change().is_ok());

    let udt = unit(Some(snapshot(UDT, &[("a", "Int"), ("b", "Int")])), snapshot(UDT, &[("a", "Int")]), true);
    assert_eq!(
        udt.panic_on_udt_fields_removal().unwrap_err().kind,
        MigrationErrorKind::IllegalUdtFieldRemoval
    );
    assert!(udt.panic_on_partition_key_change().is_ok());
}

#[test]
fn handlers_follow_the_kind_of_object() {
    let table = unit(Some(snapshot(TABLE, &[("a", "Int")])), snapshot(TABLE, &[("a", "Text")]), true);
    assert_eq!(table.handle_fields_type_change().unwrap(), MigrationKind::FieldTypeChanged);
    assert_eq!(table.handle_new_fields().unwrap(), MigrationKind::FieldAdded);
    assert_eq!(table.handle_removed_fields().unwrap(), MigrationKind::FieldRemoved);
    assert_eq!(table.handle_first_migration(), vec![MigrationKind::CreateObject]);
    let strict = unit(Some(snapshot(TABLE, &[("a", "Int")])), snapshot(TABLE, &[("a", "Text")]), false);
    assert_eq!(
        strict.handle_fields_type_change().unwrap_err().kind,
        MigrationErrorKind::IllegalFieldTypeChange
    );
    let view = unit(Some(snapshot(VIEW, &[("a", "Int")])), snapshot(VIEW, &[("a", "Int")]), true);
    assert_eq!(
        view.handle_new_fields().unwrap_err().kind,
        MigrationErrorKind::IllegalMaterializedViewFieldChange
    );
    assert_eq!(
        view.handle_removed_fields().unwrap_err().kind,
        MigrationErrorKind::IllegalMaterializedViewFieldChange
    );
}
