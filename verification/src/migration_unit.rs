//! The decisions of one migration run.
//!
//! A run is about one object. It compares the live shape of the object with
//! the declared one and decides which migrations to request from the executor,
//! in which order, and whether a rule of the database forbids the change. The
//! decision is a function of the context alone: [`run_outcome`] defines it on
//! views and [`MigrationUnit::run`] computes it.

use vstd::prelude::*;
use crate::diff::{diff_of, SchemaDiff};
use crate::schema::{ContextView, MigrationContext, MigrationObjectType};

verus! {

/// A migration that the executor can be asked to perform.
#[derive(Debug, Clone, Copy, PartialEq, Eq, Structural)]
pub enum MigrationKind {
    /// Create the object as declared.
    CreateObject,
    /// Bring the table options in line with the declaration.
    TableOptionsChange,
    /// Drop each retyped field and create it again with its declared type.
    FieldTypeChanged,
    /// Add the new fields.
    FieldAdded,
    /// Drop the removed fields.
    FieldRemoved,
    /// Create the new global secondary indexes.
    GlobalIndexAdded,
    /// Create the new local secondary indexes.
    LocalIndexAdded,
    /// Drop the removed global secondary indexes.
    GlobalIndexRemoved,
    /// Drop the removed local secondary indexes.
    LocalIndexRemoved,
}

/// A rule of the database that a declared change would break.
#[derive(Debug, Clone, Copy, PartialEq, Eq, Structural)]
pub enum MigrationErrorKind {
    /// The partition key of a table or a view cannot change.
    IllegalPartitionKeyChange,
    /// The clustering key of a table or a view cannot change.
    IllegalClusteringKeyChange,
    /// A field changes its type only by being dropped and recreated, which
    /// has to be opted into.
    IllegalFieldTypeChange,
    /// A user-defined type only ever gains fields.
    IllegalUdtFieldRemoval,
    /// The fields of a materialized view follow its base table.
    IllegalMaterializedViewFieldChange,
}

/// What the operator can do about an abort.
#[derive(Debug, Clone, Copy, PartialEq, Eq, Structural)]
pub enum Remediation {
    /// Run again with destructive changes enabled.
    EnableDropAndReplace,
}

impl MigrationErrorKind {
    /// The remedy that goes with a broken rule, where there is one.
    pub open spec fn remediation(self) -> Option<Remediation> {
        match self {
            MigrationErrorKind::IllegalFieldTypeChange => Some(Remediation::EnableDropAndReplace),
            _ => None,
        }
    }

    /// The remedy that goes with a broken rule, where there is one.
    pub fn hint(&self) -> (hint: Option<Remediation>)
        ensures
            hint == self.remediation(),
    {
        match self {
            MigrationErrorKind::IllegalFieldTypeChange => Some(Remediation::EnableDropAndReplace),
            _ => None,
        }
    }
}

/// A fatal stop of a run: the rule that was broken, the object it was broken
/// on, and the remedy, if there is one.
#[derive(Debug)]
pub struct MigrationAbort {
    pub kind: MigrationErrorKind,
    pub object_name: String,
    pub object_type: MigrationObjectType,
    pub hint: Option<Remediation>,
}

/// The mathematical value of a [`MigrationAbort`].
pub struct AbortView {
    pub kind: MigrationErrorKind,
    pub object_name: Seq<char>,
    pub object_type: MigrationObjectType,
    pub hint: Option<Remediation>,
}

impl View for MigrationAbort {
    type V = AbortView;

    open spec fn view(&self) -> AbortView {
        AbortView {
            kind: self.kind,
            object_name: self.object_name@,
            object_type: self.object_type,
            hint: self.hint,
        }
    }
}

/// How a run ended.
#[derive(Debug)]
pub enum RunOutcome {
    /// No rule was broken. `requests` are the migrations to perform, in order;
    /// `no_changes` says that the shape of the object needs no change.
    Completed { requests: Vec<MigrationKind>, no_changes: bool },
    /// A rule was broken. `requests` are the migrations that were due before
    /// the rule was checked; nothing is requested after it.
    Aborted { requests: Vec<MigrationKind>, abort: MigrationAbort },
}

/// The mathematical value of a [`RunOutcome`].
pub enum RunOutcomeView {
    Completed { requests: Seq<MigrationKind>, no_changes: bool },
    Aborted { requests: Seq<MigrationKind>, abort: AbortView },
}

impl View for RunOutcome {
    type V = RunOutcomeView;

    open spec fn view(&self) -> RunOutcomeView {
        match self {
            RunOutcome::Completed { requests, no_changes } => RunOutcomeView::Completed {
                requests: requests@,
                no_changes: *no_changes,
            },
            RunOutcome::Aborted { requests, abort } => RunOutcomeView::Aborted {
                requests: requests@,
                abort: abort@,
            },
        }
    }
}

impl RunOutcomeView {
    /// The migrations requested in the run, in order.
    pub open spec fn requests(self) -> Seq<MigrationKind> {
        match self {
            RunOutcomeView::Completed { requests, .. } => requests,
            RunOutcomeView::Aborted { requests, .. } => requests,
        }
    }
}

/// The abort that reports `kind` for the object of `ctx`.
pub open spec fn abort_of(kind: MigrationErrorKind, ctx: ContextView) -> AbortView {
    AbortView {
        kind,
        object_name: ctx.target.object_name,
        object_type: ctx.target.object_kind,
        hint: kind.remediation(),
    }
}

/// The requests of a first migration: the object, then its global indexes,
/// then its local ones, each kind of index only if one is declared.
pub open spec fn first_migration_requests(ctx: ContextView) -> Seq<MigrationKind> {
    let diff = diff_of(ctx);
    let object = seq![MigrationKind::CreateObject];
    let global = if diff.has_new_global_secondary_indexes() {
        seq![MigrationKind::GlobalIndexAdded]
    } else {
        Seq::empty()
    };
    let local = if diff.has_new_local_secondary_indexes() {
        seq![MigrationKind::LocalIndexAdded]
    } else {
        Seq::empty()
    };
    object + global + local
}

/// The stages of a run on an object that exists, in the order in which they
/// are taken.
pub enum Stage {
    TableOptions,
    PartitionKey,
    ClusteringKey,
    RetypedFields,
    NewFields,
    RemovedFields,
    NewGlobalIndexes,
    NewLocalIndexes,
    RemovedGlobalIndexes,
    RemovedLocalIndexes,
}

/// What a stage comes to.
pub enum Verdict {
    /// The stage finds nothing to do.
    Pass,
    /// The stage requests a migration.
    Request(MigrationKind),
    /// The stage finds a rule broken, and the run stops.
    Abort(MigrationErrorKind),
}

/// The number of stages.
pub open spec fn stage_count() -> int {
    10
}

/// The stage at a position of the fixed order.
pub open spec fn stage_at(position: int) -> Stage {
    if position <= 0 {
        Stage::TableOptions
    } else if position == 1 {
        Stage::PartitionKey
    } else if position == 2 {
        Stage::ClusteringKey
    } else if position == 3 {
        Stage::RetypedFields
    } else if position == 4 {
        Stage::NewFields
    } else if position == 5 {
        Stage::RemovedFields
    } else if position == 6 {
        Stage::NewGlobalIndexes
    } else if position == 7 {
        Stage::NewLocalIndexes
    } else if position == 8 {
        Stage::RemovedGlobalIndexes
    } else {
        Stage::RemovedLocalIndexes
    }
}

/// What a stage comes to in a context.
///
/// Table options are reconciled whatever else changed. Keys are fixed for
/// tables and views; a user-defined type has none. A materialized view takes
/// no field change, a user-defined type no removal and no retyping, and a
/// table takes a retyping only where destructive changes are enabled.
pub open spec fn verdict(ctx: ContextView, stage: Stage) -> Verdict {
    let diff = diff_of(ctx);
    let kind = ctx.target.object_kind;
    match stage {
        Stage::TableOptions => Verdict::Request(MigrationKind::TableOptionsChange),
        Stage::PartitionKey => if kind != MigrationObjectType::Udt && diff.partition_key_changed {
            Verdict::Abort(MigrationErrorKind::IllegalPartitionKeyChange)
        } else {
            Verdict::Pass
        },
        Stage::ClusteringKey => if kind != MigrationObjectType::Udt
            && diff.clustering_key_changed {
            Verdict::Abort(MigrationErrorKind::IllegalClusteringKeyChange)
        } else {
            Verdict::Pass
        },
        Stage::RetypedFields => if !diff.has_changed_type_fields() {
            Verdict::Pass
        } else {
            match kind {
                MigrationObjectType::MaterializedView => Verdict::Abort(
                    MigrationErrorKind::IllegalMaterializedViewFieldChange,
                ),
                MigrationObjectType::Udt => Verdict::Abort(
                    MigrationErrorKind::IllegalUdtFieldRemoval,
                ),
                MigrationObjectType::Table => if ctx.drop_and_replace {
                    Verdict::Request(MigrationKind::FieldTypeChanged)
                } else {
                    Verdict::Abort(MigrationErrorKind::IllegalFieldTypeChange)
                },
            }
        },
        Stage::NewFields => if !diff.has_new_fields() {
            Verdict::Pass
        } else {
            match kind {
                MigrationObjectType::MaterializedView => Verdict::Abort(
                    MigrationErrorKind::IllegalMaterializedViewFieldChange,
                ),
                _ => Verdict::Request(MigrationKind::FieldAdded),
            }
        },
        Stage::RemovedFields => if !diff.has_removed_fields() {
            Verdict::Pass
        } else {
            match kind {
                MigrationObjectType::MaterializedView => Verdict::Abort(
                    MigrationErrorKind::IllegalMaterializedViewFieldChange,
                ),
                MigrationObjectType::Udt => Verdict::Abort(
                    MigrationErrorKind::IllegalUdtFieldRemoval,
                ),
                MigrationObjectType::Table => Verdict::Request(MigrationKind::FieldRemoved),
            }
        },
        Stage::NewGlobalIndexes => if diff.has_new_global_secondary_indexes() {
            Verdict::Request(MigrationKind::GlobalIndexAdded)
        } else {
            Verdict::Pass
        },
        Stage::NewLocalIndexes => if diff.has_new_local_secondary_indexes() {
            Verdict::Request(MigrationKind::LocalIndexAdded)
        } else {
            Verdict::Pass
        },
        Stage::RemovedGlobalIndexes => if diff.has_removed_global_secondary_indexes() {
            Verdict::Request(MigrationKind::GlobalIndexRemoved)
        } else {
            Verdict::Pass
        },
        Stage::RemovedLocalIndexes => if diff.has_removed_local_secondary_indexes() {
            Verdict::Request(MigrationKind::LocalIndexRemoved)
        } else {
            Verdict::Pass
        },
    }
}

/// How retyped fields are handled, by the guards in their order: a
/// materialized view stops; a user-defined type that lost a field or had one
/// retyped stops; otherwise the fields are dropped and recreated where
/// destructive changes are enabled, and the run stops where they are not.
pub open spec fn retyped_fields_handling(ctx: ContextView) -> Verdict {
    let diff = diff_of(ctx);
    let kind = ctx.target.object_kind;
    if kind == MigrationObjectType::MaterializedView {
        Verdict::Abort(MigrationErrorKind::IllegalMaterializedViewFieldChange)
    } else if kind == MigrationObjectType::Udt && (diff.has_removed_fields()
        || diff.has_changed_type_fields()) {
        Verdict::Abort(MigrationErrorKind::IllegalUdtFieldRemoval)
    } else if ctx.drop_and_replace {
        Verdict::Request(MigrationKind::FieldTypeChanged)
    } else {
        Verdict::Abort(MigrationErrorKind::IllegalFieldTypeChange)
    }
}

/// How new fields are handled: a materialized view stops, any other object
/// gets them added.
pub open spec fn new_fields_handling(ctx: ContextView) -> Verdict {
    if ctx.target.object_kind == MigrationObjectType::MaterializedView {
        Verdict::Abort(MigrationErrorKind::IllegalMaterializedViewFieldChange)
    } else {
        Verdict::Request(MigrationKind::FieldAdded)
    }
}

/// How removed fields are handled, by the guards in their order: a
/// materialized view stops; a user-defined type that lost a field or had one
/// retyped stops; a table gets them dropped.
pub open spec fn removed_fields_handling(ctx: ContextView) -> Verdict {
    let diff = diff_of(ctx);
    let kind = ctx.target.object_kind;
    if kind == MigrationObjectType::MaterializedView {
        Verdict::Abort(MigrationErrorKind::IllegalMaterializedViewFieldChange)
    } else if kind == MigrationObjectType::Udt && (diff.has_removed_fields()
        || diff.has_changed_type_fields()) {
        Verdict::Abort(MigrationErrorKind::IllegalUdtFieldRemoval)
    } else {
        Verdict::Request(MigrationKind::FieldRemoved)
    }
}

/// The outcome of taking the stages from `position` on, one after the other,
/// when `issued` has been requested so far. The first abort ends the run. A
/// run that ends with nothing but the table options requested has found no
/// changes.
pub open spec fn evolve_from(
    ctx: ContextView,
    position: int,
    issued: Seq<MigrationKind>,
) -> RunOutcomeView
    decreases stage_count() - position,
{
    if position >= stage_count() {
        RunOutcomeView::Completed {
            requests: issued,
            no_changes: issued == seq![MigrationKind::TableOptionsChange],
        }
    } else {
        match verdict(ctx, stage_at(position)) {
            Verdict::Pass => evolve_from(ctx, position + 1, issued),
            Verdict::Request(kind) => evolve_from(ctx, position + 1, issued.push(kind)),
            Verdict::Abort(kind) => RunOutcomeView::Aborted {
                requests: issued,
                abort: abort_of(kind, ctx),
            },
        }
    }
}

/// The outcome of a run.
///
/// Where the object does not exist yet, it is created, indexes after the
/// object. Where it exists, the stages are taken in their order from the
/// first.
pub open spec fn run_outcome(ctx: ContextView) -> RunOutcomeView {
    if ctx.current is None {
        RunOutcomeView::Completed { requests: first_migration_requests(ctx), no_changes: false }
    } else {
        evolve_from(ctx, 0, Seq::empty())
    }
}

/// Whether `result` lets a guard pass exactly when its rule holds, and
/// otherwise reports `kind` for the object of `ctx`.
pub open spec fn guards(
    result: Result<(), MigrationAbort>,
    broken: bool,
    kind: MigrationErrorKind,
    ctx: ContextView,
) -> bool {
    match result {
        Ok(_) => !broken,
        Err(abort) => broken && abort@ == abort_of(kind, ctx),
    }
}

/// Whether `result` is what `verdict` asks for: the request it names, or the
/// abort it names for the object of `ctx`. No result stands for a stage with
/// nothing to do.
pub open spec fn carries_out(
    result: Result<MigrationKind, MigrationAbort>,
    verdict: Verdict,
    ctx: ContextView,
) -> bool {
    match result {
        Ok(kind) => verdict == Verdict::Request(kind),
        Err(abort) => verdict matches Verdict::Abort(broken) && abort@ == abort_of(broken, ctx),
    }
}

/// One object to migrate: its context and the comparison that belongs to it.
pub struct MigrationUnit {
    context: MigrationContext,
    diff: SchemaDiff,
}

impl View for MigrationUnit {
    type V = ContextView;

    closed spec fn view(&self) -> ContextView {
        self.context@
    }
}

impl MigrationUnit {
    #[verifier::type_invariant]
    spec fn diff_belongs_to_context(self) -> bool {
        self.diff@ == diff_of(self.context@)
    }

    /// Takes a context and compares its snapshots, once.
    pub fn new(context: MigrationContext) -> (unit: MigrationUnit)
        ensures
            unit@ == context@,
    {
        let diff = SchemaDiff::new(&context);
        MigrationUnit { context, diff }
    }

    /// The context of the unit.
    pub fn context(&self) -> (context: &MigrationContext)
        ensures
            context@ == self@,
    {
        &self.context
    }

    /// The comparison of the two snapshots of the unit.
    pub fn diff(&self) -> (diff: &SchemaDiff)
        ensures
            diff@ == diff_of(self@),
    {
        proof {
            use_type_invariant(self);
        }
        &self.diff
    }

    fn abort(&self, kind: MigrationErrorKind) -> (abort: MigrationAbort)
        ensures
            abort@ == abort_of(kind, self@),
    {
        MigrationAbort {
            kind,
            object_name: self.context.target.object_name.clone(),
            object_type: self.context.target.object_kind,
            hint: kind.hint(),
        }
    }

    /// Decides the whole run: the migrations to request, in order, and the
    /// abort that ends them, if a rule is broken.
    pub fn run(&self) -> (outcome: RunOutcome)
        ensures
            outcome@ == run_outcome(self@),
    {
        proof {
            use_type_invariant(self);
            reveal_with_fuel(evolve_from, 11);
        }
        if self.diff.is_first_migration() {
            return RunOutcome::Completed {
                requests: self.handle_first_migration(),
                no_changes: false,
            };
        }
        let mut requests: Vec<MigrationKind> = Vec::new();
        requests.push(MigrationKind::TableOptionsChange);

        match self.panic_on_partition_key_change() {
            Err(abort) => {
                return RunOutcome::Aborted { requests, abort };
            },
            Ok(_) => {},
        }
        match self.panic_on_clustering_key_change() {
            Err(abort) => {
                return RunOutcome::Aborted { requests, abort };
            },
            Ok(_) => {},
        }

        let mut is_any_field_changed = false;

        if self.diff.has_changed_type_fields() {
            is_any_field_changed = true;
            match self.handle_fields_type_change() {
                Ok(kind) => requests.push(kind),
                Err(abort) => {
                    return RunOutcome::Aborted { requests, abort };
                },
            }
        }
        if self.diff.has_new_fields() {
            is_any_field_changed = true;
            match self.handle_new_fields() {
                Ok(kind) => requests.push(kind),
                Err(abort) => {
                    return RunOutcome::Aborted { requests, abort };
                },
            }
        }
        if self.diff.has_removed_fields() {
            is_any_field_changed = true;
            match self.handle_removed_fields() {
                Ok(kind) => requests.push(kind),
                Err(abort) => {
                    return RunOutcome::Aborted { requests, abort };
                },
            }
        }
        if self.diff.has_new_global_secondary_indexes() {
            is_any_field_changed = true;
            requests.push(MigrationKind::GlobalIndexAdded);
        }
        if self.diff.has_new_local_secondary_indexes() {
            is_any_field_changed = true;
            requests.push(MigrationKind::LocalIndexAdded);
        }
        if self.diff.has_removed_global_secondary_indexes() {
            is_any_field_changed = true;
            requests.push(MigrationKind::GlobalIndexRemoved);
        }
        if self.diff.has_removed_local_secondary_indexes() {
            is_any_field_changed = true;
            requests.push(MigrationKind::LocalIndexRemoved);
        }
        assert(!is_any_field_changed <==> requests@ == seq![MigrationKind::TableOptionsChange]) by {
            if is_any_field_changed {
                assert(requests@.len() > 1);
            } else {
                assert(requests@ =~= seq![MigrationKind::TableOptionsChange]);
            }
        }
        RunOutcome::Completed { requests, no_changes: !is_any_field_changed }
    }

    /// The requests that create the object: the object itself, then its
    /// indexes.
    pub fn handle_first_migration(&self) -> (requests: Vec<MigrationKind>)
        ensures
            requests@ == first_migration_requests(self@),
    {
        proof {
            use_type_invariant(self);
        }
        let mut requests: Vec<MigrationKind> = Vec::new();
        requests.push(MigrationKind::CreateObject);
        if self.diff.has_new_global_secondary_indexes() {
            requests.push(MigrationKind::GlobalIndexAdded);
        }
        if self.diff.has_new_local_secondary_indexes() {
            requests.push(MigrationKind::LocalIndexAdded);
        }
        requests
    }

    /// Handles fields that are declared with another type: the request to
    /// drop and recreate them, or the rule that forbids it.
    pub fn handle_fields_type_change(&self) -> (result: Result<MigrationKind, MigrationAbort>)
        ensures
            carries_out(result, retyped_fields_handling(self@), self@),
    {
        proof {
            use_type_invariant(self);
        }
        match self.panic_on_mv_fields_change() {
            Err(abort) => {
                return Err(abort);
            },
            Ok(_) => {},
        }
        match self.panic_on_udt_fields_removal() {
            Err(abort) => {
                return Err(abort);
            },
            Ok(_) => {},
        }
        if self.context.drop_and_replace {
            Ok(MigrationKind::FieldTypeChanged)
        } else {
            Err(self.panic_on_field_type_change())
        }
    }

    /// Handles fields that the live object lacks: the request to add them, or
    /// the rule that forbids it.
    pub fn handle_new_fields(&self) -> (result: Result<MigrationKind, MigrationAbort>)
        ensures
            carries_out(result, new_fields_handling(self@), self@),
    {
        match self.panic_on_mv_fields_change() {
            Err(abort) => Err(abort),
            Ok(_) => Ok(MigrationKind::FieldAdded),
        }
    }

    /// Handles fields that are no longer declared: the request to drop them,
    /// or the rule that forbids it.
    pub fn handle_removed_fields(&self) -> (result: Result<MigrationKind, MigrationAbort>)
        ensures
            carries_out(result, removed_fields_handling(self@), self@),
    {
        match self.panic_on_mv_fields_change() {
            Err(abort) => {
                return Err(abort);
            },
            Ok(_) => {},
        }
        match self.panic_on_udt_fields_removal() {
            Err(abort) => Err(abort),
            Ok(_) => Ok(MigrationKind::FieldRemoved),
        }
    }

    /// The stop for a retyped field where destructive changes are not
    /// enabled. It tells the operator how to enable them.
    pub fn panic_on_field_type_change(&self) -> (abort: MigrationAbort)
        ensures
            abort@ == abort_of(MigrationErrorKind::IllegalFieldTypeChange, self@),
    {
        self.abort(MigrationErrorKind::IllegalFieldTypeChange)
    }

    /// Stops the run where the partition key of a table or a view changed.
    pub fn panic_on_partition_key_change(&self) -> (result: Result<(), MigrationAbort>)
        ensures
            guards(
                result,
                self@.target.object_kind != MigrationObjectType::Udt && diff_of(
                    self@,
                ).partition_key_changed,
                MigrationErrorKind::IllegalPartitionKeyChange,
                self@,
            ),
    {
        proof {
            use_type_invariant(self);
        }
        if self.context.target.object_kind != MigrationObjectType::Udt {
            if self.diff.partition_key_changed() {
                return Err(self.abort(MigrationErrorKind::IllegalPartitionKeyChange));
            }
        }
        Ok(())
    }

    /// Stops the run where the clustering key of a table or a view changed.
    pub fn panic_on_clustering_key_change(&self) -> (result: Result<(), MigrationAbort>)
        ensures
            guards(
                result,
                self@.target.object_kind != MigrationObjectType::Udt && diff_of(
                    self@,
                ).clustering_key_changed,
                MigrationErrorKind::IllegalClusteringKeyChange,
                self@,
            ),
    {
        proof {
            use_type_invariant(self);
        }
        if self.context.target.object_kind != MigrationObjectType::Udt {
            if self.diff.clustering_key_changed() {
                return Err(self.abort(MigrationErrorKind::IllegalClusteringKeyChange));
            }
        }
        Ok(())
    }

    /// Stops the run where a user-defined type loses a field or has one
    /// retyped.
    pub fn panic_on_udt_fields_removal(&self) -> (result: Result<(), MigrationAbort>)
        ensures
            guards(
                result,
                self@.target.object_kind == MigrationObjectType::Udt && (diff_of(
                    self@,
                ).has_removed_fields() || diff_of(self@).has_changed_type_fields()),
                MigrationErrorKind::IllegalUdtFieldRemoval,
                self@,
            ),
    {
        proof {
            use_type_invariant(self);
        }
        if self.context.target.object_kind == MigrationObjectType::Udt && (
        self.diff.has_removed_fields() || self.diff.has_changed_type_fields()) {
            return Err(self.abort(MigrationErrorKind::IllegalUdtFieldRemoval));
        }
        Ok(())
    }

    /// Stops the run where the object is a materialized view. It is called
    /// where a field of the object changed.
    pub fn panic_on_mv_fields_change(&self) -> (result: Result<(), MigrationAbort>)
        ensures
            guards(
                result,
                self@.target.object_kind == MigrationObjectType::MaterializedView,
                MigrationErrorKind::IllegalMaterializedViewFieldChange,
                self@,
            ),
    {
        if self.context.target.object_kind == MigrationObjectType::MaterializedView {
            return Err(self.abort(MigrationErrorKind::IllegalMaterializedViewFieldChange));
        }
        Ok(())
    }
}

/// Decides the run for a context: compares its snapshots and takes the
/// stages in their order.
pub fn run(context: MigrationContext) -> (outcome: RunOutcome)
    ensures
        outcome@ == run_outcome(context@),
{
    MigrationUnit::new(context).run()
}

} // verus!
