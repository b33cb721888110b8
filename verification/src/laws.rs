//! What holds of every run, stated over [`run_outcome`] and proved from its
//! definition.

use vstd::prelude::*;
use crate::diff::{diff_of, holds_index};
use crate::migration_unit::{
    abort_of, evolve_from, first_migration_requests, run_outcome, stage_at, verdict,
    MigrationErrorKind, MigrationKind, RunOutcomeView, Verdict,
};
use crate::schema::{ContextView, MigrationObjectType};

verus! {

/// The context that differs from `ctx` in the destructive-changes flag alone.
pub open spec fn with_drop_and_replace(ctx: ContextView, enabled: bool) -> ContextView {
    ContextView { current: ctx.current, target: ctx.target, drop_and_replace: enabled }
}

/// A first migration never stops. It requests the creation of the object
/// exactly once and first, then the global indexes if and only if the target
/// declares one, then the local indexes if and only if the target declares
/// one, and nothing else.
pub proof fn law_first_migration_creates_object_then_indexes(ctx: ContextView)
    requires
        ctx.current is None,
    ensures
        run_outcome(ctx) matches RunOutcomeView::Completed { requests, no_changes } && !no_changes
            && requests == seq![MigrationKind::CreateObject] + (if holds_index(
            ctx.target.global_indexes,
        ) {
            seq![MigrationKind::GlobalIndexAdded]
        } else {
            Seq::<MigrationKind>::empty()
        }) + (if holds_index(ctx.target.local_indexes) {
            seq![MigrationKind::LocalIndexAdded]
        } else {
            Seq::<MigrationKind>::empty()
        }),
        run_outcome(ctx).requests()[0] == MigrationKind::CreateObject,
        forall|i: int|
            1 <= i < run_outcome(ctx).requests().len() ==> {
                let request = #[trigger] run_outcome(ctx).requests()[i];
                request == MigrationKind::GlobalIndexAdded || request
                    == MigrationKind::LocalIndexAdded
            },
        forall|i: int, j: int|
            0 <= i < j < run_outcome(ctx).requests().len() ==> !(run_outcome(ctx).requests()[i]
                == MigrationKind::LocalIndexAdded && run_outcome(ctx).requests()[j]
                == MigrationKind::GlobalIndexAdded),
{
    assert(run_outcome(ctx).requests() == first_migration_requests(ctx));
}

/// On a table or a materialized view that exists, a partition key that
/// differs from the declared one, in content or in order, stops the run with
/// nothing requested but the table options.
pub proof fn law_partition_key_change_stops_run(ctx: ContextView)
    requires
        ctx.current is Some,
        ctx.target.object_kind != MigrationObjectType::Udt,
        ctx.current->0.partition_key != ctx.target.partition_key,
    ensures
        run_outcome(ctx) == (RunOutcomeView::Aborted {
            requests: seq![MigrationKind::TableOptionsChange],
            abort: abort_of(MigrationErrorKind::IllegalPartitionKeyChange, ctx),
        }),
{
    reveal_with_fuel(evolve_from, 3);
    assert(Seq::<MigrationKind>::empty().push(MigrationKind::TableOptionsChange)
        =~= seq![MigrationKind::TableOptionsChange]);
}

/// On a table or a materialized view that exists and whose partition key is
/// unchanged, a clustering key that differs from the declared one stops the
/// run with nothing requested but the table options.
pub proof fn law_clustering_key_change_stops_run(ctx: ContextView)
    requires
        ctx.current is Some,
        ctx.target.object_kind != MigrationObjectType::Udt,
        ctx.current->0.partition_key == ctx.target.partition_key,
        ctx.current->0.clustering_key != ctx.target.clustering_key,
    ensures
        run_outcome(ctx) == (RunOutcomeView::Aborted {
            requests: seq![MigrationKind::TableOptionsChange],
            abort: abort_of(MigrationErrorKind::IllegalClusteringKeyChange, ctx),
        }),
{
    reveal_with_fuel(evolve_from, 4);
    assert(Seq::<MigrationKind>::empty().push(MigrationKind::TableOptionsChange)
        =~= seq![MigrationKind::TableOptionsChange]);
}

/// A user-defined type that exists and that lost a field or had one retyped
/// always stops the run, with the rule that such a type only gains fields,
/// and the flag for destructive changes makes no difference to the outcome.
pub proof fn law_udt_never_loses_or_retypes_fields(ctx: ContextView)
    requires
        ctx.current is Some,
        ctx.target.object_kind == MigrationObjectType::Udt,
        diff_of(ctx).has_removed_fields() || diff_of(ctx).has_changed_type_fields(),
    ensures
        run_outcome(ctx) matches RunOutcomeView::Aborted { abort, .. } && abort == abort_of(
            MigrationErrorKind::IllegalUdtFieldRemoval,
            ctx,
        ),
        run_outcome(with_drop_and_replace(ctx, true)) == run_outcome(
            with_drop_and_replace(ctx, false),
        ),
{
    reveal_with_fuel(evolve_from, 7);
    let on = with_drop_and_replace(ctx, true);
    let off = with_drop_and_replace(ctx, false);
    assert(diff_of(on) == diff_of(ctx));
    assert(diff_of(off) == diff_of(ctx));
    assert(abort_of(MigrationErrorKind::IllegalUdtFieldRemoval, on) == abort_of(
        MigrationErrorKind::IllegalUdtFieldRemoval,
        off,
    ));
}

/// A materialized view that exists, whose keys are unchanged and that gained,
/// lost or retyped a field always stops the run with the rule that the fields
/// of a view do not change, with nothing requested but the table options,
/// whatever the flag for destructive changes says.
pub proof fn law_materialized_view_fields_never_change(ctx: ContextView)
    requires
        ctx.current is Some,
        ctx.target.object_kind == MigrationObjectType::MaterializedView,
        ctx.current->0.partition_key == ctx.target.partition_key,
        ctx.current->0.clustering_key == ctx.target.clustering_key,
        diff_of(ctx).has_new_fields() || diff_of(ctx).has_removed_fields() || diff_of(
            ctx,
        ).has_changed_type_fields(),
    ensures
        run_outcome(ctx) == (RunOutcomeView::Aborted {
            requests: seq![MigrationKind::TableOptionsChange],
            abort: abort_of(MigrationErrorKind::IllegalMaterializedViewFieldChange, ctx),
        }),
{
    reveal_with_fuel(evolve_from, 7);
    assert(Seq::<MigrationKind>::empty().push(MigrationKind::TableOptionsChange)
        =~= seq![MigrationKind::TableOptionsChange]);
}

/// A table that exists and whose keys, fields and indexes are all as declared
/// never stops the run: the table options are requested, nothing else is, and
/// the run reports that it found no changes.
pub proof fn law_unchanged_table_requests_only_table_options(ctx: ContextView)
    requires
        ctx.current is Some,
        ctx.target.object_kind == MigrationObjectType::Table,
        !diff_of(ctx).partition_key_changed,
        !diff_of(ctx).clustering_key_changed,
        !diff_of(ctx).has_new_fields(),
        !diff_of(ctx).has_removed_fields(),
        !diff_of(ctx).has_changed_type_fields(),
        !diff_of(ctx).has_new_global_secondary_indexes(),
        !diff_of(ctx).has_new_local_secondary_indexes(),
        !diff_of(ctx).has_removed_global_secondary_indexes(),
        !diff_of(ctx).has_removed_local_secondary_indexes(),
    ensures
        run_outcome(ctx) == (RunOutcomeView::Completed {
            requests: seq![MigrationKind::TableOptionsChange],
            no_changes: true,
        }),
{
    reveal_with_fuel(evolve_from, 11);
    assert(Seq::<MigrationKind>::empty().push(MigrationKind::TableOptionsChange)
        =~= seq![MigrationKind::TableOptionsChange]);
}

/// The place of a request in the fixed order of a run.
pub open spec fn rank(kind: MigrationKind) -> int {
    match kind {
        MigrationKind::CreateObject => 0,
        MigrationKind::TableOptionsChange => 1,
        MigrationKind::FieldTypeChanged => 2,
        MigrationKind::FieldAdded => 3,
        MigrationKind::FieldRemoved => 4,
        MigrationKind::GlobalIndexAdded => 5,
        MigrationKind::LocalIndexAdded => 6,
        MigrationKind::GlobalIndexRemoved => 7,
        MigrationKind::LocalIndexRemoved => 8,
    }
}

/// Whether the requests come in the fixed order, none of them twice.
pub open spec fn in_fixed_order(requests: Seq<MigrationKind>) -> bool {
    forall|i: int, j: int|
        0 <= i < j < requests.len() ==> rank(#[trigger] requests[i]) < rank(
            #[trigger] requests[j],
        )
}

/// A bound above the rank of every request that the stages before `position`
/// can make.
spec fn rank_bound(position: int) -> int {
    if position <= 0 {
        1
    } else if position <= 3 {
        2
    } else {
        position - 1
    }
}

proof fn lemma_evolve_keeps_order(ctx: ContextView, position: int, issued: Seq<MigrationKind>)
    requires
        0 <= position <= 10,
        in_fixed_order(issued),
        forall|i: int| 0 <= i < issued.len() ==> rank(#[trigger] issued[i]) < rank_bound(position),
        position >= 1 ==> issued.len() >= 1 && issued[0] == MigrationKind::TableOptionsChange,
        position == 0 ==> issued.len() == 0,
    ensures
        in_fixed_order(evolve_from(ctx, position, issued).requests()),
        evolve_from(ctx, position, issued).requests().len() >= 1,
        evolve_from(ctx, position, issued).requests()[0] == MigrationKind::TableOptionsChange,
    decreases 10 - position,
{
    if position < 10 {
        match verdict(ctx, stage_at(position)) {
            Verdict::Pass => {
                lemma_evolve_keeps_order(ctx, position + 1, issued);
            },
            Verdict::Request(kind) => {
                lemma_evolve_keeps_order(ctx, position + 1, issued.push(kind));
            },
            Verdict::Abort(_) => {},
        }
    }
}

/// Whatever the context, the requests of a run come in the one fixed order and
/// none comes twice. Where the object exists, the table options come first,
/// before any structural change and before any rule is checked.
pub proof fn law_requests_follow_fixed_order(ctx: ContextView)
    ensures
        in_fixed_order(run_outcome(ctx).requests()),
        run_outcome(ctx).requests().len() >= 1,
        ctx.current is Some ==> run_outcome(ctx).requests()[0]
            == MigrationKind::TableOptionsChange,
        ctx.current is None ==> run_outcome(ctx).requests()[0] == MigrationKind::CreateObject,
{
    if ctx.current is Some {
        lemma_evolve_keeps_order(ctx, 0, Seq::empty());
    }
}

} // verus!
