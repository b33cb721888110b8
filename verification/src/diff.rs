//! The comparison of the live shape of an object with its declared shape.
//!
//! The comparison is defined on views, by the spec functions at the top of this
//! module; [`SchemaDiff::new`] computes it once for a context. Keys are
//! compared as sequences, so a reordering counts as a change. Fields are
//! matched by name and indexes by identity, whatever their order.

use vstd::prelude::*;
use crate::schema::{
    Column, ColumnView, ContextView, IndexDescriptor, IndexView, MigrationContext, SchemaSnapshot,
};

verus! {

/// Whether `fields` holds a field called `name`.
pub open spec fn declares(fields: Seq<ColumnView>, name: Seq<char>) -> bool {
    exists|i: int| 0 <= i < fields.len() && (#[trigger] fields[i]).name == name
}

/// Whether `fields` holds a field with the name of `column` and another type.
pub open spec fn declares_with_other_type(fields: Seq<ColumnView>, column: ColumnView) -> bool {
    exists|i: int|
        0 <= i < fields.len() && (#[trigger] fields[i]).name == column.name
            && fields[i].declared_type != column.declared_type
}

/// The fields of `fields`, in order, whose names `other` does not hold.
pub open spec fn fields_missing_from(fields: Seq<ColumnView>, other: Seq<ColumnView>) -> Seq<
    ColumnView,
> {
    fields.filter(|c: ColumnView| !declares(other, c.name))
}

/// The fields of `fields`, in order, that `other` holds with another type.
pub open spec fn fields_retyped_from(fields: Seq<ColumnView>, other: Seq<ColumnView>) -> Seq<
    ColumnView,
> {
    fields.filter(|c: ColumnView| declares_with_other_type(other, c))
}

/// The declared fields that the live object lacks. Before the first migration
/// every declared field is new.
pub open spec fn new_fields(ctx: ContextView) -> Seq<ColumnView> {
    match ctx.current {
        Some(current) => fields_missing_from(ctx.target.fields, current.fields),
        None => ctx.target.fields,
    }
}

/// The live fields that the declaration no longer holds.
pub open spec fn removed_fields(ctx: ContextView) -> Seq<ColumnView> {
    match ctx.current {
        Some(current) => fields_missing_from(current.fields, ctx.target.fields),
        None => Seq::empty(),
    }
}

/// The declared fields whose live counterpart has another type, each with the
/// type it is declared with.
pub open spec fn retyped_fields(ctx: ContextView) -> Seq<ColumnView> {
    match ctx.current {
        Some(current) => fields_retyped_from(ctx.target.fields, current.fields),
        None => Seq::empty(),
    }
}

/// Whether the partition key of the live object differs from the declared one,
/// in content or in order.
pub open spec fn partition_key_changed(ctx: ContextView) -> bool {
    match ctx.current {
        Some(current) => current.partition_key != ctx.target.partition_key,
        None => false,
    }
}

/// Whether the clustering key of the live object differs from the declared
/// one, in content or in order.
pub open spec fn clustering_key_changed(ctx: ContextView) -> bool {
    match ctx.current {
        Some(current) => current.clustering_key != ctx.target.clustering_key,
        None => false,
    }
}

/// The declared global indexes that the live object lacks.
pub open spec fn new_global_indexes(ctx: ContextView) -> Set<IndexView> {
    match ctx.current {
        Some(current) => ctx.target.global_indexes.difference(current.global_indexes),
        None => ctx.target.global_indexes,
    }
}

/// The declared local indexes that the live object lacks.
pub open spec fn new_local_indexes(ctx: ContextView) -> Set<IndexView> {
    match ctx.current {
        Some(current) => ctx.target.local_indexes.difference(current.local_indexes),
        None => ctx.target.local_indexes,
    }
}

/// The live global indexes that are no longer declared.
pub open spec fn removed_global_indexes(ctx: ContextView) -> Set<IndexView> {
    match ctx.current {
        Some(current) => current.global_indexes.difference(ctx.target.global_indexes),
        None => Set::empty(),
    }
}

/// The live local indexes that are no longer declared.
pub open spec fn removed_local_indexes(ctx: ContextView) -> Set<IndexView> {
    match ctx.current {
        Some(current) => current.local_indexes.difference(ctx.target.local_indexes),
        None => Set::empty(),
    }
}

/// The mathematical value of a [`SchemaDiff`].
#[verifier::ext_equal]
pub struct DiffView {
    pub is_first_migration: bool,
    pub new_fields: Seq<ColumnView>,
    pub removed_fields: Seq<ColumnView>,
    pub retyped_fields: Seq<ColumnView>,
    pub partition_key_changed: bool,
    pub clustering_key_changed: bool,
    pub new_global_indexes: Set<IndexView>,
    pub new_local_indexes: Set<IndexView>,
    pub removed_global_indexes: Set<IndexView>,
    pub removed_local_indexes: Set<IndexView>,
}

/// The comparison that belongs to a context.
pub open spec fn diff_of(ctx: ContextView) -> DiffView {
    DiffView {
        is_first_migration: ctx.current is None,
        new_fields: new_fields(ctx),
        removed_fields: removed_fields(ctx),
        retyped_fields: retyped_fields(ctx),
        partition_key_changed: partition_key_changed(ctx),
        clustering_key_changed: clustering_key_changed(ctx),
        new_global_indexes: new_global_indexes(ctx),
        new_local_indexes: new_local_indexes(ctx),
        removed_global_indexes: removed_global_indexes(ctx),
        removed_local_indexes: removed_local_indexes(ctx),
    }
}

/// Whether a set of indexes has a member.
pub open spec fn holds_index(indexes: Set<IndexView>) -> bool {
    exists|index: IndexView| indexes.contains(index)
}

impl DiffView {
    pub open spec fn has_new_fields(self) -> bool {
        self.new_fields.len() > 0
    }

    pub open spec fn has_removed_fields(self) -> bool {
        self.removed_fields.len() > 0
    }

    pub open spec fn has_changed_type_fields(self) -> bool {
        self.retyped_fields.len() > 0
    }

    pub open spec fn has_new_global_secondary_indexes(self) -> bool {
        holds_index(self.new_global_indexes)
    }

    pub open spec fn has_new_local_secondary_indexes(self) -> bool {
        holds_index(self.new_local_indexes)
    }

    pub open spec fn has_removed_global_secondary_indexes(self) -> bool {
        holds_index(self.removed_global_indexes)
    }

    pub open spec fn has_removed_local_secondary_indexes(self) -> bool {
        holds_index(self.removed_local_indexes)
    }
}

proof fn lemma_missing_step(fields: Seq<ColumnView>, other: Seq<ColumnView>, i: int)
    requires
        0 <= i < fields.len(),
    ensures
        fields_missing_from(fields.take(i + 1), other) == if declares(other, fields[i].name) {
            fields_missing_from(fields.take(i), other)
        } else {
            fields_missing_from(fields.take(i), other).push(fields[i])
        },
{
    reveal(Seq::filter);
    assert(fields.take(i + 1).drop_last() =~= fields.take(i));
}

proof fn lemma_retyped_step(fields: Seq<ColumnView>, other: Seq<ColumnView>, i: int)
    requires
        0 <= i < fields.len(),
    ensures
        fields_retyped_from(fields.take(i + 1), other) == if declares_with_other_type(
            other,
            fields[i],
        ) {
            fields_retyped_from(fields.take(i), other).push(fields[i])
        } else {
            fields_retyped_from(fields.take(i), other)
        },
{
    reveal(Seq::filter);
    assert(fields.take(i + 1).drop_last() =~= fields.take(i));
}

fn same_names(a: &Vec<String>, b: &Vec<String>) -> (same: bool)
    ensures
        same == (a.deep_view() == b.deep_view()),
{
    if a.len() != b.len() {
        assert(a.deep_view().len() != b.deep_view().len());
        return false;
    }
    let mut i: usize = 0;
    while i < a.len()
        invariant
            a.len() == b.len(),
            i <= a.len(),
            forall|j: int| 0 <= j < i ==> a[j]@ == b[j]@,
        decreases a.len() - i,
    {
        if a[i] != b[i] {
            assert(a.deep_view()[i as int] != b.deep_view()[i as int]);
            return false;
        }
        i += 1;
    }
    assert(a.deep_view() =~= b.deep_view());
    true
}

fn declares_field(fields: &Vec<Column>, name: &String) -> (found: bool)
    ensures
        found == declares(fields.deep_view(), name@),
{
    let mut i: usize = 0;
    while i < fields.len()
        invariant
            i <= fields.len(),
            forall|j: int| 0 <= j < i ==> (#[trigger] fields.deep_view()[j]).name != name@,
        decreases fields.len() - i,
    {
        if fields[i].name == *name {
            assert(fields.deep_view()[i as int].name == name@);
            return true;
        }
        i += 1;
    }
    false
}

fn declares_field_with_other_type(fields: &Vec<Column>, column: &Column) -> (found: bool)
    ensures
        found == declares_with_other_type(fields.deep_view(), column@),
{
    let mut i: usize = 0;
    while i < fields.len()
        invariant
            i <= fields.len(),
            forall|j: int|
                0 <= j < i ==> !((#[trigger] fields.deep_view()[j]).name == column@.name
                    && fields.deep_view()[j].declared_type != column@.declared_type),
        decreases fields.len() - i,
    {
        if fields[i].name == column.name && fields[i].declared_type != column.declared_type {
            assert(fields.deep_view()[i as int].name == column@.name);
            return true;
        }
        i += 1;
    }
    false
}

fn same_index(a: &IndexDescriptor, b: &IndexDescriptor) -> (same: bool)
    ensures
        same == (a@ == b@),
{
    a.name == b.name && same_names(&a.columns, &b.columns)
}

fn lists_index(indexes: &Vec<IndexDescriptor>, index: &IndexDescriptor) -> (found: bool)
    ensures
        found == indexes.deep_view().to_set().contains(index@),
{
    let mut i: usize = 0;
    while i < indexes.len()
        invariant
            i <= indexes.len(),
            forall|j: int| 0 <= j < i ==> #[trigger] indexes.deep_view()[j] != index@,
        decreases indexes.len() - i,
    {
        if same_index(&indexes[i], index) {
            assert(indexes.deep_view()[i as int] == index@);
            return true;
        }
        i += 1;
    }
    false
}

fn copy_names(names: &Vec<String>) -> (copy: Vec<String>)
    ensures
        copy.deep_view() == names.deep_view(),
{
    let mut copy: Vec<String> = Vec::new();
    let mut i: usize = 0;
    while i < names.len()
        invariant
            i <= names.len(),
            copy.len() == i,
            forall|j: int| 0 <= j < i ==> copy[j]@ == names[j]@,
        decreases names.len() - i,
    {
        copy.push(names[i].clone());
        i += 1;
    }
    assert(copy.deep_view() =~= names.deep_view());
    copy
}

fn copy_column(column: &Column) -> (copy: Column)
    ensures
        copy@ == column@,
{
    Column { name: column.name.clone(), declared_type: column.declared_type.clone() }
}

fn copy_columns(columns: &Vec<Column>) -> (copy: Vec<Column>)
    ensures
        copy.deep_view() == columns.deep_view(),
{
    let mut copy: Vec<Column> = Vec::new();
    let mut i: usize = 0;
    while i < columns.len()
        invariant
            i <= columns.len(),
            copy.len() == i,
            forall|j: int| 0 <= j < i ==> copy[j]@ == columns[j]@,
        decreases columns.len() - i,
    {
        copy.push(copy_column(&columns[i]));
        i += 1;
    }
    assert(copy.deep_view() =~= columns.deep_view());
    copy
}

fn copy_index(index: &IndexDescriptor) -> (copy: IndexDescriptor)
    ensures
        copy@ == index@,
{
    IndexDescriptor { name: index.name.clone(), columns: copy_names(&index.columns) }
}

fn copy_indexes(indexes: &Vec<IndexDescriptor>) -> (copy: Vec<IndexDescriptor>)
    ensures
        copy.deep_view() == indexes.deep_view(),
{
    let mut copy: Vec<IndexDescriptor> = Vec::new();
    let mut i: usize = 0;
    while i < indexes.len()
        invariant
            i <= indexes.len(),
            copy.len() == i,
            forall|j: int| 0 <= j < i ==> copy[j]@ == indexes[j]@,
        decreases indexes.len() - i,
    {
        copy.push(copy_index(&indexes[i]));
        i += 1;
    }
    assert(copy.deep_view() =~= indexes.deep_view());
    copy
}

fn columns_missing_from(fields: &Vec<Column>, other: &Vec<Column>) -> (missing: Vec<Column>)
    ensures
        missing.deep_view() == fields_missing_from(fields.deep_view(), other.deep_view()),
{
    let mut missing: Vec<Column> = Vec::new();
    let mut i: usize = 0;
    proof {
        reveal(Seq::filter);
        assert(missing.deep_view() =~= Seq::<ColumnView>::empty());
        assert(fields.deep_view().take(0) =~= Seq::<ColumnView>::empty());
    }
    while i < fields.len()
        invariant
            i <= fields.len(),
            missing.deep_view() == fields_missing_from(
                fields.deep_view().take(i as int),
                other.deep_view(),
            ),
        decreases fields.len() - i,
    {
        let ghost before = missing.deep_view();
        proof {
            lemma_missing_step(fields.deep_view(), other.deep_view(), i as int);
        }
        if !declares_field(other, &fields[i].name) {
            missing.push(copy_column(&fields[i]));
            assert(missing.deep_view() =~= before.push(fields.deep_view()[i as int]));
        }
        i += 1;
    }
    assert(fields.deep_view().take(fields.len() as int) =~= fields.deep_view());
    missing
}

fn columns_retyped_from(fields: &Vec<Column>, other: &Vec<Column>) -> (retyped: Vec<Column>)
    ensures
        retyped.deep_view() == fields_retyped_from(fields.deep_view(), other.deep_view()),
{
    let mut retyped: Vec<Column> = Vec::new();
    let mut i: usize = 0;
    proof {
        reveal(Seq::filter);
        assert(retyped.deep_view() =~= Seq::<ColumnView>::empty());
        assert(fields.deep_view().take(0) =~= Seq::<ColumnView>::empty());
    }
    while i < fields.len()
        invariant
            i <= fields.len(),
            retyped.deep_view() == fields_retyped_from(
                fields.deep_view().take(i as int),
                other.deep_view(),
            ),
        decreases fields.len() - i,
    {
        let ghost before = retyped.deep_view();
        proof {
            lemma_retyped_step(fields.deep_view(), other.deep_view(), i as int);
        }
        if declares_field_with_other_type(other, &fields[i]) {
            retyped.push(copy_column(&fields[i]));
            assert(retyped.deep_view() =~= before.push(fields.deep_view()[i as int]));
        }
        i += 1;
    }
    assert(fields.deep_view().take(fields.len() as int) =~= fields.deep_view());
    retyped
}

fn indexes_missing_from(indexes: &Vec<IndexDescriptor>, other: &Vec<IndexDescriptor>) -> (missing:
    Vec<IndexDescriptor>)
    ensures
        missing.deep_view().to_set() == indexes.deep_view().to_set().difference(
            other.deep_view().to_set(),
        ),
{
    let mut missing: Vec<IndexDescriptor> = Vec::new();
    let mut i: usize = 0;
    proof {
        assert(missing.deep_view() =~= Seq::<IndexView>::empty());
        assert(indexes.deep_view().take(0) =~= Seq::<IndexView>::empty());
        assert(missing.deep_view().to_set() =~= indexes.deep_view().take(0).to_set().difference(
            other.deep_view().to_set(),
        ));
    }
    while i < indexes.len()
        invariant
            i <= indexes.len(),
            missing.deep_view().to_set() == indexes.deep_view().take(i as int).to_set().difference(
                other.deep_view().to_set(),
            ),
        decreases indexes.len() - i,
    {
        let ghost before = missing.deep_view();
        let ghost seen = indexes.deep_view().take(i as int);
        let ghost item = indexes.deep_view()[i as int];
        proof {
            assert(indexes.deep_view().take(i + 1) =~= seen.push(item));
            seen.lemma_push_to_set_commute(item);
        }
        if !lists_index(other, &indexes[i]) {
            missing.push(copy_index(&indexes[i]));
            proof {
                assert(missing.deep_view() =~= before.push(item));
                before.lemma_push_to_set_commute(item);
                assert(missing.deep_view().to_set() =~= seen.push(item).to_set().difference(
                    other.deep_view().to_set(),
                ));
            }
        } else {
            assert(missing.deep_view().to_set() =~= seen.push(item).to_set().difference(
                other.deep_view().to_set(),
            ));
        }
        i += 1;
    }
    assert(indexes.deep_view().take(indexes.len() as int) =~= indexes.deep_view());
    missing
}

fn holds_any(indexes: &Vec<IndexDescriptor>) -> (any: bool)
    ensures
        any == holds_index(indexes.deep_view().to_set()),
{
    if indexes.len() > 0 {
        assert(indexes.deep_view().to_set().contains(indexes.deep_view()[0]));
        true
    } else {
        false
    }
}

/// The comparison of the two snapshots of a context, computed once.
#[derive(Debug)]
pub struct SchemaDiff {
    pub is_first_migration: bool,
    pub new_fields: Vec<Column>,
    pub removed_fields: Vec<Column>,
    pub retyped_fields: Vec<Column>,
    pub partition_key_changed: bool,
    pub clustering_key_changed: bool,
    pub new_global_indexes: Vec<IndexDescriptor>,
    pub new_local_indexes: Vec<IndexDescriptor>,
    pub removed_global_indexes: Vec<IndexDescriptor>,
    pub removed_local_indexes: Vec<IndexDescriptor>,
}

impl View for SchemaDiff {
    type V = DiffView;

    open spec fn view(&self) -> DiffView {
        DiffView {
            is_first_migration: self.is_first_migration,
            new_fields: self.new_fields.deep_view(),
            removed_fields: self.removed_fields.deep_view(),
            retyped_fields: self.retyped_fields.deep_view(),
            partition_key_changed: self.partition_key_changed,
            clustering_key_changed: self.clustering_key_changed,
            new_global_indexes: self.new_global_indexes.deep_view().to_set(),
            new_local_indexes: self.new_local_indexes.deep_view().to_set(),
            removed_global_indexes: self.removed_global_indexes.deep_view().to_set(),
            removed_local_indexes: self.removed_local_indexes.deep_view().to_set(),
        }
    }
}

impl SchemaDiff {
    /// Compares the live snapshot of `context` with its declared one.
    pub fn new(context: &MigrationContext) -> (diff: SchemaDiff)
        ensures
            diff@ == diff_of(context@),
    {
        let target = &context.target;
        let diff = match &context.current {
            Some(current) => SchemaDiff {
                is_first_migration: false,
                new_fields: columns_missing_from(&target.fields, &current.fields),
                removed_fields: columns_missing_from(&current.fields, &target.fields),
                retyped_fields: columns_retyped_from(&target.fields, &current.fields),
                partition_key_changed: !same_names(&current.partition_key, &target.partition_key),
                clustering_key_changed: !same_names(
                    &current.clustering_key,
                    &target.clustering_key,
                ),
                new_global_indexes: indexes_missing_from(
                    &target.global_indexes,
                    &current.global_indexes,
                ),
                new_local_indexes: indexes_missing_from(
                    &target.local_indexes,
                    &current.local_indexes,
                ),
                removed_global_indexes: indexes_missing_from(
                    &current.global_indexes,
                    &target.global_indexes,
                ),
                removed_local_indexes: indexes_missing_from(
                    &current.local_indexes,
                    &target.local_indexes,
                ),
            },
            None => SchemaDiff {
                is_first_migration: true,
                new_fields: copy_columns(&target.fields),
                removed_fields: Vec::new(),
                retyped_fields: Vec::new(),
                partition_key_changed: false,
                clustering_key_changed: false,
                new_global_indexes: copy_indexes(&target.global_indexes),
                new_local_indexes: copy_indexes(&target.local_indexes),
                removed_global_indexes: Vec::new(),
                removed_local_indexes: Vec::new(),
            },
        };
        assert(diff@ =~= diff_of(context@));
        diff
    }

    /// Whether the object does not exist in the database yet.
    pub fn is_first_migration(&self) -> (first: bool)
        ensures
            first == self@.is_first_migration,
    {
        self.is_first_migration
    }

    /// Whether the declaration holds a field that the live object lacks.
    pub fn has_new_fields(&self) -> (any: bool)
        ensures
            any == self@.has_new_fields(),
    {
        self.new_fields.len() > 0
    }

    /// Whether the live object holds a field that is no longer declared.
    pub fn has_removed_fields(&self) -> (any: bool)
        ensures
            any == self@.has_removed_fields(),
    {
        self.removed_fields.len() > 0
    }

    /// Whether a field is declared with another type than it has in the
    /// database.
    pub fn has_changed_type_fields(&self) -> (any: bool)
        ensures
            any == self@.has_changed_type_fields(),
    {
        self.retyped_fields.len() > 0
    }

    /// Whether the partition key differs, in content or in order.
    pub fn partition_key_changed(&self) -> (changed: bool)
        ensures
            changed == self@.partition_key_changed,
    {
        self.partition_key_changed
    }

    /// Whether the clustering key differs, in content or in order.
    pub fn clustering_key_changed(&self) -> (changed: bool)
        ensures
            changed == self@.clustering_key_changed,
    {
        self.clustering_key_changed
    }

    /// Whether a global index is declared that the live object lacks.
    pub fn has_new_global_secondary_indexes(&self) -> (any: bool)
        ensures
            any == self@.has_new_global_secondary_indexes(),
    {
        holds_any(&self.new_global_indexes)
    }

    /// Whether a local index is declared that the live object lacks.
    pub fn has_new_local_secondary_indexes(&self) -> (any: bool)
        ensures
            any == self@.has_new_local_secondary_indexes(),
    {
        holds_any(&self.new_local_indexes)
    }

    /// Whether the live object has a global index that is no longer declared.
    pub fn has_removed_global_secondary_indexes(&self) -> (any: bool)
        ensures
            any == self@.has_removed_global_secondary_indexes(),
    {
        holds_any(&self.removed_global_indexes)
    }

    /// Whether the live object has a local index that is no longer declared.
    pub fn has_removed_local_secondary_indexes(&self) -> (any: bool)
        ensures
            any == self@.has_removed_local_secondary_indexes(),
    {
        holds_any(&self.removed_local_indexes)
    }
}

} // verus!
