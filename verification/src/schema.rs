//! Point-in-time descriptions of database objects and their mathematical views.
//!
//! Every executable type here has a view made of `Seq`, `Set` and plain values.
//! Names are compared as sequences of characters; index collections are
//! modelled as sets, because the order in which indexes are declared carries no
//! meaning.

use vstd::prelude::*;

verus! {

/// The kind of database object a migration is about. The kind decides which
/// structural rules apply to it.
#[derive(Debug, Clone, Copy, PartialEq, Eq, Structural)]
pub enum MigrationObjectType {
    Udt,
    Table,
    MaterializedView,
}

impl MigrationObjectType {
    /// The human-readable name of the kind.
    pub open spec fn label(self) -> Seq<char> {
        match self {
            MigrationObjectType::Udt => "UDT"@,
            MigrationObjectType::Table => "Table"@,
            MigrationObjectType::MaterializedView => "Materialized View"@,
        }
    }

    /// Renders the kind as it appears in messages to the operator.
    pub fn to_string(&self) -> (text: String)
        ensures
            text@ == self.label(),
    {
        match self {
            MigrationObjectType::Udt => String::from_str("UDT"),
            MigrationObjectType::Table => String::from_str("Table"),
            MigrationObjectType::MaterializedView => String::from_str("Materialized View"),
        }
    }
}

/// One field of an object: its name and the type it is declared with. The
/// position of a column is its place in the sequence that holds it.
#[derive(Debug)]
pub struct Column {
    pub name: String,
    pub declared_type: String,
}

/// The mathematical value of a [`Column`].
pub struct ColumnView {
    pub name: Seq<char>,
    pub declared_type: Seq<char>,
}

impl View for Column {
    type V = ColumnView;

    open spec fn view(&self) -> ColumnView {
        ColumnView { name: self.name@, declared_type: self.declared_type@ }
    }
}

impl DeepView for Column {
    type V = ColumnView;

    open spec fn deep_view(&self) -> ColumnView {
        self@
    }
}

/// A secondary index. Two descriptors denote the same index exactly when their
/// names and their column lists agree.
#[derive(Debug)]
pub struct IndexDescriptor {
    pub name: String,
    pub columns: Vec<String>,
}

/// The mathematical value of an [`IndexDescriptor`]: its identity.
pub struct IndexView {
    pub name: Seq<char>,
    pub columns: Seq<Seq<char>>,
}

impl View for IndexDescriptor {
    type V = IndexView;

    open spec fn view(&self) -> IndexView {
        IndexView { name: self.name@, columns: self.columns.deep_view() }
    }
}

impl DeepView for IndexDescriptor {
    type V = IndexView;

    open spec fn deep_view(&self) -> IndexView {
        self@
    }
}

/// One table option, such as a compaction strategy, with its value.
#[derive(Debug)]
pub struct TableOption {
    pub name: String,
    pub value: String,
}

/// The mathematical value of a [`TableOption`].
pub struct TableOptionView {
    pub name: Seq<char>,
    pub value: Seq<char>,
}

impl View for TableOption {
    type V = TableOptionView;

    open spec fn view(&self) -> TableOptionView {
        TableOptionView { name: self.name@, value: self.value@ }
    }
}

impl DeepView for TableOption {
    type V = TableOptionView;

    open spec fn deep_view(&self) -> TableOptionView {
        self@
    }
}

/// The shape of one database object at one point in time.
#[derive(Debug)]
pub struct SchemaSnapshot {
    pub object_kind: MigrationObjectType,
    pub object_name: String,
    /// The fields, in declaration order.
    pub fields: Vec<Column>,
    /// The partition key columns, in key order.
    pub partition_key: Vec<String>,
    /// The clustering key columns, in key order.
    pub clustering_key: Vec<String>,
    /// The global secondary indexes; the order of the entries has no meaning.
    pub global_indexes: Vec<IndexDescriptor>,
    /// The local secondary indexes; the order of the entries has no meaning.
    pub local_indexes: Vec<IndexDescriptor>,
    pub table_options: Vec<TableOption>,
}

/// The mathematical value of a [`SchemaSnapshot`].
pub struct SnapshotView {
    pub object_kind: MigrationObjectType,
    pub object_name: Seq<char>,
    pub fields: Seq<ColumnView>,
    pub partition_key: Seq<Seq<char>>,
    pub clustering_key: Seq<Seq<char>>,
    pub global_indexes: Set<IndexView>,
    pub local_indexes: Set<IndexView>,
    pub table_options: Seq<TableOptionView>,
}

impl View for SchemaSnapshot {
    type V = SnapshotView;

    open spec fn view(&self) -> SnapshotView {
        SnapshotView {
            object_kind: self.object_kind,
            object_name: self.object_name@,
            fields: self.fields.deep_view(),
            partition_key: self.partition_key.deep_view(),
            clustering_key: self.clustering_key.deep_view(),
            global_indexes: self.global_indexes.deep_view().to_set(),
            local_indexes: self.local_indexes.deep_view().to_set(),
            table_options: self.table_options.deep_view(),
        }
    }
}

impl DeepView for SchemaSnapshot {
    type V = SnapshotView;

    open spec fn deep_view(&self) -> SnapshotView {
        self@
    }
}

/// What one migration run works on: the live shape of the object, if the
/// object exists yet, the declared shape it is to reach, and whether
/// destructive changes have been opted into.
#[derive(Debug)]
pub struct MigrationContext {
    /// The shape read from the database; `None` on the first migration.
    pub current: Option<SchemaSnapshot>,
    /// The declared shape.
    pub target: SchemaSnapshot,
    /// Whether a field may be dropped and recreated to change its type.
    pub drop_and_replace: bool,
}

/// The mathematical value of a [`MigrationContext`].
pub struct ContextView {
    pub current: Option<SnapshotView>,
    pub target: SnapshotView,
    pub drop_and_replace: bool,
}

impl View for MigrationContext {
    type V = ContextView;

    open spec fn view(&self) -> ContextView {
        ContextView {
            current: self.current.deep_view(),
            target: self.target@,
            drop_and_replace: self.drop_and_replace,
        }
    }
}

impl DeepView for MigrationContext {
    type V = ContextView;

    open spec fn deep_view(&self) -> ContextView {
        self@
    }
}

} // verus!
