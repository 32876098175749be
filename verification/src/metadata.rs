//! The per-query registry of tables and columns.
//!
//! Every column that a plan can name has an entry here, and the position of
//! the entry is the column's index. Entries are only ever added: an index,
//! once handed out, names the same column for the rest of the compilation.

use crate::columns::{ColumnSet};
use crate::types::{DataType};
use vstd::prelude::*;

verus! {

/// What the registry knows of a column.
#[derive(Debug, PartialEq, Eq)]
pub enum ColumnEntry {
    /// A column of a table.
    BaseTableColumn { table_index: usize, column_name: String, data_type: DataType },
    /// A column that an operator computes.
    DerivedColumn { alias: String, data_type: DataType },
    /// A column that the storage layer adds to a table.
    InternalColumn { table_index: usize, column_name: String, data_type: DataType },
}

/// The view of a column entry.
pub ghost enum ColumnEntryView {
    BaseTableColumn { table_index: usize, column_name: Seq<char>, data_type: DataType },
    DerivedColumn { alias: Seq<char>, data_type: DataType },
    InternalColumn { table_index: usize, column_name: Seq<char>, data_type: DataType },
}

impl View for ColumnEntry {
    type V = ColumnEntryView;

    open spec fn view(&self) -> ColumnEntryView {
        match self {
            ColumnEntry::BaseTableColumn {
                table_index,
                column_name,
                data_type,
            } => ColumnEntryView::BaseTableColumn {
                table_index: *table_index,
                column_name: column_name@,
                data_type: *data_type,
            },
            ColumnEntry::DerivedColumn { alias, data_type } => ColumnEntryView::DerivedColumn {
                alias: alias@,
                data_type: *data_type,
            },
            ColumnEntry::InternalColumn {
                table_index,
                column_name,
                data_type,
            } => ColumnEntryView::InternalColumn {
                table_index: *table_index,
                column_name: column_name@,
                data_type: *data_type,
            },
        }
    }
}

/// The name under which a column is shown.
pub open spec fn entry_name(e: ColumnEntryView) -> Seq<char> {
    match e {
        ColumnEntryView::BaseTableColumn { column_name, .. } => column_name,
        ColumnEntryView::DerivedColumn { alias, .. } => alias,
        ColumnEntryView::InternalColumn { column_name, .. } => column_name,
    }
}

/// The type of a column.
pub open spec fn entry_type(e: ColumnEntryView) -> DataType {
    match e {
        ColumnEntryView::BaseTableColumn { data_type, .. } => data_type,
        ColumnEntryView::DerivedColumn { data_type, .. } => data_type,
        ColumnEntryView::InternalColumn { data_type, .. } => data_type,
    }
}

impl ColumnEntry {
    /// The name under which the column is shown.
    pub fn name(&self) -> (s: String)
        ensures
            s@ == entry_name(self@),
    {
        match self {
            ColumnEntry::BaseTableColumn { column_name, .. } => column_name.clone(),
            ColumnEntry::DerivedColumn { alias, .. } => alias.clone(),
            ColumnEntry::InternalColumn { column_name, .. } => column_name.clone(),
        }
    }

    /// The type of the column.
    pub fn data_type(&self) -> (t: DataType)
        ensures
            t == entry_type(self@),
    {
        match self {
            ColumnEntry::BaseTableColumn { data_type, .. } => data_type.clone(),
            ColumnEntry::DerivedColumn { data_type, .. } => data_type.clone(),
            ColumnEntry::InternalColumn { data_type, .. } => data_type.clone(),
        }
    }
}

/// What the registry knows of a table.
#[derive(Debug, PartialEq, Eq)]
pub struct TableEntry {
    pub catalog: String,
    pub database: String,
    pub name: String,
}

/// The view of a table entry.
pub ghost struct TableEntryView {
    pub catalog: Seq<char>,
    pub database: Seq<char>,
    pub name: Seq<char>,
}

impl View for TableEntry {
    type V = TableEntryView;

    open spec fn view(&self) -> TableEntryView {
        TableEntryView { catalog: self.catalog@, database: self.database@, name: self.name@ }
    }
}

/// The registry.
#[derive(Debug, PartialEq, Eq)]
pub struct Metadata {
    pub tables: Vec<TableEntry>,
    pub columns: Vec<ColumnEntry>,
}

/// The view of the registry.
pub ghost struct MetadataView {
    pub tables: Seq<TableEntryView>,
    pub columns: Seq<ColumnEntryView>,
}

impl View for Metadata {
    type V = MetadataView;

    open spec fn view(&self) -> MetadataView {
        MetadataView {
            tables: Seq::new(self.tables.len() as nat, |i: int| self.tables[i]@),
            columns: Seq::new(self.columns.len() as nat, |i: int| self.columns[i]@),
        }
    }
}

/// The registry after a derived column has been added.
pub open spec fn with_derived(m: MetadataView, alias: Seq<char>, data_type: DataType) -> MetadataView {
    MetadataView {
        tables: m.tables,
        columns: m.columns.push(ColumnEntryView::DerivedColumn { alias, data_type }),
    }
}

/// Whether entry `i` is a table column that `columns` names.
pub open spec fn owned_at(m: MetadataView, columns: Set<usize>, i: int) -> bool {
    &&& 0 <= i < m.columns.len()
    &&& i <= usize::MAX
    &&& m.columns[i] is BaseTableColumn
    &&& columns.contains(i as usize)
}

/// The table of the first table column that `columns` names, if it names
/// one.
pub open spec fn owning_table(m: MetadataView, columns: Set<usize>) -> Option<usize> {
    if exists|i: int| owned_at(m, columns, i) {
        let first = choose|i: int|
            owned_at(m, columns, i) && forall|j: int| 0 <= j < i ==> !owned_at(m, columns, j);
        Some(m.columns[first]->BaseTableColumn_table_index)
    } else {
        None
    }
}

impl Metadata {
    /// A registry without entries.
    pub fn new() -> (m: Metadata)
        ensures
            m@.tables.len() == 0,
            m@.columns.len() == 0,
    {
        Metadata { tables: Vec::new(), columns: Vec::new() }
    }

    /// The number of columns.
    pub fn column_count(&self) -> (n: usize)
        ensures
            n == self@.columns.len(),
    {
        self.columns.len()
    }

    /// The entry of column `index`, if there is one.
    pub fn column(&self, index: usize) -> (r: Option<&ColumnEntry>)
        ensures
            index < self@.columns.len() ==> r is Some && r->Some_0@ == self@.columns[index as int],
            index >= self@.columns.len() ==> r is None,
    {
        if index < self.columns.len() {
            Some(&self.columns[index])
        } else {
            None
        }
    }

    /// The entry of table `index`, if there is one.
    pub fn table(&self, index: usize) -> (r: Option<&TableEntry>)
        ensures
            index < self@.tables.len() ==> r is Some && r->Some_0@ == self@.tables[index as int],
            index >= self@.tables.len() ==> r is None,
    {
        if index < self.tables.len() {
            Some(&self.tables[index])
        } else {
            None
        }
    }

    /// Adds a table and gives its index.
    pub fn add_table(&mut self, catalog: String, database: String, name: String) -> (index: usize)
        ensures
            index == old(self)@.tables.len(),
            final(self)@.columns == old(self)@.columns,
            final(self)@.tables == old(self)@.tables.push(
                TableEntryView { catalog: catalog@, database: database@, name: name@ },
            ),
    {
        let index = self.tables.len();
        self.tables.push(TableEntry { catalog, database, name });
        assert(self@.columns =~= old(self)@.columns);
        assert(self@.tables =~= old(self)@.tables.push(
            TableEntryView { catalog: catalog@, database: database@, name: name@ },
        ));
        index
    }

    /// Adds a column of a table and gives its index.
    pub fn add_base_table_column(
        &mut self,
        column_name: String,
        data_type: DataType,
        table_index: usize,
    ) -> (index: usize)
        ensures
            index == old(self)@.columns.len(),
            final(self)@.tables == old(self)@.tables,
            final(self)@.columns == old(self)@.columns.push(
                ColumnEntryView::BaseTableColumn {
                    table_index,
                    column_name: column_name@,
                    data_type,
                },
            ),
    {
        let index = self.columns.len();
        self.columns.push(ColumnEntry::BaseTableColumn { table_index, column_name, data_type });
        assert(self@.tables =~= old(self)@.tables);
        assert(self@.columns =~= old(self)@.columns.push(
            ColumnEntryView::BaseTableColumn { table_index, column_name: column_name@, data_type },
        ));
        index
    }

    /// Adds an internal column of a table and gives its index.
    pub fn add_internal_column(
        &mut self,
        column_name: String,
        data_type: DataType,
        table_index: usize,
    ) -> (index: usize)
        ensures
            index == old(self)@.columns.len(),
            final(self)@.tables == old(self)@.tables,
            final(self)@.columns == old(self)@.columns.push(
                ColumnEntryView::InternalColumn {
                    table_index,
                    column_name: column_name@,
                    data_type,
                },
            ),
    {
        let index = self.columns.len();
        self.columns.push(ColumnEntry::InternalColumn { table_index, column_name, data_type });
        assert(self@.tables =~= old(self)@.tables);
        assert(self@.columns =~= old(self)@.columns.push(
            ColumnEntryView::InternalColumn { table_index, column_name: column_name@, data_type },
        ));
        index
    }

    /// Adds a column that an operator computes and gives its index: the
    /// number of columns before the call.
    pub fn add_derived_column(&mut self, alias: String, data_type: DataType) -> (index: usize)
        ensures
            index == old(self)@.columns.len(),
            final(self)@ == with_derived(old(self)@, alias@, data_type),
    {
        let index = self.columns.len();
        self.columns.push(ColumnEntry::DerivedColumn { alias, data_type });
        assert(self@.tables =~= old(self)@.tables);
        assert(self@.columns =~= old(self)@.columns.push(
            ColumnEntryView::DerivedColumn { alias: alias@, data_type },
        ));
        index
    }

    /// The table that owns the columns of `columns`: that of the first
    /// table column among them.
    pub fn table_index_by_column_indexes(&self, columns: &ColumnSet) -> (r: Option<usize>)
        ensures
            r == owning_table(self@, columns@),
    {
        let mut i: usize = 0;
        while i < self.columns.len()
            invariant
                i <= self.columns.len(),
                forall|j: int| 0 <= j < i ==> !owned_at(self@, columns@, j),
            decreases self.columns.len() - i,
        {
            if columns.contains(i) {
                if let ColumnEntry::BaseTableColumn { table_index, .. } = &self.columns[i] {
                    proof {
                        assert(owned_at(self@, columns@, i as int));
                        let first = choose|k: int|
                            owned_at(self@, columns@, k) && forall|j: int|
                                0 <= j < k ==> !owned_at(self@, columns@, j);
                        assert(first == i) by {
                            if first < i {
                                assert(!owned_at(self@, columns@, first));
                            }
                            if first > i {
                                assert(!owned_at(self@, columns@, i as int));
                            }
                        }
                    }
                    return Some(*table_index);
                }
            }
            i = i + 1;
        }
        None
    }
}

} // verus!
