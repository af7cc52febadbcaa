//! Qualified names of tables.

use vstd::prelude::*;
use vstd::std_specs::convert::FromSpecImpl;
use vstd::string::StringExecFns;

verus! {

/// The name of a table, with the schema and the catalog that hold it where
/// they are known. The parts are kept as they were given.
#[derive(Debug, PartialEq, Eq, Hash)]
pub enum TableReference {
    /// `table`
    Bare { table: String },
    /// `schema.table`
    Partial { schema: String, table: String },
    /// `catalog.schema.table`
    Full { catalog: String, schema: String, table: String },
}

/// The mathematical content of a [`TableReference`].
pub enum TableName {
    Bare { table: Seq<char> },
    Partial { schema: Seq<char>, table: Seq<char> },
    Full { catalog: Seq<char>, schema: Seq<char>, table: Seq<char> },
}

impl TableName {
    /// The name of the table itself.
    pub open spec fn table(self) -> Seq<char> {
        match self {
            TableName::Bare { table } => table,
            TableName::Partial { table, .. } => table,
            TableName::Full { table, .. } => table,
        }
    }

    /// The name of the schema, where the reference has one.
    pub open spec fn schema(self) -> Option<Seq<char>> {
        match self {
            TableName::Bare { .. } => None,
            TableName::Partial { schema, .. } => Some(schema),
            TableName::Full { schema, .. } => Some(schema),
        }
    }

    /// The name of the catalog, where the reference has one.
    pub open spec fn catalog(self) -> Option<Seq<char>> {
        match self {
            TableName::Full { catalog, .. } => Some(catalog),
            _ => None,
        }
    }

    /// The parts that are there, from the catalog to the table, joined by dots.
    pub open spec fn text(self) -> Seq<char> {
        match self {
            TableName::Bare { table } => table,
            TableName::Partial { schema, table } => schema + seq!['.'] + table,
            TableName::Full { catalog, schema, table } => catalog + seq!['.'] + schema + seq![
                '.',
            ] + table,
        }
    }
}

impl View for TableReference {
    type V = TableName;

    open spec fn view(&self) -> TableName {
        match self {
            TableReference::Bare { table } => TableName::Bare { table: table@ },
            TableReference::Partial { schema, table } => TableName::Partial {
                schema: schema@,
                table: table@,
            },
            TableReference::Full { catalog, schema, table } => TableName::Full {
                catalog: catalog@,
                schema: schema@,
                table: table@,
            },
        }
    }
}

impl Clone for TableReference {
    fn clone(&self) -> (copy: Self)
        ensures
            copy@ == self@,
    {
        match self {
            TableReference::Bare { table } => TableReference::Bare { table: table.clone() },
            TableReference::Partial { schema, table } => TableReference::Partial {
                schema: schema.clone(),
                table: table.clone(),
            },
            TableReference::Full { catalog, schema, table } => TableReference::Full {
                catalog: catalog.clone(),
                schema: schema.clone(),
                table: table.clone(),
            },
        }
    }
}

/// A table reference as it is handed across the language boundary.
#[derive(Debug, PartialEq, Eq, Hash)]
pub struct PyTableReference {
    pub table_reference: TableReference,
}

impl View for PyTableReference {
    type V = TableName;

    open spec fn view(&self) -> TableName {
        self.table_reference@
    }
}

impl Clone for PyTableReference {
    fn clone(&self) -> (copy: Self)
        ensures
            copy@ == self@,
    {
        PyTableReference { table_reference: self.table_reference.clone() }
    }
}

impl From<PyTableReference> for TableReference {
    fn from(py_table_reference: PyTableReference) -> (table_reference: TableReference) {
        py_table_reference.table_reference
    }
}

impl FromSpecImpl<PyTableReference> for TableReference {
    open spec fn obeys_from_spec() -> bool {
        true
    }

    open spec fn from_spec(py_table_reference: PyTableReference) -> TableReference {
        py_table_reference.table_reference
    }
}

impl From<TableReference> for PyTableReference {
    fn from(table_reference: TableReference) -> (py_table_reference: PyTableReference) {
        PyTableReference { table_reference }
    }
}

impl FromSpecImpl<TableReference> for PyTableReference {
    open spec fn obeys_from_spec() -> bool {
        true
    }

    open spec fn from_spec(table_reference: TableReference) -> PyTableReference {
        PyTableReference { table_reference }
    }
}

impl PyTableReference {
    /// Wraps a table reference.
    pub fn new(table_reference: TableReference) -> (wrapped: Self)
        ensures
            wrapped.table_reference == table_reference,
    {
        PyTableReference { table_reference }
    }

    /// A reference to a table by its name alone.
    pub fn bare(table: &str) -> (reference: Self)
        ensures
            reference@ == (TableName::Bare { table: table@ }),
    {
        Self::new(TableReference::Bare { table: table.to_owned() })
    }

    /// A reference to a table in a schema.
    pub fn partial(schema: &str, table: &str) -> (reference: Self)
        ensures
            reference@ == (TableName::Partial { schema: schema@, table: table@ }),
    {
        Self::new(TableReference::Partial { schema: schema.to_owned(), table: table.to_owned() })
    }

    /// A reference to a table in a schema of a catalog.
    pub fn full(catalog: &str, schema: &str, table: &str) -> (reference: Self)
        ensures
            reference@ == (TableName::Full { catalog: catalog@, schema: schema@, table: table@ }),
    {
        Self::new(
            TableReference::Full {
                catalog: catalog.to_owned(),
                schema: schema.to_owned(),
                table: table.to_owned(),
            },
        )
    }

    /// The name of the table, whatever qualifies it.
    pub fn table(&self) -> (name: &str)
        ensures
            name@ == self@.table(),
    {
        match &self.table_reference {
            TableReference::Bare { table } => table.as_str(),
            TableReference::Partial { table, .. } => table.as_str(),
            TableReference::Full { table, .. } => table.as_str(),
        }
    }

    /// The name of the schema, where the reference has one.
    pub fn schema(&self) -> (name: Option<&str>)
        ensures
            match name {
                Some(text) => self@.schema() == Some(text@),
                None => self@.schema() is None,
            },
    {
        match &self.table_reference {
            TableReference::Bare { .. } => None,
            TableReference::Partial { schema, .. } => Some(schema.as_str()),
            TableReference::Full { schema, .. } => Some(schema.as_str()),
        }
    }

    /// The name of the catalog, where the reference has one.
    pub fn catalog(&self) -> (name: Option<&str>)
        ensures
            match name {
                Some(text) => self@.catalog() == Some(text@),
                None => self@.catalog() is None,
            },
    {
        match &self.table_reference {
            TableReference::Full { catalog, .. } => Some(catalog.as_str()),
            _ => None,
        }
    }

    /// Whether the reference is the name of the table alone.
    pub fn is_bare(&self) -> (answer: bool)
        ensures
            answer == (self@ is Bare),
    {
        match &self.table_reference {
            TableReference::Bare { .. } => true,
            _ => false,
        }
    }

    /// Whether the reference names a schema and no catalog.
    pub fn is_partial(&self) -> (answer: bool)
        ensures
            answer == (self@ is Partial),
    {
        match &self.table_reference {
            TableReference::Partial { .. } => true,
            _ => false,
        }
    }

    /// Whether the reference names a catalog and a schema.
    pub fn is_full(&self) -> (answer: bool)
        ensures
            answer == (self@ is Full),
    {
        match &self.table_reference {
            TableReference::Full { .. } => true,
            _ => false,
        }
    }

    /// The reference as text: its parts, joined by dots.
    pub fn to_string(&self) -> (text: String)
        ensures
            text@ == self@.text(),
    {
        match &self.table_reference {
            TableReference::Bare { table } => table.clone(),
            TableReference::Partial { schema, table } => {
                let mut text = schema.clone();
                text.append(".");
                text.append(table.as_str());
                proof {
                    reveal_strlit(".");
                    assert("."@ =~= seq!['.']);
                }
                text
            },
            TableReference::Full { catalog, schema, table } => {
                let mut text = catalog.clone();
                text.append(".");
                text.append(schema.as_str());
                text.append(".");
                text.append(table.as_str());
                proof {
                    reveal_strlit(".");
                    assert("."@ =~= seq!['.']);
                }
                text
            },
        }
    }

    /// The reference as it shows in a debugger: `TableReference('` the
    /// text `')`.
    pub fn repr(&self) -> (text: String)
        ensures
            text@ == "TableReference('"@ + self@.text() + "')"@,
    {
        let mut text = "TableReference('".to_owned();
        let name = self.to_string();
        text.append(name.as_str());
        text.append("')");
        text
    }
}

} // verus!
