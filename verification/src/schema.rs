//! The schema registry: static descriptions of tables, their columns, and
//! the join relationship between them.
//!
//! A table owns no data; it only describes the shape that rows of the store
//! must have. The entity mapper is proved to accept exactly the rows that
//! conform to the declared shape.

use vstd::prelude::*;

use crate::value::{Value, ValueModel};

verus! {

/// The SQL type a column is declared with.
#[derive(Debug, Clone, Copy, PartialEq, Eq, Structural)]
pub enum SqlType {
    Integer,
    Text,
}

/// One declared column: its name, type, and nullability.
#[derive(Debug)]
pub struct Column {
    pub name: String,
    pub ty: SqlType,
    pub nullable: bool,
}

/// The mathematical model of a [`Column`].
pub struct ColumnModel {
    pub name: Seq<char>,
    pub ty: SqlType,
    pub nullable: bool,
}

impl DeepView for Column {
    type V = ColumnModel;

    open spec fn deep_view(&self) -> ColumnModel {
        ColumnModel { name: self.name@, ty: self.ty, nullable: self.nullable }
    }
}

/// A declared table: its name and its ordered columns.
#[derive(Debug)]
pub struct Table {
    pub name: String,
    pub columns: Vec<Column>,
}

/// The mathematical model of a [`Table`].
pub struct TableModel {
    pub name: Seq<char>,
    pub columns: Seq<ColumnModel>,
}

impl DeepView for Table {
    type V = TableModel;

    open spec fn deep_view(&self) -> TableModel {
        TableModel { name: self.name@, columns: self.columns.deep_view() }
    }
}

/// A declared foreign key: the column at `fk_column` of the child table
/// references the column at `pk_column` of the parent table.
#[derive(Debug)]
pub struct Relationship {
    pub child: String,
    pub fk_column: usize,
    pub parent: String,
    pub pk_column: usize,
}

/// A cell fits a column when its type matches the column's declared type,
/// or the cell is NULL and the column is nullable.
pub open spec fn value_conforms(v: ValueModel, c: ColumnModel) -> bool {
    match v {
        ValueModel::Int(_) => c.ty == SqlType::Integer,
        ValueModel::Text(_) => c.ty == SqlType::Text,
        ValueModel::Null => c.nullable,
    }
}

/// A row fits a table when it has one cell per declared column, each
/// fitting its column.
pub open spec fn row_conforms(row: Seq<ValueModel>, t: TableModel) -> bool {
    &&& row.len() == t.columns.len()
    &&& forall|i: int| 0 <= i < row.len() ==> value_conforms(row[i], #[trigger] t.columns[i])
}

/// Checks one cell against one column.
pub fn check_value(v: &Value, c: &Column) -> (r: bool)
    ensures
        r == value_conforms(v.deep_view(), c.deep_view()),
{
    match v {
        Value::Int(_) => matches!(c.ty, SqlType::Integer),
        Value::Text(_) => matches!(c.ty, SqlType::Text),
        Value::Null => c.nullable,
    }
}

/// Checks a whole row against a table's declared shape.
pub fn check_row(row: &Vec<Value>, t: &Table) -> (r: bool)
    ensures
        r == row_conforms(row.deep_view(), t.deep_view()),
{
    if row.len() != t.columns.len() {
        return false;
    }
    let mut i: usize = 0;
    while i < row.len()
        invariant
            row.len() == t.columns.len(),
            i <= row.len(),
            forall|k: int|
                0 <= k < i ==> value_conforms(
                    row.deep_view()[k],
                    #[trigger] t.deep_view().columns[k],
                ),
        decreases row.len() - i,
    {
        if !check_value(&row[i], &t.columns[i]) {
            assert(!value_conforms(row.deep_view()[i as int], t.deep_view().columns[i as int]));
            return false;
        }
        i = i + 1;
    }
    true
}

/// Builds one column description.
pub fn column(name: &str, ty: SqlType, nullable: bool) -> (c: Column)
    ensures
        c.deep_view() == (ColumnModel { name: name@, ty, nullable }),
{
    Column { name: name.to_owned(), ty, nullable }
}

/// The shape the posts table is declared with when it carries no
/// association: `id`, `title`, and a nullable `body`.
pub open spec fn posts_table_model() -> TableModel {
    TableModel {
        name: "posts"@,
        columns: seq![
            ColumnModel { name: "id"@, ty: SqlType::Integer, nullable: false },
            ColumnModel { name: "title"@, ty: SqlType::Text, nullable: false },
            ColumnModel { name: "body"@, ty: SqlType::Text, nullable: true },
        ],
    }
}

/// Declares the posts table without an association.
pub fn posts_table() -> (t: Table)
    ensures
        t.deep_view() == posts_table_model(),
{
    let mut columns: Vec<Column> = Vec::new();
    columns.push(column("id", SqlType::Integer, false));
    columns.push(column("title", SqlType::Text, false));
    columns.push(column("body", SqlType::Text, true));
    let t = Table { name: "posts".to_owned(), columns };
    proof {
        assert(t.deep_view().columns =~= posts_table_model().columns);
    }
    t
}

/// The shape of the posts table once it references its owning user:
/// the same columns followed by a `user_id` foreign key.
pub open spec fn blog_posts_table_model() -> TableModel {
    TableModel {
        name: "posts"@,
        columns: seq![
            ColumnModel { name: "id"@, ty: SqlType::Integer, nullable: false },
            ColumnModel { name: "title"@, ty: SqlType::Text, nullable: false },
            ColumnModel { name: "body"@, ty: SqlType::Text, nullable: true },
            ColumnModel { name: "user_id"@, ty: SqlType::Integer, nullable: false },
        ],
    }
}

/// Declares the posts table with its `user_id` foreign key.
pub fn blog_posts_table() -> (t: Table)
    ensures
        t.deep_view() == blog_posts_table_model(),
{
    let mut columns: Vec<Column> = Vec::new();
    columns.push(column("id", SqlType::Integer, false));
    columns.push(column("title", SqlType::Text, false));
    columns.push(column("body", SqlType::Text, true));
    columns.push(column("user_id", SqlType::Integer, false));
    let t = Table { name: "posts".to_owned(), columns };
    proof {
        assert(t.deep_view().columns =~= blog_posts_table_model().columns);
    }
    t
}

/// The shape the users table is declared with: `id` and `name`.
pub open spec fn users_table_model() -> TableModel {
    TableModel {
        name: "users"@,
        columns: seq![
            ColumnModel { name: "id"@, ty: SqlType::Integer, nullable: false },
            ColumnModel { name: "name"@, ty: SqlType::Text, nullable: false },
        ],
    }
}

/// Declares the users table.
pub fn users_table() -> (t: Table)
    ensures
        t.deep_view() == users_table_model(),
{
    let mut columns: Vec<Column> = Vec::new();
    columns.push(column("id", SqlType::Integer, false));
    columns.push(column("name", SqlType::Text, false));
    let t = Table { name: "users".to_owned(), columns };
    proof {
        assert(t.deep_view().columns =~= users_table_model().columns);
    }
    t
}

/// Declares that `posts.user_id` references `users.id`, which permits the
/// two tables to be joined.
pub fn posts_users_relationship() -> (r: Relationship)
    ensures
        r.child@ == "posts"@,
        r.fk_column == 3,
        r.parent@ == "users"@,
        r.pk_column == 0,
{
    Relationship {
        child: "posts".to_owned(),
        fk_column: 3,
        parent: "users".to_owned(),
        pk_column: 0,
    }
}

} // verus!
