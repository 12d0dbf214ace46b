//! The to-do record and the SQL that lists it.

use vstd::prelude::*;
use uuid::Uuid;
use sea_query_binder::SqlxValues;
use crate::query_params::IndexQueryParams;
use crate::sql::{
    SqlParam, render_select, sqlx_params, quoted_list, select_columns, select_tables, select_new, select_from, select_column,
    select_set_offset, select_set_limit, build_postgres,
};

verus! {

#[verifier::external_type_specification]
#[verifier::external_body]
pub struct ExUuid(Uuid);

/// A stored to-do item.
pub struct Todo {
    pub id: Uuid,
    pub title: String,
    pub description: String,
    pub completed: bool,
}

/// The table of to-do items and its columns.
#[derive(Clone, Copy, Debug, PartialEq, Eq, Structural)]
pub enum TodoSchema {
    Table,
    Id,
    Title,
    Description,
    Completed,
}

/// The SQL identifier of each part of the schema.
pub open spec fn schema_name(part: TodoSchema) -> Seq<char> {
    match part {
        TodoSchema::Table => "todo"@,
        TodoSchema::Id => "id"@,
        TodoSchema::Title => "title"@,
        TodoSchema::Description => "description"@,
        TodoSchema::Completed => "completed"@,
    }
}

impl TodoSchema {
    /// The SQL identifier of this part of the schema.
    pub fn name(&self) -> (r: &'static str)
        ensures
            r@ == schema_name(*self),
    {
        match self {
            TodoSchema::Table => "todo",
            TodoSchema::Id => "id",
            TodoSchema::Title => "title",
            TodoSchema::Description => "description",
            TodoSchema::Completed => "completed",
        }
    }
}

/// The columns that the index selects, in order.
pub open spec fn todo_columns() -> Seq<Seq<char>> {
    seq![
        schema_name(TodoSchema::Id),
        schema_name(TodoSchema::Title),
        schema_name(TodoSchema::Description),
        schema_name(TodoSchema::Completed),
    ]
}

/// The text of the index query: every column of the table, one page.
pub open spec fn index_sql_text(limit: u64, offset: u64) -> Seq<char> {
    render_select(todo_columns(), seq![schema_name(TodoSchema::Table)], Some(limit), Some(offset))
}

impl Todo {
    /// The PostgreSQL query that lists one page of to-do items, with the
    /// limit and the offset bound as its two parameters.
    pub fn index_sql(query_params: &IndexQueryParams) -> (r: (String, SqlxValues))
        ensures
            r.0@ == index_sql_text(query_params.limit, query_params.offset),
            r.0@
                == "SELECT \"id\", \"title\", \"description\", \"completed\" FROM \"todo\" LIMIT $1 OFFSET $2"@,
            sqlx_params(r.1) == seq![
                SqlParam::BigUnsigned(query_params.limit),
                SqlParam::BigUnsigned(query_params.offset),
            ],
    {
        let mut query = select_new();
        select_from(&mut query, TodoSchema::Table.name());
        select_column(&mut query, TodoSchema::Id.name());
        select_column(&mut query, TodoSchema::Title.name());
        select_column(&mut query, TodoSchema::Description.name());
        select_column(&mut query, TodoSchema::Completed.name());
        select_set_offset(&mut query, query_params.offset);
        select_set_limit(&mut query, query_params.limit);
        assert(select_columns(query) =~= todo_columns());
        assert(select_tables(query) =~= seq![schema_name(TodoSchema::Table)]);
        let r = build_postgres(&query);
        assert(crate::sql::select_params(Some(query_params.limit), Some(query_params.offset))
            =~= seq![
            SqlParam::BigUnsigned(query_params.limit),
            SqlParam::BigUnsigned(query_params.offset),
        ]);
        proof {
            lemma_index_sql_text(query_params.limit, query_params.offset);
        }
        r
    }
}

/// The index query's text does not depend on the page asked for: the limit
/// and the offset only ever reach the statement as bound parameters.
pub proof fn lemma_index_sql_text_independent_of_page(l1: u64, o1: u64, l2: u64, o2: u64)
    ensures
        index_sql_text(l1, o1) == index_sql_text(l2, o2),
{
}

/// The index query is `SELECT "id", "title", "description", "completed"
/// FROM "todo" LIMIT $1 OFFSET $2`.
pub proof fn lemma_index_sql_text(limit: u64, offset: u64)
    ensures
        index_sql_text(limit, offset)
            == "SELECT \"id\", \"title\", \"description\", \"completed\" FROM \"todo\" LIMIT $1 OFFSET $2"@,
{
    reveal_strlit("todo");
    reveal_strlit("id");
    reveal_strlit("title");
    reveal_strlit("description");
    reveal_strlit("completed");
    reveal_strlit("SELECT ");
    reveal_strlit(", ");
    reveal_strlit(" FROM ");
    reveal_strlit(" LIMIT $1");
    reveal_strlit(" OFFSET $2");
    reveal_strlit(
        "SELECT \"id\", \"title\", \"description\", \"completed\" FROM \"todo\" LIMIT $1 OFFSET $2",
    );
    lemma_double_quotes_plain("todo"@);
    lemma_double_quotes_plain("id"@);
    lemma_double_quotes_plain("title"@);
    lemma_double_quotes_plain("description"@);
    lemma_double_quotes_plain("completed"@);
    let cols = todo_columns();
    let q = |s: Seq<char>| seq!['"'] + s + seq!['"'];
    assert(cols.drop_last().drop_last().drop_last() =~= seq!["id"@]);
    assert(quoted_list(seq!["id"@]) == q("id"@));
    assert(cols.drop_last().drop_last() =~= seq!["id"@, "title"@]);
    assert(seq!["id"@, "title"@].drop_last() =~= seq!["id"@]);
    assert(quoted_list(seq!["id"@, "title"@]) == q("id"@) + ", "@ + q("title"@));
    assert(cols.drop_last() =~= seq!["id"@, "title"@, "description"@]);
    assert(seq!["id"@, "title"@, "description"@].drop_last() =~= seq!["id"@, "title"@]);
    assert(quoted_list(seq!["id"@, "title"@, "description"@]) == q("id"@) + ", "@ + q("title"@)
        + ", "@ + q("description"@));
    assert(quoted_list(cols) == q("id"@) + ", "@ + q("title"@) + ", "@ + q("description"@) + ", "@
        + q("completed"@));
    assert(quoted_list(seq!["todo"@]) == q("todo"@));
    assert(index_sql_text(limit, offset)
        =~= "SELECT \"id\", \"title\", \"description\", \"completed\" FROM \"todo\" LIMIT $1 OFFSET $2"@);
}

/// Doubling quotes leaves a name without quotes as it is.
proof fn lemma_double_quotes_plain(s: Seq<char>)
    requires
        forall|i: int| 0 <= i < s.len() ==> s[i] != '"',
    ensures
        crate::sql::double_quotes(s) == s,
    decreases s.len(),
{
    if s.len() > 0 {
        lemma_double_quotes_plain(s.drop_first());
        assert(seq![s[0]] + s.drop_first() =~= s);
    }
}

} // verus!
