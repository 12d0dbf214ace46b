//! Building PostgreSQL `SELECT` statements with sea-query, and what the
//! rendered text and bound parameters are.

use vstd::prelude::*;
use sea_query::{Alias, PostgresQueryBuilder, Query, SelectStatement};
use sea_query_binder::{SqlxBinder, SqlxValues};

verus! {

#[verifier::external_type_specification]
#[verifier::external_body]
pub struct ExSelectStatement(SelectStatement);

#[verifier::external_type_specification]
#[verifier::external_body]
pub struct ExSqlxValues(SqlxValues);

/// A parameter bound to a placeholder of a built statement.
#[derive(PartialEq, Eq, Structural)]
pub enum SqlParam {
    /// `Value::BigUnsigned(Some(n))`.
    BigUnsigned(u64),
    /// Any other value.
    Other,
}

/// The names of the columns that `q` selects, in order.
pub uninterp spec fn select_columns(q: SelectStatement) -> Seq<Seq<char>>;

/// The names of the tables that `q` selects from, in order.
pub uninterp spec fn select_tables(q: SelectStatement) -> Seq<Seq<char>>;

/// The row limit of `q`, if one is set.
pub uninterp spec fn select_limit(q: SelectStatement) -> Option<u64>;

/// The row offset of `q`, if one is set.
pub uninterp spec fn select_offset(q: SelectStatement) -> Option<u64>;

/// `q` holds nothing but plain columns, plain tables, a limit and an offset
/// (no distinct, join, condition, grouping, union, ordering, lock or window).
pub uninterp spec fn select_is_plain(q: SelectStatement) -> bool;

/// The parameters that `v` binds, in placeholder order.
pub uninterp spec fn sqlx_params(v: SqlxValues) -> Seq<SqlParam>;

/// `s` with each `"` doubled.
pub open spec fn double_quotes(s: Seq<char>) -> Seq<char>
    decreases s.len(),
{
    if s.len() == 0 {
        Seq::empty()
    } else {
        (if s[0] == '"' {
            seq!['"', '"']
        } else {
            seq![s[0]]
        }) + double_quotes(s.drop_first())
    }
}

/// An identifier as PostgreSQL quotes it.
pub open spec fn quote_ident(s: Seq<char>) -> Seq<char> {
    seq!['"'] + double_quotes(s) + seq!['"']
}

/// Quoted identifiers separated by `, `.
pub open spec fn quoted_list(names: Seq<Seq<char>>) -> Seq<char>
    decreases names.len(),
{
    if names.len() == 0 {
        Seq::empty()
    } else if names.len() == 1 {
        quote_ident(names[0])
    } else {
        quoted_list(names.drop_last()) + ", "@ + quote_ident(names.last())
    }
}

/// The text of a plain select in PostgreSQL, with numbered placeholders for
/// the limit and the offset.
pub open spec fn render_select(
    columns: Seq<Seq<char>>,
    tables: Seq<Seq<char>>,
    limit: Option<u64>,
    offset: Option<u64>,
) -> Seq<char> {
    "SELECT "@ + quoted_list(columns) + (if tables.len() > 0 {
        " FROM "@ + quoted_list(tables)
    } else {
        Seq::empty()
    }) + (if limit is Some {
        " LIMIT $1"@
    } else {
        Seq::empty()
    }) + (match offset {
        Some(_) => if limit is Some {
            " OFFSET $2"@
        } else {
            " OFFSET $1"@
        },
        None => Seq::empty(),
    })
}

/// The parameters of a plain select: the limit, then the offset.
pub open spec fn select_params(limit: Option<u64>, offset: Option<u64>) -> Seq<SqlParam> {
    (match limit {
        Some(n) => seq![SqlParam::BigUnsigned(n)],
        None => Seq::empty(),
    }) + (match offset {
        Some(n) => seq![SqlParam::BigUnsigned(n)],
        None => Seq::empty(),
    })
}

/// `Query::select`: a new statement with nothing set.
#[verifier::external_body]
pub(crate) fn select_new() -> (q: SelectStatement)
    ensures
        select_columns(q) == Seq::<Seq<char>>::empty(),
        select_tables(q) == Seq::<Seq<char>>::empty(),
        select_limit(q) is None,
        select_offset(q) is None,
        select_is_plain(q),
{
    Query::select()
}

/// `SelectStatement::column` with `Alias::new(name)`: appends the column
/// `name` and leaves the rest as it was.
#[verifier::external_body]
pub(crate) fn select_column(q: &mut SelectStatement, name: &str)
    ensures
        select_columns(*final(q)) == select_columns(*old(q)).push(name@),
        select_tables(*final(q)) == select_tables(*old(q)),
        select_limit(*final(q)) == select_limit(*old(q)),
        select_offset(*final(q)) == select_offset(*old(q)),
        select_is_plain(*final(q)) == select_is_plain(*old(q)),
{
    q.column(Alias::new(name));
}

/// `SelectStatement::from` with `Alias::new(name)`: appends the table
/// `name` and leaves the rest as it was.
#[verifier::external_body]
pub(crate) fn select_from(q: &mut SelectStatement, name: &str)
    ensures
        select_tables(*final(q)) == select_tables(*old(q)).push(name@),
        select_columns(*final(q)) == select_columns(*old(q)),
        select_limit(*final(q)) == select_limit(*old(q)),
        select_offset(*final(q)) == select_offset(*old(q)),
        select_is_plain(*final(q)) == select_is_plain(*old(q)),
{
    q.from(Alias::new(name));
}

/// `SelectStatement::limit`: sets the limit and leaves the rest as it was.
#[verifier::external_body]
pub(crate) fn select_set_limit(q: &mut SelectStatement, limit: u64)
    ensures
        select_limit(*final(q)) == Some(limit),
        select_columns(*final(q)) == select_columns(*old(q)),
        select_tables(*final(q)) == select_tables(*old(q)),
        select_offset(*final(q)) == select_offset(*old(q)),
        select_is_plain(*final(q)) == select_is_plain(*old(q)),
{
    q.limit(limit);
}

/// `SelectStatement::offset`: sets the offset and leaves the rest as it was.
#[verifier::external_body]
pub(crate) fn select_set_offset(q: &mut SelectStatement, offset: u64)
    ensures
        select_offset(*final(q)) == Some(offset),
        select_columns(*final(q)) == select_columns(*old(q)),
        select_tables(*final(q)) == select_tables(*old(q)),
        select_limit(*final(q)) == select_limit(*old(q)),
        select_is_plain(*final(q)) == select_is_plain(*old(q)),
{
    q.offset(offset);
}

/// `SqlxBinder::build_sqlx` with `PostgresQueryBuilder`: for a plain
/// statement, the text is `SELECT`, the quoted columns, `FROM` and the quoted
/// tables, then `LIMIT` and `OFFSET` with numbered placeholders, and the
/// values are the limit and the offset in that order. Of other statements
/// nothing is stated.
#[verifier::external_body]
pub(crate) fn build_postgres(q: &SelectStatement) -> (r: (String, SqlxValues))
    ensures
        select_is_plain(*q) ==> r.0@ == render_select(
            select_columns(*q),
            select_tables(*q),
            select_limit(*q),
            select_offset(*q),
        ),
        select_is_plain(*q) ==> sqlx_params(r.1) == select_params(
            select_limit(*q),
            select_offset(*q),
        ),
{
    q.build_sqlx(PostgresQueryBuilder)
}

} // verus!
