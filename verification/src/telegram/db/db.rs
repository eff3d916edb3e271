//! Errors of the database layer, and the shape of a parametrised query.

use vstd::prelude::*;

verus! {

/// What can go wrong when reading or writing the database. The variants that
/// come from the database client and from JSON decoding carry that error's text.
pub enum DbError {
    Custom(String),
    DgraphError(String),
    SerdeJSONError(String),
}

/// The text that shows a database error: `[DB]: ` and the error's own text.
pub open spec fn db_error_text(e: DbError) -> Seq<char> {
    "[DB]: "@ + match e {
        DbError::Custom(s) => s@,
        DbError::DgraphError(s) => s@,
        DbError::SerdeJSONError(s) => s@,
    }
}

impl DbError {
    /// The message that shows this error to a person.
    pub fn message(&self) -> (s: String)
        ensures
            s@ == db_error_text(*self),
    {
        let mut out = String::from_str("[DB]: ");
        match self {
            DbError::Custom(inner) => out.append(inner.as_str()),
            DbError::DgraphError(inner) => out.append(inner.as_str()),
            DbError::SerdeJSONError(inner) => out.append(inner.as_str()),
        }
        out
    }
}

/// A query with its named variables, each a name and a value.
pub struct DbQuery {
    pub query: String,
    pub vars: Vec<(String, String)>,
}

/// Whether `q` is the query text `text` with exactly one variable, `name`, set to `value`.
pub open spec fn query_with_one_var(q: DbQuery, text: Seq<char>, name: Seq<char>, value: Seq<char>) -> bool {
    &&& q.query@ == text
    &&& q.vars@.len() == 1
    &&& q.vars@[0].0@ == name
    &&& q.vars@[0].1@ == value
}

/// The query text `text` with the one variable `name` set to `value`.
pub fn one_var_query(text: &str, name: &str, value: String) -> (q: DbQuery)
    ensures
        query_with_one_var(q, text@, name@, value@),
{
    let mut vars: Vec<(String, String)> = Vec::new();
    vars.push((String::from_str(name), value));
    DbQuery { query: String::from_str(text), vars }
}

/// The first of the records a query returned, or `missing` where it returned none.
pub fn first_found<T>(items: Vec<T>, missing: DbError) -> (r: Result<T, DbError>)
    ensures
        items@.len() == 0 ==> r == Err::<T, DbError>(missing),
        items@.len() > 0 ==> r == Ok::<T, DbError>(items@[0]),
{
    if items.len() < 1 {
        return Err(missing);
    }
    let mut items = items;
    Ok(items.swap_remove(0))
}

/// All the records a query returned, or `missing` where it returned none.
pub fn all_found<T>(items: Vec<T>, missing: DbError) -> (r: Result<Vec<T>, DbError>)
    ensures
        items@.len() == 0 ==> r == Err::<Vec<T>, DbError>(missing),
        items@.len() > 0 ==> r == Ok::<Vec<T>, DbError>(items),
{
    if items.len() < 1 {
        return Err(missing);
    }
    Ok(items)
}

} // verus!
