//! The sample key-value record and the SQL statements that manage it.
//!
//! Each statement builder returns the SQL text and its parameters as plain
//! values; the host binds them through its database driver.

use vstd::prelude::*;

verus! {

/// One SQL statement parameter, as a plain value.
#[derive(Debug)]
pub enum SqlParam {
    Integer(i64),
    Text(String),
}

impl Clone for SqlParam {
    fn clone(&self) -> (r: SqlParam)
        ensures
            r == *self,
    {
        match self {
            SqlParam::Integer(v) => SqlParam::Integer(*v),
            SqlParam::Text(s) => SqlParam::Text(s.clone()),
        }
    }
}

/// One row of the sample table.
#[derive(Debug)]
pub struct SampleData {
    pub id: i64,
    pub name: String,
    pub age: i64,
}

impl Clone for SampleData {
    fn clone(&self) -> (r: SampleData)
        ensures
            r == *self,
    {
        SampleData { id: self.id, name: self.name.clone(), age: self.age }
    }
}

impl SampleData {
    /// The statement that creates the sample table.
    pub fn create_table_sql() -> (r: (&'static str, Vec<SqlParam>))
        ensures
            r.0@
                == "CREATE TABLE IF NOT EXISTS SampleData (id INTEGER PRIMARY KEY, name TEXT NOT NULL, age INTEGER NOT NULL);"@,
            r.1@.len() == 0,
    {
        (
            "CREATE TABLE IF NOT EXISTS SampleData (id INTEGER PRIMARY KEY, name TEXT NOT NULL, age INTEGER NOT NULL);",
            Vec::new(),
        )
    }

    /// The statement that inserts one row with the given name and age.
    pub fn insert(name: &str, age: i32) -> (r: (&'static str, Vec<SqlParam>))
        ensures
            r.0@ == "INSERT INTO SampleData (name, age) VALUES (?1, ?2);"@,
            r.1@.len() == 2,
            r.1@[0] matches SqlParam::Text(s) && s@ == name@,
            r.1@[1] == SqlParam::Integer(age as i64),
    {
        let mut params: Vec<SqlParam> = Vec::new();
        params.push(SqlParam::Text(String::from_str(name)));
        params.push(SqlParam::Integer(age as i64));
        ("INSERT INTO SampleData (name, age) VALUES (?1, ?2);", params)
    }

    /// The statement that reads every row.
    pub fn select_all() -> (r: (&'static str, Vec<SqlParam>))
        ensures
            r.0@ == "SELECT id, name, age FROM SampleData;"@,
            r.1@.len() == 0,
    {
        ("SELECT id, name, age FROM SampleData;", Vec::new())
    }

    /// The statement that reads the row with the given id.
    pub fn select_by_id(id: i64) -> (r: (&'static str, Vec<SqlParam>))
        ensures
            r.0@ == "SELECT id, name, age FROM SampleData WHERE id = ?1;"@,
            r.1@ =~= seq![SqlParam::Integer(id)],
    {
        let mut params: Vec<SqlParam> = Vec::new();
        params.push(SqlParam::Integer(id));
        ("SELECT id, name, age FROM SampleData WHERE id = ?1;", params)
    }

    /// The statement that deletes the row with the given id.
    pub fn delete_by_id(id: i64) -> (r: (&'static str, Vec<SqlParam>))
        ensures
            r.0@ == "DELETE FROM SampleData WHERE id = ?1;"@,
            r.1@ =~= seq![SqlParam::Integer(id)],
    {
        let mut params: Vec<SqlParam> = Vec::new();
        params.push(SqlParam::Integer(id));
        ("DELETE FROM SampleData WHERE id = ?1;", params)
    }

    /// The statement that deletes every row.
    pub fn delete_all() -> (r: (&'static str, Vec<SqlParam>))
        ensures
            r.0@ == "DELETE FROM SampleData;"@,
            r.1@.len() == 0,
    {
        ("DELETE FROM SampleData;", Vec::new())
    }
}

} // verus!
