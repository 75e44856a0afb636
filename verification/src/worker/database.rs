//! The `INSERT` statements that the worker sends to PostgreSQL.

use vstd::prelude::*;

use crate::text::{decimal_spec, decimal_text};

verus! {

/// Why an insert was refused before it reached the database.
#[derive(Clone, Copy, Debug, PartialEq, Eq, Structural)]
pub enum InsertError {
    NoFields,
    CountMismatch,
}

impl InsertError {
    /// The message that the insert answers with.
    pub fn message(&self) -> (r: &'static str)
        ensures
            r@ == insert_error_message(*self),
    {
        match self {
            InsertError::NoFields => "No fields provided",
            InsertError::CountMismatch => "Field and value counts don't match",
        }
    }
}

/// The message of each refusal.
pub open spec fn insert_error_message(e: InsertError) -> Seq<char> {
    match e {
        InsertError::NoFields => "No fields provided"@,
        InsertError::CountMismatch => "Field and value counts don't match"@,
    }
}

/// The items one after the other, with `sep` between each two.
pub open spec fn joined(items: Seq<Seq<char>>, sep: Seq<char>) -> Seq<char>
    decreases items.len(),
{
    if items.len() == 0 {
        Seq::empty()
    } else if items.len() == 1 {
        items[0]
    } else {
        joined(items.drop_last(), sep) + sep + items.last()
    }
}

/// The numbered parameter `$k`.
pub open spec fn placeholder(k: nat) -> Seq<char> {
    "$"@ + decimal_spec(k)
}

/// The parameters `$1` to `$n`.
pub open spec fn placeholders(n: nat) -> Seq<Seq<char>> {
    Seq::new(n, |i: int| placeholder((i + 1) as nat))
}

/// The texts of the field names.
pub open spec fn field_texts(fields: Seq<&str>) -> Seq<Seq<char>> {
    fields.map_values(|f: &str| f@)
}

/// The statement that inserts one row of values for the fields into the table.
pub open spec fn insert_text(table: Seq<char>, fields: Seq<Seq<char>>) -> Seq<char> {
    "INSERT INTO "@ + table + " ("@ + joined(fields, ", "@) + ") VALUES ("@ + joined(
        placeholders(fields.len()),
        ", "@,
    ) + ")"@
}

fn join_fields(fields: &[&str]) -> (r: String)
    ensures
        r@ == joined(field_texts(fields@), ", "@),
{
    let mut r = String::new();
    let ghost items = field_texts(fields@);
    let mut i: usize = 0;
    while i < fields.len()
        invariant
            i <= fields.len(),
            items == field_texts(fields@),
            r@ == joined(items.take(i as int), ", "@),
        decreases fields.len() - i,
    {
        let ghost before = r@;
        if i > 0 {
            r.append(", ");
        }
        r.append(fields[i]);
        proof {
            let prefix = items.take(i + 1);
            assert(prefix.drop_last() =~= items.take(i as int));
            if i == 0 {
                assert(before =~= Seq::<char>::empty());
            }
        }
        i = i + 1;
    }
    assert(items.take(fields.len() as int) =~= items);
    r
}

fn join_placeholders(n: usize) -> (r: String)
    ensures
        r@ == joined(placeholders(n as nat), ", "@),
{
    let mut r = String::new();
    let mut i: usize = 0;
    while i < n
        invariant
            i <= n,
            r@ == joined(placeholders(i as nat), ", "@),
        decreases n - i,
    {
        let ghost before = r@;
        if i > 0 {
            r.append(", ");
        }
        r.append("$");
        let number = decimal_text((i + 1) as u64);
        r.append(number.as_str());
        proof {
            let next = placeholders((i + 1) as nat);
            assert(next.drop_last() =~= placeholders(i as nat));
            assert(next.last() == placeholder((i + 1) as nat));
            if i == 0 {
                assert(before =~= Seq::<char>::empty());
            }
        }
        i = i + 1;
    }
    r
}

/// Builds the statement that inserts one row into `table`, its values given as the
/// numbered parameters `$1`, `$2`, ... in the order of `fields`. Refused when no field
/// is named, or when the number of values is not the number of fields.
pub fn insert_statement(table: &str, fields: &[&str], value_count: usize) -> (r: Result<
    String,
    InsertError,
>)
    ensures
        fields@.len() == 0 ==> r == Err::<String, InsertError>(InsertError::NoFields),
        fields@.len() != 0 && fields@.len() != value_count ==> r == Err::<String, InsertError>(
            InsertError::CountMismatch,
        ),
        fields@.len() != 0 && fields@.len() == value_count ==> (r matches Ok(text) && text@
            == insert_text(table@, field_texts(fields@))),
{
    if fields.len() == 0 {
        return Err(InsertError::NoFields);
    }
    if fields.len() != value_count {
        return Err(InsertError::CountMismatch);
    }
    let mut query = String::from_str("INSERT INTO ");
    query.append(table);
    query.append(" (");
    let names = join_fields(fields);
    query.append(names.as_str());
    query.append(") VALUES (");
    let params = join_placeholders(fields.len());
    query.append(params.as_str());
    query.append(")");
    proof {
        assert(field_texts(fields@).len() == fields@.len());
        assert(query@ =~= insert_text(table@, field_texts(fields@)));
    }
    Ok(query)
}

} // verus!
