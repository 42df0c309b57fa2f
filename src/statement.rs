//! The SQL text of the schema and of the inserts, built from each kind's
//! ordered column list so that the columns and the bound values always agree.
use vstd::prelude::*;
use crate::record::{column_name, table_name, AppointmentKind, FIELD_COUNT};

verus! {

/// The first `n` columns of `kind`, each declared as required text, each
/// preceded by a comma.
pub open spec fn column_definitions(kind: AppointmentKind, n: nat) -> Seq<char>
    decreases n,
{
    if n == 0 {
        Seq::empty()
    } else {
        column_definitions(kind, (n - 1) as nat) + ", "@ + column_name(kind, n - 1)
            + " TEXT NOT NULL"@
    }
}

/// The first `n` columns of `kind`, separated by commas.
pub open spec fn column_list(kind: AppointmentKind, n: nat) -> Seq<char>
    decreases n,
{
    if n == 0 {
        Seq::empty()
    } else if n == 1 {
        column_name(kind, 0)
    } else {
        column_list(kind, (n - 1) as nat) + ", "@ + column_name(kind, n - 1)
    }
}

/// `n` positional parameters, separated by commas.
pub open spec fn placeholders(n: nat) -> Seq<char>
    decreases n,
{
    if n == 0 {
        Seq::empty()
    } else if n == 1 {
        "?"@
    } else {
        placeholders((n - 1) as nat) + ", ?"@
    }
}

/// The statement that creates `kind`'s table unless it exists: an
/// auto-incrementing integer key followed by every column as required text.
pub open spec fn create_table_sql(kind: AppointmentKind) -> Seq<char> {
    "CREATE TABLE IF NOT EXISTS "@ + table_name(kind) + " (id INTEGER PRIMARY KEY AUTOINCREMENT"@
        + column_definitions(kind, FIELD_COUNT as nat) + ")"@
}

/// The statement that inserts one record of `kind`, binding every column
/// positionally in column order.
pub open spec fn insert_sql(kind: AppointmentKind) -> Seq<char> {
    "INSERT INTO "@ + table_name(kind) + " ("@ + column_list(kind, FIELD_COUNT as nat)
        + ") VALUES ("@ + placeholders(FIELD_COUNT as nat) + ")"@
}

/// Builds the schema statement of `kind`'s table.
pub fn create_table_statement(kind: AppointmentKind) -> (r: String)
    ensures
        r@ == create_table_sql(kind),
{
    let mut s = String::new();
    s.append("CREATE TABLE IF NOT EXISTS ");
    s.append(kind.table());
    s.append(" (id INTEGER PRIMARY KEY AUTOINCREMENT");
    let ghost head = s@;
    let mut i: usize = 0;
    while i < FIELD_COUNT
        invariant
            i <= FIELD_COUNT,
            s@ == head + column_definitions(kind, i as nat),
        decreases FIELD_COUNT - i,
    {
        s.append(", ");
        s.append(kind.column(i));
        s.append(" TEXT NOT NULL");
        i = i + 1;
        assert(s@ =~= head + column_definitions(kind, i as nat));
    }
    s.append(")");
    assert(s@ =~= create_table_sql(kind));
    s
}

/// Builds the insert statement of `kind`'s table.
pub fn insert_statement(kind: AppointmentKind) -> (r: String)
    ensures
        r@ == insert_sql(kind),
{
    let mut cols = String::new();
    let mut marks = String::new();
    let mut i: usize = 0;
    while i < FIELD_COUNT
        invariant
            i <= FIELD_COUNT,
            cols@ == column_list(kind, i as nat),
            marks@ == placeholders(i as nat),
        decreases FIELD_COUNT - i,
    {
        if i == 0 {
            marks.append("?");
        } else {
            cols.append(", ");
            marks.append(", ?");
        }
        cols.append(kind.column(i));
        i = i + 1;
        assert(cols@ =~= column_list(kind, i as nat));
        assert(marks@ =~= placeholders(i as nat));
    }
    let mut s = String::new();
    s.append("INSERT INTO ");
    s.append(kind.table());
    s.append(" (");
    s.append(cols.as_str());
    s.append(") VALUES (");
    s.append(marks.as_str());
    s.append(")");
    assert(s@ =~= insert_sql(kind));
    s
}

} // verus!
