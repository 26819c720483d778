//! Builders of parameterised SQL statements with positional placeholders
//! (`$1`, `$2`, ...).
use vstd::prelude::*;
use crate::text::{append_decimal, decimal_text};

verus! {

/// The parts joined with `sep` between neighbours.
pub open spec fn join(parts: Seq<Seq<char>>, sep: Seq<char>) -> Seq<char>
    decreases parts.len(),
{
    if parts.len() == 0 {
        Seq::empty()
    } else if parts.len() == 1 {
        parts[0]
    } else {
        join(parts.drop_last(), sep) + sep + parts.last()
    }
}

/// The text of each name.
pub open spec fn texts(names: Seq<&str>) -> Seq<Seq<char>> {
    names.map_values(|c: &str| c@)
}

/// Placeholder number `k`: `$k`.
pub open spec fn placeholder(k: nat) -> Seq<char> {
    seq!['$'] + decimal_text(k)
}

/// Placeholders `$1` to `$n`.
pub open spec fn placeholders(n: nat) -> Seq<Seq<char>> {
    Seq::new(n, |i: int| placeholder((i + 1) as nat))
}

/// `column = $k`.
pub open spec fn assignment(column: Seq<char>, k: nat) -> Seq<char> {
    column + seq![' ', '=', ' '] + placeholder(k)
}

/// `c1 = $1`, `c2 = $2`, ... for the first `n` columns.
pub open spec fn assignments(columns: Seq<Seq<char>>, n: nat) -> Seq<Seq<char>> {
    Seq::new(n, |i: int| assignment(columns[i], (i + 1) as nat))
}

pub open spec fn comma() -> Seq<char> {
    seq![',', ' ']
}

pub open spec fn and_word() -> Seq<char> {
    seq![' ', 'A', 'N', 'D', ' ']
}

/// `INSERT INTO t (c1, c2) VALUES ($1, $2)`.
pub open spec fn insert_text(table: Seq<char>, columns: Seq<Seq<char>>) -> Seq<char> {
    "INSERT INTO "@ + table + seq![' ', '('] + join(columns, comma()) + ") VALUES ("@ + join(
        placeholders(columns.len()),
        comma(),
    ) + seq![')']
}

/// `UPDATE t SET c1 = $1, c2 = $2 WHERE key = $3`, the last column being
/// the key.
pub open spec fn update_text(table: Seq<char>, columns: Seq<Seq<char>>) -> Seq<char> {
    let n = columns.len();
    "UPDATE "@ + table + " SET "@ + join(assignments(columns, (n - 1) as nat), comma())
        + " WHERE "@ + assignment(columns[n - 1], n)
}

/// `c1 = $1 AND c2 = $2`, preceded by ` WHERE `, or nothing for no columns.
pub open spec fn where_text(columns: Seq<Seq<char>>) -> Seq<char> {
    if columns.len() == 0 {
        Seq::empty()
    } else {
        " WHERE "@ + join(assignments(columns, columns.len()), and_word())
    }
}

/// `SELECT * FROM t` with an optional filter on each column.
pub open spec fn fetch_text(table: Seq<char>, filters: Seq<Seq<char>>) -> Seq<char> {
    "SELECT * FROM "@ + table + where_text(filters)
}

/// `DELETE FROM t` with an optional filter on each column.
pub open spec fn delete_text(table: Seq<char>, columns: Seq<Seq<char>>) -> Seq<char> {
    "DELETE FROM "@ + table + where_text(columns)
}

proof fn lemma_join_step(parts: Seq<Seq<char>>, sep: Seq<char>, i: int)
    requires
        0 <= i < parts.len(),
    ensures
        join(parts.subrange(0, i + 1), sep) == if i == 0 {
            parts[0]
        } else {
            join(parts.subrange(0, i), sep) + sep + parts[i]
        },
{
    assert(parts.subrange(0, i + 1).drop_last() =~= parts.subrange(0, i));
}

fn append_placeholder(s: &mut String, k: usize)
    ensures
        final(s)@ == old(s)@ + placeholder(k as nat),
{
    proof {
        reveal_strlit("$");
    }
    s.append("$");
    append_decimal(s, k);
}

fn append_assignment(s: &mut String, column: &str, k: usize)
    ensures
        final(s)@ == old(s)@ + assignment(column@, k as nat),
{
    proof {
        reveal_strlit(" = ");
    }
    s.append(column);
    s.append(" = ");
    append_placeholder(s, k);
}

/// Appends `c1 = $1<sep>c2 = $2...` for the first `n` columns.
fn append_assignments(s: &mut String, columns: &[&str], n: usize, sep: &str)
    requires
        n <= columns.len(),
    ensures
        final(s)@ == old(s)@ + join(assignments(texts(columns@), n as nat), sep@),
{
    let ghost start = s@;
    let ghost parts = assignments(texts(columns@), n as nat);
    let mut i: usize = 0;
    while i < n
        invariant
            i <= n <= columns.len(),
            parts == assignments(texts(columns@), n as nat),
            s@ == start + join(parts.subrange(0, i as int), sep@),
        decreases n - i,
    {
        proof {
            lemma_join_step(parts, sep@, i as int);
        }
        if i > 0 {
            s.append(sep);
        }
        append_assignment(s, columns[i], i + 1);
        assert(s@ =~= start + join(parts.subrange(0, i + 1), sep@));
        i = i + 1;
    }
    assert(parts.subrange(0, n as int) =~= parts);
}

/// Builds statements from a table name and column names.
#[derive(Debug)]
pub struct SqlQueryBuilder;

impl SqlQueryBuilder {
    /// `INSERT INTO table (c1, c2, ...) VALUES ($1, $2, ...)`.
    pub fn prepare_insert_statement(table: &str, columns: &[&str]) -> (r: String)
        ensures
            r@ == insert_text(table@, texts(columns@)),
    {
        proof {
            reveal_strlit("INSERT INTO ");
            reveal_strlit(" (");
            reveal_strlit(", ");
            reveal_strlit(") VALUES (");
            reveal_strlit(")");
            assert(", "@ =~= comma());
        }
        let ghost names = texts(columns@);
        let mut s = String::from_str("INSERT INTO ");
        s.append(table);
        s.append(" (");
        let ghost head = s@;
        let mut i: usize = 0;
        while i < columns.len()
            invariant
                i <= columns.len(),
                names == texts(columns@),
                ", "@ == comma(),
                s@ == head + join(names.subrange(0, i as int), comma()),
            decreases columns.len() - i,
        {
            proof {
                lemma_join_step(names, comma(), i as int);
            }
            if i > 0 {
                s.append(", ");
            }
            s.append(columns[i]);
            assert(s@ =~= head + join(names.subrange(0, i + 1), comma()));
            i = i + 1;
        }
        assert(names.subrange(0, columns.len() as int) =~= names);
        s.append(") VALUES (");
        let ghost middle = s@;
        let ghost marks = placeholders(columns.len() as nat);
        let mut k: usize = 0;
        while k < columns.len()
            invariant
                k <= columns.len(),
                marks == placeholders(columns.len() as nat),
                ", "@ == comma(),
                s@ == middle + join(marks.subrange(0, k as int), comma()),
            decreases columns.len() - k,
        {
            proof {
                lemma_join_step(marks, comma(), k as int);
            }
            if k > 0 {
                s.append(", ");
            }
            append_placeholder(&mut s, k + 1);
            assert(s@ =~= middle + join(marks.subrange(0, k + 1), comma()));
            k = k + 1;
        }
        assert(marks.subrange(0, columns.len() as int) =~= marks);
        s.append(")");
        assert(s@ =~= insert_text(table@, texts(columns@)));
        s
    }

    /// `UPDATE table SET c1 = $1, ... WHERE key = $n`, where the last
    /// column is the key the row is selected by.
    pub fn prepare_update_statement(table: &str, columns: &[&str]) -> (r: String)
        requires
            columns.len() >= 1,
        ensures
            r@ == update_text(table@, texts(columns@)),
    {
        proof {
            reveal_strlit("UPDATE ");
            reveal_strlit(" SET ");
            reveal_strlit(", ");
            reveal_strlit(" WHERE ");
            assert(", "@ =~= comma());
        }
        let n = columns.len();
        let mut s = String::from_str("UPDATE ");
        s.append(table);
        s.append(" SET ");
        append_assignments(&mut s, columns, n - 1, ", ");
        s.append(" WHERE ");
        append_assignment(&mut s, columns[n - 1], n);
        assert(s@ =~= update_text(table@, texts(columns@)));
        s
    }

    /// `SELECT * FROM table`, filtered by `f1 = $1 AND f2 = $2 ...` when
    /// filters are given.
    pub fn prepare_fetch_statement(table: &str, filters: &[&str]) -> (r: String)
        ensures
            r@ == fetch_text(table@, texts(filters@)),
    {
        proof {
            reveal_strlit("SELECT * FROM ");
        }
        let mut s = String::from_str("SELECT * FROM ");
        s.append(table);
        let ghost head = s@;
        append_where(&mut s, filters);
        assert(s@ =~= fetch_text(table@, texts(filters@)));
        s
    }

    /// `DELETE FROM table`, filtered by `c1 = $1 AND c2 = $2 ...` when
    /// columns are given.
    pub fn prepare_delete_statement(table: &str, columns: &[&str]) -> (r: String)
        ensures
            r@ == delete_text(table@, texts(columns@)),
    {
        proof {
            reveal_strlit("DELETE FROM ");
        }
        let mut s = String::from_str("DELETE FROM ");
        s.append(table);
        append_where(&mut s, columns);
        assert(s@ =~= delete_text(table@, texts(columns@)));
        s
    }
}

fn append_where(s: &mut String, columns: &[&str])
    ensures
        final(s)@ == old(s)@ + where_text(texts(columns@)),
{
    proof {
        reveal_strlit(" WHERE ");
        reveal_strlit(" AND ");
        assert(" AND "@ =~= and_word());
    }
    let ghost start = s@;
    if columns.len() > 0 {
        s.append(" WHERE ");
        append_assignments(s, columns, columns.len(), " AND ");
        assert(s@ =~= start + where_text(texts(columns@)));
    } else {
        assert(start + where_text(texts(columns@)) =~= start);
    }
}

} // verus!
