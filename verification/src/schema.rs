//! Idempotent column migrations of the database schema: which columns a
//! database still lacks, and the statements that add them.
use vstd::prelude::*;

use crate::settings::owned;
use crate::text::{chars_of, extend_chars, str_equal, string_of};

verus! {

/// One column migration: `table` gains `column` with type and default `definition`.
pub struct ColumnMigration {
    pub table: String,
    pub column: String,
    pub definition: String,
}

/// The abstract value of a migration: `(table, column, definition)`.
pub open spec fn migration_view(m: ColumnMigration) -> (Seq<char>, Seq<char>, Seq<char>) {
    (m.table@, m.column@, m.definition@)
}

/// The views of a list of migrations.
pub open spec fn migrations_view(v: Seq<ColumnMigration>) -> Seq<(Seq<char>, Seq<char>, Seq<char>)> {
    Seq::new(v.len(), |i: int| migration_view(v[i]))
}

/// The column migrations, in the order they shipped.
pub open spec fn column_migrations_spec() -> Seq<(Seq<char>, Seq<char>, Seq<char>)> {
    seq![
        ("predefined_profiles"@, "profile_type"@, "TEXT NOT NULL DEFAULT 'gladiateur'"@),
        ("predefined_profiles"@, "category"@, "TEXT NOT NULL DEFAULT 'autres'"@),
        ("predefined_profiles"@, "initial_emotions"@, "TEXT"@),
        ("discussions"@, "discussion_mode"@, "TEXT NOT NULL DEFAULT 'debate'"@),
        ("discussions"@, "document_content"@, "TEXT NOT NULL DEFAULT ''"@),
        ("discussions"@, "document_format"@, "TEXT NOT NULL DEFAULT 'none'"@),
        ("discussions"@, "argument_map_md"@, "TEXT NOT NULL DEFAULT ''"@),
        ("discussions"@, "argument_map_md_by_speaker"@, "TEXT NOT NULL DEFAULT ''"@),
        ("discussions"@, "llm_provider"@, "TEXT NOT NULL DEFAULT 'ollama'"@),
        ("discussions"@, "usage_json"@, "TEXT NOT NULL DEFAULT '{}'"@),
        ("discussions"@, "estimated_cost_usd"@, "REAL NOT NULL DEFAULT 0"@),
        ("discussions"@, "argument_map_json"@, "TEXT NOT NULL DEFAULT ''"@),
        ("discussions"@, "report_json"@, "TEXT NOT NULL DEFAULT ''"@),
        ("discussions"@, "tags"@, "TEXT NOT NULL DEFAULT '[]'"@),
        ("discussions"@, "favorite"@, "INTEGER NOT NULL DEFAULT 0"@),
        ("discussion_messages"@, "thought_kind"@, "TEXT NOT NULL DEFAULT 'persona'"@),
        ("discussion_messages"@, "kind"@, "TEXT NOT NULL DEFAULT 'normal'"@),
    ]
}

/// One migration.
fn migration(table: &str, column: &str, definition: &str) -> (r: ColumnMigration)
    ensures
        migration_view(r) == (table@, column@, definition@),
{
    ColumnMigration { table: owned(table), column: owned(column), definition: owned(definition) }
}

/// Idempotent column migrations, in the order they shipped: `(table, column, type + default)`.
pub fn column_migrations() -> (r: Vec<ColumnMigration>)
    ensures
        migrations_view(r@) == column_migrations_spec(),
{
    let mut v: Vec<ColumnMigration> = Vec::new();
    v.push(migration("predefined_profiles", "profile_type", "TEXT NOT NULL DEFAULT 'gladiateur'"));
    v.push(migration("predefined_profiles", "category", "TEXT NOT NULL DEFAULT 'autres'"));
    v.push(migration("predefined_profiles", "initial_emotions", "TEXT"));
    v.push(migration("discussions", "discussion_mode", "TEXT NOT NULL DEFAULT 'debate'"));
    v.push(migration("discussions", "document_content", "TEXT NOT NULL DEFAULT ''"));
    v.push(migration("discussions", "document_format", "TEXT NOT NULL DEFAULT 'none'"));
    v.push(migration("discussions", "argument_map_md", "TEXT NOT NULL DEFAULT ''"));
    v.push(migration("discussions", "argument_map_md_by_speaker", "TEXT NOT NULL DEFAULT ''"));
    v.push(migration("discussions", "llm_provider", "TEXT NOT NULL DEFAULT 'ollama'"));
    v.push(migration("discussions", "usage_json", "TEXT NOT NULL DEFAULT '{}'"));
    v.push(migration("discussions", "estimated_cost_usd", "REAL NOT NULL DEFAULT 0"));
    v.push(migration("discussions", "argument_map_json", "TEXT NOT NULL DEFAULT ''"));
    v.push(migration("discussions", "report_json", "TEXT NOT NULL DEFAULT ''"));
    v.push(migration("discussions", "tags", "TEXT NOT NULL DEFAULT '[]'"));
    v.push(migration("discussions", "favorite", "INTEGER NOT NULL DEFAULT 0"));
    v.push(migration("discussion_messages", "thought_kind", "TEXT NOT NULL DEFAULT 'persona'"));
    v.push(migration("discussion_messages", "kind", "TEXT NOT NULL DEFAULT 'normal'"));
    proof {
        assert(migrations_view(v@) =~= column_migrations_spec());
    }
    v
}

/// The views of a list of `(table, column)` pairs.
pub open spec fn columns_view(v: Seq<(String, String)>) -> Seq<(Seq<char>, Seq<char>)> {
    Seq::new(v.len(), |i: int| (v[i].0@, v[i].1@))
}

/// The migrations of `ms` whose column is not among the `present` `(table, column)` pairs.
pub open spec fn pending(
    ms: Seq<(Seq<char>, Seq<char>, Seq<char>)>,
    present: Seq<(Seq<char>, Seq<char>)>,
) -> Seq<(Seq<char>, Seq<char>, Seq<char>)>
    decreases ms.len(),
{
    if ms.len() == 0 {
        seq![]
    } else {
        let prev = pending(ms.drop_last(), present);
        let m = ms.last();
        if present.contains((m.0, m.1)) {
            prev
        } else {
            prev.push(m)
        }
    }
}

/// The `(table, column)` pairs a list of migrations adds.
pub open spec fn added_columns(ms: Seq<(Seq<char>, Seq<char>, Seq<char>)>) -> Seq<(Seq<char>, Seq<char>)> {
    Seq::new(ms.len(), |i: int| (ms[i].0, ms[i].1))
}

/// Whether `table` already has `column`, given the columns of `table`.
pub fn has_column(columns: &Vec<String>, column: &str) -> (r: bool)
    ensures
        r == exists|i: int| 0 <= i < columns@.len() && columns@[i]@ == column@,
{
    let mut i: usize = 0;
    while i < columns.len()
        invariant
            i <= columns.len(),
            forall|k: int| 0 <= k < i ==> columns@[k]@ != column@,
        decreases columns.len() - i,
    {
        if str_equal(columns[i].as_str(), column) {
            return true;
        }
        i += 1;
    }
    false
}

/// Whether the pair `(table, column)` is among `present`.
fn has_pair(present: &Vec<(String, String)>, table: &str, column: &str) -> (r: bool)
    ensures
        r == columns_view(present@).contains((table@, column@)),
{
    let mut i: usize = 0;
    while i < present.len()
        invariant
            i <= present.len(),
            forall|k: int| 0 <= k < i ==> columns_view(present@)[k] != (table@, column@),
        decreases present.len() - i,
    {
        if str_equal(present[i].0.as_str(), table) && str_equal(present[i].1.as_str(), column) {
            proof {
                assert(columns_view(present@)[i as int] == (table@, column@));
            }
            return true;
        }
        i += 1;
    }
    false
}

/// The column migrations still to run on a database whose existing columns
/// are the `(table, column)` pairs `present`, in shipping order.
pub fn pending_migrations(present: &Vec<(String, String)>) -> (r: Vec<ColumnMigration>)
    ensures
        migrations_view(r@) == pending(column_migrations_spec(), columns_view(present@)),
{
    let all = column_migrations();
    let ghost ms = migrations_view(all@);
    let mut all = all;
    let mut rev: Vec<ColumnMigration> = Vec::new();
    while all.len() > 0
        invariant
            migrations_view(all@) == ms.take(all@.len() as int),
            all@.len() + rev@.len() == ms.len(),
            forall|q: int| 0 <= q < rev@.len() ==> #[trigger] migration_view(rev@[q]) == ms[ms.len() - 1 - q],
        decreases all@.len(),
    {
        let ghost before = all@;
        let m = all.pop().unwrap();
        proof {
            assert(migrations_view(all@) =~= ms.take(all@.len() as int));
            assert(migrations_view(before)[all@.len() as int] == migration_view(m));
            assert(ms.take(before.len() as int)[all@.len() as int] == ms[all@.len() as int]);
        }
        rev.push(m);
    }
    let mut out: Vec<ColumnMigration> = Vec::new();
    let mut k: usize = 0;
    proof {
        assert(ms.len() == 17);
    }
    while rev.len() > 0
        invariant
            ms.len() == 17,
            k + rev@.len() == ms.len(),
            forall|q: int| 0 <= q < rev@.len() ==> #[trigger] migration_view(rev@[q]) == ms[ms.len() - 1 - q],
            migrations_view(out@) == pending(ms.take(k as int), columns_view(present@)),
        decreases rev@.len(),
    {
        let m = rev.pop().unwrap();
        proof {
            assert(migration_view(m) == ms[k as int]);
            assert(ms.take(k + 1).drop_last() =~= ms.take(k as int));
            assert(ms.take(k + 1).last() == ms[k as int]);
        }
        if !has_pair(present, m.table.as_str(), m.column.as_str()) {
            let ghost before = out@;
            out.push(m);
            proof {
                assert(migrations_view(out@) =~= migrations_view(before).push(ms[k as int]));
            }
        }
        k += 1;
    }
    proof {
        assert(ms.take(ms.len() as int) =~= ms);
        assert(ms == column_migrations_spec());
    }
    out
}

/// `ALTER TABLE {table} ADD COLUMN {column} {definition};`
pub open spec fn alter_text(m: (Seq<char>, Seq<char>, Seq<char>)) -> Seq<char> {
    "ALTER TABLE "@ + m.0 + " ADD COLUMN "@ + m.1 + " "@ + m.2 + ";"@
}

/// The statement running a migration.
pub fn alter_statement(m: &ColumnMigration) -> (r: String)
    ensures
        r@ == alter_text(migration_view(*m)),
{
    let mut v = chars_of("ALTER TABLE ");
    extend_chars(&mut v, &chars_of(m.table.as_str()));
    extend_chars(&mut v, &chars_of(" ADD COLUMN "));
    extend_chars(&mut v, &chars_of(m.column.as_str()));
    extend_chars(&mut v, &chars_of(" "));
    extend_chars(&mut v, &chars_of(m.definition.as_str()));
    extend_chars(&mut v, &chars_of(";"));
    proof {
        assert(v@ =~= alter_text(migration_view(*m)));
    }
    string_of(&v)
}

proof fn lemma_pending_members(
    ms: Seq<(Seq<char>, Seq<char>, Seq<char>)>,
    present: Seq<(Seq<char>, Seq<char>)>,
    i: int,
)
    requires
        0 <= i < ms.len(),
        !present.contains((ms[i].0, ms[i].1)),
    ensures
        pending(ms, present).contains(ms[i]),
    decreases ms.len(),
{
    let prev = pending(ms.drop_last(), present);
    if i < ms.len() - 1 {
        assert(ms.drop_last()[i] == ms[i]);
        lemma_pending_members(ms.drop_last(), present, i);
        let j = choose|j: int| 0 <= j < prev.len() && prev[j] == ms[i];
        if !present.contains((ms.last().0, ms.last().1)) {
            assert(prev.push(ms.last())[j] == ms[i]);
        }
    } else {
        assert(prev.push(ms.last())[prev.len() as int] == ms[i]);
    }
}

proof fn lemma_pending_empty(
    ms: Seq<(Seq<char>, Seq<char>, Seq<char>)>,
    present: Seq<(Seq<char>, Seq<char>)>,
)
    requires
        forall|i: int| 0 <= i < ms.len() ==> present.contains((#[trigger] ms[i].0, ms[i].1)),
    ensures
        pending(ms, present) == Seq::<(Seq<char>, Seq<char>, Seq<char>)>::empty(),
    decreases ms.len(),
{
    if ms.len() > 0 {
        let m = ms.last();
        assert(ms[ms.len() - 1].0 == m.0);
        lemma_pending_empty(ms.drop_last(), present);
    }
}

/// Migrating is idempotent: once the pending columns are added, no migration
/// is pending any more.
pub proof fn law_migrations_idempotent(present: Seq<(Seq<char>, Seq<char>)>)
    ensures
        pending(
            column_migrations_spec(),
            present + added_columns(pending(column_migrations_spec(), present)),
        ) == Seq::<(Seq<char>, Seq<char>, Seq<char>)>::empty(),
{
    let ms = column_migrations_spec();
    let p = pending(ms, present);
    let after = present + added_columns(p);
    assert forall|i: int| 0 <= i < ms.len() implies after.contains((#[trigger] ms[i].0, ms[i].1)) by {
        if present.contains((ms[i].0, ms[i].1)) {
            let j = choose|j: int| 0 <= j < present.len() && present[j] == (ms[i].0, ms[i].1);
            assert(after[j] == present[j]);
        } else {
            lemma_pending_members(ms, present, i);
            let j = choose|j: int| 0 <= j < p.len() && p[j] == ms[i];
            assert(after[present.len() + j] == added_columns(p)[j]);
        }
    }
    lemma_pending_empty(ms, after);
}

} // verus!
