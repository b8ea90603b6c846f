//! The shapes of the five statements the repository issues, as spec
//! functions over string views, and the placeholder invariant: in every
//! built statement the number of `?` placeholders equals the number of
//! bound values, in matching positional order.

use vstd::prelude::*;
use crate::text::{count_char, dec_digits, lemma_count_char_absent, lemma_count_char_concat,
    lemma_dec_digits_no_placeholder};

verus! {

/// One value bound to a placeholder, in position order.
#[derive(Debug, Clone, PartialEq, Eq)]
pub enum Param {
    /// A string-encoded field value.
    Text(String),
    /// A numeric row identifier.
    Id(u32),
}

/// What a `Param` binds, at the spec level.
pub enum ParamView {
    Text(Seq<char>),
    Id(u32),
}

impl View for Param {
    type V = ParamView;

    open spec fn view(&self) -> ParamView {
        match self {
            Param::Text(s) => ParamView::Text(s@),
            Param::Id(i) => ParamView::Id(*i),
        }
    }
}

/// The views of a parameter list, in order.
pub open spec fn params_view(ps: Seq<Param>) -> Seq<ParamView> {
    ps.map_values(|p: Param| p@)
}

/// A statement ready for execution: its text, and the values to bind to
/// its placeholders, in placeholder order.
#[derive(Debug)]
pub struct SqlStatement {
    pub text: String,
    pub params: Vec<Param>,
}

/// The view of an optional condition fragment.
pub open spec fn opt_str_view(s: Option<&str>) -> Option<Seq<char>> {
    match s {
        Some(c) => Some(c@),
        None => None,
    }
}

/// The optional `WHERE` clause of a whole-table fetch; the condition text
/// is taken verbatim.
pub open spec fn opt_where(condition: Option<Seq<char>>) -> Seq<char> {
    match condition {
        Some(c) => " WHERE "@ + c,
        None => Seq::empty(),
    }
}

/// The optional `LIMIT` clause.
pub open spec fn opt_limit(limit: Option<u32>) -> Seq<char> {
    match limit {
        Some(l) => " LIMIT "@ + dec_digits(l as nat),
        None => Seq::empty(),
    }
}

/// The optional `OFFSET` clause.
pub open spec fn opt_offset(offset: Option<u32>) -> Seq<char> {
    match offset {
        Some(o) => " OFFSET "@ + dec_digits(o as nat),
        None => Seq::empty(),
    }
}

/// The text of a whole-table fetch: `SELECT * FROM `table``, then, in
/// fixed order, the optional `WHERE`, `LIMIT` and `OFFSET` clauses.
pub open spec fn fetch_all_sql(
    table: Seq<char>,
    limit: Option<u32>,
    offset: Option<u32>,
    condition: Option<Seq<char>>,
) -> Seq<char> {
    "SELECT * FROM `"@ + table + "`"@ + opt_where(condition) + opt_limit(limit) + opt_offset(
        offset,
    )
}

/// The text of a fetch by id, with the id as the one placeholder. The
/// primary-key column is written `id` in every statement shape; the engine
/// compares column names case-insensitively, so a schema that spells the
/// column `ID` is matched all the same.
pub open spec fn fetch_one_sql(table: Seq<char>) -> Seq<char> {
    "SELECT * FROM `"@ + table + "` WHERE id = ?"@
}

/// The first `n` of `items`, joined with `", "`.
pub open spec fn join_prefix(items: Seq<Seq<char>>, n: int) -> Seq<char>
    decreases n,
{
    if n <= 0 {
        Seq::empty()
    } else if n == 1 {
        items[0]
    } else {
        join_prefix(items, n - 1) + ", "@ + items[n - 1]
    }
}

/// All of `items`, joined with `", "`.
pub open spec fn joined(items: Seq<Seq<char>>) -> Seq<char> {
    join_prefix(items, items.len() as int)
}

/// `n` placeholders, joined with `", "`: `?, ?, ?`.
pub open spec fn placeholders(n: int) -> Seq<char>
    decreases n,
{
    if n <= 0 {
        Seq::empty()
    } else if n == 1 {
        "?"@
    } else {
        placeholders(n - 1) + ", ?"@
    }
}

/// The column names of a field map, in map order.
pub open spec fn column_names(m: Seq<(Seq<char>, Seq<char>)>) -> Seq<Seq<char>> {
    m.map_values(|e: (Seq<char>, Seq<char>)| e.0)
}

/// The `column = ?` clauses of an update, in map order.
pub open spec fn set_clauses(m: Seq<(Seq<char>, Seq<char>)>) -> Seq<Seq<char>> {
    m.map_values(|e: (Seq<char>, Seq<char>)| e.0 + " = ?"@)
}

/// The field values of a field map as bound parameters, in map order.
pub open spec fn text_params(m: Seq<(Seq<char>, Seq<char>)>) -> Seq<ParamView> {
    m.map_values(|e: (Seq<char>, Seq<char>)| ParamView::Text(e.1))
}

/// The text of an insert: columns and placeholders are derived from one
/// single iteration over the field map.
pub open spec fn insert_sql(table: Seq<char>, m: Seq<(Seq<char>, Seq<char>)>) -> Seq<char> {
    "INSERT INTO "@ + table + " ("@ + joined(column_names(m)) + ") VALUES ("@ + placeholders(
        m.len() as int,
    ) + ")"@
}

/// The text of an update; the id is bound as the final placeholder.
pub open spec fn update_sql(table: Seq<char>, m: Seq<(Seq<char>, Seq<char>)>) -> Seq<char> {
    "UPDATE "@ + table + " SET "@ + joined(set_clauses(m)) + " WHERE id = ?"@
}

/// The text of a delete, with the id as the one placeholder.
pub open spec fn delete_sql(table: Seq<char>) -> Seq<char> {
    "DELETE FROM "@ + table + " WHERE id = ?"@
}

/// No column name of the field map contains a placeholder character.
pub open spec fn columns_placeholder_free(m: Seq<(Seq<char>, Seq<char>)>) -> bool {
    forall|i: int| 0 <= i < m.len() ==> count_char(m[i].0, '?') == 0
}

/// A string whose last character is `c` and whose other characters are
/// not `c` counts exactly one.
proof fn lemma_count_one_terminal(s: Seq<char>, c: char)
    requires
        s.len() > 0,
        s.last() == c,
        forall|i: int| 0 <= i < s.len() - 1 ==> s[i] != c,
    ensures
        count_char(s, c) == 1,
{
    assert forall|i: int| 0 <= i < s.drop_last().len() implies s.drop_last()[i] != c by {
        assert(s.drop_last()[i] == s[i]);
    }
    lemma_count_char_absent(s.drop_last(), c);
}

/// How many placeholder characters each fixed fragment of the five
/// statement shapes contains.
proof fn lemma_fragment_counts()
    ensures
        count_char("SELECT * FROM `"@, '?') == 0,
        count_char("`"@, '?') == 0,
        count_char(" WHERE "@, '?') == 0,
        count_char(" LIMIT "@, '?') == 0,
        count_char(" OFFSET "@, '?') == 0,
        count_char("` WHERE id = ?"@, '?') == 1,
        count_char("INSERT INTO "@, '?') == 0,
        count_char(" ("@, '?') == 0,
        count_char(") VALUES ("@, '?') == 0,
        count_char(")"@, '?') == 0,
        count_char("UPDATE "@, '?') == 0,
        count_char(" SET "@, '?') == 0,
        count_char(" WHERE id = ?"@, '?') == 1,
        count_char("DELETE FROM "@, '?') == 0,
        count_char(", "@, '?') == 0,
        count_char(" = ?"@, '?') == 1,
        count_char("?"@, '?') == 1,
        count_char(", ?"@, '?') == 1,
{
    reveal_strlit("SELECT * FROM `");
    assert forall|i: int| 0 <= i < "SELECT * FROM `"@.len() implies "SELECT * FROM `"@[i]
        != '?' by {}
    lemma_count_char_absent("SELECT * FROM `"@, '?');
    reveal_strlit("`");
    assert forall|i: int| 0 <= i < "`"@.len() implies "`"@[i] != '?' by {}
    lemma_count_char_absent("`"@, '?');
    reveal_strlit(" WHERE ");
    assert forall|i: int| 0 <= i < " WHERE "@.len() implies " WHERE "@[i] != '?' by {}
    lemma_count_char_absent(" WHERE "@, '?');
    reveal_strlit(" LIMIT ");
    assert forall|i: int| 0 <= i < " LIMIT "@.len() implies " LIMIT "@[i] != '?' by {}
    lemma_count_char_absent(" LIMIT "@, '?');
    reveal_strlit(" OFFSET ");
    assert forall|i: int| 0 <= i < " OFFSET "@.len() implies " OFFSET "@[i] != '?' by {}
    lemma_count_char_absent(" OFFSET "@, '?');
    reveal_strlit("` WHERE id = ?");
    assert forall|i: int| 0 <= i < "` WHERE id = ?"@.len() - 1 implies "` WHERE id = ?"@[i]
        != '?' by {}
    lemma_count_one_terminal("` WHERE id = ?"@, '?');
    reveal_strlit("INSERT INTO ");
    assert forall|i: int| 0 <= i < "INSERT INTO "@.len() implies "INSERT INTO "@[i] != '?' by {}
    lemma_count_char_absent("INSERT INTO "@, '?');
    reveal_strlit(" (");
    assert forall|i: int| 0 <= i < " ("@.len() implies " ("@[i] != '?' by {}
    lemma_count_char_absent(" ("@, '?');
    reveal_strlit(") VALUES (");
    assert forall|i: int| 0 <= i < ") VALUES ("@.len() implies ") VALUES ("@[i] != '?' by {}
    lemma_count_char_absent(") VALUES ("@, '?');
    reveal_strlit(")");
    assert forall|i: int| 0 <= i < ")"@.len() implies ")"@[i] != '?' by {}
    lemma_count_char_absent(")"@, '?');
    reveal_strlit("UPDATE ");
    assert forall|i: int| 0 <= i < "UPDATE "@.len() implies "UPDATE "@[i] != '?' by {}
    lemma_count_char_absent("UPDATE "@, '?');
    reveal_strlit(" SET ");
    assert forall|i: int| 0 <= i < " SET "@.len() implies " SET "@[i] != '?' by {}
    lemma_count_char_absent(" SET "@, '?');
    reveal_strlit(" WHERE id = ?");
    assert forall|i: int| 0 <= i < " WHERE id = ?"@.len() - 1 implies " WHERE id = ?"@[i]
        != '?' by {}
    lemma_count_one_terminal(" WHERE id = ?"@, '?');
    reveal_strlit("DELETE FROM ");
    assert forall|i: int| 0 <= i < "DELETE FROM "@.len() implies "DELETE FROM "@[i] != '?' by {}
    lemma_count_char_absent("DELETE FROM "@, '?');
    reveal_strlit(", ");
    assert forall|i: int| 0 <= i < ", "@.len() implies ", "@[i] != '?' by {}
    lemma_count_char_absent(", "@, '?');
    reveal_strlit(" = ?");
    assert forall|i: int| 0 <= i < " = ?"@.len() - 1 implies " = ?"@[i] != '?' by {}
    lemma_count_one_terminal(" = ?"@, '?');
    reveal_strlit("?");
    assert("?"@.len() == 1);
    lemma_count_one_terminal("?"@, '?');
    reveal_strlit(", ?");
    assert forall|i: int| 0 <= i < ", ?"@.len() - 1 implies ", ?"@[i] != '?' by {}
    lemma_count_one_terminal(", ?"@, '?');
}

/// A placeholder list `?, ?, ?` of length `n` counts `n` placeholders.
proof fn lemma_placeholders_count(n: int)
    requires
        n >= 0,
    ensures
        count_char(placeholders(n), '?') == n,
    decreases n,
{
    lemma_fragment_counts();
    if n > 1 {
        lemma_placeholders_count(n - 1);
        lemma_count_char_concat(placeholders(n - 1), ", ?"@, '?');
    }
}

/// Joining placeholder-free items with `", "` stays placeholder-free.
proof fn lemma_join_count_zero(items: Seq<Seq<char>>, n: int)
    requires
        n <= items.len(),
        forall|i: int| 0 <= i < items.len() ==> count_char(items[i], '?') == 0,
    ensures
        count_char(join_prefix(items, n), '?') == 0,
    decreases n,
{
    lemma_fragment_counts();
    if n > 1 {
        lemma_join_count_zero(items, n - 1);
        lemma_count_char_concat(join_prefix(items, n - 1), ", "@, '?');
        lemma_count_char_concat(join_prefix(items, n - 1) + ", "@, items[n - 1], '?');
    }
}

/// Joining items that count one placeholder each gives `n` placeholders.
proof fn lemma_join_count_ones(items: Seq<Seq<char>>, n: int)
    requires
        0 <= n <= items.len(),
        forall|i: int| 0 <= i < items.len() ==> count_char(items[i], '?') == 1,
    ensures
        count_char(join_prefix(items, n), '?') == n,
    decreases n,
{
    lemma_fragment_counts();
    if n > 1 {
        lemma_join_count_ones(items, n - 1);
        lemma_count_char_concat(join_prefix(items, n - 1), ", "@, '?');
        lemma_count_char_concat(join_prefix(items, n - 1) + ", "@, items[n - 1], '?');
    }
}

/// The placeholder invariant for a whole-table fetch: nothing is bound, and
/// for a table, condition and numerals free of `?` the statement holds no
/// placeholder either.
pub proof fn lemma_fetch_all_placeholders(
    table: Seq<char>,
    limit: Option<u32>,
    offset: Option<u32>,
    condition: Option<Seq<char>>,
)
    requires
        count_char(table, '?') == 0,
        condition matches Some(c) ==> count_char(c, '?') == 0,
    ensures
        count_char(fetch_all_sql(table, limit, offset, condition), '?') == 0,
{
    lemma_fragment_counts();
    if let Some(c) = condition {
        lemma_count_char_concat(" WHERE "@, c, '?');
    }
    if let Some(l) = limit {
        lemma_dec_digits_no_placeholder(l as nat);
        lemma_count_char_concat(" LIMIT "@, dec_digits(l as nat), '?');
    }
    if let Some(o) = offset {
        lemma_dec_digits_no_placeholder(o as nat);
        lemma_count_char_concat(" OFFSET "@, dec_digits(o as nat), '?');
    }
    let a1 = "SELECT * FROM `"@ + table;
    let a2 = a1 + "`"@;
    let a3 = a2 + opt_where(condition);
    let a4 = a3 + opt_limit(limit);
    lemma_count_char_concat("SELECT * FROM `"@, table, '?');
    lemma_count_char_concat(a1, "`"@, '?');
    lemma_count_char_concat(a2, opt_where(condition), '?');
    lemma_count_char_concat(a3, opt_limit(limit), '?');
    lemma_count_char_concat(a4, opt_offset(offset), '?');
}

/// The placeholder invariant for a fetch by id: one placeholder, one bound
/// id.
pub proof fn lemma_fetch_one_placeholders(table: Seq<char>)
    requires
        count_char(table, '?') == 0,
    ensures
        count_char(fetch_one_sql(table), '?') == 1,
{
    lemma_fragment_counts();
    lemma_count_char_concat("SELECT * FROM `"@, table, '?');
    lemma_count_char_concat("SELECT * FROM `"@ + table, "` WHERE id = ?"@, '?');
}

/// The placeholder invariant for an insert: as many placeholders as fields,
/// one bound value each.
pub proof fn lemma_insert_placeholders(table: Seq<char>, m: Seq<(Seq<char>, Seq<char>)>)
    requires
        count_char(table, '?') == 0,
        columns_placeholder_free(m),
    ensures
        count_char(insert_sql(table, m), '?') == m.len(),
{
    lemma_fragment_counts();
    assert forall|i: int| 0 <= i < column_names(m).len() implies count_char(
        column_names(m)[i],
        '?',
    ) == 0 by {
        assert(column_names(m)[i] == m[i].0);
    }
    lemma_join_count_zero(column_names(m), column_names(m).len() as int);
    lemma_placeholders_count(m.len() as int);
    let a1 = "INSERT INTO "@ + table;
    let a2 = a1 + " ("@;
    let a3 = a2 + joined(column_names(m));
    let a4 = a3 + ") VALUES ("@;
    let a5 = a4 + placeholders(m.len() as int);
    lemma_count_char_concat("INSERT INTO "@, table, '?');
    lemma_count_char_concat(a1, " ("@, '?');
    lemma_count_char_concat(a2, joined(column_names(m)), '?');
    lemma_count_char_concat(a3, ") VALUES ("@, '?');
    lemma_count_char_concat(a4, placeholders(m.len() as int), '?');
    lemma_count_char_concat(a5, ")"@, '?');
}

/// The placeholder invariant for an update: one placeholder per field plus
/// one for the id, bound in that order.
pub proof fn lemma_update_placeholders(table: Seq<char>, m: Seq<(Seq<char>, Seq<char>)>)
    requires
        count_char(table, '?') == 0,
        columns_placeholder_free(m),
    ensures
        count_char(update_sql(table, m), '?') == m.len() + 1,
{
    lemma_fragment_counts();
    assert forall|i: int| 0 <= i < set_clauses(m).len() implies count_char(
        set_clauses(m)[i],
        '?',
    ) == 1 by {
        assert(set_clauses(m)[i] == m[i].0 + " = ?"@);
        lemma_count_char_concat(m[i].0, " = ?"@, '?');
    }
    lemma_join_count_ones(set_clauses(m), set_clauses(m).len() as int);
    let a1 = "UPDATE "@ + table;
    let a2 = a1 + " SET "@;
    let a3 = a2 + joined(set_clauses(m));
    lemma_count_char_concat("UPDATE "@, table, '?');
    lemma_count_char_concat(a1, " SET "@, '?');
    lemma_count_char_concat(a2, joined(set_clauses(m)), '?');
    lemma_count_char_concat(a3, " WHERE id = ?"@, '?');
}

/// The placeholder invariant for a delete: one placeholder, one bound id.
pub proof fn lemma_delete_placeholders(table: Seq<char>)
    requires
        count_char(table, '?') == 0,
    ensures
        count_char(delete_sql(table), '?') == 1,
{
    lemma_fragment_counts();
    lemma_count_char_concat("DELETE FROM "@, table, '?');
    lemma_count_char_concat("DELETE FROM "@ + table, " WHERE id = ?"@, '?');
}

} // verus!
