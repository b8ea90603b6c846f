//! The compute halves of the five repository operations: building each
//! statement, and turning each raw engine outcome (a row set, an optional
//! row) into the typed result the caller sees. Executing a built statement
//! against the engine is the caller's part; the builders' contracts pin
//! the exact statement text and the bound values, and the outcome
//! functions state exactly when each error is returned.

use vstd::prelude::*;
use vstd::string::StringExecFns;
use crate::errors::FetchError;
use crate::fields::FieldMap;
use crate::sql::{Param, ParamView, SqlStatement, column_names, columns_placeholder_free,
    delete_sql, fetch_all_sql, fetch_one_sql, insert_sql, join_prefix, lemma_delete_placeholders,
    lemma_fetch_all_placeholders, lemma_fetch_one_placeholders, lemma_insert_placeholders,
    lemma_update_placeholders, opt_str_view, params_view, placeholders, set_clauses, text_params,
    update_sql};
use crate::text::{count_char, u32_to_dec};

verus! {

/// The message a statement build is rejected with when the field map is
/// empty: the engine would have refused the malformed statement anyway.
pub open spec fn empty_fields_message() -> Seq<char> {
    "cannot build a statement from an empty field map"@
}

/// Builds the whole-table fetch `SELECT * FROM `table``, appending, in
/// fixed order, `WHERE` for the verbatim condition fragment, then `LIMIT`,
/// then `OFFSET`. Nothing is bound: the condition text is trusted input,
/// concatenated as given.
pub fn build_fetch_all(
    table: &str,
    limit: Option<u32>,
    offset: Option<u32>,
    condition: Option<&str>,
) -> (st: SqlStatement)
    ensures
        st.text@ == fetch_all_sql(table@, limit, offset, opt_str_view(condition)),
        st.params@ == Seq::<Param>::empty(),
        count_char(table@, '?') == 0 && (condition matches Some(c) ==> count_char(c@, '?') == 0)
            ==> count_char(st.text@, '?') == st.params@.len(),
{
    let mut text = "SELECT * FROM `".to_owned();
    text.append(table);
    text.append("`");
    if let Some(c) = condition {
        text.append(" WHERE ");
        text.append(c);
    }
    if let Some(l) = limit {
        text.append(" LIMIT ");
        let digits = u32_to_dec(l);
        text.append(digits.as_str());
    }
    if let Some(o) = offset {
        text.append(" OFFSET ");
        let digits = u32_to_dec(o);
        text.append(digits.as_str());
    }
    let params: Vec<Param> = Vec::new();
    proof {
        assert(text@ =~= fetch_all_sql(table@, limit, offset, opt_str_view(condition)));
        assert(params@ =~= Seq::<Param>::empty());
        if count_char(table@, '?') == 0 && (match condition {
            Some(c) => count_char(c@, '?') == 0,
            None => true,
        }) {
            lemma_fetch_all_placeholders(table@, limit, offset, opt_str_view(condition));
        }
    }
    SqlStatement { text, params }
}

/// Builds the fetch by id, `SELECT * FROM `table`` `WHERE id = ?`, with
/// the id bound as the one parameter.
pub fn build_fetch_one(table: &str, id: u32) -> (st: SqlStatement)
    ensures
        st.text@ == fetch_one_sql(table@),
        params_view(st.params@) == seq![ParamView::Id(id)],
        count_char(table@, '?') == 0 ==> count_char(st.text@, '?') == st.params@.len(),
{
    let mut text = "SELECT * FROM `".to_owned();
    text.append(table);
    text.append("` WHERE id = ?");
    let mut params: Vec<Param> = Vec::new();
    params.push(Param::Id(id));
    proof {
        assert(params_view(params@) =~= seq![ParamView::Id(id)]);
        if count_char(table@, '?') == 0 {
            lemma_fetch_one_placeholders(table@);
        }
    }
    SqlStatement { text, params }
}

/// Builds the insert `INSERT INTO table (columns) VALUES (placeholders)`:
/// the column list, the placeholder list and the bound values are derived
/// from one single iteration over the field map, so their orders match.
/// An empty field map cannot make a well-formed statement and is rejected.
pub fn build_insert(table: &str, fields: &FieldMap) -> (r: Result<SqlStatement, FetchError>)
    ensures
        fields@.len() == 0 <==> r is Err,
        r matches Err(e) ==> (e matches FetchError::QueryFailure(c) && c@
            == empty_fields_message()),
        r matches Ok(st) ==> st.text@ == insert_sql(table@, fields@) && params_view(st.params@)
            == text_params(fields@),
        r matches Ok(st) ==> (count_char(table@, '?') == 0 && columns_placeholder_free(fields@)
            ==> count_char(st.text@, '?') == st.params@.len()),
{
    let n = fields.len();
    if n == 0 {
        return Err(
            FetchError::QueryFailure("cannot build a statement from an empty field map".to_owned()),
        );
    }
    let ghost cols = column_names(fields@);
    let mut text = "INSERT INTO ".to_owned();
    text.append(table);
    text.append(" (");
    proof {
        assert(text@ =~= "INSERT INTO "@ + table@ + " ("@ + join_prefix(cols, 0));
    }
    let mut i: usize = 0;
    while i < n
        invariant
            n == fields@.len(),
            cols == column_names(fields@),
            i <= n,
            text@ == "INSERT INTO "@ + table@ + " ("@ + join_prefix(cols, i as int),
        decreases n - i,
    {
        if i > 0 {
            text.append(", ");
        }
        text.append(fields.column_at(i).as_str());
        proof {
            assert(cols[i as int] == fields@[i as int].0);
            assert(text@ =~= "INSERT INTO "@ + table@ + " ("@ + join_prefix(cols, i as int + 1));
        }
        i += 1;
    }
    text.append(") VALUES (");
    proof {
        assert(text@ =~= "INSERT INTO "@ + table@ + " ("@ + join_prefix(cols, n as int)
            + ") VALUES ("@ + placeholders(0));
    }
    let mut j: usize = 0;
    while j < n
        invariant
            n == fields@.len(),
            cols == column_names(fields@),
            j <= n,
            text@ == "INSERT INTO "@ + table@ + " ("@ + join_prefix(cols, n as int)
                + ") VALUES ("@ + placeholders(j as int),
        decreases n - j,
    {
        if j > 0 {
            text.append(", ?");
        } else {
            text.append("?");
        }
        proof {
            assert(text@ =~= "INSERT INTO "@ + table@ + " ("@ + join_prefix(cols, n as int)
                + ") VALUES ("@ + placeholders(j as int + 1));
        }
        j += 1;
    }
    text.append(")");
    let mut params: Vec<Param> = Vec::new();
    proof {
        assert(params_view(params@) =~= text_params(fields@).subrange(0, 0));
    }
    let mut k: usize = 0;
    while k < n
        invariant
            n == fields@.len(),
            k <= n,
            params@.len() == k,
            params_view(params@) == text_params(fields@).subrange(0, k as int),
        decreases n - k,
    {
        params.push(Param::Text(fields.value_at(k).clone()));
        proof {
            assert(params_view(params@) =~= text_params(fields@).subrange(0, k as int + 1));
        }
        k += 1;
    }
    proof {
        assert(text_params(fields@).subrange(0, n as int) =~= text_params(fields@));
        assert(text@ =~= insert_sql(table@, fields@));
        if count_char(table@, '?') == 0 && columns_placeholder_free(fields@) {
            lemma_insert_placeholders(table@, fields@);
        }
    }
    Ok(SqlStatement { text, params })
}

/// Builds the update `UPDATE table SET col = ?, … WHERE id = ?`, binding
/// the field values in map order and the id as the final parameter. An
/// empty field map cannot make a well-formed statement and is rejected.
pub fn build_update(table: &str, id: u32, fields: &FieldMap) -> (r: Result<
    SqlStatement,
    FetchError,
>)
    ensures
        fields@.len() == 0 <==> r is Err,
        r matches Err(e) ==> (e matches FetchError::QueryFailure(c) && c@
            == empty_fields_message()),
        r matches Ok(st) ==> st.text@ == update_sql(table@, fields@) && params_view(st.params@)
            == text_params(fields@).push(ParamView::Id(id)),
        r matches Ok(st) ==> (count_char(table@, '?') == 0 && columns_placeholder_free(fields@)
            ==> count_char(st.text@, '?') == st.params@.len()),
{
    let n = fields.len();
    if n == 0 {
        return Err(
            FetchError::QueryFailure("cannot build a statement from an empty field map".to_owned()),
        );
    }
    let ghost scls = set_clauses(fields@);
    let mut text = "UPDATE ".to_owned();
    text.append(table);
    text.append(" SET ");
    proof {
        assert(text@ =~= "UPDATE "@ + table@ + " SET "@ + join_prefix(scls, 0));
    }
    let mut i: usize = 0;
    while i < n
        invariant
            n == fields@.len(),
            scls == set_clauses(fields@),
            i <= n,
            text@ == "UPDATE "@ + table@ + " SET "@ + join_prefix(scls, i as int),
        decreases n - i,
    {
        if i > 0 {
            text.append(", ");
        }
        text.append(fields.column_at(i).as_str());
        text.append(" = ?");
        proof {
            assert(scls[i as int] == fields@[i as int].0 + " = ?"@);
            assert(text@ =~= "UPDATE "@ + table@ + " SET "@ + join_prefix(scls, i as int + 1));
        }
        i += 1;
    }
    text.append(" WHERE id = ?");
    let mut params: Vec<Param> = Vec::new();
    proof {
        assert(params_view(params@) =~= text_params(fields@).subrange(0, 0));
    }
    let mut k: usize = 0;
    while k < n
        invariant
            n == fields@.len(),
            k <= n,
            params@.len() == k,
            params_view(params@) == text_params(fields@).subrange(0, k as int),
        decreases n - k,
    {
        params.push(Param::Text(fields.value_at(k).clone()));
        proof {
            assert(params_view(params@) =~= text_params(fields@).subrange(0, k as int + 1));
        }
        k += 1;
    }
    params.push(Param::Id(id));
    proof {
        assert(text_params(fields@).subrange(0, n as int) =~= text_params(fields@));
        assert(params_view(params@) =~= text_params(fields@).push(ParamView::Id(id)));
        assert(text@ =~= update_sql(table@, fields@));
        if count_char(table@, '?') == 0 && columns_placeholder_free(fields@) {
            lemma_update_placeholders(table@, fields@);
        }
    }
    Ok(SqlStatement { text, params })
}

/// Builds the delete `DELETE FROM table WHERE id = ?`, with the id bound
/// as the one parameter.
pub fn build_delete(table: &str, id: u32) -> (st: SqlStatement)
    ensures
        st.text@ == delete_sql(table@),
        params_view(st.params@) == seq![ParamView::Id(id)],
        count_char(table@, '?') == 0 ==> count_char(st.text@, '?') == st.params@.len(),
{
    let mut text = "DELETE FROM ".to_owned();
    text.append(table);
    text.append(" WHERE id = ?");
    let mut params: Vec<Param> = Vec::new();
    params.push(Param::Id(id));
    proof {
        assert(params_view(params@) =~= seq![ParamView::Id(id)]);
        if count_char(table@, '?') == 0 {
            lemma_delete_placeholders(table@);
        }
    }
    SqlStatement { text, params }
}

/// Turns the row set a whole-table fetch got back into the typed result:
/// every decoded row, in engine-returned order — and zero rows is the
/// `NoRecordsFound` error for the table, never an empty sequence.
pub fn fetch_all_outcome<T>(table: &str, rows: Vec<T>) -> (r: Result<Vec<T>, FetchError>)
    ensures
        rows@.len() == 0 <==> r is Err,
        r matches Ok(v) ==> v == rows && v@.len() > 0,
        r matches Err(e) ==> (e matches FetchError::NoRecordsFound(t) && t@ == table@),
{
    if rows.len() == 0 {
        Err(FetchError::NoRecordsFound(table.to_owned()))
    } else {
        Ok(rows)
    }
}

/// Turns the affected-row count an update or delete got back into the
/// typed result. A zero count is not an error — the id may simply not
/// exist, or the new values may equal the old ones — so every count passes
/// through unchanged; only execution failure is an error, and that never
/// reaches this point.
pub fn affected_rows_outcome(count: u64) -> (r: Result<u64, FetchError>)
    ensures
        r matches Ok(c) && c == count,
{
    Ok(count)
}

/// Turns the optional row a fetch by id got back into the typed result:
/// the decoded record when one matched, the `NoRecordFound` error carrying
/// the requested id when none did.
pub fn fetch_one_outcome<T>(id: u32, row: Option<T>) -> (r: Result<T, FetchError>)
    ensures
        row is Some <==> r is Ok,
        row matches Some(t) ==> (r matches Ok(v) && v == t),
        row is None ==> (r matches Err(e) && e == FetchError::NoRecordFound(id)),
{
    match row {
        Some(t) => Ok(t),
        None => Err(FetchError::NoRecordFound(id)),
    }
}

} // verus!
