//! Records that live in a table of their own, and the statements that read,
//! store, change and remove them.
use vstd::prelude::*;
use vstd::string::*;
use crate::sql::{read_i32, column_i32, Batch, BatchView, SqlValue, SqlValueView, Statement, StoreError};
use crate::text::{append_placeholder, join, lemma_join_take_all, lemma_join_take_next, placeholder};

verus! {

/// A record type stored as one row of its own table.
///
/// The table has the columns `columns()`, the first of which is the id column;
/// `values()` gives the record's value for each column, in the same order.
pub trait Insertable: Sized {
    spec fn spec_table_name() -> Seq<char>;

    spec fn spec_columns() -> Seq<Seq<char>>;

    spec fn spec_id_column() -> Seq<char>;

    spec fn spec_id_value(&self) -> i32;

    spec fn spec_values(&self) -> Seq<SqlValueView>;

    /// The statements that follow the insertion of this record.
    spec fn spec_post_insert(&self) -> Seq<BatchView>;

    /// The statements that follow the removal of the record with `id`, or of all
    /// records of the table when `id` is `None`.
    spec fn spec_post_delete(id: Option<i32>) -> Seq<BatchView>;

    /// Every record has one value per column, the id column comes first and
    /// holds the record's id; no table has more columns than SQLite allows.
    proof fn lemma_row_shape(&self)
        ensures
            self.spec_values().len() == Self::spec_columns().len(),
            0 < Self::spec_columns().len() <= 32767,
            Self::spec_columns()[0] == Self::spec_id_column(),
            self.spec_values()[0] == SqlValueView::Integer(self.spec_id_value() as i64),
    ;

    fn table_name() -> (r: &'static str)
        ensures
            r@ == Self::spec_table_name(),
    ;

    fn columns() -> (r: Vec<&'static str>)
        ensures
            r.deep_view() == Self::spec_columns(),
    ;

    fn id_column() -> (r: &'static str)
        ensures
            r@ == Self::spec_id_column(),
    ;

    fn id_value(&self) -> (r: i32)
        ensures
            r == self.spec_id_value(),
    ;

    fn values(&self) -> (r: Vec<SqlValue>)
        ensures
            r.deep_view() == self.spec_values(),
    ;

    fn post_insert(&self) -> (r: Vec<Batch>)
        ensures
            r.deep_view() == self.spec_post_insert(),
    ;

    fn post_delete(id: Option<i32>) -> (r: Vec<Batch>)
        ensures
            r.deep_view() == Self::spec_post_delete(id),
    ;
}

/// `column = ?k` for each column, numbering the placeholders from 2.
pub open spec fn assignments(columns: Seq<Seq<char>>) -> Seq<Seq<char>> {
    Seq::new(columns.len(), |i: int| columns[i] + " = "@ + placeholder((i + 2) as nat))
}

/// The placeholders `?1` to `?n`.
pub open spec fn placeholders(n: nat) -> Seq<Seq<char>> {
    Seq::new(n, |i: int| placeholder((i + 1) as nat))
}

/// The text of the statement that overwrites every column of the row with a
/// given id: the id is bound to `?1`, the column values to `?2` onwards.
pub open spec fn update_sql(table: Seq<char>, columns: Seq<Seq<char>>, id_column: Seq<char>) -> Seq<
    char,
> {
    "UPDATE "@ + table + " SET "@ + join(assignments(columns), ", "@) + " WHERE "@ + id_column
        + " = ?1"@
}

/// The text of the statement that selects every column of the row with the id `?1`.
pub open spec fn select_by_id_sql(
    table: Seq<char>,
    columns: Seq<Seq<char>>,
    id_column: Seq<char>,
) -> Seq<char> {
    "SELECT "@ + join(columns, ","@) + " FROM "@ + table + " WHERE "@ + id_column + " = ?1"@
}

/// The text of the statement that selects every column of every row.
pub open spec fn select_all_sql(table: Seq<char>, columns: Seq<Seq<char>>) -> Seq<char> {
    "SELECT "@ + join(columns, ","@) + " FROM "@ + table
}

/// The text of the statement that inserts one row, its column values bound to
/// `?1` onwards.
pub open spec fn insert_sql(table: Seq<char>, columns: Seq<Seq<char>>) -> Seq<char> {
    "INSERT INTO "@ + table + " ("@ + join(columns, ", "@) + ") VALUES ("@ + join(
        placeholders(columns.len()),
        ", "@,
    ) + ")"@
}

/// The text of the statement that removes the row with the id `?1`.
pub open spec fn delete_by_id_sql(table: Seq<char>, id_column: Seq<char>) -> Seq<char> {
    "DELETE FROM "@ + table + " WHERE "@ + id_column + " = ?1"@
}

/// The text of the statement that removes every row.
pub open spec fn delete_all_sql(table: Seq<char>) -> Seq<char> {
    "DELETE FROM "@ + table
}

/// The text of the query that answers 1 when a row with the id `?1` exists, else 0.
pub open spec fn exists_sql(table: Seq<char>, id_column: Seq<char>) -> Seq<char> {
    "SELECT EXISTS(SELECT 1 FROM "@ + table + " WHERE "@ + id_column + " = ?1)"@
}

/// The parameter list that binds only an id.
pub open spec fn id_param(id: i32) -> Seq<SqlValueView> {
    seq![SqlValueView::Integer(id as i64)]
}

/// The batch that executes a statement once.
pub open spec fn once(sql: Seq<char>, params: Seq<SqlValueView>) -> BatchView {
    BatchView { sql, param_rows: seq![params] }
}

/// The batch that executes `sql` once with `params`.
pub fn batch_once(sql: &str, params: Vec<SqlValue>) -> (r: Batch)
    ensures
        r.deep_view() == once(sql@, params.deep_view()),
{
    let mut text = String::new();
    text.append(sql);
    let mut param_rows: Vec<Vec<SqlValue>> = Vec::new();
    param_rows.push(params);
    let r = Batch { sql: text, param_rows };
    assert(r.deep_view().param_rows =~= seq![params.deep_view()]);
    assert(r.deep_view().sql =~= sql@);
    r
}

/// The empty parameter list.
pub fn no_params() -> (r: Vec<SqlValue>)
    ensures
        r.deep_view() == Seq::<SqlValueView>::empty(),
{
    let r: Vec<SqlValue> = Vec::new();
    assert(r.deep_view() =~= Seq::<SqlValueView>::empty());
    r
}

/// The parameter list that binds only `id`.
pub fn id_params(id: i32) -> (r: Vec<SqlValue>)
    ensures
        r.deep_view() == id_param(id),
{
    let mut r: Vec<SqlValue> = Vec::new();
    r.push(SqlValue::Integer(id as i64));
    assert(r.deep_view() =~= id_param(id));
    r
}

/// Appends the items with `sep` between each two.
fn append_joined(s: &mut String, items: &Vec<&'static str>, sep: &str)
    ensures
        final(s)@ == old(s)@ + join(items.deep_view(), sep@),
{
    let ghost start = s@;
    let ghost list = items.deep_view();
    let mut i: usize = 0;
    while i < items.len()
        invariant
            i <= items.len(),
            list == items.deep_view(),
            s@ == start + join(list.take(i as int), sep@),
        decreases items.len() - i,
    {
        proof {
            lemma_join_take_next(list, sep@, i as int);
        }
        if i > 0 {
            s.append(sep);
        }
        s.append(items[i]);
        proof {
            if i > 0 {
                assert(s@ =~= start + (join(list.take(i as int), sep@) + sep@ + list[i as int]));
            } else {
                assert(s@ =~= start + list[0]);
            }
        }
        i = i + 1;
    }
    proof {
        lemma_join_take_all(list, sep@);
    }
}

/// Appends `column = ?k` for each column, numbering from 2, separated by `, `.
fn append_assignments(s: &mut String, columns: &Vec<&'static str>)
    requires
        columns.len() <= 32767,
    ensures
        final(s)@ == old(s)@ + join(assignments(columns.deep_view()), ", "@),
{
    let ghost start = s@;
    let ghost list = assignments(columns.deep_view());
    let mut i: usize = 0;
    while i < columns.len()
        invariant
            i <= columns.len() <= 32767,
            list == assignments(columns.deep_view()),
            s@ == start + join(list.take(i as int), ", "@),
        decreases columns.len() - i,
    {
        proof {
            lemma_join_take_next(list, ", "@, i as int);
        }
        if i > 0 {
            s.append(", ");
        }
        let ghost mid = s@;
        s.append(columns[i]);
        s.append(" = ");
        append_placeholder(s, (i + 2) as u64);
        proof {
            assert(list[i as int] == columns.deep_view()[i as int] + " = "@ + placeholder(
                (i + 2) as nat,
            ));
            assert(s@ =~= mid + list[i as int]);
            if i > 0 {
                assert(s@ =~= start + (join(list.take(i as int), ", "@) + ", "@ + list[i as int]));
            } else {
                assert(s@ =~= start + list[0]);
            }
        }
        i = i + 1;
    }
    proof {
        lemma_join_take_all(list, ", "@);
    }
}

/// Appends the placeholders `?1` to `?n`, separated by `, `.
fn append_placeholders(s: &mut String, n: usize)
    requires
        n <= 32767,
    ensures
        final(s)@ == old(s)@ + join(placeholders(n as nat), ", "@),
{
    let ghost start = s@;
    let ghost list = placeholders(n as nat);
    let mut i: usize = 0;
    while i < n
        invariant
            i <= n <= 32767,
            list == placeholders(n as nat),
            s@ == start + join(list.take(i as int), ", "@),
        decreases n - i,
    {
        proof {
            lemma_join_take_next(list, ", "@, i as int);
        }
        if i > 0 {
            s.append(", ");
        }
        let ghost mid = s@;
        append_placeholder(s, (i + 1) as u64);
        proof {
            assert(s@ =~= mid + list[i as int]);
            if i > 0 {
                assert(s@ =~= start + (join(list.take(i as int), ", "@) + ", "@ + list[i as int]));
            } else {
                assert(s@ =~= start + list[0]);
            }
        }
        i = i + 1;
    }
    proof {
        lemma_join_take_all(list, ", "@);
    }
}

/// The statement that overwrites the stored row of `item` with its current values
/// (the statement `update_record` executes).
pub fn update_statement<T: Insertable>(item: &T) -> (r: Statement)
    ensures
        r.deep_view().sql == update_sql(T::spec_table_name(), T::spec_columns(), T::spec_id_column()),
        r.deep_view().params == id_param(item.spec_id_value()) + item.spec_values(),
{
    proof {
        item.lemma_row_shape();
    }
    let columns = T::columns();
    let mut sql = String::new();
    sql.append("UPDATE ");
    sql.append(T::table_name());
    sql.append(" SET ");
    append_assignments(&mut sql, &columns);
    sql.append(" WHERE ");
    sql.append(T::id_column());
    sql.append(" = ?1");
    let mut params: Vec<SqlValue> = Vec::new();
    params.push(SqlValue::Integer(item.id_value() as i64));
    let mut values = item.values();
    params.append(&mut values);
    let r = Statement { sql, params };
    assert(r.deep_view().sql =~= update_sql(
        T::spec_table_name(),
        T::spec_columns(),
        T::spec_id_column(),
    ));
    assert(r.deep_view().params =~= id_param(item.spec_id_value()) + item.spec_values());
    r
}

/// The query that selects the row with the id `id` (the query `find_record_by_id` runs).
pub fn select_by_id_statement<T: Insertable>(id: i32) -> (r: Statement)
    ensures
        r.deep_view().sql == select_by_id_sql(
            T::spec_table_name(),
            T::spec_columns(),
            T::spec_id_column(),
        ),
        r.deep_view().params == id_param(id),
{
    let columns = T::columns();
    let mut sql = String::new();
    sql.append("SELECT ");
    append_joined(&mut sql, &columns, ",");
    sql.append(" FROM ");
    sql.append(T::table_name());
    sql.append(" WHERE ");
    sql.append(T::id_column());
    sql.append(" = ?1");
    let mut params: Vec<SqlValue> = Vec::new();
    params.push(SqlValue::Integer(id as i64));
    let r = Statement { sql, params };
    assert(r.deep_view().sql =~= select_by_id_sql(
        T::spec_table_name(),
        T::spec_columns(),
        T::spec_id_column(),
    ));
    assert(r.deep_view().params =~= id_param(id));
    r
}

/// The query that selects every row of the table (the query `fetch_all_records` runs).
pub fn select_all_statement<T: Insertable>() -> (r: Statement)
    ensures
        r.deep_view().sql == select_all_sql(T::spec_table_name(), T::spec_columns()),
        r.deep_view().params == Seq::<SqlValueView>::empty(),
{
    let columns = T::columns();
    let mut sql = String::new();
    sql.append("SELECT ");
    append_joined(&mut sql, &columns, ",");
    sql.append(" FROM ");
    sql.append(T::table_name());
    let params: Vec<SqlValue> = Vec::new();
    let r = Statement { sql, params };
    assert(r.deep_view().sql =~= select_all_sql(T::spec_table_name(), T::spec_columns()));
    assert(r.deep_view().params =~= Seq::<SqlValueView>::empty());
    r
}

/// The statement that inserts the row of `item`.
pub fn insert_statement<T: Insertable>(item: &T) -> (r: Statement)
    ensures
        r.deep_view().sql == insert_sql(T::spec_table_name(), T::spec_columns()),
        r.deep_view().params == item.spec_values(),
{
    proof {
        item.lemma_row_shape();
    }
    let columns = T::columns();
    let mut sql = String::new();
    sql.append("INSERT INTO ");
    sql.append(T::table_name());
    sql.append(" (");
    append_joined(&mut sql, &columns, ", ");
    sql.append(") VALUES (");
    append_placeholders(&mut sql, columns.len());
    sql.append(")");
    let r = Statement { sql, params: item.values() };
    assert(r.deep_view().sql =~= insert_sql(T::spec_table_name(), T::spec_columns()));
    r
}

/// The statement that removes the row with the id `id`, or every row when `id`
/// is `None`.
pub fn delete_statement<T: Insertable>(id: Option<i32>) -> (r: Statement)
    ensures
        r.deep_view().sql == match id {
            Some(_) => delete_by_id_sql(T::spec_table_name(), T::spec_id_column()),
            None => delete_all_sql(T::spec_table_name()),
        },
        r.deep_view().params == match id {
            Some(v) => id_param(v),
            None => Seq::<SqlValueView>::empty(),
        },
{
    let mut sql = String::new();
    sql.append("DELETE FROM ");
    sql.append(T::table_name());
    let mut params: Vec<SqlValue> = Vec::new();
    match id {
        Some(v) => {
            sql.append(" WHERE ");
            sql.append(T::id_column());
            sql.append(" = ?1");
            params.push(SqlValue::Integer(v as i64));
        },
        None => {},
    }
    let r = Statement { sql, params };
    match id {
        Some(v) => {
            assert(r.deep_view().sql =~= delete_by_id_sql(T::spec_table_name(), T::spec_id_column()));
            assert(r.deep_view().params =~= id_param(v));
        },
        None => {
            assert(r.deep_view().sql =~= delete_all_sql(T::spec_table_name()));
            assert(r.deep_view().params =~= Seq::<SqlValueView>::empty());
        },
    }
    r
}

/// The query that tells whether a row with the id `id` exists (the query of
/// `check_duplicate`).
pub fn exists_statement<T: Insertable>(id: i32) -> (r: Statement)
    ensures
        r.deep_view().sql == exists_sql(T::spec_table_name(), T::spec_id_column()),
        r.deep_view().params == id_param(id),
{
    let mut sql = String::new();
    sql.append("SELECT EXISTS(SELECT 1 FROM ");
    sql.append(T::table_name());
    sql.append(" WHERE ");
    sql.append(T::id_column());
    sql.append(" = ?1)");
    let mut params: Vec<SqlValue> = Vec::new();
    params.push(SqlValue::Integer(id as i64));
    let r = Statement { sql, params };
    assert(r.deep_view().sql =~= exists_sql(T::spec_table_name(), T::spec_id_column()));
    assert(r.deep_view().params =~= id_param(id));
    r
}

/// Whether the answer to the query of [`exists_statement`] reports the id as used.
pub open spec fn answer_says_used(first_row: Option<Seq<SqlValueView>>) -> bool {
    match first_row {
        Some(row) => match read_i32(row, 0) {
            Ok(v) => v != 0,
            Err(_) => false,
        },
        None => false,
    }
}

/// Decides from the first answer row of [`exists_statement`] whether the id is
/// already used: it is when the first column reads as a non-zero integer. A
/// missing row (the query failed or answered nothing) or an unreadable column
/// counts as not used.
pub fn id_in_use(first_row: Option<Vec<SqlValue>>) -> (r: bool)
    ensures
        r == answer_says_used(
            match first_row {
                Some(row) => Some(row.deep_view()),
                None => None,
            },
        ),
{
    match first_row {
        Some(row) => match column_i32(row.as_slice(), 0) {
            Ok(v) => v != 0,
            Err(_) => false,
        },
        None => false,
    }
}

/// The statements that store `item`: its row, then what follows an insertion.
/// They are refused with `DuplicateId` when its id is already in use.
pub fn insert_plan<T: Insertable>(item: &T, id_already_used: bool) -> (r: Result<
    Vec<Batch>,
    StoreError,
>)
    ensures
        id_already_used ==> r == Err::<Vec<Batch>, StoreError>(
            StoreError::DuplicateId(item.spec_id_value()),
        ),
        !id_already_used ==> (r matches Ok(plan) && plan.deep_view() == seq![
            once(insert_sql(T::spec_table_name(), T::spec_columns()), item.spec_values()),
        ] + item.spec_post_insert()),
{
    if id_already_used {
        return Err(StoreError::DuplicateId(item.id_value()));
    }
    let mut plan: Vec<Batch> = Vec::new();
    plan.push(Batch::single(insert_statement(item)));
    let mut rest = item.post_insert();
    plan.append(&mut rest);
    assert(plan.deep_view() =~= seq![
        once(insert_sql(T::spec_table_name(), T::spec_columns()), item.spec_values()),
    ] + item.spec_post_insert());
    Ok(plan)
}

/// The statements that remove the record with the id `id`, or every record of
/// the table when `id` is `None`: the removal, then what follows a removal.
pub fn delete_plan<T: Insertable>(id: Option<i32>) -> (r: Vec<Batch>)
    ensures
        r.deep_view() == seq![
            match id {
                Some(v) => once(delete_by_id_sql(T::spec_table_name(), T::spec_id_column()), id_param(v)),
                None => once(delete_all_sql(T::spec_table_name()), Seq::<SqlValueView>::empty()),
            },
        ] + T::spec_post_delete(id),
{
    let mut plan: Vec<Batch> = Vec::new();
    plan.push(Batch::single(delete_statement::<T>(id)));
    let mut rest = T::post_delete(id);
    plan.append(&mut rest);
    assert(plan.deep_view() =~= seq![
        match id {
            Some(v) => once(delete_by_id_sql(T::spec_table_name(), T::spec_id_column()), id_param(v)),
            None => once(delete_all_sql(T::spec_table_name()), Seq::<SqlValueView>::empty()),
        },
    ] + T::spec_post_delete(id));
    plan
}

/// In the update statement of a record, `?1` holds the record's id and the
/// placeholder `?k` of each column holds the record's value for that column:
/// parameter `k` (counted from 1) is that value, and there is no parameter past
/// the last column's.
pub proof fn lemma_update_binds_each_column<T: Insertable>(item: T, i: int)
    requires
        0 <= i < T::spec_columns().len(),
    ensures
        assignments(T::spec_columns())[i] == T::spec_columns()[i] + " = "@ + placeholder(
            (i + 2) as nat,
        ),
        (id_param(item.spec_id_value()) + item.spec_values())[0] == SqlValueView::Integer(
            item.spec_id_value() as i64,
        ),
        (id_param(item.spec_id_value()) + item.spec_values())[(i + 2) - 1]
            == item.spec_values()[i],
        (id_param(item.spec_id_value()) + item.spec_values()).len() == T::spec_columns().len()
            + 1,
{
    item.lemma_row_shape();
}

/// An update never moves a record to another id: its statement sets the id
/// column, through `?2`, to the very id that selects the row through `?1`.
pub proof fn lemma_update_keeps_id<T: Insertable>(item: T)
    ensures
        assignments(T::spec_columns())[0] == T::spec_id_column() + " = "@ + placeholder(2),
        (id_param(item.spec_id_value()) + item.spec_values())[1] == (id_param(
            item.spec_id_value(),
        ) + item.spec_values())[0],
{
    item.lemma_row_shape();
}

/// In the insert statement of a record, the `i`-th column (from 0) is given the
/// placeholder `?(i+1)`, whose parameter is the record's `i`-th value, and there
/// are exactly as many parameters as placeholders.
pub proof fn lemma_insert_binds_each_column<T: Insertable>(item: T, i: int)
    requires
        0 <= i < T::spec_columns().len(),
    ensures
        placeholders(T::spec_columns().len())[i] == placeholder((i + 1) as nat),
        item.spec_values().len() == placeholders(T::spec_columns().len()).len(),
{
    item.lemma_row_shape();
}

/// The duplicate check looks in the very table that an insert writes to: right
/// after the fixed opening of each statement comes the record's table name,
/// ended by a space, in the existence query as in the insert statement.
pub proof fn lemma_duplicate_check_reads_insert_table<T: Insertable>()
    ensures
        ({
            let table = T::spec_table_name();
            let check = exists_sql(table, T::spec_id_column());
            let insert = insert_sql(table, T::spec_columns());
            &&& check.len() > 28 + table.len() as int
            &&& check.subrange(28, 28 + table.len() as int) == table
            &&& check[28 + table.len() as int] == ' '
            &&& insert.len() > 12 + table.len() as int
            &&& insert.subrange(12, 12 + table.len() as int) == table
            &&& insert[12 + table.len() as int] == ' '
        }),
{
    reveal_strlit("SELECT EXISTS(SELECT 1 FROM ");
    reveal_strlit(" WHERE ");
    reveal_strlit(" = ?1)");
    reveal_strlit("INSERT INTO ");
    reveal_strlit(" (");
    let table = T::spec_table_name();
    let check = exists_sql(table, T::spec_id_column());
    let insert = insert_sql(table, T::spec_columns());
    let open_check = "SELECT EXISTS(SELECT 1 FROM "@;
    let open_insert = "INSERT INTO "@;
    assert(open_check.len() == 28);
    assert(open_insert.len() == 12);
    assert(check == open_check + table + (" WHERE "@ + T::spec_id_column() + " = ?1)"@));
    assert(check.subrange(28, 28 + table.len() as int) =~= table);
    let rest_insert = " ("@ + join(T::spec_columns(), ", "@) + ") VALUES ("@ + join(
        placeholders(T::spec_columns().len()),
        ", "@,
    ) + ")"@;
    assert(insert =~= open_insert + table + rest_insert);
    assert(insert.subrange(12, 12 + table.len() as int) =~= table);
    assert(insert[12 + table.len() as int] == rest_insert[0]);
}

/// The existence query asks whether the table holds a row whose id column equals
/// the parameter `?1`, for any table and id column.
pub proof fn lemma_exists_query_form(table: Seq<char>, id_column: Seq<char>)
    ensures
        exists_sql(table, id_column) == "SELECT EXISTS(SELECT 1 FROM "@ + table + " WHERE "@
            + id_column + " = ?1)"@,
{
}

/// The update statement sets every column of the table, in column order, each
/// from its own placeholder `?(i+2)`, and picks the row by the id column and `?1`.
pub proof fn lemma_update_sets_every_column(
    table: Seq<char>,
    columns: Seq<Seq<char>>,
    id_column: Seq<char>,
)
    ensures
        update_sql(table, columns, id_column) == "UPDATE "@ + table + " SET "@ + join(
            Seq::new(
                columns.len(),
                |i: int| columns[i] + " = "@ + placeholder((i + 2) as nat),
            ),
            ", "@,
        ) + " WHERE "@ + id_column + " = ?1"@,
{
    assert(assignments(columns) =~= Seq::new(
        columns.len(),
        |i: int| columns[i] + " = "@ + placeholder((i + 2) as nat),
    ));
}

/// Both selections list every column of the table, in column order, separated
/// by commas; the selection by id is the selection of all rows narrowed to the
/// row whose id column equals `?1`.
pub proof fn lemma_selects_list_every_column(
    table: Seq<char>,
    columns: Seq<Seq<char>>,
    id_column: Seq<char>,
)
    ensures
        select_all_sql(table, columns) == "SELECT "@ + join(columns, ","@) + " FROM "@ + table,
        select_by_id_sql(table, columns, id_column) == select_all_sql(table, columns)
            + " WHERE "@ + id_column + " = ?1"@,
{
    assert(select_by_id_sql(table, columns, id_column) =~= select_all_sql(table, columns)
        + " WHERE "@ + id_column + " = ?1"@);
}

/// The insert statement names every column of the table, in column order, and
/// gives the `i`-th of them the placeholder `?(i+1)`.
pub proof fn lemma_insert_names_every_column(table: Seq<char>, columns: Seq<Seq<char>>)
    ensures
        insert_sql(table, columns) == "INSERT INTO "@ + table + " ("@ + join(columns, ", "@)
            + ") VALUES ("@ + join(
            Seq::new(columns.len(), |i: int| placeholder((i + 1) as nat)),
            ", "@,
        ) + ")"@,
{
    assert(placeholders(columns.len()) =~= Seq::new(
        columns.len(),
        |i: int| placeholder((i + 1) as nat),
    ));
}

/// Removing by id removes the rows whose id column equals `?1`; removing without
/// an id removes every row of the table.
pub proof fn lemma_delete_forms(table: Seq<char>, id_column: Seq<char>)
    ensures
        delete_by_id_sql(table, id_column) == delete_all_sql(table) + " WHERE "@ + id_column
            + " = ?1"@,
        delete_all_sql(table) == "DELETE FROM "@ + table,
{
    assert(delete_by_id_sql(table, id_column) =~= delete_all_sql(table) + " WHERE "@ + id_column
        + " = ?1"@);
}

/// The answer to the existence query reports the id as used exactly when its
/// first column is a non-zero integer that fits 32 bits.
pub proof fn lemma_answer_says_used(row: Seq<SqlValueView>)
    ensures
        answer_says_used(Some(row)) == (row.len() > 0 && match row[0] {
            SqlValueView::Integer(v) => i32::MIN <= v <= i32::MAX && v != 0,
            _ => false,
        }),
        !answer_says_used(None),
{
}

} // verus!
