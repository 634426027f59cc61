//! The `assets` table.
use vstd::prelude::*;
use vstd::string::*;

use crate::clock::Timestamp;
use crate::domain::asset::{Asset, NewAsset};
use crate::id::Uuid;
use crate::storage::error::StorageErrorView;
use crate::storage::jobs;
use crate::storage::jobs::expired;
use crate::storage::query;
use crate::storage::query::{where_clause, Ages, Condition, StoredJob};
use crate::storage::statement::{statement, Bind, BindView, Fetch, Statement, StatementView};
use crate::text::chars;
use crate::text::chars::{chars_of, concat_text, find_text};

verus! {

/// Columns selected for an [`Asset`].
pub const ASSET_COLUMNS: &'static str = "id, job_id, blob_path, content_type, size_bytes, duration_ms, width, height, created_at";

/// A row of [`ASSET_COLUMNS`].
#[derive(Debug)]
pub struct AssetRow {
    /// `id`.
    pub id: Uuid,
    /// `job_id`.
    pub job_id: Uuid,
    /// `blob_path`.
    pub blob_path: String,
    /// `content_type`.
    pub content_type: String,
    /// `size_bytes`.
    pub size_bytes: i64,
    /// `duration_ms`.
    pub duration_ms: Option<i32>,
    /// `width`.
    pub width: Option<i32>,
    /// `height`.
    pub height: Option<i32>,
    /// `created_at`.
    pub created_at: Timestamp,
}

/// Builds an [`Asset`] from a row.
pub fn to_asset(row: AssetRow) -> (r: Asset)
    ensures
        r == (Asset {
            id: row.id,
            job_id: row.job_id,
            blob_path: row.blob_path,
            content_type: row.content_type,
            size_bytes: row.size_bytes,
            duration_ms: row.duration_ms,
            width: row.width,
            height: row.height,
            created_at: row.created_at,
        }),
{
    Asset {
        id: row.id,
        job_id: row.job_id,
        blob_path: row.blob_path,
        content_type: row.content_type,
        size_bytes: row.size_bytes,
        duration_ms: row.duration_ms,
        width: row.width,
        height: row.height,
        created_at: row.created_at,
    }
}

/// Records a stored file.
pub fn create(new_asset: &NewAsset) -> (r: Statement)
    ensures
        r@.sql == "insert into assets
            (job_id, blob_path, content_type, size_bytes, duration_ms, width, height)
         values ($1, $2, $3, $4, $5, $6, $7)
         returning "@ + ASSET_COLUMNS@,
        r@.binds == seq![
            BindView::Uuid(new_asset.job_id),
            BindView::Text(new_asset.blob_path@),
            BindView::Text(new_asset.content_type@),
            BindView::Long(new_asset.size_bytes),
            BindView::OptionalInt(new_asset.duration_ms),
            BindView::OptionalInt(new_asset.width),
            BindView::OptionalInt(new_asset.height),
        ],
        r@.fetch == Fetch::One,
{
    let sql: String = concat_text(
        "insert into assets
            (job_id, blob_path, content_type, size_bytes, duration_ms, width, height)
         values ($1, $2, $3, $4, $5, $6, $7)
         returning ",
        ASSET_COLUMNS,
    );
    statement(sql, Fetch::One).bind(Bind::Uuid(new_asset.job_id)).bind(
        Bind::Text(new_asset.blob_path.clone()),
    ).bind(Bind::Text(new_asset.content_type.clone())).bind(
        Bind::Long(new_asset.size_bytes),
    ).bind(Bind::OptionalInt(new_asset.duration_ms)).bind(
        Bind::OptionalInt(new_asset.width),
    ).bind(Bind::OptionalInt(new_asset.height))
}

/// Looks up the asset produced by a job, if it has one.
pub fn for_job(job_id: Uuid) -> (r: Statement)
    ensures
        r@.sql == "select "@ + ASSET_COLUMNS@
            + " from assets where job_id = $1 order by created_at limit 1"@,
        r@.binds == seq![BindView::Uuid(job_id)],
        r@.fetch == Fetch::Optional,
{
    let mut sql: String = concat_text("select ", ASSET_COLUMNS);
    sql.append(" from assets where job_id = $1 order by created_at limit 1");
    statement(sql, Fetch::Optional).bind(Bind::Uuid(job_id))
}

/// A list of columns with `prefix` put before each of them.
pub open spec fn qualified(columns: Seq<char>, prefix: Seq<char>) -> Seq<char>
    decreases columns.len(),
{
    match chars::first_occurrence(columns, seq![',', ' '], 0) {
        Some(i) => if 0 <= i <= columns.len() - 2 {
            prefix + columns.take(i) + seq![',', ' '] + qualified(columns.skip(i + 2), prefix)
        } else {
            prefix + columns
        },
        None => prefix + columns,
    }
}

/// A list of columns with `prefix` put before each of them.
pub fn qualify(columns: &str, prefix: &str) -> (r: String)
    ensures
        r@ == qualified(columns@, prefix@),
{
    let text: Vec<char> = chars_of(columns);
    let n: usize = text.len();
    let mut comma: Vec<char> = Vec::new();
    comma.push(',');
    comma.push(' ');
    assert(comma@ =~= seq![',', ' ']);
    let mut out = String::new();
    let mut from: usize = 0;
    assert(columns@.skip(0) =~= columns@);
    assert(out@ + qualified(columns@, prefix@) =~= qualified(columns@, prefix@));
    loop
        invariant
            text@ == columns@,
            n == columns@.len(),
            comma@ == seq![',', ' '],
            from <= n,
            out@ + qualified(columns@.skip(from as int), prefix@) == qualified(columns@, prefix@),
        decreases n - from,
    {
        let ghost rest = columns@.skip(from as int);
        let ghost before = out@;
        proof {
            lemma_occurrence_in_rest(columns@, seq![',', ' '], from as int);
        }
        match find_text(text.as_slice(), comma.as_slice(), from) {
            Some(i) => {
                out.append(prefix);
                out.append(columns.substring_char(from, i));
                out.append(", ");
                proof {
                    reveal_strlit(", ");
                    assert(", "@ =~= seq![',', ' ']);
                    let k = i - from;
                    assert(rest.take(k) =~= columns@.subrange(from as int, i as int));
                    assert(rest.skip(k + 2) =~= columns@.skip(i + 2));
                    assert(out@ + qualified(columns@.skip(i + 2), prefix@) =~= before + (prefix@
                        + rest.take(k) + seq![',', ' '] + qualified(rest.skip(k + 2), prefix@)));
                }
                from = i + 2;
            },
            None => {
                out.append(prefix);
                out.append(columns.substring_char(from, n));
                assert(columns@.subrange(from as int, n as int) =~= rest);
                assert(out@ =~= before + (prefix@ + rest));
                return out;
            },
        }
    }
}

/// The first occurrence at or after `from`, counted from `from`, is the first one
/// in what is left there.
proof fn lemma_occurrence_in_rest(s: Seq<char>, t: Seq<char>, from: int)
    requires
        0 <= from <= s.len(),
        t.len() > 0,
    ensures
        chars::first_occurrence(s.skip(from), t, 0) == match chars::first_occurrence(s, t, from) {
            Some(i) => Some(i - from),
            None => None,
        },
        chars::first_occurrence(s, t, from) matches Some(i) ==> from <= i <= s.len() - t.len(),
{
    let rest = s.skip(from);
    chars::lemma_first_occurrence(rest, t, 0);
    chars::lemma_first_occurrence(s, t, from);
    assert forall|j: int| 0 <= j implies #[trigger] chars::occurs_at(rest, t, j)
        == chars::occurs_at(s, t, from + j) by {
        if j + t.len() <= rest.len() {
            assert(rest.subrange(j, j + t.len()) =~= s.subrange(from + j, from + j + t.len()));
        }
    }
    match (chars::first_occurrence(s, t, from), chars::first_occurrence(rest, t, 0)) {
        (Some(i), Some(j)) => {
            assert(chars::occurs_at(rest, t, i - from) == chars::occurs_at(s, t, from + (i - from)));
            assert(chars::occurs_at(rest, t, j) == chars::occurs_at(s, t, from + j));
        },
        (Some(i), None) => {
            assert(chars::occurs_at(rest, t, i - from) == chars::occurs_at(s, t, from + (i - from)));
        },
        (None, Some(j)) => {
            assert(chars::occurs_at(rest, t, j) == chars::occurs_at(s, t, from + j));
        },
        (None, None) => {},
    }
}

/// The conditions on one asset of a user.
pub open spec fn owned_conditions() -> Seq<Condition> {
    seq![Condition::Asset(1), Condition::Owner(2)]
}

/// The statement that loads an asset of a user.
pub open spec fn owned_asset_statement(id: Uuid, user_id: Uuid) -> StatementView {
    StatementView {
        sql: "select "@ + qualified(ASSET_COLUMNS@, "a."@) + " from assets a
         join jobs j on j.id = a.job_id
         where "@ + query::where_text(owned_conditions(), "j."@),
        binds: seq![BindView::Uuid(id), BindView::Uuid(user_id)],
        fetch: Fetch::One,
    }
}

/// Loads an asset, but only if the given user owns the job that produced it.
///
/// The join is what enforces ownership: whoever can load an asset is handed a
/// signed URL, so a missing check here would let anyone with an id read anyone's
/// media.
pub fn by_id_for_user(id: Uuid, user_id: Uuid) -> (r: Statement)
    ensures
        r@ == owned_asset_statement(id, user_id),
{
    let columns: String = qualify(ASSET_COLUMNS, "a.");
    let mut sql: String = concat_text("select ", columns.as_str());
    sql.append(
        " from assets a
         join jobs j on j.id = a.job_id
         where ",
    );
    let mut conditions: Vec<Condition> = Vec::new();
    conditions.push(Condition::Asset(1));
    conditions.push(Condition::Owner(2));
    assert(conditions@ =~= owned_conditions());
    sql.append(where_clause(&conditions, "j.").as_str());
    statement(sql, Fetch::One).bind(Bind::Uuid(id)).bind(Bind::Uuid(user_id))
}

/// The statement that reads the blob paths of the jobs older than a number of days.
pub open spec fn expiring_paths_statement(days: i32) -> StatementView {
    StatementView {
        sql: "select a.blob_path
         from assets a
         join jobs j on j.id = a.job_id
         where "@ + query::where_text(jobs::expiry_conditions(), "j."@),
        binds: seq![BindView::Int(days)],
        fetch: Fetch::All,
    }
}

/// Reads the blob paths of assets whose job is older than `days`.
///
/// Run before the rows are deleted: the cascade removes the asset row, and with
/// it the only record of where the file lives.
pub fn paths_older_than(days: i32) -> (r: Statement)
    ensures
        r@ == expiring_paths_statement(days),
{
    let sql: String = concat_text(
        "select a.blob_path
         from assets a
         join jobs j on j.id = a.job_id
         where ",
        where_clause(&expired(), "j.").as_str(),
    );
    statement(sql, Fetch::All).bind(Bind::Int(days))
}

/// An asset is only ever loaded for the user who owns the job that produced it.
pub proof fn law_assets_are_scoped_by_owner(id: Uuid, owner: Uuid)
    ensures
        query::scoped_to(owned_conditions(), owned_asset_statement(id, owner).binds, owner),
{
    query::lemma_owner_scopes(
        owned_conditions(),
        owned_asset_statement(id, owner).binds,
        owner,
        1,
    );
}

/// What loading an asset for a user comes to, over the assets joined with their jobs.
pub open spec fn asset_for_user(
    table: Set<StoredJob>,
    id: Uuid,
    user_id: Uuid,
    ages: Ages,
) -> Result<StoredJob, StorageErrorView> {
    query::only_row(
        query::matching(
            table,
            owned_conditions(),
            owned_asset_statement(id, user_id).binds,
            ages,
        ),
    )
}

/// Which rows loading an asset for a user means.
proof fn lemma_owned_asset(id: Uuid, user_id: Uuid, row: StoredJob, ages: Ages)
    ensures
        query::admits(
            owned_conditions(),
            owned_asset_statement(id, user_id).binds,
            row,
            ages,
        ) == (row.asset == Some(id) && row.owner == user_id),
{
    let binds = owned_asset_statement(id, user_id).binds;
    assert(owned_conditions()[0].holds(row, binds, ages) == (row.asset == Some(id)));
    assert(owned_conditions()[1].holds(row, binds, ages) == (row.owner == user_id));
}

/// An asset is loaded for the owner of its job and for nobody else: to anyone else it
/// is not found, which is also what becomes of an asset that does not exist.
pub proof fn law_anothers_asset_looks_missing(
    table: Set<StoredJob>,
    id: Uuid,
    produced_by: StoredJob,
    missing: Uuid,
    user_id: Uuid,
    ages: Ages,
)
    requires
        table.contains(produced_by),
        produced_by.asset == Some(id),
        forall|row: StoredJob| #[trigger]
            table.contains(row) && row.asset == Some(id) ==> row == produced_by,
        forall|row: StoredJob| #[trigger] table.contains(row) ==> row.asset != Some(missing),
    ensures
        user_id == produced_by.owner ==> asset_for_user(table, id, user_id, ages) == Ok::<
            StoredJob,
            StorageErrorView,
        >(produced_by),
        user_id != produced_by.owner ==> asset_for_user(table, id, user_id, ages) == Err::<
            StoredJob,
            StorageErrorView,
        >(StorageErrorView::NotFound),
        asset_for_user(table, missing, user_id, ages) == Err::<StoredJob, StorageErrorView>(
            StorageErrorView::NotFound,
        ),
{
    let found = query::matching(
        table,
        owned_conditions(),
        owned_asset_statement(id, user_id).binds,
        ages,
    );
    let absent = query::matching(
        table,
        owned_conditions(),
        owned_asset_statement(missing, user_id).binds,
        ages,
    );
    assert forall|row: StoredJob| found.contains(row) implies row == produced_by
        && produced_by.owner == user_id by {
        lemma_owned_asset(id, user_id, row, ages);
    }
    assert forall|row: StoredJob| !absent.contains(row) by {
        lemma_owned_asset(missing, user_id, row, ages);
    }
    assert(absent =~= Set::empty());
    lemma_owned_asset(id, user_id, produced_by, ages);
    if user_id == produced_by.owner {
        query::lemma_only_row(found, produced_by);
    } else {
        assert(found =~= Set::empty());
    }
}

/// Retention reads the files of exactly the jobs that it deletes.
pub proof fn law_retention_reads_what_it_deletes(table: Set<StoredJob>, days: i32, ages: Ages)
    ensures
        query::matching(
            table,
            jobs::expiry_conditions(),
            expiring_paths_statement(days).binds,
            ages,
        ) == query::matching(
            table,
            jobs::expiry_conditions(),
            jobs::expiry_statement(days).binds,
            ages,
        ),
        forall|row: StoredJob| #[trigger]
            query::admits(
                jobs::expiry_conditions(),
                jobs::expiry_statement(days).binds,
                row,
                ages,
            ) <==> row.created_at < (ages.days_ago)(days as int),
{
    assert forall|row: StoredJob| #[trigger]
        query::admits(
            jobs::expiry_conditions(),
            jobs::expiry_statement(days).binds,
            row,
            ages,
        ) <==> row.created_at < (ages.days_ago)(days as int) by {
        let binds = jobs::expiry_statement(days).binds;
        assert(binds[0] == BindView::Int(days));
        assert(jobs::expiry_conditions()[0].holds(row, binds, ages) == (row.created_at < (
        ages.days_ago)(days as int)));
    }
}

/// Every column of a list gets the prefix, and the list stays the same otherwise.
pub proof fn law_every_column_is_qualified(
    column: Seq<char>,
    others: Seq<char>,
    prefix: Seq<char>,
)
    requires
        chars::free_of(column, ','),
    ensures
        qualified(column, prefix) == prefix + column,
        qualified(column + seq![',', ' '] + others, prefix) == prefix + column + seq![',', ' ']
            + qualified(others, prefix),
{
    let comma = seq![',', ' '];
    let all = column + comma + others;
    let n = column.len() as int;
    chars::lemma_first_occurrence(column, comma, 0);
    chars::lemma_first_occurrence(all, comma, 0);
    assert forall|j: int| 0 <= j implies !#[trigger] chars::occurs_at(column, comma, j) by {
        if j + 2 <= column.len() {
            assert(column.subrange(j, j + 2)[0] == column[j]);
        }
    }
    assert(all.subrange(n, n + 2) =~= comma);
    assert(chars::occurs_at(all, comma, n));
    assert forall|j: int| 0 <= j < n implies !#[trigger] chars::occurs_at(all, comma, j) by {
        if j + 2 <= all.len() {
            assert(all.subrange(j, j + 2)[0] == column[j]);
        }
    }
    assert(all.take(n) =~= column);
    assert(all.skip(n + 2) =~= others);
}

/// No value that a caller supplies stands in the text of a statement: statements for
/// different values read the same.
pub proof fn law_texts_carry_no_values(
    id: Uuid,
    user_id: Uuid,
    other_id: Uuid,
    other_user: Uuid,
    days: i32,
)
    ensures
        owned_asset_statement(id, user_id).sql == owned_asset_statement(other_id, other_user).sql,
        expiring_paths_statement(days).sql == expiring_paths_statement(90).sql,
{
}

/// What the statements on assets say and take, whatever the values.
pub proof fn law_statements_say_and_take(
    new_asset: NewAsset,
    id: Uuid,
    user_id: Uuid,
    days: i32,
    inserted: Statement,
    produced: Statement,
    one: Statement,
    paths: Statement,
)
    requires
        call_ensures(create, (&new_asset,), inserted),
        call_ensures(for_job, (id,), produced),
        call_ensures(by_id_for_user, (id, user_id), one),
        call_ensures(paths_older_than, (days,), paths),
    ensures
        inserted@.sql == "insert into assets
            (job_id, blob_path, content_type, size_bytes, duration_ms, width, height)
         values ($1, $2, $3, $4, $5, $6, $7)
         returning "@ + ASSET_COLUMNS@,
        inserted@.binds == seq![
            BindView::Uuid(new_asset.job_id),
            BindView::Text(new_asset.blob_path@),
            BindView::Text(new_asset.content_type@),
            BindView::Long(new_asset.size_bytes),
            BindView::OptionalInt(new_asset.duration_ms),
            BindView::OptionalInt(new_asset.width),
            BindView::OptionalInt(new_asset.height),
        ],
        inserted@.fetch == Fetch::One,
        produced@.sql == "select "@ + ASSET_COLUMNS@
            + " from assets where job_id = $1 order by created_at limit 1"@,
        produced@.binds == seq![BindView::Uuid(id)],
        produced@.fetch == Fetch::Optional,
        one@.sql == "select "@ + qualified(ASSET_COLUMNS@, "a."@) + " from assets a
         join jobs j on j.id = a.job_id
         where "@ + "a.id = $1 and j.user_id = $2"@,
        one@.binds == seq![BindView::Uuid(id), BindView::Uuid(user_id)],
        one@.fetch == Fetch::One,
        paths@.sql == "select a.blob_path
         from assets a
         join jobs j on j.id = a.job_id
         where "@ + "j.created_at < now() - make_interval(days => $1)"@,
        paths@.binds == seq![BindView::Int(days)],
        paths@.fetch == Fetch::All,
        ASSET_COLUMNS@
            == "id, job_id, blob_path, content_type, size_bytes, duration_ms, width, height, created_at"@,
{
    jobs::lemma_where_clauses();
    query::law_conditions_read_as_sql(1, "j."@);
    query::law_conditions_read_as_sql(2, "j."@);
    query::law_conditions_are_joined(seq![Condition::Asset(1)], Condition::Owner(2), "j."@);
    query::law_conditions_are_joined(seq![], Condition::Asset(1), "j."@);
    assert(owned_conditions() =~= seq![Condition::Asset(1)].push(Condition::Owner(2)));
    assert(crate::text::number::decimal(1) =~= seq!['1']);
    assert(crate::text::number::decimal(2) =~= seq!['2']);
    reveal_strlit("j.");
    reveal_strlit(" and ");
    reveal_strlit("a.id = $");
    reveal_strlit("user_id = $");
    reveal_strlit("a.id = $1 and j.user_id = $2");
    assert(query::where_text(owned_conditions(), "j."@) =~= "a.id = $1 and j.user_id = $2"@);
}

/// A row becomes the asset that it holds.
pub proof fn law_rows_become_the_asset(row: AssetRow, asset: Asset)
    requires
        call_ensures(to_asset, (row,), asset),
    ensures
        asset.id == row.id && asset.job_id == row.job_id && asset.blob_path == row.blob_path,
        asset.content_type == row.content_type && asset.size_bytes == row.size_bytes,
        asset.duration_ms == row.duration_ms && asset.width == row.width && asset.height
            == row.height,
        asset.created_at == row.created_at,
{
}

} // verus!
