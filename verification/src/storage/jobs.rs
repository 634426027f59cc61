//! The `jobs` table.
//!
//! Every read that can reach a user is scoped by `user_id`. Ownership is a
//! `where` clause, not a check the caller is trusted to remember: a job that
//! belongs to someone else must be indistinguishable from one that does not
//! exist.
use vstd::prelude::*;
use vstd::string::*;

use crate::clock::Timestamp;
use crate::domain::job;
use crate::domain::job::{Job, JobListItem, JobStatus, ListFilter, NewJob, StatusView};
use crate::domain::media;
use crate::domain::media::MediaType;
use crate::id::Uuid;
use crate::storage::error::{StorageError, StorageErrorView};
use crate::storage::query;
use crate::storage::query::{
    order_clause, push_placeholder, where_clause, Ages, Condition, StoredJob,
};
use crate::storage::statement;
use crate::storage::statement::{statement, Bind, BindView, Fetch, Statement, StatementView};
use crate::text::chars;
use crate::text::chars::concat_text;
use crate::text::number;

verus! {

/// Columns selected for a [`Job`], in one place so every query agrees.
pub const JOB_COLUMNS: &'static str = "id, user_id, media_type::text as media_type, prompt, parameters, status, provider_job_id, error_code, error_message, created_at, started_at, completed_at";

/// Columns selected for a [`JobListItem`].
///
/// The asset is joined in rather than fetched per row: a page of twenty jobs
/// would otherwise be twenty-one queries.
pub const LIST_COLUMNS: &'static str = "j.id, j.user_id, j.media_type::text as media_type, j.prompt, j.status, j.error_code, j.error_message, j.created_at, j.hidden, a.id as asset_id, u.display_name as owner_name";

/// A row of [`JOB_COLUMNS`].
#[derive(Debug)]
pub struct JobRow {
    /// `id`.
    pub id: Uuid,
    /// `user_id`.
    pub user_id: Uuid,
    /// `media_type`.
    pub media_type: String,
    /// `prompt`.
    pub prompt: String,
    /// `parameters`.
    pub parameters: serde_json::Value,
    /// `status`.
    pub status: String,
    /// `provider_job_id`.
    pub provider_job_id: Option<String>,
    /// `error_code`.
    pub error_code: Option<String>,
    /// `error_message`.
    pub error_message: Option<String>,
    /// `created_at`.
    pub created_at: Timestamp,
    /// `started_at`.
    pub started_at: Option<Timestamp>,
    /// `completed_at`.
    pub completed_at: Option<Timestamp>,
}

/// A row of [`LIST_COLUMNS`].
#[derive(Debug)]
pub struct ListRow {
    /// `id`.
    pub id: Uuid,
    /// `user_id`.
    pub user_id: Uuid,
    /// `media_type`.
    pub media_type: String,
    /// `prompt`.
    pub prompt: String,
    /// `status`.
    pub status: String,
    /// `error_code`.
    pub error_code: Option<String>,
    /// `error_message`.
    pub error_message: Option<String>,
    /// `created_at`.
    pub created_at: Timestamp,
    /// `hidden`.
    pub hidden: bool,
    /// `asset_id`.
    pub asset_id: Option<Uuid>,
    /// `owner_name`.
    pub owner_name: String,
}

/// The media type that a column stands for; an image when it is none of the
/// known ones.
pub open spec fn media_column(s: Seq<char>) -> MediaType {
    match media::media_from_text(s) {
        Some(media_type) => media_type,
        None => MediaType::Image,
    }
}

/// Reads the `media_type` column.
fn read_media(s: &str) -> (r: MediaType)
    ensures
        r == media_column(s@),
{
    match MediaType::from_text(s) {
        Ok(media_type) => media_type,
        Err(_) => MediaType::Image,
    }
}

/// Reads the three columns that store a status.
fn read_status(status: &String, code: &Option<String>, message: &Option<String>) -> (r: JobStatus)
    ensures
        r@ == job::status_of_columns(
            status@,
            statement::optional_text(*code),
            statement::optional_text(*message),
        ),
{
    let code: Option<&str> = match code {
        Some(c) => Some(c.as_str()),
        None => None,
    };
    let message: Option<&str> = match message {
        Some(m) => Some(m.as_str()),
        None => None,
    };
    JobStatus::from_columns(status.as_str(), code, message)
}

/// Builds a [`Job`] from a row.
pub fn to_job(row: JobRow) -> (r: Job)
    ensures
        r.id == row.id,
        r.user_id == row.user_id,
        r.media_type == media_column(row.media_type@),
        r.prompt == row.prompt,
        r.parameters == row.parameters,
        r.status@ == job::status_of_columns(
            row.status@,
            statement::optional_text(row.error_code),
            statement::optional_text(row.error_message),
        ),
        r.provider_job_id == row.provider_job_id,
        r.created_at == row.created_at,
        r.started_at == row.started_at,
        r.completed_at == row.completed_at,
{
    let media_type: MediaType = read_media(row.media_type.as_str());
    let status: JobStatus = read_status(&row.status, &row.error_code, &row.error_message);
    Job {
        id: row.id,
        user_id: row.user_id,
        media_type,
        prompt: row.prompt,
        parameters: row.parameters,
        status,
        provider_job_id: row.provider_job_id,
        created_at: row.created_at,
        started_at: row.started_at,
        completed_at: row.completed_at,
    }
}

/// The item is what a row shows to `viewer`.
pub open spec fn shows(item: JobListItem, row: ListRow, viewer: Uuid) -> bool {
    &&& item.id == row.id
    &&& item.media_type == media_column(row.media_type@)
    &&& item.prompt == row.prompt
    &&& item.status@ == job::status_of_columns(
        row.status@,
        statement::optional_text(row.error_code),
        statement::optional_text(row.error_message),
    )
    &&& item.created_at == row.created_at
    &&& item.asset_id == row.asset_id
    &&& item.owner_name == row.owner_name
    &&& item.hidden == row.hidden
    &&& item.owned_by_viewer == (row.user_id == viewer)
}

/// Whoever looks at a listing sees the same of a row, but for whether it is theirs.
pub proof fn law_viewers_see_the_same(
    row: ListRow,
    viewer: Uuid,
    item: JobListItem,
    other: Uuid,
    others_item: JobListItem,
)
    requires
        shows(item, row, viewer),
        shows(others_item, row, other),
    ensures
        item.owned_by_viewer <==> row.user_id == viewer,
        item.id == others_item.id,
        item.media_type == others_item.media_type,
        item.prompt == others_item.prompt,
        item.status@ == others_item.status@,
        item.created_at == others_item.created_at,
        item.asset_id == others_item.asset_id,
        item.owner_name == others_item.owner_name,
        item.hidden == others_item.hidden,
{
}

/// Builds a [`JobListItem`] from a row.
pub fn to_list_item(row: ListRow, viewer: Uuid) -> (r: JobListItem)
    ensures
        shows(r, row, viewer),
{
    let media_type: MediaType = read_media(row.media_type.as_str());
    let status: JobStatus = read_status(&row.status, &row.error_code, &row.error_message);
    JobListItem {
        id: row.id,
        media_type,
        prompt: row.prompt,
        status,
        created_at: row.created_at,
        asset_id: row.asset_id,
        owner_name: row.owner_name,
        hidden: row.hidden,
        owned_by_viewer: row.user_id == viewer,
    }
}

/// Inserts a job in the `queued` state.
pub fn create(new_job: &NewJob) -> (r: Statement)
    ensures
        r@.sql == "insert into jobs (user_id, media_type, prompt, parameters, status)
         values ($1, $2::media_type, $3, $4, 'queued')
         returning "@ + JOB_COLUMNS@,
        r@.binds == seq![
            BindView::Uuid(new_job.user_id),
            BindView::Text(media::media_text(new_job.media_type)),
            BindView::Text(new_job.prompt@),
            BindView::Json(new_job.parameters),
        ],
        r@.fetch == Fetch::One,
{
    let sql: String = concat_text(
        "insert into jobs (user_id, media_type, prompt, parameters, status)
         values ($1, $2::media_type, $3, $4, 'queued')
         returning ",
        JOB_COLUMNS,
    );
    statement(sql, Fetch::One).bind(Bind::Uuid(new_job.user_id)).bind(
        Bind::Text(new_job.media_type.as_str().to_owned()),
    ).bind(Bind::Text(new_job.prompt.clone())).bind(Bind::Json(new_job.parameters.clone()))
}

/// The conditions on one job of a user.
pub open spec fn owned_conditions() -> Seq<Condition> {
    seq![Condition::Id(1), Condition::Owner(2)]
}

/// The conditions on one job of a user.
fn owned() -> (r: Vec<Condition>)
    ensures
        r@ == owned_conditions(),
{
    let mut conditions: Vec<Condition> = Vec::new();
    conditions.push(Condition::Id(1));
    conditions.push(Condition::Owner(2));
    assert(conditions@ =~= owned_conditions());
    conditions
}

/// The statement that loads one job of a user.
pub open spec fn owned_job_statement(id: Uuid, user_id: Uuid) -> StatementView {
    StatementView {
        sql: "select "@ + JOB_COLUMNS@ + " from jobs where "@ + query::where_text(
            owned_conditions(),
            ""@,
        ),
        binds: seq![BindView::Uuid(id), BindView::Uuid(user_id)],
        fetch: Fetch::One,
    }
}

/// Loads one job belonging to `user_id`. A job that does not exist and one that
/// belongs to another user both match no row.
pub fn by_id_for_user(id: Uuid, user_id: Uuid) -> (r: Statement)
    ensures
        r@ == owned_job_statement(id, user_id),
{
    let mut sql: String = concat_text("select ", JOB_COLUMNS);
    sql.append(" from jobs where ");
    sql.append(where_clause(&owned(), "").as_str());
    statement(sql, Fetch::One).bind(Bind::Uuid(id)).bind(Bind::Uuid(user_id))
}

/// Loads one job without an ownership check.
///
/// Only the background worker may use this: it acts on behalf of the system, not
/// of a request. Nothing it returns is rendered without a later check.
pub fn by_id_for_worker(id: Uuid) -> (r: Statement)
    ensures
        r@.sql == "select "@ + JOB_COLUMNS@ + " from jobs where id = $1"@,
        r@.binds == seq![BindView::Uuid(id)],
        r@.fetch == Fetch::One,
{
    let mut sql: String = concat_text("select ", JOB_COLUMNS);
    sql.append(" from jobs where id = $1");
    statement(sql, Fetch::One).bind(Bind::Uuid(id))
}

/// The conditions on a user's jobs.
pub open spec fn history_conditions() -> Seq<Condition> {
    seq![Condition::Owner(1)]
}

/// The statement that reads a page of a user's jobs.
pub open spec fn page_statement(user_id: Uuid, limit: i64, offset: i64) -> StatementView {
    StatementView {
        sql: "select "@ + JOB_COLUMNS@ + " from jobs
         where "@ + query::where_text(history_conditions(), ""@) + "
         order by "@ + query::order_text(true, ""@) + "
         limit $2 offset $3"@,
        binds: seq![BindView::Uuid(user_id), BindView::Long(limit), BindView::Long(offset)],
        fetch: Fetch::All,
    }
}

/// Reads a page of the user's jobs, newest first.
pub fn page_for_user(user_id: Uuid, limit: i64, offset: i64) -> (r: Statement)
    ensures
        r@ == page_statement(user_id, limit, offset),
{
    let mut conditions: Vec<Condition> = Vec::new();
    conditions.push(Condition::Owner(1));
    assert(conditions@ =~= history_conditions());
    let mut sql: String = concat_text("select ", JOB_COLUMNS);
    sql.append(
        " from jobs
         where ",
    );
    sql.append(where_clause(&conditions, "").as_str());
    sql.append(
        "
         order by ",
    );
    // The order ends in a unique column, so that pages neither repeat nor skip a row.
    sql.append(order_clause(true, "").as_str());
    sql.append(
        "
         limit $2 offset $3",
    );
    statement(sql, Fetch::All).bind(Bind::Uuid(user_id)).bind(Bind::Long(limit)).bind(
        Bind::Long(offset),
    )
}

/// The conditions on a user's unfinished jobs.
pub open spec fn active_conditions() -> Seq<Condition> {
    seq![Condition::Owner(1), Condition::Unfinished]
}

/// The statement that reads a user's unfinished jobs.
pub open spec fn active_statement(user_id: Uuid) -> StatementView {
    StatementView {
        sql: "select "@ + JOB_COLUMNS@ + " from jobs
         where "@ + query::where_text(active_conditions(), ""@) + "
         order by created_at desc"@,
        binds: seq![BindView::Uuid(user_id)],
        fetch: Fetch::All,
    }
}

/// Reads the user's jobs that have not finished.
///
/// This is what makes a running generation survive a reload: the page asks the
/// database what is still in flight rather than trusting anything the browser
/// kept.
pub fn active_for_user(user_id: Uuid) -> (r: Statement)
    ensures
        r@ == active_statement(user_id),
{
    let mut conditions: Vec<Condition> = Vec::new();
    conditions.push(Condition::Owner(1));
    conditions.push(Condition::Unfinished);
    assert(conditions@ =~= active_conditions());
    let mut sql: String = concat_text("select ", JOB_COLUMNS);
    sql.append(
        " from jobs
         where ",
    );
    sql.append(where_clause(&conditions, "").as_str());
    sql.append(
        "
         order by created_at desc",
    );
    statement(sql, Fetch::All).bind(Bind::Uuid(user_id))
}

/// The conditions on a job that is to be started.
pub open spec fn start_conditions() -> Seq<Condition> {
    seq![Condition::Id(1), Condition::Waiting]
}

/// The statement that moves a job from `queued` to `running`.
pub open spec fn start_statement(id: Uuid) -> StatementView {
    StatementView {
        sql: "update jobs
         set status = 'running', started_at = now()
         where "@ + query::where_text(start_conditions(), ""@) + "
         returning "@ + JOB_COLUMNS@,
        binds: seq![BindView::Uuid(id)],
        fetch: Fetch::One,
    }
}

/// Moves a job from `queued` to `running`.
///
/// The condition on the status makes this a compare-and-set: if two workers ever
/// pick up the same id, only one update matches a row and the other is told the
/// job is gone.
pub fn mark_running(id: Uuid) -> (r: Statement)
    ensures
        r@ == start_statement(id),
{
    let mut conditions: Vec<Condition> = Vec::new();
    conditions.push(Condition::Id(1));
    conditions.push(Condition::Waiting);
    assert(conditions@ =~= start_conditions());
    let mut sql: String = concat_text(
        "update jobs
         set status = 'running', started_at = now()
         where ",
        where_clause(&conditions, "").as_str(),
    );
    sql.append(
        "
         returning ",
    );
    sql.append(JOB_COLUMNS);
    statement(sql, Fetch::One).bind(Bind::Uuid(id))
}

/// The conditions on a job that is to be finished.
pub open spec fn end_conditions() -> Seq<Condition> {
    seq![Condition::Id(1), Condition::Unfinished]
}

/// The statement that writes a terminal status.
pub open spec fn end_statement(id: Uuid, status: StatusView) -> StatementView {
    StatementView {
        sql: "update jobs
         set status = $2, error_code = $3, error_message = $4, completed_at = now()
         where "@ + query::where_text(end_conditions(), ""@) + "
         returning "@ + JOB_COLUMNS@,
        binds: seq![
            BindView::Uuid(id),
            BindView::Text(status.text()),
            BindView::OptionalText(status.code_column()),
            BindView::OptionalText(status.message_column()),
        ],
        fetch: Fetch::One,
    }
}

/// Writes a terminal status. A job that had already finished matches no row.
pub fn finish(id: Uuid, status: &JobStatus) -> (r: Statement)
    ensures
        r@ == end_statement(id, status@),
{
    let mut conditions: Vec<Condition> = Vec::new();
    conditions.push(Condition::Id(1));
    conditions.push(Condition::Unfinished);
    assert(conditions@ =~= end_conditions());
    let mut sql: String = concat_text(
        "update jobs
         set status = $2, error_code = $3, error_message = $4, completed_at = now()
         where ",
        where_clause(&conditions, "").as_str(),
    );
    sql.append(
        "
         returning ",
    );
    sql.append(JOB_COLUMNS);
    let code: Option<String> = match status.error_code() {
        Some(code) => Some(code.as_str().to_owned()),
        None => None,
    };
    let message: Option<String> = match status.error_message() {
        Some(message) => Some(message.to_owned()),
        None => None,
    };
    statement(sql, Fetch::One).bind(Bind::Uuid(id)).bind(
        Bind::Text(status.as_str().to_owned()),
    ).bind(Bind::OptionalText(code)).bind(Bind::OptionalText(message))
}

/// Records the provider's own job identifier, for asynchronous generation.
pub fn set_provider_job_id(id: Uuid, provider_job_id: &str) -> (r: Statement)
    ensures
        r@.sql == "update jobs set provider_job_id = $2 where id = $1"@,
        r@.binds == seq![BindView::Uuid(id), BindView::Text(provider_job_id@)],
        r@.fetch == Fetch::Execute,
{
    statement(
        "update jobs set provider_job_id = $2 where id = $1".to_owned(),
        Fetch::Execute,
    ).bind(Bind::Uuid(id)).bind(Bind::Text(provider_job_id.to_owned()))
}

/// The conditions on a job that a previous process left behind.
pub open spec fn orphan_conditions() -> Seq<Condition> {
    seq![Condition::Unfinished]
}

/// The statement that fails every unfinished job.
pub open spec fn orphans_statement(code: Seq<char>, message: Seq<char>) -> StatementView {
    StatementView {
        sql: "update jobs
         set status = 'failed', error_code = $1, error_message = $2, completed_at = now()
         where "@ + query::where_text(orphan_conditions(), ""@),
        binds: seq![BindView::Text(code), BindView::Text(message)],
        fetch: Fetch::Execute,
    }
}

/// Fails every job left `queued` or `running` by a previous process.
///
/// A worker that was interrupted mid-flight leaves a row that nothing will ever
/// finish, and a job stuck on "Genererer…" forever is worse than one that says it
/// failed and can be retried.
pub fn fail_orphans(code: &str, message: &str) -> (r: Statement)
    ensures
        r@ == orphans_statement(code@, message@),
{
    let mut conditions: Vec<Condition> = Vec::new();
    conditions.push(Condition::Unfinished);
    assert(conditions@ =~= orphan_conditions());
    let sql: String = concat_text(
        "update jobs
         set status = 'failed', error_code = $1, error_message = $2, completed_at = now()
         where ",
        where_clause(&conditions, "").as_str(),
    );
    statement(sql, Fetch::Execute).bind(Bind::Text(code.to_owned())).bind(Bind::Text(message.to_owned()))
}

/// The conditions on a user's jobs of the last hour.
pub open spec fn hourly_conditions() -> Seq<Condition> {
    seq![Condition::Owner(1), Condition::LastHour]
}

/// The statement that counts a user's jobs of the last hour.
pub open spec fn hourly_statement(user_id: Uuid) -> StatementView {
    StatementView {
        sql: "select count(*) as antall from jobs
         where "@ + query::where_text(hourly_conditions(), ""@),
        binds: seq![BindView::Uuid(user_id)],
        fetch: Fetch::One,
    }
}

/// Counts a user's jobs created within the last hour, for rate limiting.
pub fn count_last_hour(user_id: Uuid) -> (r: Statement)
    ensures
        r@ == hourly_statement(user_id),
{
    let mut conditions: Vec<Condition> = Vec::new();
    conditions.push(Condition::Owner(1));
    conditions.push(Condition::LastHour);
    assert(conditions@ =~= hourly_conditions());
    let sql: String = concat_text(
        "select count(*) as antall from jobs
         where ",
        where_clause(&conditions, "").as_str(),
    );
    statement(sql, Fetch::One).bind(Bind::Uuid(user_id))
}

/// The conditions on a job that is too old to be kept.
pub open spec fn expiry_conditions() -> Seq<Condition> {
    seq![Condition::Older(1)]
}

/// The conditions on a job that is too old to be kept.
pub(crate) fn expired() -> (r: Vec<Condition>)
    ensures
        r@ == expiry_conditions(),
{
    let mut conditions: Vec<Condition> = Vec::new();
    conditions.push(Condition::Older(1));
    assert(conditions@ =~= expiry_conditions());
    conditions
}

/// The statement that deletes the jobs older than a number of days.
pub open spec fn expiry_statement(days: i32) -> StatementView {
    StatementView {
        sql: "delete from jobs where "@ + query::where_text(expiry_conditions(), ""@),
        binds: seq![BindView::Int(days)],
        fetch: Fetch::Execute,
    }
}

/// Deletes jobs older than `days`. Assets cascade with the job.
pub fn delete_older_than(days: i32) -> (r: Statement)
    ensures
        r@ == expiry_statement(days),
{
    let sql: String = concat_text(
        "delete from jobs where ",
        where_clause(&expired(), "").as_str(),
    );
    statement(sql, Fetch::Execute).bind(Bind::Int(days))
}

/// How many placeholders the conditions of a listing take.
pub open spec fn placeholders_used(filter: ListFilter) -> nat {
    (if filter.user_id is Some {
        1nat
    } else {
        0nat
    }) + (if filter.media_type is Some {
        1nat
    } else {
        0nat
    })
}

/// The conditions that a listing puts on its rows.
pub open spec fn conditions(filter: ListFilter) -> Seq<Condition> {
    let all = seq![Condition::Always];
    let by_user = if filter.user_id is Some {
        all.push(Condition::Owner(1))
    } else {
        all
    };
    let by_media = if filter.media_type is Some {
        by_user.push(Condition::Media(placeholders_used(filter) as u64))
    } else {
        by_user
    };
    let visible = if filter.exclude_hidden {
        by_media.push(Condition::Visible)
    } else {
        by_media
    };
    if filter.only_succeeded {
        visible.push(Condition::Stored)
    } else {
        visible
    }
}

/// The values for the placeholders of [`conditions`].
pub open spec fn condition_binds(filter: ListFilter) -> Seq<BindView> {
    let by_user = match filter.user_id {
        Some(user_id) => seq![BindView::Uuid(user_id)],
        None => Seq::empty(),
    };
    match filter.media_type {
        Some(media_type) => by_user.push(BindView::Text(media::media_text(media_type))),
        None => by_user,
    }
}

/// Builds the `where` clause of a listing.
///
/// The fragments are assembled from fixed strings only; every value the caller
/// supplies travels as a bind parameter, so nothing here can be injected into.
pub fn list_predicates(filter: &ListFilter) -> (r: (String, bool, bool))
    ensures
        r.0@ == query::where_text(conditions(*filter), "j."@),
        r.1 == (filter.user_id is Some),
        r.2 == (filter.media_type is Some),
{
    let mut clauses: Vec<Condition> = Vec::new();
    clauses.push(Condition::Always);
    let mut next: u64 = 1;

    let by_user: bool = filter.user_id.is_some();
    if by_user {
        clauses.push(Condition::Owner(next));
        next = next + 1;
    }
    let by_media: bool = filter.media_type.is_some();
    if by_media {
        clauses.push(Condition::Media(next));
    }
    if filter.exclude_hidden {
        clauses.push(Condition::Visible);
    }
    if filter.only_succeeded {
        // A job with no asset has nothing to show in a gallery, even if the row
        // itself says it succeeded.
        clauses.push(Condition::Stored);
    }
    assert(clauses@ =~= conditions(*filter));
    (where_clause(&clauses, "j."), by_user, by_media)
}

/// Adds the values for the placeholders of the conditions.
fn bind_conditions(query: Statement, filter: &ListFilter) -> (r: Statement)
    requires
        query@.binds.len() == 0,
    ensures
        r@.sql == query@.sql,
        r@.binds == condition_binds(*filter),
        r@.fetch == query@.fetch,
{
    assert(query@.binds =~= Seq::empty());
    let query: Statement = match filter.user_id {
        Some(user_id) => {
            let bound = query.bind(Bind::Uuid(user_id));
            assert(bound@.binds =~= seq![BindView::Uuid(user_id)]);
            bound
        },
        None => query,
    };
    match filter.media_type {
        Some(media_type) => query.bind(Bind::Text(media_type.as_str().to_owned())),
        None => query,
    }
}

/// The text of a listing.
pub open spec fn list_sql(filter: ListFilter) -> Seq<char> {
    "select "@ + LIST_COLUMNS@ + "
         from jobs j
         join users u on u.id = j.user_id
         left join assets a on a.job_id = j.id
         where "@ + query::where_text(conditions(filter), "j."@) + "
         order by "@ + query::order_text(filter.newest_first, "j."@) + "
         limit "@ + statement::placeholder(placeholders_used(filter) + 1) + " offset "@
        + statement::placeholder(placeholders_used(filter) + 2)
}

/// The text of the count that goes with a listing.
pub open spec fn count_sql(filter: ListFilter) -> Seq<char> {
    "select count(*) as antall
         from jobs j
         left join assets a on a.job_id = j.id
         where "@ + query::where_text(conditions(filter), "j."@)
}

/// The statement of a listing.
pub open spec fn list_statement(filter: ListFilter) -> StatementView {
    StatementView {
        sql: list_sql(filter),
        binds: condition_binds(filter).push(BindView::Long(filter.limit)).push(
            BindView::Long(filter.offset),
        ),
        fetch: Fetch::All,
    }
}

/// The statement of the count that goes with a listing.
pub open spec fn count_statement(filter: ListFilter) -> StatementView {
    StatementView {
        sql: count_sql(filter),
        binds: condition_binds(filter),
        fetch: Fetch::One,
    }
}

/// Reads one page of jobs matching `filter`. What is visible at all is decided
/// by `filter.user_id`.
pub fn list(filter: &ListFilter) -> (r: Statement)
    ensures
        r@ == list_statement(*filter),
{
    let predicates: (String, bool, bool) = list_predicates(filter);
    // Two more placeholders than the predicates used, for limit and offset.
    let mut used: u64 = 0;
    if predicates.1 {
        used = used + 1;
    }
    if predicates.2 {
        used = used + 1;
    }
    let mut sql: String = concat_text("select ", LIST_COLUMNS);
    sql.append(
        "
         from jobs j
         join users u on u.id = j.user_id
         left join assets a on a.job_id = j.id
         where ",
    );
    sql.append(predicates.0.as_str());
    sql.append(
        "
         order by ",
    );
    // The order ends in a column that is unique where a job has at most one asset, so
    // that pages neither repeat nor skip a row.
    sql.append(order_clause(filter.newest_first, "j.").as_str());
    sql.append(
        "
         limit ",
    );
    push_placeholder(&mut sql, used + 1);
    sql.append(" offset ");
    push_placeholder(&mut sql, used + 2);
    bind_conditions(statement(sql, Fetch::All), filter).bind(Bind::Long(filter.limit)).bind(
        Bind::Long(filter.offset),
    )
}

/// Counts the jobs matching `filter`, for pagination.
pub fn count(filter: &ListFilter) -> (r: Statement)
    ensures
        r@ == count_statement(*filter),
{
    let predicates: (String, bool, bool) = list_predicates(filter);
    let sql: String = concat_text(
        "select count(*) as antall
         from jobs j
         left join assets a on a.job_id = j.id
         where ",
        predicates.0.as_str(),
    );
    bind_conditions(statement(sql, Fetch::One), filter)
}

/// The statement that hides or unhides a job of a user.
pub open spec fn visibility_statement(id: Uuid, user_id: Uuid, hidden: bool) -> StatementView {
    StatementView {
        sql: "update jobs set hidden = $3 where "@ + query::where_text(owned_conditions(), ""@),
        binds: seq![BindView::Uuid(id), BindView::Uuid(user_id), BindView::Flag(hidden)],
        fetch: Fetch::Execute,
    }
}

/// Hides or unhides one of the caller's own jobs.
///
/// The `user_id` in the `where` clause is the access check: hiding is only ever
/// something you do to your own work.
pub fn set_hidden(id: Uuid, user_id: Uuid, hidden: bool) -> (r: Statement)
    ensures
        r@ == visibility_statement(id, user_id, hidden),
{
    let sql: String = concat_text(
        "update jobs set hidden = $3 where ",
        where_clause(&owned(), "").as_str(),
    );
    statement(sql, Fetch::Execute).bind(Bind::Uuid(id)).bind(Bind::Uuid(user_id)).bind(Bind::Flag(hidden))
}

/// What [`set_hidden`] came to, from the number of rows that it touched.
///
/// # Errors
///
/// Returns [`StorageError::NotFound`] when the job does not exist or belongs to
/// someone else.
pub fn hidden_outcome(rows_affected: u64) -> (r: Result<(), StorageError>)
    ensures
        if rows_affected == 0 {
            r matches Err(error) && error@ == StorageErrorView::NotFound
        } else {
            r is Ok
        },
{
    if rows_affected == 0 {
        Err(StorageError::NotFound)
    } else {
        Ok(())
    }
}

/// What has to be run to delete one of the caller's own jobs, in order.
#[derive(Debug)]
pub struct Deletion {
    /// Reads the blob paths that the job owns, still scoped by owner.
    pub paths: Statement,
    /// Deletes the job.
    pub delete: Statement,
}

/// The statement that reads the blob paths of a job of a user.
pub open spec fn owned_paths_statement(id: Uuid, user_id: Uuid) -> StatementView {
    StatementView {
        sql: "select a.blob_path
         from assets a
         join jobs j on j.id = a.job_id
         where "@ + query::where_text(owned_conditions(), "j."@),
        binds: seq![BindView::Uuid(id), BindView::Uuid(user_id)],
        fetch: Fetch::All,
    }
}

/// The statement that deletes a job of a user.
pub open spec fn deletion_statement(id: Uuid, user_id: Uuid) -> StatementView {
    StatementView {
        sql: "delete from jobs where "@ + query::where_text(owned_conditions(), ""@),
        binds: seq![BindView::Uuid(id), BindView::Uuid(user_id)],
        fetch: Fetch::Execute,
    }
}

/// Deletes one of the caller's own jobs.
///
/// The paths are read first so the caller can remove the files: the cascade takes
/// the asset rows with the job, and with them the only record of where the media
/// lives.
pub fn delete_for_user(id: Uuid, user_id: Uuid) -> (r: Deletion)
    ensures
        r.paths@ == owned_paths_statement(id, user_id),
        r.delete@ == deletion_statement(id, user_id),
{
    let conditions: Vec<Condition> = owned();
    let read: String = concat_text(
        "select a.blob_path
         from assets a
         join jobs j on j.id = a.job_id
         where ",
        where_clause(&conditions, "j.").as_str(),
    );
    let paths: Statement = statement(read, Fetch::All).bind(Bind::Uuid(id)).bind(
        Bind::Uuid(user_id),
    );
    let remove: String = concat_text(
        "delete from jobs where ",
        where_clause(&conditions, "").as_str(),
    );
    let delete: Statement = statement(remove, Fetch::Execute).bind(Bind::Uuid(id)).bind(
        Bind::Uuid(user_id),
    );
    Deletion { paths, delete }
}

/// What [`delete_for_user`] came to: the blob paths that the job owned.
///
/// # Errors
///
/// Returns [`StorageError::NotFound`] when the job does not exist or belongs to
/// someone else.
pub fn deletion_outcome(paths: Vec<String>, rows_affected: u64) -> (r: Result<
    Vec<String>,
    StorageError,
>)
    ensures
        if rows_affected == 0 {
            r matches Err(error) && error@ == StorageErrorView::NotFound
        } else {
            r == Ok::<Vec<String>, StorageError>(paths)
        },
{
    if rows_affected == 0 {
        Err(StorageError::NotFound)
    } else {
        Ok(paths)
    }
}

/// The rows of a table that a listing is about.
pub open spec fn listed(table: Set<StoredJob>, filter: ListFilter, ages: Ages) -> Set<StoredJob> {
    query::matching(table, conditions(filter), list_statement(filter).binds, ages)
}

/// The rows of a table that are counted for a listing.
pub open spec fn counted(table: Set<StoredJob>, filter: ListFilter, ages: Ages) -> Set<StoredJob> {
    query::matching(table, conditions(filter), count_statement(filter).binds, ages)
}

/// The filters differ in the page and the direction at most.
pub open spec fn same_rows(filter: ListFilter, other: ListFilter) -> bool {
    other == (ListFilter {
        limit: other.limit,
        offset: other.offset,
        newest_first: other.newest_first,
        ..filter
    })
}

/// The limit and the offset make no difference to which rows are meant.
proof fn lemma_same_rows(table: Set<StoredJob>, filter: ListFilter, other: ListFilter, ages: Ages)
    requires
        same_rows(filter, other),
    ensures
        listed(table, other, ages) == counted(table, filter, ages),
{
    assert(conditions(other) == conditions(filter));
    assert forall|row: StoredJob|
        query::admits(conditions(other), list_statement(other).binds, row, ages)
            == query::admits(conditions(filter), count_statement(filter).binds, row, ages) by {
        let all = conditions(filter);
        let long = list_statement(other).binds;
        let short = count_statement(filter).binds;
        assert forall|i: int| 0 <= i < all.len() implies (#[trigger] all[i]).holds(row, long, ages)
            == all[i].holds(row, short, ages) by {
            assert(forall|k: int| 0 <= k < short.len() ==> long[k] == short[k]);
        }
    }
    assert(listed(table, other, ages) =~= counted(table, filter, ages));
}

/// A listing and the count that goes with it put the same conditions on the same
/// values, whatever page is read and in whichever direction: the count is how many
/// rows the listing has in all.
pub proof fn law_count_agrees_with_listing(
    table: Set<StoredJob>,
    filter: ListFilter,
    other: ListFilter,
    ages: Ages,
    rows: Seq<StoredJob>,
)
    requires
        same_rows(filter, other),
        query::answers(rows, listed(table, other, ages), other.newest_first),
    ensures
        conditions(other) == conditions(filter),
        condition_binds(other) == condition_binds(filter),
        count_sql(other) == count_sql(filter),
        listed(table, other, ages) == counted(table, filter, ages),
        rows.len() == counted(table, filter, ages).len(),
{
    lemma_same_rows(table, filter, other, ages);
    query::law_results_are_complete(rows, listed(table, other, ages), other.newest_first);
}

/// Pages of a listing neither repeat nor skip a row: read at the offsets 0, `limit`,
/// twice `limit` and so on over a table that does not change, and put end to end,
/// they hold every matching job exactly once, in the order that was asked for.
///
/// A listing joins each job with its assets, so that a job is one row where it has at
/// most one asset; the law is about such a table.
pub proof fn law_list_pages_add_up(
    table: Set<StoredJob>,
    filter: ListFilter,
    ages: Ages,
    filters: Seq<ListFilter>,
    runs: Seq<Seq<StoredJob>>,
    whole: Seq<StoredJob>,
)
    requires
        filter.limit > 0,
        query::distinct_jobs(table),
        query::answers(whole, listed(table, filter, ages), filter.newest_first),
        filters.len() == runs.len(),
        forall|k: int|
            0 <= k < runs.len() ==> {
                &&& (#[trigger] filters[k]).offset == k * filter.limit
                &&& filters[k] == (ListFilter { offset: filters[k].offset, ..filter })
                &&& query::answers(
                    runs[k],
                    listed(table, filters[k], ages),
                    filters[k].newest_first,
                )
            },
        runs.len() * filter.limit >= whole.len(),
    ensures
        query::put_together(
            Seq::new(
                runs.len(),
                |k: int|
                    query::page(runs[k], filters[k].limit as int, filters[k].offset as int),
            ),
        ) == whole,
        whole.no_duplicates(),
        forall|row: StoredJob| #[trigger]
            whole.contains(row) <==> table.contains(row) && query::admits(
                conditions(filter),
                list_statement(filter).binds,
                row,
                ages,
            ),
{
    let wanted = listed(table, filter, ages);
    let limit = filter.limit as int;
    assert forall|k: int| 0 <= k < runs.len() implies query::answers(
        #[trigger] runs[k],
        wanted,
        filter.newest_first,
    ) by {
        assert(filters[k].offset == k * filter.limit);
        lemma_same_rows(table, filter, filters[k], ages);
        lemma_same_rows(table, filter, filter, ages);
    }
    query::law_pages_hold_every_row_once(runs, whole, wanted, filter.newest_first, limit);
    assert(Seq::new(
        runs.len(),
        |k: int| query::page(runs[k], filters[k].limit as int, filters[k].offset as int),
    ) =~= Seq::new(runs.len(), |k: int| query::page(runs[k], limit, k * limit)));
}

/// The same of the pages of a user's own history.
pub proof fn law_history_pages_add_up(
    table: Set<StoredJob>,
    user_id: Uuid,
    limit: i64,
    offsets: Seq<i64>,
    ages: Ages,
    runs: Seq<Seq<StoredJob>>,
    whole: Seq<StoredJob>,
)
    requires
        limit > 0,
        query::distinct_jobs(table),
        query::answers(
            whole,
            query::matching(
                table,
                history_conditions(),
                page_statement(user_id, limit, 0).binds,
                ages,
            ),
            true,
        ),
        offsets.len() == runs.len(),
        forall|k: int|
            0 <= k < runs.len() ==> {
                &&& #[trigger] offsets[k] == k * limit
                &&& query::answers(
                    runs[k],
                    query::matching(
                        table,
                        history_conditions(),
                        page_statement(user_id, limit, offsets[k]).binds,
                        ages,
                    ),
                    true,
                )
            },
        runs.len() * limit >= whole.len(),
    ensures
        query::put_together(
            Seq::new(
                runs.len(),
                |k: int| query::page(runs[k], limit as int, offsets[k] as int),
            ),
        ) == whole,
        whole.no_duplicates(),
        forall|row: StoredJob| #[trigger]
            whole.contains(row) <==> table.contains(row) && row.owner == user_id,
{
    let binds = page_statement(user_id, limit, 0).binds;
    let wanted = query::matching(table, history_conditions(), binds, ages);
    assert forall|offset: i64| query::matching(
        table,
        history_conditions(),
        #[trigger] page_statement(user_id, limit, offset).binds,
        ages,
    ) == wanted by {
        let other = page_statement(user_id, limit, offset).binds;
        assert forall|row: StoredJob|
            query::admits(history_conditions(), other, row, ages) == query::admits(
                history_conditions(),
                binds,
                row,
                ages,
            ) by {
            lemma_history_is_the_owners(user_id, limit, offset, row, ages);
            lemma_history_is_the_owners(user_id, limit, 0, row, ages);
        }
        assert(query::matching(table, history_conditions(), other, ages) =~= wanted);
    }
    assert forall|k: int| 0 <= k < runs.len() implies query::answers(
        #[trigger] runs[k],
        wanted,
        true,
    ) by {
        assert(offsets[k] == k * limit);
    }
    query::law_pages_hold_every_row_once(runs, whole, wanted, true, limit as int);
    assert(Seq::new(runs.len(), |k: int| query::page(runs[k], limit as int, offsets[k] as int))
        =~= Seq::new(runs.len(), |k: int| query::page(runs[k], limit as int, k * (limit as int))));
    assert forall|row: StoredJob| #[trigger]
        whole.contains(row) <==> table.contains(row) && row.owner == user_id by {
        lemma_history_is_the_owners(user_id, limit, 0, row, ages);
    }
}

/// A user's history is the jobs that belong to them.
proof fn lemma_history_is_the_owners(
    user_id: Uuid,
    limit: i64,
    offset: i64,
    row: StoredJob,
    ages: Ages,
)
    ensures
        query::admits(
            history_conditions(),
            page_statement(user_id, limit, offset).binds,
            row,
            ages,
        ) == (row.owner == user_id),
{
    let binds = page_statement(user_id, limit, offset).binds;
    assert(history_conditions()[0].holds(row, binds, ages) == (row.owner == user_id));
}

/// Every placeholder of a listing has exactly one value: the conditions take the
/// first ones, the limit and the offset the two after them.
pub proof fn law_placeholders_are_bound(filter: ListFilter)
    ensures
        condition_binds(filter).len() == placeholders_used(filter),
        filter.user_id matches Some(id) ==> condition_binds(filter)[0] == BindView::Uuid(id)
            && conditions(filter)[1] == Condition::Owner(1),
        filter.media_type matches Some(m) ==> condition_binds(filter)[placeholders_used(filter) - 1]
            == BindView::Text(media::media_text(m)),
        list_statement(filter).binds.len() == placeholders_used(filter) + 2,
        list_statement(filter).binds[placeholders_used(filter) as int] == BindView::Long(
            filter.limit,
        ),
        list_statement(filter).binds[placeholders_used(filter) as int + 1] == BindView::Long(
            filter.offset,
        ),
{
}

/// A listing that is restricted to a user, and the count that goes with it, mean
/// rows of that user only, whatever else they ask for.
pub proof fn law_listings_are_scoped(filter: ListFilter)
    requires
        filter.user_id is Some,
    ensures
        query::scoped_to(
            conditions(filter),
            list_statement(filter).binds,
            filter.user_id->0,
        ),
        query::scoped_to(
            conditions(filter),
            count_statement(filter).binds,
            filter.user_id->0,
        ),
{
    let owner = filter.user_id->0;
    assert(conditions(filter)[1] == Condition::Owner(1));
    query::lemma_owner_scopes(conditions(filter), list_statement(filter).binds, owner, 1);
    query::lemma_owner_scopes(conditions(filter), count_statement(filter).binds, owner, 1);
}

/// Every statement that reaches jobs on behalf of a user, to read, count, hide or
/// delete them, means rows of that user only: the owner is one of the conditions
/// that all have to hold.
pub proof fn law_reads_are_scoped_by_owner(
    id: Uuid,
    owner: Uuid,
    limit: i64,
    offset: i64,
    hidden: bool,
)
    ensures
        query::scoped_to(owned_conditions(), owned_job_statement(id, owner).binds, owner),
        query::scoped_to(
            history_conditions(),
            page_statement(owner, limit, offset).binds,
            owner,
        ),
        query::scoped_to(active_conditions(), active_statement(owner).binds, owner),
        query::scoped_to(hourly_conditions(), hourly_statement(owner).binds, owner),
        query::scoped_to(
            owned_conditions(),
            visibility_statement(id, owner, hidden).binds,
            owner,
        ),
        query::scoped_to(owned_conditions(), owned_paths_statement(id, owner).binds, owner),
        query::scoped_to(owned_conditions(), deletion_statement(id, owner).binds, owner),
{
    let one = owned_conditions();
    query::lemma_owner_scopes(one, owned_job_statement(id, owner).binds, owner, 1);
    query::lemma_owner_scopes(
        history_conditions(),
        page_statement(owner, limit, offset).binds,
        owner,
        0,
    );
    query::lemma_owner_scopes(active_conditions(), active_statement(owner).binds, owner, 0);
    query::lemma_owner_scopes(hourly_conditions(), hourly_statement(owner).binds, owner, 0);
    query::lemma_owner_scopes(one, visibility_statement(id, owner, hidden).binds, owner, 1);
    query::lemma_owner_scopes(one, owned_paths_statement(id, owner).binds, owner, 1);
    query::lemma_owner_scopes(one, deletion_statement(id, owner).binds, owner, 1);
}

/// What loading a job for a user comes to, over a table.
pub open spec fn job_for_user(table: Set<StoredJob>, id: Uuid, user_id: Uuid, ages: Ages) -> Result<
    StoredJob,
    StorageErrorView,
> {
    query::only_row(
        query::matching(
            table,
            owned_conditions(),
            owned_job_statement(id, user_id).binds,
            ages,
        ),
    )
}

/// Which rows loading a job for a user means.
proof fn lemma_owned_job(id: Uuid, user_id: Uuid, row: StoredJob, ages: Ages)
    ensures
        query::admits(
            owned_conditions(),
            owned_job_statement(id, user_id).binds,
            row,
            ages,
        ) == (row.id == id && row.owner == user_id),
{
    let binds = owned_job_statement(id, user_id).binds;
    assert(owned_conditions()[0].holds(row, binds, ages) == (row.id == id));
    assert(owned_conditions()[1].holds(row, binds, ages) == (row.owner == user_id));
}

/// A job is loaded for its owner and for nobody else: to anyone else it is not
/// found, which is also what becomes of a job that does not exist.
pub proof fn law_anothers_job_looks_missing(
    table: Set<StoredJob>,
    job: StoredJob,
    missing: Uuid,
    user_id: Uuid,
    ages: Ages,
)
    requires
        query::distinct_jobs(table),
        table.contains(job),
        forall|row: StoredJob| #[trigger] table.contains(row) ==> row.id != missing,
    ensures
        user_id == job.owner ==> job_for_user(table, job.id, user_id, ages) == Ok::<
            StoredJob,
            StorageErrorView,
        >(job),
        user_id != job.owner ==> job_for_user(table, job.id, user_id, ages) == Err::<
            StoredJob,
            StorageErrorView,
        >(StorageErrorView::NotFound),
        job_for_user(table, missing, user_id, ages) == Err::<StoredJob, StorageErrorView>(
            StorageErrorView::NotFound,
        ),
{
    let found = query::matching(
        table,
        owned_conditions(),
        owned_job_statement(job.id, user_id).binds,
        ages,
    );
    let absent = query::matching(
        table,
        owned_conditions(),
        owned_job_statement(missing, user_id).binds,
        ages,
    );
    assert forall|row: StoredJob| found.contains(row) implies row == job && job.owner
        == user_id by {
        lemma_owned_job(job.id, user_id, row, ages);
    }
    assert forall|row: StoredJob| !absent.contains(row) by {
        lemma_owned_job(missing, user_id, row, ages);
    }
    assert(absent =~= Set::empty());
    lemma_owned_job(job.id, user_id, job, ages);
    if user_id == job.owner {
        query::lemma_only_row(found, job);
    } else {
        assert(found =~= Set::empty());
    }
}

/// Starting a job means the row with that identifier while it is queued, and
/// finishing one the row while it is queued or running. Once started, a job is not
/// started again: of two workers that pick it up, one finds no row.
pub proof fn law_jobs_start_once(
    row: StoredJob,
    id: Uuid,
    written: StatusView,
    started: StoredJob,
    ages: Ages,
)
    requires
        started.status == StatusView::Running.text(),
    ensures
        query::admits(start_conditions(), start_statement(id).binds, row, ages) <==> row.id == id
            && row.status == "queued"@,
        query::admits(end_conditions(), end_statement(id, written).binds, row, ages) <==> row.id
            == id && (row.status == "queued"@ || row.status == "running"@),
        !query::admits(start_conditions(), start_statement(id).binds, started, ages),
{
    let start = start_statement(id).binds;
    let end = end_statement(id, written).binds;
    assert(start_conditions()[0].holds(row, start, ages) == (row.id == id));
    assert(start_conditions()[1].holds(row, start, ages) == (row.status == "queued"@));
    assert(end_conditions()[0].holds(row, end, ages) == (row.id == id));
    assert(end_conditions()[1].holds(row, end, ages) == (row.status == "queued"@ || row.status
        == "running"@));
    job::law_statuses_read_back(StatusView::Running);
    assert(!start_conditions()[1].holds(started, start, ages));
}

/// A job that has finished stays as it is: neither starting nor finishing a job, by
/// its worker or by the sweep after a restart, means a row whose status is terminal.
pub proof fn law_finished_jobs_stay_finished(
    row: StoredJob,
    status: StatusView,
    id: Uuid,
    written: StatusView,
    code: Seq<char>,
    message: Seq<char>,
    ages: Ages,
)
    requires
        row.status == status.text(),
        status.terminal(),
    ensures
        !query::admits(start_conditions(), start_statement(id).binds, row, ages),
        !query::admits(end_conditions(), end_statement(id, written).binds, row, ages),
        !query::admits(orphan_conditions(), orphans_statement(code, message).binds, row, ages),
{
    job::law_statuses_read_back(status);
    assert(!start_conditions()[1].holds(row, start_statement(id).binds, ages));
    assert(!end_conditions()[1].holds(row, end_statement(id, written).binds, ages));
    assert(!orphan_conditions()[0].holds(row, orphans_statement(code, message).binds, ages));
}

/// A listing means exactly the rows that were asked for, and so does the count that
/// goes with it: each part of the filter restricts the rows where it is set, whatever
/// the others are, and nothing else does.
pub proof fn law_listings_mean_what_was_asked(filter: ListFilter, row: StoredJob, ages: Ages)
    ensures
        query::admits(conditions(filter), list_statement(filter).binds, row, ages) <==> {
            &&& filter.user_id matches Some(user_id) ==> row.owner == user_id
            &&& filter.media_type matches Some(media_type) ==> row.media_type == match media_type {
                MediaType::Image => "image"@,
                MediaType::Audio => "audio"@,
                MediaType::Video => "video"@,
            }
            &&& filter.exclude_hidden ==> !row.hidden
            &&& filter.only_succeeded ==> row.status == "succeeded"@ && row.asset is Some
        },
        query::admits(conditions(filter), count_statement(filter).binds, row, ages)
            <==> query::admits(conditions(filter), list_statement(filter).binds, row, ages),
{
    let all = conditions(filter);
    let binds = list_statement(filter).binds;
    let m = placeholders_used(filter) as u64;
    let media = if filter.user_id is Some {
        2int
    } else {
        1int
    };
    let hidden = media + if filter.media_type is Some {
        1int
    } else {
        0int
    };
    let stored = hidden + if filter.exclude_hidden {
        1int
    } else {
        0int
    };
    assert(all[0] == Condition::Always);
    if let Some(user_id) = filter.user_id {
        assert(all[1] == Condition::Owner(1) && binds[0] == BindView::Uuid(user_id));
        assert(all[1].holds(row, binds, ages) == (row.owner == user_id));
    }
    if let Some(media_type) = filter.media_type {
        assert(all[media] == Condition::Media(m));
        assert(binds[m - 1] == BindView::Text(media::media_text(media_type)));
        assert(all[media].holds(row, binds, ages) == (row.media_type == media::media_text(
            media_type,
        )));
    }
    if filter.exclude_hidden {
        assert(all[hidden] == Condition::Visible);
        assert(all[hidden].holds(row, binds, ages) == !row.hidden);
    }
    if filter.only_succeeded {
        assert(all[stored] == Condition::Stored);
        assert(all[stored].holds(row, binds, ages) == (row.status == "succeeded"@
            && row.asset is Some));
    }
    assert forall|i: int| 0 <= i < all.len() implies (#[trigger] all[i]).holds(row, binds, ages)
        == all[i].holds(row, count_statement(filter).binds, ages) by {
        assert(forall|k: int|
            0 <= k < condition_binds(filter).len() ==> binds[k] == condition_binds(filter)[k]);
    }
}

/// How a listing reads, whatever the filter: it puts the conditions of the filter on
/// jobs that are joined with their owner and their asset, orders them by age from the
/// end that was asked for, and takes the limit and the offset from the two placeholders
/// after those of the conditions. The count puts the same conditions on the same rows.
pub proof fn law_listings_read_as_sql(filter: ListFilter)
    ensures
        list_statement(filter).sql == "select "@ + LIST_COLUMNS@ + "
         from jobs j
         join users u on u.id = j.user_id
         left join assets a on a.job_id = j.id
         where "@ + query::where_text(conditions(filter), "j."@) + (if filter.newest_first {
            "
         order by j.created_at desc, j.id
         limit $"@
        } else {
            "
         order by j.created_at asc, j.id
         limit $"@
        }) + number::decimal(condition_binds(filter).len() + 1) + " offset $"@ + number::decimal(
            condition_binds(filter).len() + 2,
        ),
        count_statement(filter).sql == "select count(*) as antall
         from jobs j
         left join assets a on a.job_id = j.id
         where "@ + query::where_text(conditions(filter), "j."@),
{
    query::law_the_order_is_by_age(arbitrary(), arbitrary(), "j."@);
    reveal_strlit("$");
    reveal_strlit("j.");
    reveal_strlit("id");
    reveal_strlit(" offset ");
    reveal_strlit(" offset $");
    reveal_strlit("created_at desc, ");
    reveal_strlit("created_at asc, ");
    reveal_strlit("
         order by ");
    reveal_strlit("
         limit ");
    reveal_strlit("
         order by j.created_at desc, j.id
         limit $");
    reveal_strlit("
         order by j.created_at asc, j.id
         limit $");
    let head = "select "@ + LIST_COLUMNS@ + "
         from jobs j
         join users u on u.id = j.user_id
         left join assets a on a.job_id = j.id
         where "@ + query::where_text(conditions(filter), "j."@);
    let n = placeholders_used(filter);
    assert(condition_binds(filter).len() == n);
    let first = number::decimal(n + 1);
    let second = number::decimal(n + 2);
    if filter.newest_first {
        assert(list_sql(filter) =~= head + "
         order by j.created_at desc, j.id
         limit $"@ + first + " offset $"@ + second);
    } else {
        assert(list_sql(filter) =~= head + "
         order by j.created_at asc, j.id
         limit $"@ + first + " offset $"@ + second);
    }
}

/// No value that a caller supplies stands in the text of a statement: statements for
/// different values read the same.
pub proof fn law_texts_carry_no_values(
    id: Uuid,
    user_id: Uuid,
    other_id: Uuid,
    other_user: Uuid,
    limit: i64,
    offset: i64,
    hidden: bool,
    days: i32,
    written: StatusView,
    text: Seq<char>,
    filter: ListFilter,
    other: ListFilter,
)
    ensures
        owned_job_statement(id, user_id).sql == owned_job_statement(other_id, other_user).sql,
        page_statement(user_id, limit, offset).sql == page_statement(other_user, 20, 0).sql,
        active_statement(user_id).sql == active_statement(other_user).sql,
        start_statement(id).sql == start_statement(other_id).sql,
        end_statement(id, written).sql == end_statement(other_id, StatusView::Succeeded).sql,
        orphans_statement(text, text).sql == orphans_statement("internal"@, ""@).sql,
        hourly_statement(user_id).sql == hourly_statement(other_user).sql,
        expiry_statement(days).sql == expiry_statement(90).sql,
        visibility_statement(id, user_id, hidden).sql == visibility_statement(
            other_id,
            other_user,
            true,
        ).sql,
        owned_paths_statement(id, user_id).sql == owned_paths_statement(other_id, other_user).sql,
        deletion_statement(id, user_id).sql == deletion_statement(other_id, other_user).sql,
        (filter.user_id is Some == other.user_id is Some && filter.media_type is Some
            == other.media_type is Some && filter.exclude_hidden == other.exclude_hidden
            && filter.only_succeeded == other.only_succeeded) ==> {
            &&& count_statement(filter).sql == count_statement(other).sql
            &&& filter.newest_first == other.newest_first ==> list_statement(filter).sql
                == list_statement(other).sql
        },
{
    assert(filter.user_id is Some == other.user_id is Some && filter.media_type is Some
        == other.media_type is Some && filter.exclude_hidden == other.exclude_hidden
        && filter.only_succeeded == other.only_succeeded ==> conditions(filter) == conditions(
        other,
    ));
}

/// Which rows the other statements mean: a job of a user is the one with that
/// identifier that is theirs, whether it is hidden, deleted or asked for its files; an
/// active job is queued or running; the jobs of the last hour are younger than that,
/// whatever became of them; and the sweep after a restart means every unfinished job.
pub proof fn law_statements_mean_these_rows(
    id: Uuid,
    user_id: Uuid,
    hidden: bool,
    code: Seq<char>,
    message: Seq<char>,
    row: StoredJob,
    ages: Ages,
)
    ensures
        ({
            let its_owner = row.id == id && row.owner == user_id;
            &&& query::admits(
                owned_conditions(),
                owned_job_statement(id, user_id).binds,
                row,
                ages,
            ) <==> its_owner
            &&& query::admits(
                owned_conditions(),
                visibility_statement(id, user_id, hidden).binds,
                row,
                ages,
            ) <==> its_owner
            &&& query::admits(
                owned_conditions(),
                owned_paths_statement(id, user_id).binds,
                row,
                ages,
            ) <==> its_owner
            &&& query::admits(
                owned_conditions(),
                deletion_statement(id, user_id).binds,
                row,
                ages,
            ) <==> its_owner
        }),
        query::admits(active_conditions(), active_statement(user_id).binds, row, ages)
            <==> row.owner == user_id && (row.status == "queued"@ || row.status == "running"@),
        query::admits(hourly_conditions(), hourly_statement(user_id).binds, row, ages)
            <==> row.owner == user_id && row.created_at > ages.hour_ago,
        query::admits(orphan_conditions(), orphans_statement(code, message).binds, row, ages)
            <==> row.status == "queued"@ || row.status == "running"@,
{
    lemma_owned_job(id, user_id, row, ages);
    let one = owned_conditions();
    let hide = visibility_statement(id, user_id, hidden).binds;
    assert(one[0].holds(row, hide, ages) == (row.id == id));
    assert(one[1].holds(row, hide, ages) == (row.owner == user_id));
    let active = active_statement(user_id).binds;
    assert(active_conditions()[0].holds(row, active, ages) == (row.owner == user_id));
    assert(active_conditions()[1].holds(row, active, ages) == (row.status == "queued"@
        || row.status == "running"@));
    let hourly = hourly_statement(user_id).binds;
    assert(hourly_conditions()[0].holds(row, hourly, ages) == (row.owner == user_id));
    assert(hourly_conditions()[1].holds(row, hourly, ages) == (row.created_at > ages.hour_ago));
    let sweep = orphans_statement(code, message).binds;
    assert(orphan_conditions()[0].holds(row, sweep, ages) == (row.status == "queued"@
        || row.status == "running"@));
}

/// What is written is what was asked for: the status of a finished job reads back from
/// the three values that go with it, a job is hidden exactly when that was asked for,
/// and the sweep after a restart writes its own code and message.
pub proof fn law_updates_write_what_was_asked(
    id: Uuid,
    user_id: Uuid,
    status: StatusView,
    hidden: bool,
    code: Seq<char>,
    message: Seq<char>,
)
    ensures
        end_statement(id, status).binds.len() == 4,
        match (
            end_statement(id, status).binds[1],
            end_statement(id, status).binds[2],
            end_statement(id, status).binds[3],
        ) {
            (BindView::Text(s), BindView::OptionalText(c), BindView::OptionalText(m)) =>
                job::status_of_columns(s, c, m) == status,
            _ => false,
        },
        visibility_statement(id, user_id, hidden).binds[2] == BindView::Flag(hidden),
        orphans_statement(code, message).binds == seq![
            BindView::Text(code),
            BindView::Text(message),
        ],
{
    job::law_statuses_read_back(status);
}

/// A row shows what it holds: a kind of media and a status are read back from what they
/// were stored as, and the job is the viewer's own exactly when they own it.
pub proof fn law_rows_show_what_they_hold(
    row: ListRow,
    viewer: Uuid,
    item: JobListItem,
    media_type: MediaType,
    status: StatusView,
)
    requires
        shows(item, row, viewer),
        row.media_type@ == media::media_text(media_type),
        row.status@ == status.text(),
        statement::optional_text(row.error_code) == status.code_column(),
        statement::optional_text(row.error_message) == status.message_column(),
    ensures
        item.id == row.id,
        item.media_type == media_type,
        item.prompt@ == row.prompt@,
        item.status@ == status,
        item.created_at == row.created_at,
        item.asset_id == row.asset_id,
        item.owner_name@ == row.owner_name@,
        item.hidden == row.hidden,
        item.owned_by_viewer <==> row.user_id == viewer,
{
    job::law_statuses_read_back(status);
    media::law_media_types_read_back(media_type);
}

/// How the `where` clauses of the statements read.
pub(crate) proof fn lemma_where_clauses()
    ensures
        query::where_text(owned_conditions(), ""@) == "id = $1 and user_id = $2"@,
        query::where_text(owned_conditions(), "j."@) == "j.id = $1 and j.user_id = $2"@,
        query::where_text(history_conditions(), ""@) == "user_id = $1"@,
        query::where_text(active_conditions(), ""@) == "user_id = $1 and status in ('queued', 'running')"@,
        query::where_text(start_conditions(), ""@) == "id = $1 and status = 'queued'"@,
        query::where_text(end_conditions(), ""@) == "id = $1 and status in ('queued', 'running')"@,
        query::where_text(orphan_conditions(), ""@) == "status in ('queued', 'running')"@,
        query::where_text(hourly_conditions(), ""@) == "user_id = $1 and created_at > now() - interval '1 hour'"@,
        query::where_text(expiry_conditions(), ""@) == "created_at < now() - make_interval(days => $1)"@,
        query::where_text(expiry_conditions(), "j."@) == "j.created_at < now() - make_interval(days => $1)"@,
{
    query::law_conditions_read_as_sql(1, ""@);
    query::law_conditions_read_as_sql(2, ""@);
    query::law_conditions_read_as_sql(1, "j."@);
    query::law_conditions_read_as_sql(2, "j."@);
    assert(number::decimal(1) =~= seq!['1']);
    assert(number::decimal(2) =~= seq!['2']);
    reveal_strlit("");
    reveal_strlit("j.");
    reveal_strlit(" and ");
    reveal_strlit("id = $");
    reveal_strlit("user_id = $");
    reveal_strlit("status = 'queued'");
    reveal_strlit("status in ('queued', 'running')");
    reveal_strlit("created_at > now() - interval '1 hour'");
    reveal_strlit("created_at < now() - make_interval(days => $");
    reveal_strlit(")");
    reveal_strlit("id = $1 and user_id = $2");
    reveal_strlit("j.id = $1 and j.user_id = $2");
    reveal_strlit("user_id = $1");
    reveal_strlit("user_id = $1 and status in ('queued', 'running')");
    reveal_strlit("id = $1 and status = 'queued'");
    reveal_strlit("id = $1 and status in ('queued', 'running')");
    reveal_strlit("user_id = $1 and created_at > now() - interval '1 hour'");
    reveal_strlit("created_at < now() - make_interval(days => $1)");
    reveal_strlit("j.created_at < now() - make_interval(days => $1)");
    query::law_conditions_are_joined(seq![Condition::Id(1)], Condition::Owner(2), ""@);
    query::law_conditions_are_joined(seq![], Condition::Id(1), ""@);
    assert(owned_conditions() =~= seq![Condition::Id(1)].push(Condition::Owner(2)));
    assert(query::where_text(owned_conditions(), ""@) =~= "id = $1 and user_id = $2"@);
    query::law_conditions_are_joined(seq![Condition::Id(1)], Condition::Owner(2), "j."@);
    query::law_conditions_are_joined(seq![], Condition::Id(1), "j."@);
    assert(owned_conditions() =~= seq![Condition::Id(1)].push(Condition::Owner(2)));
    assert(query::where_text(owned_conditions(), "j."@) =~= "j.id = $1 and j.user_id = $2"@);
    query::law_conditions_are_joined(seq![], Condition::Owner(1), ""@);
    assert(query::where_text(history_conditions(), ""@) =~= "user_id = $1"@);
    query::law_conditions_are_joined(seq![Condition::Owner(1)], Condition::Unfinished, ""@);
    query::law_conditions_are_joined(seq![], Condition::Owner(1), ""@);
    assert(active_conditions() =~= seq![Condition::Owner(1)].push(Condition::Unfinished));
    assert(query::where_text(active_conditions(), ""@) =~= "user_id = $1 and status in ('queued', 'running')"@);
    query::law_conditions_are_joined(seq![Condition::Id(1)], Condition::Waiting, ""@);
    query::law_conditions_are_joined(seq![], Condition::Id(1), ""@);
    assert(start_conditions() =~= seq![Condition::Id(1)].push(Condition::Waiting));
    assert(query::where_text(start_conditions(), ""@) =~= "id = $1 and status = 'queued'"@);
    query::law_conditions_are_joined(seq![Condition::Id(1)], Condition::Unfinished, ""@);
    query::law_conditions_are_joined(seq![], Condition::Id(1), ""@);
    assert(end_conditions() =~= seq![Condition::Id(1)].push(Condition::Unfinished));
    assert(query::where_text(end_conditions(), ""@) =~= "id = $1 and status in ('queued', 'running')"@);
    query::law_conditions_are_joined(seq![], Condition::Unfinished, ""@);
    assert(query::where_text(orphan_conditions(), ""@) =~= "status in ('queued', 'running')"@);
    query::law_conditions_are_joined(seq![Condition::Owner(1)], Condition::LastHour, ""@);
    query::law_conditions_are_joined(seq![], Condition::Owner(1), ""@);
    assert(hourly_conditions() =~= seq![Condition::Owner(1)].push(Condition::LastHour));
    assert(query::where_text(hourly_conditions(), ""@) =~= "user_id = $1 and created_at > now() - interval '1 hour'"@);
    query::law_conditions_are_joined(seq![], Condition::Older(1), ""@);
    assert(query::where_text(expiry_conditions(), ""@) =~= "created_at < now() - make_interval(days => $1)"@);
    query::law_conditions_are_joined(seq![], Condition::Older(1), "j."@);
    assert(query::where_text(expiry_conditions(), "j."@) =~= "j.created_at < now() - make_interval(days => $1)"@);
}

/// What each statement says and takes, whatever the values: its whole text behind the
/// columns that it selects, the values in the order of their placeholders, and how it is
/// run.
pub proof fn law_statements_say_and_take(
    id: Uuid,
    user_id: Uuid,
    limit: i64,
    offset: i64,
    one: Statement,
    worker: Statement,
    page: Statement,
    active: Statement,
    start: Statement,
    hourly: Statement,
)
    requires
        call_ensures(by_id_for_user, (id, user_id), one),
        call_ensures(by_id_for_worker, (id,), worker),
        call_ensures(page_for_user, (user_id, limit, offset), page),
        call_ensures(active_for_user, (user_id,), active),
        call_ensures(mark_running, (id,), start),
        call_ensures(count_last_hour, (user_id,), hourly),
    ensures
        one@.sql == "select "@ + JOB_COLUMNS@ + " from jobs where "@
            + "id = $1 and user_id = $2"@,
        one@.binds == seq![BindView::Uuid(id), BindView::Uuid(user_id)],
        one@.fetch == Fetch::One,
        worker@.sql == "select "@ + JOB_COLUMNS@ + " from jobs where id = $1"@,
        worker@.binds == seq![BindView::Uuid(id)],
        worker@.fetch == Fetch::One,
        page@.sql == "select "@ + JOB_COLUMNS@ + " from jobs
         where "@ + "user_id = $1"@ + "
         order by "@ + query::order_text(true, ""@) + "
         limit $2 offset $3"@,
        page@.binds == seq![
            BindView::Uuid(user_id),
            BindView::Long(limit),
            BindView::Long(offset),
        ],
        page@.fetch == Fetch::All,
        active@.sql == "select "@ + JOB_COLUMNS@ + " from jobs
         where "@ + "user_id = $1 and status in ('queued', 'running')"@ + "
         order by created_at desc"@,
        active@.binds == seq![BindView::Uuid(user_id)],
        active@.fetch == Fetch::All,
        start@.sql == "update jobs
         set status = 'running', started_at = now()
         where "@ + "id = $1 and status = 'queued'"@ + "
         returning "@ + JOB_COLUMNS@,
        start@.binds == seq![BindView::Uuid(id)],
        start@.fetch == Fetch::One,
        hourly@.sql == "select count(*) as antall from jobs
         where "@ + "user_id = $1 and created_at > now() - interval '1 hour'"@,
        hourly@.binds == seq![BindView::Uuid(user_id)],
        hourly@.fetch == Fetch::One,
{
    lemma_where_clauses();
}

/// The same of the statements that change jobs.
pub proof fn law_changes_say_and_take(
    id: Uuid,
    user_id: Uuid,
    status: JobStatus,
    hidden: bool,
    code: &str,
    message: &str,
    days: i32,
    provider_job_id: &str,
    new_job: NewJob,
    inserted: Statement,
    end: Statement,
    named: Statement,
    sweep: Statement,
    expiry: Statement,
    visibility: Statement,
    deletion: Deletion,
)
    requires
        call_ensures(create, (&new_job,), inserted),
        call_ensures(finish, (id, &status), end),
        call_ensures(set_provider_job_id, (id, provider_job_id), named),
        call_ensures(fail_orphans, (code, message), sweep),
        call_ensures(delete_older_than, (days,), expiry),
        call_ensures(set_hidden, (id, user_id, hidden), visibility),
        call_ensures(delete_for_user, (id, user_id), deletion),
    ensures
        inserted@.sql
            == "insert into jobs (user_id, media_type, prompt, parameters, status)
         values ($1, $2::media_type, $3, $4, 'queued')
         returning "@ + JOB_COLUMNS@,
        inserted@.binds == seq![
            BindView::Uuid(new_job.user_id),
            BindView::Text(
                match new_job.media_type {
                    MediaType::Image => "image"@,
                    MediaType::Audio => "audio"@,
                    MediaType::Video => "video"@,
                },
            ),
            BindView::Text(new_job.prompt@),
            BindView::Json(new_job.parameters),
        ],
        inserted@.fetch == Fetch::One,
        end@.sql == "update jobs
         set status = $2, error_code = $3, error_message = $4, completed_at = now()
         where "@ + "id = $1 and status in ('queued', 'running')"@ + "
         returning "@ + JOB_COLUMNS@,
        end@.binds.len() == 4 && end@.binds[0] == BindView::Uuid(id),
        match (end@.binds[1], end@.binds[2], end@.binds[3]) {
            (BindView::Text(s), BindView::OptionalText(c), BindView::OptionalText(m)) =>
                job::status_of_columns(s, c, m) == status@,
            _ => false,
        },
        end@.fetch == Fetch::One,
        named@.sql == "update jobs set provider_job_id = $2 where id = $1"@,
        named@.binds == seq![BindView::Uuid(id), BindView::Text(provider_job_id@)],
        named@.fetch == Fetch::Execute,
        sweep@.sql == "update jobs
         set status = 'failed', error_code = $1, error_message = $2, completed_at = now()
         where "@ + "status in ('queued', 'running')"@,
        sweep@.binds == seq![BindView::Text(code@), BindView::Text(message@)],
        sweep@.fetch == Fetch::Execute,
        expiry@.sql == "delete from jobs where "@
            + "created_at < now() - make_interval(days => $1)"@,
        expiry@.binds == seq![BindView::Int(days)],
        expiry@.fetch == Fetch::Execute,
        visibility@.sql == "update jobs set hidden = $3 where "@ + "id = $1 and user_id = $2"@,
        visibility@.binds == seq![
            BindView::Uuid(id),
            BindView::Uuid(user_id),
            BindView::Flag(hidden),
        ],
        visibility@.fetch == Fetch::Execute,
        deletion.paths@.sql == "select a.blob_path
         from assets a
         join jobs j on j.id = a.job_id
         where "@ + "j.id = $1 and j.user_id = $2"@,
        deletion.paths@.binds == seq![BindView::Uuid(id), BindView::Uuid(user_id)],
        deletion.paths@.fetch == Fetch::All,
        deletion.delete@.sql == "delete from jobs where "@ + "id = $1 and user_id = $2"@,
        deletion.delete@.binds == seq![BindView::Uuid(id), BindView::Uuid(user_id)],
        deletion.delete@.fetch == Fetch::Execute,
{
    lemma_where_clauses();
    job::law_statuses_read_back(status@);
}

/// What a listing and its count ask the database for: their texts hold a `where` clause
/// that means, with the values that go with it, exactly the rows of the filter, each part
/// of which restricts the rows where it is set and whatever the others are. The limit and
/// the offset go to the listing alone.
pub proof fn law_listings_ask_for_the_filter(
    filter: ListFilter,
    predicates: (String, bool, bool),
    listing: Statement,
    counting: Statement,
    row: StoredJob,
    ages: Ages,
)
    requires
        call_ensures(list_predicates, (&filter,), predicates),
        call_ensures(list, (&filter,), listing),
        call_ensures(count, (&filter,), counting),
    ensures
        predicates.0@ == query::where_text(conditions(filter), "j."@),
        query::admits(conditions(filter), listing@.binds, row, ages) <==> {
            &&& filter.user_id matches Some(user_id) ==> row.owner == user_id
            &&& filter.media_type matches Some(media_type) ==> row.media_type == match media_type {
                MediaType::Image => "image"@,
                MediaType::Audio => "audio"@,
                MediaType::Video => "video"@,
            }
            &&& filter.exclude_hidden ==> !row.hidden
            &&& filter.only_succeeded ==> row.status == "succeeded"@ && row.asset is Some
        },
        query::admits(conditions(filter), counting@.binds, row, ages) <==> query::admits(
            conditions(filter),
            listing@.binds,
            row,
            ages,
        ),
        chars::has_text(listing@.sql, predicates.0@),
        chars::has_text(counting@.sql, predicates.0@),
        listing@.binds == counting@.binds + seq![
            BindView::Long(filter.limit),
            BindView::Long(filter.offset),
        ],
        predicates.1 == filter.user_id is Some,
        predicates.2 == filter.media_type is Some,
        listing@.fetch == Fetch::All,
        counting@.fetch == Fetch::One,
{
    law_listings_mean_what_was_asked(filter, row, ages);
    law_listings_read_as_sql(filter);
    let clause = predicates.0@;
    let head = "select "@ + LIST_COLUMNS@ + "
         from jobs j
         join users u on u.id = j.user_id
         left join assets a on a.job_id = j.id
         where "@;
    let tail = listing@.sql.skip((head.len() + clause.len()) as int);
    assert(listing@.sql =~= head + clause + tail);
    chars::law_a_part_is_found(head, clause, tail);
    let counted = "select count(*) as antall
         from jobs j
         left join assets a on a.job_id = j.id
         where "@;
    assert(counting@.sql =~= counted + clause + Seq::empty());
    chars::law_a_part_is_found(counted, clause, Seq::empty());
    assert(listing@.binds =~= counting@.binds + seq![
        BindView::Long(filter.limit),
        BindView::Long(filter.offset),
    ]);
}

/// A row becomes the job that was stored in it.
pub proof fn law_rows_become_the_job(
    row: JobRow,
    made: Job,
    media_type: MediaType,
    status: StatusView,
)
    requires
        call_ensures(to_job, (row,), made),
        row.media_type@ == media::media_text(media_type),
        row.status@ == status.text(),
        statement::optional_text(row.error_code) == status.code_column(),
        statement::optional_text(row.error_message) == status.message_column(),
    ensures
        made.id == row.id,
        made.user_id == row.user_id,
        made.media_type == media_type,
        made.prompt == row.prompt,
        made.parameters == row.parameters,
        made.status@ == status,
        made.provider_job_id == row.provider_job_id,
        made.created_at == row.created_at,
        made.started_at == row.started_at,
        made.completed_at == row.completed_at,
{
    job::law_statuses_read_back(status);
    media::law_media_types_read_back(media_type);
}

/// A row whose kind of media nobody knows is shown as an image.
pub proof fn law_unknown_media_are_images(row: JobRow, made: Job)
    requires
        call_ensures(to_job, (row,), made),
        row.media_type@ != "audio"@,
        row.media_type@ != "video"@,
    ensures
        made.media_type == MediaType::Image,
{
}

/// Hiding and deleting fail exactly when they touched no row, as they do for a job that is
/// not there or is somebody else's; a deletion that worked hands out the paths that were
/// read.
pub proof fn law_untouched_rows_are_not_found(
    rows_affected: u64,
    paths: Vec<String>,
    hidden: Result<(), StorageError>,
    deleted: Result<Vec<String>, StorageError>,
)
    requires
        call_ensures(hidden_outcome, (rows_affected,), hidden),
        call_ensures(deletion_outcome, (paths, rows_affected), deleted),
    ensures
        hidden is Ok <==> rows_affected > 0,
        deleted is Ok <==> rows_affected > 0,
        hidden matches Err(error) ==> error@ == StorageErrorView::NotFound,
        deleted matches Err(error) ==> error@ == StorageErrorView::NotFound,
        deleted matches Ok(kept) ==> kept == paths,
{
}

/// A row of a listing is shown as what it holds, and as the viewer's own exactly when they
/// own it, whoever looks and whatever the row says otherwise.
pub proof fn law_listed_rows_are_shown(row: ListRow, viewer: Uuid, item: JobListItem)
    requires
        call_ensures(to_list_item, (row, viewer), item),
    ensures
        item.id == row.id,
        item.prompt == row.prompt,
        item.created_at == row.created_at,
        item.asset_id == row.asset_id,
        item.owner_name == row.owner_name,
        item.hidden == row.hidden,
        item.owned_by_viewer <==> row.user_id == viewer,
        row.media_type@ == "audio"@ ==> item.media_type == MediaType::Audio,
        row.media_type@ == "video"@ ==> item.media_type == MediaType::Video,
        row.media_type@ != "audio"@ && row.media_type@ != "video"@ ==> item.media_type
            == MediaType::Image,
        item.status@ == job::status_of_columns(
            row.status@,
            match row.error_code {
                Some(code) => Some(code@),
                None => None,
            },
            match row.error_message {
                Some(message) => Some(message@),
                None => None,
            },
        ),
{
    reveal_strlit("image");
    reveal_strlit("audio");
    reveal_strlit("video");
    assert("image"@[0] == 'i' && "audio"@[0] == 'a' && "video"@[0] == 'v');
}

} // verus!
