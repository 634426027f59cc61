//! The `where` and `order by` clauses of the repositories: how they read, and which
//! rows they mean.
//!
//! A clause is built from a list of conditions, so that its text and its meaning
//! come from one place. All conditions of a list have to hold.
use vstd::prelude::*;
use vstd::string::*;

use crate::domain::job::{JobStatus, StatusView};
use crate::id::Uuid;
use crate::storage::error;
use crate::storage::error::{DriverError, StorageErrorView};
use crate::storage::statement;
use crate::storage::statement::BindView;
use crate::text::chars;
use crate::text::chars::join_text;
use crate::text::number;
use crate::text::number::push_decimal;

verus! {

/// A condition on a job. A number is that of the placeholder that it compares with,
/// counted from 1.
#[derive(Debug, Clone, Copy, PartialEq, Eq, Structural)]
pub enum Condition {
    /// No condition.
    Always,
    /// The job has this identifier.
    Id(u64),
    /// The job belongs to this user.
    Owner(u64),
    /// The job produced this asset.
    Asset(u64),
    /// The job is for this kind of media.
    Media(u64),
    /// The owner has not hidden the job.
    Visible,
    /// No worker has picked the job up.
    Waiting,
    /// The job has not finished.
    Unfinished,
    /// The job succeeded, and its file is there.
    Stored,
    /// The job is less than an hour old.
    LastHour,
    /// The job is older than this many days.
    Older(u64),
}

/// A job as the conditions see it: its columns, and the asset that it is joined with.
pub struct StoredJob {
    /// `id`.
    pub id: Uuid,
    /// `user_id`.
    pub owner: Uuid,
    /// `media_type`.
    pub media_type: Seq<char>,
    /// `status`.
    pub status: Seq<char>,
    /// `created_at`, in nanoseconds since 1970.
    pub created_at: int,
    /// `hidden`.
    pub hidden: bool,
    /// The asset, if there is one.
    pub asset: Option<Uuid>,
}

/// The instants that the database measures ages against.
pub struct Ages {
    /// An hour before now.
    pub hour_ago: int,
    /// So many days before now.
    pub days_ago: spec_fn(int) -> int,
}

impl Condition {
    /// How the condition reads, with `qualifier` before the columns of the job.
    pub open spec fn text(self, qualifier: Seq<char>) -> Seq<char> {
        match self {
            Condition::Always => "true"@,
            Condition::Id(n) => qualifier + "id = "@ + statement::placeholder(n as nat),
            Condition::Owner(n) => qualifier + "user_id = "@ + statement::placeholder(n as nat),
            Condition::Asset(n) => "a.id = "@ + statement::placeholder(n as nat),
            Condition::Media(n) => qualifier + "media_type = "@ + statement::placeholder(n as nat)
                + "::media_type"@,
            Condition::Visible => "not "@ + qualifier + "hidden"@,
            Condition::Waiting => qualifier + "status = '"@ + StatusView::Queued.text() + "'"@,
            Condition::Unfinished => qualifier + "status in ('"@ + StatusView::Queued.text()
                + "', '"@ + StatusView::Running.text() + "')"@,
            Condition::Stored => qualifier + "status = '"@ + StatusView::Succeeded.text()
                + "' and a.id is not null"@,
            Condition::LastHour => qualifier + "created_at > now() - interval '1 hour'"@,
            Condition::Older(n) => qualifier + "created_at < now() - make_interval(days => "@
                + statement::placeholder(n as nat) + ")"@,
        }
    }

    /// The condition holds of a row, under the parameters of the statement.
    pub open spec fn holds(self, row: StoredJob, binds: Seq<BindView>, ages: Ages) -> bool {
        match self {
            Condition::Always => true,
            Condition::Id(n) => binds[n - 1] == BindView::Uuid(row.id),
            Condition::Owner(n) => binds[n - 1] == BindView::Uuid(row.owner),
            Condition::Asset(n) => row.asset is Some && binds[n - 1] == BindView::Uuid(
                row.asset->0,
            ),
            Condition::Media(n) => binds[n - 1] == BindView::Text(row.media_type),
            Condition::Visible => !row.hidden,
            Condition::Waiting => row.status == StatusView::Queued.text(),
            Condition::Unfinished => row.status == StatusView::Queued.text() || row.status
                == StatusView::Running.text(),
            Condition::Stored => row.status == StatusView::Succeeded.text() && row.asset is Some,
            Condition::LastHour => row.created_at > ages.hour_ago,
            Condition::Older(n) => binds[n - 1] matches BindView::Int(days) && row.created_at < (
            ages.days_ago)(days as int),
        }
    }

    /// Writes the condition, with `qualifier` before the columns of the job.
    pub fn render(&self, qualifier: &str) -> (r: String)
        ensures
            r@ == self.text(qualifier@),
    {
        let mut out = String::new();
        assert(out@ + qualifier@ =~= qualifier@);
        match self {
            Condition::Always => {
                out.append("true");
                assert(out@ =~= "true"@);
            },
            Condition::Id(n) => {
                out.append(qualifier);
                out.append("id = ");
                push_placeholder(&mut out, *n);
            },
            Condition::Owner(n) => {
                out.append(qualifier);
                out.append("user_id = ");
                push_placeholder(&mut out, *n);
            },
            Condition::Asset(n) => {
                out.append("a.id = ");
                assert(out@ =~= "a.id = "@);
                push_placeholder(&mut out, *n);
            },
            Condition::Media(n) => {
                out.append(qualifier);
                out.append("media_type = ");
                push_placeholder(&mut out, *n);
                out.append("::media_type");
            },
            Condition::Visible => {
                out.append("not ");
                assert(out@ =~= "not "@);
                out.append(qualifier);
                out.append("hidden");
            },
            Condition::Waiting => {
                out.append(qualifier);
                out.append("status = '");
                out.append(JobStatus::Queued.as_str());
                out.append("'");
            },
            Condition::Unfinished => {
                out.append(qualifier);
                out.append("status in ('");
                out.append(JobStatus::Queued.as_str());
                out.append("', '");
                out.append(JobStatus::Running.as_str());
                out.append("')");
            },
            Condition::Stored => {
                out.append(qualifier);
                out.append("status = '");
                out.append(JobStatus::Succeeded.as_str());
                out.append("' and a.id is not null");
            },
            Condition::LastHour => {
                out.append(qualifier);
                out.append("created_at > now() - interval '1 hour'");
            },
            Condition::Older(n) => {
                out.append(qualifier);
                out.append("created_at < now() - make_interval(days => ");
                push_placeholder(&mut out, *n);
                out.append(")");
            },
        }
        out
    }
}

/// Writes a numbered placeholder at the end of `out`.
pub(crate) fn push_placeholder(out: &mut String, n: u64)
    ensures
        final(out)@ == old(out)@ + statement::placeholder(n as nat),
{
    out.append("$");
    push_decimal(out, n);
    assert(out@ =~= old(out)@ + statement::placeholder(n as nat));
}

/// How the conditions of a list read.
pub open spec fn texts(conditions: Seq<Condition>, qualifier: Seq<char>) -> Seq<Seq<char>> {
    conditions.map_values(|c: Condition| c.text(qualifier))
}

/// How a `where` clause reads behind its first word.
pub open spec fn where_text(conditions: Seq<Condition>, qualifier: Seq<char>) -> Seq<char> {
    chars::joined(texts(conditions, qualifier), " and "@)
}

/// Writes a `where` clause, without its first word.
pub(crate) fn where_clause(conditions: &Vec<Condition>, qualifier: &str) -> (r: String)
    ensures
        r@ == where_text(conditions@, qualifier@),
{
    let mut parts: Vec<String> = Vec::new();
    let mut i: usize = 0;
    while i < conditions.len()
        invariant
            i <= conditions@.len(),
            parts@.len() == i,
            forall|j: int|
                0 <= j < i ==> #[trigger] parts@[j]@ == conditions@[j].text(qualifier@),
        decreases conditions@.len() - i,
    {
        parts.push(conditions[i].render(qualifier));
        i = i + 1;
    }
    assert(chars::texts(parts@) =~= texts(conditions@, qualifier@));
    join_text(&parts, " and ")
}

/// A row meets every condition of a list.
pub open spec fn admits(
    conditions: Seq<Condition>,
    binds: Seq<BindView>,
    row: StoredJob,
    ages: Ages,
) -> bool {
    forall|i: int|
        0 <= i < conditions.len() ==> (#[trigger] conditions[i]).holds(row, binds, ages)
}

/// The rows of a table that meet every condition of a list.
pub open spec fn matching(
    table: Set<StoredJob>,
    conditions: Seq<Condition>,
    binds: Seq<BindView>,
    ages: Ages,
) -> Set<StoredJob> {
    table.filter(|row: StoredJob| admits(conditions, binds, row, ages))
}

/// Every row that the conditions admit, in whatever table, belongs to `owner`.
pub open spec fn scoped_to(
    conditions: Seq<Condition>,
    binds: Seq<BindView>,
    owner: Uuid,
) -> bool {
    forall|row: StoredJob, ages: Ages|
        #[trigger] admits(conditions, binds, row, ages) ==> row.owner == owner
}

/// One of the conditions asks for the owner.
pub proof fn lemma_owner_scopes(
    conditions: Seq<Condition>,
    binds: Seq<BindView>,
    owner: Uuid,
    i: int,
)
    requires
        0 <= i < conditions.len(),
        conditions[i] matches Condition::Owner(n) && binds[n - 1] == BindView::Uuid(owner),
    ensures
        scoped_to(conditions, binds, owner),
{
    assert forall|row: StoredJob, ages: Ages|
        #[trigger] admits(conditions, binds, row, ages) implies row.owner == owner by {
        assert(conditions[i].holds(row, binds, ages));
    }
}

/// What a query for exactly one row comes to: no row is an error, and the same one
/// whatever the reason.
pub open spec fn only_row(rows: Set<StoredJob>) -> Result<StoredJob, StorageErrorView> {
    if rows == Set::<StoredJob>::empty() {
        Err(error::storage_error(DriverError::RowNotFound))
    } else {
        Ok(rows.choose())
    }
}

/// A set with one row in it gives that row.
pub proof fn lemma_only_row(rows: Set<StoredJob>, row: StoredJob)
    requires
        rows.contains(row),
        forall|other: StoredJob| rows.contains(other) ==> other == row,
    ensures
        only_row(rows) == Ok::<StoredJob, StorageErrorView>(row),
{
    assert(rows.contains(rows.choose()));
}

/// No two rows are the same job.
pub open spec fn distinct_jobs(table: Set<StoredJob>) -> bool {
    forall|a: StoredJob, b: StoredJob|
        #![trigger table.contains(a), table.contains(b)]
        table.contains(a) && table.contains(b) && a.id == b.id ==> a == b
}

/// How an `order by` clause reads behind its first two words: by age, and by
/// identifier where two jobs were created at the same instant.
pub open spec fn order_text(newest_first: bool, qualifier: Seq<char>) -> Seq<char> {
    qualifier + "created_at "@ + (if newest_first {
        "desc"@
    } else {
        "asc"@
    }) + ", "@ + qualifier + "id"@
}

/// Writes an `order by` clause, without its first two words.
pub(crate) fn order_clause(newest_first: bool, qualifier: &str) -> (r: String)
    ensures
        r@ == order_text(newest_first, qualifier@),
{
    let mut out = qualifier.to_owned();
    out.append("created_at ");
    out.append(
        if newest_first {
            "desc"
        } else {
            "asc"
        },
    );
    out.append(", ");
    out.append(qualifier);
    out.append("id");
    out
}

/// The order puts `a` before `b`.
pub open spec fn precedes(a: StoredJob, b: StoredJob, newest_first: bool) -> bool {
    if a.created_at != b.created_at {
        if newest_first {
            a.created_at > b.created_at
        } else {
            a.created_at < b.created_at
        }
    } else {
        a.id.0 < b.id.0
    }
}

/// `rows` is what an ordered query for `wanted` gives: every row of it once, and
/// none before a row that the order puts first.
pub open spec fn answers(
    rows: Seq<StoredJob>,
    wanted: Set<StoredJob>,
    newest_first: bool,
) -> bool {
    &&& rows.no_duplicates()
    &&& forall|row: StoredJob| #[trigger] rows.contains(row) <==> wanted.contains(row)
    &&& forall|i: int, j: int|
        0 <= i < j < rows.len() ==> !precedes(#[trigger] rows[j], #[trigger] rows[i], newest_first)
}

/// What `limit` and `offset` leave of an ordered result.
pub open spec fn page(rows: Seq<StoredJob>, limit: int, offset: int) -> Seq<StoredJob> {
    let from = if offset < rows.len() {
        offset
    } else {
        rows.len() as int
    };
    let to = if offset + limit < rows.len() {
        offset + limit
    } else {
        rows.len() as int
    };
    rows.subrange(from, to)
}

/// Pages put end to end.
pub open spec fn put_together(pages: Seq<Seq<StoredJob>>) -> Seq<StoredJob>
    decreases pages.len(),
{
    if pages.len() == 0 {
        Seq::empty()
    } else {
        put_together(pages.drop_last()) + pages.last()
    }
}

/// In an ordered result each row comes strictly before the next.
proof fn lemma_strictly_ordered(
    rows: Seq<StoredJob>,
    wanted: Set<StoredJob>,
    newest_first: bool,
    i: int,
    j: int,
)
    requires
        distinct_jobs(wanted),
        answers(rows, wanted, newest_first),
        0 <= i < j < rows.len(),
    ensures
        precedes(rows[i], rows[j], newest_first),
{
    assert(rows.contains(rows[i]) && rows.contains(rows[j]));
    assert(rows[i] != rows[j]);
    assert(!precedes(rows[j], rows[i], newest_first));
}

/// The order settles the result: two runs of the same ordered query over the same
/// rows give them in the same sequence, also where some were created at the same
/// instant.
pub proof fn law_results_have_one_order(
    a: Seq<StoredJob>,
    b: Seq<StoredJob>,
    wanted: Set<StoredJob>,
    newest_first: bool,
)
    requires
        distinct_jobs(wanted),
        answers(a, wanted, newest_first),
        answers(b, wanted, newest_first),
    ensures
        a == b,
    decreases a.len(),
{
    if a.len() == 0 {
        if b.len() > 0 {
            assert(b.contains(b[0]));
            assert(a.contains(b[0]));
        }
        assert(a =~= b);
    } else {
        assert(a.contains(a[0]));
        assert(b.contains(a[0]));
        let j = choose|j: int| 0 <= j < b.len() && b[j] == a[0];
        assert(b.contains(b[0]));
        assert(a.contains(b[0]));
        let i = choose|i: int| 0 <= i < a.len() && a[i] == b[0];
        if j > 0 {
            lemma_strictly_ordered(b, wanted, newest_first, 0, j);
            if i > 0 {
                lemma_strictly_ordered(a, wanted, newest_first, 0, i);
            }
        }
        assert(a[0] == b[0]);
        let first = a[0];
        let rest = wanted.remove(first);
        lemma_rest_answers(a, wanted, newest_first);
        lemma_rest_answers(b, wanted, newest_first);
        law_results_have_one_order(a.skip(1), b.skip(1), rest, newest_first);
        assert(a =~= seq![first] + a.skip(1));
        assert(b =~= seq![first] + b.skip(1));
    }
}

/// Without its first row, an ordered result answers the query for the other rows.
proof fn lemma_rest_answers(rows: Seq<StoredJob>, wanted: Set<StoredJob>, newest_first: bool)
    requires
        rows.len() > 0,
        distinct_jobs(wanted),
        answers(rows, wanted, newest_first),
    ensures
        answers(rows.skip(1), wanted.remove(rows[0]), newest_first),
        distinct_jobs(wanted.remove(rows[0])),
{
    let rest = rows.skip(1);
    assert forall|row: StoredJob| #[trigger] rest.contains(row) <==> wanted.remove(
        rows[0],
    ).contains(row) by {
        if rest.contains(row) {
            let k = choose|k: int| 0 <= k < rest.len() && rest[k] == row;
            assert(rows[k + 1] == row);
            assert(rows.contains(row));
            assert(rows[0] != rows[k + 1]);
        }
        if wanted.remove(rows[0]).contains(row) {
            assert(rows.contains(row));
            let k = choose|k: int| 0 <= k < rows.len() && rows[k] == row;
            assert(rest[k - 1] == row);
        }
    }
    assert forall|i: int, j: int| 0 <= i < j < rest.len() implies !precedes(
        #[trigger] rest[j],
        #[trigger] rest[i],
        newest_first,
    ) by {
        assert(rest[j] == rows[j + 1] && rest[i] == rows[i + 1]);
    }
}

/// The first pages of a result put end to end are its beginning.
proof fn lemma_pages_are_a_beginning(rows: Seq<StoredJob>, limit: int, count: nat)
    requires
        limit > 0,
    ensures
        put_together(Seq::new(count, |k: int| page(rows, limit, k * limit))) == page(
            rows,
            count * limit,
            0,
        ),
    decreases count,
{
    let pages = Seq::new(count, |k: int| page(rows, limit, k * limit));
    if count == 0 {
        assert(page(rows, count * limit, 0) =~= Seq::empty()) by {
            assert(count * limit == 0) by (nonlinear_arith)
                requires
                    count == 0,
            ;
        }
    } else {
        let before = (count - 1) as nat;
        lemma_pages_are_a_beginning(rows, limit, before);
        assert(pages.drop_last() =~= Seq::new(before, |k: int| page(rows, limit, k * limit)));
        assert(count * limit == before * limit + limit) by (nonlinear_arith)
            requires
                count == before + 1,
        ;
        assert(before * limit >= 0) by (nonlinear_arith)
            requires
                before >= 0,
                limit > 0,
        ;
        assert(pages.last() == page(rows, limit, before * limit));
        assert(put_together(pages) =~= page(rows, count * limit, 0));
    }
}

/// Pages neither repeat nor skip a row: the pages of one ordered query, each from a
/// run of its own, put end to end are the whole result, as long as they reach its
/// end. The page after them is empty.
pub proof fn law_pages_hold_every_row_once(
    runs: Seq<Seq<StoredJob>>,
    whole: Seq<StoredJob>,
    wanted: Set<StoredJob>,
    newest_first: bool,
    limit: int,
)
    requires
        limit > 0,
        distinct_jobs(wanted),
        answers(whole, wanted, newest_first),
        forall|k: int| 0 <= k < runs.len() ==> answers(#[trigger] runs[k], wanted, newest_first),
        runs.len() * limit >= whole.len(),
    ensures
        put_together(Seq::new(runs.len(), |k: int| page(runs[k], limit, k * limit))) == whole,
        page(whole, limit, runs.len() * limit) == Seq::<StoredJob>::empty(),
{
    let pages = Seq::new(runs.len(), |k: int| page(runs[k], limit, k * limit));
    let same = Seq::new(runs.len(), |k: int| page(whole, limit, k * limit));
    assert forall|k: int| 0 <= k < runs.len() implies #[trigger] pages[k] == same[k] by {
        law_results_have_one_order(runs[k], whole, wanted, newest_first);
    }
    assert(pages =~= same);
    lemma_pages_are_a_beginning(whole, limit, runs.len());
    assert(page(whole, runs.len() * limit, 0) =~= whole);
    assert(page(whole, limit, runs.len() * limit) =~= Seq::empty());
}

/// An ordered result has as many rows as are wanted.
pub proof fn law_results_are_complete(
    rows: Seq<StoredJob>,
    wanted: Set<StoredJob>,
    newest_first: bool,
)
    requires
        answers(rows, wanted, newest_first),
    ensures
        rows.len() == wanted.len(),
        wanted.finite(),
{
    assert(rows.to_set() =~= wanted);
    rows.unique_seq_to_set();
    vstd::seq_lib::seq_to_set_is_finite(rows);
}

/// How each condition reads, whatever its placeholder and the name that its columns
/// are qualified with.
pub proof fn law_conditions_read_as_sql(n: u64, qualifier: Seq<char>)
    ensures
        Condition::Always.text(qualifier) == "true"@,
        Condition::Id(n).text(qualifier) == qualifier + "id = $"@ + number::decimal(n as nat),
        Condition::Owner(n).text(qualifier) == qualifier + "user_id = $"@ + number::decimal(
            n as nat,
        ),
        Condition::Asset(n).text(qualifier) == "a.id = $"@ + number::decimal(n as nat),
        Condition::Media(n).text(qualifier) == qualifier + "media_type = $"@ + number::decimal(
            n as nat,
        ) + "::media_type"@,
        Condition::Visible.text(qualifier) == "not "@ + qualifier + "hidden"@,
        Condition::Waiting.text(qualifier) == qualifier + "status = 'queued'"@,
        Condition::Unfinished.text(qualifier) == qualifier + "status in ('queued', 'running')"@,
        Condition::Stored.text(qualifier) == qualifier
            + "status = 'succeeded' and a.id is not null"@,
        Condition::LastHour.text(qualifier) == qualifier
            + "created_at > now() - interval '1 hour'"@,
        Condition::Older(n).text(qualifier) == qualifier
            + "created_at < now() - make_interval(days => $"@ + number::decimal(n as nat) + ")"@,
{
    reveal_strlit("$");
    reveal_strlit("id = ");
    reveal_strlit("id = $");
    reveal_strlit("user_id = ");
    reveal_strlit("user_id = $");
    reveal_strlit("a.id = ");
    reveal_strlit("a.id = $");
    reveal_strlit("media_type = ");
    reveal_strlit("media_type = $");
    reveal_strlit("status = '");
    reveal_strlit("queued");
    reveal_strlit("'");
    reveal_strlit("status = 'queued'");
    reveal_strlit("status in ('");
    reveal_strlit("', '");
    reveal_strlit("running");
    reveal_strlit("')");
    reveal_strlit("status in ('queued', 'running')");
    reveal_strlit("succeeded");
    reveal_strlit("' and a.id is not null");
    reveal_strlit("status = 'succeeded' and a.id is not null");
    reveal_strlit("created_at < now() - make_interval(days => ");
    reveal_strlit("created_at < now() - make_interval(days => $");
    let d = number::decimal(n as nat);
    assert(Condition::Id(n).text(qualifier) =~= qualifier + "id = $"@ + d);
    assert(Condition::Owner(n).text(qualifier) =~= qualifier + "user_id = $"@ + d);
    assert(Condition::Asset(n).text(qualifier) =~= "a.id = $"@ + d);
    assert(Condition::Media(n).text(qualifier) =~= qualifier + "media_type = $"@ + d
        + "::media_type"@);
    assert(Condition::Waiting.text(qualifier) =~= qualifier + "status = 'queued'"@);
    assert(Condition::Unfinished.text(qualifier) =~= qualifier
        + "status in ('queued', 'running')"@);
    assert(Condition::Stored.text(qualifier) =~= qualifier
        + "status = 'succeeded' and a.id is not null"@);
    assert(Condition::Older(n).text(qualifier) =~= qualifier
        + "created_at < now() - make_interval(days => $"@ + d + ")"@);
}

/// Which rows each condition means, whatever its placeholder: it compares a column of
/// the row with the value that is bound to it.
pub proof fn law_conditions_mean_rows(
    n: u64,
    row: StoredJob,
    binds: Seq<BindView>,
    ages: Ages,
    id: Uuid,
    media_type: Seq<char>,
    days: i32,
)
    requires
        1 <= n <= binds.len(),
    ensures
        Condition::Always.holds(row, binds, ages),
        binds[n - 1] == BindView::Uuid(id) ==> {
            &&& Condition::Id(n).holds(row, binds, ages) <==> row.id == id
            &&& Condition::Owner(n).holds(row, binds, ages) <==> row.owner == id
            &&& Condition::Asset(n).holds(row, binds, ages) <==> row.asset == Some(id)
        },
        binds[n - 1] == BindView::Text(media_type) ==> (Condition::Media(n).holds(row, binds, ages)
            <==> row.media_type == media_type),
        Condition::Visible.holds(row, binds, ages) <==> !row.hidden,
        Condition::Waiting.holds(row, binds, ages) <==> row.status == "queued"@,
        Condition::Unfinished.holds(row, binds, ages) <==> row.status == "queued"@ || row.status
            == "running"@,
        Condition::Stored.holds(row, binds, ages) <==> row.status == "succeeded"@
            && row.asset is Some,
        Condition::LastHour.holds(row, binds, ages) <==> row.created_at > ages.hour_ago,
        binds[n - 1] == BindView::Int(days) ==> (Condition::Older(n).holds(row, binds, ages)
            <==> row.created_at < (ages.days_ago)(days as int)),
{
}

/// A `where` clause says each of its conditions, in order, with the word between them
/// that makes all of them count.
pub proof fn law_conditions_are_joined(
    conditions: Seq<Condition>,
    more: Condition,
    qualifier: Seq<char>,
)
    ensures
        where_text(seq![more], qualifier) == more.text(qualifier),
        conditions.len() > 0 ==> where_text(conditions.push(more), qualifier) == where_text(
            conditions,
            qualifier,
        ) + " and "@ + more.text(qualifier),
{
    assert(texts(seq![more], qualifier) =~= seq![more.text(qualifier)]);
    let all = texts(conditions.push(more), qualifier);
    assert(all.drop_last() =~= texts(conditions, qualifier));
    assert(all.last() == more.text(qualifier));
}

/// The order that an `order by` clause writes is the order of the rows: by age, from
/// the end that was asked for, and by identifier between jobs of one instant.
pub proof fn law_the_order_is_by_age(a: StoredJob, b: StoredJob, qualifier: Seq<char>)
    ensures
        order_text(true, qualifier) == qualifier + "created_at desc, "@ + qualifier + "id"@,
        order_text(false, qualifier) == qualifier + "created_at asc, "@ + qualifier + "id"@,
        a.created_at > b.created_at ==> precedes(a, b, true) && precedes(b, a, false),
        a.created_at == b.created_at && a.id.0 < b.id.0 ==> precedes(a, b, true) && precedes(
            a,
            b,
            false,
        ),
        precedes(a, b, true) ==> !precedes(b, a, true),
        precedes(a, b, false) ==> !precedes(b, a, false),
{
    reveal_strlit("created_at ");
    reveal_strlit("desc");
    reveal_strlit("asc");
    reveal_strlit(", ");
    reveal_strlit("created_at desc, ");
    reveal_strlit("created_at asc, ");
    assert(order_text(true, qualifier) =~= qualifier + "created_at desc, "@ + qualifier + "id"@);
    assert(order_text(false, qualifier) =~= qualifier + "created_at asc, "@ + qualifier + "id"@);
}

/// A page is a stretch of the result: its row `i` is the row of the result that comes
/// `offset` later, it has at most `limit` rows, and fewer only where the result ends.
pub proof fn law_a_page_is_a_stretch(rows: Seq<StoredJob>, limit: int, offset: int, i: int)
    requires
        0 <= limit,
        0 <= offset,
    ensures
        page(rows, limit, offset).len() <= limit,
        page(rows, limit, offset).len() < limit ==> offset + page(rows, limit, offset).len()
            >= rows.len(),
        0 <= i < page(rows, limit, offset).len() ==> offset + i < rows.len() && page(
            rows,
            limit,
            offset,
        )[i] == rows[offset + i],
{
}

} // verus!
