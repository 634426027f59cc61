//! The `audit_log` table.
use vstd::prelude::*;
use vstd::string::*;

use crate::domain::audit;
use crate::domain::audit::AuditEntry;
use crate::storage::statement;
use crate::storage::statement::{statement, Bind, BindView, Fetch, Statement};
use crate::text::truncate;
use crate::text::truncate::truncate_bytes;

verus! {

/// Longest user agent kept, in bytes.
///
/// Long enough for any real browser, short enough that a crafted header cannot be
/// used to bloat the table.
pub const MAX_USER_AGENT: usize = 512;

/// What is kept of a user agent: as many characters from its start as fit.
pub open spec fn kept_user_agent(user_agent: Option<String>) -> Option<Seq<char>> {
    match user_agent {
        Some(value) => Some(truncate::fitting(value@, MAX_USER_AGENT as int)),
        None => None,
    }
}

/// Appends an entry to the audit trail.
pub fn record(entry: &AuditEntry) -> (r: Statement)
    ensures
        r@.sql == "insert into audit_log (user_id, action, entity, entity_id, ip, user_agent)
         values ($1, $2, $3, $4, $5::text::inet, $6)"@,
        r@.binds == seq![
            BindView::OptionalUuid(entry.user_id),
            BindView::Text(audit::action_text(entry.action)),
            BindView::Text(entry.entity@),
            BindView::OptionalText(statement::optional_text(entry.entity_id)),
            BindView::OptionalText(statement::optional_text(entry.ip)),
            BindView::OptionalText(kept_user_agent(entry.user_agent)),
        ],
        r@.fetch == Fetch::Execute,
{
    // Truncating mid-character would produce invalid UTF-8.
    let user_agent: Option<String> = match &entry.user_agent {
        Some(value) => Some(truncate_bytes(value.as_str(), MAX_USER_AGENT).to_owned()),
        None => None,
    };
    statement(
        "insert into audit_log (user_id, action, entity, entity_id, ip, user_agent)
         values ($1, $2, $3, $4, $5::text::inet, $6)".to_owned(),
        Fetch::Execute,
    ).bind(Bind::OptionalUuid(entry.user_id)).bind(
        Bind::Text(entry.action.as_str().to_owned()),
    ).bind(Bind::Text(entry.entity.to_owned())).bind(
        Bind::OptionalText(entry.entity_id.clone()),
    ).bind(Bind::OptionalText(entry.ip.clone())).bind(Bind::OptionalText(user_agent))
}

/// What is kept of a user agent takes at most the bytes allowed, is a leading part
/// of it, and is all of it when it fits.
pub proof fn law_user_agents_are_bounded(user_agent: Seq<char>)
    ensures
        vstd::utf8::encode_utf8(truncate::fitting(user_agent, MAX_USER_AGENT as int)).len()
            <= MAX_USER_AGENT,
        truncate::fitting(user_agent, MAX_USER_AGENT as int).is_prefix_of(user_agent),
        vstd::utf8::encode_utf8(user_agent).len() <= MAX_USER_AGENT ==> truncate::fitting(
            user_agent,
            MAX_USER_AGENT as int,
        ) == user_agent,
{
    truncate::law_fitting_is_the_longest_prefix(user_agent, MAX_USER_AGENT as nat);
}

/// A user agent is kept whole when it takes at most 512 bytes, and otherwise as its
/// longest beginning that does; where there was none, none is kept.
pub proof fn law_user_agents_are_kept(user_agent: String)
    ensures
        kept_user_agent(None) is None,
        kept_user_agent(Some(user_agent)) matches Some(kept) && {
            &&& kept.is_prefix_of(user_agent@)
            &&& vstd::utf8::encode_utf8(kept).len() <= 512
            &&& vstd::utf8::encode_utf8(user_agent@).len() <= 512 ==> kept == user_agent@
            &&& vstd::utf8::encode_utf8(user_agent@).len() > 512 ==> kept.len()
                < user_agent@.len() && vstd::utf8::encode_utf8(
                user_agent@.take(kept.len() as int + 1),
            ).len() > 512
        },
{
    truncate::law_fitting_is_the_longest_prefix(user_agent@, 512);
    let kept = truncate::fitting(user_agent@, 512);
    if kept.len() >= user_agent@.len() {
        assert(kept =~= user_agent@);
    }
}

/// An entry is written whole, with who did what, to which entity, and from where; only the
/// user agent may be cut.
pub proof fn law_entries_are_written_whole(entry: AuditEntry, r: Statement)
    requires
        call_ensures(record, (&entry,), r),
    ensures
        r@.sql == "insert into audit_log (user_id, action, entity, entity_id, ip, user_agent)
         values ($1, $2, $3, $4, $5::text::inet, $6)"@,
        r@.binds.len() == 6,
        r@.binds[0] == BindView::OptionalUuid(entry.user_id),
        r@.binds[1] == BindView::Text(
            match entry.action {
                audit::AuditAction::SignIn => "sign_in"@,
                audit::AuditAction::SignOut => "sign_out"@,
                audit::AuditAction::GenerationRequested => "generation_requested"@,
                audit::AuditAction::GenerationSucceeded => "generation_succeeded"@,
                audit::AuditAction::GenerationFailed => "generation_failed"@,
                audit::AuditAction::AssetAccessed => "asset_accessed"@,
            },
        ),
        r@.binds[2] == BindView::Text(entry.entity@),
        r@.binds[3] == BindView::OptionalText(
            match entry.entity_id {
                Some(id) => Some(id@),
                None => None,
            },
        ),
        r@.binds[4] == BindView::OptionalText(
            match entry.ip {
                Some(ip) => Some(ip@),
                None => None,
            },
        ),
        r@.binds[5] == BindView::OptionalText(
            match entry.user_agent {
                Some(agent) => Some(truncate::fitting(agent@, 512)),
                None => None,
            },
        ),
        r@.fetch == Fetch::Execute,
{
}

} // verus!
