//! Audit trail entries.
//!
//! What is recorded is who did what, to which entity, when, and from where:
//! never the prompt itself. The prompt lives on the job row, which is subject
//! to the retention policy; the audit trail is kept for accountability and
//! should not quietly become a second copy of the content.
use vstd::prelude::*;
use vstd::string::*;

use crate::id::Uuid;

verus! {

/// An action worth recording.
#[derive(Debug, Clone, Copy, PartialEq, Eq, Structural)]
pub enum AuditAction {
    /// A user signed in.
    SignIn,
    /// A user signed out.
    SignOut,
    /// A generation was requested.
    GenerationRequested,
    /// A generation finished successfully.
    GenerationSucceeded,
    /// A generation failed.
    GenerationFailed,
    /// A stored asset was handed out as a time-limited link.
    AssetAccessed,
}

/// The string stored in `audit_log.action`.
pub open spec fn action_text(action: AuditAction) -> Seq<char> {
    match action {
        AuditAction::SignIn => "sign_in"@,
        AuditAction::SignOut => "sign_out"@,
        AuditAction::GenerationRequested => "generation_requested"@,
        AuditAction::GenerationSucceeded => "generation_succeeded"@,
        AuditAction::GenerationFailed => "generation_failed"@,
        AuditAction::AssetAccessed => "asset_accessed"@,
    }
}

impl AuditAction {
    /// Returns the string stored in `audit_log.action`.
    pub fn as_str(self) -> (r: &'static str)
        ensures
            r@ == action_text(self),
    {
        match self {
            AuditAction::SignIn => "sign_in",
            AuditAction::SignOut => "sign_out",
            AuditAction::GenerationRequested => "generation_requested",
            AuditAction::GenerationSucceeded => "generation_succeeded",
            AuditAction::GenerationFailed => "generation_failed",
            AuditAction::AssetAccessed => "asset_accessed",
        }
    }
}

/// Different actions are stored as different strings.
pub proof fn law_actions_are_told_apart(a: AuditAction, b: AuditAction)
    requires
        action_text(a) == action_text(b),
    ensures
        a == b,
{
    reveal_strlit("sign_in");
    reveal_strlit("sign_out");
    reveal_strlit("generation_requested");
    reveal_strlit("generation_succeeded");
    reveal_strlit("generation_failed");
    reveal_strlit("asset_accessed");
    assert("generation_requested"@[11] == 'r' && "generation_succeeded"@[11] == 's');
    assert("sign_in"@.len() == 7 && "sign_out"@.len() == 8 && "generation_requested"@.len() == 20
        && "generation_succeeded"@.len() == 20 && "generation_failed"@.len() == 17
        && "asset_accessed"@.len() == 14);
}

/// One entry to append to the audit trail.
#[derive(Debug, Clone)]
pub struct AuditEntry {
    /// Who acted. `None` for actions taken before sign-in completed.
    pub user_id: Option<Uuid>,
    /// What they did.
    pub action: AuditAction,
    /// Which kind of entity was acted on, e.g. `job` or `asset`.
    pub entity: &'static str,
    /// Identifier of that entity.
    pub entity_id: Option<String>,
    /// Client IP, as seen by the application.
    pub ip: Option<String>,
    /// Client user agent, truncated by the caller if unreasonably long.
    pub user_agent: Option<String>,
}

} // verus!
