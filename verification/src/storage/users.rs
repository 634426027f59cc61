//! The `users` table.
use vstd::prelude::*;
use vstd::string::*;

use crate::clock::Timestamp;
use crate::domain::user::User;
use crate::id::Uuid;
use crate::storage::statement;
use crate::storage::statement::{statement, Bind, BindView, Fetch, Statement};

verus! {

/// A row of the columns that make a [`User`].
#[derive(Debug)]
pub struct UserRow {
    /// `id`.
    pub id: Uuid,
    /// `entra_oid`.
    pub entra_oid: String,
    /// `email`.
    pub email: Option<String>,
    /// `display_name`.
    pub display_name: String,
    /// `created_at`.
    pub created_at: Timestamp,
    /// `last_login_at`.
    pub last_login_at: Timestamp,
}

/// Builds a [`User`] from a row.
pub fn to_user(row: UserRow) -> (r: User)
    ensures
        r == (User {
            id: row.id,
            entra_oid: row.entra_oid,
            email: row.email,
            display_name: row.display_name,
            created_at: row.created_at,
            last_login_at: row.last_login_at,
        }),
{
    User {
        id: row.id,
        entra_oid: row.entra_oid,
        email: row.email,
        display_name: row.display_name,
        created_at: row.created_at,
        last_login_at: row.last_login_at,
    }
}

/// Inserts the user if new, refreshes the profile and stamps the sign-in if not.
///
/// Run on every successful sign-in. The directory is the source of truth for the
/// name and the address, so both are overwritten each time rather than kept at
/// whatever they were on first sign-in.
pub fn upsert_on_login(entra_oid: &str, email: Option<&str>, display_name: &str) -> (r: Statement)
    ensures
        r@.sql == "insert into users (entra_oid, email, display_name)
         values ($1, $2, $3)
         on conflict (entra_oid) do update
            set email         = excluded.email,
                display_name  = excluded.display_name,
                last_login_at = now()
         returning id, entra_oid, email, display_name, created_at, last_login_at"@,
        r@.binds == seq![
            BindView::Text(entra_oid@),
            BindView::OptionalText(statement::optional_str(email)),
            BindView::Text(display_name@),
        ],
        r@.fetch == Fetch::One,
{
    let address: Option<String> = match email {
        Some(e) => Some(e.to_owned()),
        None => None,
    };
    statement(
        "insert into users (entra_oid, email, display_name)
         values ($1, $2, $3)
         on conflict (entra_oid) do update
            set email         = excluded.email,
                display_name  = excluded.display_name,
                last_login_at = now()
         returning id, entra_oid, email, display_name, created_at, last_login_at".to_owned(),
        Fetch::One,
    ).bind(Bind::Text(entra_oid.to_owned())).bind(Bind::OptionalText(address)).bind(
        Bind::Text(display_name.to_owned()),
    )
}

/// Looks up a user by primary key.
pub fn by_id(id: Uuid) -> (r: Statement)
    ensures
        r@.sql == "select id, entra_oid, email, display_name, created_at, last_login_at
         from users where id = $1"@,
        r@.binds == seq![BindView::Uuid(id)],
        r@.fetch == Fetch::One,
{
    statement(
        "select id, entra_oid, email, display_name, created_at, last_login_at
         from users where id = $1".to_owned(),
        Fetch::One,
    ).bind(Bind::Uuid(id))
}

/// A sign-in writes the profile of the user with that object ID, creates them where they
/// are new, and always renews the time of the last sign-in. A lookup asks for one user by
/// identifier.
pub proof fn law_sign_ins_write_the_profile(
    entra_oid: &str,
    email: Option<&str>,
    display_name: &str,
    id: Uuid,
    written: Statement,
    read: Statement,
)
    requires
        call_ensures(upsert_on_login, (entra_oid, email, display_name), written),
        call_ensures(by_id, (id,), read),
    ensures
        written@.sql == "insert into users (entra_oid, email, display_name)
         values ($1, $2, $3)
         on conflict (entra_oid) do update
            set email         = excluded.email,
                display_name  = excluded.display_name,
                last_login_at = now()
         returning id, entra_oid, email, display_name, created_at, last_login_at"@,
        written@.binds == seq![
            BindView::Text(entra_oid@),
            BindView::OptionalText(
                match email {
                    Some(address) => Some(address@),
                    None => None,
                },
            ),
            BindView::Text(display_name@),
        ],
        written@.fetch == Fetch::One,
        read@.sql == "select id, entra_oid, email, display_name, created_at, last_login_at
         from users where id = $1"@,
        read@.binds == seq![BindView::Uuid(id)],
        read@.fetch == Fetch::One,
{
}

/// A row becomes the user that it holds.
pub proof fn law_rows_become_the_user(row: UserRow, user: User)
    requires
        call_ensures(to_user, (row,), user),
    ensures
        user.id == row.id && user.entra_oid == row.entra_oid && user.email == row.email,
        user.display_name == row.display_name && user.created_at == row.created_at,
        user.last_login_at == row.last_login_at,
{
}

} // verus!
