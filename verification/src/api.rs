//! The decisions of the web API's endpoints around their database calls:
//! who may call them, what they answer, and the messages of their failures.

use vstd::prelude::*;
use crate::access::{authorize_removal, require_admin, spec_can_see, spec_visible, visible_shares, User};
use crate::ids::is_hyphenated_v4;
use crate::root_check::CheckedShareRoot;
use crate::share::{Share, ShareId};
use crate::text::concat;

verus! {

/// A database call made by an endpoint.
#[derive(PartialEq, Eq, Structural, Clone, Copy, Debug)]
pub enum DbOperation {
    GetShares,
    CreateShare,
    RemoveShare,
    GetAllowedUsers,
    AddAllowedUser,
    RemoveAllowedUser,
    ClearAllowedUsers,
}

/// What the message of a failed database call starts with.
pub open spec fn spec_db_failure_prefix(op: DbOperation) -> Seq<char> {
    match op {
        DbOperation::GetShares => "Failed to get shares from database: "@,
        DbOperation::CreateShare => "Failed to create share: "@,
        DbOperation::RemoveShare => "Failed to remove share: "@,
        DbOperation::GetAllowedUsers => "Failed to get allowed users: "@,
        DbOperation::AddAllowedUser => "Failed to add allowed user: "@,
        DbOperation::RemoveAllowedUser => "Failed to remove allowed user: "@,
        DbOperation::ClearAllowedUsers => "Failed to clear allowed users: "@,
    }
}

/// The message of a failed database call: what failed, then the
/// database's own message.
pub fn db_failure_message(op: DbOperation, error: &str) -> (m: String)
    ensures
        m@ == spec_db_failure_prefix(op) + error@,
{
    let prefix = match op {
        DbOperation::GetShares => "Failed to get shares from database: ",
        DbOperation::CreateShare => "Failed to create share: ",
        DbOperation::RemoveShare => "Failed to remove share: ",
        DbOperation::GetAllowedUsers => "Failed to get allowed users: ",
        DbOperation::AddAllowedUser => "Failed to add allowed user: ",
        DbOperation::RemoveAllowedUser => "Failed to remove allowed user: ",
        DbOperation::ClearAllowedUsers => "Failed to clear allowed users: ",
    };
    concat(prefix, error)
}

/// The outcome of a database call, with its failure turned into the
/// endpoint's message.
pub fn db_outcome<T>(op: DbOperation, outcome: Result<T, String>) -> (r: Result<T, String>)
    ensures
        match outcome {
            Ok(v) => r == Ok::<T, String>(v),
            Err(e) => r matches Err(m) && m@ == spec_db_failure_prefix(op) + e@,
        },
{
    match outcome {
        Ok(v) => Ok(v),
        Err(e) => Err(db_failure_message(op, e.as_str())),
    }
}

/// The answer of `/api/shares`, given what the database returned: the
/// shares the user may see, in order.
pub fn shares_answer(stored: Result<Vec<Share>, String>, user: &User) -> (r: Result<Vec<Share>, String>)
    ensures
        match stored {
            Ok(all) => r matches Ok(v) && v@ == spec_visible(all@, user.email@, user.is_admin),
            Err(e) => r matches Err(m) && m@ == spec_db_failure_prefix(DbOperation::GetShares) + e@,
        },
{
    match stored {
        Ok(all) => Ok(visible_shares(all, user)),
        Err(e) => Err(db_failure_message(DbOperation::GetShares, e.as_str())),
    }
}

/// Whether `/api/shares/remove` may delete the share `id`, given what the
/// database returned: only a share the user sees is deleted.
pub fn removal_check(stored: Result<Vec<Share>, String>, id: &ShareId, user: &User) -> (r: Result<(), String>)
    ensures
        match stored {
            Ok(all) => {
                &&& r is Ok <==> exists|i: int|
                    0 <= i < all@.len() && #[trigger] all@[i].id@ == id@ && spec_can_see(
                        user.email@,
                        user.is_admin,
                        all@[i],
                    )
                &&& r matches Err(m) ==> m@ == "Share not found or unauthorized"@
            },
            Err(e) => r matches Err(m) && m@ == spec_db_failure_prefix(DbOperation::GetShares) + e@,
        },
{
    match stored {
        Ok(all) => match authorize_removal(&all, id, user) {
            Ok(()) => Ok(()),
            Err(e) => Err(String::from_str(e.message())),
        },
        Err(e) => Err(db_failure_message(DbOperation::GetShares, e.as_str())),
    }
}

/// Whether an allowed-users endpoint may go on: only for the administrator;
/// anyone else gets `Unauthorized`.
pub fn allowed_users_check(user: &User) -> (r: Result<(), String>)
    ensures
        r is Ok <==> user.is_admin,
        r matches Err(m) ==> m@ == "Unauthorized"@,
{
    match require_admin(user) {
        Ok(()) => Ok(()),
        Err(e) => Err(String::from_str(e.message())),
    }
}

/// An error with the context in which it happened.
#[derive(Debug)]
pub struct ContextError {
    /// What was being done.
    pub context: String,
    /// Why it failed.
    pub cause: String,
}

/// The share `/api/shares/add` stores, given the outcome of checking its
/// root: a new share of the owner's whose root is the checked path; a
/// failed check gives the context `Failed to check root` and its message.
pub fn share_to_add(
    checked: Result<CheckedShareRoot, String>,
    read_only: bool,
    password: Option<String>,
    owner_email: String,
    owner_stringified_client: String,
) -> (r: Result<Share, ContextError>)
    ensures
        match checked {
            Ok(c) => r matches Ok(s) && {
                &&& is_hyphenated_v4(s.id@)
                &&& s.root == c.path
                &&& s.read_only == read_only
                &&& s.password == password
                &&& s.filen_email == owner_email
                &&& s.filen_stringified_client == owner_stringified_client
            },
            Err(e) => r matches Err(ce) && ce.context@ == "Failed to check root"@ && ce.cause@ == e@,
        },
{
    match checked {
        Ok(c) => Ok(Share::create(c.path, read_only, password, owner_email, owner_stringified_client)),
        Err(e) => Err(ContextError { context: String::from_str("Failed to check root"), cause: e }),
    }
}

} // verus!
