//! Who may see and manage what: shares are visible to their owner and to
//! the administrator; allowed users are managed by the administrator alone.

use vstd::prelude::*;
use crate::share::{Share, ShareId};

verus! {

/// A signed-in user.
#[derive(Debug)]
pub struct User {
    pub email: String,
    pub is_admin: bool,
}

/// Why a request was refused.
#[derive(PartialEq, Eq, Structural, Clone, Copy, Debug)]
pub enum AccessError {
    /// The request needs the administrator.
    Unauthorized,
    /// No share with that identifier is visible to the user.
    ShareNotFoundOrUnauthorized,
}

pub open spec fn spec_access_error_message(e: AccessError) -> Seq<char> {
    match e {
        AccessError::Unauthorized => "Unauthorized"@,
        AccessError::ShareNotFoundOrUnauthorized => "Share not found or unauthorized"@,
    }
}

impl AccessError {
    pub fn message(&self) -> (m: &'static str)
        ensures
            m@ == spec_access_error_message(*self),
    {
        match self {
            AccessError::Unauthorized => "Unauthorized",
            AccessError::ShareNotFoundOrUnauthorized => "Share not found or unauthorized",
        }
    }
}

/// A user with this email address and role may see this share: the
/// administrator sees every share, others only the shares they own.
pub open spec fn spec_can_see(email: Seq<char>, is_admin: bool, share: Share) -> bool {
    is_admin || share.filen_email@ == email
}

/// The shares among `shares` that a user may see, in their order.
pub open spec fn spec_visible(shares: Seq<Share>, email: Seq<char>, is_admin: bool) -> Seq<Share> {
    shares.filter(|s: Share| spec_can_see(email, is_admin, s))
}

/// Whether a user may see a share.
pub fn can_see(user: &User, share: &Share) -> (b: bool)
    ensures
        b == spec_can_see(user.email@, user.is_admin, *share),
{
    user.is_admin || share.filen_email == user.email
}

/// The shares that `user` may see, in their order.
pub fn visible_shares(shares: Vec<Share>, user: &User) -> (v: Vec<Share>)
    ensures
        v@ == spec_visible(shares@, user.email@, user.is_admin),
{
    let ghost all = shares@;
    let ghost pred = |s: Share| spec_can_see(user.email@, user.is_admin, s);
    let mut v: Vec<Share> = Vec::new();
    for s in it: shares.into_iter()
        invariant
            it.seq() == all,
            it.index() <= all.len(),
            pred == (|s: Share| spec_can_see(user.email@, user.is_admin, s)),
            v@ == all.take(it.index() as int).filter(pred),
    {
        let ghost k = it.index() as int;
        proof {
            reveal_with_fuel(Seq::<_>::filter, 1);
            assert(all.take(k + 1).drop_last() =~= all.take(k));
            assert(all.take(k + 1).last() == s);
        }
        if can_see(user, &s) {
            v.push(s);
        }
    }
    proof {
        assert(all.take(all.len() as int) =~= all);
    }
    v
}

/// Checks that `user` may remove the share `id`: it must be among
/// `shares` and visible to the user.
pub fn authorize_removal(shares: &Vec<Share>, id: &ShareId, user: &User) -> (r: Result<(), AccessError>)
    ensures
        r is Ok <==> exists|i: int|
            0 <= i < shares@.len() && #[trigger] shares@[i].id@ == id@ && spec_can_see(
                user.email@,
                user.is_admin,
                shares@[i],
            ),
        r is Err ==> r == Err::<(), AccessError>(AccessError::ShareNotFoundOrUnauthorized),
{
    let mut i: usize = 0;
    while i < shares.len()
        invariant
            i <= shares@.len(),
            forall|j: int|
                0 <= j < i ==> !(#[trigger] shares@[j].id@ == id@ && spec_can_see(
                    user.email@,
                    user.is_admin,
                    shares@[j],
                )),
        decreases shares@.len() - i,
    {
        if shares[i].id == *id && can_see(user, &shares[i]) {
            return Ok(());
        }
        i = i + 1;
    }
    Err(AccessError::ShareNotFoundOrUnauthorized)
}

/// Checks that `user` is the administrator, as managing the allowed users
/// requires.
pub fn require_admin(user: &User) -> (r: Result<(), AccessError>)
    ensures
        r is Ok <==> user.is_admin,
        r is Err ==> r == Err::<(), AccessError>(AccessError::Unauthorized),
{
    if user.is_admin {
        Ok(())
    } else {
        Err(AccessError::Unauthorized)
    }
}

/// The administrator sees every share, in order.
pub proof fn lemma_admin_sees_every_share(shares: Seq<Share>, email: Seq<char>)
    ensures
        spec_visible(shares, email, true) == shares,
    decreases shares.len(),
{
    reveal_with_fuel(Seq::<_>::filter, 1);
    if shares.len() > 0 {
        lemma_admin_sees_every_share(shares.drop_last(), email);
        assert(shares.drop_last().push(shares.last()) =~= shares);
    } else {
        assert(spec_visible(shares, email, true) =~= shares);
    }
}

/// A user who is not the administrator sees exactly the shares they own:
/// every share they see is theirs, and every share of theirs is seen.
pub proof fn lemma_user_sees_exactly_own_shares(shares: Seq<Share>, email: Seq<char>)
    ensures
        forall|i: int|
            0 <= i < spec_visible(shares, email, false).len() ==> (#[trigger] spec_visible(
                shares,
                email,
                false,
            )[i]).filen_email@ == email,
        forall|i: int|
            0 <= i < shares.len() && (#[trigger] shares[i]).filen_email@ == email ==> spec_visible(
                shares,
                email,
                false,
            ).contains(shares[i]),
{
    let pred = |s: Share| spec_can_see(email, false, s);
    assert forall|i: int|
        0 <= i < spec_visible(shares, email, false).len() implies (#[trigger] spec_visible(
        shares,
        email,
        false,
    )[i]).filen_email@ == email by {
        shares.lemma_filter_pred(pred, i);
    }
    assert forall|i: int| 0 <= i < shares.len() && (#[trigger] shares[i]).filen_email@ == email implies spec_visible(
        shares,
        email,
        false,
    ).contains(shares[i]) by {
        shares.lemma_filter_contains(pred, i);
    }
}

/// A user may remove a share exactly when it is among the shares they see.
pub proof fn lemma_removable_iff_visible(shares: Seq<Share>, id: Seq<char>, email: Seq<char>, is_admin: bool)
    ensures
        (exists|i: int|
            0 <= i < shares.len() && #[trigger] shares[i].id@ == id && spec_can_see(
                email,
                is_admin,
                shares[i],
            )) <==> (exists|j: int|
            0 <= j < spec_visible(shares, email, is_admin).len() && #[trigger] spec_visible(
                shares,
                email,
                is_admin,
            )[j].id@ == id),
{
    let pred = |s: Share| spec_can_see(email, is_admin, s);
    let vis = spec_visible(shares, email, is_admin);
    if exists|i: int|
        0 <= i < shares.len() && #[trigger] shares[i].id@ == id && spec_can_see(
            email,
            is_admin,
            shares[i],
        ) {
        let i = choose|i: int|
            0 <= i < shares.len() && #[trigger] shares[i].id@ == id && spec_can_see(
                email,
                is_admin,
                shares[i],
            );
        shares.lemma_filter_contains(pred, i);
        let j = choose|j: int| 0 <= j < vis.len() && vis[j] == shares[i];
        assert(vis[j].id@ == id);
    }
    if exists|j: int| 0 <= j < vis.len() && #[trigger] vis[j].id@ == id {
        let j = choose|j: int| 0 <= j < vis.len() && #[trigger] vis[j].id@ == id;
        shares.lemma_filter_pred(pred, j);
        assert(vis.contains(vis[j]));
        shares.lemma_filter_contains_rev(pred, vis[j]);
        let i = choose|i: int| 0 <= i < shares.len() && shares[i] == vis[j];
        assert(shares[i].id@ == id);
    }
}

} // verus!
