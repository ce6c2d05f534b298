//! The proof-of-existence module: a registry that lets accounts claim
//! exclusive ownership of a piece of content, revoke their own claims, and
//! look the current owner up. Content is compared by value.

use crate::support::{DispatchError, DispatchResult};
use vstd::hash_map::StringHashMap;
use vstd::prelude::*;

verus! {

/// The registry and dispatch result after `caller` claims `claim` under
/// registry `m`: content that already has an owner is refused, anything
/// else is bound to the caller.
pub open spec fn spec_create_claim(
    m: Map<Seq<char>, Seq<char>>,
    caller: Seq<char>,
    claim: Seq<char>,
) -> (Map<Seq<char>, Seq<char>>, DispatchResult) {
    if m.contains_key(claim) {
        (m, Err(DispatchError::ClaimAlreadyExists))
    } else {
        (m.insert(claim, caller), Ok(()))
    }
}

/// The registry and dispatch result after `caller` revokes `claim` under
/// registry `m`: unowned content is refused, content owned by someone else
/// is refused, and the caller's own claim is removed.
pub open spec fn spec_revoke_claim(
    m: Map<Seq<char>, Seq<char>>,
    caller: Seq<char>,
    claim: Seq<char>,
) -> (Map<Seq<char>, Seq<char>>, DispatchResult) {
    if !m.contains_key(claim) {
        (m, Err(DispatchError::ClaimNotFound))
    } else if m[claim] != caller {
        (m, Err(DispatchError::NotClaimOwner))
    } else {
        (m.remove(claim), Ok(()))
    }
}

/// A claim is exclusive: once content is claimed, every further claim on
/// it — by the same account or any other — fails with `ClaimAlreadyExists`
/// until the claim is revoked, after which the content can be claimed
/// afresh.
pub proof fn lemma_claim_exclusive_until_revoked(
    m: Map<Seq<char>, Seq<char>>,
    first: Seq<char>,
    second: Seq<char>,
    claim: Seq<char>,
)
    requires
        spec_create_claim(m, first, claim).1 is Ok,
    ensures
        spec_create_claim(spec_create_claim(m, first, claim).0, second, claim).1
            == Err::<(), DispatchError>(DispatchError::ClaimAlreadyExists),
        spec_create_claim(
            spec_revoke_claim(spec_create_claim(m, first, claim).0, first, claim).0,
            second,
            claim,
        ).1 is Ok,
{
}

/// Revocation respects ownership: a non-owner's revocation fails with
/// `NotClaimOwner` and leaves the claim intact, while the owner's
/// revocation removes it, so the content afterwards has no owner.
pub proof fn lemma_revoke_claim_ownership(
    m: Map<Seq<char>, Seq<char>>,
    other: Seq<char>,
    claim: Seq<char>,
)
    requires
        m.contains_key(claim),
    ensures
        other != m[claim] ==> spec_revoke_claim(m, other, claim) == (
            m,
            Err::<(), DispatchError>(DispatchError::NotClaimOwner),
        ),
        spec_revoke_claim(m, m[claim], claim).1 is Ok,
        !spec_revoke_claim(m, m[claim], claim).0.contains_key(claim),
{
}

/// A content-to-owner registry. A content key being present means it has
/// exactly one current owner.
pub struct Pallet {
    /// The stored claims: each claimed content mapped to its one owner.
    claims: StringHashMap<String>,
}

/// Operations of the proof-of-existence module that extrinsics may
/// dispatch.
pub enum Call {
    /// Claim ownership of `claim` for the dispatching caller.
    CreateClaim { claim: String },
    /// Revoke the dispatching caller's claim on `claim`.
    RevokeClaim { claim: String },
}

impl Clone for Call {
    /// An exact copy: the clone dispatches as the original would.
    fn clone(&self) -> (c: Self)
        ensures
            c == *self,
    {
        match self {
            Call::CreateClaim { claim } => Call::CreateClaim { claim: claim.clone() },
            Call::RevokeClaim { claim } => Call::RevokeClaim { claim: claim.clone() },
        }
    }
}

impl Pallet {
    /// The registry: each claimed content mapped to the owner's account.
    pub closed spec fn registry(&self) -> Map<Seq<char>, Seq<char>> {
        self.claims@.map_values(|owner: String| owner@)
    }

    /// Creates the module with an empty registry: nothing is claimed.
    pub fn new() -> (p: Pallet)
        ensures
            p.registry() == Map::<Seq<char>, Seq<char>>::empty(),
    {
        let p = Pallet { claims: StringHashMap::new() };
        proof {
            assert(p.registry() =~= Map::<Seq<char>, Seq<char>>::empty());
        }
        p
    }

    /// Looks up the current owner of `claim`, if any.
    pub fn get_claim<'a>(&'a self, claim: &String) -> (owner: Option<&'a String>)
        ensures
            match owner {
                Some(o) => self.registry().contains_key(claim@) && o@ == self.registry()[claim@],
                None => !self.registry().contains_key(claim@),
            },
    {
        self.claims.get(claim.as_str())
    }

    /// Claims `claim` for `caller`: fails with `ClaimAlreadyExists` and
    /// changes nothing when the content already has an owner, and otherwise
    /// records the caller as its one owner.
    pub fn create_claim(&mut self, caller: String, claim: String) -> (r: DispatchResult)
        ensures
            (final(self).registry(), r) == spec_create_claim(
                old(self).registry(),
                caller@,
                claim@,
            ),
            r is Ok <==> !old(self).registry().contains_key(claim@),
            r is Err ==> r == Err::<(), DispatchError>(DispatchError::ClaimAlreadyExists)
                && final(self).registry() == old(self).registry(),
            r is Ok ==> final(self).registry() == old(self).registry().insert(claim@, caller@),
    {
        if self.claims.contains_key(claim.as_str()) {
            return Err(DispatchError::ClaimAlreadyExists);
        }

        self.claims.insert(claim, caller);
        proof {
            assert(self.registry() =~= old(self).registry().insert(claim@, caller@));
        }
        Ok(())
    }

    /// Revokes the claim on `claim`: fails with `ClaimNotFound` when the
    /// content has no owner and with `NotClaimOwner` when its owner is not
    /// `caller`, changing nothing in either case; when the caller owns the
    /// claim, removes it, so a later lookup finds no owner.
    pub fn revoke_claim(&mut self, caller: String, claim: String) -> (r: DispatchResult)
        ensures
            (final(self).registry(), r) == spec_revoke_claim(
                old(self).registry(),
                caller@,
                claim@,
            ),
            r is Ok <==> (old(self).registry().contains_key(claim@) && old(self).registry()[claim@]
                == caller@),
            r == Err::<(), DispatchError>(DispatchError::ClaimNotFound) <==> !old(
                self,
            ).registry().contains_key(claim@),
            r == Err::<(), DispatchError>(DispatchError::NotClaimOwner) <==> (old(
                self,
            ).registry().contains_key(claim@) && old(self).registry()[claim@] != caller@),
            r is Err ==> final(self).registry() == old(self).registry(),
            r is Ok ==> final(self).registry() == old(self).registry().remove(claim@)
                && !final(self).registry().contains_key(claim@),
    {
        let owner = match self.claims.get(claim.as_str()) {
            Some(o) => o,
            None => {
                return Err(DispatchError::ClaimNotFound);
            },
        };

        if *owner != caller {
            return Err(DispatchError::NotClaimOwner);
        }

        self.claims.remove(claim.as_str());
        proof {
            assert(self.registry() =~= old(self).registry().remove(claim@));
        }
        Ok(())
    }

    /// Routes one dispatched call of this module to its method.
    pub fn dispatch(&mut self, caller: String, call: Call) -> (r: DispatchResult)
        ensures
            call matches Call::CreateClaim { claim } ==> (final(self).registry(), r)
                == spec_create_claim(old(self).registry(), caller@, claim@),
            call matches Call::RevokeClaim { claim } ==> (final(self).registry(), r)
                == spec_revoke_claim(old(self).registry(), caller@, claim@),
    {
        match call {
            Call::CreateClaim { claim } => self.create_claim(caller, claim),
            Call::RevokeClaim { claim } => self.revoke_claim(caller, claim),
        }
    }
}

} // verus!
