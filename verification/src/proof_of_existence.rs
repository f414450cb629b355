//! The proof of existence pallet: accounts claim content, and each piece of
//! content has at most one owner.

use vstd::prelude::*;

use crate::storage::StorageMap;
use crate::support::{DispatchError, DispatchResult};
use crate::types::{AccountId, Content};

verus! {

/// What the pallet holds, as plain mathematics: the owner of each claimed
/// piece of content. Content without an entry is unclaimed.
pub type Claims = Map<Seq<char>, Seq<char>>;

/// The owner of `content`, if it is claimed.
pub open spec fn owner_of(claims: Claims, content: Seq<char>) -> Option<Seq<char>> {
    if claims.contains_key(content) {
        Some(claims[content])
    } else {
        None
    }
}

/// Whether a claim on `content` is accepted: only unclaimed content can be
/// claimed, whoever asks.
pub open spec fn create_claim_outcome(claims: Claims, content: Seq<char>) -> DispatchResult {
    if claims.contains_key(content) {
        Err(DispatchError::ClaimAlreadyExists)
    } else {
        Ok(())
    }
}

/// The claims after `caller` tried to claim `content`.
pub open spec fn create_claim_effect(
    claims: Claims,
    caller: Seq<char>,
    content: Seq<char>,
) -> Claims {
    if create_claim_outcome(claims, content) is Ok {
        claims.insert(content, caller)
    } else {
        claims
    }
}

/// Whether `caller` may revoke the claim on `content`: the content must be
/// claimed, and by `caller`.
pub open spec fn revoke_claim_outcome(
    claims: Claims,
    caller: Seq<char>,
    content: Seq<char>,
) -> DispatchResult {
    if !claims.contains_key(content) {
        Err(DispatchError::ClaimNotFound)
    } else if claims[content] != caller {
        Err(DispatchError::NotClaimOwner)
    } else {
        Ok(())
    }
}

/// The claims after `caller` tried to revoke the claim on `content`.
pub open spec fn revoke_claim_effect(
    claims: Claims,
    caller: Seq<char>,
    content: Seq<char>,
) -> Claims {
    if revoke_claim_outcome(claims, caller, content) is Ok {
        claims.remove(content)
    } else {
        claims
    }
}

/// Once someone has tried to claim `content`, a further claim on it is
/// rejected, whoever makes it.
pub proof fn lemma_second_claim_is_rejected(
    claims: Claims,
    first: Seq<char>,
    second: Seq<char>,
    content: Seq<char>,
)
    ensures
        create_claim_outcome(create_claim_effect(claims, first, content), content) == Err::<
            (),
            DispatchError,
        >(DispatchError::ClaimAlreadyExists),
        create_claim_effect(create_claim_effect(claims, first, content), second, content)
            == create_claim_effect(claims, first, content),
{
}

/// The owner of a fresh claim can revoke it; the content is unclaimed
/// afterwards, and anyone can claim it again.
pub proof fn lemma_owner_revokes_claim(
    claims: Claims,
    owner: Seq<char>,
    content: Seq<char>,
    anyone: Seq<char>,
)
    requires
        create_claim_outcome(claims, content) is Ok,
    ensures
        owner_of(create_claim_effect(claims, owner, content), content) == Some(owner),
        revoke_claim_outcome(create_claim_effect(claims, owner, content), owner, content) is Ok,
        owner_of(
            revoke_claim_effect(create_claim_effect(claims, owner, content), owner, content),
            content,
        ) is None,
        create_claim_outcome(
            revoke_claim_effect(create_claim_effect(claims, owner, content), owner, content),
            content,
        ) is Ok,
        owner_of(
            create_claim_effect(
                revoke_claim_effect(create_claim_effect(claims, owner, content), owner, content),
                anyone,
                content,
            ),
            content,
        ) == Some(anyone),
{
}

/// Nobody but the owner can revoke a fresh claim: the attempt is rejected
/// and the owner stays the owner.
pub proof fn lemma_stranger_cannot_revoke(
    claims: Claims,
    owner: Seq<char>,
    stranger: Seq<char>,
    content: Seq<char>,
)
    requires
        create_claim_outcome(claims, content) is Ok,
        stranger != owner,
    ensures
        revoke_claim_outcome(create_claim_effect(claims, owner, content), stranger, content)
            == Err::<(), DispatchError>(DispatchError::NotClaimOwner),
        revoke_claim_effect(create_claim_effect(claims, owner, content), stranger, content)
            == create_claim_effect(claims, owner, content),
        owner_of(
            revoke_claim_effect(create_claim_effect(claims, owner, content), stranger, content),
            content,
        ) == Some(owner),
{
}

/// The calls that the proof of existence pallet accepts from accounts.
#[derive(Debug)]
pub enum Call {
    /// Claim `claim` for the caller.
    CreateClaim { claim: Content },
    /// Give up the caller's claim on `claim`.
    RevokeClaim { claim: Content },
}

/// A [`Call`] as plain mathematics.
pub enum CallView {
    CreateClaim { claim: Seq<char> },
    RevokeClaim { claim: Seq<char> },
}

impl View for Call {
    type V = CallView;

    open spec fn view(&self) -> CallView {
        match *self {
            Call::CreateClaim { claim } => CallView::CreateClaim { claim: claim@ },
            Call::RevokeClaim { claim } => CallView::RevokeClaim { claim: claim@ },
        }
    }
}

/// Whether `call`, made by `caller`, is accepted.
pub open spec fn call_outcome(claims: Claims, caller: Seq<char>, call: CallView) -> DispatchResult {
    match call {
        CallView::CreateClaim { claim } => create_claim_outcome(claims, claim),
        CallView::RevokeClaim { claim } => revoke_claim_outcome(claims, caller, claim),
    }
}

/// The claims after `call` was made by `caller`.
pub open spec fn call_effect(claims: Claims, caller: Seq<char>, call: CallView) -> Claims {
    match call {
        CallView::CreateClaim { claim } => create_claim_effect(claims, caller, claim),
        CallView::RevokeClaim { claim } => revoke_claim_effect(claims, caller, claim),
    }
}

/// The proof of existence pallet. It allows accounts to claim existence of
/// some data.
#[derive(Debug)]
pub struct Pallet {
    /// A simple storage map from content to the owner of that content.
    /// Accounts can make multiple different claims, but each claim can only
    /// have one owner.
    claims: StorageMap<AccountId>,
}

impl View for Pallet {
    type V = Claims;

    closed spec fn view(&self) -> Claims {
        self.claims@.map_values(|owner: AccountId| owner@)
    }
}

impl Pallet {
    /// Create a new claim on behalf of the `caller`.
    /// The claim is rejected if someone already has claimed that content.
    pub fn create_claim(&mut self, caller: AccountId, claim: Content) -> (result: DispatchResult)
        ensures
            result == create_claim_outcome(old(self)@, claim@),
            final(self)@ == create_claim_effect(old(self)@, caller@, claim@),
    {
        match self.get_claim(&claim) {
            Some(_) => Err(DispatchError::ClaimAlreadyExists),
            None => {
                self.claims.insert(claim, caller);
                Ok(())
            },
        }
    }

    /// Revoke an existing claim on some content.
    /// This succeeds only if the caller is the owner of an existing claim:
    /// it is rejected if the claim does not exist, or if the caller is not
    /// the owner.
    pub fn revoke_claim(&mut self, caller: AccountId, claim: Content) -> (result: DispatchResult)
        ensures
            result == revoke_claim_outcome(old(self)@, caller@, claim@),
            final(self)@ == revoke_claim_effect(old(self)@, caller@, claim@),
    {
        let owned: bool = match self.get_claim(&claim) {
            Some(claim_owner) => *claim_owner == caller,
            None => {
                return Err(DispatchError::ClaimNotFound);
            },
        };
        if !owned {
            return Err(DispatchError::NotClaimOwner);
        }
        self.claims.remove(&claim);
        Ok(())
    }

    /// Handle `call` on behalf of `caller`.
    pub fn dispatch(&mut self, caller: AccountId, call: Call) -> (result: DispatchResult)
        ensures
            result == call_outcome(old(self)@, caller@, call@),
            final(self)@ == call_effect(old(self)@, caller@, call@),
    {
        match call {
            Call::CreateClaim { claim } => self.create_claim(caller, claim),
            Call::RevokeClaim { claim } => self.revoke_claim(caller, claim),
        }
    }

    /// Create a new instance of the pallet, with nothing claimed.
    pub fn new() -> (pallet: Self)
        ensures
            pallet@ == Map::<Seq<char>, Seq<char>>::empty(),
    {
        Pallet { claims: StorageMap::new() }
    }

    /// Get the owner (if any) of a claim.
    pub fn get_claim(&self, claim: &Content) -> (owner: Option<&AccountId>)
        ensures
            match owner {
                Some(account) => owner_of(self@, claim@) == Some(account@),
                None => owner_of(self@, claim@) is None,
            },
    {
        self.claims.get(claim)
    }
}

} // verus!
