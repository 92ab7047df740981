use vstd::prelude::*;
use crate::address::Address;

verus! {

/// Why an ownership check or an ownership set-up failed.
#[derive(Clone, Copy, Debug, PartialEq, Eq)]
pub enum OwnableError {
    /// The caller is not the owner.
    UnauthorizedAccount { account: Address },
    /// The zero address cannot own a contract.
    InvalidOwner { owner: Address },
}

/// Single-owner access control.
#[derive(Clone, Copy, Debug)]
pub struct Ownable {
    owner: Address,
}

impl Ownable {
    pub closed spec fn owner_spec(&self) -> Address {
        self.owner
    }

    /// Makes `initial_owner` the owner; the zero address is refused.
    pub fn new(initial_owner: Address) -> (r: Result<Ownable, OwnableError>)
        ensures
            initial_owner.is_zero_spec() ==> (r matches Err(OwnableError::InvalidOwner { owner })
                && owner.is_zero_spec()),
            !initial_owner.is_zero_spec() ==> (r matches Ok(o) && o.owner_spec() == initial_owner),
    {
        if initial_owner.is_zero() {
            return Err(OwnableError::InvalidOwner { owner: Address::zero() });
        }
        Ok(Ownable { owner: initial_owner })
    }

    pub fn owner(&self) -> (r: Address)
        ensures
            r == self.owner_spec(),
    {
        self.owner
    }

    /// Succeeds exactly when `caller` is the owner.
    pub fn only_owner(&self, caller: Address) -> (r: Result<(), OwnableError>)
        ensures
            caller == self.owner_spec() ==> r is Ok,
            caller != self.owner_spec() ==> r == Err::<(), OwnableError>(
                OwnableError::UnauthorizedAccount { account: caller },
            ),
    {
        if self.owner != caller {
            return Err(OwnableError::UnauthorizedAccount { account: caller });
        }
        proof {
            crate::address::lemma_bytes_determine(self.owner, caller);
        }
        Ok(())
    }
}

} // verus!
