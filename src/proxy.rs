use vstd::prelude::*;
use crate::address::Address;
use crate::ownable::{Ownable, OwnableError};

verus! {

/// Why a proxy call failed.
#[derive(Clone, Copy, Debug, PartialEq, Eq)]
pub enum Error {
    /// The implementation is the zero address or holds no code.
    ImplementationNotSet,
    UnauthorizedAccount { account: Address },
    InvalidOwner { owner: Address },
}

/// Event: the proxy now forwards to `implementation`.
#[derive(Clone, Copy, Debug)]
pub struct Upgraded {
    pub implementation: Address,
}

/// Maps an ownership failure onto the proxy's errors.
pub fn from_ownable_error(e: OwnableError) -> (r: Error)
    ensures
        e is UnauthorizedAccount ==> r == (Error::UnauthorizedAccount { account: e->account }),
        e is InvalidOwner ==> r == (Error::InvalidOwner { owner: e->owner }),
{
    match e {
        OwnableError::UnauthorizedAccount { account } => Error::UnauthorizedAccount { account },
        OwnableError::InvalidOwner { owner } => Error::InvalidOwner { owner },
    }
}

/// An upgradeable proxy's administration: which implementation calls go to,
/// and who may change it. The code size of an address is looked up by the
/// caller and handed in.
pub struct VrfConsumerProxy {
    implementation: Address,
    ownable: Ownable,
}

impl VrfConsumerProxy {
    pub closed spec fn implementation_spec(&self) -> Address {
        self.implementation
    }

    pub closed spec fn owner_spec(&self) -> Address {
        self.ownable.owner_spec()
    }

    /// A proxy to `implementation`, whose code size is `code_size`, owned
    /// by `admin`.
    pub fn constructor(implementation: Address, admin: Address, code_size: usize) -> (r: Result<
        (VrfConsumerProxy, Upgraded),
        Error,
    >)
        ensures
            implementation.is_zero_spec() || code_size == 0 ==> r == Err::<
                (VrfConsumerProxy, Upgraded),
                Error,
            >(Error::ImplementationNotSet),
            !implementation.is_zero_spec() && code_size != 0 && admin.is_zero_spec() ==> (r matches Err(
                Error::InvalidOwner { owner },
            ) && owner.is_zero_spec()),
            !implementation.is_zero_spec() && code_size != 0 && !admin.is_zero_spec() ==> (r matches Ok(
                (p, ev),
            ) && p.implementation_spec() == implementation && p.owner_spec() == admin
                && ev.implementation == implementation),
    {
        if implementation.is_zero() || code_size == 0 {
            return Err(Error::ImplementationNotSet);
        }
        let ownable = match Ownable::new(admin) {
            Ok(o) => o,
            Err(e) => {
                return Err(from_ownable_error(e));
            },
        };
        Ok((VrfConsumerProxy { implementation, ownable }, Upgraded { implementation }))
    }

    pub fn get_implementation(&self) -> (r: Address)
        ensures
            r == self.implementation_spec(),
    {
        self.implementation
    }

    pub fn owner(&self) -> (r: Address)
        ensures
            r == self.owner_spec(),
    {
        self.ownable.owner()
    }

    /// Lets the owner point the proxy at `new_implementation`, whose code
    /// size is `code_size`.
    pub fn upgrade_implementation(
        &mut self,
        caller: Address,
        new_implementation: Address,
        code_size: usize,
    ) -> (r: Result<Upgraded, Error>)
        ensures
            caller != old(self).owner_spec() ==> r == Err::<Upgraded, Error>(
                Error::UnauthorizedAccount { account: caller },
            ) && *final(self) == *old(self),
            caller == old(self).owner_spec() && (new_implementation.is_zero_spec() || code_size
                == 0) ==> r == Err::<Upgraded, Error>(Error::ImplementationNotSet) && *final(self)
                == *old(self),
            caller == old(self).owner_spec() && !new_implementation.is_zero_spec() && code_size
                != 0 ==> (r matches Ok(ev) && ev.implementation == new_implementation)
                && final(self).implementation_spec() == new_implementation
                && final(self).owner_spec() == old(self).owner_spec(),
    {
        match self.ownable.only_owner(caller) {
            Ok(()) => {},
            Err(e) => {
                return Err(from_ownable_error(e));
            },
        }
        if new_implementation.is_zero() || code_size == 0 {
            return Err(Error::ImplementationNotSet);
        }
        self.implementation = new_implementation;
        Ok(Upgraded { implementation: new_implementation })
    }

    /// Where an unknown call is forwarded: the implementation, once set.
    pub fn fallback(&self) -> (r: Result<Address, Error>)
        ensures
            self.implementation_spec().is_zero_spec() ==> r == Err::<Address, Error>(
                Error::ImplementationNotSet,
            ),
            !self.implementation_spec().is_zero_spec() ==> r == Ok::<Address, Error>(
                self.implementation_spec(),
            ),
    {
        if self.implementation.is_zero() {
            return Err(Error::ImplementationNotSet);
        }
        Ok(self.implementation)
    }

    /// Where incoming native currency is passed on, given the
    /// implementation's code size: to the implementation if it is set and
    /// holds code, else nowhere.
    pub fn receive(&self, implementation_code_size: usize) -> (r: Option<Address>)
        ensures
            !self.implementation_spec().is_zero_spec() && implementation_code_size > 0 ==> r
                == Some(self.implementation_spec()),
            self.implementation_spec().is_zero_spec() || implementation_code_size == 0 ==> r is None,
    {
        if !self.implementation.is_zero() && implementation_code_size > 0 {
            Some(self.implementation)
        } else {
            None
        }
    }
}

} // verus!
