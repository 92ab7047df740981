use vstd::prelude::*;
use crate::address::Address;
use crate::ledger::{
    balance_in, holders_unique, lemma_balance_absent, lemma_balance_at, lemma_balance_le_sum,
    lemma_push, lemma_update, sum_of, Holding,
};
use crate::ownable::{Ownable, OwnableError};
use crate::uint::{checked_add, lt, word_modulus, U256};

verus! {

/// Number of decimals the token reports.
pub const DECIMALS: u8 = 10;

/// Why a token operation failed.
#[derive(Clone, Copy, Debug, PartialEq, Eq)]
pub enum TokenError {
    /// Minting would take the supply past the cap.
    ExceededCap { increased_supply: U256, cap: U256 },
    /// A cap of zero.
    InvalidCap { cap: U256 },
    /// Tokens cannot be minted to the zero address.
    InvalidReceiver { receiver: Address },
    /// The caller may not do this.
    UnauthorizedAccount { account: Address },
    /// The zero address cannot own the token.
    InvalidOwner { owner: Address },
}

/// Maps an ownership failure onto the token's errors.
pub fn from_ownable_error(e: OwnableError) -> (r: TokenError)
    ensures
        e is UnauthorizedAccount ==> r == (TokenError::UnauthorizedAccount { account: e->account }),
        e is InvalidOwner ==> r == (TokenError::InvalidOwner { owner: e->owner }),
{
    match e {
        OwnableError::UnauthorizedAccount { account } => TokenError::UnauthorizedAccount { account },
        OwnableError::InvalidOwner { owner } => TokenError::InvalidOwner { owner },
    }
}

/// A fungible token whose total supply never exceeds its cap.
pub struct Erc20Token {
    name: String,
    symbol: String,
    cap: U256,
    total_supply: U256,
    holdings: Vec<Holding>,
    ownable: Ownable,
    authorized_minter: Address,
}

impl Erc20Token {
    /// The token's invariant: one entry per holder, the entries add up to
    /// the supply, and the supply lies within a non-zero cap.
    pub closed spec fn wf(&self) -> bool {
        &&& holders_unique(self.holdings@)
        &&& sum_of(self.holdings@) == self.total_supply@
        &&& self.total_supply@ <= self.cap@
        &&& self.cap@ > 0
    }

    pub closed spec fn cap_spec(&self) -> nat {
        self.cap@
    }

    pub closed spec fn total_supply_spec(&self) -> nat {
        self.total_supply@
    }

    pub closed spec fn balance_spec(&self, a: Address) -> nat {
        balance_in(self.holdings@, a)
    }

    pub closed spec fn owner_spec(&self) -> Address {
        self.ownable.owner_spec()
    }

    pub closed spec fn minter_spec(&self) -> Address {
        self.authorized_minter
    }

    pub closed spec fn name_spec(&self) -> Seq<char> {
        self.name@
    }

    pub closed spec fn symbol_spec(&self) -> Seq<char> {
        self.symbol@
    }

    /// A well-formed token's supply never exceeds its cap.
    pub proof fn lemma_supply_within_cap(&self)
        requires
            self.wf(),
        ensures
            self.total_supply_spec() <= self.cap_spec(),
    {
    }

    /// The owner may mint, and so may the authorized minter once one is set.
    pub open spec fn may_mint(&self, caller: Address) -> bool {
        caller == self.owner_spec() || (!self.minter_spec().is_zero_spec() && caller
            == self.minter_spec())
    }

    /// A token with the given metadata and cap, owned by `owner`, with no
    /// supply and no authorized minter.
    pub fn constructor(name: String, symbol: String, cap: U256, owner: Address) -> (r: Result<
        Erc20Token,
        TokenError,
    >)
        ensures
            cap@ == 0 ==> r == Err::<Erc20Token, TokenError>(TokenError::InvalidCap { cap }),
            cap@ != 0 && owner.is_zero_spec() ==> (r matches Err(TokenError::InvalidOwner { owner: o })
                && o.is_zero_spec()),
            cap@ != 0 && !owner.is_zero_spec() ==> (r matches Ok(t) && t.wf() && t.cap_spec()
                == cap@ && t.total_supply_spec() == 0 && t.owner_spec() == owner
                && t.minter_spec().is_zero_spec() && t.name_spec() == name@ && t.symbol_spec()
                == symbol@ && forall|a: Address| #[trigger] t.balance_spec(a) == 0),
    {
        if cap.is_zero() {
            return Err(TokenError::InvalidCap { cap });
        }
        let ownable = match Ownable::new(owner) {
            Ok(o) => o,
            Err(e) => {
                return Err(from_ownable_error(e));
            },
        };
        let t = Erc20Token {
            name,
            symbol,
            cap,
            total_supply: U256::zero(),
            holdings: Vec::new(),
            ownable,
            authorized_minter: Address::zero(),
        };
        assert(sum_of(t.holdings@) == 0);
        assert forall|a: Address| #[trigger] t.balance_spec(a) == 0 by {
            lemma_balance_absent(t.holdings@, a);
        }
        Ok(t)
    }

    /// The position of `a`'s entry, if it has one.
    fn find_holder(&self, a: &Address) -> (r: Option<usize>)
        ensures
            r matches Some(i) ==> i < self.holdings@.len() && self.holdings@[i as int].account == *a,
            r is None ==> forall|i: int|
                0 <= i < self.holdings@.len() ==> self.holdings@[i].account != *a,
    {
        let mut i: usize = 0;
        while i < self.holdings.len()
            invariant
                i <= self.holdings@.len(),
                forall|j: int| 0 <= j < i ==> self.holdings@[j].account != *a,
            decreases self.holdings@.len() - i,
        {
            if self.holdings[i].account == *a {
                return Some(i);
            }
            i = i + 1;
        }
        None
    }

    /// Mints `value` to `account` for `caller`.
    ///
    /// The checks come in this order: the caller may mint, the new supply
    /// stays within the cap, the receiver is not the zero address. A failed
    /// check changes nothing. A supply that would overflow 256 bits is
    /// outside the contract: it is an accounting fault, not a refusal.
    pub fn mint(&mut self, caller: Address, account: Address, value: U256) -> (r: Result<
        (),
        TokenError,
    >)
        requires
            old(self).wf(),
            old(self).total_supply_spec() + value@ < word_modulus(),
        ensures
            final(self).wf(),
            final(self).total_supply_spec() <= final(self).cap_spec(),
            !old(self).may_mint(caller) ==> r == Err::<(), TokenError>(
                TokenError::UnauthorizedAccount { account: caller },
            ) && *final(self) == *old(self),
            old(self).may_mint(caller) && old(self).total_supply_spec() + value@ > old(
                self,
            ).cap_spec() ==> (r matches Err(TokenError::ExceededCap { increased_supply, cap })
                && increased_supply@ == old(self).total_supply_spec() + value@ && cap@ == old(
                self,
            ).cap_spec()) && *final(self) == *old(self),
            old(self).may_mint(caller) && old(self).total_supply_spec() + value@ <= old(
                self,
            ).cap_spec() && account.is_zero_spec() ==> (r matches Err(
                TokenError::InvalidReceiver { receiver },
            ) && receiver.is_zero_spec()) && *final(self) == *old(self),
            old(self).may_mint(caller) && old(self).total_supply_spec() + value@ <= old(
                self,
            ).cap_spec() && !account.is_zero_spec() ==> ({
                &&& r is Ok
                &&& final(self).total_supply_spec() == old(self).total_supply_spec() + value@
                &&& final(self).balance_spec(account) == old(self).balance_spec(account) + value@
                &&& forall|a: Address|
                    a != account ==> #[trigger] final(self).balance_spec(a) == old(
                        self,
                    ).balance_spec(a)
                &&& final(self).cap_spec() == old(self).cap_spec()
                &&& final(self).owner_spec() == old(self).owner_spec()
                &&& final(self).minter_spec() == old(self).minter_spec()
                &&& final(self).name_spec() == old(self).name_spec()
                &&& final(self).symbol_spec() == old(self).symbol_spec()
            }),
    {
        let owner = self.ownable.owner();
        let minter = self.authorized_minter;
        if caller != owner && (minter.is_zero() || caller != minter) {
            return Err(TokenError::UnauthorizedAccount { account: caller });
        }
        let supply = checked_add(self.total_supply, value).unwrap();
        if lt(self.cap, supply) {
            return Err(TokenError::ExceededCap { increased_supply: supply, cap: self.cap });
        }
        if account.is_zero() {
            return Err(TokenError::InvalidReceiver { receiver: Address::zero() });
        }
        let ghost before = self.holdings@;
        match self.find_holder(&account) {
            Some(i) => {
                let held = self.holdings[i].amount;
                proof {
                    lemma_balance_at(before, i as int);
                    lemma_balance_le_sum(before, account);
                }
                let amount = checked_add(held, value).unwrap();
                let h = Holding { account, amount };
                proof {
                    lemma_update(before, i as int, h);
                }
                self.holdings.set(i, h);
            },
            None => {
                let h = Holding { account, amount: value };
                proof {
                    lemma_balance_absent(before, account);
                    lemma_push(before, h);
                }
                self.holdings.push(h);
            },
        }
        self.total_supply = supply;
        Ok(())
    }

    pub fn total_supply(&self) -> (r: U256)
        ensures
            r@ == self.total_supply_spec(),
    {
        self.total_supply
    }

    pub fn cap(&self) -> (r: U256)
        ensures
            r@ == self.cap_spec(),
    {
        self.cap
    }

    pub fn balance_of(&self, account: Address) -> (r: U256)
        requires
            self.wf(),
        ensures
            r@ == self.balance_spec(account),
    {
        match self.find_holder(&account) {
            Some(i) => {
                proof {
                    lemma_balance_at(self.holdings@, i as int);
                }
                self.holdings[i].amount
            },
            None => {
                proof {
                    lemma_balance_absent(self.holdings@, account);
                }
                U256::zero()
            },
        }
    }

    pub fn name(&self) -> (r: String)
        ensures
            r@ == self.name_spec(),
    {
        self.name.clone()
    }

    pub fn symbol(&self) -> (r: String)
        ensures
            r@ == self.symbol_spec(),
    {
        self.symbol.clone()
    }

    pub fn decimals(&self) -> (r: u8)
        ensures
            r == DECIMALS,
    {
        DECIMALS
    }

    pub fn owner(&self) -> (r: Address)
        ensures
            r == self.owner_spec(),
    {
        self.ownable.owner()
    }

    pub fn authorized_minter(&self) -> (r: Address)
        ensures
            r == self.minter_spec(),
    {
        self.authorized_minter
    }

    /// Lets the owner name the account that may mint besides itself; the
    /// zero address names none.
    pub fn set_authorized_minter(&mut self, caller: Address, minter: Address) -> (r: Result<
        (),
        TokenError,
    >)
        ensures
            caller == old(self).owner_spec() ==> (r is Ok) && final(self).minter_spec() == minter
                && final(self).wf() == old(self).wf() && final(self).cap_spec() == old(
                self,
            ).cap_spec() && final(self).total_supply_spec() == old(self).total_supply_spec()
                && final(self).owner_spec() == old(self).owner_spec() && forall|a: Address|
                #[trigger] final(self).balance_spec(a) == old(self).balance_spec(a),
            caller != old(self).owner_spec() ==> r == Err::<(), TokenError>(
                TokenError::UnauthorizedAccount { account: caller },
            ) && *final(self) == *old(self),
    {
        match self.ownable.only_owner(caller) {
            Ok(()) => {},
            Err(e) => {
                return Err(from_ownable_error(e));
            },
        }
        self.authorized_minter = minter;
        Ok(())
    }
}

} // verus!
