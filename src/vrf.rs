use vstd::prelude::*;
use crate::address::Address;
use crate::draw::{
    get_extra_args_for_native_payment, native_payment_args, reward_for, reward_spec,
    select_winner_index, winner_index_spec,
};
use crate::ownable::{Ownable, OwnableError};
use crate::requests::{
    find_record, ids_unique, lemma_record_absent, lemma_record_at, lemma_record_push,
    lemma_record_update, record_in, RequestRecord,
};
use crate::uint::{checked_add, checked_mul, lt, word_modulus, U256};

verus! {

/// Seconds in an hour: the lottery interval is kept in hours.
pub const SECONDS_PER_HOUR: u64 = 3600;

/// Entry fee a new consumer starts with.
pub const DEFAULT_ENTRY_FEE: u64 = 500000;

/// Lottery interval, in hours, a new consumer starts with.
pub const DEFAULT_INTERVAL_HOURS: u64 = 4;

pub const DEFAULT_CALLBACK_GAS_LIMIT: u32 = 100000;

pub const DEFAULT_REQUEST_CONFIRMATIONS: u16 = 3;

pub const DEFAULT_NUM_WORDS: u32 = 1;

/// Why a call on the consumer failed.
#[derive(Clone, Copy, Debug, PartialEq, Eq)]
pub enum Error {
    /// Only the randomness wrapper may deliver random words.
    OnlyVRFWrapperCanFulfill { have: Address, want: Address },
    /// The caller is not the owner.
    UnauthorizedAccount { account: Address },
    /// The zero address cannot own the consumer.
    InvalidOwner { owner: Address },
    /// The lottery interval has not passed since the last request.
    TooSoon,
    /// No request is known under the id.
    RequestNotFound,
    NoParticipants,
    NoWords,
    /// The drawn entry is the zero address.
    NoWinner,
    /// The reward does not fit in 256 bits.
    RewardOverflow,
    /// No reward token is configured.
    TokenNotSet,
    WithdrawalInProgress,
    NotAcceptingParticipants,
    AlreadyParticipating,
    FeeNotSet,
    WrongAmount,
    /// An index past the end of the participant list.
    OutOfBounds,
}

/// Maps an ownership failure onto the consumer's errors.
pub fn from_ownable_error(e: OwnableError) -> (r: Error)
    ensures
        e is UnauthorizedAccount ==> r == (Error::UnauthorizedAccount { account: e->account }),
        e is InvalidOwner ==> r == (Error::InvalidOwner { owner: e->owner }),
{
    match e {
        OwnableError::UnauthorizedAccount { account } => Error::UnauthorizedAccount { account },
        OwnableError::InvalidOwner { owner } => Error::InvalidOwner { owner },
    }
}

/// The parameters to send to the randomness wrapper with a request.
#[derive(Clone, Debug)]
pub struct RequestParams {
    pub callback_gas_limit: u32,
    pub request_confirmations: u16,
    pub num_words: u32,
    pub extra_args: Vec<u8>,
}

/// Event: a request was sent.
#[derive(Clone, Copy, Debug)]
pub struct RequestSent {
    pub request_id: U256,
    pub num_words: u32,
}

/// Event: random words arrived and the draw was settled.
#[derive(Clone, Debug)]
pub struct RequestFulfilled {
    pub request_id: U256,
    pub random_words: Vec<U256>,
    pub payment: U256,
    /// The paid winner, or the zero address when no reward was minted.
    pub winner: Address,
}

/// Event: native currency arrived.
#[derive(Clone, Copy, Debug)]
pub struct Received {
    pub sender: Address,
    pub value: U256,
}

/// A reward to mint: `amount` of the token at `token`, to `winner`.
#[derive(Clone, Copy, Debug, PartialEq, Eq)]
pub struct Payout {
    pub token: Address,
    pub winner: Address,
    pub amount: U256,
}

/// A fulfillment whose draw is decided and whose reward is still to be minted.
#[derive(Debug)]
pub struct PendingFulfillment {
    pub request_id: U256,
    pub random_words: Vec<U256>,
    pub payment: U256,
    /// The reward to mint, or why there is none.
    pub payout: Result<Payout, Error>,
}

/// A transfer to the owner that a withdrawal asks for.
#[derive(Clone, Copy, Debug, PartialEq, Eq)]
pub enum Withdrawal {
    Native { to: Address, amount: U256 },
    Token { token: Address, to: Address, amount: U256 },
}

/// What a consumer holds, as plain values.
pub struct ConsumerState {
    pub vrf_wrapper: Address,
    pub owner: Address,
    pub requests: Seq<RequestRecord>,
    pub request_ids: Seq<U256>,
    pub last_request_id: U256,
    pub callback_gas_limit: u32,
    pub request_confirmations: u16,
    pub num_words: u32,
    pub withdrawing: bool,
    pub accepting_participants: bool,
    pub lottery_interval_hours: nat,
    pub last_request_timestamp: nat,
    pub erc20_token_address: Address,
    pub participants: Seq<Address>,
    pub lottery_entry_fee: nat,
}

impl ConsumerState {
    /// The record of request `id`, if any.
    pub open spec fn request(self, id: U256) -> Option<RequestRecord> {
        record_in(self.requests, id)
    }

    /// A request is known once something was paid for it.
    pub open spec fn is_known(self, id: U256) -> bool {
        self.request(id) matches Some(rec) && rec.paid@ != 0
    }

    /// The earliest time at which the next request may be sent.
    pub open spec fn next_request_time(self) -> nat {
        self.last_request_timestamp + self.lottery_interval_hours * 3600
    }

    /// Whether a request may be sent at time `now`.
    pub open spec fn may_request_at(self, now: nat) -> bool {
        now >= self.next_request_time()
    }

    /// What the draw decides for `random_words`: the payout, or why there is none.
    pub open spec fn draw_outcome(self, random_words: Seq<U256>) -> Result<(Address, nat), Error> {
        let n = self.participants.len();
        if n == 0 {
            Err(Error::NoParticipants)
        } else if random_words.len() == 0 {
            Err(Error::NoWords)
        } else {
            let w = self.participants[winner_index_spec(random_words[0]@, n) as int];
            if w.is_zero_spec() {
                Err(Error::NoWinner)
            } else if self.lottery_entry_fee * n * 85 >= word_modulus() {
                Err(Error::RewardOverflow)
            } else if self.erc20_token_address.is_zero_spec() {
                Err(Error::TokenNotSet)
            } else {
                Ok((w, reward_spec(self.lottery_entry_fee, n)))
            }
        }
    }

    /// Why a withdrawal by `caller` is refused, if it is.
    pub open spec fn withdraw_refusal(self, caller: Address) -> Option<Error> {
        if caller != self.owner {
            Some(Error::UnauthorizedAccount { account: caller })
        } else if self.withdrawing {
            Some(Error::WithdrawalInProgress)
        } else {
            None
        }
    }

    /// The native-currency transfer that a withdrawal by `caller` asks for,
    /// or why it is refused.
    pub open spec fn native_withdraw_result(self, caller: Address, amount: U256) -> Result<
        Withdrawal,
        Error,
    > {
        match self.withdraw_refusal(caller) {
            Some(e) => Err(e),
            None => Ok(Withdrawal::Native { to: self.owner, amount }),
        }
    }

    /// The transfer that a withdrawal by `caller` asks for, or why it is refused.
    pub open spec fn withdraw_result(self, caller: Address, amount: U256, token: Address) -> Result<
        Withdrawal,
        Error,
    > {
        if token.is_zero_spec() {
            self.native_withdraw_result(caller, amount)
        } else {
            match self.withdraw_refusal(caller) {
                Some(e) => Err(e),
                None => Ok(Withdrawal::Token { token, to: self.owner, amount }),
            }
        }
    }
}

/// `payout` carries what the draw decided: its winner and amount, paid in
/// `token`, or its error.
pub open spec fn payout_matches(
    payout: Result<Payout, Error>,
    outcome: Result<(Address, nat), Error>,
    token: Address,
) -> bool {
    match outcome {
        Ok((w, amount)) => payout matches Ok(p) && p.winner == w && p.amount@ == amount && p.token
            == token,
        Err(e) => payout == Err::<Payout, Error>(e),
    }
}

/// A randomness consumer that runs a lottery: entrants pay a fixed fee, a
/// random value picks one of them, and the winner is paid in a capped token.
///
/// Calls to the outside (the randomness wrapper, the token, transfers) are
/// not made here: a method decides and returns what to send, and another
/// takes what came back.
pub struct VrfConsumer {
    vrf_wrapper: Address,
    requests: Vec<RequestRecord>,
    request_ids: Vec<U256>,
    last_request_id: U256,
    callback_gas_limit: u32,
    request_confirmations: u16,
    num_words: u32,
    ownable: Ownable,
    withdrawing: bool,
    accepting_participants: bool,
    lottery_interval_hours: U256,
    last_request_timestamp: U256,
    erc20_token_address: Address,
    participants: Vec<Address>,
    lottery_entry_fee: U256,
}

impl View for VrfConsumer {
    type V = ConsumerState;

    closed spec fn view(&self) -> ConsumerState {
        ConsumerState {
            vrf_wrapper: self.vrf_wrapper,
            owner: self.ownable.owner_spec(),
            requests: self.requests@,
            request_ids: self.request_ids@,
            last_request_id: self.last_request_id,
            callback_gas_limit: self.callback_gas_limit,
            request_confirmations: self.request_confirmations,
            num_words: self.num_words,
            withdrawing: self.withdrawing,
            accepting_participants: self.accepting_participants,
            lottery_interval_hours: self.lottery_interval_hours@,
            last_request_timestamp: self.last_request_timestamp@,
            erc20_token_address: self.erc20_token_address,
            participants: self.participants@,
            lottery_entry_fee: self.lottery_entry_fee@,
        }
    }
}

impl VrfConsumer {
    /// The consumer's invariant: one record per request id, and no entrant
    /// twice in the participant list.
    pub open spec fn wf(&self) -> bool {
        &&& ids_unique(self@.requests)
        &&& self@.participants.no_duplicates()
    }

    /// A consumer served by the randomness wrapper at `vrf_wrapper` and owned
    /// by `owner`, with the default configuration and no reward token.
    pub fn constructor(vrf_wrapper: Address, owner: Address) -> (r: Result<VrfConsumer, Error>)
        ensures
            owner.is_zero_spec() ==> (r matches Err(Error::InvalidOwner { owner: o })
                && o.is_zero_spec()),
            !owner.is_zero_spec() ==> (r matches Ok(c) && c.wf() && c@.vrf_wrapper == vrf_wrapper
                && c@.owner == owner && c@.requests.len() == 0 && c@.request_ids.len() == 0
                && c@.last_request_id@ == 0 && c@.callback_gas_limit == DEFAULT_CALLBACK_GAS_LIMIT
                && c@.request_confirmations == DEFAULT_REQUEST_CONFIRMATIONS && c@.num_words
                == DEFAULT_NUM_WORDS && !c@.withdrawing && c@.accepting_participants
                && c@.lottery_interval_hours == DEFAULT_INTERVAL_HOURS
                && c@.last_request_timestamp == 0 && c@.erc20_token_address.is_zero_spec()
                && c@.participants.len() == 0 && c@.lottery_entry_fee == DEFAULT_ENTRY_FEE),
    {
        let ownable = match Ownable::new(owner) {
            Ok(o) => o,
            Err(e) => {
                return Err(from_ownable_error(e));
            },
        };
        let c = VrfConsumer {
            vrf_wrapper,
            requests: Vec::new(),
            request_ids: Vec::new(),
            last_request_id: U256::zero(),
            callback_gas_limit: DEFAULT_CALLBACK_GAS_LIMIT,
            request_confirmations: DEFAULT_REQUEST_CONFIRMATIONS,
            num_words: DEFAULT_NUM_WORDS,
            ownable,
            withdrawing: false,
            accepting_participants: true,
            lottery_interval_hours: U256::from_u64(DEFAULT_INTERVAL_HOURS),
            last_request_timestamp: U256::zero(),
            erc20_token_address: Address::zero(),
            participants: Vec::new(),
            lottery_entry_fee: U256::from_u64(DEFAULT_ENTRY_FEE),
        };
        assert(c@.participants =~= Seq::<Address>::empty());
        Ok(c)
    }

    /// The throttle check before a request: it passes once the lottery
    /// interval has gone by since the last request, and then gives what to
    /// send to the randomness wrapper.
    pub fn request_random_words(&self, now: u64) -> (r: Result<RequestParams, Error>)
        ensures
            self@.may_request_at(now as nat) ==> (r matches Ok(p) && p.callback_gas_limit
                == self@.callback_gas_limit && p.request_confirmations
                == self@.request_confirmations && p.num_words == self@.num_words && p.extra_args@
                == native_payment_args()),
            !self@.may_request_at(now as nat) ==> r == Err::<RequestParams, Error>(Error::TooSoon),
    {
        let t = U256::from_u64(now);
        proof {
            crate::uint::lemma_value_bounds(t);
        }
        let secs = checked_mul(self.lottery_interval_hours, U256::from_u64(SECONDS_PER_HOUR));
        let deadline = match secs {
            Some(s) => checked_add(self.last_request_timestamp, s),
            None => None,
        };
        match deadline {
            Some(d) => {
                if lt(t, d) {
                    return Err(Error::TooSoon);
                }
            },
            None => {
                return Err(Error::TooSoon);
            },
        }
        Ok(
            RequestParams {
                callback_gas_limit: self.callback_gas_limit,
                request_confirmations: self.request_confirmations,
                num_words: self.num_words,
                extra_args: get_extra_args_for_native_payment(),
            },
        )
    }

    /// Records a request that the wrapper accepted under `request_id` for
    /// `price`, sent at time `now`.
    pub fn record_request(&mut self, now: u64, request_id: U256, price: U256) -> (r: RequestSent)
        requires
            old(self).wf(),
        ensures
            final(self).wf(),
            final(self)@.request(request_id) matches Some(rec) && rec.id == request_id && rec.paid
                == price && !rec.fulfilled && (old(self)@.request(request_id) matches Some(o)
                ==> rec.value == o.value) && (old(self)@.request(request_id) is None
                ==> rec.value@ == 0),
            forall|k: U256|
                k != request_id ==> #[trigger] final(self)@.request(k) == old(self)@.request(k),
            final(self)@ == (ConsumerState {
                requests: final(self)@.requests,
                request_ids: old(self)@.request_ids.push(request_id),
                last_request_id: request_id,
                last_request_timestamp: now as nat,
                ..old(self)@
            }),
            r.request_id == request_id,
            r.num_words == old(self)@.num_words,
    {
        let ghost before = self.requests@;
        match find_record(&self.requests, request_id) {
            Some(i) => {
                let rec = self.requests[i];
                let updated = RequestRecord {
                    id: request_id,
                    paid: price,
                    fulfilled: false,
                    value: rec.value,
                };
                proof {
                    lemma_record_at(before, i as int);
                    lemma_record_update(before, i as int, updated);
                }
                self.requests.set(i, updated);
            },
            None => {
                let created = RequestRecord {
                    id: request_id,
                    paid: price,
                    fulfilled: false,
                    value: U256::zero(),
                };
                proof {
                    lemma_record_absent(before, request_id);
                    lemma_record_push(before, created);
                }
                self.requests.push(created);
            },
        }
        self.request_ids.push(request_id);
        self.last_request_id = request_id;
        self.last_request_timestamp = U256::from_u64(now);
        RequestSent { request_id, num_words: self.num_words }
    }

    /// What was paid for request `id`, whether it was fulfilled, and the
    /// random value it received; an error for an unknown request.
    pub fn get_request_status(&self, id: U256) -> (r: Result<(U256, bool, U256), Error>)
        requires
            self.wf(),
        ensures
            status_matches(self@, id, r),
    {
        match find_record(&self.requests, id) {
            Some(i) => {
                let rec = self.requests[i];
                proof {
                    lemma_record_at(self.requests@, i as int);
                }
                if rec.paid.is_zero() {
                    return Err(Error::RequestNotFound);
                }
                Ok((rec.paid, rec.fulfilled, rec.value))
            },
            None => {
                proof {
                    lemma_record_absent(self.requests@, id);
                }
                Err(Error::RequestNotFound)
            },
        }
    }

    fn is_participant(&self, a: &Address) -> (r: bool)
        ensures
            r == self@.participants.contains(*a),
    {
        let mut i: usize = 0;
        while i < self.participants.len()
            invariant
                i <= self@.participants.len(),
                forall|j: int| 0 <= j < i ==> self@.participants[j] != *a,
            decreases self@.participants.len() - i,
        {
            if self.participants[i] == *a {
                assert(self@.participants[i as int] == *a);
                return true;
            }
            i = i + 1;
        }
        false
    }

    /// Enters `sender` in the lottery for an attached `value`.
    ///
    /// The checks come in this order: entries are open, `sender` is not
    /// entered yet, a fee is set, `value` equals the fee. A failed check
    /// changes nothing.
    pub fn participate_in_lottery(&mut self, sender: Address, value: U256) -> (r: Result<(), Error>)
        requires
            old(self).wf(),
        ensures
            final(self).wf(),
            !old(self)@.accepting_participants ==> r == Err::<(), Error>(
                Error::NotAcceptingParticipants,
            ) && final(self)@ == old(self)@,
            old(self)@.accepting_participants && old(self)@.participants.contains(sender) ==> r
                == Err::<(), Error>(Error::AlreadyParticipating) && final(self)@ == old(self)@,
            old(self)@.accepting_participants && !old(self)@.participants.contains(sender) && old(
                self,
            )@.lottery_entry_fee == 0 ==> r == Err::<(), Error>(Error::FeeNotSet) && final(self)@
                == old(self)@,
            old(self)@.accepting_participants && !old(self)@.participants.contains(sender) && old(
                self,
            )@.lottery_entry_fee != 0 && value@ != old(self)@.lottery_entry_fee ==> r == Err::<
                (),
                Error,
            >(Error::WrongAmount) && final(self)@ == old(self)@,
            old(self)@.accepting_participants && !old(self)@.participants.contains(sender) && old(
                self,
            )@.lottery_entry_fee != 0 && value@ == old(self)@.lottery_entry_fee ==> (r is Ok)
                && final(self)@ == (ConsumerState {
                participants: old(self)@.participants.push(sender),
                ..old(self)@
            }),
    {
        if !self.accepting_participants {
            return Err(Error::NotAcceptingParticipants);
        }
        if self.is_participant(&sender) {
            return Err(Error::AlreadyParticipating);
        }
        if self.lottery_entry_fee.is_zero() {
            return Err(Error::FeeNotSet);
        }
        if !value.eq_value(&self.lottery_entry_fee) {
            return Err(Error::WrongAmount);
        }
        let ghost before = self@.participants;
        self.participants.push(sender);
        assert(self@.participants.no_duplicates()) by {
            assert(self@.participants =~= before.push(sender));
            assert forall|i: int, j: int|
                0 <= i < self@.participants.len() && 0 <= j < self@.participants.len() && i != j
                implies self@.participants[i] != self@.participants[j] by {
                if i < before.len() && j < before.len() {
                } else if i == before.len() {
                    assert(self@.participants[j] == before[j]);
                } else {
                    assert(self@.participants[i] == before[i]);
                }
            }
        }
        Ok(())
    }

    /// Decides the draw for `random_words`: the entrant at the first random
    /// value modulo the number of entrants wins, and is owed
    /// `fee * entrants * 85 / 100` of the reward token.
    pub fn decide_winner(&self, random_words: &Vec<U256>) -> (r: Result<Payout, Error>)
        ensures
            payout_matches(r, self@.draw_outcome(random_words@), self@.erc20_token_address),
    {
        let n = self.participants.len();
        if n == 0 {
            return Err(Error::NoParticipants);
        }
        if random_words.len() == 0 {
            return Err(Error::NoWords);
        }
        let i = select_winner_index(random_words[0], n).unwrap();
        let winner = self.participants[i];
        if winner.is_zero() {
            return Err(Error::NoWinner);
        }
        let amount = match reward_for(self.lottery_entry_fee, n) {
            Some(a) => a,
            None => {
                return Err(Error::RewardOverflow);
            },
        };
        if self.erc20_token_address.is_zero() {
            return Err(Error::TokenNotSet);
        }
        Ok(Payout { token: self.erc20_token_address, winner, amount })
    }

    /// Takes random words delivered by `sender` for `request_id`.
    ///
    /// Only the randomness wrapper may deliver, and only for a known
    /// request. The request is marked fulfilled and keeps the first word,
    /// entries close, and the draw is decided; entries reopen with
    /// `finish_fulfillment`, once the reward was minted or not.
    pub fn raw_fulfill_random_words(
        &mut self,
        sender: Address,
        request_id: U256,
        random_words: Vec<U256>,
    ) -> (r: Result<PendingFulfillment, Error>)
        requires
            old(self).wf(),
        ensures
            final(self).wf(),
            sender != old(self)@.vrf_wrapper ==> r == Err::<PendingFulfillment, Error>(
                Error::OnlyVRFWrapperCanFulfill { have: sender, want: old(self)@.vrf_wrapper },
            ) && final(self)@ == old(self)@,
            sender == old(self)@.vrf_wrapper && !old(self)@.is_known(request_id) ==> r == Err::<
                PendingFulfillment,
                Error,
            >(Error::RequestNotFound) && final(self)@ == old(self)@,
            sender == old(self)@.vrf_wrapper && old(self)@.is_known(request_id) ==> fulfilled(
                old(self)@,
                final(self)@,
                request_id,
                random_words@,
                r,
            ),
    {
        if sender != self.vrf_wrapper {
            return Err(Error::OnlyVRFWrapperCanFulfill { have: sender, want: self.vrf_wrapper });
        }
        let idx = match find_record(&self.requests, request_id) {
            Some(i) => i,
            None => {
                proof {
                    lemma_record_absent(self.requests@, request_id);
                }
                return Err(Error::RequestNotFound);
            },
        };
        let rec = self.requests[idx];
        proof {
            lemma_record_at(self.requests@, idx as int);
        }
        if rec.paid.is_zero() {
            return Err(Error::RequestNotFound);
        }
        let value = if random_words.len() > 0 {
            random_words[0]
        } else {
            rec.value
        };
        let updated = RequestRecord { id: request_id, paid: rec.paid, fulfilled: true, value };
        proof {
            lemma_record_update(self.requests@, idx as int, updated);
        }
        self.requests.set(idx, updated);
        self.accepting_participants = false;
        let payout = self.decide_winner(&random_words);
        Ok(PendingFulfillment { request_id, random_words, payment: rec.paid, payout })
    }

    /// Ends a fulfillment once the reward was minted (`minted`) or not:
    /// entries reopen, and the event names the winner only if the reward
    /// was minted.
    pub fn finish_fulfillment(&mut self, pending: PendingFulfillment, minted: bool) -> (r:
        RequestFulfilled)
        requires
            old(self).wf(),
        ensures
            final(self).wf(),
            final(self)@ == (ConsumerState { accepting_participants: true, ..old(self)@ }),
            r.request_id == pending.request_id,
            r.random_words@ == pending.random_words@,
            r.payment == pending.payment,
            pending.payout is Ok && minted ==> r.winner == pending.payout->Ok_0.winner,
            !(pending.payout is Ok && minted) ==> r.winner.is_zero_spec(),
    {
        let winner = match pending.payout {
            Ok(p) => {
                if minted {
                    p.winner
                } else {
                    Address::zero()
                }
            },
            Err(_) => Address::zero(),
        };
        self.accepting_participants = true;
        RequestFulfilled {
            request_id: pending.request_id,
            random_words: pending.random_words,
            payment: pending.payment,
            winner,
        }
    }
}

impl VrfConsumer {
    /// Starts a withdrawal of `amount` to the owner: of the native currency
    /// when `token_address` is zero, else of the token there.
    ///
    /// Only the owner may withdraw, and only one withdrawal at a time: the
    /// in-flight flag stays set until `finish_withdraw`, which the caller
    /// runs once the transfer is over, whether it succeeded or not.
    pub fn withdraw(&mut self, caller: Address, amount: U256, token_address: Address) -> (r: Result<
        Withdrawal,
        Error,
    >)
        ensures
            r == old(self)@.withdraw_result(caller, amount, token_address),
            r is Ok ==> final(self)@ == (ConsumerState { withdrawing: true, ..old(self)@ }),
            r is Err ==> final(self)@ == old(self)@,
            final(self).wf() == old(self).wf(),
    {
        match self.ownable.only_owner(caller) {
            Ok(()) => {},
            Err(e) => {
                return Err(from_ownable_error(e));
            },
        }
        if self.withdrawing {
            return Err(Error::WithdrawalInProgress);
        }
        self.withdrawing = true;
        let owner = self.ownable.owner();
        if token_address.is_zero() {
            Ok(Withdrawal::Native { to: owner, amount })
        } else {
            Ok(Withdrawal::Token { token: token_address, to: owner, amount })
        }
    }

    /// Clears the in-flight flag after a withdrawal's transfer.
    pub fn finish_withdraw(&mut self)
        ensures
            final(self)@ == (ConsumerState { withdrawing: false, ..old(self)@ }),
            final(self).wf() == old(self).wf(),
    {
        self.withdrawing = false;
    }

    /// A withdrawal of the native currency.
    pub fn withdraw_native(&mut self, caller: Address, amount: U256) -> (r: Result<Withdrawal, Error>)
        ensures
            r == old(self)@.native_withdraw_result(caller, amount),
            r is Ok ==> final(self)@ == (ConsumerState { withdrawing: true, ..old(self)@ }),
            r is Err ==> final(self)@ == old(self)@,
            final(self).wf() == old(self).wf(),
    {
        self.withdraw(caller, amount, Address::zero())
    }

    /// A withdrawal of the configured reward token; refused while none is set.
    pub fn withdraw_erc20(&mut self, caller: Address, amount: U256) -> (r: Result<Withdrawal, Error>)
        ensures
            old(self)@.erc20_token_address.is_zero_spec() ==> r == Err::<Withdrawal, Error>(
                Error::TokenNotSet,
            ),
            !old(self)@.erc20_token_address.is_zero_spec() ==> r == old(self)@.withdraw_result(
                caller,
                amount,
                old(self)@.erc20_token_address,
            ),
            r is Ok ==> final(self)@ == (ConsumerState { withdrawing: true, ..old(self)@ }),
            r is Err ==> final(self)@ == old(self)@,
            final(self).wf() == old(self).wf(),
    {
        let token = self.erc20_token_address;
        if token.is_zero() {
            return Err(Error::TokenNotSet);
        }
        self.withdraw(caller, amount, token)
    }

    /// Notes native currency sent to the consumer.
    pub fn receive(&self, sender: Address, value: U256) -> (r: Received)
        ensures
            r.sender == sender,
            r.value == value,
    {
        Received { sender, value }
    }

    pub fn owner(&self) -> (r: Address)
        ensures
            r == self@.owner,
    {
        self.ownable.owner()
    }

    pub fn get_last_request_id(&self) -> (r: U256)
        ensures
            r == self@.last_request_id,
    {
        self.last_request_id
    }

    pub fn callback_gas_limit(&self) -> (r: u32)
        ensures
            r == self@.callback_gas_limit,
    {
        self.callback_gas_limit
    }

    pub fn request_confirmations(&self) -> (r: u16)
        ensures
            r == self@.request_confirmations,
    {
        self.request_confirmations
    }

    pub fn num_words(&self) -> (r: u32)
        ensures
            r == self@.num_words,
    {
        self.num_words
    }

    pub fn i_vrf_v2_plus_wrapper(&self) -> (r: Address)
        ensures
            r == self@.vrf_wrapper,
    {
        self.vrf_wrapper
    }

    pub fn erc20_token_address(&self) -> (r: Address)
        ensures
            r == self@.erc20_token_address,
    {
        self.erc20_token_address
    }

    pub fn accepting_participants(&self) -> (r: bool)
        ensures
            r == self@.accepting_participants,
    {
        self.accepting_participants
    }

    pub fn last_request_timestamp(&self) -> (r: U256)
        ensures
            r@ == self@.last_request_timestamp,
    {
        self.last_request_timestamp
    }

    pub fn lottery_entry_fee(&self) -> (r: U256)
        ensures
            r@ == self@.lottery_entry_fee,
    {
        self.lottery_entry_fee
    }

    pub fn lottery_interval_hours(&self) -> (r: U256)
        ensures
            r@ == self@.lottery_interval_hours,
    {
        self.lottery_interval_hours
    }

    pub fn get_user_addresses_count(&self) -> (r: U256)
        ensures
            r@ == self@.participants.len(),
    {
        U256::from_u64(self.participants.len() as u64)
    }

    /// The entrant at position `index`.
    pub fn get_user_address(&self, index: U256) -> (r: Result<Address, Error>)
        ensures
            index@ < self@.participants.len() ==> r == Ok::<Address, Error>(
                self@.participants[index@ as int],
            ),
            index@ >= self@.participants.len() ==> r == Err::<Address, Error>(Error::OutOfBounds),
    {
        let n = self.participants.len();
        assert(n < crate::uint::limb_base());
        if !index.fits_u64() {
            return Err(Error::OutOfBounds);
        }
        let i = index.to_u64();
        if i >= n as u64 {
            return Err(Error::OutOfBounds);
        }
        Ok(self.participants[i as usize])
    }

    /// Lets the owner set the reward token's address.
    pub fn set_erc20_token(&mut self, caller: Address, token_address: Address) -> (r: Result<
        (),
        Error,
    >)
        ensures
            caller == old(self)@.owner ==> (r is Ok) && final(self)@ == (ConsumerState {
                erc20_token_address: token_address,
                ..old(self)@
            }),
            caller != old(self)@.owner ==> r == Err::<(), Error>(
                Error::UnauthorizedAccount { account: caller },
            ) && final(self)@ == old(self)@,
            final(self).wf() == old(self).wf(),
    {
        match self.ownable.only_owner(caller) {
            Ok(()) => {},
            Err(e) => {
                return Err(from_ownable_error(e));
            },
        }
        self.erc20_token_address = token_address;
        Ok(())
    }

    /// Lets the owner set the entry fee.
    pub fn set_lottery_entry_fee(&mut self, caller: Address, fee: U256) -> (r: Result<(), Error>)
        ensures
            caller == old(self)@.owner ==> (r is Ok) && final(self)@ == (ConsumerState {
                lottery_entry_fee: fee@,
                ..old(self)@
            }),
            caller != old(self)@.owner ==> r == Err::<(), Error>(
                Error::UnauthorizedAccount { account: caller },
            ) && final(self)@ == old(self)@,
            final(self).wf() == old(self).wf(),
    {
        match self.ownable.only_owner(caller) {
            Ok(()) => {},
            Err(e) => {
                return Err(from_ownable_error(e));
            },
        }
        self.lottery_entry_fee = fee;
        Ok(())
    }

    /// Lets the owner set the lottery interval, in hours.
    pub fn set_lottery_interval_hours(&mut self, caller: Address, interval_hours: U256) -> (r:
        Result<(), Error>)
        ensures
            caller == old(self)@.owner ==> (r is Ok) && final(self)@ == (ConsumerState {
                lottery_interval_hours: interval_hours@,
                ..old(self)@
            }),
            caller != old(self)@.owner ==> r == Err::<(), Error>(
                Error::UnauthorizedAccount { account: caller },
            ) && final(self)@ == old(self)@,
            final(self).wf() == old(self).wf(),
    {
        match self.ownable.only_owner(caller) {
            Ok(()) => {},
            Err(e) => {
                return Err(from_ownable_error(e));
            },
        }
        self.lottery_interval_hours = interval_hours;
        Ok(())
    }
}

/// `r` is what a status query on `s` for `id` returns: the record's paid
/// amount, fulfillment and value for a known request, an error otherwise.
pub open spec fn status_matches(s: ConsumerState, id: U256, r: Result<(U256, bool, U256), Error>) -> bool {
    if s.is_known(id) {
        r matches Ok((paid, done, value)) && s.request(id) == Some(
            RequestRecord { id, paid, fulfilled: done, value },
        )
    } else {
        r == Err::<(U256, bool, U256), Error>(Error::RequestNotFound)
    }
}

/// Asking twice for the status of the same request, with nothing in
/// between, gives the same answer.
pub proof fn lemma_status_query_stable(
    s: ConsumerState,
    id: U256,
    r1: Result<(U256, bool, U256), Error>,
    r2: Result<(U256, bool, U256), Error>,
)
    requires
        status_matches(s, id, r1),
        status_matches(s, id, r2),
    ensures
        r1 == r2,
{
}

/// In a well-formed consumer no entrant appears twice.
pub proof fn lemma_participants_distinct(c: &VrfConsumer, i: int, j: int)
    requires
        c.wf(),
        0 <= i < c@.participants.len(),
        0 <= j < c@.participants.len(),
        i != j,
    ensures
        c@.participants[i] != c@.participants[j],
{
}

/// `after` and `r` are what delivering `random_words` for the known request
/// `id` makes of `before`.
pub open spec fn fulfilled(
    before: ConsumerState,
    after: ConsumerState,
    id: U256,
    random_words: Seq<U256>,
    r: Result<PendingFulfillment, Error>,
) -> bool {
    let old_rec = before.request(id)->Some_0;
    let value = if random_words.len() > 0 { random_words[0] } else { old_rec.value };
    &&& r matches Ok(p) && p.request_id == id && p.random_words@ == random_words && p.payment
        == old_rec.paid && payout_matches(
        p.payout,
        before.draw_outcome(random_words),
        before.erc20_token_address,
    )
    &&& after.request(id) == Some(RequestRecord { id, paid: old_rec.paid, fulfilled: true, value })
    &&& forall|k: U256| k != id ==> #[trigger] after.request(k) == before.request(k)
    &&& after == (ConsumerState {
        requests: after.requests,
        accepting_participants: false,
        ..before
    })
}

} // verus!
