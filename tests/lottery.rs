use stylus_lottery::address::Address;
use stylus_lottery::draw::{get_extra_args_for_native_payment, reward_for, select_winner_index};
use stylus_lottery::token::Erc20Token;
use stylus_lottery::uint::U256;
use stylus_lottery::vrf::{Error, Payout, VrfConsumer, Withdrawal};

fn addr(n: u8) -> Address {
    let mut bytes = [0u8; 20];
    bytes[19] = n;
    Address { bytes }
}

fn word(n: u64) -> U256 {
    U256::from_u64(n)
}

const OWNER: u8 = 1;
const WRAPPER: u8 = 50;
const CONSUMER: u8 = 60;
const TOKEN: u8 = 70;

fn consumer() -> VrfConsumer {
    VrfConsumer::constructor(addr(WRAPPER), addr(OWNER)).unwrap()
}

/// A consumer with a pending request `id` paid at `price`.
fn consumer_with_request(id: u64, price: u64) -> VrfConsumer {
    let mut c = consumer();
    c.request_random_words(100_000).unwrap();
    c.record_request(100_000, word(id), word(price));
    c
}

#[test]
fn lottery_scenario_second_joiner_wins() {
    let mut c = consumer();
    c.set_lottery_entry_fee(addr(OWNER), word(100)).unwrap();
    c.set_erc20_token(addr(OWNER), addr(TOKEN)).unwrap();
    let mut token =
        Erc20Token::constructor("Prize".to_string(), "PRZ".to_string(), word(1_000_000), addr(OWNER)).unwrap();
    token.set_authorized_minter(addr(OWNER), addr(CONSUMER)).unwrap();

    for p in [2u8, 3, 4] {
        assert_eq!(c.participate_in_lottery(addr(p), word(100)), Ok(()));
    }
    assert_eq!(c.get_user_addresses_count(), word(3));

    let params = c.request_random_words(100_000).unwrap();
    assert_eq!(params.num_words, 1);
    let sent = c.record_request(100_000, word(42), word(9));
    assert_eq!(sent.request_id, word(42));
    assert_eq!(sent.num_words, 1);

    let pending = c.raw_fulfill_random_words(addr(WRAPPER), word(42), vec![word(7)]).unwrap();
    assert!(!c.accepting_participants());
    let payout = *pending.payout.as_ref().unwrap();
    assert_eq!(payout.winner, addr(3));
    assert_eq!(payout.amount, word(255));
    assert_eq!(payout.token, addr(TOKEN));

    let minted = token.mint(addr(CONSUMER), payout.winner, payout.amount).is_ok();
    assert!(minted);
    let event = c.finish_fulfillment(pending, minted);
    assert_eq!(event.winner, addr(3));
    assert_eq!(event.payment, word(9));
    assert_eq!(event.request_id, word(42));
    assert_eq!(event.random_words, vec![word(7)]);
    assert!(c.accepting_participants());
    assert_eq!(token.balance_of(addr(3)), word(255));
    assert_eq!(c.get_request_status(word(42)), Ok((word(9), true, word(7))));
}

#[test]
fn failed_mint_reports_zero_winner() {
    let mut c = consumer_with_request(5, 1);
    c.set_lottery_entry_fee(addr(OWNER), word(100)).unwrap();
    c.set_erc20_token(addr(OWNER), addr(TOKEN)).unwrap();
    c.participate_in_lottery(addr(2), word(100)).unwrap();
    let mut token = Erc20Token::constructor("P".to_string(), "P".to_string(), word(10), addr(OWNER)).unwrap();
    token.set_authorized_minter(addr(OWNER), addr(CONSUMER)).unwrap();
    let pending = c.raw_fulfill_random_words(addr(WRAPPER), word(5), vec![word(0)]).unwrap();
    let payout = *pending.payout.as_ref().unwrap();
    assert_eq!(payout.amount, word(85));
    let minted = token.mint(addr(CONSUMER), payout.winner, payout.amount).is_ok();
    assert!(!minted);
    let event = c.finish_fulfillment(pending, minted);
    assert!(event.winner.is_zero());
    assert_eq!(event.payment, word(1));
    assert!(c.accepting_participants());
    assert_eq!(c.get_request_status(word(5)), Ok((word(1), true, word(0))));
}

#[test]
fn fulfillment_without_participants_still_completes() {
    let mut c = consumer_with_request(5, 3);
    let pending = c.raw_fulfill_random_words(addr(WRAPPER), word(5), vec![word(11), word(12)]).unwrap();
    assert_eq!(pending.payout, Err(Error::NoParticipants));
    let event = c.finish_fulfillment(pending, false);
    assert!(event.winner.is_zero());
    assert_eq!(event.random_words, vec![word(11), word(12)]);
    assert_eq!(c.get_request_status(word(5)), Ok((word(3), true, word(11))));
}

#[test]
fn fulfillment_with_no_words_keeps_value() {
    let mut c = consumer_with_request(5, 3);
    c.participate_in_lottery(addr(2), word(500_000)).unwrap();
    let pending = c.raw_fulfill_random_words(addr(WRAPPER), word(5), vec![]).unwrap();
    assert_eq!(pending.payout, Err(Error::NoWords));
    c.finish_fulfillment(pending, false);
    assert_eq!(c.get_request_status(word(5)), Ok((word(3), true, word(0))));
}

#[test]
fn zero_address_entrant_is_no_winner() {
    let mut c = consumer_with_request(5, 3);
    c.set_erc20_token(addr(OWNER), addr(TOKEN)).unwrap();
    c.participate_in_lottery(Address::zero(), word(500_000)).unwrap();
    c.participate_in_lottery(addr(2), word(500_000)).unwrap();
    let pending = c.raw_fulfill_random_words(addr(WRAPPER), word(5), vec![word(4)]).unwrap();
    assert_eq!(pending.payout, Err(Error::NoWinner));
}

#[test]
fn missing_token_is_reported() {
    let mut c = consumer_with_request(5, 3);
    c.participate_in_lottery(addr(2), word(500_000)).unwrap();
    let pending = c.raw_fulfill_random_words(addr(WRAPPER), word(5), vec![word(4)]).unwrap();
    assert_eq!(pending.payout, Err(Error::TokenNotSet));
}

#[test]
fn oversized_reward_is_reported() {
    let mut c = consumer_with_request(5, 3);
    c.set_erc20_token(addr(OWNER), addr(TOKEN)).unwrap();
    c.set_lottery_entry_fee(addr(OWNER), U256::max_value()).unwrap();
    c.participate_in_lottery(addr(2), U256::max_value()).unwrap();
    let pending = c.raw_fulfill_random_words(addr(WRAPPER), word(5), vec![word(4)]).unwrap();
    assert_eq!(pending.payout, Err(Error::RewardOverflow));
}

#[test]
fn only_wrapper_may_fulfill() {
    let mut c = consumer_with_request(5, 3);
    let r = c.raw_fulfill_random_words(addr(9), word(5), vec![word(1)]);
    assert_eq!(r.unwrap_err(), Error::OnlyVRFWrapperCanFulfill { have: addr(9), want: addr(WRAPPER) });
    assert_eq!(c.get_request_status(word(5)), Ok((word(3), false, word(0))));
    assert!(c.accepting_participants());
}

#[test]
fn unknown_request_cannot_be_fulfilled() {
    let mut c = consumer_with_request(5, 3);
    let r = c.raw_fulfill_random_words(addr(WRAPPER), word(6), vec![word(1)]);
    assert_eq!(r.unwrap_err(), Error::RequestNotFound);
    assert!(c.accepting_participants());
}

#[test]
fn status_query_is_idempotent() {
    let mut c = consumer_with_request(8, 2);
    let pending = c.raw_fulfill_random_words(addr(WRAPPER), word(8), vec![word(77)]).unwrap();
    c.finish_fulfillment(pending, false);
    let first = c.get_request_status(word(8));
    let second = c.get_request_status(word(8));
    assert_eq!(first, second);
    assert_eq!(first, Ok((word(2), true, word(77))));
}

#[test]
fn status_of_unknown_or_unpaid_request_is_not_found() {
    let mut c = consumer();
    assert_eq!(c.get_request_status(word(1)), Err(Error::RequestNotFound));
    c.record_request(100_000, word(1), word(0));
    assert_eq!(c.get_request_status(word(1)), Err(Error::RequestNotFound));
    let r = c.raw_fulfill_random_words(addr(WRAPPER), word(1), vec![word(1)]);
    assert_eq!(r.unwrap_err(), Error::RequestNotFound);
}

#[test]
fn repeated_request_id_resets_fulfillment() {
    let mut c = consumer_with_request(8, 2);
    let pending = c.raw_fulfill_random_words(addr(WRAPPER), word(8), vec![word(77)]).unwrap();
    c.finish_fulfillment(pending, false);
    c.record_request(200_000, word(8), word(4));
    assert_eq!(c.get_request_status(word(8)), Ok((word(4), false, word(77))));
    assert_eq!(c.get_last_request_id(), word(8));
}

#[test]
fn request_throttle_boundary() {
    let mut c = consumer();
    let t: u64 = 1_000_000;
    assert!(c.request_random_words(t).is_ok());
    c.record_request(t, word(1), word(5));
    assert_eq!(c.last_request_timestamp(), word(t));
    let interval: u64 = 4 * 3600;
    assert_eq!(c.request_random_words(t + interval - 1).unwrap_err(), Error::TooSoon);
    assert!(c.request_random_words(t + interval).is_ok());
}

#[test]
fn huge_interval_always_throttles() {
    let mut c = consumer();
    c.set_lottery_interval_hours(addr(OWNER), U256::max_value()).unwrap();
    assert_eq!(c.request_random_words(u64::MAX).unwrap_err(), Error::TooSoon);
}

#[test]
fn request_params_carry_configuration() {
    let c = consumer();
    let p = c.request_random_words(1_000_000).unwrap();
    assert_eq!(p.callback_gas_limit, 100_000);
    assert_eq!(p.request_confirmations, 3);
    assert_eq!(p.num_words, 1);
    assert_eq!(p.extra_args, get_extra_args_for_native_payment());
    assert_eq!(c.callback_gas_limit(), 100_000);
    assert_eq!(c.request_confirmations(), 3);
    assert_eq!(c.num_words(), 1);
}

#[test]
fn first_request_waits_for_one_interval_from_zero() {
    let c = consumer();
    assert_eq!(c.request_random_words(14_399).unwrap_err(), Error::TooSoon);
    assert!(c.request_random_words(14_400).is_ok());
}

#[test]
fn wrong_amount_is_refused() {
    let mut c = consumer();
    assert_eq!(c.participate_in_lottery(addr(2), word(499_999)), Err(Error::WrongAmount));
    assert_eq!(c.participate_in_lottery(addr(2), word(500_001)), Err(Error::WrongAmount));
    assert_eq!(c.get_user_addresses_count(), word(0));
}

#[test]
fn exact_fee_enters_once_per_address() {
    let mut c = consumer();
    assert_eq!(c.participate_in_lottery(addr(2), word(500_000)), Ok(()));
    assert_eq!(c.participate_in_lottery(addr(2), word(500_000)), Err(Error::AlreadyParticipating));
    assert_eq!(c.participate_in_lottery(addr(3), word(500_000)), Ok(()));
    assert_eq!(c.get_user_addresses_count(), word(2));
    assert_eq!(c.get_user_address(word(0)), Ok(addr(2)));
    assert_eq!(c.get_user_address(word(1)), Ok(addr(3)));
    assert_eq!(c.get_user_address(word(2)), Err(Error::OutOfBounds));
    assert_eq!(c.get_user_address(U256::max_value()), Err(Error::OutOfBounds));
}

#[test]
fn zero_fee_is_refused() {
    let mut c = consumer();
    c.set_lottery_entry_fee(addr(OWNER), word(0)).unwrap();
    assert_eq!(c.participate_in_lottery(addr(2), word(0)), Err(Error::FeeNotSet));
}

#[test]
fn entries_close_during_a_draw() {
    let mut c = consumer_with_request(5, 3);
    let pending = c.raw_fulfill_random_words(addr(WRAPPER), word(5), vec![word(1)]).unwrap();
    assert_eq!(c.participate_in_lottery(addr(2), word(500_000)), Err(Error::NotAcceptingParticipants));
    c.finish_fulfillment(pending, false);
    assert_eq!(c.participate_in_lottery(addr(2), word(500_000)), Ok(()));
}

#[test]
fn participants_persist_across_rounds() {
    let mut c = consumer_with_request(5, 3);
    c.participate_in_lottery(addr(2), word(500_000)).unwrap();
    let pending = c.raw_fulfill_random_words(addr(WRAPPER), word(5), vec![word(1)]).unwrap();
    c.finish_fulfillment(pending, false);
    assert_eq!(c.participate_in_lottery(addr(2), word(500_000)), Err(Error::AlreadyParticipating));
    assert_eq!(c.get_user_addresses_count(), word(1));
}

#[test]
fn winner_index_examples() {
    assert_eq!(select_winner_index(word(0), 5), Some(0));
    assert_eq!(select_winner_index(word(7), 3), Some(1));
    assert_eq!(select_winner_index(word(9), 3), Some(0));
    assert_eq!(select_winner_index(U256::max_value(), 10), Some(5));
    assert_eq!(select_winner_index(word(5), 0), None);
    for r in 0..50u64 {
        let i = select_winner_index(word(r), 7).unwrap();
        assert!(i < 7);
    }
}

#[test]
fn reward_examples() {
    assert_eq!(reward_for(word(100), 3), Some(word(255)));
    assert_eq!(reward_for(word(1), 1), Some(word(0)));
    assert_eq!(reward_for(word(500_000), 2), Some(word(850_000)));
    assert_eq!(reward_for(word(7), 0), Some(word(0)));
    assert_eq!(reward_for(U256::max_value(), 1), None);
}

#[test]
fn native_payment_extra_args_layout() {
    let args = get_extra_args_for_native_payment();
    assert_eq!(args.len(), 64);
    assert_eq!(&args[0..4], &[0x92, 0xfd, 0x13, 0x38]);
    assert!(args[4..32].iter().all(|b| *b == 0));
    assert_eq!(&args[32..36], &[0, 0, 0, 1]);
    assert!(args[36..64].iter().all(|b| *b == 0));
}

#[test]
fn decide_winner_reports_payout() {
    let mut c = consumer();
    c.set_erc20_token(addr(OWNER), addr(TOKEN)).unwrap();
    c.set_lottery_entry_fee(addr(OWNER), word(10)).unwrap();
    c.participate_in_lottery(addr(2), word(10)).unwrap();
    c.participate_in_lottery(addr(3), word(10)).unwrap();
    let p = c.decide_winner(&vec![word(3)]).unwrap();
    assert_eq!(p, Payout { token: addr(TOKEN), winner: addr(3), amount: word(17) });
}

#[test]
fn withdraw_is_single_flight() {
    let mut c = consumer();
    assert_eq!(
        c.withdraw(addr(9), word(5), Address::zero()).unwrap_err(),
        Error::UnauthorizedAccount { account: addr(9) }
    );
    match c.withdraw(addr(OWNER), word(5), Address::zero()).unwrap() {
        Withdrawal::Native { to, amount } => {
            assert_eq!(to, addr(OWNER));
            assert_eq!(amount, word(5));
        }
        other => panic!("unexpected {:?}", other),
    }
    assert_eq!(c.withdraw_native(addr(OWNER), word(1)).unwrap_err(), Error::WithdrawalInProgress);
    c.finish_withdraw();
    match c.withdraw(addr(OWNER), word(6), addr(TOKEN)).unwrap() {
        Withdrawal::Token { token, to, amount } => {
            assert_eq!(token, addr(TOKEN));
            assert_eq!(to, addr(OWNER));
            assert_eq!(amount, word(6));
        }
        other => panic!("unexpected {:?}", other),
    }
    c.finish_withdraw();
}

#[test]
fn withdraw_erc20_needs_a_token() {
    let mut c = consumer();
    assert_eq!(c.withdraw_erc20(addr(OWNER), word(1)).unwrap_err(), Error::TokenNotSet);
    c.set_erc20_token(addr(OWNER), addr(TOKEN)).unwrap();
    assert!(matches!(
        c.withdraw_erc20(addr(OWNER), word(1)),
        Ok(Withdrawal::Token { token, .. }) if token == addr(TOKEN)
    ));
}

#[test]
fn setters_are_owner_only() {
    let mut c = consumer();
    let denied = Error::UnauthorizedAccount { account: addr(9) };
    assert_eq!(c.set_erc20_token(addr(9), addr(TOKEN)), Err(denied));
    assert_eq!(c.set_lottery_entry_fee(addr(9), word(1)), Err(denied));
    assert_eq!(c.set_lottery_interval_hours(addr(9), word(1)), Err(denied));
    assert_eq!(c.lottery_entry_fee(), word(500_000));
    assert_eq!(c.lottery_interval_hours(), word(4));
    assert!(c.erc20_token_address().is_zero());
    c.set_lottery_interval_hours(addr(OWNER), word(1)).unwrap();
    assert_eq!(c.lottery_interval_hours(), word(1));
}

#[test]
fn constructor_defaults_and_zero_owner() {
    let c = consumer();
    assert_eq!(c.owner(), addr(OWNER));
    assert_eq!(c.i_vrf_v2_plus_wrapper(), addr(WRAPPER));
    assert!(c.accepting_participants());
    assert_eq!(c.get_last_request_id(), word(0));
    assert_eq!(c.last_request_timestamp(), word(0));
    let r = VrfConsumer::constructor(addr(WRAPPER), Address::zero());
    assert!(matches!(r, Err(Error::InvalidOwner { owner }) if owner.is_zero()));
}

#[test]
fn receive_reports_sender_and_value() {
    let c = consumer();
    let ev = c.receive(addr(4), word(12));
    assert_eq!(ev.sender, addr(4));
    assert_eq!(ev.value, word(12));
}
