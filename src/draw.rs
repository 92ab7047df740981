use vstd::prelude::*;
use crate::uint::{checked_div, checked_mul, checked_rem, word_modulus, U256};

verus! {

/// Share of the prize pool, in percent, that goes to the winner.
pub const WINNER_SHARE_PERCENT: u64 = 85;

/// The winner's index for random value `random` among `count` entrants.
pub open spec fn winner_index_spec(random: nat, count: nat) -> nat
    recommends
        count > 0,
{
    random % count
}

/// The winner's index always lies among the entrants.
pub proof fn lemma_winner_index_in_range(random: nat, count: nat)
    requires
        count > 0,
    ensures
        winner_index_spec(random, count) < count,
{
}

/// A random value of zero picks the first entrant.
pub proof fn lemma_zero_picks_first(count: nat)
    requires
        count > 0,
    ensures
        winner_index_spec(0, count) == 0,
{
}

/// The reward for a pool of `count` entries at `fee` each.
pub open spec fn reward_spec(fee: nat, count: nat) -> nat {
    fee * count * 85 / 100
}

/// Picks the winning position by reducing `random` modulo `count`; `None`
/// when nobody takes part.
pub fn select_winner_index(random: U256, count: usize) -> (r: Option<usize>)
    ensures
        count == 0 ==> r is None,
        count > 0 ==> r == Some(winner_index_spec(random@, count as nat) as usize),
        r matches Some(i) ==> i < count,
{
    if count == 0 {
        return None;
    }
    let n = U256::from_u64(count as u64);
    let m = checked_rem(random, n).unwrap();
    assert(m@ < count);
    let v = m.to_u64();
    Some(v as usize)
}

/// The winner's reward, `fee * count * 85 / 100` rounded down; `None` where
/// the product before the division does not fit in 256 bits.
pub fn reward_for(fee: U256, count: usize) -> (r: Option<U256>)
    ensures
        fee@ * count * 85 < word_modulus() ==> (r matches Some(x) && x@ == reward_spec(
            fee@,
            count as nat,
        )),
        fee@ * count * 85 >= word_modulus() ==> r is None,
{
    let n = U256::from_u64(count as u64);
    let pool = match checked_mul(fee, n) {
        Some(p) => p,
        None => {
            assert(fee@ * count * 85 >= fee@ * count) by (nonlinear_arith);
            return None;
        },
    };
    let share = U256::from_u64(WINNER_SHARE_PERCENT);
    let scaled = match checked_mul(pool, share) {
        Some(s) => s,
        None => {
            return None;
        },
    };
    checked_div(scaled, U256::from_u64(100))
}

/// The tag that opens version-one extra arguments of a randomness request.
pub open spec fn extra_args_v1_tag() -> Seq<u8> {
    seq![0x92u8, 0xfdu8, 0x13u8, 0x38u8]
}

/// The extra arguments that ask for payment in the native currency: the
/// tag, 28 zero bytes, the flag `true` as four bytes, and 28 zero bytes.
pub open spec fn native_payment_args() -> Seq<u8> {
    extra_args_v1_tag() + Seq::new(28, |i: int| 0u8) + seq![0u8, 0u8, 0u8, 1u8] + Seq::new(
        28,
        |i: int| 0u8,
    )
}

fn push_zeros(v: &mut Vec<u8>, n: usize)
    ensures
        final(v)@ == old(v)@ + Seq::new(n as nat, |i: int| 0u8),
{
    let ghost start = v@;
    let mut k: usize = 0;
    while k < n
        invariant
            k <= n,
            v@ == start + Seq::new(k as nat, |i: int| 0u8),
        decreases n - k,
    {
        v.push(0u8);
        k = k + 1;
        assert(v@ =~= start + Seq::new(k as nat, |i: int| 0u8));
    }
}

/// The 64-byte extra arguments that select native payment.
pub fn get_extra_args_for_native_payment() -> (r: Vec<u8>)
    ensures
        r@ == native_payment_args(),
        r@.len() == 64,
{
    let mut v: Vec<u8> = Vec::new();
    v.push(0x92u8);
    v.push(0xfdu8);
    v.push(0x13u8);
    v.push(0x38u8);
    assert(v@ =~= extra_args_v1_tag());
    push_zeros(&mut v, 28);
    v.push(0u8);
    v.push(0u8);
    v.push(0u8);
    v.push(1u8);
    push_zeros(&mut v, 28);
    assert(v@ =~= native_payment_args());
    v
}

} // verus!
