use crate::uint256::{lemma_value_bounded, word_modulus, Uint256};
use vstd::arithmetic::div_mod::{lemma_add_mod_noop, lemma_mod_self_0, lemma_small_mod};
use vstd::prelude::*;

verus! {

/// The value one increment leads to from `n`: one more, wrapping around at 2^256.
pub open spec fn successor(n: nat) -> nat {
    (n + 1) % word_modulus()
}

/// Below 2^256 - 1 the successor is one more; at 2^256 - 1 it is zero.
pub proof fn lemma_successor_cases(n: nat)
    ensures
        n + 1 < word_modulus() ==> successor(n) == n + 1,
        n + 1 == word_modulus() ==> successor(n) == 0,
{
    if n + 1 < word_modulus() {
        lemma_small_mod(n + 1, word_modulus());
    }
    if n + 1 == word_modulus() {
        lemma_mod_self_0(word_modulus() as int);
    }
}

/// The value that `k` increments lead to from `start`.
pub open spec fn after_increments(start: nat, k: nat) -> nat
    decreases k,
{
    if k == 0 {
        start
    } else {
        successor(after_increments(start, (k - 1) as nat))
    }
}

/// A counter holding one persisted unsigned 256-bit integer.
///
/// A freshly deployed counter holds zero; the value changes only through
/// `set_number` and `increment`.
#[derive(Clone, Copy, Debug, PartialEq, Eq, Structural)]
pub struct Counter {
    number: Uint256,
}

impl View for Counter {
    type V = nat;

    /// The integer the counter currently holds.
    closed spec fn view(&self) -> nat {
        self.current()@
    }
}

impl Counter {
    /// The stored value, as `number` hands it out.
    pub closed spec fn current(&self) -> Uint256 {
        self.number
    }

    /// The counter that holds `v` and nothing else of `self`.
    pub closed spec fn with_number(&self, v: Uint256) -> Counter {
        Counter { number: v }
    }

    /// The counter as it stands at deployment: holding zero.
    pub fn new() -> (r: Counter)
        ensures
            r@ == 0,
    {
        Counter { number: Uint256::zero() }
    }

    /// The stored value.
    pub fn number(&self) -> (r: Uint256)
        ensures
            r == self.current(),
            r@ == self@,
    {
        self.number
    }

    /// Overwrites the stored value with `new_number`.
    pub fn set_number(&mut self, new_number: Uint256)
        ensures
            *final(self) == old(self).with_number(new_number),
            final(self).current() == new_number,
            final(self)@ == new_number@,
    {
        self.number = new_number;
    }

    /// Adds one to the stored value, wrapping around to zero past 2^256 - 1.
    pub fn increment(&mut self)
        ensures
            final(self)@ == successor(old(self)@),
            old(self)@ + 1 < word_modulus() ==> final(self)@ == old(self)@ + 1,
            old(self)@ + 1 == word_modulus() ==> final(self)@ == 0,
    {
        let number = self.number;
        self.set_number(number.wrapping_add(Uint256::from_u64(1)));
        proof {
            lemma_successor_cases(old(self)@);
        }
    }
}

/// Reading a counter after `set_number(v)` gives back `v` itself.
pub proof fn lemma_read_after_set(c: Counter, v: Uint256)
    ensures
        c.with_number(v).current() == v,
        c.with_number(v)@ == v@,
{
}

/// What a counter holds always lies below 2^256.
pub proof fn lemma_counter_bounded(c: Counter)
    ensures
        c@ < word_modulus(),
{
    lemma_value_bounded(c.current());
}

/// `n` increments of a freshly deployed counter leave it holding `n`,
/// reduced modulo 2^256; in particular exactly `n` while `n < 2^256`.
pub proof fn lemma_increments_from_zero(n: nat)
    ensures
        after_increments(0, n) == n % word_modulus(),
        n < word_modulus() ==> after_increments(0, n) == n,
    decreases n,
{
    let m = word_modulus() as int;
    if n == 0 {
        lemma_small_mod(0, m as nat);
    } else {
        let k = (n - 1) as nat;
        lemma_increments_from_zero(k);
        lemma_add_mod_noop(k as int, 1, m);
        lemma_small_mod(1, m as nat);
    }
    if n < word_modulus() {
        lemma_small_mod(n, word_modulus());
    }
}

} // verus!
