//! Small shared helpers: saturating subtraction, random flag assignment,
//! and the master-seed holder.

use vstd::prelude::*;
use crate::UNIT;
use crate::debug::{Log, MessageType};
use crate::rng::{fresh_seed, rand_below, shuffle_indices};

verus! {

/// A subtraction that never goes below zero.
pub trait SafeSub: Sized {
    spec fn spec_safe_sub(self, rhs: Self) -> Self;

    fn safe_sub(self, rhs: Self) -> (r: Self)
        ensures
            r == self.spec_safe_sub(rhs),
    ;
}

impl SafeSub for u32 {
    open spec fn spec_safe_sub(self, rhs: u32) -> u32 {
        if self >= rhs {
            (self - rhs) as u32
        } else {
            0
        }
    }

    fn safe_sub(self, rhs: u32) -> (r: u32) {
        if self >= rhs {
            self - rhs
        } else {
            0
        }
    }
}

/// `v` occurs somewhere in `s`.
pub open spec fn spec_in_pool(s: Seq<usize>, v: usize) -> bool {
    exists|i: int| 0 <= i < s.len() && s[i] == v
}

pub struct RandBools {}

impl RandBools {
    /// A biased coin: true with the given probability (in ppm).  A zero
    /// probability never fires, a full one always does.
    pub fn rand_bool(rng: &mut rand::rngs::SmallRng, probability: u32) -> (b: bool)
        ensures
            probability == 0 ==> !b,
            probability >= UNIT ==> b,
    {
        let draw = rand_below(rng, UNIT as usize);
        draw < probability as usize
    }

    /// Walks the pool of flag indices in a shuffled order and switches up to
    /// `max_assign` of the flags they point at to true, each with the given
    /// probability; with `guaranteed_one` the first visited flag is switched
    /// unconditionally.  Flags are only ever raised, never cleared, and only
    /// at indices the pool names.
    pub fn roll_bools(
        rng: &mut rand::rngs::SmallRng,
        flags: &mut Vec<bool>,
        pool: &mut Vec<usize>,
        max_assign: usize,
        prob: u32,
        guaranteed_one: bool,
    )
        requires
            forall|i: int| 0 <= i < old(pool)@.len() ==> old(pool)@[i] < old(flags)@.len(),
        ensures
            final(flags)@.len() == old(flags)@.len(),
            forall|i: int| 0 <= i < old(flags)@.len() && old(flags)@[i] ==> final(flags)@[i],
            forall|i: int|
                0 <= i < old(flags)@.len() && final(flags)@[i] != old(flags)@[i]
                    ==> spec_in_pool(old(pool)@, i as usize),
            guaranteed_one && max_assign >= 1 && old(pool)@.len() >= 1 ==> (exists|i: int|
                0 <= i < final(flags)@.len() && final(flags)@[i]),
    {
        let ghost pool0 = old(pool)@;
        let ghost flags0 = old(flags)@;
        shuffle_indices(rng, pool);
        proof {
            assert forall|j: int| 0 <= j < pool@.len() implies pool@[j] < flags0.len()
                && spec_in_pool(pool0, pool@[j]) by {
                assert(pool@.to_multiset().contains(pool@[j])) by {
                    pool@.to_multiset_ensures();
                }
                assert(pool0.to_multiset().contains(pool@[j]));
                assert(pool0.contains(pool@[j])) by {
                    pool0.to_multiset_ensures();
                }
                let w = choose|i: int| 0 <= i < pool0.len() && pool0[i] == pool@[j];
                assert(pool0[w] < flags0.len());
            }
        }
        let mut assigned: usize = 0;
        let mut j: usize = 0;
        while j < pool.len()
            invariant_except_break
                j <= pool@.len(),
                forall|i: int| 0 <= i < pool@.len() ==> pool@[i] < flags0.len()
                    && spec_in_pool(pool0, pool@[i]),
                flags@.len() == flags0.len(),
                forall|i: int| 0 <= i < flags0.len() && flags0[i] ==> flags@[i],
                forall|i: int|
                    0 <= i < flags0.len() && flags@[i] != flags0[i]
                        ==> spec_in_pool(pool0, i as usize),
                guaranteed_one && max_assign >= 1 && j >= 1 ==> assigned >= 1,
                assigned >= 1 ==> (exists|i: int| 0 <= i < flags@.len() && flags@[i]),
            ensures
                flags@.len() == flags0.len(),
                forall|i: int| 0 <= i < flags0.len() && flags0[i] ==> flags@[i],
                forall|i: int|
                    0 <= i < flags0.len() && flags@[i] != flags0[i]
                        ==> spec_in_pool(pool0, i as usize),
                guaranteed_one && max_assign >= 1 && pool@.len() >= 1 ==> (exists|i: int|
                    0 <= i < flags@.len() && flags@[i]),
            decreases pool@.len() - j,
        {
            if assigned >= max_assign {
                break;
            }
            let idx = pool[j];
            let fired = Self::rand_bool(rng, prob);
            if fired || (guaranteed_one && assigned == 0) {
                flags.set(idx, true);
                assigned = assigned + 1;
                proof {
                    assert(flags@[idx as int]);
                }
            }
            j = j + 1;
        }
    }

    /// With probability `initial_chance`, rolls the pool as `roll_bools`
    /// does; otherwise leaves every flag alone.
    pub fn maybe_roll_bools(
        rng: &mut rand::rngs::SmallRng,
        flags: &mut Vec<bool>,
        pool: &mut Vec<usize>,
        max_assign: usize,
        prob: u32,
        guaranteed_one: bool,
        initial_chance: u32,
    )
        requires
            forall|i: int| 0 <= i < old(pool)@.len() ==> old(pool)@[i] < old(flags)@.len(),
        ensures
            final(flags)@.len() == old(flags)@.len(),
            forall|i: int| 0 <= i < old(flags)@.len() && old(flags)@[i] ==> final(flags)@[i],
            forall|i: int|
                0 <= i < old(flags)@.len() && final(flags)@[i] != old(flags)@[i]
                    ==> spec_in_pool(old(pool)@, i as usize),
    {
        if Self::rand_bool(rng, initial_chance) {
            Self::roll_bools(rng, flags, pool, max_assign, prob, guaranteed_one);
        }
    }
}

/// `v` subtracted to a floor of zero; the spec-side of `SafeSub`.
pub open spec fn spec_sub0(a: int, b: int) -> int {
    if a >= b { a - b } else { 0 }
}

/// `v` clamped into `[lo, hi]`.
pub fn clamp_u32(v: u32, lo: u32, hi: u32) -> (r: u32)
    requires
        lo <= hi,
    ensures
        r == crate::combat::spec_clamp(v as int, lo as int, hi as int),
{
    if v < lo {
        lo
    } else if v > hi {
        hi
    } else {
        v
    }
}

/// A ppm value rounded to the nearest hundredth of a whole.
pub open spec fn spec_round_centi(v: int) -> int {
    (v + 5_000) / 10_000 * 10_000
}

pub fn round_centi(v: u32) -> (r: u32)
    requires
        v <= 4_000_000_000,
    ensures
        r == spec_round_centi(v as int),
{
    ((v as u64 + 5_000) / 10_000 * 10_000) as u32
}

/// A stat scaled by a ppm factor, rounded to the nearest unit and
/// saturated at the stat type.
pub open spec fn spec_scale_round(v: int, factor: int) -> int {
    let scaled = (v * factor + 500_000) / (UNIT as int);
    if scaled > u32::MAX as int { u32::MAX as int } else { scaled }
}

pub fn scale_round(v: u32, factor: u32) -> (r: u32)
    ensures
        r == spec_scale_round(v as int, factor as int),
{
    proof {
        assert(0 <= v as int * factor as int <= 0xffff_ffffint * 0xffff_ffff)
            by (nonlinear_arith)
            requires v <= 0xffff_ffffu32 && factor <= 0xffff_ffffu32;
    }
    let scaled: u128 = ((v as u128) * (factor as u128) + 500_000) / (UNIT as u128);
    if scaled > u32::MAX as u128 {
        u32::MAX
    } else {
        scaled as u32
    }
}

/// The digit character for one decimal digit.
pub open spec fn spec_digit(d: int) -> char {
    if d == 0 { '0' }
    else if d == 1 { '1' }
    else if d == 2 { '2' }
    else if d == 3 { '3' }
    else if d == 4 { '4' }
    else if d == 5 { '5' }
    else if d == 6 { '6' }
    else if d == 7 { '7' }
    else if d == 8 { '8' }
    else { '9' }
}

/// The decimal rendering of a non-negative number, most significant digit
/// first.
pub open spec fn spec_dec(n: int) -> Seq<char>
    decreases n,
{
    if n < 10 {
        seq![spec_digit(n)]
    } else {
        spec_dec(n / 10).push(spec_digit(n % 10))
    }
}

fn digit_str(d: u64) -> (s: &'static str)
    requires
        d < 10,
    ensures
        s@ =~= seq![spec_digit(d as int)],
{
    proof {
        reveal_strlit("0");
        reveal_strlit("1");
        reveal_strlit("2");
        reveal_strlit("3");
        reveal_strlit("4");
        reveal_strlit("5");
        reveal_strlit("6");
        reveal_strlit("7");
        reveal_strlit("8");
        reveal_strlit("9");
    }
    match d {
        0 => "0",
        1 => "1",
        2 => "2",
        3 => "3",
        4 => "4",
        5 => "5",
        6 => "6",
        7 => "7",
        8 => "8",
        _ => "9",
    }
}

/// Renders a number in decimal, exactly as `spec_dec` lays it out.
pub fn dec_string(n: u64) -> (s: String)
    ensures
        s@ =~= spec_dec(n as int),
    decreases n,
{
    if n < 10 {
        String::from_str(digit_str(n))
    } else {
        proof {
            vstd::arithmetic::div_mod::lemma_div_is_strictly_smaller(n as int, 10);
            vstd::arithmetic::div_mod::lemma_mod_pos_bound(n as int, 10);
        }
        let mut s = dec_string(n / 10);
        s.append(digit_str(n % 10));
        s
    }
}

/// Owns the master seed every engagement's generator is derived from.
#[derive(Clone, Debug)]
pub struct RngHub {
    pub master_seed: u64,
}

impl RngHub {
    /// A hub with the given seed, or a freshly drawn one.
    pub fn new(master_seed: Option<u64>) -> (h: RngHub)
        ensures
            master_seed matches Some(s) ==> h.master_seed == s,
    {
        let master = match master_seed {
            Some(s) => s,
            None => fresh_seed(),
        };
        RngHub { master_seed: master }
    }

    /// The generator all randomness of one run flows through.
    pub fn master_rng(&self) -> rand::rngs::SmallRng {
        crate::rng::rng_from_seed(self.master_seed)
    }

    /// Records the master seed in the log, in decimal.
    pub fn log_master_seed(&self, log: &mut Log)
        ensures
            final(log).messages@.len() == old(log).messages@.len() + 1,
            forall|i: int|
                0 <= i < old(log).messages@.len() ==> final(log).messages@[i] == old(
                    log,
                ).messages@[i],
            final(log).messages@.last().mtype == MessageType::Debug,
            final(log).messages@.last().content@ == "MASTER SEED: "@ + spec_dec(
                self.master_seed as int,
            ),
    {
        let mut content = String::from_str("MASTER SEED: ");
        let digits = dec_string(self.master_seed);
        content.append(digits.as_str());
        log.add(MessageType::Debug, content, true);
    }
}

} // verus!
