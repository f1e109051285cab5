use crate::raw_data::RawDataU64;
use vstd::prelude::*;

verus! {

/// Bit `i` of `mask` is set.
pub open spec fn bit_set(mask: u64, i: u64) -> bool {
    mask & (1u64 << i) != 0
}

/// How many of the bits below `n` are set in `mask`.
pub open spec fn count_below(mask: u64, n: nat) -> nat
    decreases n,
{
    if n == 0 {
        0
    } else {
        count_below(mask, (n - 1) as nat) + if bit_set(mask, (n - 1) as u64) {
            1nat
        } else {
            0nat
        }
    }
}

/// How many bits are set in `mask`.
pub open spec fn popcount(mask: u64) -> nat {
    count_below(mask, 64)
}

proof fn lemma_count_below_bound(mask: u64, n: nat)
    ensures
        count_below(mask, n) <= n,
    decreases n,
{
    if n > 0 {
        lemma_count_below_bound(mask, (n - 1) as nat);
    }
}

/// Counts the bits below `n` that are set in `mask`.
pub fn count_bits_below(mask: u64, n: u64) -> (r: u64)
    requires
        n <= 64,
    ensures
        r == count_below(mask, n as nat),
{
    let mut count: u64 = 0;
    let mut i: u64 = 0;
    while i < n
        invariant
            i <= n <= 64,
            count == count_below(mask, i as nat),
        decreases n - i,
    {
        proof {
            lemma_count_below_bound(mask, i as nat);
        }
        if mask & (1u64 << i) != 0 {
            count += 1;
        }
        i += 1;
    }
    count
}

/// The registers of a sample: the values of the registers that `regs_mask`
/// selects, packed in ascending register order.
#[derive(Debug, Clone, PartialEq, Eq)]
pub struct Regs<'a> {
    regs_mask: u64,
    raw_regs: RawDataU64<'a>,
}

impl<'a> Regs<'a> {
    /// The registers that were recorded.
    pub closed spec fn mask(&self) -> u64 {
        self.regs_mask
    }

    /// The recorded values, in ascending register order.
    pub closed spec fn values(&self) -> Seq<u64> {
        self.raw_regs@
    }

    pub fn new(regs_mask: u64, raw_regs: RawDataU64<'a>) -> (r: Self)
        ensures
            r.mask() == regs_mask,
            r.values() == raw_regs@,
    {
        Self { regs_mask, raw_regs }
    }

    /// The value of register `register`, if it was recorded.
    pub fn get(&self, register: u64) -> (r: Option<u64>)
        ensures
            r == if register < 64 && bit_set(self.mask(), register) && count_below(
                self.mask(),
                register as nat,
            ) < self.values().len() {
                Some(self.values()[count_below(self.mask(), register as nat) as int])
            } else {
                None::<u64>
            },
    {
        if register >= 64 || self.regs_mask & (1u64 << register) == 0 {
            return None;
        }
        let index = count_bits_below(self.regs_mask, register);
        proof {
            lemma_count_below_bound(self.regs_mask, register as nat);
        }
        self.raw_regs.get(index as usize)
    }
}

} // verus!
