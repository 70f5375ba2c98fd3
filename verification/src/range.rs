//! Explicit IPv4 ranges and their decomposition into aligned CIDR blocks.
//!
//! The decomposition is greedy: at each cursor position it emits the
//! largest aligned block that starts there and still fits inside the
//! remaining interval, then advances the cursor past it.  The chosen
//! block size is pinned down by `greedy_exp`, so the whole output
//! sequence is a function of the input interval (`is_chain`).

use vstd::prelude::*;

use vstd::arithmetic::power2::lemma2_to64;
use vstd::arithmetic::power2::lemma_pow2_pos;
use vstd::arithmetic::power2::lemma_pow2_unfold;
use vstd::arithmetic::power2::pow2;

use crate::arith::lemma_mod_pow2_mono;
use crate::arith::lemma_pow2_increases;
use crate::block::Ipv4Cidr;

verus! {

/// A closed interval of IPv4 addresses, `start_ip <= end_ip`.
#[derive(Debug, Copy, Clone, Hash, PartialEq, Eq, Structural)]
pub struct Ipv4Range {
    pub start_ip: u32,
    pub end_ip: u32,
}

impl Ipv4Range {
    /// The interval is non-empty.
    pub open spec fn wf(self) -> bool {
        self.start_ip <= self.end_ip
    }

    /// Number of addresses in the interval.
    pub open spec fn spec_total(self) -> int {
        self.end_ip - self.start_ip + 1
    }

    pub fn new(start_ip: u32, end_ip: u32) -> (r: Self)
        ensures
            r.start_ip == start_ip,
            r.end_ip == end_ip,
    {
        Ipv4Range { start_ip, end_ip }
    }

    /// Builds the interval that starts at `start_ip` and holds `nums`
    /// addresses.  A zero count or an interval that would leave the
    /// 32-bit space is a contract violation.
    pub fn with_nums(start_ip: u32, nums: u32) -> (r: Self)
        requires
            nums >= 1,
            start_ip + nums - 1 <= u32::MAX,
        ensures
            r.start_ip == start_ip,
            r.end_ip == start_ip + nums - 1,
            r.wf(),
    {
        let end_ip = start_ip + (nums - 1);
        Ipv4Range { start_ip, end_ip }
    }

    pub fn first(&self) -> (r: u32)
        ensures
            r == self.start_ip,
    {
        self.start_ip
    }

    pub fn last(&self) -> (r: u32)
        ensures
            r == self.end_ip,
    {
        self.end_ip
    }

    /// Number of addresses in the interval.
    pub fn total(&self) -> (r: u32)
        requires
            self.wf(),
            self.spec_total() <= u32::MAX,
        ensures
            r == self.spec_total(),
    {
        self.end_ip - self.start_ip + 1
    }

    /// Iterator over every address of the interval, in ascending order.
    pub fn addrs(&self) -> (r: Ipv4AddrsIter)
        requires
            self.wf(),
        ensures
            r.wf(),
            r.offset == self.start_ip,
            r.end == self.end_ip,
    {
        Ipv4AddrsIter { offset: self.start_ip as u64, end: self.end_ip as u64 }
    }

    /// Iterator over the greedy CIDR decomposition of the interval.
    pub fn cidrs(&self) -> (r: Ipv4CidrIter)
        requires
            self.wf(),
        ensures
            r.wf(),
            r.start == self.start_ip,
            r.end == self.end_ip,
    {
        Ipv4CidrIter { start: self.start_ip as u64, end: self.end_ip as u64 }
    }
}

/// Yields each address of an interval in turn.
pub struct Ipv4AddrsIter {
    pub offset: u64,
    pub end: u64,
}

impl Ipv4AddrsIter {
    /// The cursor may sit at most one past the inclusive end, which is a
    /// 32-bit address.
    pub open spec fn wf(self) -> bool {
        &&& self.end <= u32::MAX
        &&& self.offset <= self.end + 1
    }

    /// The next address, if the cursor has not passed the end.
    pub fn next(&mut self) -> (r: Option<u32>)
        requires
            old(self).wf(),
        ensures
            final(self).wf(),
            final(self).end == old(self).end,
            match r {
                Some(a) => {
                    &&& old(self).offset <= old(self).end
                    &&& a == old(self).offset
                    &&& final(self).offset == old(self).offset + 1
                },
                None => {
                    &&& old(self).offset > old(self).end
                    &&& final(self).offset == old(self).offset
                },
            },
    {
        if self.end >= self.offset {
            let ip = self.offset as u32;
            self.offset = self.offset + 1;
            Some(ip)
        } else {
            None
        }
    }
}

/// An aligned block of `pow2(e)` addresses starting at `pos` lies inside
/// the half-open interval `[pos, end_excl)` of the 32-bit space.
pub open spec fn fits(pos: int, end_excl: int, e: nat) -> bool {
    &&& e <= 32
    &&& pos % (pow2(e) as int) == 0
    &&& pos + pow2(e) <= end_excl
}

/// The largest exponent `<= e` whose block fits at `pos`, or 0.
pub open spec fn greedy_exp_from(pos: int, end_excl: int, e: nat) -> nat
    decreases e,
{
    if e == 0 {
        0
    } else if fits(pos, end_excl, e) {
        e
    } else {
        greedy_exp_from(pos, end_excl, (e - 1) as nat)
    }
}

/// The exponent of the greedy block at `pos`: the largest `e <= 32` such
/// that a `pow2(e)`-sized aligned block at `pos` stays inside
/// `[pos, end_excl)`.
pub open spec fn greedy_exp(pos: int, end_excl: int) -> nat {
    greedy_exp_from(pos, end_excl, 32)
}

/// Fitting is downward closed in the exponent.
proof fn lemma_fits_mono(pos: int, end_excl: int, e1: nat, e2: nat)
    requires
        e1 <= e2,
        fits(pos, end_excl, e2),
    ensures
        fits(pos, end_excl, e1),
{
    lemma_mod_pow2_mono(pos, e1, e2);
    lemma_pow2_increases(e1, e2);
}

proof fn lemma_greedy_exp_from_max(pos: int, end_excl: int, e: nat)
    requires
        fits(pos, end_excl, 0),
    ensures
        greedy_exp_from(pos, end_excl, e) <= e,
        fits(pos, end_excl, greedy_exp_from(pos, end_excl, e)),
        forall|e2: nat| e2 <= e && fits(pos, end_excl, e2) ==> e2 <= greedy_exp_from(pos, end_excl, e),
    decreases e,
{
    if e != 0 && !fits(pos, end_excl, e) {
        lemma_greedy_exp_from_max(pos, end_excl, (e - 1) as nat);
    }
}

/// `greedy_exp` really is the maximum fitting exponent.
pub proof fn lemma_greedy_exp_max(pos: int, end_excl: int)
    requires
        fits(pos, end_excl, 0),
    ensures
        greedy_exp(pos, end_excl) <= 32,
        fits(pos, end_excl, greedy_exp(pos, end_excl)),
        forall|e: nat| fits(pos, end_excl, e) ==> e <= greedy_exp(pos, end_excl),
{
    lemma_greedy_exp_from_max(pos, end_excl, 32);
}

/// Yields the greedy CIDR decomposition of an interval, block by block.
pub struct Ipv4CidrIter {
    pub start: u64,
    pub end: u64,
}

impl Ipv4CidrIter {
    /// The cursor may sit at most one past the inclusive end, which is a
    /// 32-bit address.
    pub open spec fn wf(self) -> bool {
        &&& self.end <= u32::MAX
        &&& self.start <= self.end + 1
    }

    /// Emits the largest aligned block that starts at the cursor and fits
    /// in the remaining interval, then advances past it.
    pub fn next(&mut self) -> (r: Option<Ipv4Cidr>)
        requires
            old(self).wf(),
        ensures
            final(self).wf(),
            final(self).end == old(self).end,
            match r {
                Some(b) => {
                    &&& old(self).start <= old(self).end
                    &&& b.wf()
                    &&& b.address == old(self).start
                    &&& (32 - b.prefix_len) as nat == greedy_exp(
                        old(self).start as int,
                        old(self).end + 1,
                    )
                    &&& final(self).start == old(self).start + b.spec_size()
                },
                None => {
                    &&& old(self).start > old(self).end
                    &&& final(self).start == old(self).start
                },
            },
    {
        if self.start <= self.end {
            let pos: u64 = self.start;
            let end_excl: u64 = self.end + 1;
            let ghost posi = pos as int;
            let ghost endi = end_excl as int;
            proof {
                lemma2_to64();
                assert(posi % 1int == 0);
            }
            let mut e: u8 = 0;
            let mut size: u64 = 1;
            while e < 32 && pos % (size * 2) == 0 && pos + size * 2 <= end_excl
                invariant
                    e <= 32,
                    size == pow2(e as nat),
                    1 <= size <= 0x1_0000_0000u64,
                    pos == posi,
                    end_excl == endi,
                    pos < end_excl <= 0x1_0000_0000u64,
                    fits(posi, endi, e as nat),
                decreases 32 - e,
            {
                proof {
                    lemma_pow2_unfold((e + 1) as nat);
                }
                size = size * 2;
                e = e + 1;
            }
            proof {
                lemma_greedy_exp_max(posi, endi);
                let g = greedy_exp(posi, endi);
                if (e as nat) < g {
                    lemma_fits_mono(posi, endi, (e + 1) as nat, g);
                    lemma_pow2_unfold((e + 1) as nat);
                    assert(false);
                }
                assert(e as nat == g);
            }
            let block = Ipv4Cidr { address: pos as u32, prefix_len: 32 - e };
            self.start = pos + size;
            Some(block)
        } else {
            None
        }
    }
}

/// `blocks` is exactly the greedy decomposition of the half-open interval
/// `[lo, hi)`, where every block is chosen greedily with respect to the
/// overall exclusive end `end_excl`.
pub open spec fn is_chain(blocks: Seq<Ipv4Cidr>, lo: int, hi: int, end_excl: int) -> bool
    decreases blocks.len(),
{
    if blocks.len() == 0 {
        lo == hi
    } else {
        let b = blocks[0];
        &&& b.wf()
        &&& b.address == lo
        &&& (32 - b.prefix_len) as nat == greedy_exp(lo, end_excl)
        &&& lo + b.spec_size() <= end_excl
        &&& is_chain(blocks.drop_first(), lo + b.spec_size(), hi, end_excl)
    }
}

/// Appending the greedy block at `hi` extends a chain ending at `hi`.
proof fn lemma_chain_snoc(blocks: Seq<Ipv4Cidr>, lo: int, hi: int, end_excl: int, b: Ipv4Cidr)
    requires
        is_chain(blocks, lo, hi, end_excl),
        b.wf(),
        b.address == hi,
        (32 - b.prefix_len) as nat == greedy_exp(hi, end_excl),
        hi + b.spec_size() <= end_excl,
    ensures
        is_chain(blocks.push(b), lo, hi + b.spec_size(), end_excl),
    decreases blocks.len(),
{
    if blocks.len() == 0 {
        assert(blocks.push(b)[0] == b);
        assert(blocks.push(b).drop_first() =~= Seq::<Ipv4Cidr>::empty());
        assert(is_chain(Seq::<Ipv4Cidr>::empty(), lo + b.spec_size(), hi + b.spec_size(), end_excl));
    } else {
        lemma_chain_snoc(blocks.drop_first(), lo + blocks[0].spec_size(), hi, end_excl, b);
        assert(blocks.push(b)[0] == blocks[0]);
        assert(blocks.push(b).drop_first() =~= blocks.drop_first().push(b));
    }
}

/// Address `a` lies inside block `b`.
pub open spec fn block_contains(b: Ipv4Cidr, a: int) -> bool {
    b.spec_first() <= a <= b.spec_last()
}

/// Coverage of a decomposition: the union of the blocks' address sets is
/// exactly the half-open interval `[lo, hi)` — no gaps, nothing outside.
pub proof fn lemma_chain_covers(blocks: Seq<Ipv4Cidr>, lo: int, hi: int, end_excl: int)
    requires
        is_chain(blocks, lo, hi, end_excl),
    ensures
        lo <= hi,
        forall|i: int|
            0 <= i < blocks.len() ==> {
                &&& (#[trigger] blocks[i]).wf()
                &&& lo <= blocks[i].spec_first()
                &&& blocks[i].spec_first() <= blocks[i].spec_last()
                &&& blocks[i].spec_last() < hi
            },
        forall|i: int, a: int|
            0 <= i < blocks.len() && #[trigger] block_contains(blocks[i], a) ==> lo <= a < hi,
    decreases blocks.len(),
{
    if blocks.len() != 0 {
        let b = blocks[0];
        let size = b.spec_size() as int;
        lemma_pow2_pos((32 - b.prefix_len) as nat);
        let tail = blocks.drop_first();
        lemma_chain_covers(tail, lo + size, hi, end_excl);
        assert forall|i: int| 0 <= i < blocks.len() implies {
            &&& (#[trigger] blocks[i]).wf()
            &&& lo <= blocks[i].spec_first()
            &&& blocks[i].spec_first() <= blocks[i].spec_last()
            &&& blocks[i].spec_last() < hi
        } by {
            if i > 0 {
                assert(tail[i - 1] == blocks[i]);
            }
        }
        assert forall|i: int, a: int|
            0 <= i < blocks.len() && #[trigger] block_contains(blocks[i], a) implies lo <= a
            < hi by {
            if i > 0 {
                assert(tail[i - 1] == blocks[i]);
                assert(block_contains(tail[i - 1], a));
            }
        }
    }
}

/// No gaps: every address of the interval lies in some block.
pub proof fn lemma_chain_covers_at(blocks: Seq<Ipv4Cidr>, lo: int, hi: int, end_excl: int, a: int)
    requires
        is_chain(blocks, lo, hi, end_excl),
        lo <= a < hi,
    ensures
        exists|i: int| 0 <= i < blocks.len() && block_contains(blocks[i], a),
    decreases blocks.len(),
{
    let b = blocks[0];
    let size = b.spec_size() as int;
    lemma_pow2_pos((32 - b.prefix_len) as nat);
    if a < lo + size {
        assert(block_contains(blocks[0], a));
    } else {
        let tail = blocks.drop_first();
        lemma_chain_covers_at(tail, lo + size, hi, end_excl, a);
        let j = choose|j: int| 0 <= j < tail.len() && block_contains(tail[j], a);
        assert(tail[j] == blocks[j + 1]);
        assert(block_contains(blocks[j + 1], a));
    }
}

/// The blocks of a decomposition are pairwise disjoint and emitted in
/// ascending address order.
pub proof fn lemma_chain_ordered(blocks: Seq<Ipv4Cidr>, lo: int, hi: int, end_excl: int)
    requires
        is_chain(blocks, lo, hi, end_excl),
    ensures
        forall|i: int, j: int|
            0 <= i < j < blocks.len() ==> (#[trigger] blocks[i]).spec_last() < (
            #[trigger] blocks[j]).spec_first(),
    decreases blocks.len(),
{
    if blocks.len() != 0 {
        let b = blocks[0];
        let size = b.spec_size() as int;
        lemma_pow2_pos((32 - b.prefix_len) as nat);
        let tail = blocks.drop_first();
        lemma_chain_ordered(tail, lo + size, hi, end_excl);
        lemma_chain_covers(tail, lo + size, hi, end_excl);
        assert forall|i: int, j: int| 0 <= i < j < blocks.len() implies (
        #[trigger] blocks[i]).spec_last() < (#[trigger] blocks[j]).spec_first() by {
            assert(tail[j - 1] == blocks[j]);
            if i == 0 {
                assert(lo + size <= tail[j - 1].spec_first());
            } else {
                assert(tail[i - 1] == blocks[i]);
            }
        }
    }
}

/// Determinism of the decomposition: the interval determines the block
/// sequence completely, so two decompositions of the same interval are
/// identical.
pub proof fn lemma_chain_unique(
    s1: Seq<Ipv4Cidr>,
    s2: Seq<Ipv4Cidr>,
    lo: int,
    hi: int,
    end_excl: int,
)
    requires
        is_chain(s1, lo, hi, end_excl),
        is_chain(s2, lo, hi, end_excl),
    ensures
        s1 == s2,
    decreases s1.len(),
{
    if s1.len() == 0 {
        if s2.len() != 0 {
            lemma_pow2_pos((32 - s2[0].prefix_len) as nat);
            lemma_chain_covers(s2.drop_first(), lo + s2[0].spec_size(), hi, end_excl);
            assert(false);
        }
        assert(s1 =~= s2);
    } else {
        if s2.len() == 0 {
            lemma_pow2_pos((32 - s1[0].prefix_len) as nat);
            lemma_chain_covers(s1.drop_first(), lo + s1[0].spec_size(), hi, end_excl);
            assert(false);
        }
        assert(s1[0] == s2[0]);
        lemma_chain_unique(s1.drop_first(), s2.drop_first(), lo + s1[0].spec_size(), hi, end_excl);
        assert forall|i: int| 0 <= i < s1.len() implies s1[i] == s2[i] by {
            if i > 0 {
                assert(s1.drop_first()[i - 1] == s1[i]);
                assert(s2.drop_first()[i - 1] == s2[i]);
            }
        }
        assert(s1 =~= s2);
    }
}

/// The first block starts at the interval's first address and the last
/// block ends at its last address, so recombining the blocks of a
/// decomposition reproduces the original interval exactly.
pub proof fn lemma_chain_endpoints(blocks: Seq<Ipv4Cidr>, lo: int, hi: int, end_excl: int)
    requires
        is_chain(blocks, lo, hi, end_excl),
        blocks.len() > 0,
    ensures
        blocks[0].spec_first() == lo,
        blocks[blocks.len() - 1].spec_last() == hi - 1,
    decreases blocks.len(),
{
    let b = blocks[0];
    let size = b.spec_size() as int;
    let tail = blocks.drop_first();
    if blocks.len() == 1 {
        assert(tail.len() == 0);
        assert(lo + size == hi) by {
            reveal_with_fuel(is_chain, 2);
        }
    } else {
        lemma_chain_endpoints(tail, lo + size, hi, end_excl);
        assert(tail[tail.len() - 1] == blocks[blocks.len() - 1]);
    }
}

/// Alignment and maximality: every block's base address is a multiple of
/// its size, and no larger aligned block that starts at the same address
/// would still fit inside the interval.
pub proof fn lemma_chain_blocks_maximal(blocks: Seq<Ipv4Cidr>, lo: int, hi: int, end_excl: int)
    requires
        is_chain(blocks, lo, hi, end_excl),
    ensures
        forall|i: int|
            0 <= i < blocks.len() ==> (#[trigger] blocks[i]).spec_first() % (
            blocks[i].spec_size() as int) == 0,
        forall|i: int, e: nat|
            0 <= i < blocks.len() && #[trigger] fits((#[trigger] blocks[i]).spec_first(), end_excl, e)
                ==> pow2(e) <= blocks[i].spec_size(),
    decreases blocks.len(),
{
    if blocks.len() != 0 {
        let b = blocks[0];
        let size = b.spec_size() as int;
        let eb = (32 - b.prefix_len) as nat;
        let tail = blocks.drop_first();
        lemma_chain_blocks_maximal(tail, lo + size, hi, end_excl);
        assert(fits(lo, end_excl, eb));
        lemma_fits_mono(lo, end_excl, 0, eb);
        lemma_greedy_exp_max(lo, end_excl);
        assert forall|i: int, e: nat|
            0 <= i < blocks.len() && #[trigger] fits(
                (#[trigger] blocks[i]).spec_first(),
                end_excl,
                e,
            ) implies pow2(e) <= blocks[i].spec_size() by {
            if i == 0 {
                assert(e <= greedy_exp(lo, end_excl));
                lemma_pow2_increases(e, eb);
            } else {
                assert(tail[i - 1] == blocks[i]);
            }
        }
        assert forall|i: int| 0 <= i < blocks.len() implies (#[trigger] blocks[i]).spec_first() % (
        blocks[i].spec_size() as int) == 0 by {
            if i > 0 {
                assert(tail[i - 1] == blocks[i]);
            }
        }
    }
}

/// Decomposes the interval of `count` addresses starting at `start` into
/// the minimal ordered sequence of aligned CIDR blocks covering exactly
/// that interval.  A zero count or an interval that would leave the
/// 32-bit space is a contract violation.
pub fn decompose(start: u32, count: u32) -> (blocks: Vec<Ipv4Cidr>)
    requires
        count >= 1,
        start + count - 1 <= u32::MAX,
    ensures
        is_chain(blocks@, start as int, start + count, start + count),
        blocks@.len() >= 1,
{
    let last: u32 = start + (count - 1);
    let mut it = Ipv4CidrIter { start: start as u64, end: last as u64 };
    let mut blocks: Vec<Ipv4Cidr> = Vec::new();
    while it.start <= it.end
        invariant
            it.wf(),
            it.end == last,
            last == start + count - 1,
            is_chain(blocks@, start as int, it.start as int, start + count),
        decreases it.end + 1 - it.start,
    {
        let ghost hi = it.start as int;
        let r = it.next();
        match r {
            Some(b) => {
                proof {
                    lemma_chain_snoc(blocks@, start as int, hi, start + count, b);
                    lemma_pow2_pos((32 - b.prefix_len) as nat);
                }
                blocks.push(b);
            },
            None => {},
        }
    }
    proof {
        assert(it.start == last + 1);
        if blocks@.len() == 0 {
            assert(false);
        }
    }
    blocks
}

} // verus!
