//! Address blocks: aligned CIDR blocks for both families, explicit IPv4
//! ranges, and the numeric address value shared by both.
//!
//! Addresses are plain unsigned integers: 32 bits for IPv4, 128 bits for
//! IPv6.  A CIDR block with prefix length `p` covers `2^(width - p)`
//! consecutive addresses and its base address is a multiple of that size.

use vstd::prelude::*;

use vstd::arithmetic::power2::lemma2_to64;
use vstd::arithmetic::power2::lemma_pow2_pos;
use vstd::arithmetic::power2::pow2;

use crate::arith::lemma_pow2_127;
use crate::arith::lemma_pow2_increases;
use crate::arith::pow2_u128;
use crate::arith::pow2_u64;
use crate::range::Ipv4Range;

verus! {

/// One address as a number in its family's linear space.
#[derive(Debug, Copy, Clone, Hash, PartialEq, Eq, Structural)]
pub enum IpNumber {
    V4(u32),
    V6(u128),
}

/// An aligned IPv4 CIDR block: `2^(32 - prefix_len)` addresses starting
/// at `address`, which is a multiple of that size.
#[derive(Debug, Copy, Clone, Hash, PartialEq, Eq, Structural)]
pub struct Ipv4Cidr {
    pub address: u32,
    pub prefix_len: u8,
}

/// An aligned IPv6 CIDR block: `2^(128 - prefix_len)` addresses starting
/// at `address`, which is a multiple of that size.
#[derive(Debug, Copy, Clone, Hash, PartialEq, Eq, Structural)]
pub struct Ipv6Cidr {
    pub address: u128,
    pub prefix_len: u8,
}

impl Ipv4Cidr {
    /// Number of addresses the block covers.
    pub open spec fn spec_size(self) -> nat {
        pow2((32 - self.prefix_len) as nat)
    }

    /// Prefix length in range and base address aligned to the block size.
    pub open spec fn wf(self) -> bool {
        &&& self.prefix_len <= 32
        &&& (self.address as int) % (self.spec_size() as int) == 0
    }

    /// First address of the block.
    pub open spec fn spec_first(self) -> int {
        self.address as int
    }

    /// Last address of the block (inclusive).
    pub open spec fn spec_last(self) -> int {
        self.address + self.spec_size() - 1
    }

    pub fn new(address: u32, prefix_len: u8) -> (r: Self)
        requires
            prefix_len <= 32,
            (address as int) % (pow2((32 - prefix_len) as nat) as int) == 0,
        ensures
            r.wf(),
            r.address == address,
            r.prefix_len == prefix_len,
    {
        Ipv4Cidr { address, prefix_len }
    }

    /// Last address of the block, computed in 64-bit arithmetic.
    pub fn last(&self) -> (r: u32)
        requires
            self.wf(),
        ensures
            r == self.spec_last(),
            self.spec_last() <= u32::MAX,
    {
        proof {
            lemma_pow2_pos((32 - self.prefix_len) as nat);
            lemma_aligned_block_fits_v4(self.address as int, (32 - self.prefix_len) as nat);
        }
        let size = pow2_u64(32 - self.prefix_len);
        (self.address as u64 + (size - 1)) as u32
    }
}

impl Ipv6Cidr {
    /// Number of addresses the block covers.
    pub open spec fn spec_size(self) -> nat {
        pow2((128 - self.prefix_len) as nat)
    }

    /// Prefix length in range and base address aligned to the block size.
    pub open spec fn wf(self) -> bool {
        &&& self.prefix_len <= 128
        &&& (self.address as int) % (self.spec_size() as int) == 0
    }

    /// First address of the block.
    pub open spec fn spec_first(self) -> int {
        self.address as int
    }

    /// Last address of the block (inclusive).
    pub open spec fn spec_last(self) -> int {
        self.address + self.spec_size() - 1
    }

    pub fn new(address: u128, prefix_len: u8) -> (r: Self)
        requires
            prefix_len <= 128,
            (address as int) % (pow2((128 - prefix_len) as nat) as int) == 0,
        ensures
            r.wf(),
            r.address == address,
            r.prefix_len == prefix_len,
    {
        Ipv6Cidr { address, prefix_len }
    }

    /// Last address of the block (inclusive).  A `/0` block's last address
    /// is the maximum 128-bit value.
    pub fn last(&self) -> (r: u128)
        requires
            self.wf(),
        ensures
            r == self.spec_last(),
            self.spec_last() <= u128::MAX,
    {
        if self.prefix_len == 0 {
            proof {
                crate::arith::lemma_pow2_128();
                vstd::arithmetic::div_mod::lemma_small_mod(self.address as nat, pow2(128));
            }
            u128::MAX
        } else {
            proof {
                lemma_pow2_pos((128 - self.prefix_len) as nat);
                lemma_aligned_block_fits_v6(self.address as int, (128 - self.prefix_len) as nat);
            }
            let size_minus_1 = pow2_u128(128 - self.prefix_len) - 1;
            self.address + size_minus_1
        }
    }
}

/// An aligned 32-bit block stays inside the 32-bit space: if `a` is a
/// multiple of `pow2(e)` and `a <= u32::MAX`, then `a + pow2(e) <= 2^32`.
pub proof fn lemma_aligned_block_fits_v4(a: int, e: nat)
    requires
        0 <= a <= u32::MAX,
        e <= 32,
        a % (pow2(e) as int) == 0,
    ensures
        a + pow2(e) <= 0x100000000,
{
    lemma2_to64();
    lemma_pow2_pos(e);
    lemma_pow2_increases(e, 32);
    let m = pow2(e) as int;
    vstd::arithmetic::div_mod::lemma_fundamental_div_mod(a, m);
    let q = a / m;
    assert(a == m * q);
    assert(m * q + m == m * (q + 1)) by (nonlinear_arith);
    assert(q >= 0) by (nonlinear_arith)
        requires
            m * q == a,
            a >= 0,
            m >= 1,
    ;
    assert((0x100000000int) % m == 0) by {
        crate::arith::lemma_mod_pow2_mono(0x100000000, e, 32);
    }
    assert(m * (q + 1) <= 0x100000000) by (nonlinear_arith)
        requires
            m * q <= 0x100000000 - 1,
            1 <= m <= 0x100000000,
            q >= 0,
            (0x100000000int) % m == 0,
    {
        let k = (0x100000000int) / m;
        vstd::arithmetic::div_mod::lemma_fundamental_div_mod(0x100000000, m);
        assert(0x100000000 == m * k);
        assert(q < k);
    }
}

/// Same fact in the 128-bit space.
pub proof fn lemma_aligned_block_fits_v6(a: int, e: nat)
    requires
        0 <= a <= u128::MAX,
        e <= 127,
        a % (pow2(e) as int) == 0,
    ensures
        a + pow2(e) <= 0x100000000000000000000000000000000int,
{
    lemma_pow2_127();
    crate::arith::lemma_pow2_128();
    lemma_pow2_pos(e);
    lemma_pow2_increases(e, 128);
    let m = pow2(e) as int;
    let w: int = 0x100000000000000000000000000000000int;
    vstd::arithmetic::div_mod::lemma_fundamental_div_mod(a, m);
    let q = a / m;
    assert(a == m * q);
    assert(q >= 0) by (nonlinear_arith)
        requires
            m * q == a,
            a >= 0,
            m >= 1,
    ;
    assert(w % m == 0) by {
        crate::arith::lemma_mod_pow2_mono(w, e, 128);
    }
    assert(m * (q + 1) <= w) by (nonlinear_arith)
        requires
            m * q <= w - 1,
            1 <= m <= w,
            q >= 0,
            w % m == 0,
    {
        let k = w / m;
        vstd::arithmetic::div_mod::lemma_fundamental_div_mod(w, m);
        assert(w == m * k);
        assert(q < k);
    }
    assert(m * q + m == m * (q + 1)) by (nonlinear_arith);
}

/// The address block of one registry record: an explicit IPv4 range, an
/// aligned IPv4 CIDR block, or an aligned IPv6 CIDR block.
#[derive(Debug, Copy, Clone, Hash, PartialEq, Eq, Structural)]
pub enum IpBlock {
    Ipv4Range(Ipv4Range),
    Ipv4Cidr(Ipv4Cidr),
    Ipv6Cidr(Ipv6Cidr),
}

impl IpBlock {
    /// Every variant holds a well-formed block.
    pub open spec fn wf(self) -> bool {
        match self {
            IpBlock::Ipv4Range(r) => r.wf(),
            IpBlock::Ipv4Cidr(c) => c.wf(),
            IpBlock::Ipv6Cidr(c) => c.wf(),
        }
    }

    /// First address of the block, as a number.
    pub open spec fn spec_first(self) -> int {
        match self {
            IpBlock::Ipv4Range(r) => r.start_ip as int,
            IpBlock::Ipv4Cidr(c) => c.spec_first(),
            IpBlock::Ipv6Cidr(c) => c.spec_first(),
        }
    }

    /// Last address of the block, as a number.
    pub open spec fn spec_last(self) -> int {
        match self {
            IpBlock::Ipv4Range(r) => r.end_ip as int,
            IpBlock::Ipv4Cidr(c) => c.spec_last(),
            IpBlock::Ipv6Cidr(c) => c.spec_last(),
        }
    }

    pub fn first(&self) -> (r: IpNumber)
        requires
            self.wf(),
        ensures
            r == if self.is_v4() {
                IpNumber::V4(self.spec_first() as u32)
            } else {
                IpNumber::V6(self.spec_first() as u128)
            },
    {
        match *self {
            IpBlock::Ipv4Range(v4_range) => IpNumber::V4(v4_range.start_ip),
            IpBlock::Ipv4Cidr(v4_cidr) => IpNumber::V4(v4_cidr.address),
            IpBlock::Ipv6Cidr(v6_cidr) => IpNumber::V6(v6_cidr.address),
        }
    }

    pub fn last(&self) -> (r: IpNumber)
        requires
            self.wf(),
        ensures
            r == if self.is_v4() {
                IpNumber::V4(self.spec_last() as u32)
            } else {
                IpNumber::V6(self.spec_last() as u128)
            },
            self.is_v4() ==> self.spec_last() <= u32::MAX,
            !self.is_v4() ==> self.spec_last() <= u128::MAX,
    {
        match *self {
            IpBlock::Ipv4Range(v4_range) => IpNumber::V4(v4_range.end_ip),
            IpBlock::Ipv4Cidr(v4_cidr) => IpNumber::V4(v4_cidr.last()),
            IpBlock::Ipv6Cidr(v6_cidr) => IpNumber::V6(v6_cidr.last()),
        }
    }

    /// Whether the block belongs to the IPv4 family.
    pub open spec fn is_v4(self) -> bool {
        match self {
            IpBlock::Ipv4Range(_) => true,
            IpBlock::Ipv4Cidr(_) => true,
            IpBlock::Ipv6Cidr(_) => false,
        }
    }

    pub fn is_ipv4(&self) -> (r: bool)
        ensures
            r == self.is_v4(),
    {
        match *self {
            IpBlock::Ipv4Range(_) | IpBlock::Ipv4Cidr(_) => true,
            IpBlock::Ipv6Cidr(_) => false,
        }
    }

    pub fn is_ipv6(&self) -> (r: bool)
        ensures
            r == !self.is_v4(),
    {
        match *self {
            IpBlock::Ipv4Range(_) | IpBlock::Ipv4Cidr(_) => false,
            IpBlock::Ipv6Cidr(_) => true,
        }
    }
}


/// A well-formed block is a non-empty interval inside its family's
/// address space.
pub proof fn lemma_block_bounds(b: IpBlock)
    requires
        b.wf(),
    ensures
        b.spec_first() <= b.spec_last(),
        0 <= b.spec_first(),
        b.is_v4() ==> b.spec_last() <= u32::MAX,
        !b.is_v4() ==> b.spec_last() <= u128::MAX,
{
    match b {
        IpBlock::Ipv4Range(_) => {},
        IpBlock::Ipv4Cidr(c) => {
            lemma_pow2_pos((32 - c.prefix_len) as nat);
            lemma_aligned_block_fits_v4(c.address as int, (32 - c.prefix_len) as nat);
        },
        IpBlock::Ipv6Cidr(c) => {
            lemma_pow2_pos((128 - c.prefix_len) as nat);
            if c.prefix_len == 0 {
                crate::arith::lemma_pow2_128();
                vstd::arithmetic::div_mod::lemma_small_mod(c.address as nat, pow2(128));
            } else {
                lemma_aligned_block_fits_v6(c.address as int, (128 - c.prefix_len) as nat);
            }
        },
    }
}

} // verus!
