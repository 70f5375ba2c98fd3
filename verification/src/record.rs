//! One delegation record of a registry data file.

use vstd::prelude::*;

use crate::block::IpBlock;
use crate::block::IpNumber;
use crate::country::Country;
use crate::registry::Registry;
use crate::status::Status;

verus! {

/// Error raised while parsing one registry record line.
#[derive(Debug, Copy, Clone, Hash, PartialEq, Eq, Structural)]
pub enum ParseError {
    InvalidStatus,
    InvalidCountryCode,
    InvalidRegistry,
    Unrecognized,
    Dropped,
    Truncated,
}

/// One record: which registry published it, the country it names, the
/// address block it covers, its allocation status, and — for records of
/// the root registry only — the regional registry it delegates to.
#[derive(Debug, Copy, Clone)]
pub struct Record {
    pub src_registry: Registry,
    pub country: Country,
    pub ip_block: IpBlock,
    pub status: Status,
    pub dst_registry: Option<Registry>,
}

impl Record {
    /// The record's address block is well formed.
    pub open spec fn wf(self) -> bool {
        self.ip_block.wf()
    }

    /// First address of the record's block.
    pub open spec fn spec_first(self) -> int {
        self.ip_block.spec_first()
    }

    /// Last address of the record's block.
    pub open spec fn spec_last(self) -> int {
        self.ip_block.spec_last()
    }

    /// Whether the record belongs to the IPv4 family.
    pub open spec fn is_v4(self) -> bool {
        self.ip_block.is_v4()
    }

    pub fn src_registry(&self) -> (r: Registry)
        ensures
            r == self.src_registry,
    {
        self.src_registry
    }

    pub fn country(&self) -> (r: Country)
        ensures
            r == self.country,
    {
        self.country
    }

    /// The family of the record, as the registry files spell it.
    pub fn type_(&self) -> (r: String)
        ensures
            r@ == if self.is_v4() {
                "ipv4"@
            } else {
                "ipv6"@
            },
    {
        if self.is_ipv4() {
            "ipv4".to_owned()
        } else {
            "ipv6".to_owned()
        }
    }

    /// Same as `type_`.
    pub fn ip_version(&self) -> (r: String)
        ensures
            r@ == if self.is_v4() {
                "ipv4"@
            } else {
                "ipv6"@
            },
    {
        self.type_()
    }

    pub fn ip_block(&self) -> (r: IpBlock)
        ensures
            r == self.ip_block,
    {
        self.ip_block
    }

    pub fn status(&self) -> (r: Status)
        ensures
            r == self.status,
    {
        self.status
    }

    pub fn dst_registry(&self) -> (r: Option<Registry>)
        ensures
            r == self.dst_registry,
    {
        self.dst_registry
    }

    pub fn is_ipv4(&self) -> (r: bool)
        ensures
            r == self.is_v4(),
    {
        self.ip_block.is_ipv4()
    }

    pub fn is_ipv6(&self) -> (r: bool)
        ensures
            r == !self.is_v4(),
    {
        self.ip_block.is_ipv6()
    }

    /// First address of the record's block, as a number.
    pub fn first(&self) -> (r: IpNumber)
        requires
            self.wf(),
        ensures
            r == if self.is_v4() {
                IpNumber::V4(self.spec_first() as u32)
            } else {
                IpNumber::V6(self.spec_first() as u128)
            },
    {
        self.ip_block.first()
    }

    /// Last address of the record's block, as a number.
    pub fn last(&self) -> (r: IpNumber)
        requires
            self.wf(),
        ensures
            r == if self.is_v4() {
                IpNumber::V4(self.spec_last() as u32)
            } else {
                IpNumber::V6(self.spec_last() as u128)
            },
    {
        self.ip_block.last()
    }
}

} // verus!
