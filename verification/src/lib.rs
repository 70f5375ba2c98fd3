//! IP-to-country lookup core: registry records, CIDR range decomposition,
//! and binary search over sorted disjoint address-range tables.

mod arith;
mod strutil;
pub mod block;
pub mod country;
pub mod range;
pub mod record;
pub mod registry;
pub mod status;
pub mod sync;
pub mod table;

pub use block::IpBlock;
pub use block::IpNumber;
pub use block::Ipv4Cidr;
pub use block::Ipv6Cidr;
pub use country::Country;
pub use country::InvalidCountryCode;
pub use range::decompose;
pub use range::Ipv4AddrsIter;
pub use range::Ipv4CidrIter;
pub use range::Ipv4Range;
pub use record::ParseError;
pub use record::Record;
pub use registry::InvalidRegistry;
pub use registry::Registry;
pub use status::InvalidStatus;
pub use status::Status;
pub use table::build_ipv4_table;
pub use table::build_ipv6_table;
pub use table::locate_v4;
pub use table::locate_v6;
pub use table::BuildError;
