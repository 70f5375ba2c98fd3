use iana_ip_db::build_ipv4_table;
use iana_ip_db::build_ipv6_table;
use iana_ip_db::locate_v4;
use iana_ip_db::locate_v6;
use iana_ip_db::range::decompose;
use iana_ip_db::BuildError;
use iana_ip_db::Country;
use iana_ip_db::IpBlock;
use iana_ip_db::Ipv4Range;
use iana_ip_db::Ipv6Cidr;
use iana_ip_db::Record;
use iana_ip_db::Registry;
use iana_ip_db::Status;

fn v4_record(registry: Registry, country: Country, first: u32, last: u32) -> Record {
    Record {
        src_registry: registry,
        country,
        ip_block: IpBlock::Ipv4Range(Ipv4Range::new(first, last)),
        status: Status::Allocated,
        dst_registry: None,
    }
}

fn v6_record(registry: Registry, country: Country, address: u128, prefix_len: u8) -> Record {
    Record {
        src_registry: registry,
        country,
        ip_block: IpBlock::Ipv6Cidr(Ipv6Cidr::new(address, prefix_len)),
        status: Status::Assigned,
        dst_registry: None,
    }
}

#[test]
fn test_locate_two_ranges() {
    let x = Country::US;
    let y = Country::DE;
    let records = vec![
        v4_record(Registry::Arin, x, 100, 199),
        v4_record(Registry::Ripencc, y, 300, 399),
    ];
    let table = build_ipv4_table(&records).unwrap();
    assert_eq!(table, vec![(100, 199, x.index()), (300, 399, y.index())]);

    assert_eq!(locate_v4(&table, 150), Some((100, 199, x.index())));
    assert_eq!(locate_v4(&table, 250), None);
    assert_eq!(locate_v4(&table, 399), Some((300, 399, y.index())));
    assert_eq!(locate_v4(&table, 400), None);
}

#[test]
fn test_locate_boundaries() {
    let records = vec![v4_record(Registry::Apnic, Country::JP, 100, 199)];
    let table = build_ipv4_table(&records).unwrap();
    assert_eq!(locate_v4(&table, 99), None);
    assert_eq!(locate_v4(&table, 100), Some((100, 199, Country::JP.index())));
    assert_eq!(locate_v4(&table, 199), Some((100, 199, Country::JP.index())));
    assert_eq!(locate_v4(&table, 200), None);
    assert_eq!(locate_v4(&Vec::new(), 5), None);
}

#[test]
fn test_build_sorts_by_first() {
    let records = vec![
        v4_record(Registry::Arin, Country::US, 300, 399),
        v4_record(Registry::Arin, Country::CA, 100, 199),
        v4_record(Registry::Arin, Country::MX, 200, 250),
    ];
    let table = build_ipv4_table(&records).unwrap();
    assert_eq!(
        table,
        vec![
            (100, 199, Country::CA.index()),
            (200, 250, Country::MX.index()),
            (300, 399, Country::US.index()),
        ]
    );
}

#[test]
fn test_build_dedup_keeps_first_inserted() {
    let records = vec![
        v4_record(Registry::Arin, Country::US, 100, 199),
        v4_record(Registry::Ripencc, Country::DE, 100, 150),
    ];
    let table = build_ipv4_table(&records).unwrap();
    assert_eq!(table, vec![(100, 199, Country::US.index())]);
}

#[test]
fn test_build_rejects_overlap() {
    let records = vec![
        v4_record(Registry::Arin, Country::US, 100, 199),
        v4_record(Registry::Ripencc, Country::DE, 150, 250),
    ];
    assert_eq!(build_ipv4_table(&records), Err(BuildError::Overlapping));
}

#[test]
fn test_build_excludes_root_registry_and_other_family() {
    let mut delegation = v4_record(Registry::Iana, Country::ZZ, 0, 999);
    delegation.dst_registry = Some(Registry::Arin);
    let records = vec![
        delegation,
        v4_record(Registry::Arin, Country::US, 100, 199),
        v6_record(Registry::Apnic, Country::JP, 0x20010DB8 << 96, 32),
    ];
    let v4 = build_ipv4_table(&records).unwrap();
    assert_eq!(v4, vec![(100, 199, Country::US.index())]);

    let v6 = build_ipv6_table(&records).unwrap();
    let first = 0x20010DB8u128 << 96;
    let last = first + (1u128 << 96) - 1;
    assert_eq!(v6, vec![(first, last, Country::JP.index())]);

    assert_eq!(locate_v6(&v6, first + 12345), Some((first, last, Country::JP.index())));
    assert_eq!(locate_v6(&v6, last + 1), None);
}

#[test]
fn test_single_record_round_trip() {
    // Build a table from one record, decompose its range, and recombine
    // the blocks: the original interval comes back exactly.
    let first: u32 = 3_000_000;
    let count: u32 = 70_000;
    let last: u32 = first + count - 1;
    let records = vec![v4_record(Registry::Lacnic, Country::BR, first, last)];
    let table = build_ipv4_table(&records).unwrap();
    assert_eq!(table, vec![(first, last, Country::BR.index())]);

    let blocks = decompose(table[0].0, count);
    assert_eq!(blocks.first().unwrap().address, first);
    let tail = blocks.last().unwrap();
    assert_eq!(tail.last(), last);
    let covered: u64 = blocks.iter().map(|b| 1u64 << (32 - b.prefix_len)).sum();
    assert_eq!(covered, count as u64);
}

#[test]
fn test_record_accessors() {
    let rec = v4_record(Registry::Afrinic, Country::ZA, 10, 13);
    assert_eq!(rec.src_registry(), Registry::Afrinic);
    assert_eq!(rec.country(), Country::ZA);
    assert_eq!(rec.status(), Status::Allocated);
    assert_eq!(rec.dst_registry(), None);
    assert!(rec.is_ipv4());
    assert!(!rec.is_ipv6());
    assert_eq!(rec.type_(), "ipv4");
    assert_eq!(rec.ip_version(), "ipv4");

    let rec6 = v6_record(Registry::Apnic, Country::JP, 0x20010218u128 << 96, 32);
    assert!(rec6.is_ipv6());
    assert_eq!(rec6.type_(), "ipv6");
}

#[test]
fn test_should_refresh() {
    assert!(iana_ip_db::sync::should_refresh(&vec![1, 2, 3], &Vec::new()));
    assert!(iana_ip_db::sync::should_refresh(&vec![1, 2, 3], &vec![1, 2, 4]));
    assert!(iana_ip_db::sync::should_refresh(&vec![1, 2], &vec![1, 2, 3]));
    assert!(iana_ip_db::sync::should_refresh(&Vec::new(), &vec![1]));
    assert!(!iana_ip_db::sync::should_refresh(&vec![1, 2, 3], &vec![1, 2, 3]));
}

#[test]
fn test_build_rejects_touching_ranges() {
    // Closed intervals that share one address overlap.
    let records = vec![
        v4_record(Registry::Arin, Country::US, 100, 200),
        v4_record(Registry::Ripencc, Country::DE, 200, 300),
    ];
    assert_eq!(build_ipv4_table(&records), Err(BuildError::Overlapping));
}

#[test]
fn test_locate_adjacent_ranges_without_gap() {
    let records = vec![
        v4_record(Registry::Arin, Country::US, 100, 199),
        v4_record(Registry::Ripencc, Country::DE, 200, 300),
    ];
    let table = build_ipv4_table(&records).unwrap();
    assert_eq!(locate_v4(&table, 199), Some((100, 199, Country::US.index())));
    assert_eq!(locate_v4(&table, 200), Some((200, 300, Country::DE.index())));
}

#[test]
fn test_locate_full_v6_space() {
    let records = vec![v6_record(Registry::Ripencc, Country::EU, 0, 0)];
    let table = build_ipv6_table(&records).unwrap();
    assert_eq!(table, vec![(0, u128::MAX, Country::EU.index())]);
    assert_eq!(locate_v6(&table, 0), Some((0, u128::MAX, Country::EU.index())));
    assert_eq!(locate_v6(&table, u128::MAX), Some((0, u128::MAX, Country::EU.index())));
}
