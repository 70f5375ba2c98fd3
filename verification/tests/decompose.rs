use iana_ip_db::range::decompose;
use iana_ip_db::Ipv4Cidr;
use iana_ip_db::Ipv4Range;
use iana_ip_db::Ipv6Cidr;

fn blocks_of(start: u32, count: u32) -> Vec<(u32, u8)> {
    decompose(start, count).iter().map(|b| (b.address, b.prefix_len)).collect()
}

#[test]
fn test_decompose_two_size_two_blocks() {
    // Addresses 10..=13: 10 has one trailing zero bit, so the largest
    // aligned block at 10 holds two addresses; the rest is 12..=13.
    assert_eq!(blocks_of(10, 4), vec![(10, 31), (12, 31)]);
}

#[test]
fn test_decompose_single_address() {
    assert_eq!(blocks_of(0, 1), vec![(0, 32)]);
    assert_eq!(blocks_of(7, 1), vec![(7, 32)]);
}

#[test]
fn test_decompose_aligned_block() {
    assert_eq!(blocks_of(0, 256), vec![(0, 24)]);
    assert_eq!(blocks_of(0x0A000000, 0x1000000), vec![(0x0A000000, 8)]);
}

#[test]
fn test_decompose_unaligned_run() {
    assert_eq!(
        blocks_of(1, 255),
        vec![
            (1, 32),
            (2, 31),
            (4, 30),
            (8, 29),
            (16, 28),
            (32, 27),
            (64, 26),
            (128, 25),
        ]
    );
}

#[test]
fn test_decompose_whole_space() {
    assert_eq!(blocks_of(0, u32::MAX), vec![(0, 1), (0x80000000, 2), (0xC0000000, 3),
        (0xE0000000, 4), (0xF0000000, 5), (0xF8000000, 6), (0xFC000000, 7), (0xFE000000, 8),
        (0xFF000000, 9), (0xFF800000, 10), (0xFFC00000, 11), (0xFFE00000, 12), (0xFFF00000, 13),
        (0xFFF80000, 14), (0xFFFC0000, 15), (0xFFFE0000, 16), (0xFFFF0000, 17), (0xFFFF8000, 18),
        (0xFFFFC000, 19), (0xFFFFE000, 20), (0xFFFFF000, 21), (0xFFFFF800, 22), (0xFFFFFC00, 23),
        (0xFFFFFE00, 24), (0xFFFFFF00, 25), (0xFFFFFF80, 26), (0xFFFFFFC0, 27), (0xFFFFFFE0, 28),
        (0xFFFFFFF0, 29), (0xFFFFFFF8, 30), (0xFFFFFFFC, 31), (0xFFFFFFFE, 32)]);
}

#[test]
fn test_decompose_deterministic() {
    let a = decompose(12345, 6789);
    let b = decompose(12345, 6789);
    assert_eq!(a, b);
}

#[test]
fn test_decompose_covers_exactly() {
    let start: u32 = 12345;
    let count: u32 = 6789;
    let blocks = decompose(start, count);
    let mut cursor: u64 = start as u64;
    for b in &blocks {
        assert_eq!(b.address as u64, cursor, "blocks are contiguous");
        assert!(b.prefix_len <= 32);
        let size = 1u64 << (32 - b.prefix_len);
        assert_eq!(b.address as u64 % size, 0, "blocks are aligned");
        cursor += size;
    }
    assert_eq!(cursor, start as u64 + count as u64, "no gap and no excess");
}

#[test]
fn test_cidr_iter_matches_decompose() {
    let range = Ipv4Range::with_nums(10, 4);
    let mut it = range.cidrs();
    let mut collected: Vec<Ipv4Cidr> = Vec::new();
    while let Some(b) = it.next() {
        collected.push(b);
    }
    assert_eq!(collected, decompose(10, 4));
}

#[test]
fn test_addrs_iter() {
    let range = Ipv4Range::with_nums(10, 4);
    let mut it = range.addrs();
    let mut seen: Vec<u32> = Vec::new();
    while let Some(a) = it.next() {
        seen.push(a);
    }
    assert_eq!(seen, vec![10, 11, 12, 13]);
}

#[test]
fn test_range_accessors() {
    let range = Ipv4Range::with_nums(100, 100);
    assert_eq!(range.first(), 100);
    assert_eq!(range.last(), 199);
    assert_eq!(range.total(), 100);
    let range2 = Ipv4Range::new(5, 9);
    assert_eq!(range2.total(), 5);
}

#[test]
fn test_cidr_last_addresses() {
    let v4 = Ipv4Cidr::new(0x0A000000, 8);
    assert_eq!(v4.last(), 0x0AFFFFFF);
    let host = Ipv4Cidr::new(7, 32);
    assert_eq!(host.last(), 7);

    let v6 = Ipv6Cidr::new(0x20010DB8_00000000_00000000_00000000u128, 32);
    assert_eq!(v6.last(), 0x20010DB8_FFFFFFFF_FFFFFFFF_FFFFFFFFu128);
    let all = Ipv6Cidr::new(0, 0);
    assert_eq!(all.last(), u128::MAX);
}

#[test]
fn test_decompose_last_address_of_space() {
    assert_eq!(blocks_of(u32::MAX, 1), vec![(u32::MAX, 32)]);
    assert_eq!(blocks_of(u32::MAX - 1, 2), vec![(u32::MAX - 1, 31)]);
}
