use iana_ip_db::InvalidRegistry;
use iana_ip_db::InvalidStatus;
use iana_ip_db::Registry;
use iana_ip_db::Status;

#[test]
fn test_status_index_round_trip() {
    assert_eq!(Status::from_index(0), Ok(Status::Allocated));
    assert_eq!(Status::from_index(1), Ok(Status::Assigned));
    assert_eq!(Status::from_index(2), Ok(Status::Available));
    assert_eq!(Status::from_index(3), Ok(Status::Reserved));
    assert_eq!(Status::from_index(4), Err(()));
    assert_eq!(Status::from_index(255), Err(()));

    assert_eq!(Status::Allocated.index(), 0);
    assert_eq!(Status::Assigned.index(), 1);
    assert_eq!(Status::Available.index(), 2);
    assert_eq!(Status::Reserved.index(), 3);
}

#[test]
fn test_status_text() {
    assert_eq!(Status::from_str("allocated"), Ok(Status::Allocated));
    assert_eq!(Status::from_str("assigned"), Ok(Status::Assigned));
    assert_eq!(Status::from_str("available"), Ok(Status::Available));
    assert_eq!(Status::from_str("reserved"), Ok(Status::Reserved));
    assert_eq!(Status::from_str("granted"), Err(InvalidStatus));
    assert_eq!(Status::from_str(""), Err(InvalidStatus));

    assert_eq!(Status::Allocated.as_str(), "allocated");
    assert_eq!(Status::Reserved.as_str(), "reserved");
}

#[test]
fn test_registry_text() {
    assert_eq!(Registry::from_str("afrinic"), Ok(Registry::Afrinic));
    assert_eq!(Registry::from_str("apnic"), Ok(Registry::Apnic));
    assert_eq!(Registry::from_str("arin"), Ok(Registry::Arin));
    assert_eq!(Registry::from_str("iana"), Ok(Registry::Iana));
    assert_eq!(Registry::from_str("lacnic"), Ok(Registry::Lacnic));
    assert_eq!(Registry::from_str("ripencc"), Ok(Registry::Ripencc));
    assert_eq!(Registry::from_str("ripe"), Err(InvalidRegistry));

    assert_eq!(Registry::Iana.as_str(), "iana");
    assert_eq!(Registry::Ripencc.as_str(), "ripencc");
}
