use iana_ip_db::Country;
use iana_ip_db::InvalidCountryCode;

#[test]
fn test_country_consts() {
    assert_eq!("CN".parse::<Country>(), Ok(Country::CN));
    assert_eq!("HK".parse::<Country>(), Ok(Country::HK));
    assert_eq!("TW".parse::<Country>(), Ok(Country::TW));
    assert_eq!("JP".parse::<Country>(), Ok(Country::JP));
    assert_eq!("KP".parse::<Country>(), Ok(Country::KP));
    assert_eq!("KR".parse::<Country>(), Ok(Country::KR));
    assert_eq!("RU".parse::<Country>(), Ok(Country::RU));

    assert_eq!("SG".parse::<Country>(), Ok(Country::SG));
    assert_eq!("VN".parse::<Country>(), Ok(Country::VN));

    assert_eq!("US".parse::<Country>(), Ok(Country::US));
    assert_eq!("GB".parse::<Country>(), Ok(Country::GB));
    assert_eq!("FR".parse::<Country>(), Ok(Country::FR));
    assert_eq!("DE".parse::<Country>(), Ok(Country::DE));
}

#[test]
fn test_country_index_round_trip() {
    assert_eq!(Country::CN.index(), 47);
    assert_eq!(Country::US.index(), 232);
    assert_eq!(Country::EU.index(), 249);
    assert_eq!(Country::AP.index(), 250);
    assert_eq!(Country::ZZ.index(), 251);
    for idx in 0..252u8 {
        let c = Country::from_index(idx);
        assert_eq!(c.index(), idx);
        assert_eq!(c.code().parse::<Country>(), Ok(c));
    }
}

#[test]
fn test_country_table_entries() {
    assert_eq!(iana_ip_db::country::COUNTRY_CODES_LEN, 252);
    let first = Country::from_index(0);
    assert_eq!(first.code(), "AD");
    assert_eq!(first.full_name(), "Andorra");
    assert_eq!(Country::DE.full_name(), "Germany");
    assert_eq!(Country::ZZ.full_name(), "ZZ");
}

#[test]
fn test_country_unknown_code() {
    assert_eq!("XX".parse::<Country>(), Err(InvalidCountryCode));
    assert_eq!("".parse::<Country>(), Err(InvalidCountryCode));
    assert_eq!("cn".parse::<Country>(), Err(InvalidCountryCode));
    assert_eq!("CHN".parse::<Country>(), Err(InvalidCountryCode));
}
