use std::str::FromStr;
use wallet_funding::account::{AccountId, AssetId};
use wallet_funding::error::FundError;

const BASE_ASSET: &str = "0xf8f8b6283d7fa5b672b530cbb84fcccb4ff8dc40f8176ef4544ddb1f1952ad07";

#[test]
fn asset_id_parses_with_prefix() {
    let id = AssetId::parse(BASE_ASSET).unwrap();
    assert_eq!(id.bytes[0], 0xf8);
    assert_eq!(id.bytes[1], 0xf8);
    assert_eq!(id.bytes[2], 0xb6);
    assert_eq!(id.bytes[31], 0x07);
}

#[test]
fn asset_id_parses_without_prefix() {
    let with = AssetId::parse(BASE_ASSET).unwrap();
    let without = AssetId::parse(&BASE_ASSET[2..]).unwrap();
    assert_eq!(with, without);
}

#[test]
fn asset_id_parses_upper_case() {
    let lower = AssetId::parse(BASE_ASSET).unwrap();
    let upper = AssetId::parse(&BASE_ASSET[2..].to_uppercase()).unwrap();
    assert_eq!(lower, upper);
}

#[test]
fn asset_id_of_zeros() {
    let text = "0".repeat(64);
    assert_eq!(AssetId::parse(&text), Ok(AssetId { bytes: [0u8; 32] }));
}

#[test]
fn asset_id_agrees_with_the_ledger_type() {
    let ours = AssetId::parse(BASE_ASSET).unwrap();
    let theirs = fuels::types::AssetId::from_str(BASE_ASSET).unwrap();
    assert_eq!(ours.bytes, *theirs);
}

#[test]
fn malformed_asset_id_is_a_configuration_error() {
    assert_eq!(AssetId::parse(""), Err(FundError::ConfigurationError));
    assert_eq!(AssetId::parse("0x"), Err(FundError::ConfigurationError));
    assert_eq!(AssetId::parse("0x1234"), Err(FundError::ConfigurationError));
    assert_eq!(AssetId::parse(&BASE_ASSET[..65]), Err(FundError::ConfigurationError));
    assert_eq!(AssetId::parse(&format!("{}0", BASE_ASSET)), Err(FundError::ConfigurationError));
    assert_eq!(AssetId::parse(&"g".repeat(64)), Err(FundError::ConfigurationError));
    assert_eq!(AssetId::parse("not an asset"), Err(FundError::ConfigurationError));
}

#[test]
fn accounts_compare_by_their_bytes() {
    let a = AccountId { bytes: [1u8; 32] };
    let b = AccountId { bytes: [1u8; 32] };
    let mut other = [1u8; 32];
    other[31] = 2;
    let c = AccountId { bytes: other };
    assert_eq!(a, b);
    assert_ne!(a, c);
}

#[test]
fn asset_id_decodes_every_byte() {
    let text = "000102030405060708090a0b0c0d0e0f101112131415161718191A1B1C1D1E1F";
    let id = AssetId::parse(text).unwrap();
    let mut expected = [0u8; 32];
    for (i, byte) in expected.iter_mut().enumerate() {
        *byte = i as u8;
    }
    assert_eq!(id.bytes, expected);
}

#[test]
fn asset_id_decodes_digits_of_both_cases() {
    let text = "0xaAbBcCdDeEfF00112233445566778899aAbBcCdDeEfF00112233445566778899";
    let id = AssetId::parse(text).unwrap();
    assert_eq!(&id.bytes[..8], &[0xaa, 0xbb, 0xcc, 0xdd, 0xee, 0xff, 0x00, 0x11]);
    assert_eq!(id.bytes[31], 0x99);
}

#[test]
fn asset_id_takes_one_prefix_in_lower_case_only() {
    let digits = "ab".repeat(32);
    assert!(AssetId::parse(&format!("0x{}", digits)).is_ok());
    assert_eq!(AssetId::parse(&format!("0X{}", digits)), Err(FundError::ConfigurationError));
    assert_eq!(AssetId::parse(&format!("0x0x{}", digits)), Err(FundError::ConfigurationError));
    assert_eq!(
        AssetId::parse(&format!("0x0x{}", &digits[..62])),
        Err(FundError::ConfigurationError)
    );
    assert_eq!(AssetId::parse(&format!("0x{}", &digits[..62])), Err(FundError::ConfigurationError));
    assert_eq!(AssetId::parse(&format!(" 0x{}", digits)), Err(FundError::ConfigurationError));
    assert_eq!(AssetId::parse(&format!("0x{} ", digits)), Err(FundError::ConfigurationError));
}

#[test]
fn asset_id_refuses_what_is_no_digit() {
    let digits = "0".repeat(63);
    assert_eq!(AssetId::parse(&format!("{}g", digits)), Err(FundError::ConfigurationError));
    assert_eq!(AssetId::parse(&format!("{}G", digits)), Err(FundError::ConfigurationError));
    assert_eq!(AssetId::parse(&format!("{}/", digits)), Err(FundError::ConfigurationError));
    assert_eq!(AssetId::parse(&format!("{}:", digits)), Err(FundError::ConfigurationError));
    assert_eq!(AssetId::parse(&format!("{}@", digits)), Err(FundError::ConfigurationError));
    assert_eq!(AssetId::parse(&format!("{}`", digits)), Err(FundError::ConfigurationError));
    assert_eq!(AssetId::parse(&format!("{}é", digits)), Err(FundError::ConfigurationError));
    assert_eq!(AssetId::parse(&format!("{}é", &digits[..62])), Err(FundError::ConfigurationError));
    assert!(AssetId::parse(&format!("{}f", digits)).is_ok());
    assert!(AssetId::parse(&format!("{}F", digits)).is_ok());
    assert!(AssetId::parse(&format!("{}9", digits)).is_ok());
}
