use wallet_funding::error::FundError;
use wallet_funding::text::decimal_string;

#[test]
fn decimal_string_writes_single_digits() {
    assert_eq!(decimal_string(0), "0");
    assert_eq!(decimal_string(7), "7");
    assert_eq!(decimal_string(9), "9");
}

#[test]
fn decimal_string_writes_longer_numbers() {
    assert_eq!(decimal_string(10), "10");
    assert_eq!(decimal_string(100), "100");
    assert_eq!(decimal_string(1234567890), "1234567890");
    assert_eq!(decimal_string(5_000_000), "5000000");
}

#[test]
fn decimal_string_writes_the_largest_number() {
    assert_eq!(decimal_string(u64::MAX), "18446744073709551615");
    assert_eq!(decimal_string(u64::MAX), u64::MAX.to_string());
}

#[test]
fn decimal_string_agrees_with_the_standard_library() {
    let mut n: u64 = 1;
    for _ in 0..19 {
        assert_eq!(decimal_string(n), n.to_string());
        assert_eq!(decimal_string(n - 1), (n - 1).to_string());
        n *= 10;
    }
}

#[test]
fn insufficient_funds_message_names_both_amounts() {
    let error = FundError::InsufficientFunds { requested: 5_000_000, available: 4_999_999 };
    assert_eq!(
        error.message(),
        "Insufficient funds: attempted to send 5000000, but balance is 4999999"
    );
}

#[test]
fn every_error_has_a_message() {
    assert_eq!(FundError::InvalidSecret.message(), "Invalid secret phrase");
    assert_eq!(FundError::InvalidPath.message(), "Invalid derivation path");
    assert_eq!(FundError::NetworkError.message(), "Network error");
    assert_eq!(FundError::UnknownAsset.message(), "Unknown asset");
    assert_eq!(FundError::TransferRejected.message(), "Transfer rejected by the ledger");
    assert_eq!(FundError::ConfigurationError.message(), "Invalid configuration");
}
