use wallet_funding::account::{AccountId, AssetId};
use wallet_funding::error::FundError;
use wallet_funding::modes::{
    continual_funding, initial_distribution, reclaim_funds, select_mode, Config, Mode,
    FUNDING_THRESHOLD, PAUSE_UNITS,
};
use wallet_funding::reclaim::ReclaimFraction;
use wallet_funding::transfer::{send_funds, TransferIntent};

const PHRASE: &str =
    "oblige salon price punch saddle immune slogan rare snap desert retire surprise";

fn asset() -> AssetId {
    AssetId { bytes: [0xaa; 32] }
}

fn treasury() -> AccountId {
    AccountId { bytes: [0x01; 32] }
}

fn child() -> AccountId {
    AccountId { bytes: [0x02; 32] }
}

fn config(wallets: usize) -> Config {
    Config::new(PHRASE.to_string(), asset(), wallets).unwrap()
}

#[test]
fn one_switch_selects_its_mode() {
    assert_eq!(select_mode(true, false, false), Ok(Some(Mode::InitialDistribution)));
    assert_eq!(select_mode(false, true, false), Ok(Some(Mode::ContinualFunding)));
    assert_eq!(select_mode(false, false, true), Ok(Some(Mode::Reclaim)));
}

#[test]
fn no_switch_selects_nothing() {
    assert_eq!(select_mode(false, false, false), Ok(None));
}

#[test]
fn two_switches_are_a_configuration_error() {
    assert_eq!(select_mode(true, true, false), Err(FundError::ConfigurationError));
    assert_eq!(select_mode(true, false, true), Err(FundError::ConfigurationError));
    assert_eq!(select_mode(false, true, true), Err(FundError::ConfigurationError));
    assert_eq!(select_mode(true, true, true), Err(FundError::ConfigurationError));
}

#[test]
fn config_has_the_standard_values() {
    let config = config(3);
    assert_eq!(config.phrase, PHRASE);
    assert_eq!(config.asset, asset());
    assert_eq!(config.wallets, 3);
    assert_eq!(config.threshold, 5_000_000);
    assert_eq!(config.threshold, FUNDING_THRESHOLD);
    assert_eq!(config.fraction, ReclaimFraction::standard());
    assert_eq!(config.pause, 20);
    assert_eq!(config.pause, PAUSE_UNITS);
}

#[test]
fn config_without_wallets_is_a_configuration_error() {
    assert_eq!(
        Config::new(PHRASE.to_string(), asset(), 0),
        Err(FundError::ConfigurationError)
    );
}

#[test]
fn initial_distribution_sends_the_threshold_to_the_child() {
    let intent = initial_distribution(&config(1), treasury(), child());
    assert_eq!(
        intent,
        TransferIntent { from: treasury(), to: child(), amount: 5_000_000, asset: asset() }
    );
}

#[test]
fn continual_funding_tops_up_below_the_threshold() {
    let expected =
        TransferIntent { from: treasury(), to: child(), amount: 5_000_000, asset: asset() };
    assert_eq!(continual_funding(&config(1), treasury(), child(), 0), Some(expected));
    assert_eq!(continual_funding(&config(1), treasury(), child(), 4_999_999), Some(expected));
}

#[test]
fn continual_funding_leaves_the_threshold_alone() {
    assert_eq!(continual_funding(&config(1), treasury(), child(), 5_000_000), None);
    assert_eq!(continual_funding(&config(1), treasury(), child(), 5_000_001), None);
    assert_eq!(continual_funding(&config(1), treasury(), child(), u64::MAX), None);
}

#[test]
fn reclaim_funds_sweeps_the_rounded_share() {
    assert_eq!(
        reclaim_funds(&config(1), treasury(), child(), 1_000_000),
        Some(TransferIntent { from: child(), to: treasury(), amount: 999_000, asset: asset() })
    );
}

#[test]
fn reclaim_funds_skips_an_empty_child() {
    assert_eq!(reclaim_funds(&config(1), treasury(), child(), 0), None);
}

#[test]
fn reclaim_funds_skips_dust() {
    let mut config = config(1);
    config.fraction = ReclaimFraction::per_mille(1).unwrap();
    assert_eq!(reclaim_funds(&config, treasury(), child(), 499), None);
    assert_eq!(
        reclaim_funds(&config, treasury(), child(), 500),
        Some(TransferIntent { from: child(), to: treasury(), amount: 1, asset: asset() })
    );
}

#[test]
fn send_funds_refuses_what_the_source_cannot_pay() {
    let intent =
        TransferIntent { from: treasury(), to: child(), amount: 5_000_000, asset: asset() };
    assert_eq!(
        send_funds(intent, 4_999_999),
        Err(FundError::InsufficientFunds { requested: 5_000_000, available: 4_999_999 })
    );
    assert_eq!(
        send_funds(intent, 0),
        Err(FundError::InsufficientFunds { requested: 5_000_000, available: 0 })
    );
}

#[test]
fn send_funds_passes_what_the_source_can_pay() {
    let intent =
        TransferIntent { from: treasury(), to: child(), amount: 5_000_000, asset: asset() };
    assert_eq!(send_funds(intent, 5_000_000), Ok(intent));
    assert_eq!(send_funds(intent, u64::MAX), Ok(intent));
    let nothing = TransferIntent { from: treasury(), to: child(), amount: 0, asset: asset() };
    assert_eq!(send_funds(nothing, 0), Ok(nothing));
}
