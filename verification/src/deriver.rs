//! The account deriver: from one secret phrase and an index to the account
//! of a child wallet, the same account every time.

use vstd::prelude::*;
use fuels::accounts::wallet::WalletUnlocked;
use crate::account::{account_of, lemma_account_of_view, AccountId};
use crate::error::FundError;
use crate::path::{
    child_path, derivation_path, is_child_path, lemma_first_child_path, HARDENED_LIMIT,
};

verus! {

/// The address of the wallet that the `fuels` crate derives from the
/// mnemonic `phrase` along `path`, as its 32 bytes; `None` where the
/// derivation fails.
pub uninterp spec fn wallet_address(phrase: Seq<char>, path: Seq<char>) -> Option<Seq<u8>>;

/// Calls `WalletUnlocked::new_from_mnemonic_phrase_with_path` of `fuels`,
/// with no provider, and takes the hash of the wallet's address. Trusted:
/// the address is a function of phrase and path alone, named
/// `wallet_address`; `None` stands for the crate's error. The path is
/// limited to those of child wallets, whose account level can be hardened
/// without overflow.
#[verifier::external_body]
fn wallet_at_path(phrase: &str, path: &str) -> (r: Option<AccountId>)
    requires
        is_child_path(path@),
    ensures
        r matches Some(id) ==> wallet_address(phrase@, path@) == Some(id@),
        r is None ==> wallet_address(phrase@, path@) is None,
{
    match WalletUnlocked::new_from_mnemonic_phrase_with_path(phrase, None, path) {
        Ok(wallet) => Some(AccountId { bytes: *wallet.address().hash() }),
        Err(_) => None,
    }
}

/// Calls `WalletUnlocked::new_from_mnemonic_phrase` of `fuels`, with no
/// provider, and takes the hash of the wallet's address. Trusted: the crate
/// derives this wallet along its default path, `m/44'/1179993420'/0'/0/0`,
/// so the address is `wallet_address` of the phrase and that path.
#[verifier::external_body]
fn wallet_at_default_path(phrase: &str) -> (r: Option<AccountId>)
    ensures
        r matches Some(id) ==> wallet_address(phrase@, "m/44'/1179993420'/0'/0/0"@) == Some(id@),
        r is None ==> wallet_address(phrase@, "m/44'/1179993420'/0'/0/0"@) is None,
{
    match WalletUnlocked::new_from_mnemonic_phrase(phrase, None) {
        Ok(wallet) => Some(AccountId { bytes: *wallet.address().hash() }),
        Err(_) => None,
    }
}

/// The account at `path`, or the failure of a phrase that yields none.
pub open spec fn account_at(phrase: Seq<char>, path: Seq<char>) -> Result<AccountId, FundError> {
    match wallet_address(phrase, path) {
        Some(bytes) => Ok(account_of(bytes)),
        None => Err(FundError::InvalidSecret),
    }
}

/// The account of the child wallet `index`: a function of the phrase and
/// the index, and of nothing else.
pub open spec fn derived(phrase: Seq<char>, index: nat) -> Result<AccountId, FundError> {
    if index >= HARDENED_LIMIT {
        Err(FundError::InvalidPath)
    } else {
        account_at(phrase, child_path(index))
    }
}

/// The account of the treasury wallet of the phrase.
pub open spec fn treasury_of(phrase: Seq<char>) -> Result<AccountId, FundError> {
    account_at(phrase, child_path(0))
}

/// The treasury is the wallet of the first child's path.
pub proof fn law_treasury_is_first_child(phrase: Seq<char>)
    ensures
        treasury_of(phrase) == derived(phrase, 0),
{
}

/// Derivation is deterministic: whatever two derivations from the same
/// phrase and the same index give, an account or an error, is the same.
pub proof fn law_derive_is_deterministic(
    phrase: Seq<char>,
    index: nat,
    first: Result<AccountId, FundError>,
    second: Result<AccountId, FundError>,
)
    requires
        first == derived(phrase, index),
        second == derived(phrase, index),
    ensures
        first == second,
{
}

/// Derives the account of the child wallet `index`. Every call with the
/// same phrase and index returns the same account. An index that cannot be
/// hardened is `InvalidPath`; a phrase from which no wallet can be derived
/// is `InvalidSecret`.
pub fn derive(phrase: &str, index: usize) -> (r: Result<AccountId, FundError>)
    ensures
        r == derived(phrase@, index as nat),
{
    if index as u64 >= HARDENED_LIMIT {
        return Err(FundError::InvalidPath);
    }
    let path = derivation_path(index);
    assert(is_child_path(path@)) by {
        assert(path@ == child_path(index as nat));
    }
    match wallet_at_path(phrase, path.as_str()) {
        Some(id) => {
            proof {
                lemma_account_of_view(id);
            }
            Ok(id)
        },
        None => Err(FundError::InvalidSecret),
    }
}

/// Derives the account of the treasury wallet.
pub fn treasury(phrase: &str) -> (r: Result<AccountId, FundError>)
    ensures
        r == treasury_of(phrase@),
{
    proof {
        lemma_first_child_path();
    }
    match wallet_at_default_path(phrase) {
        Some(id) => {
            proof {
                lemma_account_of_view(id);
            }
            Ok(id)
        },
        None => Err(FundError::InvalidSecret),
    }
}

} // verus!
