//! Identities on the ledger: accounts and assets, each a hash of 32 bytes.

use vstd::prelude::*;
use std::str::FromStr;
use crate::error::FundError;

verus! {

/// The identity of an account: the 32 bytes that its address encodes.
#[derive(Clone, Copy, Debug, PartialEq, Eq, Hash)]
pub struct AccountId {
    pub bytes: [u8; 32],
}

impl View for AccountId {
    type V = Seq<u8>;

    open spec fn view(&self) -> Seq<u8> {
        self.bytes@
    }
}

/// The account whose bytes are `bytes` (for 32 bytes, there is exactly one).
pub open spec fn account_of(bytes: Seq<u8>) -> AccountId {
    choose|a: AccountId| a@ == bytes
}

/// An account is the account of its bytes.
pub proof fn lemma_account_of_view(a: AccountId)
    ensures
        account_of(a@) == a,
{
    let b = account_of(a@);
    assert(b@ == a@);
    assert(b.bytes =~= a.bytes);
}

/// The identifier of a fungible asset: 32 bytes, fixed for a run.
#[derive(Clone, Copy, Debug, PartialEq, Eq, Hash)]
pub struct AssetId {
    pub bytes: [u8; 32],
}

impl View for AssetId {
    type V = Seq<u8>;

    open spec fn view(&self) -> Seq<u8> {
        self.bytes@
    }
}

/// The asset whose bytes are `bytes`.
pub open spec fn asset_of(bytes: Seq<u8>) -> AssetId {
    choose|a: AssetId| a@ == bytes
}

/// An asset is the asset of its bytes.
pub proof fn lemma_asset_of_view(a: AssetId)
    ensures
        asset_of(a@) == a,
{
    let b = asset_of(a@);
    assert(b@ == a@);
    assert(b.bytes =~= a.bytes);
}

/// The value of a hexadecimal digit, of either case.
pub open spec fn hex_value(c: char) -> Option<nat> {
    let code = c as nat;
    if '0' as nat <= code <= '9' as nat {
        Some((code - '0' as nat) as nat)
    } else if 'a' as nat <= code <= 'f' as nat {
        Some((code - 'a' as nat + 10) as nat)
    } else if 'A' as nat <= code <= 'F' as nat {
        Some((code - 'A' as nat + 10) as nat)
    } else {
        None
    }
}

/// Every character of the text is a hexadecimal digit.
pub open spec fn are_hex_digits(text: Seq<char>) -> bool {
    forall|i: int| 0 <= i < text.len() ==> hex_value(#[trigger] text[i]) is Some
}

/// The byte that two hexadecimal digits write, the high half first.
pub open spec fn hex_byte(high: char, low: char) -> u8 {
    (16 * hex_value(high)->Some_0 + hex_value(low)->Some_0) as u8
}

/// The text without one leading `0x`, if it has one.
pub open spec fn without_prefix(text: Seq<char>) -> Seq<char> {
    if text.len() >= 2 && text[0] == '0' && text[1] == 'x' {
        text.skip(2)
    } else {
        text
    }
}

/// The 32 bytes that `text` writes as an asset identifier: after an
/// optional `0x`, exactly 64 hexadecimal digits, two for each byte, the
/// high half first. `None` for any other text.
pub open spec fn asset_id_bytes(text: Seq<char>) -> Option<Seq<u8>> {
    let digits = without_prefix(text);
    if digits.len() == 64 && are_hex_digits(digits) {
        Some(Seq::new(32, |i: int| hex_byte(digits[2 * i], digits[2 * i + 1])))
    } else {
        None
    }
}

/// Calls `fuels::types::AssetId::from_str`. Trusted: it strips one leading
/// `0x` and decodes what is left as hexadecimal digits of either case, two
/// for each of exactly 32 bytes, and fails on any other text; that is
/// `asset_id_bytes`. `None` stands for its error.
#[verifier::external_body]
fn parse_asset_id(text: &str) -> (r: Option<AssetId>)
    ensures
        r matches Some(id) ==> asset_id_bytes(text@) == Some(id@),
        r is None ==> asset_id_bytes(text@) is None,
{
    match fuels::types::AssetId::from_str(text) {
        Ok(id) => Some(AssetId { bytes: *id }),
        Err(_) => None,
    }
}

impl AssetId {
    /// What `parse` returns for `text`.
    pub open spec fn parsed(text: Seq<char>) -> Result<AssetId, FundError> {
        match asset_id_bytes(text) {
            Some(bytes) => Ok(asset_of(bytes)),
            None => Err(FundError::ConfigurationError),
        }
    }

    /// Reads an asset identifier from its hexadecimal text. A text that is
    /// no identifier is a configuration error.
    pub fn parse(text: &str) -> (r: Result<AssetId, FundError>)
        ensures
            r == AssetId::parsed(text@),
    {
        match parse_asset_id(text) {
            Some(id) => {
                proof {
                    lemma_asset_of_view(id);
                }
                Ok(id)
            },
            None => Err(FundError::ConfigurationError),
        }
    }
}

} // verus!
