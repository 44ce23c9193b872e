//! The compute side of the provider: user-agent assembly, vault account
//! selection and deposit-address bookkeeping. The network half — the RPC
//! transport and the HTTP calls that feed these functions — lives with the
//! caller.

use vstd::prelude::*;

use crate::encoding;
use crate::errors::FireblocksError;
use crate::tracker::{classify_status, spec_class_of, StatusClass};
use crate::types::{
    DepositAddressResponse, FireblocksProviderConfig, PagedVaultAccountsResponse,
    TransactionStatus, VaultAccountResponse,
};

verus! {

/// The user agent of this crate: its name and version, then an optional
/// caller-chosen fragment.
pub open spec fn spec_user_agent(version: Seq<char>, custom: Option<Seq<char>>) -> Seq<char> {
    match custom {
        Some(c) => "alloy-fireblocks/"@ + version + " "@ + c,
        None => "alloy-fireblocks/"@ + version,
    }
}

/// Assembles the user agent from the crate version and the configured
/// custom fragment.
pub fn get_user_agent(version: &str, custom: Option<&String>) -> (r: String)
    ensures
        r@ == spec_user_agent(version@, match custom {
            Some(c) => Some(c@),
            None => None,
        }),
{
    let base = String::from_str("alloy-fireblocks/").concat(version);
    match custom {
        Some(c) => base.concat(" ").concat(c.as_str()),
        None => base,
    }
}

/// Whether an account lists an asset with the given id.
pub open spec fn spec_has_asset(account: VaultAccountResponse, asset_id: Seq<char>) -> bool {
    exists|i: int| 0 <= i < account.assets.len() && account.assets[i].id@ == asset_id
}

fn has_asset(account: &VaultAccountResponse, asset_id: &String) -> (r: bool)
    ensures
        r == spec_has_asset(*account, asset_id@),
{
    let n = account.assets.len();
    let mut i: usize = 0;
    while i < n
        invariant
            n == account.assets.len(),
            0 <= i <= n,
            forall|j: int| 0 <= j < i ==> account.assets[j].id@ != asset_id@,
        decreases n - i,
    {
        if account.assets[i].id.eq(asset_id) {
            return true;
        }
        i = i + 1;
    }
    false
}

/// The vault accounts of `accounts` that hold the asset, keeping order.
pub open spec fn spec_accounts_with_asset(
    accounts: Seq<VaultAccountResponse>,
    asset_id: Seq<char>,
) -> Seq<VaultAccountResponse> {
    accounts.filter(|a: VaultAccountResponse| spec_has_asset(a, asset_id))
}

/// Selects the vault accounts holding the configured asset and reads their
/// ids as numbers. Succeeds exactly when every selected account has a
/// well-formed decimal id; the ids come back in listing order.
pub fn vault_accounts_with_asset(
    response: &PagedVaultAccountsResponse,
    asset_id: &String,
) -> (r: Result<Vec<u64>, FireblocksError>)
    ensures
        match r {
            Ok(ids) => {
                let picked = spec_accounts_with_asset(response.accounts@, asset_id@);
                ids@.len() == picked.len() && forall|i: int|
                    0 <= i < picked.len() ==> encoding::parse_u64_spec(picked[i].id@) == Some(
                        ids@[i],
                    )
            },
            Err(e) => e is ParseError && exists|i: int|
                0 <= i < response.accounts@.len() && spec_has_asset(
                    response.accounts@[i],
                    asset_id@,
                ) && encoding::parse_u64_spec(response.accounts@[i].id@) is None,
        },
{
    let n = response.accounts.len();
    let mut ids: Vec<u64> = Vec::new();
    let mut i: usize = 0;
    proof {
        reveal_with_fuel(Seq::<VaultAccountResponse>::filter, 1);
        assert(response.accounts@.take(0).filter(
            |a: VaultAccountResponse| spec_has_asset(a, asset_id@),
        ) =~= Seq::<VaultAccountResponse>::empty());
    }
    while i < n
        invariant
            n == response.accounts@.len(),
            0 <= i <= n,
            ({
                let picked = spec_accounts_with_asset(
                    response.accounts@.take(i as int),
                    asset_id@,
                );
                ids@.len() == picked.len() && forall|j: int|
                    0 <= j < picked.len() ==> encoding::parse_u64_spec(picked[j].id@) == Some(
                        ids@[j],
                    )
            }),
        decreases n - i,
    {
        let account = &response.accounts[i];
        proof {
            assert(response.accounts@.take(i + 1).drop_last() =~= response.accounts@.take(
                i as int,
            ));
            assert(response.accounts@.take(i + 1).last() == response.accounts@[i as int]);
            reveal_with_fuel(Seq::<VaultAccountResponse>::filter, 2);
        }
        if has_asset(account, asset_id) {
            match account.parse_id() {
                Ok(id) => {
                    ids.push(id);
                },
                Err(e) => {
                    return Err(e);
                },
            }
        }
        i = i + 1;
    }
    proof {
        assert(response.accounts@.take(n as int) =~= response.accounts@);
    }
    Ok(ids)
}

/// Picks the deposit address to cache for a vault: the first one listed,
/// when any is listed at all.
pub fn choose_account_address(addresses: &Vec<DepositAddressResponse>) -> (r: Option<String>)
    ensures
        match r {
            Some(a) => addresses@.len() > 0 && a@ == addresses@[0].address@,
            None => addresses@.len() == 0,
        },
{
    if addresses.len() > 0 {
        Some(addresses[0].address.clone())
    } else {
        None
    }
}

/// Whether a status is terminal: one from which no further transition is
/// expected, so polling ends — the success boundary or a terminal failure.
pub fn is_final_status(status: &TransactionStatus) -> (r: bool)
    ensures
        r == !(spec_class_of(*status) is InProgress),
{
    match classify_status(status) {
        StatusClass::InProgress => false,
        StatusClass::Success => true,
        StatusClass::Failure => true,
    }
}

/// Whether a status lies on the success boundary: `BROADCASTING` or
/// `COMPLETED` — `BROADCASTING` deliberately counts, because the step the
/// caller waits on has completed by then.
pub fn is_successful_status(status: &TransactionStatus) -> (r: bool)
    ensures
        r == (spec_class_of(*status) is Success),
{
    match classify_status(status) {
        StatusClass::Success => true,
        StatusClass::InProgress => false,
        StatusClass::Failure => false,
    }
}

/// The RPC endpoint a session should use: the configured override when one
/// is set, else the built-in endpoint of the configured chain.
pub fn resolve_rpc_url(config: &FireblocksProviderConfig) -> (r: String)
    ensures
        match config.rpc_url {
            Some(u) => r@ == u@,
            None => r@ == crate::types::Asset::spec_rpc_url(config.chain_id),
        },
{
    match &config.rpc_url {
        Some(u) => u.clone(),
        None => crate::types::Asset::get_by_chain_id(config.chain_id).rpc_url,
    }
}

} // verus!
