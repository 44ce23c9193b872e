//! A transaction signer bound to one vault account on one chain: its
//! configuration, its address book, and its polling budget. The network
//! half — fetching the vault address and driving the polling loop — is the
//! caller's; the decisions it needs live here and in `tracker`.

use vstd::prelude::*;

use crate::errors::FireblocksError;
use crate::jwt::{jwt_error_message, rsa_key_from_pem, rsa_pem_ok, JwtSigner};

verus! {

/// Configuration for a [`FireblocksSigner`]: parsed RSA key material, the
/// API key, the chain to operate on and the vault account to sign from.
pub struct Config {
    /// The parsed RSA signing key.
    pub key: jsonwebtoken::EncodingKey,
    /// The API key identifying the caller.
    pub api_key: String,
    /// The chain id of the network to connect to.
    pub chain_id: u64,
    /// The vault account id to sign from.
    pub account_id: String,
}

impl Config {
    /// Builds a configuration from RSA PEM key material already read from
    /// storage. Succeeds exactly when the signing library accepts the key
    /// material.
    pub fn new(rsa_pem: &[u8], api_key: &str, account_id: &str, chain_id: u64) -> (r: Result<
        Config,
        FireblocksError,
    >)
        ensures
            r is Ok <==> rsa_pem_ok(rsa_pem@),
            r matches Ok(c) ==> c.api_key@ == api_key@ && c.account_id@ == account_id@
                && c.chain_id == chain_id,
            r matches Err(e) ==> e is SignJWTError,
    {
        match rsa_key_from_pem(rsa_pem) {
            Ok(key) => Ok(Config {
                key,
                api_key: api_key.to_owned(),
                chain_id,
                account_id: account_id.to_owned(),
            }),
            Err(e) => Err(FireblocksError::SignJWTError(jwt_error_message(&e))),
        }
    }
}

/// The asset id this signer uses on each supported chain; chains outside
/// the set are unsupported.
pub open spec fn spec_asset_id_for_chain(chain_id: u64) -> Option<Seq<char>> {
    if chain_id == 1 {
        Some("ETH"@)
    } else if chain_id == 3 {
        Some("ETH_TEST3"@)
    } else if chain_id == 5 {
        Some("ETH_TEST5"@)
    } else if chain_id == 42 {
        Some("ETH_TEST2"@)
    } else {
        None
    }
}

/// Maps a chain id to the asset id this signer uses there, or nothing for
/// an unsupported chain.
pub fn asset_id_for_chain(chain_id: u64) -> (r: Option<String>)
    ensures
        match r {
            Some(a) => spec_asset_id_for_chain(chain_id) == Some(a@),
            None => spec_asset_id_for_chain(chain_id) is None,
        },
{
    if chain_id == 1 {
        Some(String::from_str("ETH"))
    } else if chain_id == 3 {
        Some(String::from_str("ETH_TEST3"))
    } else if chain_id == 5 {
        Some(String::from_str("ETH_TEST5"))
    } else if chain_id == 42 {
        Some(String::from_str("ETH_TEST2"))
    } else {
        None
    }
}

/// The account id registered for `addr`, with the latest registration
/// winning.
pub open spec fn spec_lookup_account(
    entries: Seq<(String, String)>,
    addr: Seq<char>,
) -> Option<Seq<char>>
    decreases entries.len(),
{
    if entries.len() == 0 {
        None
    } else if entries.last().0@ == addr {
        Some(entries.last().1@)
    } else {
        spec_lookup_account(entries.drop_last(), addr)
    }
}

/// A signer bound to one vault account on one chain, with an address book
/// of further accounts and the polling budget for its transactions.
#[derive(Clone)]
pub struct FireblocksSigner {
    /// Signs each outbound request.
    pub fireblocks: JwtSigner,
    /// Registered address-to-account pairs, latest registration last.
    pub account_ids: Vec<(String, String)>,
    /// The chain this signer operates on.
    pub chain_id: u64,
    /// The asset id matching the chain.
    pub asset_id: String,
    /// The deposit address of the signing vault account.
    pub address: String,
    /// The vault account id to sign from.
    pub account_id: String,
    /// How long a transaction may stay unapproved, in milliseconds.
    pub timeout: u128,
}

impl FireblocksSigner {
    /// Assembles a signer from its configuration and the vault account's
    /// deposit address, which the caller fetches over the transport. Only
    /// supported chains are accepted.
    pub fn new(cfg: Config, vault_address: String) -> (s: FireblocksSigner)
        requires
            spec_asset_id_for_chain(cfg.chain_id) is Some,
        ensures
            s.fireblocks.api_key@ == cfg.api_key@,
            s.account_ids@.len() == 0,
            s.chain_id == cfg.chain_id,
            Some(s.asset_id@) == spec_asset_id_for_chain(cfg.chain_id),
            s.address == vault_address,
            s.account_id == cfg.account_id,
            s.timeout == 60000u128,
    {
        let asset_id = match asset_id_for_chain(cfg.chain_id) {
            Some(a) => a,
            None => unreached(),
        };
        let fireblocks = JwtSigner::new(cfg.key, cfg.api_key.as_str());
        FireblocksSigner {
            fireblocks,
            account_ids: Vec::new(),
            chain_id: cfg.chain_id,
            asset_id,
            address: vault_address,
            account_id: cfg.account_id,
            timeout: 60000,
        }
    }

    /// Sets the approval timeout, in milliseconds: a transaction the user
    /// has not approved within this budget is reported as timed out.
    pub fn timeout(&mut self, timeout_ms: u128)
        ensures
            final(self).timeout == timeout_ms,
            final(self).fireblocks == old(self).fireblocks,
            final(self).account_ids == old(self).account_ids,
            final(self).chain_id == old(self).chain_id,
            final(self).asset_id == old(self).asset_id,
            final(self).address == old(self).address,
            final(self).account_id == old(self).account_id,
    {
        self.timeout = timeout_ms;
    }

    /// Registers an account id for an address; a later registration for
    /// the same address wins.
    pub fn add_account(&mut self, account_id: String, address: String)
        ensures
            final(self).account_ids@ == old(self).account_ids@.push((address, account_id)),
            final(self).fireblocks == old(self).fireblocks,
            final(self).chain_id == old(self).chain_id,
            final(self).asset_id == old(self).asset_id,
            final(self).address == old(self).address,
            final(self).account_id == old(self).account_id,
            final(self).timeout == old(self).timeout,
    {
        self.account_ids.push((address, account_id));
    }

    /// Looks up the account id registered for an address.
    pub fn account_for(&self, address: &String) -> (r: Option<&String>)
        ensures
            match r {
                Some(a) => spec_lookup_account(self.account_ids@, address@) == Some(a@),
                None => spec_lookup_account(self.account_ids@, address@) is None,
            },
    {
        let n = self.account_ids.len();
        let mut i: usize = n;
        proof {
            assert(self.account_ids@.take(n as int) =~= self.account_ids@);
        }
        while i > 0
            invariant
                0 <= i <= n,
                n == self.account_ids@.len(),
                spec_lookup_account(self.account_ids@.take(i as int), address@)
                    == spec_lookup_account(self.account_ids@, address@),
            decreases i,
        {
            let entry = &self.account_ids[i - 1];
            proof {
                assert(self.account_ids@.take(i as int).last() == self.account_ids@[i - 1]);
                assert(self.account_ids@.take(i as int).drop_last() =~= self.account_ids@.take(
                    i - 1,
                ));
            }
            if entry.0.eq(address) {
                return Some(&entry.1);
            }
            i = i - 1;
        }
        None
    }
}

} // verus!
