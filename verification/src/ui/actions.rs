use vstd::prelude::*;
use crate::common::NetworkEnvironment;

verus! {

/// The name of the application's secret store.
pub fn store_name() -> (r: &'static str)
    ensures
        r@ == "gun-connect"@,
{
    "gun-connect"
}

/// The store account that holds the key of a network.
pub open spec fn network_account(net: NetworkEnvironment) -> Seq<char> {
    match net {
        NetworkEnvironment::Production => "mainnet_account"@,
        NetworkEnvironment::Test => "testnet_account"@,
    }
}

/// The store account of the key of `net`.
pub fn store_account_for_network(net: NetworkEnvironment) -> (r: &'static str)
    ensures
        r@ == network_account(net),
{
    match net {
        NetworkEnvironment::Production => "mainnet_account",
        NetworkEnvironment::Test => "testnet_account",
    }
}

/// The account of the store written before keys were kept per network.
pub fn legacy_store_account() -> (r: &'static str)
    ensures
        r@ == "default_account"@,
{
    "default_account"
}

/// A keypair imported from a secret: the derived public key with the secret,
/// when the secret yields one.
pub fn import_keypair(raw_input: String, derived_public_key: Option<String>) -> (r: Option<(String, String)>)
    ensures
        r == (match derived_public_key {
            Some(pk) => Some((pk, raw_input)),
            None => None,
        }),
{
    match derived_public_key {
        Some(pk) => Some((pk, raw_input)),
        None => None,
    }
}

} // verus!
