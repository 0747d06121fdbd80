//! The submission target: which network and contract the sink addresses,
//! and the switch that turns real providers on.

use vstd::prelude::*;
use vstd::string::StringExecFns;

verus! {

/// A network listed in the startup configuration, under its key.
#[derive(Clone, Debug, PartialEq)]
pub struct NetworkEntry {
    pub key: String,
    pub environmental_oracle: String,
    pub chain_id: u64,
    pub name: String,
}

/// The resolved sink destination: contract address and network name.
#[derive(Clone, Debug, PartialEq)]
pub struct NetworkTarget {
    pub contract_address: String,
    pub network_name: String,
}

/// Why the configuration gave no target.
#[derive(Clone, Copy, Debug, PartialEq, Eq, Structural)]
pub enum ConfigError {
    /// The current network names no listed entry.
    NetworkNotFound,
}

/// Chain id of the built-in local network.
pub const DEFAULT_CHAIN_ID: u64 = 31337;

/// `t` addresses entry `e`.
pub open spec fn targets(t: NetworkTarget, e: NetworkEntry) -> bool {
    t.contract_address@ == e.environmental_oracle@ && t.network_name@ == e.name@
}

/// Index of the first entry keyed `key`, if any.
pub open spec fn first_keyed(entries: Seq<NetworkEntry>, key: Seq<char>, i: int) -> bool {
    &&& 0 <= i < entries.len()
    &&& entries[i].key@ == key
    &&& forall|j: int| 0 <= j < i ==> (#[trigger] entries[j]).key@ != key
}

/// The key of the built-in network.
pub fn default_network_key() -> (r: String)
    ensures
        r@ == "hardhat"@,
{
    String::from_str("hardhat")
}

/// The configuration used when none is supplied: the local network alone.
pub fn default_networks() -> (r: Vec<NetworkEntry>)
    ensures
        r@.len() == 1,
        r@[0].key@ == "hardhat"@,
        r@[0].environmental_oracle@ == "0x5FbDB2315678afecb367f032d93F642f64180aa3"@,
        r@[0].chain_id == DEFAULT_CHAIN_ID,
        r@[0].name@ == "Hardhat Local"@,
{
    let mut r: Vec<NetworkEntry> = Vec::new();
    r.push(NetworkEntry {
        key: default_network_key(),
        environmental_oracle: String::from_str("0x5FbDB2315678afecb367f032d93F642f64180aa3"),
        chain_id: DEFAULT_CHAIN_ID,
        name: String::from_str("Hardhat Local"),
    });
    r
}

/// The target of the entry keyed `current`, or `NetworkNotFound` when no
/// entry has that key.
pub fn resolve_network(entries: &Vec<NetworkEntry>, current: &String) -> (r: Result<NetworkTarget, ConfigError>)
    ensures
        r is Err <==> forall|j: int| 0 <= j < entries@.len() ==> (#[trigger] entries@[j]).key@ != current@,
        r is Err ==> r == Err::<NetworkTarget, ConfigError>(ConfigError::NetworkNotFound),
        r is Ok ==> exists|i: int| first_keyed(entries@, current@, i) && targets(r->Ok_0, entries@[i]),
{
    let mut i: usize = 0;
    while i < entries.len()
        invariant
            i <= entries@.len(),
            forall|j: int| 0 <= j < i ==> (#[trigger] entries@[j]).key@ != current@,
        decreases entries@.len() - i,
    {
        let e = &entries[i];
        if e.key == *current {
            let t = NetworkTarget {
                contract_address: e.environmental_oracle.clone(),
                network_name: e.name.clone(),
            };
            assert(first_keyed(entries@, current@, i as int));
            return Ok(t);
        }
        i = i + 1;
    }
    Err(ConfigError::NetworkNotFound)
}

/// Whether real providers are used: only when the setting reads exactly
/// `true`; an absent setting means no.
pub fn real_apis_enabled(setting: &Option<String>) -> (r: bool)
    ensures
        r == (setting is Some && setting->Some_0@ == "true"@),
{
    match setting {
        Some(v) => *v == String::from_str("true"),
        None => false,
    }
}

} // verus!
