use vstd::prelude::*;

verus! {

/// The relay's settings.
#[derive(Debug)]
pub struct Config {
    /// Endpoint of a beacon-chain node with the light-client API.
    pub beacon_endpoint: String,
    /// Endpoint of an execution-layer node with the eth1 RPC API.
    pub eth1_endpoint: String,
    /// Most headers submitted in one batch.
    pub total_submit_headers: u32,
    /// Endpoint of a node of the receiving ledger.
    pub near_endpoint: String,
    /// Account that signs the relay's transactions.
    pub signer_account_id: String,
    /// Path of the file holding the signer's secret key.
    pub path_to_signer_secret_key: String,
    /// Account of the light-client contract.
    pub contract_account_id: String,
    /// Name of the Ethereum network.
    pub network: String,
}

} // verus!
