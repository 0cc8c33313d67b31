use vstd::prelude::*;
use bitcoincore_rpc::bitcoin::BlockHash;
use bitcoincore_rpc::json::{GetBlockResult, GetBlockchainInfoResult};
use bitcoincore_rpc::{Auth, Client};
use crate::response::GatewayError;

verus! {

#[verifier::external_type_specification]
#[verifier::external_body]
pub struct ExClient(Client);

#[verifier::external_type_specification]
#[verifier::external_body]
pub struct ExRpcError(bitcoincore_rpc::Error);

#[verifier::external_type_specification]
#[verifier::external_body]
pub struct ExGetBlockResult(GetBlockResult);

#[verifier::external_type_specification]
#[verifier::external_body]
pub struct ExGetBlockchainInfoResult(GetBlockchainInfoResult);

#[verifier::external_type_specification]
#[verifier::external_body]
pub struct ExJsonError(serde_json::Error);

/// Relies on `bitcoincore_rpc::Client::new` with user and password
/// authentication: it builds the transport from the address (resolving it)
/// and makes no call to the node.
#[verifier::external_body]
fn connect(address: &str, user: String, password: String) -> (r: Result<Client, bitcoincore_rpc::Error>) {
    Client::new(address, Auth::UserPass(user, password))
}

/// Relies on `RpcApi::get_best_block_hash` (`getbestblockhash`); the hash is
/// handed back as its 32 canonical bytes.
#[verifier::external_body]
pub(crate) fn fetch_best_block_hash(client: &Client) -> (r: Result<[u8; 32], bitcoincore_rpc::Error>) {
    match bitcoincore_rpc::RpcApi::get_best_block_hash(client) {
        Ok(h) => Ok(<BlockHash as bitcoincore_rpc::bitcoin::hashes::Hash>::to_byte_array(h)),
        Err(e) => Err(e),
    }
}

/// Relies on `RpcApi::get_block_info` (`getblock` with verbosity 1) for the
/// block whose canonical bytes are given.
#[verifier::external_body]
pub(crate) fn fetch_block_info(client: &Client, hash: &[u8; 32]) -> (r: Result<GetBlockResult, bitcoincore_rpc::Error>) {
    let h = <BlockHash as bitcoincore_rpc::bitcoin::hashes::Hash>::from_byte_array(*hash);
    bitcoincore_rpc::RpcApi::get_block_info(client, &h)
}

/// Relies on `RpcApi::get_block_count` (`getblockcount`).
#[verifier::external_body]
pub(crate) fn fetch_block_count(client: &Client) -> (r: Result<u64, bitcoincore_rpc::Error>) {
    bitcoincore_rpc::RpcApi::get_block_count(client)
}

/// Relies on `RpcApi::get_blockchain_info` (`getblockchaininfo`).
#[verifier::external_body]
pub(crate) fn fetch_blockchain_info(client: &Client) -> (r: Result<GetBlockchainInfoResult, bitcoincore_rpc::Error>) {
    bitcoincore_rpc::RpcApi::get_blockchain_info(client)
}

/// Relies on the `Display` of `bitcoincore_rpc::Error` for its message.
#[verifier::external_body]
fn rpc_error_text(e: &bitcoincore_rpc::Error) -> (r: String) {
    e.to_string()
}

/// Relies on `serde_json::to_string` to write block metadata as JSON.
#[verifier::external_body]
pub(crate) fn block_info_json(info: &GetBlockResult) -> (r: Result<String, serde_json::Error>) {
    serde_json::to_string(info)
}

/// Relies on `serde_json::to_string` to write the chain summary as JSON.
#[verifier::external_body]
pub(crate) fn blockchain_info_json(info: &GetBlockchainInfoResult) -> (r: Result<String, serde_json::Error>) {
    serde_json::to_string(info)
}

/// Relies on the `Display` of `serde_json::Error` for its message.
#[verifier::external_body]
fn json_error_text(e: &serde_json::Error) -> (r: String) {
    e.to_string()
}

/// A failure of the node or of the transport, as a server-side error.
pub fn upstream_error(e: bitcoincore_rpc::Error) -> (r: GatewayError)
    ensures
        r is Upstream,
{
    GatewayError::Upstream(rpc_error_text(&e))
}

/// A node answer that could not be written back as JSON, as a server-side error.
pub fn encoding_error(e: serde_json::Error) -> (r: GatewayError)
    ensures
        r is Upstream,
{
    GatewayError::Upstream(json_error_text(&e))
}

/// Why the upstream handle could not be set up.
#[derive(Debug)]
pub enum InitError {
    /// The handle was set up before; the first one stays.
    AlreadyInitialized,
    /// The address could not be used to build the transport; carries the message.
    Transport(String),
}

/// The one handle to the upstream node: empty until `initialize` succeeds,
/// then fixed for good and only ever lent out by shared reference.
pub struct UpstreamSlot {
    client: Option<Client>,
}

impl UpstreamSlot {
    /// The handle held, if any.
    pub closed spec fn handle(&self) -> Option<Client> {
        self.client
    }

    pub open spec fn is_ready(&self) -> bool {
        self.handle() is Some
    }

    pub fn new() -> (r: Self)
        ensures
            r.handle() is None,
    {
        UpstreamSlot { client: None }
    }

    pub fn is_initialized(&self) -> (r: bool)
        ensures
            r == self.is_ready(),
    {
        self.client.is_some()
    }

    /// Builds the handle from the node's address and credentials. A second
    /// call is refused and leaves the first handle in place; a failed first
    /// call leaves the slot empty.
    pub fn initialize(&mut self, address: &str, user: String, password: String) -> (r: Result<(), InitError>)
        ensures
            old(self).is_ready() ==> r == Err::<(), InitError>(InitError::AlreadyInitialized)
                && final(self).handle() == old(self).handle(),
            !old(self).is_ready() ==> (r is Ok <==> final(self).is_ready()),
            !old(self).is_ready() && r is Err ==> (r matches Err(InitError::Transport(_)))
                && final(self).handle() is None,
    {
        if self.client.is_some() {
            return Err(InitError::AlreadyInitialized);
        }
        match connect(address, user, password) {
            Ok(c) => {
                self.client = Some(c);
                Ok(())
            },
            Err(e) => Err(InitError::Transport(rpc_error_text(&e))),
        }
    }

    /// Lends out the handle; only once it is set up.
    pub fn get(&self) -> (r: &Client)
        requires
            self.is_ready(),
        ensures
            Some(*r) == self.handle(),
    {
        self.client.as_ref().unwrap()
    }
}

} // verus!
