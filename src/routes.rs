use vstd::prelude::*;
use bitcoincore_rpc::Client;
use crate::block_hash::{
    block_hash_from_query, block_hash_json, hash_hex_of_bytes, is_hash_hex, json_quoted,
    missing_hash_message,
};
use crate::decimal::{decimal_string, decimal_text};
use crate::response::{
    error_response, respond, GatewayError, Response, STATUS_BAD_REQUEST, STATUS_OK,
    STATUS_SERVER_ERROR,
};
use crate::upstream::{
    block_info_json, blockchain_info_json, encoding_error, fetch_best_block_hash,
    fetch_block_count, fetch_block_info, fetch_blockchain_info, upstream_error,
};

verus! {

/// A body that reports some block hash as a JSON string.
pub open spec fn is_hash_json(body: Seq<char>) -> bool {
    exists|b: Seq<u8>| b.len() == 32 && body == json_quoted(#[trigger] hash_hex_of_bytes(b))
}

/// The response for the best block hash the node reported, or for its failure.
pub fn respond_best_block_hash(outcome: Result<[u8; 32], GatewayError>) -> (r: Response)
    ensures
        match outcome {
            Ok(b) => r.status == STATUS_OK && r.body@ == json_quoted(hash_hex_of_bytes(b@)),
            Err(e) => r.status == e.http_status() && r.body@ == e.text(),
        },
{
    match outcome {
        Ok(b) => Response { status: STATUS_OK, body: block_hash_json(&b) },
        Err(e) => error_response(e),
    }
}

/// The response for the block count the node reported, or for its failure:
/// the count as decimal text.
pub fn respond_block_count(outcome: Result<u64, GatewayError>) -> (r: Response)
    ensures
        match outcome {
            Ok(n) => r.status == STATUS_OK && r.body@ == decimal_text(n as nat),
            Err(e) => r.status == e.http_status() && r.body@ == e.text(),
        },
{
    match outcome {
        Ok(n) => Response { status: STATUS_OK, body: decimal_string(n) },
        Err(e) => error_response(e),
    }
}

/// GET /getbestblockhash: one `getbestblockhash` call; 200 with the hash as a
/// JSON string, or 500 with the failure's message.
pub fn get_best_block_hash(client: &Client) -> (r: Response)
    ensures
        r.status == STATUS_OK || r.status == STATUS_SERVER_ERROR,
        r.status == STATUS_OK ==> is_hash_json(r.body@),
{
    let outcome = match fetch_best_block_hash(client) {
        Ok(b) => Ok(b),
        Err(e) => Err(upstream_error(e)),
    };
    let ghost sent = outcome;
    let r = respond_best_block_hash(outcome);
    proof {
        if let Ok(b) = sent {
            assert(r.body@ == json_quoted(hash_hex_of_bytes(b@)));
        }
    }
    r
}

/// GET /getblock?blockhash=<hex>: a missing or malformed hash is answered
/// with 400 before any upstream call; otherwise one `getblock` call for the
/// decoded hash, answered with 200 and the block metadata as JSON, or 500.
pub fn get_block(client: &Client, blockhash: Option<&str>) -> (r: Response)
    ensures
        blockhash is None ==> r.status == STATUS_BAD_REQUEST && r.body@ == missing_hash_message(),
        blockhash matches Some(s) && !is_hash_hex(s@) ==> r.status == STATUS_BAD_REQUEST,
        blockhash matches Some(s) && is_hash_hex(s@) ==> r.status == STATUS_OK || r.status
            == STATUS_SERVER_ERROR,
{
    let hash = match block_hash_from_query(blockhash) {
        Ok(b) => b,
        Err(e) => return error_response(e),
    };
    let outcome = match fetch_block_info(client, &hash) {
        Ok(info) => match block_info_json(&info) {
            Ok(text) => Ok(text),
            Err(e) => Err(encoding_error(e)),
        },
        Err(e) => Err(upstream_error(e)),
    };
    respond(outcome)
}

/// GET /getblockcount: one `getblockcount` call; 200 with the count in
/// decimal, or 500 with the failure's message.
pub fn get_block_count(client: &Client) -> (r: Response)
    ensures
        r.status == STATUS_OK || r.status == STATUS_SERVER_ERROR,
        r.status == STATUS_OK ==> exists|n: u64| r.body@ == #[trigger] decimal_text(n as nat),
{
    let outcome = match fetch_block_count(client) {
        Ok(n) => Ok(n),
        Err(e) => Err(upstream_error(e)),
    };
    let ghost sent = outcome;
    let r = respond_block_count(outcome);
    proof {
        if let Ok(n) = sent {
            assert(r.body@ == decimal_text(n as nat));
        }
    }
    r
}

/// GET /getblockchaininfo: one `getblockchaininfo` call; 200 with the chain
/// summary as JSON, or 500 with the failure's message.
pub fn get_blockchain_info(client: &Client) -> (r: Response)
    ensures
        r.status == STATUS_OK || r.status == STATUS_SERVER_ERROR,
{
    let outcome = match fetch_blockchain_info(client) {
        Ok(info) => match blockchain_info_json(&info) {
            Ok(text) => Ok(text),
            Err(e) => Err(encoding_error(e)),
        },
        Err(e) => Err(upstream_error(e)),
    };
    respond(outcome)
}

} // verus!
