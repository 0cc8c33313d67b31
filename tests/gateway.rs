use rpc_gateway::block_hash::{block_hash_from_query, block_hash_json};
use rpc_gateway::decimal::decimal_string;
use rpc_gateway::response::{
    error_response, respond, GatewayError, STATUS_BAD_REQUEST, STATUS_OK, STATUS_SERVER_ERROR,
};
use rpc_gateway::routes::{
    get_best_block_hash, get_block, get_block_count, get_blockchain_info,
    respond_best_block_hash, respond_block_count,
};
use rpc_gateway::upstream::{InitError, UpstreamSlot};

const GENESIS: &str = "000000000019d6689c085ae165831e934ff763ae46a2a6c172b3f1b60a8ce26f";

// Nothing listens on this port, so every upstream call fails at once.
const DEAD_NODE: &str = "http://127.0.0.1:1";

fn dead_slot() -> UpstreamSlot {
    let mut slot = UpstreamSlot::new();
    slot.initialize(DEAD_NODE, "user".to_string(), "pass".to_string())
        .expect("building the transport needs no live node");
    slot
}

#[test]
fn genesis_hash_decodes_in_reverse_byte_order() {
    let b = block_hash_from_query(Some(GENESIS)).unwrap();
    assert_eq!(b[0], 0x6f);
    assert_eq!(b[1], 0xe2);
    assert_eq!(b[31], 0x00);
    assert_eq!(b[27], 0x00);
    assert_eq!(b[26], 0x19);
    assert_eq!(b[25], 0xd6);
}

#[test]
fn hash_text_round_trips() {
    let b = block_hash_from_query(Some(GENESIS)).unwrap();
    assert_eq!(block_hash_json(&b), format!("\"{}\"", GENESIS));
}

#[test]
fn upper_case_hash_comes_back_lower_case() {
    let upper = GENESIS.to_uppercase();
    let b = block_hash_from_query(Some(&upper)).unwrap();
    assert_eq!(b, block_hash_from_query(Some(GENESIS)).unwrap());
    assert_eq!(block_hash_json(&b), format!("\"{}\"", GENESIS));
}

#[test]
fn malformed_hashes_are_client_errors() {
    let too_long = format!("{}0", GENESIS);
    let bad_char = format!("{}g", &GENESIS[..63]);
    for s in ["zz", "", &GENESIS[..63], too_long.as_str(), bad_char.as_str()] {
        match block_hash_from_query(Some(s)) {
            Err(GatewayError::BadRequest(m)) => assert!(!m.is_empty()),
            other => panic!("{:?} accepted: {:?}", s, other),
        }
    }
}

#[test]
fn missing_hash_is_a_client_error() {
    match block_hash_from_query(None) {
        Err(GatewayError::BadRequest(m)) => assert_eq!(m, "missing query parameter: blockhash"),
        other => panic!("{:?}", other),
    }
}

#[test]
fn best_block_hash_scenario() {
    let b = block_hash_from_query(Some(GENESIS)).unwrap();
    let r = respond_best_block_hash(Ok(b));
    assert_eq!(r.status, 200);
    assert_eq!(r.body, format!("\"{}\"", GENESIS));
}

#[test]
fn block_count_scenario() {
    let r = respond_block_count(Ok(700000));
    assert_eq!(r.status, 200);
    assert_eq!(r.body, "700000");
}

#[test]
fn decimal_edges() {
    assert_eq!(decimal_string(0), "0");
    assert_eq!(decimal_string(9), "9");
    assert_eq!(decimal_string(10), "10");
    assert_eq!(decimal_string(u64::MAX), "18446744073709551615");
}

#[test]
fn upstream_failure_is_a_server_error_with_its_message() {
    let r = respond_block_count(Err(GatewayError::Upstream("node went away".to_string())));
    assert_eq!(r.status, STATUS_SERVER_ERROR);
    assert_eq!(r.body, "node went away");
    let r = respond_best_block_hash(Err(GatewayError::Upstream("timeout".to_string())));
    assert_eq!(r.status, 500);
    assert_eq!(r.body, "timeout");
}

#[test]
fn respond_maps_each_outcome() {
    let r = respond(Ok("{\"a\":1}".to_string()));
    assert_eq!(r.status, STATUS_OK);
    assert_eq!(r.body, "{\"a\":1}");
    let r = respond(Err(GatewayError::BadRequest("bad".to_string())));
    assert_eq!(r.status, STATUS_BAD_REQUEST);
    assert_eq!(r.body, "bad");
    let r = error_response(GatewayError::Upstream("down".to_string()));
    assert_eq!(r.status, 500);
    assert_eq!(r.body, "down");
}

#[test]
fn second_initialize_is_refused_and_keeps_the_handle() {
    let mut slot = UpstreamSlot::new();
    assert!(!slot.is_initialized());
    assert!(slot.initialize(DEAD_NODE, "u".to_string(), "p".to_string()).is_ok());
    assert!(slot.is_initialized());
    let again = slot.initialize("http://127.0.0.1:2", "v".to_string(), "q".to_string());
    assert!(matches!(again, Err(InitError::AlreadyInitialized)));
    assert!(slot.is_initialized());
    assert!(format!("{:?}", slot.get()).contains("127.0.0.1:1"));
}

#[test]
fn unusable_address_fails_initialize() {
    let mut slot = UpstreamSlot::new();
    let r = slot.initialize("ftp://127.0.0.1:1", "u".to_string(), "p".to_string());
    assert!(matches!(r, Err(InitError::Transport(_))));
    assert!(!slot.is_initialized());
}

#[test]
fn malformed_hash_route_answers_400() {
    let slot = dead_slot();
    let r = get_block(slot.get(), Some("zz"));
    assert_eq!(r.status, 400);
    assert!(!r.body.is_empty());
    let r = get_block(slot.get(), None);
    assert_eq!(r.status, 400);
    assert_eq!(r.body, "missing query parameter: blockhash");
}

#[test]
fn routes_report_a_dead_node_as_500() {
    let slot = dead_slot();
    for r in [
        get_best_block_hash(slot.get()),
        get_block_count(slot.get()),
        get_blockchain_info(slot.get()),
        get_block(slot.get(), Some(GENESIS)),
    ] {
        assert_eq!(r.status, 500);
        assert!(!r.body.is_empty());
    }
}
