use ecoblock_node::context::EcoBlockContext;
use ecoblock_node::crypto::CryptoKeypair;
use ecoblock_node::hex::to_hex;
use ecoblock_node::store::{
    create_local_node, generate_keypair, get_node_id, get_public_key, initialize_mesh,
    initialize_tangle, keypair_path, load_keypair, node_is_initialized, reset_node, NodeStore,
};
use ecoblock_node::tangle::{Tangle, TangleBlock, TangleBlockData, TangleError};
use ecoblock_node::sensor::SensorData;
use ecoblock_node::{add_peer_connection, create_block, get_tangle_size, list_peers};

fn test_keypair(fill: u8) -> CryptoKeypair {
    CryptoKeypair::from_bytes(&vec![fill; 32]).unwrap()
}

fn test_context(fill: u8) -> EcoBlockContext {
    EcoBlockContext::with_keypair(test_keypair(fill))
}

fn payload() -> Vec<u8> {
    b"{\"pm25\":12,\"temperature\":21}".to_vec()
}

#[test]
fn valid_payload_appends_one_entry() {
    let mut context = test_context(7);
    assert_eq!(get_tangle_size(&context), 0);
    let id = create_block(&mut context, payload(), vec!["parent-a".to_string()]).unwrap();
    assert_eq!(id.len(), 128);
    assert!(id.chars().all(|c| c.is_ascii_hexdigit()));
    assert_eq!(get_tangle_size(&context), 1);
}

#[test]
fn malformed_payload_changes_nothing() {
    let mut context = test_context(7);
    let err = create_block(&mut context, b"not json at all".to_vec(), vec![]).unwrap_err();
    assert!(!err.is_empty());
    assert_eq!(get_tangle_size(&context), 0);
}

#[test]
fn non_object_payload_is_rejected() {
    let mut context = test_context(7);
    let err = create_block(&mut context, b"[1,2,3]".to_vec(), vec![]).unwrap_err();
    assert!(!err.is_empty());
    assert_eq!(get_tangle_size(&context), 0);
}

#[test]
fn repeated_content_keeps_a_single_entry() {
    let mut context = test_context(7);
    let id1 = create_block(&mut context, payload(), vec![]).unwrap();
    let id2 = create_block(&mut context, payload(), vec![]).unwrap();
    assert_eq!(id1, id2);
    assert_eq!(get_tangle_size(&context), 1);
}

#[test]
fn identifier_is_deterministic_per_seed_and_content() {
    let mut context_a = test_context(9);
    let mut context_b = test_context(9);
    let id_a = create_block(&mut context_a, payload(), vec!["p".to_string()]).unwrap();
    let id_b = create_block(&mut context_b, payload(), vec!["p".to_string()]).unwrap();
    assert_eq!(id_a, id_b);
}

#[test]
fn identifier_depends_on_parents_payload_and_seed() {
    let mut context = test_context(9);
    let base = create_block(&mut context, payload(), vec!["p".to_string()]).unwrap();
    let other_parents = create_block(&mut context, payload(), vec!["q".to_string()]).unwrap();
    let other_payload =
        create_block(&mut context, b"{\"pm25\":13}".to_vec(), vec!["p".to_string()]).unwrap();
    assert_ne!(base, other_parents);
    assert_ne!(base, other_payload);
    let mut other_seed = test_context(10);
    let other_key = create_block(&mut other_seed, payload(), vec!["p".to_string()]).unwrap();
    assert_ne!(base, other_key);
    assert_eq!(get_tangle_size(&context), 3);
}

#[test]
fn created_entries_are_handed_to_gossip() {
    let mut context = test_context(7);
    let id = create_block(&mut context, payload(), vec![]).unwrap();
    assert_eq!(context.gossip_engine.pending(), &vec![id]);
}

#[test]
fn duplicate_insert_is_refused_by_the_ledger() {
    let keypair = test_keypair(3);
    let mut ledger = Tangle::new();
    let entry = TangleBlock::new(
        TangleBlockData {
            parents: vec![],
            data: SensorData::from_bytes(payload()).unwrap(),
        },
        &keypair,
    );
    let copy = TangleBlock::new(
        TangleBlockData {
            parents: vec![],
            data: SensorData::from_bytes(payload()).unwrap(),
        },
        &keypair,
    );
    assert!(ledger.insert(entry).is_ok());
    assert_eq!(ledger.insert(copy).unwrap_err(), TangleError::DuplicateId);
    assert_eq!(ledger.len(), 1);
}

#[test]
fn connect_then_list_includes_target() {
    let mut context = test_context(7);
    add_peer_connection(
        &mut context,
        "A".to_string(),
        "B".to_string(),
        1.0f32.to_bits(),
    );
    let peers = list_peers(&context, "A".to_string());
    assert_eq!(peers, vec!["B".to_string()]);
}

#[test]
fn unknown_peer_lists_empty() {
    let context = test_context(7);
    let peers = list_peers(&context, "never-seen".to_string());
    assert!(peers.is_empty());
}

#[test]
fn repeated_connection_is_idempotent() {
    let mut context = test_context(7);
    add_peer_connection(&mut context, "A".to_string(), "B".to_string(), 1.0f32.to_bits());
    add_peer_connection(&mut context, "A".to_string(), "B".to_string(), 2.5f32.to_bits());
    assert_eq!(list_peers(&context, "A".to_string()), vec!["B".to_string()]);
}

#[test]
fn connections_are_directed() {
    let mut context = test_context(7);
    add_peer_connection(&mut context, "A".to_string(), "B".to_string(), 1.0f32.to_bits());
    assert!(list_peers(&context, "B".to_string()).is_empty());
}

#[test]
fn generate_then_get_public_key_same_hex() {
    let mut store = NodeStore { keypair_file: None };
    let generated = generate_keypair(&mut store).unwrap();
    assert_eq!(generated.len(), 64);
    assert_eq!(get_public_key(&store).unwrap(), generated);
    assert_eq!(get_node_id(&store).unwrap(), generated);
}

#[test]
fn generated_identities_differ() {
    let mut store_a = NodeStore { keypair_file: None };
    let mut store_b = NodeStore { keypair_file: None };
    let hex_a = generate_keypair(&mut store_a).unwrap();
    let hex_b = generate_keypair(&mut store_b).unwrap();
    assert_ne!(hex_a, hex_b);
    assert_ne!(store_a.keypair_file, store_b.keypair_file);
}

#[test]
fn lifecycle_create_check_reset() {
    let mut store = NodeStore { keypair_file: None };
    assert!(!node_is_initialized(&store));
    let node_id = create_local_node(&mut store).unwrap();
    assert_eq!(node_id.len(), 64);
    assert!(node_is_initialized(&store));
    reset_node(&mut store);
    assert!(!node_is_initialized(&store));
}

#[test]
fn second_create_is_refused_and_keeps_the_file() {
    let mut store = NodeStore { keypair_file: None };
    let first = create_local_node(&mut store).unwrap();
    let saved = store.keypair_file.clone();
    let err = create_local_node(&mut store).unwrap_err();
    assert_eq!(err, "AlreadyInitialized");
    assert_eq!(store.keypair_file, saved);
    assert_eq!(get_node_id(&store).unwrap(), first);
}

#[test]
fn reading_an_uninitialized_node_is_an_io_error() {
    let store = NodeStore { keypair_file: None };
    assert_eq!(
        get_public_key(&store).unwrap_err(),
        "IO error: keypair file not found"
    );
    assert!(load_keypair(&store).is_err());
}

#[test]
fn short_keypair_bytes_are_a_crypto_error() {
    let store = NodeStore {
        keypair_file: Some(vec![1, 2, 3]),
    };
    assert_eq!(
        get_public_key(&store).unwrap_err(),
        "Crypto error: invalid keypair length"
    );
}

#[test]
fn keypair_roundtrips_through_bytes() {
    let keypair = test_keypair(5);
    let bytes = keypair.to_bytes();
    assert_eq!(bytes, vec![5u8; 32]);
    let reloaded = CryptoKeypair::from_bytes(&bytes).unwrap();
    assert_eq!(reloaded.public_key_hex(), keypair.public_key_hex());
}

#[test]
fn public_key_is_not_the_seed_echoed() {
    let keypair = test_keypair(5);
    let hex = keypair.public_key_hex();
    assert_eq!(hex.len(), 64);
    assert_ne!(hex, to_hex(&vec![5u8; 32]));
    assert_ne!(hex, test_keypair(6).public_key_hex());
}

#[test]
fn hex_rendering_exact_values() {
    assert_eq!(to_hex(&vec![]), "");
    assert_eq!(to_hex(&vec![0u8, 255u8]), "00ff");
    assert_eq!(to_hex(&vec![0x12u8, 0xabu8, 0x09u8]), "12ab09");
}

#[test]
fn keypair_path_is_under_the_directory() {
    assert_eq!(keypair_path("some/dir"), "some/dir/node_keypair.bin");
}

#[test]
fn transient_initializers_agree_with_the_store() {
    let mut store = NodeStore { keypair_file: None };
    assert!(initialize_tangle().is_ok());
    assert_eq!(
        initialize_mesh(&store).unwrap_err(),
        "IO error: keypair file not found"
    );
    store.keypair_file = Some(vec![9, 9]);
    assert_eq!(
        initialize_mesh(&store).unwrap_err(),
        "Crypto error: invalid keypair length"
    );
    generate_keypair(&mut store).unwrap();
    assert!(initialize_mesh(&store).is_ok());
}
