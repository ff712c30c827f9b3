use vstd::prelude::*;
use vstd::string::StringExecFns;
use crate::crypto::{public_of, CryptoKeypair};
use crate::hex::hex_of;
use crate::mesh::TopologyGraph;
use crate::tangle::Tangle;

verus! {

/// The persistent state of one node directory, reduced to what matters
/// here: the keypair file's bytes, or nothing while the file is absent.
/// The embedding application reads the directory into this value before a
/// call and writes the value back after it.
pub struct NodeStore {
    pub keypair_file: Option<Vec<u8>>,
}

impl NodeStore {
    /// A node is initialized exactly when its keypair file exists.
    pub open spec fn initialized(&self) -> bool {
        self.keypair_file is Some
    }
}

/// Where the keypair file of a node directory lives.
pub fn keypair_path(path: &str) -> (r: String)
    ensures
        r@ == path@ + "/node_keypair.bin"@,
{
    let mut s = String::from_str(path);
    s.append("/node_keypair.bin");
    s
}

/// What loading the keypair from a store yields.
pub open spec fn load_keypair_res(store: NodeStore, r: Result<CryptoKeypair, String>) -> bool {
    &&& (r is Ok <==> (store.keypair_file matches Some(b) && b@.len() == 32))
    &&& (r matches Ok(k) ==> (store.keypair_file matches Some(b) && k.wf() && k.seed_view()
        == b@))
    &&& (store.keypair_file is None ==> (r matches Err(e) && e@
        == "IO error: keypair file not found"@))
    &&& ((store.keypair_file matches Some(b) && b@.len() != 32) ==> (r matches Err(e) && e@
        == "Crypto error: invalid keypair length"@))
}

/// Reads the node's keypair out of the store: an absent file is an IO-kind
/// error, bytes of the wrong shape a crypto-kind error.
pub fn load_keypair(store: &NodeStore) -> (r: Result<CryptoKeypair, String>)
    ensures
        load_keypair_res(*store, r),
{
    match &store.keypair_file {
        None => Err(String::from_str("IO error: keypair file not found")),
        Some(bytes) => CryptoKeypair::from_bytes(bytes),
    }
}

/// What generating a keypair into a store does.
pub open spec fn generate_keypair_post(
    pre: NodeStore,
    post: NodeStore,
    r: Result<String, String>,
) -> bool {
    &&& (r matches Ok(h) ==> (post.keypair_file matches Some(b) && b@.len() == 32 && h@
        == hex_of(public_of(b@)) && h@.len() == 64))
    &&& (r matches Err(e) ==> (post == pre && e@.len() >= 14 && e@.subrange(0, 14)
        == "Crypto error: "@))
}

/// Creates a fresh identity and stores it as the keypair file, overwriting
/// any previous one, and returns the public key's hex rendering. Only a
/// failure of the entropy source is an error, and it leaves the store
/// alone.
pub fn generate_keypair(store: &mut NodeStore) -> (r: Result<String, String>)
    ensures
        generate_keypair_post(*old(store), *final(store), r),
{
    match CryptoKeypair::generate() {
        Err(e) => Err(e),
        Ok(keypair) => {
            store.keypair_file = Some(keypair.to_bytes());
            Ok(keypair.public_key_hex())
        },
    }
}

/// What reading the public key from a store yields.
pub open spec fn public_key_res(store: NodeStore, r: Result<String, String>) -> bool {
    &&& (r is Ok <==> (store.keypair_file matches Some(b) && b@.len() == 32))
    &&& (r matches Ok(h) ==> (store.keypair_file matches Some(b) && h@ == hex_of(public_of(b@))
        && h@.len() == 64))
    &&& (store.keypair_file is None ==> (r matches Err(e) && e@
        == "IO error: keypair file not found"@))
    &&& ((store.keypair_file matches Some(b) && b@.len() != 32) ==> (r matches Err(e) && e@
        == "Crypto error: invalid keypair length"@))
}

/// The node's public key in hex, read from the keypair file.
pub fn get_public_key(store: &NodeStore) -> (r: Result<String, String>)
    ensures
        public_key_res(*store, r),
{
    match load_keypair(store) {
        Err(e) => Err(e),
        Ok(keypair) => Ok(keypair.public_key_hex()),
    }
}

/// The node's identifier: the public key of its keypair, in hex.
pub fn get_node_id(store: &NodeStore) -> (r: Result<String, String>)
    ensures
        public_key_res(*store, r),
{
    match load_keypair(store) {
        Err(e) => Err(e),
        Ok(keypair) => {
            let node_id = keypair.public_key_hex();
            Ok(node_id)
        },
    }
}

/// Builds a transient empty ledger, checking that construction succeeds;
/// the ledger used at run time is the one inside the node context.
pub fn initialize_tangle() -> (r: Result<(), String>)
    ensures
        r is Ok,
{
    let _tangle = Tangle::new();
    Ok(())
}

/// Builds a transient topology and registers the node's own identifier in
/// it, checking the identity is readable; the topology used at run time is
/// the one inside the node context.
pub fn initialize_mesh(store: &NodeStore) -> (r: Result<(), String>)
    ensures
        r is Ok <==> (store.keypair_file matches Some(b) && b@.len() == 32),
        store.keypair_file is None ==> (r matches Err(e) && e@
            == "IO error: keypair file not found"@),
        (store.keypair_file matches Some(b) && b@.len() != 32) ==> (r matches Err(e) && e@
            == "Crypto error: invalid keypair length"@),
{
    match get_node_id(store) {
        Err(e) => Err(e),
        Ok(node_id) => {
            let mut mesh_graph = TopologyGraph::new();
            mesh_graph.add_node(&node_id);
            Ok(())
        },
    }
}

/// What guarded bootstrap does to a store.
pub open spec fn create_local_node_post(
    pre: NodeStore,
    post: NodeStore,
    r: Result<String, String>,
) -> bool {
    &&& (pre.initialized() ==> (r matches Err(e) && e@ == "AlreadyInitialized"@ && post == pre))
    &&& ((r is Err && r->Err_0@ == "AlreadyInitialized"@) <==> pre.initialized())
    &&& (r is Ok <==> !pre.initialized() && post.initialized())
    &&& (!pre.initialized() ==> {
        &&& (r matches Ok(h) ==> (post.keypair_file matches Some(b) && b@.len() == 32 && h@
            == hex_of(public_of(b@)) && h@.len() == 64))
        &&& (r is Err ==> post == pre)
    })
}

/// Guarded bootstrap: a directory that already holds a keypair file is
/// refused unchanged; otherwise the identity is generated, ledger and
/// topology construction are checked, and the fresh node identifier is
/// returned.
pub fn create_local_node(store: &mut NodeStore) -> (r: Result<String, String>)
    ensures
        create_local_node_post(*old(store), *final(store), r),
{
    if node_is_initialized(store) {
        return Err(String::from_str("AlreadyInitialized"));
    }
    match generate_keypair(store) {
        Err(e) => {
            proof {
                reveal_strlit("Crypto error: ");
                reveal_strlit("AlreadyInitialized");
                assert(e@[0] == e@.subrange(0, 14)[0]);
                assert(e@ != "AlreadyInitialized"@);
            }
            return Err(e);
        },
        Ok(_generated) => {},
    }
    match initialize_tangle() {
        Err(e) => return Err(e),
        Ok(()) => {},
    }
    match initialize_mesh(store) {
        Err(e) => return Err(e),
        Ok(()) => {},
    }
    get_node_id(store)
}

/// What resetting does to a store.
pub open spec fn reset_node_post(pre: NodeStore, post: NodeStore) -> bool {
    !post.initialized()
}

/// Best-effort delete of the keypair file; a directory without one is
/// already reset.
pub fn reset_node(store: &mut NodeStore)
    ensures
        reset_node_post(*old(store), *final(store)),
{
    store.keypair_file = None;
}

/// Whether this node directory holds a keypair file.
pub fn node_is_initialized(store: &NodeStore) -> (r: bool)
    ensures
        r == store.initialized(),
{
    store.keypair_file.is_some()
}

} // verus!
