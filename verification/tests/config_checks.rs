//! Checks of the configuration model: readiness, defaults and key
//! loading, against the real key and address routines.

use blst::min_pk::SecretKey;

use farmer_signing::bytes::{Bytes32, Bytes48};
use farmer_signing::config::{load_keys, Config, FarmingInfo, PoolWalletConfig};

fn b32(x: u8) -> Bytes32 {
    Bytes32 { bytes: vec![x; 32] }
}

fn secret(seed: u8) -> SecretKey {
    SecretKey::key_gen(&[seed; 32], &[]).expect("32-byte seed")
}

fn identity(seed: u8) -> FarmingInfo {
    FarmingInfo {
        farmer_secret_key: Bytes32 { bytes: secret(seed).to_bytes().to_vec() },
        launcher_id: None,
        pool_secret_key: None,
        owner_secret_key: None,
        auth_secret_key: None,
    }
}

fn xch_address(puzzle_hash: &Bytes32) -> String {
    let ph: dg_xch_core::blockchain::sized_bytes::Bytes32 = puzzle_hash.bytes.clone().into();
    dg_xch_keys::encode_puzzle_hash(&ph, "xch").expect("encodable")
}

fn ready_config() -> Config {
    let mut config = Config::default();
    config.fullnode_ws_host = "localhost".to_string();
    config.fullnode_rpc_host = "localhost".to_string();
    config.farmer_info = vec![identity(1)];
    config.payout_address = xch_address(&b32(0x21));
    config
}

#[test]
fn default_config_shape() {
    let config = Config::default();
    assert_eq!(config.selected_network, "mainnet");
    assert_eq!(config.fullnode_ws_port, 8444);
    assert_eq!(config.fullnode_rpc_port, 8555);
    assert!(config.farmer_info.is_empty());
    assert!(config.pool_info.is_empty());
    assert!(config.payout_address.is_empty());
    assert!(config.harvester_configs.bladebit.is_some());
}

#[test]
fn ready_with_identity_and_address() {
    assert!(ready_config().is_ready());
}

#[test]
fn not_ready_on_unknown_network() {
    let mut config = ready_config();
    config.selected_network = "nonet".to_string();
    assert!(!config.is_ready());
}

#[test]
fn not_ready_on_bad_address() {
    let mut config = ready_config();
    config.payout_address = "not-an-address".to_string();
    assert!(!config.is_ready());
}

#[test]
fn not_ready_without_identities() {
    let mut config = ready_config();
    config.farmer_info = vec![];
    assert!(!config.is_ready());
}

#[test]
fn not_ready_on_unowned_pool_entry() {
    let mut config = ready_config();
    config.pool_info = vec![PoolWalletConfig {
        launcher_id: b32(0x31),
        pool_url: "https://pool.example".to_string(),
        difficulty: Some(1),
        target_puzzle_hash: b32(0x32),
        p2_singleton_puzzle_hash: b32(0x33),
        owner_public_key: Bytes48 { bytes: secret(4).sk_to_pk().to_bytes().to_vec() },
    }];
    assert!(!config.is_ready());
    config.farmer_info[0].launcher_id = Some(b32(0x31));
    assert!(config.is_ready());
}

#[test]
fn load_keys_indexes_by_derived_public_key() {
    let farmer = secret(1);
    let pool = secret(2);
    let owner = secret(3);
    let auth = secret(4);
    let mut config = Config::default();
    config.farmer_info = vec![
        FarmingInfo {
            farmer_secret_key: Bytes32 { bytes: farmer.to_bytes().to_vec() },
            launcher_id: Some(b32(0x31)),
            pool_secret_key: Some(Bytes32 { bytes: pool.to_bytes().to_vec() }),
            owner_secret_key: Some(Bytes32 { bytes: owner.to_bytes().to_vec() }),
            auth_secret_key: Some(Bytes32 { bytes: auth.to_bytes().to_vec() }),
        },
        identity(5),
    ];
    let loaded = load_keys(&config);
    assert_eq!(loaded.farmer_keys.len(), 2);
    assert_eq!(loaded.pool_keys.len(), 1);
    assert_eq!(loaded.owner_keys.len(), 1);
    assert_eq!(loaded.auth_keys.len(), 1);
    assert_eq!(loaded.farmer_keys[0].public_key.bytes, farmer.sk_to_pk().to_bytes().to_vec());
    assert_eq!(loaded.farmer_keys[0].secret_key.bytes, farmer.to_bytes().to_vec());
    assert_eq!(loaded.pool_keys[0].public_key.bytes, pool.sk_to_pk().to_bytes().to_vec());
    // The authentication secret is indexed under the owner's derived key.
    assert_eq!(loaded.auth_keys[0].public_key.bytes, owner.sk_to_pk().to_bytes().to_vec());
    assert_eq!(loaded.auth_keys[0].secret_key.bytes, auth.to_bytes().to_vec());
}

#[test]
fn load_keys_keeps_each_public_key_once() {
    let mut config = Config::default();
    config.farmer_info = vec![identity(1), identity(1), identity(2)];
    let loaded = load_keys(&config);
    assert_eq!(loaded.farmer_keys.len(), 2);
    assert_eq!(
        loaded.farmer_keys[0].public_key.bytes,
        secret(1).sk_to_pk().to_bytes().to_vec()
    );
    assert_eq!(
        loaded.farmer_keys[1].public_key.bytes,
        secret(2).sk_to_pk().to_bytes().to_vec()
    );
}
