//! The farmer's configuration and key loading.

use vstd::prelude::*;

use crate::bls::pk_of_sk;
use crate::bls::sk_to_pk;
use crate::bytes::bytes_eq;
use crate::bytes::Bytes32;
use crate::bytes::Bytes48;
use crate::model::spec_has_key;
use crate::model::unique_keys;
use crate::model::KeyEntry;
use crate::model::KeyEntryV;
use dg_xch_core::traits::SizedBytes;

verus! {

// ---------------------------------------------------------------------------
// Configuration data
// ---------------------------------------------------------------------------

/// One farming identity: the farmer secret and the optional pool-related
/// secrets that belong to it.
pub struct FarmingInfo {
    pub farmer_secret_key: Bytes32,
    pub launcher_id: Option<Bytes32>,
    pub pool_secret_key: Option<Bytes32>,
    pub owner_secret_key: Option<Bytes32>,
    pub auth_secret_key: Option<Bytes32>,
}

impl FarmingInfo {
    pub open spec fn wf(&self) -> bool {
        &&& self.farmer_secret_key.wf()
        &&& match self.launcher_id {
            Some(b) => b.wf(),
            None => true,
        }
        &&& match self.pool_secret_key {
            Some(b) => b.wf(),
            None => true,
        }
        &&& match self.owner_secret_key {
            Some(b) => b.wf(),
            None => true,
        }
        &&& match self.auth_secret_key {
            Some(b) => b.wf(),
            None => true,
        }
    }
}

/// One pool membership, tied to a farming identity by its launcher id.
pub struct PoolWalletConfig {
    pub launcher_id: Bytes32,
    pub pool_url: String,
    pub difficulty: Option<u64>,
    pub target_puzzle_hash: Bytes32,
    pub p2_singleton_puzzle_hash: Bytes32,
    pub owner_public_key: Bytes48,
}

impl PoolWalletConfig {
    pub open spec fn wf(&self) -> bool {
        &&& self.launcher_id.wf()
        &&& self.target_puzzle_hash.wf()
        &&& self.p2_singleton_puzzle_hash.wf()
        &&& self.owner_public_key.wf()
    }
}

/// Plot directories handed to the bladebit harvester.
pub struct BladebitHarvesterConfig {
    pub plot_directories: Vec<String>,
}

/// Which harvesters run beside the farmer.
pub struct HarvesterConfig {
    pub bladebit: Option<BladebitHarvesterConfig>,
}

/// The farmer's configuration, loaded once at startup.
pub struct Config {
    pub selected_network: String,
    pub ssl_root_path: Option<String>,
    pub fullnode_ws_host: String,
    pub fullnode_ws_port: u16,
    pub fullnode_rpc_host: String,
    pub fullnode_rpc_port: u16,
    pub farmer_info: Vec<FarmingInfo>,
    pub pool_info: Vec<PoolWalletConfig>,
    pub payout_address: String,
    pub harvester_configs: HarvesterConfig,
}

impl Config {
    pub open spec fn wf(&self) -> bool {
        &&& forall|i: int| 0 <= i < self.farmer_info@.len() ==> (#[trigger] self.farmer_info@[i]).wf()
        &&& forall|i: int| 0 <= i < self.pool_info@.len() ==> (#[trigger] self.pool_info@[i]).wf()
    }
}

// ---------------------------------------------------------------------------
// Readiness
// ---------------------------------------------------------------------------

/// The decoded 32-byte puzzle hash of a bech32m address, if the address
/// decodes.
pub uninterp spec fn puzzle_hash_of(address: Seq<char>) -> Option<Seq<u8>>;

/// The networks that the consensus-constants table knows.
pub open spec fn spec_known_network(name: Seq<char>) -> bool {
    ||| name == "simulator"@
    ||| name == "testnet0"@
    ||| name == "testnet2"@
    ||| name == "testnet3"@
    ||| name == "testnet4"@
    ||| name == "testnet5"@
    ||| name == "testnet7"@
    ||| name == "testnet10"@
    ||| name == "testnet11"@
    ||| name == "mainnet"@
}

/// Relies on `CONSENSUS_CONSTANTS_MAP` of `dg_xch_core`: a fixed table
/// whose keys are exactly the network names listed in
/// `spec_known_network`.
#[verifier::external_body]
fn network_has_constants(name: &String) -> (r: bool)
    ensures
        r == spec_known_network(name@),
{
    dg_xch_core::consensus::constants::CONSENSUS_CONSTANTS_MAP.contains_key(name)
}

/// Relies on `dg_xch_keys::decode_puzzle_hash`: whether and to what an
/// address decodes is a function of the address alone.
#[verifier::external_body]
fn decode_payout_address(address: &String) -> (r: Option<Bytes32>)
    ensures
        match r {
            Some(h) => h.wf() && puzzle_hash_of(address@) == Some(h@),
            None => puzzle_hash_of(address@) is None,
        },
{
    match dg_xch_keys::decode_puzzle_hash(address) {
        Ok(b) => Some(Bytes32 { bytes: b.bytes().to_vec() }),
        Err(_) => None,
    }
}

/// A pool entry is covered when some farming identity carries its
/// launcher id.
pub open spec fn spec_pool_entry_covered(farmer_info: Seq<FarmingInfo>, pool: PoolWalletConfig) -> bool {
    exists|j: int|
        0 <= j < farmer_info.len() && (#[trigger] farmer_info[j].launcher_id).deep_view() == Some(
            pool.launcher_id@,
        )
}

fn pool_entry_covered(farmer_info: &Vec<FarmingInfo>, pool: &PoolWalletConfig) -> (r: bool)
    ensures
        r == spec_pool_entry_covered(farmer_info@, *pool),
{
    let mut j: usize = 0;
    while j < farmer_info.len()
        invariant
            0 <= j <= farmer_info@.len(),
            forall|k: int|
                0 <= k < j ==> (#[trigger] farmer_info@[k].launcher_id).deep_view() != Some(
                    pool.launcher_id@,
                ),
        decreases farmer_info@.len() - j,
    {
        match &farmer_info[j].launcher_id {
            Some(l) => {
                if bytes_eq(&l.bytes, &pool.launcher_id.bytes) {
                    proof {
                        assert(farmer_info@[j as int].launcher_id.deep_view() == Some(
                            pool.launcher_id@,
                        ));
                    }
                    return true;
                }
            },
            None => {},
        }
        j = j + 1;
    }
    false
}

impl Config {
    /// The configuration can drive a farmer: a known network, reachable
    /// node endpoints, at least one farming identity, a payout address
    /// that decodes, and every pool entry tied to an owned identity.
    pub open spec fn spec_is_ready(&self) -> bool {
        &&& spec_known_network(self.selected_network@)
        &&& self.fullnode_ws_host@.len() > 0
        &&& self.fullnode_rpc_host@.len() > 0
        &&& self.fullnode_ws_port != 0
        &&& self.fullnode_rpc_port != 0
        &&& self.farmer_info@.len() > 0
        &&& puzzle_hash_of(self.payout_address@) is Some
        &&& forall|i: int|
            0 <= i < self.pool_info@.len() ==> spec_pool_entry_covered(
                self.farmer_info@,
                #[trigger] self.pool_info@[i],
            )
    }

    pub fn is_ready(&self) -> (r: bool)
        ensures
            r == self.spec_is_ready(),
    {
        if !network_has_constants(&self.selected_network) {
            return false;
        }
        if self.fullnode_ws_host.as_str().is_empty() {
            return false;
        }
        if self.fullnode_rpc_host.as_str().is_empty() {
            return false;
        }
        if self.fullnode_ws_port == 0 {
            return false;
        }
        if self.fullnode_rpc_port == 0 {
            return false;
        }
        if self.farmer_info.len() == 0 {
            return false;
        }
        if decode_payout_address(&self.payout_address).is_none() {
            return false;
        }
        let mut i: usize = 0;
        while i < self.pool_info.len()
            invariant
                0 <= i <= self.pool_info@.len(),
                forall|k: int|
                    0 <= k < i ==> spec_pool_entry_covered(
                        self.farmer_info@,
                        #[trigger] self.pool_info@[k],
                    ),
            decreases self.pool_info@.len() - i,
        {
            if !pool_entry_covered(&self.farmer_info, &self.pool_info[i]) {
                return false;
            }
            i = i + 1;
        }
        true
    }
}

// ---------------------------------------------------------------------------
// Key loading
// ---------------------------------------------------------------------------

/// The four key indexes loaded from the configuration.
pub struct LoadedKeys {
    pub farmer_keys: Vec<KeyEntry>,
    pub owner_keys: Vec<KeyEntry>,
    pub auth_keys: Vec<KeyEntry>,
    pub pool_keys: Vec<KeyEntry>,
}

pub ghost struct LoadedKeysV {
    pub farmer_keys: Seq<KeyEntryV>,
    pub owner_keys: Seq<KeyEntryV>,
    pub auth_keys: Seq<KeyEntryV>,
    pub pool_keys: Seq<KeyEntryV>,
}

impl DeepView for LoadedKeys {
    type V = LoadedKeysV;

    open spec fn deep_view(&self) -> LoadedKeysV {
        LoadedKeysV {
            farmer_keys: self.farmer_keys.deep_view(),
            owner_keys: self.owner_keys.deep_view(),
            auth_keys: self.auth_keys.deep_view(),
            pool_keys: self.pool_keys.deep_view(),
        }
    }
}

impl LoadedKeys {
    /// Every entry is well-formed and every index is keyed uniquely, as
    /// the maps these indexes stand for would hold them.
    pub open spec fn wf(&self) -> bool {
        &&& forall|i: int| 0 <= i < self.farmer_keys@.len() ==> (#[trigger] self.farmer_keys@[i]).wf()
        &&& forall|i: int| 0 <= i < self.owner_keys@.len() ==> (#[trigger] self.owner_keys@[i]).wf()
        &&& forall|i: int| 0 <= i < self.auth_keys@.len() ==> (#[trigger] self.auth_keys@[i]).wf()
        &&& forall|i: int| 0 <= i < self.pool_keys@.len() ==> (#[trigger] self.pool_keys@[i]).wf()
        &&& unique_keys(self.farmer_keys.deep_view())
        &&& unique_keys(self.owner_keys.deep_view())
        &&& unique_keys(self.auth_keys.deep_view())
        &&& unique_keys(self.pool_keys.deep_view())
    }
}

/// Whether some entry is already stored under the public key.
fn has_key(entries: &Vec<KeyEntry>, public_key: &Bytes48) -> (r: bool)
    ensures
        r == spec_has_key(entries.deep_view(), public_key@),
{
    let ghost dv = entries.deep_view();
    let mut i: usize = 0;
    while i < entries.len()
        invariant
            0 <= i <= entries@.len(),
            dv == entries.deep_view(),
            dv.len() == entries@.len(),
            forall|j: int| 0 <= j < i ==> #[trigger] dv[j].public_key != public_key@,
        decreases entries@.len() - i,
    {
        if bytes_eq(&entries[i].public_key.bytes, &public_key.bytes) {
            proof {
                assert(dv[i as int].public_key == public_key@);
            }
            return true;
        }
        i = i + 1;
    }
    false
}

/// A key entry indexing `secret` under its own derived public key.
pub open spec fn spec_self_indexed(secret: Seq<u8>) -> KeyEntryV {
    KeyEntryV { public_key: pk_of_sk(secret), secret_key: secret }
}

/// Add an entry to an index unless its public key is already taken: an
/// already-indexed key keeps its first entry, so each index stays keyed
/// uniquely, as a map would hold it.
pub open spec fn spec_add_key(entries: Seq<KeyEntryV>, entry: KeyEntryV) -> Seq<KeyEntryV> {
    if spec_has_key(entries, entry.public_key) {
        entries
    } else {
        entries.push(entry)
    }
}

/// The keys contributed by one farming identity. The authentication
/// secret is indexed under the owner's derived public key, since it is
/// looked up by the owner it belongs to.
pub open spec fn spec_load_step(acc: LoadedKeysV, info: FarmingInfo) -> LoadedKeysV {
    LoadedKeysV {
        farmer_keys: spec_add_key(acc.farmer_keys, spec_self_indexed(info.farmer_secret_key@)),
        pool_keys: match info.pool_secret_key {
            Some(sk) => spec_add_key(acc.pool_keys, spec_self_indexed(sk@)),
            None => acc.pool_keys,
        },
        owner_keys: match info.owner_secret_key {
            Some(sk) => spec_add_key(acc.owner_keys, spec_self_indexed(sk@)),
            None => acc.owner_keys,
        },
        auth_keys: match (info.owner_secret_key, info.auth_secret_key) {
            (Some(osk), Some(ask)) => spec_add_key(
                acc.auth_keys,
                KeyEntryV { public_key: pk_of_sk(osk@), secret_key: ask@ },
            ),
            _ => acc.auth_keys,
        },
    }
}

/// The key indexes loaded from a list of farming identities, in order.
pub open spec fn spec_load_keys(infos: Seq<FarmingInfo>) -> LoadedKeysV
    decreases infos.len(),
{
    if infos.len() == 0 {
        LoadedKeysV {
            farmer_keys: Seq::empty(),
            owner_keys: Seq::empty(),
            auth_keys: Seq::empty(),
            pool_keys: Seq::empty(),
        }
    } else {
        spec_load_step(spec_load_keys(infos.drop_last()), infos.last())
    }
}

/// Derive and index every key the configuration names: farmer keys, and
/// the pool, owner and authentication keys of each identity that carries
/// them.
pub fn load_keys(config: &Config) -> (r: LoadedKeys)
    requires
        config.wf(),
    ensures
        r.deep_view() == spec_load_keys(config.farmer_info@),
        r.wf(),
{
    let mut out = LoadedKeys {
        farmer_keys: Vec::new(),
        owner_keys: Vec::new(),
        auth_keys: Vec::new(),
        pool_keys: Vec::new(),
    };
    let mut i: usize = 0;
    proof {
        assert(config.farmer_info@.take(0) =~= Seq::<FarmingInfo>::empty());
        assert(out.deep_view().farmer_keys =~= Seq::<KeyEntryV>::empty());
        assert(out.deep_view().owner_keys =~= Seq::<KeyEntryV>::empty());
        assert(out.deep_view().auth_keys =~= Seq::<KeyEntryV>::empty());
        assert(out.deep_view().pool_keys =~= Seq::<KeyEntryV>::empty());
    }
    while i < config.farmer_info.len()
        invariant
            0 <= i <= config.farmer_info@.len(),
            config.wf(),
            out.deep_view() == spec_load_keys(config.farmer_info@.take(i as int)),
            out.wf(),
        decreases config.farmer_info@.len() - i,
    {
        let info = &config.farmer_info[i];
        proof {
            assert(config.farmer_info@[i as int].wf());
        }
        let farmer_pk = sk_to_pk(&info.farmer_secret_key);
        if !has_key(&out.farmer_keys, &farmer_pk) {
            out.farmer_keys.push(
                KeyEntry { public_key: farmer_pk, secret_key: info.farmer_secret_key.duplicate() },
            );
        }
        match &info.pool_secret_key {
            Some(sk) => {
                let pk = sk_to_pk(sk);
                if !has_key(&out.pool_keys, &pk) {
                    out.pool_keys.push(KeyEntry { public_key: pk, secret_key: sk.duplicate() });
                }
            },
            None => {},
        }
        match &info.owner_secret_key {
            Some(osk) => {
                let opk = sk_to_pk(osk);
                if !has_key(&out.owner_keys, &opk) {
                    out.owner_keys.push(
                        KeyEntry { public_key: opk, secret_key: osk.duplicate() },
                    );
                }
                match &info.auth_secret_key {
                    Some(ask) => {
                        let opk_again = sk_to_pk(osk);
                        if !has_key(&out.auth_keys, &opk_again) {
                            out.auth_keys.push(
                                KeyEntry { public_key: opk_again, secret_key: ask.duplicate() },
                            );
                        }
                    },
                    None => {},
                }
            },
            None => {},
        }
        proof {
            assert(config.farmer_info@.take(i as int + 1).drop_last() =~= config.farmer_info@.take(
                i as int,
            ));
            assert(config.farmer_info@.take(i as int + 1).last() == config.farmer_info@[i as int]);
            assert(out.deep_view().farmer_keys =~= spec_load_keys(
                config.farmer_info@.take(i as int + 1),
            ).farmer_keys);
            assert(out.deep_view().pool_keys =~= spec_load_keys(
                config.farmer_info@.take(i as int + 1),
            ).pool_keys);
            assert(out.deep_view().owner_keys =~= spec_load_keys(
                config.farmer_info@.take(i as int + 1),
            ).owner_keys);
            assert(out.deep_view().auth_keys =~= spec_load_keys(
                config.farmer_info@.take(i as int + 1),
            ).auth_keys);
        }
        i = i + 1;
    }
    proof {
        assert(config.farmer_info@.take(config.farmer_info@.len() as int) =~= config.farmer_info@);
    }
    out
}

// ---------------------------------------------------------------------------
// Defaults
// ---------------------------------------------------------------------------

/// The stock configuration: mainnet against a local node, no identities.
pub open spec fn spec_default_config(c: Config) -> bool {
    &&& c.selected_network@ == "mainnet"@
    &&& c.ssl_root_path is None
    &&& c.fullnode_rpc_host@ == "localhost"@
    &&& c.fullnode_rpc_port == 8555
    &&& c.fullnode_ws_host@ == "localhost"@
    &&& c.fullnode_ws_port == 8444
    &&& c.farmer_info@.len() == 0
    &&& c.pool_info@.len() == 0
    &&& c.payout_address@.len() == 0
    &&& match c.harvester_configs.bladebit {
        Some(b) => b.plot_directories@.len() == 0,
        None => false,
    }
}

impl Default for Config {
    fn default() -> (r: Config)
        ensures
            spec_default_config(r),
    {
        proof {
            reveal_strlit("mainnet");
            reveal_strlit("localhost");
            reveal_strlit("");
        }
        Config {
            selected_network: "mainnet".to_owned(),
            ssl_root_path: None,
            fullnode_rpc_host: "localhost".to_owned(),
            fullnode_rpc_port: 8555,
            fullnode_ws_host: "localhost".to_owned(),
            fullnode_ws_port: 8444,
            farmer_info: Vec::new(),
            pool_info: Vec::new(),
            payout_address: "".to_owned(),
            harvester_configs: HarvesterConfig {
                bladebit: Some(BladebitHarvesterConfig { plot_directories: Vec::new() }),
            },
        }
    }
}

} // verus!
