//! Gateway configuration: a small table of string settings keyed by a
//! one-byte identifier, built once at startup and then passed by value.

use std::collections::HashMap;
use vstd::prelude::*;

verus! {

broadcast use vstd::std_specs::hash::group_hash_axioms;

/// Key of the address the signalling endpoint listens on.
pub const LISTEN_ADDR: u8 = 0;

/// Key of the address of the upstream TCP service.
pub const UPSTREAM_ADDR: u8 = 1;

/// The configuration table.
pub struct Config {
    entries: HashMap<u8, String>,
}

impl View for Config {
    type V = Map<u8, Seq<char>>;

    closed spec fn view(&self) -> Map<u8, Seq<char>> {
        Map::new(|k: u8| self.entries@.contains_key(k), |k: u8| self.entries@[k]@)
    }
}

/// The value a lookup of `key` gives in a table: the stored string, or the
/// empty string where nothing is stored.
pub open spec fn lookup(m: Map<u8, Seq<char>>, key: u8) -> Seq<char> {
    if m.contains_key(key) {
        m[key]
    } else {
        Seq::empty()
    }
}

impl Config {
    /// A table holding the default listen and upstream addresses.
    pub fn new() -> (r: Config)
        ensures
            r@ == map![LISTEN_ADDR => "0.0.0.0:8000"@, UPSTREAM_ADDR => "127.0.0.1:9999"@],
    {
        let mut entries: HashMap<u8, String> = HashMap::new();
        entries.insert(LISTEN_ADDR, "0.0.0.0:8000".to_string());
        entries.insert(UPSTREAM_ADDR, "127.0.0.1:9999".to_string());
        let r = Config { entries };
        proof {
            reveal_strlit("0.0.0.0:8000");
            reveal_strlit("127.0.0.1:9999");
            assert(r@ =~= map![LISTEN_ADDR => "0.0.0.0:8000"@, UPSTREAM_ADDR => "127.0.0.1:9999"@]);
        }
        r
    }
}

/// Stores `val` under `key`, replacing any earlier value.
pub fn set(cfg: &mut Config, key: u8, val: String)
    ensures
        final(cfg)@ == old(cfg)@.insert(key, val@),
{
    cfg.entries.remove(&key);
    cfg.entries.insert(key, val);
    proof {
        assert(cfg@ =~= old(cfg)@.insert(key, val@));
    }
}

/// The value stored under `key`, or the empty string.
pub fn get(cfg: &Config, key: u8) -> (r: String)
    ensures
        r@ == lookup(cfg@, key),
{
    match cfg.entries.get(&key) {
        Some(v) => v.clone(),
        None => String::new(),
    }
}

} // verus!
