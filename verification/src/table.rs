//! The route table: an immutable mapping from derived route keys to backend
//! channels, assembled once at startup from the configuration sequence.

use vstd::prelude::*;

use crate::config::ModelConfig;
use crate::routes::{config_route_key, route_key, unique_route_keys};

verus! {

/// Why a route table could not be assembled.
#[derive(Debug)]
pub enum RouteError {
    /// Two configuration records derive the same route key; the offending
    /// key is carried for diagnostics.
    DuplicateKey(String),
}

/// The key-to-channel mapping the gateway serves from. Built once; never
/// changed afterwards. The channel type is opaque to the table.
pub struct RouteTable<C> {
    entries: Vec<(String, C)>,
}

impl<C> View for RouteTable<C> {
    type V = Seq<(String, C)>;

    closed spec fn view(&self) -> Seq<(String, C)> {
        self.entries@
    }
}

impl<C> RouteTable<C> {
    /// Whether some entry carries the given key.
    pub open spec fn contains_key(&self, k: Seq<char>) -> bool {
        exists|i: int| 0 <= i < self@.len() && self@[i].0@ == k
    }

    /// Whether some entry pairs the given key with the given channel.
    pub open spec fn entry_is(&self, k: Seq<char>, c: C) -> bool {
        exists|i: int| 0 <= i < self@.len() && self@[i].0@ == k && self@[i].1 == c
    }

    /// Keys are pairwise distinct.
    pub open spec fn wf(&self) -> bool {
        forall|i: int, j: int| 0 <= i < j < self@.len() ==> self@[i].0@ != self@[j].0@
    }

    /// The table holds, in order, one entry per configuration record: its
    /// derived key paired with its channel.
    pub open spec fn built_from(&self, configs: Seq<ModelConfig>, channels: Seq<C>) -> bool {
        &&& self@.len() == configs.len()
        &&& forall|i: int|
            0 <= i < configs.len() ==> (#[trigger] self@[i]).0@ == config_route_key(configs[i])
                && self@[i].1 == channels[i]
    }

    /// Looks a route key up, handing the channel out on loan.
    pub fn lookup<'a>(&'a self, key: &String) -> (r: Option<&'a C>)
        ensures
            r is Some <==> self.contains_key(key@),
            r matches Some(c) ==> self.entry_is(key@, *c),
    {
        let n = self.entries.len();
        let mut i: usize = 0;
        while i < n
            invariant
                n == self@.len(),
                i <= n,
                forall|j: int| 0 <= j < i ==> self@[j].0@ != key@,
            decreases n - i,
        {
            let e = &self.entries[i];
            if e.0 == *key {
                return Some(&e.1);
            }
            i += 1;
        }
        None
    }
}

fn holds_key<C>(entries: &Vec<(String, C)>, key: &String) -> (r: bool)
    ensures
        r == exists|i: int| 0 <= i < entries@.len() && entries@[i].0@ == key@,
{
    let n = entries.len();
    let mut i: usize = 0;
    while i < n
        invariant
            n == entries@.len(),
            i <= n,
            forall|j: int| 0 <= j < i ==> entries@[j].0@ != key@,
        decreases n - i,
    {
        let e = &entries[i];
        if e.0 == *key {
            return true;
        }
        i += 1;
    }
    false
}

/// Assembles the table from the configuration sequence and one channel per
/// record. Duplicate derived keys are rejected: the table is built exactly
/// when the derived keys are pairwise distinct.
pub fn build_route_table<C>(configs: &Vec<ModelConfig>, channels: Vec<C>) -> (r: Result<
    RouteTable<C>,
    RouteError,
>)
    requires
        channels@.len() == configs@.len(),
    ensures
        r is Ok <==> unique_route_keys(configs@),
        r matches Ok(t) ==> t.built_from(configs@, channels@) && t.wf(),
        r matches Err(e) ==> (e matches RouteError::DuplicateKey(k) && exists|i: int, j: int|
            0 <= i < j < configs@.len() && config_route_key(configs@[i]) == k@
                && config_route_key(configs@[j]) == k@),
{
    let ghost all_channels = channels@;
    let mut channels = channels;
    let mut entries: Vec<(String, C)> = Vec::new();
    let n = configs.len();
    let mut i: usize = 0;
    while i < n
        invariant
            n == configs@.len(),
            all_channels.len() == n,
            i <= n,
            channels@ =~= all_channels.subrange(i as int, n as int),
            entries@.len() == i,
            forall|k: int|
                0 <= k < i ==> (#[trigger] entries@[k]).0@ == config_route_key(configs@[k])
                    && entries@[k].1 == all_channels[k],
            forall|p: int, q: int| 0 <= p < q < i ==> entries@[p].0@ != entries@[q].0@,
        decreases n - i,
    {
        let key = route_key(&configs[i]);
        if holds_key(&entries, &key) {
            proof {
                let p = choose|p: int| 0 <= p < entries@.len() && (#[trigger] entries@[p]).0@
                    == key@;
                assert(entries@[p].0@ == config_route_key(configs@[p]));
                assert(0 <= p < i < configs@.len() && config_route_key(configs@[p]) == key@
                    && config_route_key(configs@[i as int]) == key@);
                assert(!unique_route_keys(configs@));
            }
            return Err(RouteError::DuplicateKey(key));
        }
        let c = channels.remove(0);
        proof {
            assert(all_channels.subrange(i as int, n as int)[0] == all_channels[i as int]);
            assert(all_channels.subrange(i as int, n as int).subrange(
                1,
                (n - i) as int,
            ) =~= all_channels.subrange(i as int + 1, n as int));
        }
        entries.push((key, c));
        i += 1;
    }
    let table = RouteTable { entries };
    proof {
        assert forall|p: int, q: int|
            0 <= p < q < configs@.len() implies config_route_key(configs@[p]) != config_route_key(
            configs@[q],
        ) by {
            assert(table@[p].0@ == config_route_key(configs@[p]));
            assert(table@[q].0@ == config_route_key(configs@[q]));
        }
    }
    Ok(table)
}

/// Law: a table built from a configuration sequence holds exactly one entry
/// per record, every derived key resolves in it, and every key it holds is
/// a derived key of some record.
pub proof fn lemma_route_table_complete<C>(
    t: RouteTable<C>,
    configs: Seq<ModelConfig>,
    channels: Seq<C>,
)
    requires
        t.built_from(configs, channels),
    ensures
        t@.len() == configs.len(),
        forall|i: int| 0 <= i < configs.len() ==> t.contains_key(#[trigger] config_route_key(configs[i])),
        forall|k: Seq<char>|
            #[trigger] t.contains_key(k) ==> exists|i: int|
                0 <= i < configs.len() && config_route_key(configs[i]) == k,
{
    assert forall|i: int| 0 <= i < configs.len() implies t.contains_key(
        #[trigger] config_route_key(configs[i]),
    ) by {
        assert(t@[i].0@ == config_route_key(configs[i]));
    }
    assert forall|k: Seq<char>| #[trigger] t.contains_key(k) implies exists|i: int|
        0 <= i < configs.len() && config_route_key(configs[i]) == k by {
        let i = choose|i: int| 0 <= i < t@.len() && t@[i].0@ == k;
        assert(config_route_key(configs[i]) == k);
    }
}

/// Law: for a correctly built table, every configuration-derived route key
/// resolves, so the gateway's unknown-route reply cannot arise on a route
/// that was registered from the configuration.
pub proof fn lemma_derived_key_resolves<C>(
    t: RouteTable<C>,
    configs: Seq<ModelConfig>,
    channels: Seq<C>,
    i: int,
)
    requires
        t.built_from(configs, channels),
        0 <= i < configs.len(),
    ensures
        t.contains_key(config_route_key(configs[i])),
{
    assert(t@[i].0@ == config_route_key(configs[i]));
}

} // verus!
