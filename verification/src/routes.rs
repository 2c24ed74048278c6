//! Route derivation: the key under which a backend is looked up, and the
//! HTTP path segment under which it is served.

use vstd::prelude::*;
use vstd::string::StringExecFns;

use crate::config::ModelConfig;

verus! {

/// The route key derived from a name and an optional sub-route:
/// the name alone, or `name-subroute`.
pub open spec fn spec_route_key(name: Seq<char>, sub_route: Option<Seq<char>>) -> Seq<char> {
    match sub_route {
        None => name,
        Some(s) => name + "-"@ + s,
    }
}

/// The route key of one configuration record.
pub open spec fn config_route_key(c: ModelConfig) -> Seq<char> {
    spec_route_key(c.name@, c.sub_route_view())
}

/// The externally visible HTTP path of one configuration record:
/// its route key followed by `/predict`.
pub open spec fn config_route_path(c: ModelConfig) -> Seq<char> {
    config_route_key(c) + "/predict"@
}

/// Whether a configuration sequence derives pairwise distinct route keys.
pub open spec fn unique_route_keys(configs: Seq<ModelConfig>) -> bool {
    forall|i: int, j: int|
        0 <= i < j < configs.len() ==> config_route_key(configs[i]) != config_route_key(
            configs[j],
        )
}

/// Derives the route key of one backend: `name`, or `name-subroute` when a
/// sub-route is configured.
pub fn route_key(config: &ModelConfig) -> (r: String)
    ensures
        r@ == config_route_key(*config),
{
    let mut key = config.name.clone();
    match &config.sub_route {
        Some(sub) => {
            key.append("-");
            key.append(sub.as_str());
        },
        None => {},
    }
    key
}

/// Derives the HTTP path under which one backend is served.
pub fn route_path(config: &ModelConfig) -> (r: String)
    ensures
        r@ == config_route_path(*config),
{
    let mut path = route_key(config);
    path.append("/predict");
    path
}

/// The routes to register, in configuration order: each backend's HTTP path
/// paired with the route key the handler resolves it back to. Computed once
/// and consumed by the server setup.
pub fn route_bindings(configs: &Vec<ModelConfig>) -> (r: Vec<(String, String)>)
    ensures
        r@.len() == configs@.len(),
        forall|i: int|
            0 <= i < configs@.len() ==> (#[trigger] r@[i]).0@ == config_route_path(configs@[i])
                && r@[i].1@ == config_route_key(configs@[i]),
{
    let mut bindings: Vec<(String, String)> = Vec::new();
    let n = configs.len();
    let mut i: usize = 0;
    while i < n
        invariant
            n == configs@.len(),
            i <= n,
            bindings@.len() == i,
            forall|k: int|
                0 <= k < i ==> (#[trigger] bindings@[k]).0@ == config_route_path(configs@[k])
                    && bindings@[k].1@ == config_route_key(configs@[k]),
        decreases n - i,
    {
        let config = &configs[i];
        bindings.push((route_path(config), route_key(config)));
        i += 1;
    }
    bindings
}

/// Law: distinct route keys give distinct HTTP paths, so the path-to-key
/// mapping the server registers is one-to-one.
pub proof fn lemma_route_paths_unique(configs: Seq<ModelConfig>)
    requires
        unique_route_keys(configs),
    ensures
        forall|i: int, j: int|
            0 <= i < j < configs.len() ==> config_route_path(configs[i]) != config_route_path(
                configs[j],
            ),
{
    assert forall|i: int, j: int|
        0 <= i < j < configs.len() implies config_route_path(configs[i]) != config_route_path(
        configs[j],
    ) by {
        let ki = config_route_key(configs[i]);
        let kj = config_route_key(configs[j]);
        if config_route_path(configs[i]) == config_route_path(configs[j]) {
            assert((ki + "/predict"@).len() == ki.len() + "/predict"@.len());
            assert((kj + "/predict"@).len() == kj.len() + "/predict"@.len());
            assert(ki =~= config_route_path(configs[i]).subrange(0, ki.len() as int));
            assert(kj =~= config_route_path(configs[j]).subrange(0, kj.len() as int));
        }
    }
}

} // verus!
